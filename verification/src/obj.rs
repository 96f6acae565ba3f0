use crate::text::{decimal_value, parse_usize, split_bytes, split_spec};
use core::num::{ParseFloatError, ParseIntError};
use vstd::prelude::*;
use vstd::string::StringSliceAdditionalSpecFns;

verus! {

#[verifier::external_type_specification]
#[verifier::external_body]
pub struct ExParseFloatError(ParseFloatError);

#[derive(Debug)]
pub enum OBJParseError {
    MissingCoordinate,
    MissingPrefix,
    CoordinateParseError(ParseFloatError),
    WeightParseError(ParseFloatError),
    NotEnoughTripletsInFace,
    MissingVertexInTriplet,
    TripletComponentParseError(ParseIntError),
}

/// The vertex indices of one corner of a face.
#[derive(Debug, Clone, PartialEq, Eq)]
pub struct Triplet {
    pub geometric_vertex: usize,
    pub texture_vertex: Option<usize>,
    pub vertex_normal: Option<usize>,
}

/// A face of at least three corners.
#[derive(Debug, Clone)]
pub struct Face {
    pub triplets: Vec<Triplet>,
}

/// The index an optional triplet component denotes: absent or empty gives `Some(None)`,
/// a valid index `Some(Some(i))`, anything else `None`.
pub open spec fn optional_index(parts: Seq<Seq<u8>>, k: int) -> Option<Option<usize>> {
    if k < parts.len() && parts[k].len() > 0 {
        match decimal_value(parts[k], usize::MAX as nat) {
            Some(v) => Some(Some(v as usize)),
            None => None,
        }
    } else {
        Some(None)
    }
}

/// The triplet that the text `b` (such as `5/3/2`, `5//2` or `5`) denotes, if valid.
pub open spec fn triplet_of(b: Seq<u8>) -> Option<Triplet> {
    let parts = split_spec(b, 47u8);
    match decimal_value(parts[0], usize::MAX as nat) {
        None => None,
        Some(g) => match (optional_index(parts, 1), optional_index(parts, 2)) {
            (Some(t), Some(n)) => Some(Triplet { geometric_vertex: g as usize, texture_vertex: t, vertex_normal: n }),
            _ => None,
        },
    }
}

proof fn lemma_split_nonempty(b: Seq<u8>, sep: u8)
    ensures
        split_spec(b, sep).len() >= 1,
    decreases b.len(),
{
    match crate::text::first_index_of(b, sep) {
        Some(i) => if 0 <= i < b.len() {
            lemma_split_nonempty(b.skip(i + 1), sep);
        },
        None => {},
    }
}

fn parse_optional_index(parts: &Vec<&str>, k: usize) -> (r: Result<Option<usize>, OBJParseError>)
    ensures
        match r {
            Ok(v) => optional_index(parts@.map_values(|p: &str| p.spec_bytes()), k as int) == Some(v),
            Err(e) => optional_index(parts@.map_values(|p: &str| p.spec_bytes()), k as int) is None && e is TripletComponentParseError,
        },
{
    let ghost bs = parts@.map_values(|p: &str| p.spec_bytes());
    if k < parts.len() {
        let part = parts[k];
        proof {
            assert(bs[k as int] == part.spec_bytes());
        }
        if part.is_empty() {
            proof {
                assert(part.spec_bytes().len() == 0) by {
                    if part.spec_bytes().len() > 0 {
                        vstd::utf8::encode_utf8_valid_utf8(part@);
                        vstd::utf8::encode_utf8_decode_utf8(part@);
                    }
                }
            }
            Ok(None)
        } else {
            proof {
                vstd::utf8::encode_utf8_decode_utf8(part@);
                assert(part.spec_bytes().len() > 0);
            }
            match parse_usize(part) {
                Ok(v) => Ok(Some(v)),
                Err(e) => Err(OBJParseError::TripletComponentParseError(e)),
            }
        }
    } else {
        Ok(None)
    }
}

/// Parses one corner of a face: the geometric vertex index, then optional texture and
/// normal indices, separated by `/`.
pub fn parse_triplet(triplet_str: &str) -> (r: Result<Triplet, OBJParseError>)
    ensures
        match r {
            Ok(t) => triplet_of(triplet_str.spec_bytes()) == Some(t),
            Err(e) => triplet_of(triplet_str.spec_bytes()) is None && e is TripletComponentParseError,
        },
{
    let split_triplet = split_bytes(triplet_str, 47u8);
    let ghost parts = split_spec(triplet_str.spec_bytes(), 47u8);
    proof {
        lemma_split_nonempty(triplet_str.spec_bytes(), 47u8);
        assert(split_triplet@.map_values(|p: &str| p.spec_bytes()) =~= parts);
    }
    let geometric_vertex = match parse_usize(split_triplet[0]) {
        Ok(v) => v,
        Err(e) => {
            return Err(OBJParseError::TripletComponentParseError(e));
        },
    };
    let texture_vertex = parse_optional_index(&split_triplet, 1)?;
    let vertex_normal = parse_optional_index(&split_triplet, 2)?;
    Ok(Triplet { geometric_vertex, texture_vertex, vertex_normal })
}

/// Law: the pieces of a corner text between its `/`s give the triplet's indices by position,
/// however many pieces there are: the first is the geometric vertex; the second, when there is
/// one and it is not empty, the texture vertex (none otherwise); the third, likewise, the
/// vertex normal.
pub proof fn lemma_triplet_pieces(b: Seq<u8>)
    ensures
        triplet_of(b) matches Some(t) ==> {
            let parts = split_spec(b, 47u8);
            &&& decimal_value(parts[0], usize::MAX as nat) == Some(t.geometric_vertex as nat)
            &&& (parts.len() > 1 && parts[1].len() > 0) ==> (t.texture_vertex matches Some(v)
                && decimal_value(parts[1], usize::MAX as nat) == Some(v as nat))
            &&& !(parts.len() > 1 && parts[1].len() > 0) ==> t.texture_vertex is None
            &&& (parts.len() > 2 && parts[2].len() > 0) ==> (t.vertex_normal matches Some(v)
                && decimal_value(parts[2], usize::MAX as nat) == Some(v as nat))
            &&& !(parts.len() > 2 && parts[2].len() > 0) ==> t.vertex_normal is None
        },
{
}

/// Law: a corner text is a triplet exactly when its first piece is an index and each of its
/// second and third pieces, where present and not empty, is one.
pub proof fn lemma_triplet_valid(b: Seq<u8>)
    ensures
        triplet_of(b) is Some <==> {
            let parts = split_spec(b, 47u8);
            &&& decimal_value(parts[0], usize::MAX as nat) is Some
            &&& (parts.len() > 1 && parts[1].len() > 0) ==> decimal_value(parts[1], usize::MAX as nat) is Some
            &&& (parts.len() > 2 && parts[2].len() > 0) ==> decimal_value(parts[2], usize::MAX as nat) is Some
        },
{
}

/// Whether every corner text in `tokens` denotes a triplet.
pub open spec fn all_corners_valid(tokens: Seq<Seq<u8>>) -> bool {
    forall|i: int| 0 <= i < tokens.len() ==> #[trigger] triplet_of(tokens[i]) is Some
}

/// The face that the corner texts `tokens` denote: every corner must be valid, and there
/// must be at least three.
pub open spec fn face_of(tokens: Seq<Seq<u8>>) -> Option<Seq<Triplet>> {
    if all_corners_valid(tokens) {
        if tokens.len() < 3 {
            None
        } else {
            Some(tokens.map_values(|t: Seq<u8>| triplet_of(t)->Some_0))
        }
    } else {
        None
    }
}

/// Parses the corners of a face, given as the space-separated texts after the `f` prefix.
/// The first invalid corner is reported; fewer than three corners is an error.
pub fn parse_face(tokens: &[&str]) -> (r: Result<Face, OBJParseError>)
    ensures
        match r {
            Ok(f) => face_of(tokens@.map_values(|t: &str| t.spec_bytes())) == Some(f.triplets@),
            Err(e) => face_of(tokens@.map_values(|t: &str| t.spec_bytes())) is None
                && if all_corners_valid(tokens@.map_values(|t: &str| t.spec_bytes())) {
                    e is NotEnoughTripletsInFace
                } else {
                    e is TripletComponentParseError
                },
        },
{
    let ghost bs = tokens@.map_values(|t: &str| t.spec_bytes());
    let mut triplets: Vec<Triplet> = Vec::new();
    for i in 0..tokens.len()
        invariant
            bs == tokens@.map_values(|t: &str| t.spec_bytes()),
            triplets@.len() == i,
            forall|k: int| 0 <= k < i ==> #[trigger] triplet_of(bs[k]) == Some(triplets@[k]),
    {
        let t = parse_triplet(tokens[i]);
        match t {
            Ok(triplet) => {
                triplets.push(triplet);
            },
            Err(e) => {
                proof {
                    assert(triplet_of(bs[i as int]) is None);
                    assert(!all_corners_valid(bs));
                }
                return Err(e);
            },
        }
    }
    proof {
        assert forall|k: int| 0 <= k < tokens@.len() implies #[trigger] triplet_of(tokens@[k].spec_bytes()) is Some by {
            assert(bs[k] == tokens@[k].spec_bytes());
            assert(triplet_of(bs[k]) == Some(triplets@[k]));
        }
        assert(forall|k: int| 0 <= k < bs.len() ==> #[trigger] triplet_of(bs[k]) is Some);
        assert(all_corners_valid(bs));
    }
    if triplets.len() < 3 {
        return Err(OBJParseError::NotEnoughTripletsInFace);
    }
    proof {
        assert(bs.map_values(|t: Seq<u8>| triplet_of(t)->Some_0) =~= triplets@);
    }
    Ok(Face { triplets })
}

/// What a line of an OBJ file declares, as its first space-separated piece names it.
#[derive(Debug, Clone, Copy, PartialEq, Eq, Structural)]
pub enum LineKind {
    /// `v`
    GeometricVertex,
    /// `vn`
    VertexNormal,
    /// `vt`
    TextureVertex,
    /// `f`
    Face,
    /// Anything else, which the parser skips.
    Other,
}

/// The kind of line whose first piece has the bytes `prefix`.
pub open spec fn line_kind_of(prefix: Seq<u8>) -> LineKind {
    if prefix.len() == 1 && prefix[0] == 118u8 {
        LineKind::GeometricVertex
    } else if prefix.len() == 2 && prefix[0] == 118u8 && prefix[1] == 110u8 {
        LineKind::VertexNormal
    } else if prefix.len() == 2 && prefix[0] == 118u8 && prefix[1] == 116u8 {
        LineKind::TextureVertex
    } else if prefix.len() == 1 && prefix[0] == 102u8 {
        LineKind::Face
    } else {
        LineKind::Other
    }
}

/// Splits a line of an OBJ file at its spaces: the kind of line its first piece names, and
/// the pieces after that one.
pub fn classify_line(line: &str) -> (r: (LineKind, Vec<&str>))
    ensures
        r.0 == line_kind_of(split_spec(line.spec_bytes(), 32u8)[0]),
        r.1@.map_values(|t: &str| t.spec_bytes()) == split_spec(line.spec_bytes(), 32u8).drop_first(),
{
    let pieces = split_bytes(line, 32u8);
    let ghost parts = split_spec(line.spec_bytes(), 32u8);
    proof {
        lemma_split_nonempty(line.spec_bytes(), 32u8);
    }
    let p = pieces[0].as_bytes();
    let kind = if p.len() == 1 && p[0] == 118u8 {
        LineKind::GeometricVertex
    } else if p.len() == 2 && p[0] == 118u8 && p[1] == 110u8 {
        LineKind::VertexNormal
    } else if p.len() == 2 && p[0] == 118u8 && p[1] == 116u8 {
        LineKind::TextureVertex
    } else if p.len() == 1 && p[0] == 102u8 {
        LineKind::Face
    } else {
        LineKind::Other
    };
    let mut rest: Vec<&str> = Vec::new();
    let mut i: usize = 1;
    while i < pieces.len()
        invariant
            pieces@.len() == parts.len(),
            forall|k: int| 0 <= k < pieces@.len() ==> #[trigger] pieces@[k].spec_bytes() == parts[k],
            1 <= i <= pieces@.len(),
            rest@.map_values(|t: &str| t.spec_bytes()) == parts.subrange(1, i as int),
        decreases pieces@.len() - i,
    {
        let ghost before = rest@;
        rest.push(pieces[i]);
        proof {
            assert(rest@ == before.push(pieces@[i as int]));
            assert(pieces@[i as int].spec_bytes() == parts[i as int]);
            let now = rest@.map_values(|t: &str| t.spec_bytes());
            let was = before.map_values(|t: &str| t.spec_bytes());
            assert(was == parts.subrange(1, i as int));
            assert(was.len() == i - 1);
            assert(before.len() == i - 1);
            assert(now.len() == i);
            assert forall|k: int| 0 <= k < i implies #[trigger] now[k] == parts.subrange(1, i + 1)[k] by {
                if k < i - 1 {
                    assert(rest@[k] == before[k]);
                    assert(was[k] == parts.subrange(1, i as int)[k]);
                }
            }
            assert(now =~= parts.subrange(1, i + 1));
        }
        i = i + 1;
    }
    proof {
        assert(parts.subrange(1, parts.len() as int) =~= parts.drop_first());
    }
    (kind, rest)
}

} // verus!

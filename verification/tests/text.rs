use tubereng::obj::{classify_line, parse_face, parse_triplet, LineKind, OBJParseError};
use tubereng::text::split_bytes;

#[test]
fn split_keeps_empty_pieces() {
    assert_eq!(split_bytes("1//3", b'/'), vec!["1", "", "3"]);
    assert_eq!(split_bytes("abc", b'/'), vec!["abc"]);
    assert_eq!(split_bytes("", b' '), vec![""]);
}

#[test]
fn triplet_indices_accept_a_plus_sign_and_refuse_signs_below_zero() {
    assert_eq!(parse_triplet("+42").unwrap().geometric_vertex, 42);
    assert!(parse_triplet("-1").is_err());
    assert!(parse_triplet("1/99999999999999999999999").is_err());
}

#[test]
fn triplets_and_faces() {
    let t = parse_triplet("1/2/3").unwrap();
    assert_eq!((t.geometric_vertex, t.texture_vertex, t.vertex_normal), (1, Some(2), Some(3)));
    let t = parse_triplet("4//6").unwrap();
    assert_eq!((t.geometric_vertex, t.texture_vertex, t.vertex_normal), (4, None, Some(6)));
    let t = parse_triplet("7").unwrap();
    assert_eq!((t.geometric_vertex, t.texture_vertex, t.vertex_normal), (7, None, None));
    assert!(matches!(parse_triplet("x/1"), Err(OBJParseError::TripletComponentParseError(_))));
    let face = parse_face(&["1/1/1", "2/2/2", "3/3/3"]).unwrap();
    assert_eq!(face.triplets.len(), 3);
    assert_eq!(face.triplets[2].geometric_vertex, 3);
}

#[test]
fn face_errors() {
    assert!(matches!(parse_face(&["1", "2"]), Err(OBJParseError::NotEnoughTripletsInFace)));
    assert!(matches!(
        parse_face(&["1", "x", "3", "4"]),
        Err(OBJParseError::TripletComponentParseError(_))
    ));
    assert!(matches!(parse_face(&["1", "2/y"]), Err(OBJParseError::TripletComponentParseError(_))));
}

#[test]
fn obj_lines_are_classified_by_their_first_piece() {
    let (kind, rest) = classify_line("vt 16.0 32.0");
    assert_eq!(kind, LineKind::TextureVertex);
    assert_eq!(rest, vec!["16.0", "32.0"]);
    assert_eq!(classify_line("v 1 2 3").0, LineKind::GeometricVertex);
    assert_eq!(classify_line("vn 0 1 0").0, LineKind::VertexNormal);
    let (kind, rest) = classify_line("f 1/1/1 2/2/2 3/3/3");
    assert_eq!(kind, LineKind::Face);
    assert_eq!(rest.len(), 3);
    assert_eq!(classify_line("# comment").0, LineKind::Other);
    assert_eq!(classify_line("").0, LineKind::Other);
    assert!(classify_line("").1.is_empty());
}

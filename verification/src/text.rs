use core::num::ParseIntError;
use vstd::prelude::*;
use vstd::string::StringSliceAdditionalSpecFns;
use vstd::utf8::{decode_first_scalar, encode_scalar, encode_utf8, encode_utf8_first_scalar, length_of_first_scalar};

verus! {

#[verifier::external_type_specification]
#[verifier::external_body]
pub struct ExParseIntError(ParseIntError);

/// Index of the first byte equal to `sep` in `b`, if any.
pub open spec fn first_index_of(b: Seq<u8>, sep: u8) -> Option<int>
    decreases b.len(),
{
    if b.len() == 0 {
        None
    } else if b[0] == sep {
        Some(0)
    } else {
        match first_index_of(b.skip(1), sep) {
            Some(i) => Some(i + 1),
            None => None,
        }
    }
}

/// The pieces of `b` between occurrences of `sep`, empty pieces included.
pub open spec fn split_spec(b: Seq<u8>, sep: u8) -> Seq<Seq<u8>>
    decreases b.len(),
{
    match first_index_of(b, sep) {
        Some(i) => if 0 <= i < b.len() {
            seq![b.take(i)] + split_spec(b.skip(i + 1), sep)
        } else {
            seq![b]
        },
        None => seq![b],
    }
}

/// Whether every byte is an ASCII decimal digit.
pub open spec fn all_digits(b: Seq<u8>) -> bool {
    forall|i: int| 0 <= i < b.len() ==> 48 <= #[trigger] b[i] <= 57
}

/// The value of a sequence of decimal digits.
pub open spec fn digits_value(b: Seq<u8>) -> nat
    decreases b.len(),
{
    if b.len() == 0 {
        0
    } else {
        digits_value(b.drop_last()) * 10 + (b.last() - 48) as nat
    }
}

/// The unsigned integer that the text `b` denotes: an optional `+` followed by at least one
/// decimal digit, with a value that fits.
pub open spec fn decimal_value(b: Seq<u8>, max: nat) -> Option<nat> {
    let digits = if b.len() > 0 && b[0] == 43u8 {
        b.skip(1)
    } else {
        b
    };
    if digits.len() > 0 && all_digits(digits) && digits_value(digits) <= max {
        Some(digits_value(digits))
    } else {
        None
    }
}

/// Parses `s` as a `usize` with `str::parse`: an optional `+` followed by decimal digits.
#[verifier::external_body]
pub(crate) fn parse_usize(s: &str) -> (r: Result<usize, ParseIntError>)
    ensures
        match r {
            Ok(n) => decimal_value(s.spec_bytes(), usize::MAX as nat) == Some(n as nat),
            Err(_) => decimal_value(s.spec_bytes(), usize::MAX as nat) is None,
        },
{
    s.parse::<usize>()
}

/// Parses `s` as a `u32` with `str::parse`: an optional `+` followed by decimal digits.
#[verifier::external_body]
pub(crate) fn parse_u32(s: &str) -> (r: Result<u32, ParseIntError>)
    ensures
        match r {
            Ok(n) => decimal_value(s.spec_bytes(), u32::MAX as nat) == Some(n as nat),
            Err(_) => decimal_value(s.spec_bytes(), u32::MAX as nat) is None,
        },
{
    s.parse::<u32>()
}

/// String equality, byte by byte.
pub(crate) fn str_eq(a: &str, b: &str) -> (r: bool)
    ensures
        r == (a@ == b@),
{
    let x = a.as_bytes();
    let y = b.as_bytes();
    proof {
        vstd::utf8::encode_utf8_decode_utf8(a@);
        vstd::utf8::encode_utf8_decode_utf8(b@);
    }
    if x.len() != y.len() {
        return false;
    }
    let mut i: usize = 0;
    while i < x.len()
        invariant
            x@ == a.spec_bytes(),
            y@ == b.spec_bytes(),
            x@.len() == y@.len(),
            i <= x@.len(),
            forall|k: int| 0 <= k < i ==> x@[k] == y@[k],
        decreases x@.len() - i,
    {
        if x[i] != y[i] {
            return false;
        }
        i = i + 1;
    }
    proof {
        assert(x@ =~= y@);
    }
    true
}

/// The UTF-8 encoding of two texts one after the other is the two encodings one after the
/// other.
proof fn lemma_encode_concat(a: Seq<char>, b: Seq<char>)
    ensures
        encode_utf8(a + b) == encode_utf8(a) + encode_utf8(b),
    decreases a.len(),
{
    if a.len() == 0 {
        assert(a + b =~= b);
        assert(encode_utf8(a) + encode_utf8(b) =~= encode_utf8(b));
    } else {
        assert((a + b).drop_first() =~= a.drop_first() + b);
        lemma_encode_concat(a.drop_first(), b);
        assert((a + b)[0] == a[0]);
        assert(encode_utf8(a + b) =~= encode_utf8(a) + encode_utf8(b));
    }
}

/// A text is a prefix of another exactly when its encoding is a prefix of the other's.
proof fn lemma_encode_prefix(p: Seq<char>, s: Seq<char>)
    ensures
        p.is_prefix_of(s) <==> encode_utf8(p).is_prefix_of(encode_utf8(s)),
    decreases p.len(),
{
    let ep = encode_utf8(p);
    let es = encode_utf8(s);
    if p.is_prefix_of(s) {
        let rest = s.subrange(p.len() as int, s.len() as int);
        assert(s =~= p + rest);
        lemma_encode_concat(p, rest);
        assert(es == ep + encode_utf8(rest));
        assert(ep =~= es.subrange(0, ep.len() as int));
    }
    if ep.is_prefix_of(es) && p.len() > 0 {
        encode_utf8_first_scalar(p);
        let w = encode_scalar(p[0] as u32).len();
        assert(ep =~= encode_scalar(p[0] as u32) + encode_utf8(p.drop_first()));
        if s.len() == 0 {
            assert(es.len() == 0);
            assert(false);
        }
        encode_utf8_first_scalar(s);
        assert(es =~= encode_scalar(s[0] as u32) + encode_utf8(s.drop_first()));
        assert(forall|k: int| 0 <= k < ep.len() ==> ep[k] == es[k]);
        assert(ep[0] == es[0]);
        assert(length_of_first_scalar(ep) == length_of_first_scalar(es));
        assert(1 <= w <= 4);
        assert(decode_first_scalar(ep) == decode_first_scalar(es)) by {
            if w >= 2 {
                assert(ep[1] == es[1]);
            }
            if w >= 3 {
                assert(ep[2] == es[2]);
            }
            if w >= 4 {
                assert(ep[3] == es[3]);
            }
        }
        vstd::utf8::char_u32_cast(p[0], p[0] as u32);
        vstd::utf8::char_u32_cast(s[0], s[0] as u32);
        assert(p[0] == s[0]);
        let ep1 = encode_utf8(p.drop_first());
        let es1 = encode_utf8(s.drop_first());
        assert(ep1 =~= ep.subrange(w as int, ep.len() as int));
        assert(es1 =~= es.subrange(w as int, es.len() as int));
        assert(ep1 =~= es1.subrange(0, ep1.len() as int));
        lemma_encode_prefix(p.drop_first(), s.drop_first());
        assert(p.drop_first().is_prefix_of(s.drop_first()));
        assert forall|k: int| 0 <= k < p.len() implies p[k] == s[k] by {
            if k > 0 {
                assert(p[k] == p.drop_first()[k - 1]);
                assert(p.drop_first()[k - 1] == s.drop_first().subrange(0, p.len() - 1)[k - 1]);
            }
        }
        assert(p =~= s.subrange(0, p.len() as int));
    }
}

/// Whether `s` starts with `prefix`, byte by byte.
pub(crate) fn str_starts_with(s: &str, prefix: &str) -> (r: bool)
    ensures
        r == prefix@.is_prefix_of(s@),
{
    let x = s.as_bytes();
    let y = prefix.as_bytes();
    proof {
        lemma_encode_prefix(prefix@, s@);
    }
    if y.len() > x.len() {
        return false;
    }
    let mut i: usize = 0;
    while i < y.len()
        invariant
            x@ == s.spec_bytes(),
            y@ == prefix.spec_bytes(),
            y@.len() <= x@.len(),
            i <= y@.len(),
            forall|k: int| 0 <= k < i ==> x@[k] == y@[k],
            prefix@.is_prefix_of(s@) <==> y@.is_prefix_of(x@),
        decreases y@.len() - i,
    {
        if x[i] != y[i] {
            return false;
        }
        i = i + 1;
    }
    proof {
        assert(y@ =~= x@.subrange(0, y@.len() as int));
    }
    true
}

proof fn lemma_first_index_bounds(b: Seq<u8>, sep: u8)
    ensures
        match first_index_of(b, sep) {
            Some(i) => 0 <= i < b.len() && b[i] == sep && forall|k: int| 0 <= k < i ==> b[k] != sep,
            None => forall|k: int| 0 <= k < b.len() ==> b[k] != sep,
        },
    decreases b.len(),
{
    if b.len() > 0 && b[0] != sep {
        lemma_first_index_bounds(b.skip(1), sep);
        match first_index_of(b.skip(1), sep) {
            Some(i) => {
                assert forall|k: int| 0 <= k < i + 1 implies b[k] != sep by {
                    if k > 0 {
                        assert(b[k] == b.skip(1)[k - 1]);
                    }
                }
            },
            None => {
                assert forall|k: int| 0 <= k < b.len() implies b[k] != sep by {
                    if k > 0 {
                        assert(b[k] == b.skip(1)[k - 1]);
                    }
                }
            },
        }
    }
}

proof fn lemma_first_index_at(b: Seq<u8>, sep: u8, i: int)
    requires
        0 <= i < b.len(),
        b[i] == sep,
        forall|k: int| 0 <= k < i ==> b[k] != sep,
    ensures
        first_index_of(b, sep) == Some(i),
    decreases b.len(),
{
    if i > 0 {
        assert forall|k: int| 0 <= k < i - 1 implies b.skip(1)[k] != sep by {
            assert(b.skip(1)[k] == b[k + 1]);
        }
        lemma_first_index_at(b.skip(1), sep, i - 1);
    }
}

proof fn lemma_first_index_none(b: Seq<u8>, sep: u8)
    requires
        forall|k: int| 0 <= k < b.len() ==> b[k] != sep,
    ensures
        first_index_of(b, sep) is None,
    decreases b.len(),
{
    if b.len() > 0 {
        assert forall|k: int| 0 <= k < b.skip(1).len() implies b.skip(1)[k] != sep by {
            assert(b.skip(1)[k] == b[k + 1]);
        }
        lemma_first_index_none(b.skip(1), sep);
    }
}

/// Splits `s` at every occurrence of the ASCII byte `sep`, like `str::split`.
pub fn split_bytes(s: &str, sep: u8) -> (r: Vec<&str>)
    requires
        sep < 128,
    ensures
        r@.len() == split_spec(s.spec_bytes(), sep).len(),
        forall|i: int| 0 <= i < r@.len() ==> #[trigger] r@[i].spec_bytes() == split_spec(s.spec_bytes(), sep)[i],
{
    let mut pieces: Vec<&str> = Vec::new();
    let mut rest: &str = s;
    let ghost total = s.spec_bytes();
    let ghost mut done: Seq<Seq<u8>> = Seq::empty();
    proof {
        vstd::utf8::encode_utf8_valid_utf8(s@);
    }
    loop
        invariant
            sep < 128,
            total == s.spec_bytes(),
            pieces@.len() == done.len(),
            forall|i: int| 0 <= i < pieces@.len() ==> #[trigger] pieces@[i].spec_bytes() == done[i],
            done + split_spec(rest.spec_bytes(), sep) == split_spec(total, sep),
        decreases rest.spec_bytes().len(),
    {
        let bytes = rest.as_bytes();
        let ghost rb = rest.spec_bytes();
        proof {
            vstd::utf8::encode_utf8_valid_utf8(rest@);
        }
        let mut i: usize = 0;
        while i < bytes.len() && bytes[i] != sep
            invariant
                bytes@ == rb,
                i <= rb.len(),
                forall|k: int| 0 <= k < i ==> rb[k] != sep,
            decreases rb.len() - i,
        {
            i = i + 1;
        }
        if i == bytes.len() {
            proof {
                lemma_first_index_none(rb, sep);
                assert(split_spec(rb, sep) == seq![rb]);
                assert(done.push(rb) =~= done + split_spec(rb, sep));
                done = done.push(rb);
            }
            pieces.push(rest);
            proof {
                assert(done =~= split_spec(total, sep));
            }
            return pieces;
        }
        proof {
            lemma_first_index_at(rb, sep, i as int);
            vstd::utf8::is_char_boundary_iff_is_leading_byte(rb, i as int);
        }
        let (head, tail) = rest.split_at(i);
        proof {
            let tb = tail.spec_bytes();
            vstd::utf8::encode_utf8_valid_utf8(tail@);
            assert(tb[0] == sep);
            assert(vstd::utf8::length_of_first_scalar(tb) == 1);
            reveal_with_fuel(vstd::utf8::is_char_boundary, 2);
            assert(vstd::utf8::is_char_boundary(tb, 1));
        }
        let (_, after) = tail.split_at(1);
        proof {
            assert(split_spec(rb, sep) == seq![rb.take(i as int)] + split_spec(rb.skip(i + 1), sep));
            assert(after.spec_bytes() =~= rb.skip(i + 1));
            assert(head.spec_bytes() =~= rb.take(i as int));
            assert(done.push(rb.take(i as int)) + split_spec(rb.skip(i + 1), sep) =~= done + split_spec(rb, sep));
            done = done.push(rb.take(i as int));
        }
        pieces.push(head);
        rest = after;
    }
}

} // verus!

//! Standard base64 (RFC 4648 alphabet, with padding), as a mathematical
//! encoding, and the decoding of one chunk against it.
use crate::error::ChunkError;
use vstd::prelude::*;

verus! {

/// base64's `DecodeError`, carried through opaque until it is described.
#[verifier::external_type_specification]
#[verifier::external_body]
pub struct ExDecodeError(base64::DecodeError);

/// The character of the standard alphabet for a six-bit value.
pub open spec fn sextet_char(v: int) -> char {
    if v < 26 {
        (65 + v) as char
    } else if v < 52 {
        (97 + (v - 26)) as char
    } else if v < 62 {
        (48 + (v - 52)) as char
    } else if v == 62 {
        '+'
    } else {
        '/'
    }
}

/// The four characters that stand for three bytes.
pub open spec fn full_group(a: u8, b: u8, c: u8) -> Seq<char> {
    seq![
        sextet_char((a / 4) as int),
        sextet_char((a % 4) * 16 + b / 16),
        sextet_char((b % 16) * 4 + c / 64),
        sextet_char((c % 64) as int),
    ]
}

/// The standard padded base64 encoding of a byte sequence.
pub open spec fn encode(bytes: Seq<u8>) -> Seq<char>
    decreases bytes.len(),
{
    if bytes.len() == 0 {
        seq![]
    } else if bytes.len() == 1 {
        seq![sextet_char((bytes[0] / 4) as int), sextet_char((bytes[0] % 4) * 16), '=', '=']
    } else if bytes.len() == 2 {
        seq![
            sextet_char((bytes[0] / 4) as int),
            sextet_char((bytes[0] % 4) * 16 + bytes[1] / 16),
            sextet_char((bytes[1] % 16) * 4),
            '=',
        ]
    } else {
        full_group(bytes[0], bytes[1], bytes[2]) + encode(bytes.subrange(3, bytes.len() as int))
    }
}

/// The text is the canonical encoding of some byte sequence.
pub open spec fn is_encoding(text: Seq<char>) -> bool {
    exists|bytes: Seq<u8>| encode(bytes) == text
}

/// The bytes that a canonical encoding stands for.
pub open spec fn decoded(text: Seq<char>) -> Seq<u8> {
    choose|bytes: Seq<u8>| encode(bytes) == text
}

proof fn lemma_sextet_char(v: int, w: int)
    requires
        0 <= v < 64,
        0 <= w < 64,
    ensures
        sextet_char(v) != '=',
        sextet_char(v) == sextet_char(w) ==> v == w,
{
}

proof fn lemma_group_bytes(a: u8, b: u8, c: u8, x: u8, y: u8, z: u8)
    requires
        a / 4 == x / 4,
        (a % 4) * 16 + b / 16 == (x % 4) * 16 + y / 16,
        (b % 16) * 4 + c / 64 == (y % 16) * 4 + z / 64,
        c % 64 == z % 64,
    ensures
        a == x,
        b == y,
        c == z,
{
    assert(a == x && b == y && c == z) by (bit_vector)
        requires
            a / 4 == x / 4,
            (a % 4) * 16 + b / 16 == (x % 4) * 16 + y / 16,
            (b % 16) * 4 + c / 64 == (y % 16) * 4 + z / 64,
            c % 64 == z % 64,
    ;
}


/// The encoding of `bytes` has four characters for every started group of three.
pub proof fn lemma_encode_len(bytes: Seq<u8>)
    ensures
        encode(bytes).len() == 4 * ((bytes.len() + 2) / 3),
    decreases bytes.len(),
{
    if bytes.len() >= 3 {
        lemma_encode_len(bytes.subrange(3, bytes.len() as int));
    }
}

/// Two byte sequences with the same encoding are equal.
pub proof fn lemma_encode_injective(x: Seq<u8>, y: Seq<u8>)
    requires
        encode(x) == encode(y),
    ensures
        x == y,
    decreases x.len(),
{
    let e = encode(x);
    lemma_encode_len(x);
    lemma_encode_len(y);
    if x.len() == 0 || y.len() == 0 {
        assert(x =~= y);
    } else {
        lemma_sextet_char((x[0] / 4) as int, (y[0] / 4) as int);
        if x.len() >= 3 {
            lemma_sextet_char((x[1] % 16) * 4 + x[2] / 64, 0);
            lemma_sextet_char((x[2] % 64) as int, 0);
        }
        if y.len() >= 3 {
            lemma_sextet_char((y[1] % 16) * 4 + y[2] / 64, 0);
            lemma_sextet_char((y[2] % 64) as int, 0);
        }
        if x.len() == 2 {
            lemma_sextet_char((x[1] % 16) * 4, 0);
        }
        if y.len() == 2 {
            lemma_sextet_char((y[1] % 16) * 4, 0);
        }
        if x.len() == 1 {
            assert(e[2] == '=');
            assert(y.len() == 1);
            lemma_sextet_char((x[0] % 4) * 16, (y[0] % 4) * 16);
            lemma_group_bytes(x[0], 0, 0, y[0], 0, 0);
            assert(x =~= y);
        } else if x.len() == 2 {
            assert(e[3] == '=');
            assert(y.len() == 2);
            lemma_sextet_char((x[0] % 4) * 16 + x[1] / 16, (y[0] % 4) * 16 + y[1] / 16);
            lemma_sextet_char((x[1] % 16) * 4, (y[1] % 16) * 4);
            lemma_group_bytes(x[0], x[1], 0, y[0], y[1], 0);
            assert(x =~= y);
        } else {
            assert(y.len() >= 3);
            lemma_sextet_char((x[0] % 4) * 16 + x[1] / 16, (y[0] % 4) * 16 + y[1] / 16);
            lemma_sextet_char((x[1] % 16) * 4 + x[2] / 64, (y[1] % 16) * 4 + y[2] / 64);
            lemma_sextet_char((x[2] % 64) as int, (y[2] % 64) as int);
            assert(e[0] == encode(y)[0] && e[1] == encode(y)[1]);
            assert(e[2] == encode(y)[2] && e[3] == encode(y)[3]);
            lemma_group_bytes(x[0], x[1], x[2], y[0], y[1], y[2]);
            let xs = x.subrange(3, x.len() as int);
            let ys = y.subrange(3, y.len() as int);
            assert(encode(xs) =~= e.subrange(4, e.len() as int));
            assert(encode(ys) =~= encode(y).subrange(4, e.len() as int));
            lemma_encode_injective(xs, ys);
            assert forall|i: int| 3 <= i < x.len() implies x[i] == y[i] by {
                assert(x[i] == xs[i - 3] && y[i] == ys[i - 3]);
            }
            assert(x =~= y);
        }
    }
}

/// A canonical encoding decodes to the bytes it was made from.
pub proof fn lemma_decoded_encode(bytes: Seq<u8>)
    ensures
        is_encoding(encode(bytes)),
        decoded(encode(bytes)) == bytes,
{
    let text = encode(bytes);
    assert(encode(bytes) == text);
    let chosen = decoded(text);
    lemma_encode_injective(chosen, bytes);
}

/// Relies on base64's `STANDARD` engine (`Engine::decode`): standard
/// alphabet, canonical padding required, no trailing bits allowed. It
/// accepts exactly the canonical encodings, and gives back the bytes that
/// the text encodes.
#[verifier::external_body]
fn decode_standard(text: &str) -> (r: Result<Vec<u8>, base64::DecodeError>)
    ensures
        r is Ok <==> is_encoding(text@),
        r is Ok ==> encode(r->Ok_0@) == text@,
{
    base64::Engine::decode(&base64::engine::general_purpose::STANDARD, text)
}

/// Relies on the `Display` impl of base64's `DecodeError`: a short,
/// non-empty description of the fault.
#[verifier::external_body]
fn describe_decode_error(e: &base64::DecodeError) -> (r: String)
    ensures
        r@.len() > 0,
{
    e.to_string()
}

/// Decodes one chunk of standard padded base64.
///
/// Succeeds exactly when the text is a canonical encoding, with the bytes it
/// encodes; otherwise fails with a decode error that describes the fault.
pub fn decode_chunk(text: &str) -> (r: Result<Vec<u8>, ChunkError>)
    ensures
        r is Ok <==> is_encoding(text@),
        r is Ok ==> r->Ok_0@ == decoded(text@),
        r is Err ==> r->Err_0 is Decode && r->Err_0.text().len() > 0,
{
    match decode_standard(text) {
        Ok(bytes) => {
            proof {
                lemma_decoded_encode(bytes@);
            }
            Ok(bytes)
        },
        Err(e) => Err(ChunkError::Decode(describe_decode_error(&e))),
    }
}

} // verus!

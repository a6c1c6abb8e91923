//! Request signing for authenticated exchange calls: an HMAC-SHA-256 tag
//! over the query string, rendered as lowercase hexadecimal.

use hmac::Mac;
use vstd::prelude::*;
use vstd::string::StringExecFns;
use vstd::string::StringSliceAdditionalSpecFns;

verus! {

/// The HMAC-SHA-256 tag of `msg` under `key`: a function of the two byte
/// strings alone, the same in every process and on every machine.
pub uninterp spec fn hmac_sha256_of(key: Seq<u8>, msg: Seq<u8>) -> Seq<u8>;

/// Relies on `hmac::Hmac<sha2::Sha256>`: `new_from_slice` accepts keys of any
/// length for HMAC (its source returns `Ok` unconditionally), and the
/// finalized tag is SHA-256-sized, 32 bytes, determined by key and message
/// alone.
#[verifier::external_body]
fn hmac_sha256(key: &[u8], msg: &[u8]) -> (r: Vec<u8>)
    ensures
        r@ == hmac_sha256_of(key@, msg@),
        r@.len() == 32,
{
    let mut mac = <hmac::Hmac<sha2::Sha256> as hmac::KeyInit>::new_from_slice(key)
        .expect("HMAC accepts keys of any length");
    mac.update(msg);
    mac.finalize().into_bytes().to_vec()
}

/// The lowercase hexadecimal digit of a nibble value.
pub open spec fn hex_char_of(n: int) -> char {
    if n == 0 {
        '0'
    } else if n == 1 {
        '1'
    } else if n == 2 {
        '2'
    } else if n == 3 {
        '3'
    } else if n == 4 {
        '4'
    } else if n == 5 {
        '5'
    } else if n == 6 {
        '6'
    } else if n == 7 {
        '7'
    } else if n == 8 {
        '8'
    } else if n == 9 {
        '9'
    } else if n == 10 {
        'a'
    } else if n == 11 {
        'b'
    } else if n == 12 {
        'c'
    } else if n == 13 {
        'd'
    } else if n == 14 {
        'e'
    } else {
        'f'
    }
}

/// Lowercase hexadecimal rendering of a byte string: two digits per byte,
/// high nibble first.
pub open spec fn spec_hex_encode(bytes: Seq<u8>) -> Seq<char> {
    Seq::new(
        bytes.len() * 2,
        |i: int|
            if i % 2 == 0 {
                hex_char_of(bytes[i / 2] as int / 16)
            } else {
                hex_char_of(bytes[i / 2] as int % 16)
            },
    )
}

/// The one-character string of a nibble's lowercase hexadecimal digit.
fn hex_digit_str(n: u8) -> (r: &'static str)
    requires
        n < 16,
    ensures
        r@ == seq![hex_char_of(n as int)],
{
    proof {
        reveal_strlit("0");
        reveal_strlit("1");
        reveal_strlit("2");
        reveal_strlit("3");
        reveal_strlit("4");
        reveal_strlit("5");
        reveal_strlit("6");
        reveal_strlit("7");
        reveal_strlit("8");
        reveal_strlit("9");
        reveal_strlit("a");
        reveal_strlit("b");
        reveal_strlit("c");
        reveal_strlit("d");
        reveal_strlit("e");
        reveal_strlit("f");
    }
    match n {
        0 => "0",
        1 => "1",
        2 => "2",
        3 => "3",
        4 => "4",
        5 => "5",
        6 => "6",
        7 => "7",
        8 => "8",
        9 => "9",
        10 => "a",
        11 => "b",
        12 => "c",
        13 => "d",
        14 => "e",
        _ => "f",
    }
}

/// Renders a byte string as lowercase hexadecimal, two digits per byte,
/// high nibble first.
fn hex_encode(bytes: &Vec<u8>) -> (r: String)
    ensures
        r@ == spec_hex_encode(bytes@),
{
    let mut out = String::new();
    let mut i: usize = 0;
    while i < bytes.len()
        invariant
            0 <= i <= bytes@.len(),
            out@ == spec_hex_encode(bytes@.take(i as int)),
        decreases bytes@.len() - i,
    {
        let b = bytes[i];
        let hi = hex_digit_str(b / 16);
        let lo = hex_digit_str(b % 16);
        out.append(hi);
        out.append(lo);
        proof {
            let done = bytes@.take(i + 1);
            assert(done.len() == i + 1);
            assert forall|k: int| 0 <= k < 2 * (i + 1) implies spec_hex_encode(done)[k]
                == (spec_hex_encode(bytes@.take(i as int)) + hi@ + lo@)[k] by {
                if k < 2 * i {
                    assert(done[k / 2] == bytes@.take(i as int)[k / 2]);
                } else {
                    assert(k / 2 == i as int);
                    assert(done[k / 2] == bytes@[i as int]);
                }
            }
            assert(spec_hex_encode(done) =~= spec_hex_encode(bytes@.take(i as int)) + hi@ + lo@);
        }
        i = i + 1;
    }
    proof {
        assert(bytes@.take(bytes@.len() as int) =~= bytes@);
    }
    out
}

/// Signs `query_string` with `secret`: the lowercase-hex HMAC-SHA-256 tag
/// that authenticated exchange requests append as their `signature`
/// parameter.
pub fn generate_signature(query_string: &str, secret: &str) -> (r: String)
    ensures
        r@ == spec_hex_encode(hmac_sha256_of(secret.spec_bytes(), query_string.spec_bytes())),
        r@.len() == 64,
{
    let tag = hmac_sha256(secret.as_bytes(), query_string.as_bytes());
    hex_encode(&tag)
}

} // verus!

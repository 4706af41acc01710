//! Names of cache files: the SHA-1 digest of a text, written in hexadecimal.
use vstd::prelude::*;
use vstd::string::StringExecFns;
use sha1::Digest;
use sha1::Sha1;

verus! {

/// The SHA-1 digest of a sequence of bytes.
pub uninterp spec fn sha1_hash(data: Seq<u8>) -> Seq<u8>;

/// Calls `Sha1::digest` and copies the digest into a vector.  Trusted: the
/// bytes that come back are the SHA-1 digest of `data`.
#[verifier::external_body]
pub(crate) fn sha1_digest(data: &[u8]) -> (hash: Vec<u8>)
    ensures
        hash@ == sha1_hash(data@),
{
    Sha1::digest(data).to_vec()
}

/// The sixteen hexadecimal digits, in lower case.
pub open spec fn hex_digits() -> Seq<char> {
    seq!['0', '1', '2', '3', '4', '5', '6', '7', '8', '9', 'a', 'b', 'c', 'd', 'e', 'f']
}

/// The two hexadecimal digits of one byte, the high half first.
pub open spec fn hex_of_byte(byte: u8) -> Seq<char> {
    seq![hex_digits()[(byte / 16) as int], hex_digits()[(byte % 16) as int]]
}

/// The hexadecimal digits of a sequence of bytes: two for each byte, in the
/// order of the bytes.
pub open spec fn hex_of(bytes: Seq<u8>) -> Seq<char>
    decreases bytes.len(),
{
    if bytes.len() == 0 {
        Seq::empty()
    } else {
        hex_of(bytes.drop_last()) + hex_of_byte(bytes.last())
    }
}

/// The text of one hexadecimal digit.
fn hex_digit(value: u8) -> (digit: &'static str)
    requires
        value < 16,
    ensures
        digit@ == seq![hex_digits()[value as int]],
{
    proof {
        reveal_strlit("0");
        reveal_strlit("1");
        reveal_strlit("2");
        reveal_strlit("3");
        reveal_strlit("4");
        reveal_strlit("5");
        reveal_strlit("6");
        reveal_strlit("7");
        reveal_strlit("8");
        reveal_strlit("9");
        reveal_strlit("a");
        reveal_strlit("b");
        reveal_strlit("c");
        reveal_strlit("d");
        reveal_strlit("e");
        reveal_strlit("f");
    }
    let digit = match value {
        0 => "0",
        1 => "1",
        2 => "2",
        3 => "3",
        4 => "4",
        5 => "5",
        6 => "6",
        7 => "7",
        8 => "8",
        9 => "9",
        10 => "a",
        11 => "b",
        12 => "c",
        13 => "d",
        14 => "e",
        _ => "f",
    };
    assert(digit@ =~= seq![hex_digits()[value as int]]);
    digit
}

/// Writes bytes as hexadecimal digits in lower case.
pub fn encode_to_hex(bytes: &[u8]) -> (hex: String)
    ensures
        hex@ == hex_of(bytes@),
        hex@.len() == 2 * bytes@.len(),
{
    let mut hex = String::new();
    let mut i: usize = 0;
    while i < bytes.len()
        invariant
            i <= bytes@.len(),
            hex@ == hex_of(bytes@.take(i as int)),
            hex@.len() == 2 * i,
        decreases bytes@.len() - i,
    {
        let byte = bytes[i];
        hex.append(hex_digit(byte / 16));
        hex.append(hex_digit(byte % 16));
        proof {
            let done = bytes@.take(i + 1);
            assert(done.drop_last() =~= bytes@.take(i as int));
            assert(done.last() == byte);
            assert(hex@ =~= hex_of(done.drop_last()) + hex_of_byte(byte));
        }
        i += 1;
    }
    assert(bytes@.take(i as int) =~= bytes@);
    hex
}

/// The name under which a single sign-on token is cached for a start URL:
/// the hexadecimal SHA-1 digest of the URL's UTF-8 bytes.
pub open spec fn cache_key(start_url: Seq<char>) -> Seq<char> {
    hex_of(sha1_hash(vstd::utf8::encode_utf8(start_url)))
}

/// Computes the cache key of a start URL.
pub fn sso_cache_key(start_url: &str) -> (key: String)
    ensures
        key@ == cache_key(start_url@),
{
    let hash = sha1_digest(start_url.as_bytes());
    encode_to_hex(hash.as_slice())
}

} // verus!

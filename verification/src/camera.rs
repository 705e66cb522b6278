//! Camera credential hashing: the vendor's login expects the MD5 digest
//! of the password, spelled as lowercase hex.

use md5::Digest;
use md5::Md5;
use vstd::prelude::*;
use vstd::string::StringSliceAdditionalSpecFns;

verus! {

/// The MD5 digest (16 bytes) of a byte sequence; a function of the bytes
/// alone.
pub uninterp spec fn md5_digest(data: Seq<u8>) -> Seq<u8>;

/// The lowercase hex character of one value below sixteen.
pub open spec fn hex_digit(d: nat) -> char {
    if d == 0 {
        '0'
    } else if d == 1 {
        '1'
    } else if d == 2 {
        '2'
    } else if d == 3 {
        '3'
    } else if d == 4 {
        '4'
    } else if d == 5 {
        '5'
    } else if d == 6 {
        '6'
    } else if d == 7 {
        '7'
    } else if d == 8 {
        '8'
    } else if d == 9 {
        '9'
    } else if d == 10 {
        'a'
    } else if d == 11 {
        'b'
    } else if d == 12 {
        'c'
    } else if d == 13 {
        'd'
    } else if d == 14 {
        'e'
    } else {
        'f'
    }
}

/// Lowercase hex of a byte sequence: two digits per byte, high nibble
/// first.
pub open spec fn hex_lower(bytes: Seq<u8>) -> Seq<char> {
    Seq::new(
        bytes.len() * 2,
        |i: int|
            if i % 2 == 0 {
                hex_digit((bytes[i / 2] / 16) as nat)
            } else {
                hex_digit((bytes[i / 2] % 16) as nat)
            },
    )
}

/// Relies on `Md5` of the `md-5` crate (through the `Digest` trait): the
/// digest is sixteen bytes and depends on the input bytes alone (so the
/// digest sequence named above has length sixteen).
#[verifier::external_body]
fn md5_of(data: &[u8]) -> (r: Vec<u8>)
    ensures
        r@ == md5_digest(data@),
        r@.len() == 16,
{
    let mut hasher = Md5::new();
    hasher.update(data);
    hasher.finalize().to_vec()
}

/// Relies on `base16ct::lower::encode_string`: the result is the lowercase
/// hex spelling of the input, two digits per byte, high nibble first.  The
/// input must leave the doubled length within address range.
#[verifier::external_body]
fn hex_lower_of(data: &Vec<u8>) -> (r: String)
    requires
        data@.len() * 2 <= usize::MAX,
    ensures
        r@ == hex_lower(data@),
{
    base16ct::lower::encode_string(data.as_slice())
}

/// The camera login credential: the password's MD5 digest in lowercase
/// hex.
pub fn hash_password(password: &str) -> (r: String)
    ensures
        r@ == hex_lower(md5_digest(password.spec_bytes())),
        r@.len() == 32,
{
    let digest = md5_of(password.as_bytes());
    proof {
        assert(hex_lower(digest@).len() == 32);
    }
    hex_lower_of(&digest)
}

} // verus!

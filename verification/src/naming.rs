//! Content-addressed names for image blobs: the SHA-256 digest of the bytes,
//! written as lower-case hexadecimal, with the extension `.png`.

use sha2::{Digest, Sha256};
use vstd::prelude::*;

verus! {

/// The SHA-256 digest of `data`, as `sha2` computes it.
pub uninterp spec fn sha256(data: Seq<u8>) -> Seq<u8>;

/// The number of bytes of a SHA-256 digest.
pub const SHA256_BYTES: usize = 32;

/// `sha2::Sha256::digest` (the `Digest::digest` of the `digest` crate): the
/// digest of the whole of `data`, copied out of the array it comes in. The
/// result is a function of the bytes alone; it is only given its name here.
/// Its length is that of the output array, which `sha2` fixes at 32 bytes.
#[verifier::external_body]
fn sha256_digest(data: &Vec<u8>) -> (digest: Vec<u8>)
    ensures
        digest@ == sha256(data@),
        digest@.len() == SHA256_BYTES,
{
    Sha256::digest(data).to_vec()
}

/// `String::push`: appends one character.
pub assume_specification[ String::push ](s: &mut String, ch: char)
    ensures
        final(s)@ == old(s)@.push(ch),
;

/// The sixteen lower-case hexadecimal digits, in order of their value.
pub open spec fn hex_digits() -> Seq<char> {
    seq!['0', '1', '2', '3', '4', '5', '6', '7', '8', '9', 'a', 'b', 'c', 'd', 'e', 'f']
}

/// `bytes` in hexadecimal: two lower-case digits per byte, the high half first.
pub open spec fn hex_encode(bytes: Seq<u8>) -> Seq<char> {
    Seq::new(
        2 * bytes.len(),
        |i: int|
            if i % 2 == 0 {
                hex_digits()[bytes[i / 2] as int / 16]
            } else {
                hex_digits()[bytes[i / 2] as int % 16]
            },
    )
}

/// The extension of an image file.
pub open spec fn png_extension() -> Seq<char> {
    seq!['.', 'p', 'n', 'g']
}

/// The file name that belongs to a digest.
pub open spec fn digest_name(digest: Seq<u8>) -> Seq<char> {
    hex_encode(digest) + png_extension()
}

/// The file name under which an image with the bytes `data` is stored.
pub open spec fn image_name_of(data: Seq<u8>) -> Seq<char> {
    digest_name(sha256(data))
}

/// The hexadecimal digit for a value below sixteen.
pub fn hex_digit(value: u8) -> (digit: char)
    requires
        value < 16,
    ensures
        digit == hex_digits()[value as int],
{
    match value {
        0 => '0',
        1 => '1',
        2 => '2',
        3 => '3',
        4 => '4',
        5 => '5',
        6 => '6',
        7 => '7',
        8 => '8',
        9 => '9',
        10 => 'a',
        11 => 'b',
        12 => 'c',
        13 => 'd',
        14 => 'e',
        _ => 'f',
    }
}

/// Writes a digest as a file name: its hexadecimal form followed by `.png`.
pub fn digest_file_name(digest: &Vec<u8>) -> (name: String)
    ensures
        name@ == digest_name(digest@),
        name@.len() == 2 * digest@.len() + 4,
{
    let mut name = String::new();
    let mut i: usize = 0;
    while i < digest.len()
        invariant
            0 <= i <= digest.len(),
            name@ == hex_encode(digest@.take(i as int)),
        decreases digest.len() - i,
    {
        let byte = digest[i];
        name.push(hex_digit(byte / 16));
        name.push(hex_digit(byte % 16));
        i += 1;
        assert(name@ =~= hex_encode(digest@.take(i as int)));
    }
    proof {
        assert(digest@.take(i as int) =~= digest@);
        reveal_strlit(".png");
        assert(".png"@ =~= png_extension());
    }
    name.append(".png");
    name
}

/// The file name under which an image with the bytes `data` is stored: the
/// name of its SHA-256 digest, sixty-four hexadecimal digits and the
/// extension. Equal bytes always get the same name.
pub fn image_name(data: &Vec<u8>) -> (name: String)
    ensures
        name@ == image_name_of(data@),
        name@.len() == 2 * SHA256_BYTES + 4,
{
    let digest = sha256_digest(data);
    digest_file_name(&digest)
}

} // verus!

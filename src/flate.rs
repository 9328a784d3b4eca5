//! Gzip and URL-safe base64 for stored bytes.
use vstd::prelude::*;
use crate::storage::StorageError;

verus! {

/// The gzip stream that flate2 makes of `data` at the best compression level.
pub uninterp spec fn gzip_of(data: Seq<u8>) -> Seq<u8>;

/// The bytes that flate2's gzip decoder reads out of the first gzip member
/// at the start of `zipped`, if that member is valid. Bytes after it are
/// not read.
pub uninterp spec fn gunzip_of(zipped: Seq<u8>) -> Option<Seq<u8>>;

/// The URL-safe base64 text (with padding) of `data`.
pub uninterp spec fn base64_of(data: Seq<u8>) -> Seq<char>;

/// The bytes that URL-safe base64 `text` stands for, if it is valid.
pub uninterp spec fn base64_decoded(text: Seq<char>) -> Option<Seq<u8>>;

/// A character of the URL-safe base64 alphabet.
pub open spec fn is_url_safe_char(c: char) -> bool {
    ('A' <= c <= 'Z') || ('a' <= c <= 'z') || ('0' <= c <= '9') || c == '-' || c == '_'
}

/// How many `=` end the padded base64 text of `n` bytes.
pub open spec fn padding_len(n: nat) -> nat {
    if n % 3 == 0 {
        0
    } else {
        (3 - n % 3) as nat
    }
}

/// Whether `z` starts with the gzip header that flate2 writes at the best
/// compression level: magic bytes, deflate, and the "maximum compression" flag.
pub open spec fn has_best_gzip_header(z: Seq<u8>) -> bool {
    z.len() >= 10 && z[0] == 0x1f && z[1] == 0x8b && z[2] == 8 && z[8] == 2
}

/// Whether `text` is padded URL-safe base64 of as many bytes as `data` has:
/// four characters for each started group of three bytes, of which the last
/// `padding_len` are `=` and the others from the alphabet.
pub open spec fn base64_shape(text: Seq<char>, data: Seq<u8>) -> bool {
    text.len() == 4 * ((data.len() + 2) / 3) && forall|i: int|
        0 <= i < text.len() ==> if i >= text.len() - padding_len(data.len()) {
            #[trigger] text[i] == '='
        } else {
            is_url_safe_char(text[i])
        }
}

/// Relies on flate2's `read::GzEncoder` at `Compression::best()`, read to the
/// end: its output is a gzip stream (with a zero time stamp, so it depends on
/// the bytes alone) that the gzip decoder turns back into the bytes. Reading
/// from memory, with the miniz_oxide backend at a valid level, it does not fail.
#[verifier::external_body]
fn gzip_best(data: &[u8]) -> (r: Option<Vec<u8>>)
    ensures
        r is Some,
        r matches Some(z) ==> z@ == gzip_of(data@) && gunzip_of(z@) == Some(data@)
            && has_best_gzip_header(z@),
{
    let mut gz = flate2::read::GzEncoder::new(std::io::Cursor::new(data), flate2::Compression::best());
    let mut out = Vec::new();
    match std::io::Read::read_to_end(&mut gz, &mut out) {
        Ok(_) => Some(out),
        Err(_) => None,
    }
}

/// Relies on flate2's `read::GzDecoder`, read to the end: it yields the bytes
/// of the first gzip member, fails where that member is not valid, and
/// ignores what follows it.
#[verifier::external_body]
fn gunzip_bytes(zipped: &[u8]) -> (r: Option<Vec<u8>>)
    ensures
        match gunzip_of(zipped@) {
            Some(d) => r matches Some(v) && v@ == d,
            None => r is None,
        },
{
    let mut gz = flate2::read::GzDecoder::new(std::io::Cursor::new(zipped));
    let mut out = Vec::new();
    match std::io::Read::read_to_end(&mut gz, &mut out) {
        Ok(_) => Some(out),
        Err(_) => None,
    }
}

/// Relies on base64's `encode_config` with `URL_SAFE` (padded), which its
/// `decode_config` with the same configuration reverses: four characters of
/// the URL-safe alphabet for each started group of three bytes.
#[verifier::external_body]
fn base64_encode(data: &[u8]) -> (r: String)
    ensures
        r@ == base64_of(data@),
        base64_shape(r@, data@),
        base64_decoded(r@) == Some(data@),
{
    base64::encode_config(data, base64::URL_SAFE)
}

/// Relies on base64's `decode_config` with `URL_SAFE`.
#[verifier::external_body]
fn base64_decode(text: &str) -> (r: Option<Vec<u8>>)
    ensures
        match base64_decoded(text@) {
            Some(d) => r matches Some(v) && v@ == d,
            None => r is None,
        },
{
    base64::decode_config(text, base64::URL_SAFE).ok()
}

/// Gzips some bytes at the best compression level. What comes out
/// decompresses to the bytes again.
pub fn zip(data: &[u8]) -> (r: Result<Vec<u8>, StorageError>)
    ensures
        r is Ok,
        r matches Ok(z) ==> z@ == gzip_of(data@) && gunzip_of(z@) == Some(data@)
            && has_best_gzip_header(z@),
{
    match gzip_best(data) {
        Some(z) => Ok(z),
        None => Err(StorageError::Compress),
    }
}

/// Gzips some bytes, then writes them as URL-safe base64. The text decodes
/// to the gzip stream again.
pub fn zip64(data: &[u8]) -> (r: Result<String, StorageError>)
    ensures
        r is Ok,
        r matches Ok(text) ==> text@ == base64_of(gzip_of(data@)) && base64_decoded(text@)
            == Some(gzip_of(data@)) && gunzip_of(gzip_of(data@)) == Some(data@) && base64_shape(
            text@,
            gzip_of(data@),
        ),
{
    match zip(data) {
        Ok(z) => Ok(base64_encode(z.as_slice())),
        Err(e) => Err(e),
    }
}

/// Turns gzipped bytes back into the bytes that were gzipped.
pub fn unzip(zipped: &[u8]) -> (r: Result<Vec<u8>, StorageError>)
    ensures
        match gunzip_of(zipped@) {
            Some(d) => r matches Ok(v) && v@ == d,
            None => r matches Err(e) && e is Decompress,
        },
{
    match gunzip_bytes(zipped) {
        Some(v) => Ok(v),
        None => Err(StorageError::Decompress),
    }
}

/// Decodes URL-safe base64 text, then un-gzips what it holds.
pub fn unzip64(encoded: &str) -> (r: Result<Vec<u8>, StorageError>)
    ensures
        match base64_decoded(encoded@) {
            Some(z) => match gunzip_of(z) {
                Some(d) => r matches Ok(v) && v@ == d,
                None => r matches Err(e) && e is Decompress,
            },
            None => r matches Err(e) && e is Base64,
        },
{
    match base64_decode(encoded) {
        Some(z) => unzip(z.as_slice()),
        None => Err(StorageError::Base64),
    }
}

} // verus!

//! Icons: the bytes that a client uploads as base64 text, and the hash by
//! which an icon is known.
//!
//! Decoding is base64's and hashing is sha2's; neither is proved here.
//! Writing the hash in hexadecimal notation is.

use vstd::prelude::*;
use crate::text::{lower_hex, to_lower_hex};

verus! {

/// base64's `DecodeError`. Nothing of what is inside it is visible here.
#[verifier::external_type_specification]
#[verifier::external_body]
pub struct ExDecodeError(base64::DecodeError);

/// The bytes that standard, padded base64 text stands for; `None` where the
/// text is not such base64.
pub uninterp spec fn base64_decoded(text: Seq<char>) -> Option<Seq<u8>>;

/// The SHA-256 digest of `data`.
pub uninterp spec fn sha256(data: Seq<u8>) -> Seq<u8>;

/// The SHA-256 digest of `data` in hexadecimal notation.
pub open spec fn sha256_hex(data: Seq<u8>) -> Seq<char> {
    lower_hex(sha256(data))
}

/// `Engine::decode` of base64's `STANDARD` engine: the bytes that `text`
/// encodes in the standard alphabet with canonical padding, or the reason
/// why it encodes none.
#[verifier::external_body]
fn base64_decode(text: &str) -> (decoded: Result<Vec<u8>, base64::DecodeError>)
    ensures
        match decoded {
            Ok(bytes) => base64_decoded(text@) == Some(bytes@),
            Err(_) => base64_decoded(text@) is None,
        },
{
    base64::Engine::decode(&base64::engine::general_purpose::STANDARD, text)
}

/// `Display` of `DecodeError`: the text that base64 gives for a failure.
#[verifier::external_body]
fn base64_failure(error: &base64::DecodeError) -> (text: String) {
    format!("{}", error)
}

/// `Digest::digest` of sha2's `Sha256`: the digest of `data`, as bytes.
#[verifier::external_body]
fn sha256_digest(data: &[u8]) -> (digest: Vec<u8>)
    ensures
        digest@ == sha256(data@),
{
    <sha2::Sha256 as sha2::Digest>::digest(data).to_vec()
}

/// The image that a client uploaded as base64 text, or the text that says
/// why it is no image.
pub fn from_base64(value: &str) -> (image: Result<Vec<u8>, String>)
    ensures
        match base64_decoded(value@) {
            Some(bytes) => image is Ok && image->Ok_0@ == bytes,
            None => image is Err,
        },
{
    match base64_decode(value) {
        Ok(bytes) => Ok(bytes),
        Err(error) => Err(base64_failure(&error)),
    }
}

/// The hash by which the icon `image` is known.
pub fn icon_hash(image: &Vec<u8>) -> (hash: String)
    ensures
        hash@ == sha256_hex(image@),
{
    let digest = sha256_digest(image.as_slice());
    to_lower_hex(&digest)
}

} // verus!

//! Trusted bindings to the outside encoding and digest crates. Each binding
//! names what the outside call returns; everything built on top of these
//! names is verified.

use vstd::prelude::*;
use hmac::{Hmac, KeyInit, Mac};
use sha1::{Digest, Sha1};
use base64::Engine;
use base64::engine::general_purpose::{STANDARD, URL_SAFE};

verus! {

/// The 20-byte HMAC-SHA1 tag of `data` keyed by `key`, both taken as UTF-8
/// text. A function of the two strings alone.
pub uninterp spec fn spec_hmac_sha1(key: Seq<char>, data: Seq<char>) -> Seq<u8>;

/// Relies on hmac's `Hmac<Sha1>`: `new_from_slice` accepts keys of any length,
/// and the finalized tag is SHA-1-sized (20 bytes), determined by the key and
/// the data alone.
#[verifier::external_body]
pub(crate) fn hmac_sha1(key: &str, data: &str) -> (r: Vec<u8>)
    ensures
        r@ == spec_hmac_sha1(key@, data@),
        r@.len() == 20,
{
    let mut mac = <Hmac<Sha1> as KeyInit>::new_from_slice(key.as_bytes())
        .expect("HMAC accepts keys of any length");
    mac.update(data.as_bytes());
    mac.finalize().into_bytes().to_vec()
}

/// The SHA-1 digest (20 bytes) of `data`.
pub uninterp spec fn spec_sha1(data: Seq<u8>) -> Seq<u8>;

/// A method used to calc hash value of source with sha1 digest alg.
///
/// Relies on sha1's `Sha1`: the digest is 20 bytes and a function of the
/// input bytes alone.
#[verifier::external_body]
pub fn sha1(source: &[u8]) -> (r: Vec<u8>)
    ensures
        r@ == spec_sha1(source@),
        r@.len() == 20,
{
    let mut hasher = Sha1::new();
    hasher.update(source);
    hasher.finalize().to_vec()
}

/// The MD5 digest of `data`, written as 32 lower-case hex characters.
pub uninterp spec fn spec_md5_hex(data: Seq<u8>) -> Seq<char>;

/// Relies on md5's `compute` and its `LowerHex` rendering: a 16-byte digest
/// printed as two zero-padded hex characters per byte, a function of the
/// input bytes alone.
#[verifier::external_body]
pub(crate) fn md5_hex(data: &[u8]) -> (r: String)
    ensures
        r@ == spec_md5_hex(data@),
        r@.len() == 32,
{
    format!("{:x}", md5::compute(data))
}

/// The padded base64 text (standard alphabet) of `bytes`.
pub uninterp spec fn spec_base64(bytes: Seq<u8>) -> Seq<char>;

/// Relies on base64's `STANDARD` engine: padded output of four characters
/// for every three input bytes, a function of the input alone. The engine
/// panics only when the output length overflows `usize`, which the
/// precondition rules out.
#[verifier::external_body]
pub(crate) fn base64_standard(bytes: &[u8]) -> (r: String)
    requires
        bytes@.len() <= usize::MAX / 4,
    ensures
        r@ == spec_base64(bytes@),
        r@.len() == 4 * ((bytes@.len() + 2) / 3),
{
    STANDARD.encode(bytes)
}

/// The padded base64 text (URL-safe alphabet) of `bytes`.
pub uninterp spec fn spec_base64_url(bytes: Seq<u8>) -> Seq<char>;

/// Relies on base64's `URL_SAFE` engine: padded output of four characters
/// for every three input bytes, a function of the input alone. The engine
/// panics only when the output length overflows `usize`, which the
/// precondition rules out.
#[verifier::external_body]
pub(crate) fn base64_url(bytes: &[u8]) -> (r: String)
    requires
        bytes@.len() <= usize::MAX / 4,
    ensures
        r@ == spec_base64_url(bytes@),
        r@.len() == 4 * ((bytes@.len() + 2) / 3),
{
    URL_SAFE.encode(bytes)
}

/// The percent-encoding of `s`: every byte of its UTF-8 form except ASCII
/// alphanumerics and `-`, `_`, `.`, `~` replaced by `%XX`.
pub uninterp spec fn spec_url_encode(s: Seq<char>) -> Seq<char>;

/// Relies on urlencoding's `encode`: percent-encodes every byte except
/// ASCII alphanumerics and `-`, `_`, `.`, `~`, a function of the input alone.
#[verifier::external_body]
pub(crate) fn url_encode(s: &str) -> (r: String)
    ensures
        r@ == spec_url_encode(s@),
{
    urlencoding::encode(s).into_owned()
}

/// What mediatype's parser makes of `s`: the canonical text of the media
/// type when `s` is well-formed, and nothing otherwise.
pub uninterp spec fn spec_media_type_canon(s: Seq<char>) -> Option<Seq<char>>;

/// Relies on mediatype's `MediaType::parse` and its `Display` rendering:
/// whether `s` parses, and the canonical `type/subtype[+suffix][; params]`
/// text when it does, are functions of `s` alone.
#[verifier::external_body]
pub(crate) fn media_type_canon(s: &str) -> (r: Option<String>)
    ensures
        r is Some <==> spec_media_type_canon(s@) is Some,
        r is Some ==> r->0@ == spec_media_type_canon(s@)->0,
{
    match mediatype::MediaType::parse(s) {
        Ok(media_type) => Some(media_type.to_string()),
        Err(_) => None,
    }
}

} // verus!

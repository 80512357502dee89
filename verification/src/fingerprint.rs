//! The cache key of a download URL: the MD5 digest of the URL's bytes,
//! rendered in padded URL-safe base64. The fingerprint serves only as a
//! stable, deterministic file name, not as an integrity check.

use vstd::prelude::*;
use vstd::string::StringSliceAdditionalSpecFns;
use vstd::utf8::encode_utf8;

verus! {

/// The MD5 digest of a byte sequence.
pub uninterp spec fn md5_digest(data: Seq<u8>) -> Seq<u8>;

/// The padded, URL-safe base64 rendering of a byte sequence.
pub uninterp spec fn base64_url_padded(data: Seq<u8>) -> Seq<char>;

/// Relies on md5::compute: the digest is 16 bytes, depends on the input
/// bytes alone, and the call does not panic.
#[verifier::external_body]
fn md5_of(data: &[u8]) -> (r: Vec<u8>)
    ensures
        r@ == md5_digest(data@),
        r@.len() == 16,
{
    md5::compute(data).0.to_vec()
}

/// Relies on base64's URL_SAFE engine (URL-safe alphabet, with padding):
/// the encoding depends on the input bytes alone. The engine panics only
/// when the encoded length overflows usize, which the bound below rules out.
#[verifier::external_body]
fn base64_url_of(data: &Vec<u8>) -> (r: String)
    requires
        data@.len() < 0x1000_0000,
    ensures
        r@ == base64_url_padded(data@),
{
    base64::Engine::encode(&base64::prelude::BASE64_URL_SAFE, data)
}

/// The fingerprint of a URL: URL-safe base64 of the MD5 digest of the
/// URL's UTF-8 bytes.
pub open spec fn fingerprint_of(url: Seq<char>) -> Seq<char> {
    base64_url_padded(md5_digest(encode_utf8(url)))
}

/// Computes the fingerprint under which a download URL's artifact is cached.
pub fn fingerprint(url: &str) -> (r: String)
    ensures
        r@ == fingerprint_of(url@),
{
    let bytes = url.as_bytes();
    let digest = md5_of(bytes);
    base64_url_of(&digest)
}

/// Fingerprinting is deterministic: equal URLs always yield equal
/// fingerprints, across runs and machines.
pub proof fn lemma_fingerprint_deterministic(url1: Seq<char>, url2: Seq<char>)
    requires
        url1 == url2,
    ensures
        fingerprint_of(url1) == fingerprint_of(url2),
{
}

} // verus!

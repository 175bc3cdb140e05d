//! Fingerprints: SHA-256 digests that tell one implementation of a function from another.

use sha2::Digest;
use vstd::prelude::*;
use vstd::string::StringSliceAdditionalSpecFns;
use vstd::utf8::encode_utf8;
use vstd::utf8::encode_utf8_decode_utf8;

verus! {

/// The SHA-256 digest of a byte string, as the `sha2` crate computes it.
pub uninterp spec fn sha256_of(data: Seq<u8>) -> Seq<u8>;

/// `sha2::Sha256::digest`: the 32 bytes it returns are the SHA-256 digest of `data`,
/// which depends on the bytes of `data` and on nothing else.
#[verifier::external_body]
fn sha256(data: &[u8]) -> (digest: [u8; 32])
    ensures
        digest@ == sha256_of(data@),
{
    sha2::Sha256::digest(data).into()
}

/// Digest of the canonical text of a function's implementation.
pub fn hash_token_stream(token_string: &str) -> (digest: [u8; 32])
    ensures
        digest@ == sha256_of(token_string.spec_bytes()),
{
    sha256(token_string.as_bytes())
}

/// A changed text has a changed fingerprint, unless the two texts collide under SHA-256:
/// two texts that differ differ in their bytes, and two byte strings that SHA-256 tells
/// apart have two digests.
pub proof fn lemma_changed_text_changes_fingerprint(first: Seq<char>, second: Seq<char>)
    requires
        first != second,
        sha256_of(encode_utf8(first)) == sha256_of(encode_utf8(second)) ==> encode_utf8(first)
            == encode_utf8(second),
    ensures
        sha256_of(encode_utf8(first)) != sha256_of(encode_utf8(second)),
{
    encode_utf8_decode_utf8(first);
    encode_utf8_decode_utf8(second);
}

} // verus!

//! The fingerprint of a definition: the BLAKE3 digest, in lower-case
//! hexadecimal, of a tag and the four texts of the definition.

use crate::definition::{Curl, CurlView};
use crate::hex::{hex_lower, hex_lower_injective, to_hex};
use vstd::prelude::*;
use vstd::utf8::encode_utf8;

verus! {

/// The 32-byte BLAKE3 digest of `input`.
pub uninterp spec fn blake3_digest(input: Seq<u8>) -> Seq<u8>;

/// `blake3::hash`, the one-shot form of the default hash function. The digest
/// is a function of the input bytes alone; its 32 bytes are handed out as an
/// array.
#[verifier::external_body]
fn blake3_hash(input: &[u8]) -> (digest: [u8; 32])
    ensures
        digest@ == blake3_digest(input@),
{
    *blake3::hash(input).as_bytes()
}

/// The text that sets the fingerprints of remote-call blocks apart from
/// those of other kinds of block.
pub open spec fn kind_tag() -> Seq<char> {
    "curl"@
}

/// The bytes that are hashed: the tag, then the method, the URL template,
/// the headers code and the body code, each as its UTF-8 bytes, with nothing
/// in between.
pub open spec fn fingerprint_input(def: CurlView) -> Seq<u8> {
    encode_utf8(kind_tag()) + encode_utf8(def.method) + encode_utf8(def.url) + encode_utf8(
        def.headers_code,
    ) + encode_utf8(def.body_code)
}

/// The fingerprint of a definition.
pub open spec fn fingerprint(def: CurlView) -> Seq<char> {
    hex_lower(blake3_digest(fingerprint_input(def)))
}

impl Curl {
    /// The bytes that [`Curl::inner_hash`] hashes.
    pub fn hash_input(&self) -> (input: Vec<u8>)
        ensures
            input@ == fingerprint_input(self@),
    {
        let mut input: Vec<u8> = Vec::new();
        input.extend_from_slice("curl".as_bytes());
        input.extend_from_slice(self.method().as_bytes());
        input.extend_from_slice(self.url().as_bytes());
        input.extend_from_slice(self.headers_code().as_bytes());
        input.extend_from_slice(self.body_code().as_bytes());
        assert(input@ =~= fingerprint_input(self@));
        input
    }

    /// The fingerprint of the definition: 64 lower-case hexadecimal digits
    /// that depend on the four texts and on nothing else.
    pub fn inner_hash(&self) -> (digest: String)
        ensures
            digest@ == fingerprint(self@),
            digest@.len() == 64,
    {
        let input = self.hash_input();
        let digest = blake3_hash(input.as_slice());
        to_hex(digest.as_slice())
    }
}

/// Definitions with the same four texts have the same fingerprint.
pub proof fn fingerprint_of_equal_definitions(a: CurlView, b: CurlView)
    requires
        a.method == b.method,
        a.url == b.url,
        a.headers_code == b.headers_code,
        a.body_code == b.body_code,
    ensures
        fingerprint(a) == fingerprint(b),
{
}

/// Two fingerprints are the same text exactly when the two digests are the
/// same bytes: the hexadecimal form adds no collision of its own.
pub proof fn fingerprint_equality(a: CurlView, b: CurlView)
    ensures
        fingerprint(a) == fingerprint(b) <==> blake3_digest(fingerprint_input(a)) == blake3_digest(
            fingerprint_input(b),
        ),
{
    if fingerprint(a) == fingerprint(b) {
        hex_lower_injective(
            blake3_digest(fingerprint_input(a)),
            blake3_digest(fingerprint_input(b)),
        );
    }
}

/// Definitions that differ in one of the four texts have different
/// fingerprints, unless BLAKE3 gives their hashed bytes one digest.
pub proof fn fingerprint_of_different_definitions(a: CurlView, b: CurlView)
    requires
        a.method != b.method || a.url != b.url || a.headers_code != b.headers_code || a.body_code
            != b.body_code,
    ensures
        blake3_digest(fingerprint_input(a)) != blake3_digest(fingerprint_input(b)) ==> fingerprint(
            a,
        ) != fingerprint(b),
{
    fingerprint_equality(a, b);
}

} // verus!

//! Resolving a request against an earlier one with the same key. Content is
//! compared before today's lifecycle state, so an identical retry resolves the
//! same way whatever has happened since.
use crate::canonical::Json;
use crate::digest::sha256_of;
use crate::document::{canonical_text_is_of_the_document, doc_text, Doc};
use crate::guest_model::same_bytes;
use crate::idempotency::{preimage, RequestDigest, DIGEST_VERSION};
use crate::store::rows::RetryRow;
use vstd::prelude::*;

verus! {

/// The digest of a request with the given method, target and body.
pub open spec fn request_digest(method: Seq<char>, target: Seq<char>, body: Doc) -> [u8; 32] {
    sha256_of(preimage(method, target, doc_text(body)))
}

pub fn digest_request(method: &str, target: &str, body: &Json) -> (r: RequestDigest)
    ensures
        r.bytes == request_digest(method@, target@, body@),
{
    proof {
        canonical_text_is_of_the_document(*body);
    }
    RequestDigest::compute(method, target, body)
}

/// The key was first used for a request with this very digest.
pub open spec fn same_content(row: RetryRow, digest: RequestDigest) -> bool {
    row.request_digest@ == digest.bytes@
}

pub fn is_same_content(row: &RetryRow, digest: &RequestDigest) -> (r: bool)
    ensures
        r == same_content(*row, *digest),
{
    same_bytes(row.request_digest.as_slice(), digest.as_bytes().as_slice())
}

/// The key was first used for this very request, under today's normalization.
pub open spec fn same_request(row: RetryRow, digest: RequestDigest) -> bool {
    same_content(row, digest) && row.digest_version == DIGEST_VERSION
}

pub fn is_same_request(row: &RetryRow, digest: &RequestDigest) -> (r: bool)
    ensures
        r == same_request(*row, *digest),
{
    is_same_content(row, digest) && row.digest_version == DIGEST_VERSION
}

} // verus!

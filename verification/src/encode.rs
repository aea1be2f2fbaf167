//! The response encoder: serializes the patch, base64-encodes it, and wraps
//! the decision into the `AdmissionReview` response envelope.

use base64::Engine;
use vstd::prelude::*;
use vstd::string::StringSliceAdditionalSpecFns;

use crate::patch::{lemma_patch_json_len, ops_bounded, patch_json_spec, patch_to_json, PatchOp};

verus! {

/// What base64's standard engine returns for the UTF-8 bytes of a string:
/// named rather than spelled out, since the encoding table is the outside
/// crate's own.
pub uninterp spec fn base64_of(s: Seq<char>) -> Seq<char>;

/// Relies on base64's `Engine::encode` with the `BASE64_STANDARD` engine:
/// standard-alphabet base64 with padding over the UTF-8 bytes of `s`, four
/// output characters for every three input bytes, rounded up. The length
/// bound keeps the encoder's output-size computation far from overflowing.
#[verifier::external_body]
fn base64_encode(s: &str) -> (r: String)
    requires
        s@.len() <= 0x100_0000,
    ensures
        r@ == base64_of(s@),
        r@.len() == 4 * ((s.spec_bytes().len() + 2) / 3),
{
    base64::prelude::BASE64_STANDARD.encode(s.as_bytes())
}

/// The response the webhook sends for one admission request: always allowed;
/// the patch and its type are present exactly when the decision mutates.
#[derive(Debug, Clone)]
pub struct AdmissionResponse {
    /// The correlation token, copied verbatim from the request.
    pub uid: String,
    /// Always true: the webhook is fail-open and never blocks an object.
    pub allowed: bool,
    /// `JSONPatch` when a patch is attached, absent otherwise.
    pub patch_type: Option<String>,
    /// The base64 of the JSON Patch text, absent when nothing is mutated.
    pub patch: Option<String>,
}

/// The `AdmissionReview` envelope carrying the response back.
#[derive(Debug, Clone)]
pub struct AdmissionReviewResponse {
    pub api_version: String,
    pub kind: String,
    pub response: Option<AdmissionResponse>,
}

/// Response encoder: builds the response for a decision. The patch type and
/// the patch are present if and only if the decision mutates, and the patch
/// is the base64 of the serialized operations.
pub fn encode_response(uid: String, mutate: bool, ops: &Vec<PatchOp>) -> (r: AdmissionResponse)
    requires
        mutate ==> ops_bounded(ops@.map_values(|o: PatchOp| o@)),
        !mutate ==> ops@.len() == 0,
    ensures
        r.uid@ == uid@,
        r.allowed,
        r.patch_type is Some <==> mutate,
        r.patch is Some <==> mutate,
        mutate ==> r.patch_type->0@ == "JSONPatch"@,
        mutate ==> r.patch->0@ == base64_of(patch_json_spec(ops@.map_values(|o: PatchOp| o@))),
{
    if mutate {
        let json = patch_to_json(ops);
        proof {
            lemma_patch_json_len(ops@.map_values(|o: PatchOp| o@));
        }
        let patch = base64_encode(json.as_str());
        AdmissionResponse {
            uid,
            allowed: true,
            patch_type: Some("JSONPatch".to_owned()),
            patch: Some(patch),
        }
    } else {
        AdmissionResponse { uid, allowed: true, patch_type: None, patch: None }
    }
}

/// Wraps a response into the versioned `AdmissionReview` envelope. A
/// response is always present: even a no-op decision is answered explicitly.
pub fn into_review(response: AdmissionResponse) -> (r: AdmissionReviewResponse)
    ensures
        r.api_version@ == "admission.k8s.io/v1"@,
        r.kind@ == "AdmissionReview"@,
        r.response == Some(response),
{
    AdmissionReviewResponse {
        api_version: "admission.k8s.io/v1".to_owned(),
        kind: "AdmissionReview".to_owned(),
        response: Some(response),
    }
}

} // verus!

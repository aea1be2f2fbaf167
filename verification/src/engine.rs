//! The decision engine: one pass over a validated request — namespace
//! filter, label gate, kind resolution, patch construction — and the
//! top-level handler that takes a raw review to a response envelope.

use vstd::prelude::*;

use crate::encode::{
    base64_of, encode_response, into_review, AdmissionReviewResponse,
};
use crate::gate::{gate_matches, labels_match};
use crate::patch::{
    build_patch_ops, ops_bounded, opt_str_view, patch_json_spec, patch_ops_spec, patch_path_spec,
    pod_path, template_path, workload_kind, PatchOp,
};
use crate::policy::{MutationPolicy, PolicyView};
use crate::request::{
    validate, validated_request, review_valid, AdmissionRequest, RawReview, RequestView,
    WebhookError,
};

verus! {

/// What one request resolves to: whether to mutate, and with which ordered
/// patch operations. The operations are empty whenever nothing is mutated.
#[derive(Debug, Clone)]
pub struct Decision {
    pub mutate: bool,
    pub ops: Vec<PatchOp>,
}

/// Namespace filter: a namespace is excluded from mutation exactly when it
/// equals the protected namespace of the active policy.
pub fn namespace_excluded(namespace: &String, protected: &String) -> (r: bool)
    ensures
        r == (namespace@ == protected@),
{
    *namespace == *protected
}

/// When a request is mutated: its namespace is not the protected one and
/// every configured label pair matches. Kind never blocks mutation — an
/// unknown kind only changes where the patch points.
pub open spec fn mutates(p: PolicyView, r: RequestView) -> bool {
    &&& r.namespace != p.excluded_namespace
    &&& labels_match(p.required_labels, r.labels)
}

/// Decision engine: evaluates the namespace filter, then the label gate,
/// then builds the patch. Early exits answer with an explicit no-op
/// decision; the engine never fails.
pub fn decide(policy: &MutationPolicy, req: &AdmissionRequest) -> (d: Decision)
    requires
        policy@.wf(),
    ensures
        d.mutate == mutates(policy@, req@),
        d.mutate ==> d.ops@.map_values(|o: PatchOp| o@) == patch_ops_spec(policy@, req@.kind),
        d.mutate ==> ops_bounded(d.ops@.map_values(|o: PatchOp| o@)),
        !d.mutate ==> d.ops@.len() == 0,
{
    if namespace_excluded(&req.namespace, &policy.excluded_namespace) {
        return Decision { mutate: false, ops: Vec::new() };
    }
    if !gate_matches(&policy.required_labels, &req.labels) {
        return Decision { mutate: false, ops: Vec::new() };
    }
    let ops = build_patch_ops(policy, &req.kind);
    proof {
        assert(opt_str_view(req.kind) == req@.kind);
    }
    Decision { mutate: true, ops }
}

/// The whole pipeline for one review: validation, decision, patch
/// serialization, and the response envelope. A valid review is always
/// answered with an envelope whose response carries the request's
/// correlation token and allows the object; the patch and its type are
/// attached if and only if the decision mutates. An invalid review is the
/// one error the core reports.
pub fn handle_review(policy: &MutationPolicy, review: RawReview) -> (r: Result<
    AdmissionReviewResponse,
    WebhookError,
>)
    requires
        policy@.wf(),
    ensures
        r is Ok <==> review_valid(review),
        r is Err ==> r == Err::<AdmissionReviewResponse, WebhookError>(
            WebhookError::MalformedRequest,
        ),
        r is Ok ==> {
            let env = r->Ok_0;
            let rv = validated_request(review);
            &&& env.api_version@ == "admission.k8s.io/v1"@
            &&& env.kind@ == "AdmissionReview"@
            &&& env.response is Some
            &&& env.response->0.uid@ == rv.uid
            &&& env.response->0.allowed
            &&& (env.response->0.patch_type is Some <==> mutates(policy@, rv))
            &&& (env.response->0.patch is Some <==> mutates(policy@, rv))
            &&& (mutates(policy@, rv) ==> env.response->0.patch_type->0@ == "JSONPatch"@)
            &&& (mutates(policy@, rv) ==> env.response->0.patch->0@ == base64_of(
                patch_json_spec(patch_ops_spec(policy@, rv.kind)),
            ))
        },
{
    match validate(review) {
        Err(e) => Err(e),
        Ok(req) => {
            let d = decide(policy, &req);
            let response = encode_response(req.uid, d.mutate, &d.ops);
            Ok(into_review(response))
        },
    }
}

/// A request in the protected `kube-system` namespace is never mutated,
/// regardless of its kind and labels.
pub proof fn lemma_kube_system_never_mutated(p: PolicyView, r: RequestView)
    requires
        p.excluded_namespace == "kube-system"@,
        r.namespace == "kube-system"@,
    ensures
        !mutates(p, r),
{
}

/// The patch path by kind: the four pod-template-embedding workloads patch
/// the embedded template; `Pod`, an absent kind, and every other kind patch
/// the bare pod spec.
pub proof fn lemma_patch_path_by_kind(kind: Option<Seq<char>>)
    ensures
        kind is Some && workload_kind(kind->0) ==> patch_path_spec(kind) == template_path(),
        kind is None ==> patch_path_spec(kind) == pod_path(),
        kind == Some("Pod"@) ==> patch_path_spec(kind) == pod_path(),
        kind is Some && !workload_kind(kind->0) ==> patch_path_spec(kind) == pod_path(),
{
    reveal_strlit("Pod");
    reveal_strlit("Deployment");
    reveal_strlit("ReplicaSet");
    reveal_strlit("StatefulSet");
    reveal_strlit("DaemonSet");
    assert("Pod"@.len() == 3);
    assert("Pod"@ != "Deployment"@ && "Pod"@ != "ReplicaSet"@ && "Pod"@ != "StatefulSet"@ && "Pod"@
        != "DaemonSet"@);
}

} // verus!

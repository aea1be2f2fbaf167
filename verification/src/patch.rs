//! The kind resolver and the patch builder: which JSON Pointer receives the
//! runtime class for a given resource kind, the ordered `add` operations of
//! the patch, and their serialization into JSON Patch text.

use vstd::prelude::*;

use crate::policy::{PolicyView, MutationPolicy, POLICY_STR_MAX};
use crate::text::{
    escape_json, escape_pointer, json_escaped, lemma_json_escaped_len, lemma_pointer_escaped_len,
    pointer_escaped,
};

verus! {

/// One JSON Patch operation. The operation is always `add`: the webhook only
/// ever adds fields, it never removes or replaces one.
#[derive(Debug, Clone)]
pub struct PatchOp {
    /// The JSON Pointer receiving the value; dynamic segments arrive already
    /// pointer-escaped.
    pub path: String,
    /// The string value added at the path.
    pub value: String,
}

/// The ghost image of a [`PatchOp`].
pub ghost struct PatchOpView {
    pub path: Seq<char>,
    pub value: Seq<char>,
}

impl View for PatchOp {
    type V = PatchOpView;

    open spec fn view(&self) -> PatchOpView {
        PatchOpView { path: self.path@, value: self.value@ }
    }
}

/// The kinds that embed a pod template, whose runtime class sits under
/// `/spec/template/spec` rather than `/spec`.
pub open spec fn workload_kind(k: Seq<char>) -> bool {
    ||| k == "Deployment"@
    ||| k == "ReplicaSet"@
    ||| k == "StatefulSet"@
    ||| k == "DaemonSet"@
}

/// The pointer to the runtime class of a pod-template-embedding workload.
pub open spec fn template_path() -> Seq<char> {
    "/spec/template/spec/runtimeClassName"@
}

/// The pointer to the runtime class of a bare pod.
pub open spec fn pod_path() -> Seq<char> {
    "/spec/runtimeClassName"@
}

/// The pointer the runtime class is added at, as a function of the resource
/// kind: template-embedding workloads get the template path; a bare pod, an
/// absent kind, or any unrecognized kind falls back to the pod path. The
/// mapping is total — it never fails.
pub open spec fn patch_path_spec(kind: Option<Seq<char>>) -> Seq<char> {
    match kind {
        Some(k) => if workload_kind(k) {
            template_path()
        } else {
            pod_path()
        },
        None => pod_path(),
    }
}

/// The ghost image of an optional kind string.
pub open spec fn opt_str_view(k: Option<String>) -> Option<Seq<char>> {
    match k {
        Some(s) => Some(s@),
        None => None,
    }
}

/// Kind resolver: the executable counterpart of [`patch_path_spec`].
pub fn patch_path_for(kind: &Option<String>) -> (p: String)
    ensures
        p@ == patch_path_spec(opt_str_view(*kind)),
{
    match kind {
        Some(k) => {
            if *k == "Deployment".to_owned() || *k == "ReplicaSet".to_owned() || *k
                == "StatefulSet".to_owned() || *k == "DaemonSet".to_owned() {
                "/spec/template/spec/runtimeClassName".to_owned()
            } else {
                "/spec/runtimeClassName".to_owned()
            }
        },
        None => "/spec/runtimeClassName".to_owned(),
    }
}

/// The prefix under which the auxiliary annotation is added.
pub open spec fn annotations_prefix() -> Seq<char> {
    "/metadata/annotations/"@
}

/// The ordered patch a policy produces for a resolved kind: first the
/// runtime class at the resolved path, then, when the policy carries one,
/// the auxiliary annotation under `/metadata/annotations` with its key
/// pointer-escaped. The order is part of the contract: JSON Patch applies
/// operations in sequence.
pub open spec fn patch_ops_spec(p: PolicyView, kind: Option<Seq<char>>) -> Seq<PatchOpView> {
    let class_op = PatchOpView { path: patch_path_spec(kind), value: p.runtime_class };
    match p.annotation {
        Some(a) => seq![
            class_op,
            PatchOpView { path: annotations_prefix() + pointer_escaped(a.key), value: a.value },
        ],
        None => seq![class_op],
    }
}

/// Bounds under which serializing a patch cannot outgrow the address space;
/// they hold of every patch built from a well-formed policy.
pub open spec fn ops_bounded(ops: Seq<PatchOpView>) -> bool {
    &&& ops.len() <= 2
    &&& forall|i: int|
        0 <= i < ops.len() ==> (#[trigger] ops[i]).path.len() <= 23 + 2 * POLICY_STR_MAX
            && ops[i].value.len() <= POLICY_STR_MAX
}

/// Patch builder: the executable counterpart of [`patch_ops_spec`].
pub fn build_patch_ops(policy: &MutationPolicy, kind: &Option<String>) -> (ops: Vec<PatchOp>)
    requires
        policy@.wf(),
    ensures
        ops@.map_values(|o: PatchOp| o@) == patch_ops_spec(policy@, opt_str_view(*kind)),
        ops_bounded(ops@.map_values(|o: PatchOp| o@)),
{
    let mut ops: Vec<PatchOp> = Vec::new();
    ops.push(PatchOp { path: patch_path_for(kind), value: policy.runtime_class.clone() });
    match &policy.annotation {
        Some(a) => {
            let mut path = "/metadata/annotations/".to_owned();
            let escaped = escape_pointer(a.key.as_str());
            path.append(escaped.as_str());
            ops.push(PatchOp { path, value: a.value.clone() });
        },
        None => {},
    }
    proof {
        reveal_strlit("/metadata/annotations/");
        reveal_strlit("/spec/template/spec/runtimeClassName");
        reveal_strlit("/spec/runtimeClassName");
        let vops = ops@.map_values(|o: PatchOp| o@);
        assert(vops =~= patch_ops_spec(policy@, opt_str_view(*kind)));
        if policy@.annotation is Some {
            lemma_pointer_escaped_len(policy@.annotation->0.key);
        }
        assert(ops_bounded(vops));
    }
    ops
}

/// The JSON text of one operation: an object with `op` fixed to `add` and
/// the path and value written as escaped JSON strings.
pub open spec fn op_json(op: PatchOpView) -> Seq<char> {
    "{\"op\":\"add\",\"path\":\""@ + json_escaped(op.path) + "\",\"value\":\""@ + json_escaped(
        op.value,
    ) + "\"}"@
}

/// The comma-joined bodies of the operations, in patch order.
pub open spec fn ops_joined(ops: Seq<PatchOpView>) -> Seq<char>
    decreases ops.len(),
{
    if ops.len() == 0 {
        Seq::empty()
    } else if ops.len() == 1 {
        op_json(ops[0])
    } else {
        op_json(ops[0]) + ","@ + ops_joined(ops.skip(1))
    }
}

/// The JSON text of a whole patch: the operations as a JSON array.
pub open spec fn patch_json_spec(ops: Seq<PatchOpView>) -> Seq<char> {
    "["@ + ops_joined(ops) + "]"@
}

/// Appending one operation appends its body, with a comma when operations
/// precede it.
proof fn lemma_ops_joined_push(ops: Seq<PatchOpView>, op: PatchOpView)
    ensures
        ops_joined(ops.push(op)) == if ops.len() == 0 {
            op_json(op)
        } else {
            ops_joined(ops) + ","@ + op_json(op)
        },
    decreases ops.len(),
{
    if ops.len() == 0 {
        assert(ops.push(op)[0] == op);
    } else {
        lemma_ops_joined_push(ops.skip(1), op);
        assert(ops.push(op).skip(1) =~= ops.skip(1).push(op));
        if ops.len() == 1 {
            assert(ops_joined(ops.push(op)) == op_json(ops[0]) + ","@ + op_json(op));
        } else {
            assert(ops_joined(ops) + ","@ + op_json(op) =~= op_json(ops[0]) + ","@ + (ops_joined(
                ops.skip(1),
            ) + ","@ + op_json(op)));
        }
    }
}

/// Serializes one operation: the executable counterpart of [`op_json`].
fn op_to_json(op: &PatchOp) -> (r: String)
    ensures
        r@ == op_json(op@),
{
    let mut r = "{\"op\":\"add\",\"path\":\"".to_owned();
    let escaped_path = escape_json(op.path.as_str());
    r.append(escaped_path.as_str());
    r.append("\",\"value\":\"");
    let escaped_value = escape_json(op.value.as_str());
    r.append(escaped_value.as_str());
    r.append("\"}");
    r
}

/// Serializes a patch to JSON Patch text: the executable counterpart of
/// [`patch_json_spec`].
pub fn patch_to_json(ops: &Vec<PatchOp>) -> (r: String)
    ensures
        r@ == patch_json_spec(ops@.map_values(|o: PatchOp| o@)),
{
    let ghost vops = ops@.map_values(|o: PatchOp| o@);
    let mut r = "[".to_owned();
    let mut i: usize = 0;
    while i < ops.len()
        invariant
            vops == ops@.map_values(|o: PatchOp| o@),
            i <= ops.len(),
            r@ == "["@ + ops_joined(vops.take(i as int)),
        decreases ops.len() - i,
    {
        proof {
            assert(vops.take(i + 1) =~= vops.take(i as int).push(vops[i as int]));
            lemma_ops_joined_push(vops.take(i as int), vops[i as int]);
        }
        if i > 0 {
            r.append(",");
        }
        let body = op_to_json(&ops[i]);
        r.append(body.as_str());
        i = i + 1;
    }
    r.append("]");
    proof {
        assert(vops.take(ops@.len() as int) =~= vops);
    }
    r
}

/// The serialized patch of a bounded operation list stays far below the
/// size the encoder accepts.
pub proof fn lemma_patch_json_len(ops: Seq<PatchOpView>)
    requires
        ops_bounded(ops),
    ensures
        patch_json_spec(ops).len() <= 0x100_0000,
{
    reveal_strlit("{\"op\":\"add\",\"path\":\"");
    reveal_strlit("\",\"value\":\"");
    reveal_strlit("\"}");
    reveal_strlit(",");
    reveal_strlit("[");
    reveal_strlit("]");
    assert forall|i: int| 0 <= i < ops.len() implies op_json(#[trigger] ops[i]).len()
        <= 33 + 6 * (23 + 2 * POLICY_STR_MAX) + 6 * POLICY_STR_MAX by {
        lemma_json_escaped_len(ops[i].path);
        lemma_json_escaped_len(ops[i].value);
    }
    if ops.len() == 2 {
        assert(ops_joined(ops) == op_json(ops[0]) + ","@ + ops_joined(ops.skip(1)));
        assert(ops.skip(1).len() == 1);
        assert(ops.skip(1)[0] == ops[1]);
    }
}

} // verus!

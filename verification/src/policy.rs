//! The mutation policy: the configured values the decision engine works
//! from — the runtime class to inject, the namespace protected from
//! mutation, the label pairs that must match before mutation proceeds, and
//! an optional auxiliary annotation added alongside the runtime class.

use vstd::prelude::*;

use crate::request::{Label, LabelView};

verus! {

/// The longest policy-supplied string (runtime class, annotation key or
/// value) the patch builder accepts. The bound keeps the serialized patch
/// far below any platform's address-space limits; real Kubernetes names are
/// shorter by orders of magnitude.
pub const POLICY_STR_MAX: usize = 65536;

/// An auxiliary annotation the patch may add under `/metadata/annotations`.
#[derive(Debug, Clone)]
pub struct Annotation {
    pub key: String,
    pub value: String,
}

/// The ghost image of an [`Annotation`].
pub ghost struct AnnotationView {
    pub key: Seq<char>,
    pub value: Seq<char>,
}

impl View for Annotation {
    type V = AnnotationView;

    open spec fn view(&self) -> AnnotationView {
        AnnotationView { key: self.key@, value: self.value@ }
    }
}

/// The configuration the decision engine is constructed with. Policy values
/// live here rather than as free constants so a deployment can swap them
/// without touching the engine.
#[derive(Debug, Clone)]
pub struct MutationPolicy {
    /// The runtime class injected into admitted workloads.
    pub runtime_class: String,
    /// The namespace whose workloads are never mutated.
    pub excluded_namespace: String,
    /// Labels the object must carry before it is patched; leave this empty
    /// to patch unconditionally.
    pub required_labels: Vec<Label>,
    /// When present, an annotation added by the patch after the runtime
    /// class.
    pub annotation: Option<Annotation>,
}

/// The ghost image of a [`MutationPolicy`].
pub ghost struct PolicyView {
    pub runtime_class: Seq<char>,
    pub excluded_namespace: Seq<char>,
    pub required_labels: Seq<LabelView>,
    pub annotation: Option<AnnotationView>,
}

impl View for MutationPolicy {
    type V = PolicyView;

    open spec fn view(&self) -> PolicyView {
        PolicyView {
            runtime_class: self.runtime_class@,
            excluded_namespace: self.excluded_namespace@,
            required_labels: self.required_labels@.map_values(|l: Label| l@),
            annotation: match self.annotation {
                Some(a) => Some(a@),
                None => None,
            },
        }
    }
}

impl PolicyView {
    /// Well-formedness: the strings the patch builder copies into the patch
    /// document are bounded, so the serialized patch stays addressable.
    pub open spec fn wf(self) -> bool {
        &&& self.runtime_class.len() <= POLICY_STR_MAX
        &&& match self.annotation {
            Some(a) => a.key.len() <= POLICY_STR_MAX && a.value.len() <= POLICY_STR_MAX,
            None => true,
        }
    }
}

impl MutationPolicy {
    /// The base policy: inject the `edera` runtime class everywhere except
    /// the `kube-system` namespace, with no label gate and no annotation.
    pub fn base() -> (p: MutationPolicy)
        ensures
            p@.runtime_class == "edera"@,
            p@.excluded_namespace == "kube-system"@,
            p@.required_labels.len() == 0,
            p@.annotation is None,
            p@.wf(),
    {
        let p = MutationPolicy {
            runtime_class: "edera".to_owned(),
            excluded_namespace: "kube-system".to_owned(),
            required_labels: Vec::new(),
            annotation: None,
        };
        proof {
            reveal_strlit("edera");
            assert(p@.required_labels =~= Seq::<LabelView>::empty());
        }
        p
    }
}

} // verus!

//! A Kubernetes mutating admission webhook core: given an admission request
//! describing a workload object about to be created, decide whether to
//! inject a runtime-class assignment and build the corresponding JSON Patch,
//! wrapped into an `AdmissionReview` response envelope.
//!
//! The webhook is fail-open: every request is allowed; the only question is
//! whether a patch is attached. The decision runs in one pass — namespace
//! filter, label gate, kind resolution, patch construction — with no state
//! kept between requests.

pub mod encode;
pub mod engine;
pub mod gate;
pub mod patch;
pub mod policy;
pub mod request;
pub mod text;

pub use encode::{AdmissionResponse, AdmissionReviewResponse};
pub use engine::{decide, handle_review, Decision};
pub use patch::PatchOp;
pub use policy::{Annotation, MutationPolicy};
pub use request::{AdmissionRequest, Label, RawRequest, RawReview, WebhookError};

//! The request model: the raw fields handed in from the transport layer, the
//! validated admission request the engine works on, and the single error the
//! validation step can produce.

use vstd::prelude::*;

verus! {

/// One label on the target object (or one required pair in the policy).
#[derive(Debug, Clone)]
pub struct Label {
    pub key: String,
    pub value: String,
}

/// The ghost image of a [`Label`].
pub ghost struct LabelView {
    pub key: Seq<char>,
    pub value: Seq<char>,
}

impl View for Label {
    type V = LabelView;

    open spec fn view(&self) -> LabelView {
        LabelView { key: self.key@, value: self.value@ }
    }
}

/// The fields of an admission request as the transport layer found them,
/// every one of them possibly missing. Validation decides which absences are
/// errors and which are defaulted.
#[derive(Debug, Clone)]
pub struct RawRequest {
    /// The correlation token the response must carry back.
    pub uid: Option<String>,
    /// The resource kind of the target object, e.g. `Pod` or `Deployment`.
    pub kind: Option<String>,
    /// The target object's metadata name.
    pub name: Option<String>,
    /// The metadata generate-name, a fallback display name.
    pub generate_name: Option<String>,
    /// The namespace the target object is created in.
    pub namespace: Option<String>,
    /// The target object's labels; absent labels arrive as an empty list.
    pub labels: Vec<Label>,
}

/// The envelope the transport layer hands in: a review that may or may not
/// carry a request.
#[derive(Debug, Clone)]
pub struct RawReview {
    pub request: Option<RawRequest>,
}

/// A validated admission request: everything the decision engine reads.
#[derive(Debug, Clone)]
pub struct AdmissionRequest {
    /// The correlation token, passed through to the response unmodified.
    pub uid: String,
    /// The resource kind, when the request named one.
    pub kind: Option<String>,
    /// The name used for display: metadata name, else generate-name, else
    /// `unknown`. It never affects the decision.
    pub display_name: String,
    /// The namespace the target object is created in.
    pub namespace: String,
    /// The target object's labels.
    pub labels: Vec<Label>,
}

/// The ghost image of an [`AdmissionRequest`].
pub ghost struct RequestView {
    pub uid: Seq<char>,
    pub kind: Option<Seq<char>>,
    pub display_name: Seq<char>,
    pub namespace: Seq<char>,
    pub labels: Seq<LabelView>,
}

impl View for AdmissionRequest {
    type V = RequestView;

    open spec fn view(&self) -> RequestView {
        RequestView {
            uid: self.uid@,
            kind: match self.kind {
                Some(k) => Some(k@),
                None => None,
            },
            display_name: self.display_name@,
            namespace: self.namespace@,
            labels: self.labels@.map_values(|l: Label| l@),
        }
    }
}

/// The one failure the core can report: the payload did not carry the shape
/// of an admission request. The transport layer turns it into a 400-class
/// response.
#[derive(Debug, Clone, PartialEq, Eq, Structural)]
pub enum WebhookError {
    MalformedRequest,
}

impl WebhookError {
    /// The HTTP status the transport layer should answer with.
    pub fn status_code(&self) -> (c: u16)
        ensures
            c == 400,
    {
        400
    }

    /// The structured error body the transport layer should answer with.
    pub fn body_json(&self) -> (b: String)
        ensures
            b@ == "{\"error\":\"Invalid input\",\"code\":400}"@,
    {
        "{\"error\":\"Invalid input\",\"code\":400}".to_owned()
    }
}

/// A raw review is valid when it carries a request and the request carries
/// the two required fields: the correlation token and the namespace.
pub open spec fn review_valid(review: RawReview) -> bool {
    &&& review.request is Some
    &&& review.request->0.uid is Some
    &&& review.request->0.namespace is Some
}

/// The display name a raw request resolves to: metadata name, else
/// generate-name, else `unknown`.
pub open spec fn display_name_of(req: RawRequest) -> Seq<char> {
    if req.name is Some {
        req.name->0@
    } else if req.generate_name is Some {
        req.generate_name->0@
    } else {
        "unknown"@
    }
}

/// The request a valid review validates to, at the ghost level: the
/// correlation token and namespace taken as they stand, the display name
/// defaulted, the labels as observed.
pub open spec fn validated_request(review: RawReview) -> RequestView
    recommends
        review_valid(review),
{
    let q = review.request->0;
    RequestView {
        uid: q.uid->0@,
        kind: match q.kind {
            Some(k) => Some(k@),
            None => None,
        },
        display_name: display_name_of(q),
        namespace: q.namespace->0@,
        labels: q.labels@.map_values(|l: Label| l@),
    }
}

/// Validation: accepts exactly the reviews that carry a request with a
/// correlation token and a namespace; everything else is a malformed
/// request. Optional metadata is defaulted, never an error.
pub fn validate(review: RawReview) -> (r: Result<AdmissionRequest, WebhookError>)
    ensures
        r is Ok <==> review_valid(review),
        r is Ok ==> r->Ok_0@ == validated_request(review),
        r is Err ==> r == Err::<AdmissionRequest, WebhookError>(WebhookError::MalformedRequest),
{
    match review.request {
        None => Err(WebhookError::MalformedRequest),
        Some(q) => match (q.uid, q.namespace) {
            (Some(uid), Some(namespace)) => {
                let display_name = match q.name {
                    Some(n) => n,
                    None => match q.generate_name {
                        Some(g) => g,
                        None => "unknown".to_owned(),
                    },
                };
                Ok(
                    AdmissionRequest {
                        uid,
                        kind: q.kind,
                        display_name,
                        namespace,
                        labels: q.labels,
                    },
                )
            },
            _ => Err(WebhookError::MalformedRequest),
        },
    }
}

} // verus!

//! End-to-end tests of the webhook core: the decision pipeline, the patch
//! paths per kind, the protected namespace, the label gate, and the encoding
//! of the patch.

use base64::Engine;
use serde_json::Value;

use admission_webhook::engine::handle_review;
use admission_webhook::policy::{Annotation, MutationPolicy};
use admission_webhook::request::{validate, Label, RawRequest, RawReview, WebhookError};
use admission_webhook::text::{escape_json, escape_pointer, to_lower};
use admission_webhook::AdmissionReviewResponse;

fn raw_request(uid: &str, kind: Option<&str>, name: &str, namespace: &str) -> RawReview {
    RawReview {
        request: Some(RawRequest {
            uid: Some(uid.to_string()),
            kind: kind.map(|k| k.to_string()),
            name: Some(name.to_string()),
            generate_name: None,
            namespace: Some(namespace.to_string()),
            labels: Vec::new(),
        }),
    }
}

fn decoded_patch(review: &AdmissionReviewResponse) -> Value {
    let patch_base64 = review.response.as_ref().unwrap().patch.clone().unwrap();
    let bytes = base64::prelude::BASE64_STANDARD.decode(patch_base64).unwrap();
    serde_json::from_str(&String::from_utf8(bytes).unwrap()).unwrap()
}

fn expected_single_add(path: &str) -> Value {
    serde_json::from_str(&format!(
        "[{{\"op\":\"add\",\"path\":\"{}\",\"value\":\"edera\"}}]",
        path
    ))
    .unwrap()
}

#[test]
fn test_mutate_pod() {
    let policy = MutationPolicy::base();
    let review = raw_request("test-uid", Some("Pod"), "test-name", "test-namespace");

    let result = handle_review(&policy, review).unwrap();

    assert_eq!(result.api_version, "admission.k8s.io/v1");
    assert_eq!(result.kind, "AdmissionReview");
    assert!(result.response.is_some());

    let response = result.response.as_ref().unwrap();
    assert_eq!(response.uid, "test-uid");
    assert!(response.allowed);
    assert_eq!(response.patch_type, Some("JSONPatch".to_string()));

    let patch_json = decoded_patch(&result);
    assert_eq!(patch_json, expected_single_add("/spec/runtimeClassName"));
}

#[test]
fn test_mutate_replicaset() {
    let policy = MutationPolicy::base();
    let review = raw_request("replicaset-uid", Some("ReplicaSet"), "rs-name", "rs-namespace");

    let result = handle_review(&policy, review).unwrap();

    assert_eq!(result.api_version, "admission.k8s.io/v1");
    assert_eq!(result.kind, "AdmissionReview");
    assert!(result.response.is_some());

    let response = result.response.as_ref().unwrap();
    assert_eq!(response.uid, "replicaset-uid");
    assert!(response.allowed);
    assert_eq!(response.patch_type, Some("JSONPatch".to_string()));

    let patch_json = decoded_patch(&result);
    assert_eq!(
        patch_json,
        expected_single_add("/spec/template/spec/runtimeClassName")
    );
}

#[test]
fn test_mutate_endpoint() {
    // The same admission review the HTTP endpoint receives, taken from its
    // JSON body; the transport layer parses it into the raw request shape.
    let body = "{\"request\":{\"uid\":\"test-uid\",\"kind\":{\"kind\":\"Pod\"},\"object\":{\"metadata\":{\"name\":\"test-name\",\"namespace\":\"test-namespace\"}}}}";
    let parsed: Value = serde_json::from_str(body).unwrap();
    let request = &parsed["request"];
    let review = RawReview {
        request: Some(RawRequest {
            uid: request["uid"].as_str().map(|s| s.to_string()),
            kind: request["kind"]["kind"].as_str().map(|s| s.to_string()),
            name: request["object"]["metadata"]["name"]
                .as_str()
                .map(|s| s.to_string()),
            generate_name: None,
            namespace: request["object"]["metadata"]["namespace"]
                .as_str()
                .map(|s| s.to_string()),
            labels: Vec::new(),
        }),
    };

    let policy = MutationPolicy::base();
    let result = handle_review(&policy, review);
    assert!(result.is_ok());

    let response_body = result.unwrap();
    assert_eq!(response_body.api_version, "admission.k8s.io/v1");
    assert_eq!(response_body.kind, "AdmissionReview");
    assert!(response_body.response.is_some());

    let response = response_body.response.unwrap();
    assert_eq!(response.uid, "test-uid");
    assert!(response.allowed);
    assert_eq!(response.patch_type, Some("JSONPatch".to_string()));
}

#[test]
fn test_mutate_deployment() {
    let policy = MutationPolicy::base();
    let review = raw_request(
        "deployment-uid",
        Some("Deployment"),
        "deployment-name",
        "deployment-namespace",
    );

    let result = handle_review(&policy, review).unwrap();

    assert_eq!(result.api_version, "admission.k8s.io/v1");
    assert_eq!(result.kind, "AdmissionReview");
    let resp = result.response.as_ref().expect("response missing");
    assert_eq!(resp.uid, "deployment-uid");
    assert!(resp.allowed);
    assert_eq!(resp.patch_type, Some("JSONPatch".to_string()));
    resp.patch.as_ref().expect("patch missing");

    let patch_json = decoded_patch(&result);
    assert_eq!(
        patch_json,
        expected_single_add("/spec/template/spec/runtimeClassName")
    );
}

#[test]
fn test_mutate_statefulset() {
    let policy = MutationPolicy::base();
    let review = raw_request(
        "statefulset-uid",
        Some("StatefulSet"),
        "statefulset-name",
        "statefulset-namespace",
    );

    let result = handle_review(&policy, review).unwrap();

    assert_eq!(result.api_version, "admission.k8s.io/v1");
    assert_eq!(result.kind, "AdmissionReview");
    let resp = result.response.as_ref().expect("response missing");
    assert_eq!(resp.uid, "statefulset-uid");
    assert!(resp.allowed);
    assert_eq!(resp.patch_type, Some("JSONPatch".to_string()));
    resp.patch.as_ref().expect("patch missing");

    let patch_json = decoded_patch(&result);
    assert_eq!(
        patch_json,
        expected_single_add("/spec/template/spec/runtimeClassName")
    );
}

#[test]
fn test_mutate_daemonset() {
    let policy = MutationPolicy::base();
    let review = raw_request(
        "daemonset-uid",
        Some("DaemonSet"),
        "daemonset-name",
        "daemonset-namespace",
    );

    let result = handle_review(&policy, review).unwrap();

    assert_eq!(result.api_version, "admission.k8s.io/v1");
    assert_eq!(result.kind, "AdmissionReview");
    let resp = result.response.as_ref().expect("response missing");
    assert_eq!(resp.uid, "daemonset-uid");
    assert!(resp.allowed);
    assert_eq!(resp.patch_type, Some("JSONPatch".to_string()));
    resp.patch.as_ref().expect("patch missing");

    let patch_json = decoded_patch(&result);
    assert_eq!(
        patch_json,
        expected_single_add("/spec/template/spec/runtimeClassName")
    );
}

#[test]
fn test_kube_system_not_mutated() {
    let policy = MutationPolicy::base();
    let review = raw_request("kube-system-uid", Some("Pod"), "kube-workload", "kube-system");

    let result = handle_review(&policy, review).unwrap();

    assert_eq!(result.api_version, "admission.k8s.io/v1");
    assert_eq!(result.kind, "AdmissionReview");
    let resp = result.response.as_ref().expect("response missing");

    assert_eq!(resp.uid, "kube-system-uid");
    assert!(resp.allowed);
    assert_eq!(resp.patch_type, None);
    assert_eq!(resp.patch, None);
}

#[test]
fn test_unknown_kind_uses_pod_path() {
    let policy = MutationPolicy::base();
    let review = raw_request("cron-uid", Some("CronJob"), "cron-name", "default");

    let result = handle_review(&policy, review).unwrap();
    let patch_json = decoded_patch(&result);
    assert_eq!(patch_json, expected_single_add("/spec/runtimeClassName"));
}

#[test]
fn test_absent_kind_uses_pod_path() {
    let policy = MutationPolicy::base();
    let review = raw_request("anon-uid", None, "anon-name", "default");

    let result = handle_review(&policy, review).unwrap();
    let patch_json = decoded_patch(&result);
    assert_eq!(patch_json, expected_single_add("/spec/runtimeClassName"));
}

#[test]
fn test_missing_request_is_malformed() {
    let policy = MutationPolicy::base();
    let result = handle_review(&policy, RawReview { request: None });
    assert!(matches!(result, Err(WebhookError::MalformedRequest)));

    let err = result.unwrap_err();
    assert_eq!(err.status_code(), 400);
    assert_eq!(err.body_json(), "{\"error\":\"Invalid input\",\"code\":400}");

    // The error body itself is well-formed JSON with the documented fields.
    let body: Value = serde_json::from_str(&err.body_json()).unwrap();
    assert_eq!(body["error"], Value::String("Invalid input".to_string()));
    assert_eq!(body["code"], Value::from(400));
}

#[test]
fn test_missing_uid_is_malformed() {
    let policy = MutationPolicy::base();
    let review = RawReview {
        request: Some(RawRequest {
            uid: None,
            kind: Some("Pod".to_string()),
            name: Some("x".to_string()),
            generate_name: None,
            namespace: Some("default".to_string()),
            labels: Vec::new(),
        }),
    };
    assert!(matches!(
        handle_review(&policy, review),
        Err(WebhookError::MalformedRequest)
    ));
}

#[test]
fn test_missing_namespace_is_malformed() {
    let policy = MutationPolicy::base();
    let review = RawReview {
        request: Some(RawRequest {
            uid: Some("u".to_string()),
            kind: Some("Pod".to_string()),
            name: Some("x".to_string()),
            generate_name: None,
            namespace: None,
            labels: Vec::new(),
        }),
    };
    assert!(matches!(
        handle_review(&policy, review),
        Err(WebhookError::MalformedRequest)
    ));
}

#[test]
fn test_display_name_fallbacks() {
    let named = RawReview {
        request: Some(RawRequest {
            uid: Some("u".to_string()),
            kind: None,
            name: Some("named".to_string()),
            generate_name: Some("gen-".to_string()),
            namespace: Some("default".to_string()),
            labels: Vec::new(),
        }),
    };
    assert_eq!(validate(named).unwrap().display_name, "named");

    let generated = RawReview {
        request: Some(RawRequest {
            uid: Some("u".to_string()),
            kind: None,
            name: None,
            generate_name: Some("gen-".to_string()),
            namespace: Some("default".to_string()),
            labels: Vec::new(),
        }),
    };
    assert_eq!(validate(generated).unwrap().display_name, "gen-");

    let anonymous = RawReview {
        request: Some(RawRequest {
            uid: Some("u".to_string()),
            kind: None,
            name: None,
            generate_name: None,
            namespace: Some("default".to_string()),
            labels: Vec::new(),
        }),
    };
    assert_eq!(validate(anonymous).unwrap().display_name, "unknown");
}

fn gated_policy() -> MutationPolicy {
    let mut policy = MutationPolicy::base();
    policy.required_labels = vec![
        Label {
            key: "actions-ephemeral-runner".to_string(),
            value: "true".to_string(),
        },
        Label {
            key: "edera-protect".to_string(),
            value: "enabled".to_string(),
        },
    ];
    policy
}

fn labeled_review(labels: Vec<Label>) -> RawReview {
    RawReview {
        request: Some(RawRequest {
            uid: Some("gated-uid".to_string()),
            kind: Some("Pod".to_string()),
            name: Some("gated-name".to_string()),
            generate_name: None,
            namespace: Some("default".to_string()),
            labels,
        }),
    }
}

#[test]
fn test_label_gate_partial_match_blocks() {
    // Only one of the two required labels is present: no mutation.
    let review = labeled_review(vec![Label {
        key: "actions-ephemeral-runner".to_string(),
        value: "TRUE".to_string(),
    }]);
    let result = handle_review(&gated_policy(), review).unwrap();
    let resp = result.response.as_ref().unwrap();
    assert!(resp.allowed);
    assert_eq!(resp.patch_type, None);
    assert_eq!(resp.patch, None);
}

#[test]
fn test_label_gate_values_case_insensitive() {
    // Both required labels present; observed values differ only in case.
    let review = labeled_review(vec![
        Label {
            key: "actions-ephemeral-runner".to_string(),
            value: "TRUE".to_string(),
        },
        Label {
            key: "edera-protect".to_string(),
            value: "Enabled".to_string(),
        },
    ]);
    let result = handle_review(&gated_policy(), review).unwrap();
    let resp = result.response.as_ref().unwrap();
    assert_eq!(resp.patch_type, Some("JSONPatch".to_string()));
}

#[test]
fn test_label_gate_keys_case_sensitive() {
    // Right values, but one key differs in case: keys never fold, so the
    // gate blocks.
    let review = labeled_review(vec![
        Label {
            key: "Actions-Ephemeral-Runner".to_string(),
            value: "true".to_string(),
        },
        Label {
            key: "edera-protect".to_string(),
            value: "enabled".to_string(),
        },
    ]);
    let result = handle_review(&gated_policy(), review).unwrap();
    let resp = result.response.as_ref().unwrap();
    assert_eq!(resp.patch_type, None);
}

#[test]
fn test_annotation_key_is_pointer_escaped() {
    let mut policy = MutationPolicy::base();
    policy.annotation = Some(Annotation {
        key: "edera.dev/verbose-kernel-logging".to_string(),
        value: "true".to_string(),
    });
    let review = raw_request("ann-uid", Some("Pod"), "ann-name", "default");

    let result = handle_review(&policy, review).unwrap();
    let patch_json = decoded_patch(&result);

    let expected_text = "[{\"op\":\"add\",\"path\":\"/spec/runtimeClassName\",\"value\":\"edera\"},{\"op\":\"add\",\"path\":\"/metadata/annotations/edera.dev~1verbose-kernel-logging\",\"value\":\"true\"}]";
    let expected: Value = serde_json::from_str(expected_text).unwrap();
    assert_eq!(patch_json, expected);
}

#[test]
fn test_patch_decodes_to_add_operations() {
    // The encoded patch survives the full decode chain: base64, UTF-8, JSON.
    let mut policy = MutationPolicy::base();
    policy.annotation = Some(Annotation {
        key: "quoted\"key/with~marks".to_string(),
        value: "v\"v".to_string(),
    });
    let review = raw_request("p5-uid", Some("Deployment"), "p5-name", "default");

    let result = handle_review(&policy, review).unwrap();
    let patch_json = decoded_patch(&result);

    let ops = patch_json.as_array().expect("patch must be a JSON array");
    assert_eq!(ops.len(), 2);
    for op in ops {
        assert_eq!(op["op"], Value::String("add".to_string()));
        let path = op["path"].as_str().unwrap();
        assert!(path.starts_with('/'));
    }
    // The dynamic segment holds no raw separator and round-trips its marks.
    assert_eq!(
        ops[1]["path"].as_str().unwrap(),
        "/metadata/annotations/quoted\"key~1with~0marks"
    );
    assert_eq!(ops[1]["value"], Value::String("v\"v".to_string()));
}

#[test]
fn test_escape_pointer_exact() {
    assert_eq!(escape_pointer("a/b~c"), "a~1b~0c");
    assert_eq!(escape_pointer(""), "");
    assert_eq!(escape_pointer("~/"), "~0~1");
}

#[test]
fn test_escape_json_exact() {
    assert_eq!(escape_json("plain"), "plain");
    assert_eq!(escape_json("a\"b\\c\nd"), "a\\\"b\\\\c\\u000ad");
    assert_eq!(escape_json("\u{1}"), "\\u0001");
}

#[test]
fn test_to_lower_ascii_only() {
    assert_eq!(to_lower("TRUE"), "true");
    assert_eq!(to_lower("MiXeD-42"), "mixed-42");
}

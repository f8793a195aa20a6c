use disable_service_links::names::{is_valid_name, is_valid_name_within};
use disable_service_links::pipeline::{decide, evaluate, resolve, AdmissionRequest, Outcome, Step};
use disable_service_links::pod::{mutate_pod, pin_service_links, MutationError};
use disable_service_links::settings::{validate_settings, Settings, SettingsError};

const POD_JSON: &str = r#"{
  "apiVersion": "v1",
  "kind": "Pod",
  "metadata": {"name": "nginx", "namespace": "default", "labels": {"app": "web"}},
  "spec": {"containers": [{"name": "nginx", "image": "nginx:latest"}]}
}"#;

const DEPLOYMENT_JSON: &str = r#"{
  "apiVersion": "apps/v1",
  "kind": "Deployment",
  "metadata": {"name": "nginx", "namespace": "default"},
  "spec": {
    "replicas": 1,
    "selector": {"matchLabels": {"app": "web"}},
    "template": {
      "metadata": {"labels": {"app": "web"}},
      "spec": {"containers": [{"name": "nginx", "image": "nginx:latest"}]}
    }
  }
}"#;

fn json(text: &str) -> serde_json::Value {
    serde_json::from_str(text).unwrap()
}

fn request(kind: &str, namespace: &str, name: &str, dry_run: bool, object: &str) -> AdmissionRequest {
    AdmissionRequest {
        operation: "CREATE".to_string(),
        kind: kind.to_string(),
        namespace: namespace.to_string(),
        name: name.to_string(),
        dry_run,
        object: json(object),
    }
}

fn strings(items: &[&str]) -> Vec<String> {
    items.iter().map(|s| s.to_string()).collect()
}

fn service_links(doc: &serde_json::Value) -> Option<&serde_json::Value> {
    doc.get("spec").and_then(|s| s.get("enableServiceLinks"))
}

#[test]
fn mutate_pod_enable_service_links() {
    let outcome = evaluate(request("Pod", "default", "nginx", false, POD_JSON), &Settings::default());
    match outcome {
        Outcome::AcceptWithMutation(doc) => {
            let pod: k8s_openapi::api::core::v1::Pod = serde_json::from_value(doc).unwrap();
            assert_eq!(pod.spec.unwrap().enable_service_links, Some(false));
        }
        _ => panic!("Something mutated with test case: Pod creation"),
    }
}

#[test]
fn accept_pod_enable_service_links() {
    let settings = Settings::new(None, Some(strings(&["ng"])));
    let outcome = evaluate(request("Pod", "default", "nginx", false, POD_JSON), &settings);
    assert!(matches!(outcome, Outcome::Accept), "Nothing mutated with test case: Pod creation");
}

#[test]
fn mutate_deployment_enable_service_links() {
    let outcome = evaluate(
        request("Deployment", "default", "nginx", false, DEPLOYMENT_JSON),
        &Settings::default(),
    );
    assert!(matches!(outcome, Outcome::Accept), "Nothing mutated with test case: Deployment creation");
}

#[test]
fn valid_validate_settings() {
    let settings = Settings::new(None, Some(strings(&["valid-name", "valid-name-123"])));
    assert!(settings.validate().is_ok());
}

#[test]
fn invalid_validate_settings() {
    let settings = Settings::new(
        None,
        Some(strings(&["Invalid-Name", "invalid_name", "12345", "-invalid", "invalid-"])),
    );
    assert!(settings.validate().is_err());
}

#[test]
fn dry_run_pod_is_accepted_whatever_the_settings() {
    let outcome = evaluate(request("Pod", "default", "web-1", true, POD_JSON), &Settings::default());
    assert!(matches!(outcome, Outcome::Accept));
    let settings = Settings::new(Some(strings(&["default"])), Some(strings(&["web"])));
    let outcome = evaluate(request("Pod", "default", "web-1", true, POD_JSON), &settings);
    assert!(matches!(outcome, Outcome::Accept));
}

#[test]
fn other_kind_is_accepted() {
    let r = request("Deployment", "default", "web-1", false, DEPLOYMENT_JSON);
    assert!(matches!(decide(&r, &Settings::default()), Step::Accept));
    assert!(matches!(evaluate(r, &Settings::default()), Outcome::Accept));
}

#[test]
fn pod_with_exempt_prefix_is_accepted() {
    let settings = Settings::new(None, Some(strings(&["ng"])));
    let outcome = evaluate(request("Pod", "default", "ng-1", false, POD_JSON), &settings);
    assert!(matches!(outcome, Outcome::Accept));
}

#[test]
fn pod_with_empty_spec_is_mutated() {
    let outcome = evaluate(request("Pod", "default", "web-1", false, r#"{"spec": {}}"#), &Settings::default());
    match outcome {
        Outcome::AcceptWithMutation(doc) => {
            assert_eq!(service_links(&doc), Some(&serde_json::Value::Bool(false)));
        }
        _ => panic!("expected a mutation"),
    }
}

#[test]
fn invalid_namespace_setting_is_reported() {
    let settings = Settings::new(Some(strings(&["Invalid_NS"])), None);
    let err = validate_settings(&settings).unwrap_err();
    assert_eq!(err, "exempt_namespace with invalid name: Invalid_NS");
}

#[test]
fn invalid_prefix_setting_is_reported() {
    let settings = Settings::new(Some(strings(&["kube-system"])), Some(strings(&["Bad"])));
    let err = validate_settings(&settings).unwrap_err();
    assert_eq!(err, "exempt_pod_name_prefix with invalid name: Bad");
    match settings.validate() {
        Err(SettingsError::InvalidPodNamePrefix(n)) => assert_eq!(n, "Bad"),
        _ => panic!("expected an invalid prefix"),
    }
}

#[test]
fn pod_that_does_not_decode_is_accepted() {
    let outcome = evaluate(
        request("Pod", "default", "web-1", false, r#"{"spec": {"containers": "oops"}}"#),
        &Settings::default(),
    );
    assert!(matches!(outcome, Outcome::Accept));
}

#[test]
fn exempt_namespace_exempts_any_pod_name() {
    let settings = Settings::new(Some(strings(&["kube-system", "default"])), None);
    assert!(settings.exempt_namespace(&"default".to_string()));
    assert!(!settings.exempt_namespace(&"Default".to_string()));
    assert!(settings.exempt(&"default".to_string(), &"anything".to_string()));
    assert!(settings.exempt(&"default".to_string(), &"".to_string()));
    assert!(!settings.exempt(&"prod".to_string(), &"anything".to_string()));
}

#[test]
fn exempt_prefix_exempts_matching_names() {
    let settings = Settings::new(None, Some(strings(&["ng"])));
    assert!(settings.exempt_pod_name(&"ng-1".to_string()));
    assert!(settings.exempt_pod_name(&"ng".to_string()));
    assert!(!settings.exempt_pod_name(&"n".to_string()));
    assert!(!settings.exempt_pod_name(&"web-ng".to_string()));
    assert!(settings.exempt(&"prod".to_string(), &"nginx".to_string()));
}

#[test]
fn absent_rules_exempt_nothing() {
    let settings = Settings::default();
    assert!(!settings.exempt(&"default".to_string(), &"ng-1".to_string()));
    let empty = Settings::new(Some(Vec::new()), Some(Vec::new()));
    assert!(!empty.exempt(&"default".to_string(), &"ng-1".to_string()));
    assert!(empty.validate().is_ok());
}

#[test]
fn name_rule_cases() {
    assert!(is_valid_name("a"));
    assert!(is_valid_name("0"));
    assert!(is_valid_name("web-1"));
    assert!(is_valid_name("a--b"));
    assert!(!is_valid_name(""));
    assert!(!is_valid_name("-a"));
    assert!(!is_valid_name("a-"));
    assert!(!is_valid_name("A"));
    assert!(!is_valid_name("a_b"));
    assert!(!is_valid_name("a\nb"));
    assert!(!is_valid_name("a\n"));
    assert!(!is_valid_name("é"));
}

#[test]
fn name_length_bounds() {
    let ns63 = "a".repeat(63);
    let ns64 = "a".repeat(64);
    assert!(is_valid_name_within(&ns63, 63));
    assert!(!is_valid_name_within(&ns64, 63));
    let ok = Settings::new(Some(vec![ns63]), Some(vec!["b".repeat(253)]));
    assert!(ok.validate().is_ok());
    let long_ns = Settings::new(Some(vec![ns64]), None);
    assert!(matches!(long_ns.validate(), Err(SettingsError::InvalidNamespace(_))));
    let long_prefix = Settings::new(None, Some(vec!["b".repeat(254)]));
    assert!(matches!(long_prefix.validate(), Err(SettingsError::InvalidPodNamePrefix(_))));
}

#[test]
fn mutation_is_idempotent() {
    let once = mutate_pod(json(POD_JSON)).ok().unwrap();
    let twice = mutate_pod(once.clone()).ok().unwrap();
    assert_eq!(once, twice);
}

#[test]
fn mutation_keeps_other_fields() {
    let input = json(POD_JSON);
    let out = mutate_pod(input.clone()).ok().unwrap();
    assert_eq!(service_links(&out), Some(&serde_json::Value::Bool(false)));
    assert_eq!(out["metadata"], input["metadata"]);
    assert_eq!(out["spec"]["containers"], input["spec"]["containers"]);
    assert_eq!(out["kind"], input["kind"]);
    assert_eq!(out["apiVersion"], input["apiVersion"]);
}

#[test]
fn mutation_overrides_true() {
    let text = r#"{"metadata": {"name": "p"}, "spec": {"containers": [], "enableServiceLinks": true}}"#;
    let out = mutate_pod(json(text)).ok().unwrap();
    assert_eq!(service_links(&out), Some(&serde_json::Value::Bool(false)));
}

#[test]
fn pod_without_spec_is_an_error() {
    let pod = k8s_openapi::api::core::v1::Pod::default();
    assert!(matches!(pin_service_links(pod), Err(MutationError::MissingSpec)));
    let outcome = evaluate(
        request("Pod", "default", "web-1", false, r#"{"metadata": {"name": "web-1"}}"#),
        &Settings::default(),
    );
    match outcome {
        Outcome::Error(reason) => assert_eq!(reason, "pod has no spec"),
        _ => panic!("expected an error"),
    }
}

#[test]
fn resolve_maps_each_result() {
    assert!(matches!(resolve(Err(MutationError::Decode)), Outcome::Accept));
    assert!(matches!(resolve(Err(MutationError::Encode)), Outcome::Error(_)));
    match resolve(Ok(json(r#"{"a": 1}"#))) {
        Outcome::AcceptWithMutation(v) => assert_eq!(v, json(r#"{"a": 1}"#)),
        _ => panic!("expected a mutation"),
    }
}

#[test]
fn error_messages_name_the_entry() {
    let e = SettingsError::InvalidNamespace("X".to_string());
    assert_eq!(e.message(), "exempt_namespace with invalid name: X");
    let e = SettingsError::InvalidPodNamePrefix("Y".to_string());
    assert_eq!(e.message(), "exempt_pod_name_prefix with invalid name: Y");
}

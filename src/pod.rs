//! The mutation: a Pod's `spec.enableServiceLinks` pinned to `false`.

use vstd::prelude::*;

verus! {

// A Pod and its spec are declared with their fields, so that the mutation is
// stated and proved over them; the types of the other fields stay opaque.
#[verifier::external_type_specification]
pub struct ExPod(k8s_openapi::api::core::v1::Pod);

#[verifier::external_type_specification]
pub struct ExPodSpec(k8s_openapi::api::core::v1::PodSpec);

#[verifier::external_type_specification]
#[verifier::external_body]
pub struct ExObjectMeta(k8s_openapi::apimachinery::pkg::apis::meta::v1::ObjectMeta);

#[verifier::external_type_specification]
#[verifier::external_body]
pub struct ExQuantity(k8s_openapi::apimachinery::pkg::api::resource::Quantity);

#[verifier::external_type_specification]
#[verifier::external_body]
pub struct ExAffinity(k8s_openapi::api::core::v1::Affinity);

#[verifier::external_type_specification]
#[verifier::external_body]
pub struct ExContainer(k8s_openapi::api::core::v1::Container);

#[verifier::external_type_specification]
#[verifier::external_body]
pub struct ExEphemeralContainer(k8s_openapi::api::core::v1::EphemeralContainer);

#[verifier::external_type_specification]
#[verifier::external_body]
pub struct ExHostAlias(k8s_openapi::api::core::v1::HostAlias);

#[verifier::external_type_specification]
#[verifier::external_body]
pub struct ExLocalObjectReference(k8s_openapi::api::core::v1::LocalObjectReference);

#[verifier::external_type_specification]
#[verifier::external_body]
pub struct ExPodDNSConfig(k8s_openapi::api::core::v1::PodDNSConfig);

#[verifier::external_type_specification]
#[verifier::external_body]
pub struct ExPodOS(k8s_openapi::api::core::v1::PodOS);

#[verifier::external_type_specification]
#[verifier::external_body]
pub struct ExPodReadinessGate(k8s_openapi::api::core::v1::PodReadinessGate);

#[verifier::external_type_specification]
#[verifier::external_body]
pub struct ExPodResourceClaim(k8s_openapi::api::core::v1::PodResourceClaim);

#[verifier::external_type_specification]
#[verifier::external_body]
pub struct ExPodSchedulingGate(k8s_openapi::api::core::v1::PodSchedulingGate);

#[verifier::external_type_specification]
#[verifier::external_body]
pub struct ExPodSchedulingGroup(k8s_openapi::api::core::v1::PodSchedulingGroup);

#[verifier::external_type_specification]
#[verifier::external_body]
pub struct ExPodSecurityContext(k8s_openapi::api::core::v1::PodSecurityContext);

#[verifier::external_type_specification]
#[verifier::external_body]
pub struct ExResourceRequirements(k8s_openapi::api::core::v1::ResourceRequirements);

#[verifier::external_type_specification]
#[verifier::external_body]
pub struct ExToleration(k8s_openapi::api::core::v1::Toleration);

#[verifier::external_type_specification]
#[verifier::external_body]
pub struct ExTopologySpreadConstraint(k8s_openapi::api::core::v1::TopologySpreadConstraint);

#[verifier::external_type_specification]
#[verifier::external_body]
pub struct ExVolume(k8s_openapi::api::core::v1::Volume);

#[verifier::external_type_specification]
#[verifier::external_body]
pub struct ExPodStatus(k8s_openapi::api::core::v1::PodStatus);

#[verifier::external_type_specification]
#[verifier::external_body]
pub struct ExJsonValue(serde_json::Value);

#[verifier::external_type_specification]
#[verifier::external_body]
pub struct ExJsonError(serde_json::Error);

/// Why a Pod document could not be mutated.
pub enum MutationError {
    /// The document does not decode as a Pod.
    Decode,
    /// The Pod has no spec.
    MissingSpec,
    /// The mutated Pod could not be encoded again.
    Encode,
}

/// The Pod with `spec.enable_service_links` set to `false` and every other
/// field kept, or `None` when it has no spec.
pub open spec fn pinned(pod: k8s_openapi::api::core::v1::Pod) -> Option<k8s_openapi::api::core::v1::Pod> {
    match pod.spec {
        Some(spec) => Some(
            k8s_openapi::api::core::v1::Pod { spec: Some(k8s_openapi::api::core::v1::PodSpec { enable_service_links: Some(false), ..spec }), ..pod },
        ),
        None => None,
    }
}

/// What serde_json::from_value makes of a JSON value decoded as a Pod.
pub uninterp spec fn pod_decoding(v: serde_json::Value) -> Result<k8s_openapi::api::core::v1::Pod, serde_json::Error>;

/// What serde_json::to_value makes of a Pod.
pub uninterp spec fn pod_encoding(p: k8s_openapi::api::core::v1::Pod) -> Result<serde_json::Value, serde_json::Error>;

/// Relies on serde_json::from_value: decodes a JSON value as a Pod; the
/// result depends on the value alone.
#[verifier::external_body]
fn decode_pod(object: serde_json::Value) -> (r: Result<k8s_openapi::api::core::v1::Pod, serde_json::Error>)
    ensures
        r == pod_decoding(object),
{
    serde_json::from_value::<k8s_openapi::api::core::v1::Pod>(object)
}

/// Relies on serde_json::to_value: encodes a Pod as a JSON value; the
/// result depends on the Pod alone.
#[verifier::external_body]
fn encode_pod(pod: k8s_openapi::api::core::v1::Pod) -> (r: Result<serde_json::Value, serde_json::Error>)
    ensures
        r == pod_encoding(pod),
{
    serde_json::to_value(pod)
}

/// Pins `spec.enable_service_links` to `false`, whatever it was; a Pod
/// without a spec is refused.
pub fn pin_service_links(pod: k8s_openapi::api::core::v1::Pod) -> (r: Result<k8s_openapi::api::core::v1::Pod, MutationError>)
    ensures
        match pinned(pod) {
            Some(p) => r == Ok::<k8s_openapi::api::core::v1::Pod, MutationError>(p),
            None => r matches Err(MutationError::MissingSpec),
        },
{
    let mut pod = pod;
    match pod.spec {
        Some(mut spec) => {
            spec.enable_service_links = Some(false);
            pod.spec = Some(spec);
            Ok(pod)
        },
        None => Err(MutationError::MissingSpec),
    }
}

/// What the mutation makes of the outcome of decoding: a decode failure is
/// `Decode`, a decoded Pod is pinned.
pub fn pin_decoded(decoded: Result<k8s_openapi::api::core::v1::Pod, serde_json::Error>) -> (r: Result<k8s_openapi::api::core::v1::Pod, MutationError>)
    ensures
        match decoded {
            Ok(pod) => match pinned(pod) {
                Some(p) => r == Ok::<k8s_openapi::api::core::v1::Pod, MutationError>(p),
                None => r matches Err(MutationError::MissingSpec),
            },
            Err(_) => r matches Err(MutationError::Decode),
        },
{
    match decoded {
        Ok(pod) => pin_service_links(pod),
        Err(_) => Err(MutationError::Decode),
    }
}

/// The mutation of a document: `Decode` when it does not decode as a Pod,
/// `MissingSpec` when the Pod has no spec, else the pinned Pod encoded as a
/// new document, or `Encode` when encoding fails.
pub open spec fn mutation_of(v: serde_json::Value) -> Result<serde_json::Value, MutationError> {
    match pod_decoding(v) {
        Err(_) => Err(MutationError::Decode),
        Ok(pod) => match pinned(pod) {
            None => Err(MutationError::MissingSpec),
            Some(p) => match pod_encoding(p) {
                Ok(w) => Ok(w),
                Err(_) => Err(MutationError::Encode),
            },
        },
    }
}

/// Decodes `object` as a Pod, pins `spec.enable_service_links` to `false`
/// and encodes the result as a new document.
pub fn mutate_pod(object: serde_json::Value) -> (r: Result<serde_json::Value, MutationError>)
    ensures
        r == mutation_of(object),
{
    match pin_decoded(decode_pod(object)) {
        Ok(pod) => match encode_pod(pod) {
            Ok(v) => Ok(v),
            Err(_) => Err(MutationError::Encode),
        },
        Err(e) => Err(e),
    }
}

/// Pinning is idempotent: a pinned Pod pins to itself.
pub proof fn pin_idempotent(pod: k8s_openapi::api::core::v1::Pod)
    requires
        pod.spec is Some,
    ensures
        pinned(pinned(pod)->0) == pinned(pod),
{
}

/// Pinning sets `spec.enable_service_links` to `false` and changes nothing
/// else: metadata, status and every other spec field are kept.
pub proof fn pin_keeps_other_fields(pod: k8s_openapi::api::core::v1::Pod)
    requires
        pod.spec is Some,
    ensures
        pinned(pod) matches Some(p) && p.spec matches Some(s) && s.enable_service_links == Some(
            false,
        ) && p.metadata == pod.metadata && p.status == pod.status && (k8s_openapi::api::core::v1::PodSpec {
            enable_service_links: pod.spec->0.enable_service_links,
            ..s
        }) == pod.spec->0,
{
}

} // verus!

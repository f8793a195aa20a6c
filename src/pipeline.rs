//! The decision for one admission request.

use vstd::prelude::*;
use vstd::string::StringExecFns;

use crate::pod::{mutate_pod, mutation_of, MutationError};
use crate::settings::Settings;

verus! {

/// The only kind of object this policy changes.
pub const POD_KIND: &'static str = "Pod";

/// What the policy reads of an admission request.
pub struct AdmissionRequest {
    /// The operation, such as `CREATE`; it does not affect the decision.
    pub operation: String,
    /// The object's kind, such as `Pod` or `Deployment`.
    pub kind: String,
    /// The namespace; empty for cluster-scoped objects.
    pub namespace: String,
    /// The object's own name.
    pub name: String,
    /// Whether the request is a dry run.
    pub dry_run: bool,
    /// The object, as a JSON document.
    pub object: serde_json::Value,
}

/// What the policy decides before it looks at the object.
pub enum Step {
    /// Accept the request as it is.
    Accept,
    /// Try to pin the Pod's `spec.enable_service_links`.
    Mutate,
}

/// The outcome of one evaluation.
pub enum Outcome {
    /// Accept the object as it is.
    Accept,
    /// Accept the object, replaced by this document.
    AcceptWithMutation(serde_json::Value),
    /// The evaluation failed, for this reason.
    Error(String),
}

/// A request with these fields is a Pod to mutate: not a dry run, of kind
/// `Pod`, and not exempt.
pub open spec fn should_mutate(
    dry_run: bool,
    kind: Seq<char>,
    settings: &Settings,
    namespace: Seq<char>,
    name: Seq<char>,
) -> bool {
    !dry_run && kind == POD_KIND@ && !settings.is_exempt(namespace, name)
}

impl AdmissionRequest {
    /// This request is a Pod to mutate under `settings`.
    pub open spec fn mutates_under(&self, settings: &Settings) -> bool {
        should_mutate(self.dry_run, self.kind@, settings, self.namespace@, self.name@)
    }
}

/// Report of a Pod without a spec.
pub const MISSING_SPEC_MESSAGE: &'static str = "pod has no spec";

/// Report of a mutated Pod that could not be encoded.
pub const ENCODE_MESSAGE: &'static str = "cannot encode the mutated pod";

/// `r` is the outcome for the mutation result `m`: a new document is
/// accepted in its place, a document that is no Pod is accepted as it is,
/// and a Pod without a spec, or one that cannot be encoded, is an error.
pub open spec fn resolves_to(m: Result<serde_json::Value, MutationError>, r: Outcome) -> bool {
    match m {
        Ok(v) => r == Outcome::AcceptWithMutation(v),
        Err(MutationError::Decode) => r is Accept,
        Err(MutationError::MissingSpec) => r matches Outcome::Error(s) && s@ == MISSING_SPEC_MESSAGE@,
        Err(MutationError::Encode) => r matches Outcome::Error(s) && s@ == ENCODE_MESSAGE@,
    }
}

/// Decides, from the request's header and the settings alone, whether to
/// accept at once or to mutate: a dry run is accepted first, then any kind
/// but `Pod`, then an exempt Pod.
pub fn decide(request: &AdmissionRequest, settings: &Settings) -> (r: Step)
    ensures
        r is Mutate <==> request.mutates_under(settings),
{
    if request.dry_run {
        return Step::Accept;
    }
    let pod_kind = String::from_str(POD_KIND);
    if !request.kind.eq(&pod_kind) {
        return Step::Accept;
    }
    if settings.exempt(&request.namespace, &request.name) {
        return Step::Accept;
    }
    Step::Mutate
}

/// Turns the result of a mutation into the outcome: a new document is
/// accepted in place of the object, a document that is no Pod is accepted as
/// it is, and a Pod without a spec, or one that cannot be encoded, is an
/// error.
pub fn resolve(m: Result<serde_json::Value, MutationError>) -> (r: Outcome)
    ensures
        resolves_to(m, r),
{
    match m {
        Ok(v) => Outcome::AcceptWithMutation(v),
        Err(MutationError::Decode) => Outcome::Accept,
        Err(MutationError::MissingSpec) => Outcome::Error(String::from_str(MISSING_SPEC_MESSAGE)),
        Err(MutationError::Encode) => Outcome::Error(String::from_str(ENCODE_MESSAGE)),
    }
}

/// Evaluates one request: a dry run, another kind or an exempt Pod is
/// accepted as it is; otherwise the outcome is that of mutating the object:
/// the pinned document, acceptance as it is when the object does not decode
/// as a Pod, or an error for a Pod without a spec.
pub fn evaluate(request: AdmissionRequest, settings: &Settings) -> (r: Outcome)
    ensures
        !request.mutates_under(settings) ==> r is Accept,
        request.mutates_under(settings) ==> resolves_to(mutation_of(request.object), r),
{
    match decide(&request, settings) {
        Step::Accept => Outcome::Accept,
        Step::Mutate => resolve(mutate_pod(request.object)),
    }
}

} // verus!

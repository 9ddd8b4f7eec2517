//! The priority-class evaluator: maps a pod's optional priority-class name
//! and a configuration to a decision.

use vstd::prelude::*;
use vstd::string::StringExecFns;
use crate::settings::{
    allow_list_mode, contains_class, deny_list_mode, valid_config, Settings, SettingsView,
};

verus! {

/// Whether an evaluation changed the pod specification.
#[derive(Clone, Copy, Debug, PartialEq, Eq, Structural)]
pub enum PodSpecMutationState {
    Mutated,
    NotMutated,
}

/// The slice of a pod specification that this policy reads and writes: the
/// optional priority-class name. The host extracts it from the workload
/// object under evaluation and applies any mutation back to that object.
pub struct PodSpec {
    pub priority_class_name: Option<String>,
}

impl View for PodSpec {
    type V = Option<Seq<char>>;

    open spec fn view(&self) -> Option<Seq<char>> {
        self.priority_class_name.deep_view()
    }
}

/// The decision produced by one evaluation: the pod is compliant and left
/// untouched, its absent priority class is to be set to the given name, or
/// admission is to be denied with the given reason.
pub ghost enum EvaluationOutcome {
    Unchanged,
    Mutated(Seq<char>),
    Rejected(Seq<char>),
}

pub open spec fn msg_denied(name: Seq<char>) -> Seq<char> {
    "priority class \""@ + name + "\" is denied"@
}

pub open spec fn msg_not_allowed(name: Seq<char>) -> Seq<char> {
    "priority class \""@ + name + "\" is not allowed"@
}

/// The decision table. A pod without a priority class is given the default
/// if one is configured, else left alone; a pod that carries one is checked
/// against the lists and never overwritten — an active deny-list rejects a
/// listed name, an active allow-list rejects an unlisted one. The deny-list
/// is consulted first; on a valid configuration at most one list is
/// non-empty, so the order is only a tie-break.
pub open spec fn spec_evaluate(current: Option<Seq<char>>, v: SettingsView) -> EvaluationOutcome {
    match current {
        None => match v.default_class {
            None => EvaluationOutcome::Unchanged,
            Some(d) => EvaluationOutcome::Mutated(d),
        },
        Some(name) => if deny_list_mode(v) && v.denied.contains(name) {
            EvaluationOutcome::Rejected(msg_denied(name))
        } else if allow_list_mode(v) && !v.allowed.contains(name) {
            EvaluationOutcome::Rejected(msg_not_allowed(name))
        } else {
            EvaluationOutcome::Unchanged
        },
    }
}

/// Evaluates the pod's priority-class name against the configuration,
/// following [`spec_evaluate`]: `Ok(NotMutated)` and an untouched pod for a
/// compliant name, `Ok(Mutated)` with the default written into the pod for
/// an absent name when a default is configured, `Err` with the rejection
/// reason and an untouched pod otherwise.
pub fn validate_pod_priority_class(pod: &mut PodSpec, settings: &Settings) -> (r: Result<
    PodSpecMutationState,
    String,
>)
    ensures
        match spec_evaluate(old(pod)@, settings@) {
            EvaluationOutcome::Unchanged => r == Ok::<PodSpecMutationState, String>(
                PodSpecMutationState::NotMutated,
            ) && *final(pod) == *old(pod),
            EvaluationOutcome::Mutated(d) => r == Ok::<PodSpecMutationState, String>(
                PodSpecMutationState::Mutated,
            ) && final(pod)@ == Some(d),
            EvaluationOutcome::Rejected(m) => r is Err && r->Err_0@ == m && *final(pod) == *old(pod),
        },
{
    if pod.priority_class_name.is_none() {
        match &settings.default_priority_class {
            None => {
                return Ok(PodSpecMutationState::NotMutated);
            },
            Some(default_pc) => {
                let class = default_pc.clone();
                pod.priority_class_name = Some(class);
                return Ok(PodSpecMutationState::Mutated);
            },
        }
    }
    let name = match &pod.priority_class_name {
        Some(n) => n,
        None => {
            return Ok(PodSpecMutationState::NotMutated);
        },
    };
    if settings.denied_priority_classes.len() > 0 && contains_class(
        &settings.denied_priority_classes,
        name,
    ) {
        let mut m = "priority class \"".to_owned();
        m.append(name.as_str());
        m.append("\" is denied");
        return Err(m);
    }
    if settings.allowed_priority_classes.len() > 0 && !contains_class(
        &settings.allowed_priority_classes,
        name,
    ) {
        let mut m = "priority class \"".to_owned();
        m.append(name.as_str());
        m.append("\" is not allowed");
        return Err(m);
    }
    Ok(PodSpecMutationState::NotMutated)
}

/// On a valid allow-list configuration, a pod carrying a priority class is
/// accepted unchanged exactly when the class is in the allow-list, and
/// rejected as not allowed otherwise.
pub proof fn lemma_allow_list_decides(v: SettingsView, name: Seq<char>)
    requires
        valid_config(v),
        allow_list_mode(v),
    ensures
        v.allowed.contains(name) ==> spec_evaluate(Some(name), v) == EvaluationOutcome::Unchanged,
        !v.allowed.contains(name) ==> spec_evaluate(Some(name), v)
            == EvaluationOutcome::Rejected(msg_not_allowed(name)),
{
}

/// On a valid deny-list configuration, a pod carrying a priority class is
/// rejected as denied exactly when the class is in the deny-list, and
/// accepted unchanged otherwise.
pub proof fn lemma_deny_list_decides(v: SettingsView, name: Seq<char>)
    requires
        valid_config(v),
        deny_list_mode(v),
    ensures
        v.denied.contains(name) ==> spec_evaluate(Some(name), v)
            == EvaluationOutcome::Rejected(msg_denied(name)),
        !v.denied.contains(name) ==> spec_evaluate(Some(name), v) == EvaluationOutcome::Unchanged,
{
}

/// On a valid configuration, a pod without a priority class is mutated to
/// the configured default, or accepted unchanged when none is configured.
/// Absence of a class is the only trigger for defaulting.
pub proof fn lemma_absent_class_defaults(v: SettingsView)
    requires
        valid_config(v),
    ensures
        match v.default_class {
            Some(d) => spec_evaluate(None, v) == EvaluationOutcome::Mutated(d),
            None => spec_evaluate(None, v) == EvaluationOutcome::Unchanged,
        },
{
}

/// Defaulting is idempotent: on a valid configuration with a default, a pod
/// without a class is mutated to the default, and re-evaluating a pod that
/// carries that default accepts it unchanged — a validated default is
/// always itself compliant.
pub proof fn lemma_default_mutation_idempotent(v: SettingsView, d: Seq<char>)
    requires
        valid_config(v),
        v.default_class == Some(d),
    ensures
        spec_evaluate(None, v) == EvaluationOutcome::Mutated(d),
        spec_evaluate(Some(d), v) == EvaluationOutcome::Unchanged,
{
}

} // verus!

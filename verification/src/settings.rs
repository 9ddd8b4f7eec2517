//! The policy configuration and its validator.

use vstd::prelude::*;
use vstd::string::StringExecFns;

verus! {

/// A policy configuration: an allow-list or a deny-list of priority-class
/// names (the two modes are mutually exclusive), plus an optional default
/// class assigned to pods that carry none.
pub struct Settings {
    pub allowed_priority_classes: Vec<String>,
    pub denied_priority_classes: Vec<String>,
    pub default_priority_class: Option<String>,
}

/// Mathematical model of a [`Settings`] value: each list of class names as
/// a sequence of character sequences, the default as an optional character
/// sequence. Only membership in the lists matters to the policy.
pub ghost struct SettingsView {
    pub allowed: Seq<Seq<char>>,
    pub denied: Seq<Seq<char>>,
    pub default_class: Option<Seq<char>>,
}

impl View for Settings {
    type V = SettingsView;

    open spec fn view(&self) -> SettingsView {
        SettingsView {
            allowed: self.allowed_priority_classes.deep_view(),
            denied: self.denied_priority_classes.deep_view(),
            default_class: self.default_priority_class.deep_view(),
        }
    }
}

/// Allow-list mode is active: only listed classes are permitted.
pub open spec fn allow_list_mode(v: SettingsView) -> bool {
    v.allowed.len() > 0
}

/// Deny-list mode is active: listed classes are forbidden.
pub open spec fn deny_list_mode(v: SettingsView) -> bool {
    v.denied.len() > 0
}

/// A configuration free of internal contradictions: exactly one of the two
/// modes is active, and the default class, if present, is non-empty,
/// permitted by an active allow-list, and not forbidden by an active
/// deny-list.
pub open spec fn valid_config(v: SettingsView) -> bool {
    &&& !(allow_list_mode(v) && deny_list_mode(v))
    &&& allow_list_mode(v) || deny_list_mode(v)
    &&& match v.default_class {
        None => true,
        Some(d) => {
            &&& d.len() > 0
            &&& allow_list_mode(v) ==> v.allowed.contains(d)
            &&& deny_list_mode(v) ==> !v.denied.contains(d)
        },
    }
}

pub open spec fn msg_both_lists_set() -> Seq<char> {
    "Both allowed and denied priority class lists cannot be set at the same time"@
}

pub open spec fn msg_empty_lists() -> Seq<char> {
    "The priority class lists cannot be empty"@
}

pub open spec fn msg_empty_default() -> Seq<char> {
    "The default priority class cannot be an empty string"@
}

pub open spec fn msg_default_not_allowed(d: Seq<char>) -> Seq<char> {
    "The default priority class '"@ + d + "' is not in the allowed priority classes list"@
}

pub open spec fn msg_default_denied(d: Seq<char>) -> Seq<char> {
    "The default priority class '"@ + d + "' cannot be defined in the denied priority classes list"@
}

/// The validator's outcome on a configuration: `Ok` when it is free of
/// contradictions, otherwise the message of the first failing rule, the
/// rules checked in a fixed order.
pub open spec fn spec_validate(v: SettingsView) -> Result<(), Seq<char>> {
    if allow_list_mode(v) && deny_list_mode(v) {
        Err(msg_both_lists_set())
    } else if !allow_list_mode(v) && !deny_list_mode(v) {
        Err(msg_empty_lists())
    } else {
        match v.default_class {
            None => Ok(()),
            Some(d) => if d.len() == 0 {
                Err(msg_empty_default())
            } else if allow_list_mode(v) && !v.allowed.contains(d) {
                Err(msg_default_not_allowed(d))
            } else if deny_list_mode(v) && v.denied.contains(d) {
                Err(msg_default_denied(d))
            } else {
                Ok(())
            },
        }
    }
}

/// Validation succeeds exactly on the contradiction-free configurations.
pub proof fn lemma_validate_ok_iff_valid(v: SettingsView)
    ensures
        spec_validate(v) is Ok <==> valid_config(v),
{
}

/// A configuration with both lists empty never validates: it constrains
/// nothing and would be a silent no-op policy.
pub proof fn lemma_empty_lists_rejected(v: SettingsView)
    requires
        v.allowed.len() == 0,
        v.denied.len() == 0,
    ensures
        !valid_config(v),
        spec_validate(v) == Err::<(), Seq<char>>(msg_empty_lists()),
{
}

/// A configuration with both lists non-empty never validates, regardless of
/// their contents: the two modes are mutually exclusive.
pub proof fn lemma_both_lists_rejected(v: SettingsView)
    requires
        v.allowed.len() > 0,
        v.denied.len() > 0,
    ensures
        !valid_config(v),
        spec_validate(v) == Err::<(), Seq<char>>(msg_both_lists_set()),
{
}

/// Exact membership of `name` among `classes`, by character-for-character
/// string equality: no normalization, case-folding, or trimming.
pub fn contains_class(classes: &Vec<String>, name: &String) -> (r: bool)
    ensures
        r == classes.deep_view().contains(name@),
{
    let mut i: usize = 0;
    while i < classes.len()
        invariant
            i <= classes.len(),
            forall|j: int| 0 <= j < i ==> classes.deep_view()[j] != name@,
        decreases classes.len() - i,
    {
        let c: &String = &classes[i];
        if c.eq(name) {
            assert(classes.deep_view()[i as int] == name@);
            return true;
        }
        i = i + 1;
    }
    false
}

impl Settings {
    /// Checks the configuration for internal contradictions. Returns `Ok`
    /// exactly on valid configurations; on an invalid one, returns the
    /// message of the first failing rule, checked in a fixed order for
    /// deterministic, reproducible error messages.
    pub fn validate(&self) -> (r: Result<(), String>)
        ensures
            r is Ok <==> valid_config(self@),
            r is Err ==> r->Err_0@ == spec_validate(self@)->Err_0,
    {
        let allowed_empty = self.allowed_priority_classes.len() == 0;
        let denied_empty = self.denied_priority_classes.len() == 0;
        if !allowed_empty && !denied_empty {
            return Err(
                "Both allowed and denied priority class lists cannot be set at the same time".to_owned(),
            );
        }
        if allowed_empty && denied_empty {
            return Err("The priority class lists cannot be empty".to_owned());
        }
        match &self.default_priority_class {
            None => Ok(()),
            Some(default_pc) => {
                if default_pc.as_str().is_empty() {
                    return Err("The default priority class cannot be an empty string".to_owned());
                }
                if !allowed_empty && !contains_class(&self.allowed_priority_classes, default_pc) {
                    let mut m = "The default priority class '".to_owned();
                    m.append(default_pc.as_str());
                    m.append("' is not in the allowed priority classes list");
                    return Err(m);
                }
                if !denied_empty && contains_class(&self.denied_priority_classes, default_pc) {
                    let mut m = "The default priority class '".to_owned();
                    m.append(default_pc.as_str());
                    m.append("' cannot be defined in the denied priority classes list");
                    return Err(m);
                }
                Ok(())
            },
        }
    }
}

impl Default for Settings {
    /// The empty configuration: no lists, no default. It does not validate;
    /// it is the base that callers fill before validation.
    fn default() -> (s: Settings)
        ensures
            s@.allowed.len() == 0,
            s@.denied.len() == 0,
            s@.default_class is None,
    {
        Settings {
            allowed_priority_classes: Vec::new(),
            denied_priority_classes: Vec::new(),
            default_priority_class: None,
        }
    }
}

} // verus!

use vstd::prelude::*;
use vstd::string::StringExecFns;

use crate::string_set::{has_members, StringSet};

verus! {

/// The policy configuration: the priority classes a workload may request, or
/// the ones it may not. Exactly one of the two sets should be supplied, and a
/// supplied set must have members; `validate` checks this before the
/// configuration is trusted for any evaluation.
pub struct Settings {
    pub allowed_priority_classes: Option<StringSet>,
    pub denied_priority_classes: Option<StringSet>,
}

impl Default for Settings {
    /// A configuration with neither set supplied.
    fn default() -> (s: Settings)
        ensures
            s.allowed_priority_classes is None,
            s.denied_priority_classes is None,
    {
        Settings { allowed_priority_classes: None, denied_priority_classes: None }
    }
}

/// First guard: both sets are supplied and both have members.
pub open spec fn both_sets_supplied(
    allowed: Option<Set<Seq<char>>>,
    denied: Option<Set<Seq<char>>>,
) -> bool {
    &&& allowed matches Some(a) && has_members(a)
    &&& denied matches Some(d) && has_members(d)
}

/// Second guard: `allowed` is supplied but has no members.
pub open spec fn allowed_supplied_empty(allowed: Option<Set<Seq<char>>>) -> bool {
    allowed matches Some(a) && !has_members(a)
}

/// Third guard: `denied` is supplied but has no members.
pub open spec fn denied_supplied_empty(denied: Option<Set<Seq<char>>>) -> bool {
    denied matches Some(d) && !has_members(d)
}

/// Fourth guard: neither set is supplied, so the configuration makes no
/// choice between allowing and denying.
pub open spec fn neither_set_supplied(
    allowed: Option<Set<Seq<char>>>,
    denied: Option<Set<Seq<char>>>,
) -> bool {
    allowed is None && denied is None
}

/// A configuration is well-formed when no guard fires: exactly one of the two
/// sets is supplied, and it has members.
pub open spec fn config_valid(
    allowed: Option<Set<Seq<char>>>,
    denied: Option<Set<Seq<char>>>,
) -> bool {
    &&& !both_sets_supplied(allowed, denied)
    &&& !allowed_supplied_empty(allowed)
    &&& !denied_supplied_empty(denied)
    &&& !neither_set_supplied(allowed, denied)
}

/// The message of the first guard that fires, in guard order.
pub open spec fn config_error(
    allowed: Option<Set<Seq<char>>>,
    denied: Option<Set<Seq<char>>>,
) -> Seq<char> {
    if both_sets_supplied(allowed, denied) {
        "both allowed and denied are set; use only one."@
    } else if allowed_supplied_empty(allowed) {
        "allowed priority classes cannot be empty."@
    } else if denied_supplied_empty(denied) {
        "denied priority classes cannot be empty."@
    } else {
        "no priority classes are set; set exactly one of allowed or denied priority classes."@
    }
}

impl Settings {
    /// Checks that the configuration is well-formed: exactly one of the two
    /// sets supplied, and not empty. Returns the message of the first guard
    /// that fires.
    pub fn validate(&self) -> (r: Result<(), String>)
        ensures
            r is Ok <==> config_valid(
                self.allowed_priority_classes.deep_view(),
                self.denied_priority_classes.deep_view(),
            ),
            r matches Err(m) ==> m@ == config_error(
                self.allowed_priority_classes.deep_view(),
                self.denied_priority_classes.deep_view(),
            ),
    {
        match (&self.allowed_priority_classes, &self.denied_priority_classes) {
            (Some(allowed), Some(denied)) => {
                if !allowed.is_empty() && !denied.is_empty() {
                    return Err(String::from_str("both allowed and denied are set; use only one."));
                }
            },
            _ => {},
        }
        if let Some(allowed) = &self.allowed_priority_classes {
            if allowed.is_empty() {
                return Err(String::from_str("allowed priority classes cannot be empty."));
            }
        }
        if let Some(denied) = &self.denied_priority_classes {
            if denied.is_empty() {
                return Err(String::from_str("denied priority classes cannot be empty."));
            }
        }
        if self.allowed_priority_classes.is_none() && self.denied_priority_classes.is_none() {
            return Err(String::from_str(
                "no priority classes are set; set exactly one of allowed or denied priority classes.",
            ));
        }
        Ok(())
    }
}

/// For every configuration in which both sets are supplied and both have
/// members, validation rejects, with the message of the first guard.
pub proof fn lemma_validator_rejects_both_supplied(
    allowed: Option<Set<Seq<char>>>,
    denied: Option<Set<Seq<char>>>,
)
    requires
        allowed matches Some(a) && has_members(a),
        denied matches Some(d) && has_members(d),
    ensures
        !config_valid(allowed, denied),
        config_error(allowed, denied) == "both allowed and denied are set; use only one."@,
{
}

/// For every configuration in which exactly one set is supplied and that set
/// has members, validation accepts.
pub proof fn lemma_validator_accepts_single_set(
    allowed: Option<Set<Seq<char>>>,
    denied: Option<Set<Seq<char>>>,
)
    requires
        (allowed matches Some(a) && has_members(a) && denied is None) || (denied matches Some(d)
            && has_members(d) && allowed is None),
    ensures
        config_valid(allowed, denied),
{
}

/// For every configuration in which some set is supplied but has no members,
/// validation rejects.
pub proof fn lemma_validator_rejects_empty_set(
    allowed: Option<Set<Seq<char>>>,
    denied: Option<Set<Seq<char>>>,
)
    requires
        (allowed matches Some(a) && !has_members(a)) || (denied matches Some(d) && !has_members(
            d,
        )),
    ensures
        !config_valid(allowed, denied),
{
}

} // verus!

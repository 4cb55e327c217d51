use vstd::prelude::*;
use vstd::string::StringExecFns;

use crate::settings::Settings;
use crate::string_set::StringSet;

verus! {

/// What the decision logic reads of a workload: its requested priority
/// class, if any. The host extracts it from the admission object.
pub struct WorkloadDescriptor {
    pub priority_class_name: Option<String>,
}

impl DeepView for WorkloadDescriptor {
    type V = Option<Seq<char>>;

    open spec fn deep_view(&self) -> Option<Seq<char>> {
        self.priority_class_name.deep_view()
    }
}

/// The outcome of one evaluation: accept, or reject with a reason.
#[derive(Debug, PartialEq, Eq)]
pub enum Verdict {
    Accept,
    Reject(String),
}

/// What a verdict says, with a rejection reason as its characters.
pub enum Decision {
    Accept,
    Reject(Seq<char>),
}

impl View for Verdict {
    type V = Decision;

    open spec fn view(&self) -> Decision {
        match self {
            Verdict::Accept => Decision::Accept,
            Verdict::Reject(reason) => Decision::Reject(reason@),
        }
    }
}

/// The reason given when a workload's class is missing from the allowed set.
pub open spec fn not_allowed_reason(name: Seq<char>) -> Seq<char> {
    "Priority class \""@ + name + "\" is not in allowed list."@
}

/// The reason given when a workload's class is a member of the denied set.
pub open spec fn denied_reason(name: Seq<char>) -> Seq<char> {
    "Priority class \""@ + name + "\" is in denied list."@
}

/// The fail-closed reason given when the configuration supplies both sets or
/// neither.
pub open spec fn misconfigured_reason() -> Seq<char> {
    "Policy misconfigured: must set exactly one of allowed_priority_classes or denied_priority_classes"@
}

/// The reason given when the host could not extract a workload descriptor.
pub open spec fn extraction_failure_reason(cause: Seq<char>) -> Seq<char> {
    "Priority class policy failed to extract PodSpec from the request: "@ + cause
}

/// The decision for one workload: a workload without a priority class is
/// never restricted; otherwise its class is held against whichever one of the
/// two sets is supplied, and any other configuration rejects fail-closed.
pub open spec fn spec_decide(
    name: Option<Seq<char>>,
    allowed: Option<Set<Seq<char>>>,
    denied: Option<Set<Seq<char>>>,
) -> Decision {
    match name {
        None => Decision::Accept,
        Some(n) => match (allowed, denied) {
            (Some(a), None) => if a.contains(n) {
                Decision::Accept
            } else {
                Decision::Reject(not_allowed_reason(n))
            },
            (None, Some(d)) => if d.contains(n) {
                Decision::Reject(denied_reason(n))
            } else {
                Decision::Accept
            },
            _ => Decision::Reject(misconfigured_reason()),
        },
    }
}

/// The decision a `Result`-shaped verdict stands for.
pub open spec fn decision_of_result(r: Result<(), String>) -> Decision {
    match r {
        Ok(_) => Decision::Accept,
        Err(m) => Decision::Reject(m@),
    }
}

fn not_in_allowed_message(name: &String) -> (m: String)
    ensures
        m@ == not_allowed_reason(name@),
{
    let mut m = String::from_str("Priority class \"");
    m.append(name.as_str());
    m.append("\" is not in allowed list.");
    m
}

fn in_denied_message(name: &String) -> (m: String)
    ensures
        m@ == denied_reason(name@),
{
    let mut m = String::from_str("Priority class \"");
    m.append(name.as_str());
    m.append("\" is in denied list.");
    m
}

/// Holds one workload's priority class against the supplied sets.
pub fn validate_pod_priority_class(
    pod: WorkloadDescriptor,
    allowed_priority_classes: &Option<StringSet>,
    denied_priority_classes: &Option<StringSet>,
) -> (r: Result<(), String>)
    ensures
        decision_of_result(r) == spec_decide(
            pod.deep_view(),
            allowed_priority_classes.deep_view(),
            denied_priority_classes.deep_view(),
        ),
{
    let priority_class_name = match &pod.priority_class_name {
        Some(pc) => pc,
        None => {
            // An unset priority class is never restricted.
            return Ok(());
        },
    };

    match (allowed_priority_classes, denied_priority_classes) {
        (Some(allowed), None) => {
            if !allowed.contains(priority_class_name) {
                return Err(not_in_allowed_message(priority_class_name));
            }
        },
        (None, Some(denied)) => {
            if denied.contains(priority_class_name) {
                return Err(in_denied_message(priority_class_name));
            }
        },
        _ => {
            return Err(String::from_str(
                "Policy misconfigured: must set exactly one of allowed_priority_classes or denied_priority_classes",
            ));
        },
    }

    Ok(())
}

/// The verdict for one admission request, given what the host's extraction of
/// the workload descriptor came to: a failed extraction rejects with its
/// cause, an admission object without a workload is accepted, and an
/// extracted workload is held against the configuration.
pub open spec fn spec_evaluate(
    extraction: Result<Option<WorkloadDescriptor>, String>,
    settings: Settings,
) -> Decision {
    match extraction {
        Err(cause) => Decision::Reject(extraction_failure_reason(cause@)),
        Ok(None) => Decision::Accept,
        Ok(Some(pod)) => spec_decide(
            pod.deep_view(),
            settings.allowed_priority_classes.deep_view(),
            settings.denied_priority_classes.deep_view(),
        ),
    }
}

/// Evaluates one admission request against the configuration.
pub fn evaluate(
    extraction: Result<Option<WorkloadDescriptor>, String>,
    settings: &Settings,
) -> (v: Verdict)
    ensures
        v@ == spec_evaluate(extraction, *settings),
{
    match extraction {
        Ok(Some(pod_spec)) => match validate_pod_priority_class(
            pod_spec,
            &settings.allowed_priority_classes,
            &settings.denied_priority_classes,
        ) {
            Ok(_) => Verdict::Accept,
            Err(err) => Verdict::Reject(err),
        },
        Ok(None) => Verdict::Accept,
        Err(err) => {
            let mut m = String::from_str(
                "Priority class policy failed to extract PodSpec from the request: ",
            );
            m.append(err.as_str());
            Verdict::Reject(m)
        },
    }
}

/// For every configuration, a workload without a priority class is accepted.
pub proof fn lemma_absent_class_accepted(
    allowed: Option<Set<Seq<char>>>,
    denied: Option<Set<Seq<char>>>,
)
    ensures
        spec_decide(None, allowed, denied) == Decision::Accept,
{
}

/// With only an allowed set supplied, a named class is accepted exactly when
/// it is a member of that set.
pub proof fn lemma_allowed_set_decides_membership(name: Seq<char>, allowed: Set<Seq<char>>)
    ensures
        spec_decide(Some(name), Some(allowed), None) is Accept <==> allowed.contains(name),
        !allowed.contains(name) ==> spec_decide(Some(name), Some(allowed), None)
            == Decision::Reject(not_allowed_reason(name)),
{
}

/// With only a denied set supplied, a named class is rejected exactly when it
/// is a member of that set.
pub proof fn lemma_denied_set_decides_membership(name: Seq<char>, denied: Set<Seq<char>>)
    ensures
        spec_decide(Some(name), None, Some(denied)) is Reject <==> denied.contains(name),
        denied.contains(name) ==> spec_decide(Some(name), None, Some(denied)) == Decision::Reject(
            denied_reason(name),
        ),
{
}

/// A named class under a configuration that supplies both sets or neither is
/// rejected fail-closed with the misconfiguration reason.
pub proof fn lemma_fail_closed(
    name: Seq<char>,
    allowed: Option<Set<Seq<char>>>,
    denied: Option<Set<Seq<char>>>,
)
    requires
        (allowed is Some && denied is Some) || (allowed is None && denied is None),
    ensures
        spec_decide(Some(name), allowed, denied) == Decision::Reject(misconfigured_reason()),
{
}

/// Evaluation is a function of the workload extraction and the configuration
/// alone: any two verdicts for the same pair agree, verdict and reason both.
/// Each call of `evaluate` returns a verdict whose abstract value is
/// `spec_evaluate` of its inputs, so repeated calls agree.
pub proof fn lemma_evaluate_deterministic(
    first: Verdict,
    second: Verdict,
    extraction: Result<Option<WorkloadDescriptor>, String>,
    settings: Settings,
)
    requires
        first@ == spec_evaluate(extraction, settings),
        second@ == spec_evaluate(extraction, settings),
    ensures
        first@ == second@,
{
}

} // verus!

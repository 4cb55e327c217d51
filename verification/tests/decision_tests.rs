use priority_class_policy::decision::{
    evaluate, validate_pod_priority_class, Verdict, WorkloadDescriptor,
};
use priority_class_policy::settings::Settings;
use priority_class_policy::string_set::StringSet;

fn set_of(names: &[&str]) -> StringSet {
    let mut s = StringSet::new();
    for name in names {
        s.insert(name.to_string());
    }
    s
}

fn workload(name: Option<&str>) -> WorkloadDescriptor {
    WorkloadDescriptor {
        priority_class_name: name.map(|n| n.to_string()),
    }
}

#[test]
fn allowed_member_accepts() {
    let allowed = Some(set_of(&["high-priority", "low-priority"]));
    let result = validate_pod_priority_class(workload(Some("low-priority")), &allowed, &None);
    assert!(result.is_ok());
}

#[test]
fn allowed_nonmember_rejects() {
    let allowed = Some(set_of(&["high-priority", "low-priority"]));
    let result = validate_pod_priority_class(workload(Some("no-priority")), &allowed, &None);
    let reason = result.unwrap_err();
    assert!(reason.contains("no-priority"));
    assert!(reason.contains("not in allowed list"));
    assert_eq!(reason, "Priority class \"no-priority\" is not in allowed list.");
}

#[test]
fn denied_member_rejects() {
    let denied = Some(set_of(&["high-priority", "low-priority"]));
    let result = validate_pod_priority_class(workload(Some("high-priority")), &None, &denied);
    let reason = result.unwrap_err();
    assert!(reason.contains("in denied list"));
    assert_eq!(reason, "Priority class \"high-priority\" is in denied list.");
}

#[test]
fn denied_nonmember_accepts() {
    let denied = Some(set_of(&["high-priority", "low-priority"]));
    let result = validate_pod_priority_class(workload(Some("no-priority")), &None, &denied);
    assert!(result.is_ok());
}

#[test]
fn absent_class_accepts_under_allowed_set() {
    let allowed = Some(set_of(&["high-priority", "low-priority"]));
    let result = validate_pod_priority_class(workload(None), &allowed, &None);
    assert!(result.is_ok());
}

#[test]
fn absent_class_accepts_under_misconfiguration() {
    let result = validate_pod_priority_class(workload(None), &None, &None);
    assert!(result.is_ok());
}

#[test]
fn membership_is_case_sensitive() {
    let allowed = Some(set_of(&["high-priority"]));
    let result = validate_pod_priority_class(workload(Some("High-Priority")), &allowed, &None);
    assert!(result.is_err());
}

#[test]
fn both_sets_reject_fail_closed() {
    let allowed = Some(set_of(&["high-priority"]));
    let denied = Some(set_of(&["low-priority"]));
    let result = validate_pod_priority_class(workload(Some("high-priority")), &allowed, &denied);
    assert_eq!(
        result.unwrap_err(),
        "Policy misconfigured: must set exactly one of allowed_priority_classes \
         or denied_priority_classes"
    );
}

#[test]
fn neither_set_rejects_fail_closed() {
    let result = validate_pod_priority_class(workload(Some("any-priority")), &None, &None);
    assert_eq!(
        result.unwrap_err(),
        "Policy misconfigured: must set exactly one of allowed_priority_classes \
         or denied_priority_classes"
    );
}

#[test]
fn empty_allowed_set_rejects_every_named_class() {
    let allowed = Some(set_of(&[]));
    let result = validate_pod_priority_class(workload(Some("high-priority")), &allowed, &None);
    assert_eq!(
        result.unwrap_err(),
        "Priority class \"high-priority\" is not in allowed list."
    );
}

#[test]
fn deduplicating_insert_keeps_membership() {
    let mut s = StringSet::new();
    s.insert("high-priority".to_string());
    s.insert("high-priority".to_string());
    assert!(s.contains(&"high-priority".to_string()));
    assert!(!s.contains(&"low-priority".to_string()));
    assert!(!s.is_empty());
}

#[test]
fn evaluate_extraction_failure_rejects_with_cause() {
    let settings = Settings {
        allowed_priority_classes: Some(set_of(&["high-priority"])),
        denied_priority_classes: None,
    };
    let verdict = evaluate(Err("malformed admission object".to_string()), &settings);
    match verdict {
        Verdict::Reject(reason) => {
            assert_eq!(
                reason,
                "Priority class policy failed to extract PodSpec from the request: \
                 malformed admission object"
            );
        }
        Verdict::Accept => panic!("extraction failure must reject"),
    }
}

#[test]
fn evaluate_without_workload_accepts() {
    let settings = Settings {
        allowed_priority_classes: None,
        denied_priority_classes: Some(set_of(&["high-priority"])),
    };
    assert_eq!(evaluate(Ok(None), &settings), Verdict::Accept);
}

#[test]
fn evaluate_workload_against_configuration() {
    let settings = Settings {
        allowed_priority_classes: Some(set_of(&["high-priority", "low-priority"])),
        denied_priority_classes: None,
    };
    let accepted = evaluate(Ok(Some(workload(Some("low-priority")))), &settings);
    assert_eq!(accepted, Verdict::Accept);
    let rejected = evaluate(Ok(Some(workload(Some("no-priority")))), &settings);
    assert_eq!(
        rejected,
        Verdict::Reject("Priority class \"no-priority\" is not in allowed list.".to_string())
    );
}

#[test]
fn evaluate_repeats_to_the_same_verdict() {
    let settings = Settings {
        allowed_priority_classes: Some(set_of(&["high-priority"])),
        denied_priority_classes: None,
    };
    let first = evaluate(Ok(Some(workload(Some("low-priority")))), &settings);
    let second = evaluate(Ok(Some(workload(Some("low-priority")))), &settings);
    assert_eq!(first, second);
    let third = evaluate(Err("boom".to_string()), &settings);
    let fourth = evaluate(Err("boom".to_string()), &settings);
    assert_eq!(third, fourth);
}

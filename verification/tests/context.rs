use std::time::Duration;

use libddwaf::context::{
    run_result, timeout_budget, waf_keeps_input, InternalError, RunError, RunOutput, RunResult,
};
use libddwaf::object::{Keyed, WafArray, WafMap, WafObject, WafOwnedOutputAllocator, WafString};
use libddwaf::raw::{
    DDWAF_ERR_INTERNAL, DDWAF_ERR_INVALID_ARGUMENT, DDWAF_ERR_INVALID_OBJECT, DDWAF_MATCH, DDWAF_OK,
};

fn output(entries: Vec<(&str, WafObject)>) -> RunOutput {
    let mut map = WafMap::new(u16::try_from(entries.len()).unwrap());
    for (i, (k, v)) in entries.into_iter().enumerate() {
        *map.index_mut(i) = (k, v).into();
    }
    RunOutput::from_data(WafOwnedOutputAllocator::new(map))
}

fn full_output() -> RunOutput {
    let mut events = WafArray::new(1);
    *events.index_mut(0) = WafObject::from("event");
    let mut actions = WafMap::new(1);
    *actions.index_mut(0) = ("block", WafObject::from(true)).into();
    output(vec![
        ("timeout", WafObject::from(true)),
        ("keep", WafObject::from(true)),
        ("duration", WafObject::from(1_500_u64)),
        ("evaluated", WafObject::from(3_u64)),
        ("events", events.into()),
        ("actions", actions.into()),
        ("attributes", WafMap::new(0).into()),
    ])
}

#[test]
fn run_output_reads_every_field() {
    let out = full_output();
    assert!(out.timeout());
    assert!(out.keep());
    assert_eq!(out.duration(), Duration::from_nanos(1_500));
    assert_eq!(out.evaluated(), 3);
    let events = out.events().unwrap();
    assert_eq!(events.key_str().unwrap(), "events");
    let events = events.as_type::<WafArray>().unwrap();
    assert_eq!(events.len(), 1);
    assert_eq!(events.index(0).to_str(), Some("event"));
    let actions = out.actions().unwrap();
    assert_eq!(actions.key_str().unwrap(), "actions");
    let actions = actions.as_type::<WafMap>().unwrap();
    assert_eq!(actions.get_str("block").unwrap().to_bool(), Some(true));
    let attributes = out.attributes().unwrap();
    assert_eq!(attributes.key_str().unwrap(), "attributes");
    assert_eq!(attributes.as_type::<WafMap>().unwrap().len(), 0);
}

#[test]
fn run_output_defaults_when_missing() {
    let out = output(vec![]);
    assert!(!out.timeout());
    assert!(!out.keep());
    assert_eq!(out.duration(), Duration::ZERO);
    assert_eq!(out.evaluated(), 0);
    assert!(out.events().is_none());
    assert!(out.actions().is_none());
    assert!(out.attributes().is_none());
}

#[test]
fn run_output_defaults_on_wrong_types() {
    let out = output(vec![
        ("timeout", WafObject::from(1_u64)),
        ("keep", WafObject::from("yes")),
        ("duration", WafObject::from(-5_i64)),
        ("evaluated", WafObject::from(true)),
        ("events", WafMap::new(0).into()),
        ("actions", WafArray::new(0).into()),
        ("attributes", WafObject::from(())),
    ]);
    assert!(!out.timeout());
    assert!(!out.keep());
    assert_eq!(out.duration(), Duration::ZERO);
    assert_eq!(out.evaluated(), 0);
    assert!(out.events().is_none());
    assert!(out.actions().is_none());
    assert!(out.attributes().is_none());
}

#[test]
fn run_output_uses_first_matching_key() {
    let out = output(vec![
        ("evaluated", WafObject::from(7_u64)),
        ("evaluated", WafObject::from(9_u64)),
        ("keep", WafObject::from(false)),
    ]);
    assert_eq!(out.evaluated(), 7);
    assert!(!out.keep());
}

#[test]
fn run_output_ignores_non_string_keys() {
    let mut map = WafMap::new(1);
    *map.index_mut(0) = Keyed::new(WafObject::from(1_u64), WafObject::from(true));
    let out = RunOutput::from_data(WafOwnedOutputAllocator::new(map));
    assert!(!out.timeout());
    assert_eq!(out.data().len(), 1);
}

#[test]
fn run_status_decoding() {
    assert!(matches!(
        run_result(DDWAF_MATCH, full_output()),
        Ok(RunResult::Match(out)) if out.evaluated() == 3
    ));
    assert!(matches!(
        run_result(DDWAF_OK, full_output()),
        Ok(RunResult::NoMatch(out)) if out.keep()
    ));
    assert!(matches!(
        run_result(DDWAF_ERR_INTERNAL, full_output()),
        Err(RunError::InternalError)
    ));
    assert!(matches!(
        run_result(DDWAF_ERR_INVALID_OBJECT, full_output()),
        Err(RunError::InvalidObject)
    ));
    assert!(matches!(
        run_result(DDWAF_ERR_INVALID_ARGUMENT, full_output()),
        Err(RunError::InvalidArgument)
    ));
}

#[test]
fn run_status_input_ownership() {
    assert!(waf_keeps_input(DDWAF_MATCH));
    assert!(waf_keeps_input(DDWAF_OK));
    assert!(waf_keeps_input(DDWAF_ERR_INTERNAL));
    assert!(waf_keeps_input(DDWAF_ERR_INVALID_OBJECT));
    assert!(!waf_keeps_input(DDWAF_ERR_INVALID_ARGUMENT));
}

#[test]
fn run_timeout_budget() {
    assert_eq!(timeout_budget(Duration::from_millis(2)), 2_000);
    assert_eq!(timeout_budget(Duration::from_nanos(1_999)), 1);
    assert_eq!(timeout_budget(Duration::ZERO), 0);
    assert_eq!(timeout_budget(Duration::MAX), u64::MAX);
    assert_eq!(
        timeout_budget(Duration::from_micros(u64::MAX)),
        u64::MAX
    );
}

#[test]
fn run_error_messages() {
    assert_eq!(
        RunError::InternalError.message(),
        "The WAF encountered an internal error"
    );
    assert_eq!(
        RunError::InvalidObject.message(),
        "The WAF encountered an invalid object"
    );
    assert_eq!(
        RunError::InvalidArgument.message(),
        "The WAF encountered an invalid argument"
    );
    assert_eq!(
        InternalError {}.message(),
        "An unexpected internal error occurred in the WAF; check the error logs"
    );
}

#[test]
fn run_output_key_is_matched_by_bytes() {
    let mut map = WafMap::new(1);
    let key: WafObject = WafString::new_literal(&b"evaluated"[..]).into();
    *map.index_mut(0) = Keyed::new(key, WafObject::from(11_u64));
    let out = RunOutput::from_data(WafOwnedOutputAllocator::new(map));
    assert_eq!(out.evaluated(), 11);
}

#[test]
fn run_output_entries_come_from_the_first_key() {
    let out = output(vec![
        ("events", WafObject::from(1_u64)),
        ("events", WafArray::new(0).into()),
    ]);
    assert!(out.events().is_none());
}

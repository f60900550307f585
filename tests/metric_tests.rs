use nagiosplugin::{CheckResult, Metric, ServiceState, TriggerIfValue, Unit, UnitString};

fn state_of(value: i64, warning: i64, critical: i64, d: TriggerIfValue) -> Option<ServiceState> {
    let result: CheckResult = Metric::new("m", value)
        .with_thresholds(warning, critical, d)
        .into();
    result.state()
}

#[test]
fn greater_thresholds() {
    let g = TriggerIfValue::Greater;
    assert_eq!(state_of(15, 20, 50, g), None);
    assert_eq!(state_of(20, 20, 50, g), Some(ServiceState::Warning));
    assert_eq!(state_of(42, 20, 50, g), Some(ServiceState::Warning));
    assert_eq!(state_of(50, 20, 50, g), Some(ServiceState::Critical));
    assert_eq!(state_of(60, 20, 50, g), Some(ServiceState::Critical));
}

#[test]
fn less_thresholds() {
    let l = TriggerIfValue::Less;
    assert_eq!(state_of(35, 30, 15, l), None);
    assert_eq!(state_of(30, 30, 15, l), Some(ServiceState::Warning));
    assert_eq!(state_of(15, 30, 15, l), Some(ServiceState::Critical));
    assert_eq!(state_of(10, 30, 15, l), Some(ServiceState::Critical));
}

#[test]
fn only_critical_bound() {
    let r: CheckResult = Metric::new("m", 45u32)
        .with_thresholds(None, 50u32, TriggerIfValue::Greater)
        .into();
    assert_eq!(r.state(), None);
    let r: CheckResult = Metric::new("m", 55u32)
        .with_thresholds(None, 50u32, TriggerIfValue::Greater)
        .into();
    assert_eq!(r.state(), Some(ServiceState::Critical));
}

#[test]
fn no_thresholds_no_state() {
    let r: CheckResult = Metric::new("m", 7).into();
    assert_eq!(r.state(), None);
    assert_eq!(r.message(), None);
    assert_eq!(r.perf_string().unwrap().as_str(), "'m'=7;;;;");
}

#[test]
fn breach_message_text() {
    let r: CheckResult = Metric::new("load", 42)
        .with_thresholds(40, 50, TriggerIfValue::Greater)
        .into();
    assert_eq!(
        r.message(),
        Some("metric 'load' is WARNING: value '42' has exceeded threshold of '40'")
    );
    let r: CheckResult = Metric::new("load", 51)
        .with_thresholds(40, 50, TriggerIfValue::Greater)
        .into();
    assert_eq!(
        r.message(),
        Some("metric 'load' is CRITICAL: value '51' has exceeded threshold of '50'")
    );
}

#[test]
fn fixed_state_skips_thresholds() {
    let r: CheckResult = Metric::new("m", 100)
        .with_thresholds(40, 50, TriggerIfValue::Greater)
        .with_fixed_state(ServiceState::Okay)
        .into();
    assert_eq!(r.state(), Some(ServiceState::Okay));
    assert_eq!(r.message(), None);

    let r: CheckResult = Metric::new("m", 1)
        .with_fixed_state(ServiceState::Unknown)
        .into();
    assert_eq!(r.state(), Some(ServiceState::Unknown));
    assert_eq!(r.message(), None);

    let r: CheckResult = Metric::new("m", 1)
        .with_thresholds(40, 50, TriggerIfValue::Greater)
        .with_fixed_state(ServiceState::Critical)
        .into();
    assert_eq!(r.state(), Some(ServiceState::Critical));
    assert_eq!(r.message(), None);
}

#[test]
fn full_perf_data_of_metric() {
    let r = CheckResult::from_metric(
        Metric::new("disk", 42u64)
            .with_minimum(0)
            .with_maximum(100)
            .with_unit(Unit::Percentage)
            .with_thresholds(80, 90, TriggerIfValue::Greater),
    );
    assert_eq!(r.perf_string().unwrap().as_str(), "'disk'=42%;80;90;0;100");
}

#[test]
fn negative_values() {
    let r: CheckResult = Metric::new("temp", -12i32)
        .with_thresholds(-5, -10, TriggerIfValue::Less)
        .into();
    assert_eq!(r.state(), Some(ServiceState::Critical));
    assert_eq!(r.perf_string().unwrap().as_str(), "'temp'=-12;-5;-10;;");
}

#[test]
fn custom_unit() {
    let u = UnitString::new("req/s").unwrap();
    let r: CheckResult = Metric::new("rate", 3u8).with_unit(Unit::Other(u)).into();
    assert_eq!(r.perf_string().unwrap().as_str(), "'rate'=3req/s;;;;");
}

#[test]
fn check_result_builders() {
    let r = CheckResult::new();
    assert_eq!(r.state(), None);
    assert_eq!(r.message(), None);
    assert!(r.perf_string().is_none());
    let r = CheckResult::default()
        .with_state(ServiceState::Warning)
        .with_message("could not connect");
    assert_eq!(r.state(), Some(ServiceState::Warning));
    assert_eq!(r.message(), Some("could not connect"));
}

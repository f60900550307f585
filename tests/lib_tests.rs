use nagiosplugin::{
    safe_run, CheckResult, Metric, PerfString, Resource, RunResult, ServiceState, TriggerIfValue,
    Unit,
};

#[test]
fn test_resource_nagios_result() {
    let (state, s) = Resource::new("foo")
        .with_description("i am bar")
        .with_result(
            CheckResult::new()
                .with_state(ServiceState::Warning)
                .with_message("flubblebar"),
        )
        .with_result(CheckResult::new().with_state(ServiceState::Critical))
        .nagios_result();

    assert_eq!(state, ServiceState::Critical);
    assert!(s.contains("i am bar"));
    assert!(s.contains("flubblebar"));
    assert!(s.contains(&ServiceState::Critical.to_string()));
}

#[test]
fn test_resource_with_fixed_state() {
    let (state, _) = Resource::new("foo")
        .with_fixed_state(ServiceState::Critical)
        .nagios_result();
    assert_eq!(state, ServiceState::Critical);
}

#[test]
fn test_resource_with_ok_result() {
    let (state, msg) = Resource::new("foo")
        .with_result(
            CheckResult::new()
                .with_message("test")
                .with_state(ServiceState::Okay),
        )
        .nagios_result();

    assert_eq!(ServiceState::Okay, state);
    assert!(msg.contains("test"));
}

#[test]
fn test_perf_string_new() {
    let s = PerfString::new("foo", &12, Unit::Unitless, Some(&42), None, None, Some(&60));
    assert_eq!(s.as_str(), "'foo'=12;42;;;60")
}

#[test]
fn test_metric_into_check_result_complete() {
    let metric = Metric::new("test", 42)
        .with_minimum(0)
        .with_maximum(100)
        .with_thresholds(40, 50, TriggerIfValue::Greater);

    let result: CheckResult = metric.into();
    assert_eq!(result.state(), Some(ServiceState::Warning));

    let message = result.message().expect("no message set");
    assert!(message.contains(&ServiceState::Warning.to_string()));
    assert!(message.contains("test"));
    assert!(message.contains("threshold"));
}

#[test]
fn test_metric_into_check_result_threshold_less() {
    let result: CheckResult = Metric::new("test", 40)
        .with_thresholds(50, 30, TriggerIfValue::Less)
        .into();

    assert_eq!(result.state(), Some(ServiceState::Warning));
}

#[test]
fn test_metric_into_check_result_threshold_greater() {
    let result: CheckResult = Metric::new("test", 40)
        .with_thresholds(30, 50, TriggerIfValue::Greater)
        .into();

    assert_eq!(result.state(), Some(ServiceState::Warning));
}

#[test]
fn test_metric_into_check_result_threshold_equal_to_val() {
    let result: CheckResult = Metric::new("foo", 30)
        .with_thresholds(30, 40, TriggerIfValue::Greater)
        .into();

    assert_eq!(result.state(), Some(ServiceState::Warning));
}

#[test]
fn test_metric_into_check_result_threshold_only_warning() {
    let result: CheckResult = Metric::new("foo", 30)
        .with_thresholds(25, None, TriggerIfValue::Greater)
        .into();

    assert_eq!(result.state(), Some(ServiceState::Warning));

    let result: CheckResult = Metric::new("foo", 30)
        .with_thresholds(35, None, TriggerIfValue::Greater)
        .into();

    assert_eq!(result.state(), None);
}

#[test]
fn test_metric_into_check_result_with_unit() {
    let result: CheckResult = Metric::new("foo", 20)
        .with_thresholds(25, None, TriggerIfValue::Greater)
        .with_unit(Unit::Megabytes)
        .into();

    assert!(result.perf_string().unwrap().as_str().contains("MB"));

    assert_eq!(result.state(), None);
}

#[derive(Debug)]
struct EmptyError;

fn do_check(success: bool) -> Result<Resource, EmptyError> {
    if success {
        Ok(Resource::new("test"))
    } else {
        Err(EmptyError {})
    }
}

#[test]
fn test_safe_run_ok() {
    let result = safe_run(|| do_check(true), ServiceState::Critical);

    assert!(matches!(result, RunResult::Completed(_)));
}

#[test]
fn test_safe_run_error() {
    let result = safe_run(|| do_check(false), ServiceState::Critical);

    assert!(matches!(result, RunResult::Failed(_, _)));
}

use nagiosplugin::{CheckResult, Metric, Resource, ServiceState, TriggerIfValue};

fn with_state(s: ServiceState) -> CheckResult {
    CheckResult::new().with_state(s)
}

#[test]
fn aggregate_is_worst_state() {
    let (state, _) = Resource::new("r")
        .with_result(with_state(ServiceState::Warning))
        .with_result(with_state(ServiceState::Unknown))
        .with_result(CheckResult::new())
        .with_result(with_state(ServiceState::Okay))
        .nagios_result();
    assert_eq!(state, ServiceState::Warning);

    let (state, _) = Resource::new("r")
        .with_result(with_state(ServiceState::Unknown))
        .with_result(with_state(ServiceState::Okay))
        .nagios_result();
    assert_eq!(state, ServiceState::Unknown);
}

#[test]
fn aggregate_without_states_is_ok() {
    let (state, text) = Resource::new("r")
        .with_result(CheckResult::new().with_message("hello"))
        .nagios_result();
    assert_eq!(state, ServiceState::Okay);
    assert_eq!(text, "r is OK\n\nhello|");
    let (state, text) = Resource::new("empty").nagios_result();
    assert_eq!(state, ServiceState::Okay);
    assert_eq!(text, "empty is OK|");
}

#[test]
fn fixed_state_overrides_results() {
    let (state, _) = Resource::new("r")
        .with_result(with_state(ServiceState::Okay))
        .with_result(with_state(ServiceState::Okay))
        .with_fixed_state(ServiceState::Critical)
        .nagios_result();
    assert_eq!(state, ServiceState::Critical);
    let (state, text) = Resource::new("r")
        .with_result(with_state(ServiceState::Critical))
        .with_fixed_state(ServiceState::Okay)
        .nagios_result();
    assert_eq!(state, ServiceState::Okay);
    assert_eq!(text, "r is OK|");
}

#[test]
fn full_report() {
    let mut r = Resource::new("foo");
    r.set_description("  This is a simple test plugin \n");
    r.push_result(
        Metric::new("test", 15)
            .with_thresholds(20, 50, TriggerIfValue::Greater)
            .into(),
    );
    r.push_result(
        Metric::new("alerting", 42)
            .with_thresholds(40, 50, TriggerIfValue::Greater)
            .into(),
    );
    r.push_result(CheckResult::new().with_message("  second line \t"));
    let (state, text) = r.nagios_result();
    assert_eq!(state, ServiceState::Warning);
    assert_eq!(
        text,
        "foo is WARNING: This is a simple test plugin\n\n\
         metric 'alerting' is WARNING: value '42' has exceeded threshold of '40'\n\
         second line\
         | 'test'=15;20;50;; 'alerting'=42;40;50;;"
    );
}

#[test]
fn blank_message_still_adds_separator() {
    let (_, text) = Resource::new("r")
        .with_result(CheckResult::new().with_message("   "))
        .nagios_result();
    assert_eq!(text, "r is OK\n\n|");
}

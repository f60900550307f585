use nagiosplugin::{ServiceState, ServiceStateFromStrError};

const ALL: [ServiceState; 4] = [
    ServiceState::Okay,
    ServiceState::Unknown,
    ServiceState::Warning,
    ServiceState::Critical,
];

#[test]
fn max_picks_the_worse_state() {
    assert_eq!(ServiceState::Okay.max(ServiceState::Unknown), ServiceState::Unknown);
    assert_eq!(ServiceState::Unknown.max(ServiceState::Warning), ServiceState::Warning);
    assert_eq!(ServiceState::Critical.max(ServiceState::Warning), ServiceState::Critical);
    assert_eq!(ServiceState::Unknown.max(ServiceState::Okay), ServiceState::Unknown);
    assert_eq!(ServiceState::Warning.max(ServiceState::Critical), ServiceState::Critical);
}

#[test]
fn max_is_commutative_associative_and_idempotent() {
    for a in ALL {
        assert_eq!(a.max(a), a);
        for b in ALL {
            assert_eq!(a.max(b), b.max(a));
            for c in ALL {
                assert_eq!(a.max(b).max(c), a.max(b.max(c)));
            }
        }
    }
}

#[test]
fn order_follows_severity() {
    assert!(ServiceState::Okay < ServiceState::Unknown);
    assert!(ServiceState::Unknown < ServiceState::Warning);
    assert!(ServiceState::Warning < ServiceState::Critical);
    let mut sorted = vec![
        ServiceState::Critical,
        ServiceState::Okay,
        ServiceState::Warning,
        ServiceState::Unknown,
    ];
    sorted.sort();
    assert_eq!(sorted, ALL.to_vec());
}

#[test]
fn exit_codes_are_fixed() {
    assert_eq!(ServiceState::Okay.exit_code(), 0);
    assert_eq!(ServiceState::Warning.exit_code(), 1);
    assert_eq!(ServiceState::Critical.exit_code(), 2);
    assert_eq!(ServiceState::Unknown.exit_code(), 3);
}

#[test]
fn text_forms() {
    assert_eq!(ServiceState::Okay.as_str(), "OK");
    assert_eq!(ServiceState::Warning.to_string(), "WARNING");
    assert_eq!(ServiceState::Critical.to_string(), "CRITICAL");
    assert_eq!(ServiceState::Unknown.to_string(), "UNKNOWN");
}

#[test]
fn parse_ignores_case() {
    assert_eq!(ServiceState::parse("OK"), Ok(ServiceState::Okay));
    assert_eq!(ServiceState::parse("Warning"), Ok(ServiceState::Warning));
    assert_eq!(ServiceState::parse("cRiTiCaL"), Ok(ServiceState::Critical));
    assert_eq!(ServiceState::parse("unknown"), Ok(ServiceState::Unknown));
    assert_eq!("WARNING".parse::<ServiceState>(), Ok(ServiceState::Warning));
}

#[test]
fn parse_rejects_other_names() {
    assert_eq!(ServiceState::parse("okay"), Err(ServiceStateFromStrError));
    assert_eq!(ServiceState::parse(""), Err(ServiceStateFromStrError));
    assert_eq!(ServiceState::parse(" ok"), Err(ServiceStateFromStrError));
    assert_eq!(
        ServiceStateFromStrError.message(),
        "expected one of: ok, warning, critical, unknown"
    );
}

#[test]
fn from_lowercase_name_takes_lower_case_only() {
    assert_eq!(ServiceState::from_lowercase_name("ok"), Ok(ServiceState::Okay));
    assert_eq!(ServiceState::from_lowercase_name("OK"), Err(ServiceStateFromStrError));
}

#[test]
fn default_state_is_unknown() {
    assert_eq!(ServiceState::default(), ServiceState::Unknown);
}

#[test]
fn text_form_parses_back() {
    for t in ALL {
        assert_eq!(t.to_string().parse::<ServiceState>(), Ok(t));
        assert_eq!(t.to_string().to_lowercase().parse::<ServiceState>(), Ok(t));
    }
}

use nagiosplugin::{Resource, Runner, RunnerResult, ServiceState};

#[derive(Debug)]
struct EmptyError;

#[test]
fn test_runner_ok() {
    let result = Runner::<EmptyError>::new()
        .on_error(|_| {
            assert!(false);
            (ServiceState::Unknown, EmptyError)
        })
        .safe_run(|| Ok(Resource::new("test")));

    assert!(matches!(result, RunnerResult::Completed(_)));
}

#[test]
fn test_runner_error() {
    let result = Runner::<EmptyError>::new()
        .on_error(|_| (ServiceState::Unknown, EmptyError))
        .safe_run(|| Err(EmptyError {}));

    assert!(matches!(result, RunnerResult::Failed(_, _)));
}

#[test]
fn runner_without_handler_reports_critical() {
    let result = Runner::<EmptyError>::new().safe_run(|| Err(EmptyError {}));
    match result {
        RunnerResult::Failed(state, _) => {
            assert_eq!(state, ServiceState::Critical);
            assert_eq!(state.exit_code(), 2);
        }
        RunnerResult::Completed(_) => panic!("expected a failure"),
    }
}

#[test]
fn runner_handler_redirects_to_unknown() {
    let result = Runner::<EmptyError>::new()
        .on_error(|e| (ServiceState::Unknown, e))
        .safe_run(|| Err(EmptyError {}));
    match result {
        RunnerResult::Failed(state, _) => {
            assert_eq!(state, ServiceState::Unknown);
            assert_eq!(state.exit_code(), 3);
        }
        RunnerResult::Completed(_) => panic!("expected a failure"),
    }
}

#[test]
fn runner_passes_resource_through() {
    let result = Runner::<EmptyError>::new()
        .safe_run(|| Ok(Resource::new("svc").with_fixed_state(ServiceState::Warning)));
    match result {
        RunnerResult::Completed(resource) => {
            let (state, text) = resource.nagios_result();
            assert_eq!(state, ServiceState::Warning);
            assert_eq!(text, "svc is WARNING|");
        }
        RunnerResult::Failed(_, _) => panic!("expected a resource"),
    }
}

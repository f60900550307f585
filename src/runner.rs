use vstd::prelude::*;

use core::marker::PhantomData;

use crate::resource::Resource;
use crate::state::{exit_code_of, ServiceState};

verus! {

/// The outcome of [safe_run].
pub enum RunResult<E> {
    /// The run was successful and it contains the returned [Resource].
    Completed(Resource),
    /// The run was not successful and it contains the [ServiceState] and the error.
    Failed(ServiceState, E),
}

/// Runs a check and maps its error to `error_state`.
pub fn safe_run<E, F: FnOnce() -> Result<Resource, E>>(f: F, error_state: ServiceState) -> (r:
    RunResult<E>)
    requires
        call_requires(f, ()),
    ensures
        match r {
            RunResult::Completed(res) => call_ensures(f, (), Ok(res)),
            RunResult::Failed(s, e) => s == error_state && call_ensures(f, (), Err(e)),
        },
{
    match f() {
        Ok(resource) => RunResult::Completed(resource),
        Err(err) => RunResult::Failed(error_state, err),
    }
}

/// What a [Runner] does with the error of a failed check: it picks the state to report and the
/// error to show.
pub trait ErrorHandler<E>: Sized {
    /// Whether the handler may be called with this error.
    spec fn accepts(&self, err: E) -> bool;

    /// Whether the handler may answer `out` to this error.
    spec fn gives(&self, err: E, out: (ServiceState, E)) -> bool;

    fn handle(self, err: E) -> (r: (ServiceState, E))
        requires
            self.accepts(err),
        ensures
            self.gives(err, r),
    ;
}

/// Any closure from the error to a state and an error is a handler.
impl<E, F: FnOnce(E) -> (ServiceState, E)> ErrorHandler<E> for F {
    open spec fn accepts(&self, err: E) -> bool {
        call_requires(*self, (err,))
    }

    open spec fn gives(&self, err: E, out: (ServiceState, E)) -> bool {
        call_ensures(*self, (err,), out)
    }

    fn handle(self, err: E) -> (r: (ServiceState, E)) {
        self(err)
    }
}

/// The default handler: it reports `Critical` and keeps the error.
#[derive(Debug, Clone, Copy)]
pub struct CriticalOnError;

impl<E> ErrorHandler<E> for CriticalOnError {
    open spec fn accepts(&self, err: E) -> bool {
        true
    }

    open spec fn gives(&self, err: E, out: (ServiceState, E)) -> bool {
        out == (ServiceState::Critical, err)
    }

    fn handle(self, err: E) -> (r: (ServiceState, E)) {
        (ServiceState::Critical, err)
    }
}

/// The runner is a helper to run a function that returns a [Result] with a [Resource] and maps
/// the error case to a [ServiceState] and a message. This is to avoid boilerplate in every plugin.
pub struct Runner<E, H = CriticalOnError> {
    on_error: H,
    error: PhantomData<E>,
}

/// The outcome of [Runner::safe_run].
pub enum RunnerResult<E> {
    /// The run was successful and it contains the returned [Resource].
    Completed(Resource),
    /// The run was not successful and it contains the [ServiceState] and the error.
    Failed(ServiceState, E),
}

impl<E> Runner<E, CriticalOnError> {
    /// A runner that reports `Critical` when the check fails.
    pub fn new() -> (r: Runner<E, CriticalOnError>)
        ensures
            r.handler() == CriticalOnError,
    {
        Runner { on_error: CriticalOnError, error: PhantomData }
    }
}

impl<E, H: ErrorHandler<E>> Runner<E, H> {
    /// The handler that this runner calls on an error.
    pub closed spec fn handler(&self) -> H {
        self.on_error
    }

    /// This will set a custom error handler. The is mostly useful to provide better plugin output.
    pub fn on_error<G: FnOnce(E) -> (ServiceState, E)>(self, f: G) -> (r: Runner<E, G>)
        ensures
            r.handler() == f,
            forall|e: E| r.handler().accepts(e) <==> call_requires(f, (e,)),
            forall|e: E, o: (ServiceState, E)|
                r.handler().gives(e, o) <==> call_ensures(f, (e,), o),
    {
        Runner { on_error: f, error: PhantomData }
    }

    /// Runs the check. On an error, the handler of this runner picks the state and the error to
    /// report.
    pub fn safe_run<F: FnOnce() -> Result<Resource, E>>(self, f: F) -> (r: RunnerResult<E>)
        requires
            call_requires(f, ()),
            forall|e: E| call_ensures(f, (), Err(e)) ==> self.handler().accepts(e),
        ensures
            match r {
                RunnerResult::Completed(res) => call_ensures(f, (), Ok(res)),
                RunnerResult::Failed(s, e) => exists|err: E|
                    call_ensures(f, (), Err(err)) && self.handler().gives(err, (s, e)),
            },
    {
        assert(self.handler() == self.on_error);
        match f() {
            Ok(resource) => RunnerResult::Completed(resource),
            Err(err) => {
                let (state, msg) = self.on_error.handle(err);
                RunnerResult::Failed(state, msg)
            },
        }
    }
}

impl<E> Default for Runner<E, CriticalOnError> {
    fn default() -> (r: Runner<E, CriticalOnError>)
        ensures
            r.handler() == CriticalOnError,
    {
        Runner::new()
    }
}

/// Without a handler of its own, a runner reports a failed check as `Critical`, whose exit code
/// is 2; a handler may pick another state instead, such as `Unknown`, whose exit code is 3.
pub proof fn lemma_default_handler_is_critical<E>(err: E, out: (ServiceState, E))
    requires
        CriticalOnError.gives(err, out),
    ensures
        out.0 == ServiceState::Critical,
        exit_code_of(out.0) == 2,
        out.1 == err,
        exit_code_of(ServiceState::Unknown) == 3,
{
}

} // verus!

use vstd::prelude::*;

use core::cmp::Ordering;

use crate::perf::{
    as_ref_opt, int_cmp, opt_perf, opt_text, perf_fragment, MetricValue, PerfString, ToPerfString,
};
use crate::state::{label, ServiceState};
use crate::text::push_text;
use crate::unit::{unit_symbol, Unit};

verus! {

/// Defines if a metric triggers if value is greater or less than the thresholds.
#[derive(Debug, Copy, Clone, PartialEq, Eq, Structural, PartialOrd, Ord)]
pub enum TriggerIfValue {
    Greater,
    Less,
}

/// The order in which a value lies beyond a bound in the given direction.
pub open spec fn trigger_order(d: TriggerIfValue) -> Ordering {
    match d {
        TriggerIfValue::Greater => Ordering::Greater,
        TriggerIfValue::Less => Ordering::Less,
    }
}

impl From<&TriggerIfValue> for Ordering {
    fn from(v: &TriggerIfValue) -> (r: Ordering) {
        match v {
            TriggerIfValue::Greater => Ordering::Greater,
            TriggerIfValue::Less => Ordering::Less,
        }
    }
}

impl vstd::std_specs::convert::FromSpecImpl<&TriggerIfValue> for Ordering {
    open spec fn obeys_from_spec() -> bool {
        true
    }

    open spec fn from_spec(v: &TriggerIfValue) -> Ordering {
        trigger_order(*v)
    }
}

/// Whether a value of magnitude `value` breaches a bound of magnitude `bound`: it compares to the
/// bound in the order of the direction, or it equals the bound (the boundary is inclusive).
pub open spec fn breaches(value: int, bound: int, d: TriggerIfValue) -> bool {
    int_cmp(value, bound) == trigger_order(d) || int_cmp(value, bound) == Ordering::Equal
}

/// A threshold argument: a bound, or a bound that may be absent.
pub trait IntoThreshold<T>: Sized {
    /// The bound that this argument stands for.
    spec fn threshold_spec(self) -> Option<T>;

    fn into_threshold(self) -> (r: Option<T>)
        ensures
            r == self.threshold_spec(),
    ;
}

impl<T> IntoThreshold<T> for T {
    open spec fn threshold_spec(self) -> Option<T> {
        Some(self)
    }

    fn into_threshold(self) -> (r: Option<T>) {
        Some(self)
    }
}

impl<T> IntoThreshold<T> for Option<T> {
    open spec fn threshold_spec(self) -> Option<T> {
        self
    }

    fn into_threshold(self) -> (r: Option<T>) {
        self
    }
}

/// What a [Metric] holds.
pub struct MetricView<T> {
    pub name: Seq<char>,
    pub value: T,
    pub unit: Unit,
    pub thresholds: Option<(Option<T>, Option<T>, TriggerIfValue)>,
    pub min: Option<T>,
    pub max: Option<T>,
    pub fixed_state: Option<ServiceState>,
}

/// Defines a metric with a required name and value. Also takes optional thresholds (warning, critical)
/// minimum, maximum. Can also be set to ignore thresholds and have a fixed [ServiceState].
#[derive(Debug, Clone)]
pub struct Metric<T> {
    name: String,
    value: T,
    unit: Unit,
    thresholds: Option<(Option<T>, Option<T>, TriggerIfValue)>,
    min: Option<T>,
    max: Option<T>,
    fixed_state: Option<ServiceState>,
}

impl<T> View for Metric<T> {
    type V = MetricView<T>;

    closed spec fn view(&self) -> MetricView<T> {
        MetricView {
            name: self.name@,
            value: self.value,
            unit: self.unit,
            thresholds: self.thresholds,
            min: self.min,
            max: self.max,
            fixed_state: self.fixed_state,
        }
    }
}

impl<T> Metric<T> {
    pub fn new(name: &str, value: T) -> (r: Metric<T>)
        ensures
            r@ == (MetricView {
                name: name@,
                value,
                unit: Unit::Unitless,
                thresholds: None,
                min: None,
                max: None,
                fixed_state: None,
            }),
    {
        Metric {
            name: name.to_owned(),
            value,
            unit: Unit::Unitless,
            thresholds: None,
            min: None,
            max: None,
            fixed_state: None,
        }
    }

    /// Sets the warning and critical bounds (each may be absent) and the direction in which a
    /// value breaches them.
    pub fn with_thresholds<W: IntoThreshold<T>, C: IntoThreshold<T>>(
        self,
        warning: W,
        critical: C,
        trigger_if_value: TriggerIfValue,
    ) -> (r: Metric<T>)
        ensures
            r@ == (MetricView {
                thresholds: Some(
                    (warning.threshold_spec(), critical.threshold_spec(), trigger_if_value),
                ),
                ..self@
            }),
    {
        let mut m = self;
        m.thresholds = Some((warning.into_threshold(), critical.into_threshold(), trigger_if_value));
        m
    }

    pub fn with_minimum(self, minimum: T) -> (r: Metric<T>)
        ensures
            r@ == (MetricView { min: Some(minimum), ..self@ }),
    {
        let mut m = self;
        m.min = Some(minimum);
        m
    }

    pub fn with_maximum(self, maximum: T) -> (r: Metric<T>)
        ensures
            r@ == (MetricView { max: Some(maximum), ..self@ }),
    {
        let mut m = self;
        m.max = Some(maximum);
        m
    }

    /// If a fixed state is set, this metric will always report the given state if turned in to a
    /// [CheckResult].
    pub fn with_fixed_state(self, state: ServiceState) -> (r: Metric<T>)
        ensures
            r@ == (MetricView { fixed_state: Some(state), ..self@ }),
    {
        let mut m = self;
        m.fixed_state = Some(state);
        m
    }

    pub fn with_unit(self, unit: Unit) -> (r: Metric<T>)
        ensures
            r@ == (MetricView { unit, ..self@ }),
    {
        let mut m = self;
        m.unit = unit;
        m
    }
}

/// Whether a bound is present and breached.
pub open spec fn bound_breached<T: MetricValue>(
    value: T,
    bound: Option<T>,
    d: TriggerIfValue,
) -> bool {
    match bound {
        Some(b) => breaches(value.magnitude(), b.magnitude(), d),
        None => false,
    }
}

/// The state that thresholds give a value: `Critical` if the critical bound is breached, else
/// `Warning` if the warning bound is, else no state at all.
pub open spec fn threshold_state<T: MetricValue>(
    value: T,
    warning: Option<T>,
    critical: Option<T>,
    d: TriggerIfValue,
) -> Option<ServiceState> {
    if bound_breached(value, critical, d) {
        Some(ServiceState::Critical)
    } else if bound_breached(value, warning, d) {
        Some(ServiceState::Warning)
    } else {
        None
    }
}

/// The state of a metric: its fixed state if it has one, else what its thresholds give, and no
/// state when it has neither.
pub open spec fn metric_state<T: MetricValue>(m: MetricView<T>) -> Option<ServiceState> {
    match m.fixed_state {
        Some(s) => Some(s),
        None => match m.thresholds {
            Some((w, c, d)) => threshold_state(m.value, w, c, d),
            None => None,
        },
    }
}

/// `metric '<name>' is <STATE>: value '<value>' has exceeded threshold of '<bound>'`
pub open spec fn breach_message(
    name: Seq<char>,
    state: ServiceState,
    value: Seq<char>,
    bound: Seq<char>,
) -> Seq<char> {
    "metric '"@ + name + "' is "@ + label(state) + ": value '"@ + value
        + "' has exceeded threshold of '"@ + bound + "'"@
}

/// The bound that a metric in the state `s` reports: the warning bound for `Warning`, the
/// critical bound for `Critical`.
pub open spec fn reported_bound<T>(m: MetricView<T>, s: ServiceState) -> Option<T> {
    match m.thresholds {
        Some((w, c, _)) => match s {
            ServiceState::Warning => w,
            ServiceState::Critical => c,
            _ => None,
        },
        None => None,
    }
}

/// The message of a metric: there is one when its thresholds gave it the state `Warning` or
/// `Critical`, naming the bound that was breached. A fixed state skips the thresholds and gives
/// no message.
pub open spec fn metric_message<T: MetricValue>(m: MetricView<T>) -> Option<Seq<char>> {
    if m.fixed_state is Some {
        None
    } else {
        threshold_message(m)
    }
}

/// The message for the state that the thresholds of a metric give.
pub open spec fn threshold_message<T: MetricValue>(m: MetricView<T>) -> Option<Seq<char>> {
    match metric_state(m) {
        Some(s) => match reported_bound(m, s) {
            Some(b) => Some(breach_message(m.name, s, m.value.perf_view(), b.perf_view())),
            None => None,
        },
        None => None,
    }
}

/// The warning and critical bounds of a metric, absent without thresholds.
pub open spec fn warning_of<T>(m: MetricView<T>) -> Option<T> {
    match m.thresholds {
        Some((w, _, _)) => w,
        None => None,
    }
}

pub open spec fn critical_of<T>(m: MetricView<T>) -> Option<T> {
    match m.thresholds {
        Some((_, c, _)) => c,
        None => None,
    }
}

/// The performance-data fragment of a metric.
pub open spec fn metric_perf<T: MetricValue>(m: MetricView<T>) -> Seq<char> {
    perf_fragment(
        m.name,
        m.value.perf_view(),
        unit_symbol(m.unit),
        opt_perf(warning_of(m)),
        opt_perf(critical_of(m)),
        opt_perf(m.min),
        opt_perf(m.max),
    )
}

/// What a [CheckResult] holds.
pub struct CheckResultView {
    pub state: Option<ServiceState>,
    pub message: Option<Seq<char>>,
    pub perf: Option<Seq<char>>,
}

/// The result that a metric turns into.
pub open spec fn metric_result<T: MetricValue>(m: MetricView<T>) -> CheckResultView {
    CheckResultView {
        state: metric_state(m),
        message: metric_message(m),
        perf: Some(metric_perf(m)),
    }
}

/// The text of a string that may be absent.
pub open spec fn opt_view(v: Option<&str>) -> Option<Seq<char>> {
    match v {
        Some(s) => Some(s@),
        None => None,
    }
}

/// Represents a single item of a check. Multiple of these are used to form a
/// [Resource](crate::Resource).
#[derive(Debug, Clone, PartialEq, Eq)]
pub struct CheckResult {
    state: Option<ServiceState>,
    message: Option<String>,
    perf_string: Option<PerfString>,
}

impl View for CheckResult {
    type V = CheckResultView;

    closed spec fn view(&self) -> CheckResultView {
        CheckResultView {
            state: self.state,
            message: match self.message {
                Some(m) => Some(m@),
                None => None,
            },
            perf: match self.perf_string {
                Some(p) => Some(p@),
                None => None,
            },
        }
    }
}

/// Whether `value` breaches `bound` in direction `d`.
fn breached<T: MetricValue>(value: &T, bound: &T, d: TriggerIfValue) -> (r: bool)
    ensures
        r == breaches(value.magnitude(), bound.magnitude(), d),
{
    let ord = value.compare(bound);
    let wanted = Ordering::from(&d);
    match ord {
        Ordering::Equal => true,
        Ordering::Greater => matches!(wanted, Ordering::Greater),
        Ordering::Less => matches!(wanted, Ordering::Less),
    }
}

/// Whether `bound` is present and breached.
fn optional_breached<T: MetricValue>(value: &T, bound: &Option<T>, d: TriggerIfValue) -> (r: bool)
    ensures
        r == bound_breached(*value, *bound, d),
{
    match bound {
        Some(b) => breached(value, b, d),
        None => false,
    }
}

/// Appends the text of a value.
fn push_value<T: ToPerfString>(out: &mut String, v: &T)
    ensures
        final(out)@ == old(out)@ + v.perf_view(),
{
    let t = v.to_perf_string();
    push_text(out, t.as_str());
}

impl<T: MetricValue> Metric<T> {
    /// The state of this metric: its fixed state, else what its thresholds give.
    fn evaluate(&self) -> (r: Option<ServiceState>)
        ensures
            r == metric_state(self@),
    {
        match self.fixed_state {
            Some(s) => Some(s),
            None => match &self.thresholds {
                Some((w, c, d)) => {
                    if optional_breached(&self.value, c, *d) {
                        Some(ServiceState::Critical)
                    } else if optional_breached(&self.value, w, *d) {
                        Some(ServiceState::Warning)
                    } else {
                        None
                    }
                },
                None => None,
            },
        }
    }

    /// The bound that this metric reports in the state `s`.
    fn bound_for(&self, s: ServiceState) -> (r: Option<&T>)
        ensures
            r matches Some(b) ==> reported_bound(self@, s) == Some(*b),
            r is None ==> reported_bound(self@, s) is None,
    {
        match &self.thresholds {
            Some((w, c, _)) => match s {
                ServiceState::Warning => as_ref_opt(w),
                ServiceState::Critical => as_ref_opt(c),
                _ => None,
            },
            None => None,
        }
    }

    /// The message for the state `state` of this metric.
    fn message_for(&self, state: Option<ServiceState>) -> (r: Option<String>)
        requires
            state == metric_state(self@),
        ensures
            r matches Some(m) ==> metric_message(self@) == Some(m@),
            r is None ==> metric_message(self@) is None,
    {
        if self.fixed_state.is_some() {
            return None;
        }
        match state {
            Some(s) => match self.bound_for(s) {
                Some(b) => {
                    let mut out = String::new();
                    push_text(&mut out, "metric '");
                    push_text(&mut out, self.name.as_str());
                    push_text(&mut out, "' is ");
                    push_text(&mut out, s.as_str());
                    push_text(&mut out, ": value '");
                    push_value(&mut out, &self.value);
                    push_text(&mut out, "' has exceeded threshold of '");
                    push_value(&mut out, b);
                    push_text(&mut out, "'");
                    assert(out@ =~= breach_message(
                        self.name@,
                        s,
                        self.value.perf_view(),
                        b.perf_view(),
                    ));
                    Some(out)
                },
                None => None,
            },
            None => None,
        }
    }

    /// The performance-data fragment of this metric.
    fn into_perf_string(self) -> (r: PerfString)
        ensures
            r@ == metric_perf(self@),
    {
        let (w, c): (Option<&T>, Option<&T>) = match &self.thresholds {
            Some((w, c, _)) => (as_ref_opt(w), as_ref_opt(c)),
            None => (None, None),
        };
        let lo = as_ref_opt(&self.min);
        let hi = as_ref_opt(&self.max);
        assert(opt_text(w) == opt_perf(warning_of(self@)));
        assert(opt_text(c) == opt_perf(critical_of(self@)));
        assert(opt_text(lo) == opt_perf(self@.min));
        assert(opt_text(hi) == opt_perf(self@.max));
        PerfString::new(self.name.as_str(), &self.value, self.unit, w, c, lo, hi)
    }
}

impl CheckResult {
    /// Creates an empty instance.
    pub fn new() -> (r: CheckResult)
        ensures
            r@ == (CheckResultView { state: None, message: None, perf: None }),
    {
        CheckResult { state: None, message: None, perf_string: None }
    }

    pub fn with_state(self, state: ServiceState) -> (r: CheckResult)
        ensures
            r@ == (CheckResultView { state: Some(state), ..self@ }),
    {
        let mut r = self;
        r.state = Some(state);
        r
    }

    pub fn with_message(self, message: &str) -> (r: CheckResult)
        ensures
            r@ == (CheckResultView { message: Some(message@), ..self@ }),
    {
        let mut r = self;
        r.message = Some(message.to_owned());
        r
    }

    /// Sets the performance data of this result.
    pub fn with_perf_data(self, perf_data: PerfString) -> (r: CheckResult)
        ensures
            r@ == (CheckResultView { perf: Some(perf_data@), ..self@ }),
    {
        let mut r = self;
        r.perf_string = Some(perf_data);
        r
    }

    /// The state of this result, if it has one.
    pub fn state(&self) -> (r: Option<ServiceState>)
        ensures
            r == self@.state,
    {
        self.state
    }

    /// The message of this result, if it has one.
    pub fn message(&self) -> (r: Option<&str>)
        ensures
            opt_view(r) == self@.message,
    {
        match &self.message {
            Some(m) => Some(m.as_str()),
            None => None,
        }
    }

    /// The performance-data fragment of this result, if it has one.
    pub fn perf_string(&self) -> (r: Option<&PerfString>)
        ensures
            r matches Some(p) ==> self@.perf == Some(p@),
            r is None ==> self@.perf is None,
    {
        match &self.perf_string {
            Some(p) => Some(p),
            None => None,
        }
    }

    /// Evaluates a metric: its state and message, and its performance data.
    pub fn from_metric<T: MetricValue>(metric: Metric<T>) -> (r: CheckResult)
        ensures
            r@ == metric_result(metric@),
    {
        let state = metric.evaluate();
        let message = metric.message_for(state);
        let perf = metric.into_perf_string();
        CheckResult { state, message, perf_string: Some(perf) }
    }
}

impl Default for CheckResult {
    fn default() -> (r: CheckResult)
        ensures
            r@ == (CheckResultView { state: None, message: None, perf: None }),
    {
        CheckResult::new()
    }
}

impl<T: MetricValue> From<Metric<T>> for CheckResult {
    fn from(metric: Metric<T>) -> (r: CheckResult)
        ensures
            r@ == metric_result(metric@),
    {
        CheckResult::from_metric(metric)
    }
}

/// The result of a conversion is stated over views, in the `ensures` of `from` and of
/// [CheckResult::from_metric]; a spec value of the result itself is not given.
impl<T: MetricValue> vstd::std_specs::convert::FromSpecImpl<Metric<T>> for CheckResult {
    open spec fn obeys_from_spec() -> bool {
        false
    }

    open spec fn from_spec(v: Metric<T>) -> CheckResult {
        arbitrary()
    }
}

} // verus!

//! Building blocks for Icinga / Nagios check plugins: the service states, threshold evaluation
//! of metrics, the performance-data format, and the aggregation of many results into the single
//! report that a monitoring supervisor reads.
pub mod config_generator;
mod metric;
mod perf;
mod resource;
mod runner;
mod state;
mod text;
mod unit;

pub use metric::{
    breach_message, breaches, metric_message, metric_result, metric_state, threshold_state,
    CheckResult, CheckResultView, IntoThreshold, Metric, MetricView, TriggerIfValue,
};
pub use perf::{
    escape_name, perf_fragment, perf_label, MetricValue, PerfData, PerfDataView, PerfString,
    ToPerfString,
};
pub use resource::{
    fold_state, lemma_aggregate_is_worst, lemma_aggregate_monotonic, lemma_fixed_state_wins,
    overall_state, report, Resource, ResourceView,
};
pub use runner::{
    lemma_default_handler_is_critical, safe_run, CriticalOnError, ErrorHandler, RunResult, Runner,
    RunnerResult,
};
pub use state::{
    all_ascii, ascii_lower, exit_code_of, label, lemma_max_is_join, lemma_parse_round_trip, lower_label,
    lowercase_of, parsed_state, rank, worse,
    ServiceState, ServiceStateFromStrError,
};
pub use unit::{unit_symbol, Unit, UnitString, UnitStringCreateError};

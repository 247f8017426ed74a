//! Query builder for stored telemetry. Times are nanoseconds since the Unix epoch.

use vstd::prelude::*;
use crate::telemetry::trace::{SpanId, TraceId};

verus! {

/// Query builder for telemetry data.
#[derive(Debug, Clone, Copy)]
pub struct TelemetryQuery {
    /// Filter by trace ID.
    pub trace_id: Option<TraceId>,
    /// Filter by span ID.
    pub span_id: Option<SpanId>,
    /// Valid time filter (when the span was active).
    pub valid_at: Option<i64>,
    /// Transaction time filter (when we knew about it).
    pub transaction_at: Option<i64>,
    /// Time range filter.
    pub time_range: Option<(i64, i64)>,
    /// Include historical versions.
    pub include_history: bool,
    /// Maximum results.
    pub limit: Option<usize>,
}

impl Default for TelemetryQuery {
    /// A query with no filter, no limit and no history.
    fn default() -> (q: TelemetryQuery)
        ensures
            q.trace_id is None,
            q.span_id is None,
            q.valid_at is None,
            q.transaction_at is None,
            q.time_range is None,
            !q.include_history,
            q.limit is None,
    {
        TelemetryQuery {
            trace_id: None,
            span_id: None,
            valid_at: None,
            transaction_at: None,
            time_range: None,
            include_history: false,
            limit: None,
        }
    }
}

impl TelemetryQuery {
    /// Creates a new empty query: no filter, no limit and no history.
    pub fn new() -> (q: TelemetryQuery)
        ensures
            q.trace_id is None,
            q.span_id is None,
            q.valid_at is None,
            q.transaction_at is None,
            q.time_range is None,
            !q.include_history,
            q.limit is None,
    {
        TelemetryQuery::default()
    }

    /// Filters by trace ID.
    pub fn with_trace_id(self, trace_id: TraceId) -> (q: TelemetryQuery)
        ensures
            q == (TelemetryQuery { trace_id: Some(trace_id), ..self }),
    {
        TelemetryQuery { trace_id: Some(trace_id), ..self }
    }

    /// Filters by span ID.
    pub fn with_span_id(self, span_id: SpanId) -> (q: TelemetryQuery)
        ensures
            q == (TelemetryQuery { span_id: Some(span_id), ..self }),
    {
        TelemetryQuery { span_id: Some(span_id), ..self }
    }

    /// Filters to spans active at a specific time.
    pub fn valid_at(self, time_ns: i64) -> (q: TelemetryQuery)
        ensures
            q == (TelemetryQuery { valid_at: Some(time_ns), ..self }),
    {
        TelemetryQuery { valid_at: Some(time_ns), ..self }
    }

    /// Filters to what we knew at a specific time.
    pub fn transaction_at(self, time_ns: i64) -> (q: TelemetryQuery)
        ensures
            q == (TelemetryQuery { transaction_at: Some(time_ns), ..self }),
    {
        TelemetryQuery { transaction_at: Some(time_ns), ..self }
    }

    /// Filters to a time range.
    pub fn in_range(self, from_ns: i64, to_ns: i64) -> (q: TelemetryQuery)
        ensures
            q == (TelemetryQuery { time_range: Some((from_ns, to_ns)), ..self }),
    {
        TelemetryQuery { time_range: Some((from_ns, to_ns)), ..self }
    }

    /// Includes historical versions.
    pub fn with_history(self) -> (q: TelemetryQuery)
        ensures
            q == (TelemetryQuery { include_history: true, ..self }),
    {
        TelemetryQuery { include_history: true, ..self }
    }

    /// Limits the number of results.
    pub fn limit(self, limit: usize) -> (q: TelemetryQuery)
        ensures
            q == (TelemetryQuery { limit: Some(limit), ..self }),
    {
        TelemetryQuery { limit: Some(limit), ..self }
    }
}

} // verus!

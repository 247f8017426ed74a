//! The fixed-size record that travels through the kernel ring buffer.

use vstd::prelude::*;
use crate::telemetry::level::Level;
use crate::telemetry::meta::{EventType, Subsystem};
use crate::telemetry::trace::{SpanId, TraceId};

verus! {

/// Compact telemetry entry for the kernel ring buffer.
#[derive(Debug, Clone, Copy)]
pub struct TelemetryEntry {
    /// Nanoseconds since boot (or since the Unix epoch in userspace).
    pub timestamp_ns: u64,
    /// Severity level.
    pub level: Level,
    /// Originating subsystem.
    pub subsystem: Subsystem,
    /// Event type.
    pub event_type: EventType,
    /// Current span ID.
    pub span_id: SpanId,
    /// Trace ID for distributed tracing.
    pub trace_id: TraceId,
    /// Parent span ID (zero if root).
    pub parent_span_id: SpanId,
    /// Length of the payload that follows.
    pub payload_len: u16,
}

impl TelemetryEntry {
    /// Creates an entry stamped with the current wall-clock time (nanoseconds since
    /// the Unix epoch, truncated to 64 bits) and no payload.
    pub fn new(
        level: Level,
        subsystem: Subsystem,
        event_type: EventType,
        trace_id: TraceId,
        span_id: SpanId,
        parent_span_id: SpanId,
    ) -> (e: TelemetryEntry)
        ensures
            e.level == level,
            e.subsystem == subsystem,
            e.event_type == event_type,
            e.trace_id == trace_id,
            e.span_id == span_id,
            e.parent_span_id == parent_span_id,
            e.payload_len == 0,
    {
        let nanos = crate::telemetry::clock::unix_time_nanos();
        TelemetryEntry {
            timestamp_ns: (nanos % 0x1_0000_0000_0000_0000) as u64,
            level,
            subsystem,
            event_type,
            span_id,
            trace_id,
            parent_span_id,
            payload_len: 0,
        }
    }

    /// Creates a log entry: event type `Log`, no trace or span context, stamped now.
    pub fn log(level: Level, subsystem: Subsystem) -> (e: TelemetryEntry)
        ensures
            e.level == level,
            e.subsystem == subsystem,
            e.event_type == EventType::Log,
            e.trace_id.bytes() == Seq::new(16, |i: int| 0u8),
            e.span_id.bytes() == Seq::new(8, |i: int| 0u8),
            e.parent_span_id.bytes() == Seq::new(8, |i: int| 0u8),
            e.payload_len == 0,
    {
        TelemetryEntry::new(
            level,
            subsystem,
            EventType::Log,
            TraceId::none(),
            SpanId::none(),
            SpanId::none(),
        )
    }
}

} // verus!

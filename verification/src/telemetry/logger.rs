//! The kernel logger: it stamps each message, stores it in the ring buffer and
//! decides what goes to the serial console.
//!
//! The serial port itself is driven by the kernel glue: `log` hands back the
//! exact bytes to send (empty when nothing goes out).

use vstd::prelude::*;
use vstd::string::StringSliceAdditionalSpecFns;
use crate::telemetry::level::{Level, level_name, level_severity};
use crate::telemetry::meta::{EventType, Subsystem, subsystem_name};
use crate::telemetry::ring_buffer::{RingBuffer, RingModel, spec_write};
use crate::telemetry::serial::{crlf_encode, push_encoded};
use crate::telemetry::trace::{SpanId, TraceId};
use crate::telemetry::wire::TelemetryEntry;

verus! {

/// The serial line for a log message: `[LEVEL] subsystem: message` and a line
/// break, with a carriage return before every line feed.
pub open spec fn serial_line(level: Level, subsystem: Subsystem, message: Seq<u8>) -> Seq<u8> {
    crlf_encode("[".spec_bytes()) + crlf_encode(vstd::utf8::encode_utf8(level_name(level)))
        + crlf_encode("] ".spec_bytes()) + crlf_encode(vstd::utf8::encode_utf8(subsystem_name(subsystem)))
        + crlf_encode(": ".spec_bytes()) + crlf_encode(message) + crlf_encode("\n".spec_bytes())
}

/// The header the logger stores: the given level, subsystem and event type,
/// the given timestamp, no trace or span context and no payload length yet.
pub open spec fn logged_entry(
    e: TelemetryEntry,
    timestamp: u64,
    level: Level,
    subsystem: Subsystem,
    event_type: EventType,
) -> bool {
    &&& e.timestamp_ns == timestamp
    &&& e.level == level
    &&& e.subsystem == subsystem
    &&& e.event_type == event_type
    &&& e.trace_id.bytes() == Seq::new(16, |i: int| 0u8)
    &&& e.span_id.bytes() == Seq::new(8, |i: int| 0u8)
    &&& e.parent_span_id.bytes() == Seq::new(8, |i: int| 0u8)
    &&& e.payload_len == 0
}

/// Whether a log message goes to the serial console: only with serial output
/// enabled, and then when the ring buffer refused it or it is a warning or worse.
pub open spec fn goes_to_serial(serial_enabled: bool, written: bool, level: Level) -> bool {
    serial_enabled && (!written || level_severity(level) >= level_severity(Level::Warn))
}

/// Kernel logger that writes to the ring buffer.
pub struct KernelLogger {
    /// Ring buffer for userspace consumption.
    pub ring_buffer: RingBuffer,
    /// Whether serial output is enabled.
    pub serial_enabled: bool,
    /// The next timestamp to hand out (a counter that wraps).
    pub next_timestamp: u64,
}

impl KernelLogger {
    /// Creates a logger over `ring_buffer`; its timestamps start at 0.
    pub fn new(ring_buffer: RingBuffer, serial_enabled: bool) -> (l: KernelLogger)
        ensures
            l.ring_buffer == ring_buffer,
            l.serial_enabled == serial_enabled,
            l.next_timestamp == 0,
    {
        KernelLogger { ring_buffer, serial_enabled, next_timestamp: 0 }
    }

    /// Reads the current timestamp: the counter's value, which then advances by
    /// one (wrapping).
    pub fn read_timestamp(&mut self) -> (t: u64)
        ensures
            t == old(self).next_timestamp,
            final(self).next_timestamp == old(self).next_timestamp.wrapping_add(1),
            final(self).ring_buffer == old(self).ring_buffer,
            final(self).serial_enabled == old(self).serial_enabled,
    {
        let t = self.next_timestamp;
        self.next_timestamp = t.wrapping_add(1);
        t
    }

    /// Logs a message: writes a `Log` entry with the message as payload to the
    /// ring buffer and returns the bytes for the serial console, which are the
    /// serial line when the write reported `false` (the buffer was full and lost
    /// its oldest entry, or refused the entry) or the level is `Warn` or
    /// worse (and serial output is enabled), and nothing otherwise.
    pub fn log(&mut self, level: Level, subsystem: Subsystem, message: &str) -> (out: Vec<u8>)
        requires
            old(self).ring_buffer.wf(),
        ensures
            final(self).ring_buffer.wf(),
            final(self).serial_enabled == old(self).serial_enabled,
            final(self).next_timestamp == old(self).next_timestamp.wrapping_add(1),
            exists|e: TelemetryEntry| {
                &&& logged_entry(e, old(self).next_timestamp, level, subsystem, EventType::Log)
                &&& #[trigger] spec_write(old(self).ring_buffer@, e, message.spec_bytes()).1
                    == final(self).ring_buffer@
                &&& out@ == if goes_to_serial(
                    old(self).serial_enabled,
                    spec_write(old(self).ring_buffer@, e, message.spec_bytes()).0,
                    level,
                ) {
                    serial_line(level, subsystem, message.spec_bytes())
                } else {
                    Seq::empty()
                }
            },
    {
        let ghost m: RingModel = self.ring_buffer@;
        let entry = TelemetryEntry {
            timestamp_ns: self.read_timestamp(),
            level,
            subsystem,
            event_type: EventType::Log,
            span_id: SpanId::none(),
            trace_id: TraceId::none(),
            parent_span_id: SpanId::none(),
            payload_len: 0,
        };
        let payload = message.as_bytes();
        let written = self.ring_buffer.try_write(&entry, payload);
        let mut out: Vec<u8> = Vec::new();
        if self.serial_enabled && (!written || level.severity() >= Level::Warn.severity()) {
            out = Self::write_serial(level, subsystem, message);
        }
        assert(logged_entry(entry, old(self).next_timestamp, level, subsystem, EventType::Log));
        assert(spec_write(m, entry, message.spec_bytes()).1 == self.ring_buffer@);
        out
    }

    /// Logs an event of the given type with a raw payload to the ring buffer;
    /// nothing goes to the serial console. Returns whether the buffer took it.
    pub fn log_event(
        &mut self,
        level: Level,
        subsystem: Subsystem,
        event_type: EventType,
        payload: &[u8],
    ) -> (written: bool)
        requires
            old(self).ring_buffer.wf(),
        ensures
            final(self).ring_buffer.wf(),
            final(self).serial_enabled == old(self).serial_enabled,
            final(self).next_timestamp == old(self).next_timestamp.wrapping_add(1),
            exists|e: TelemetryEntry| {
                &&& logged_entry(e, old(self).next_timestamp, level, subsystem, event_type)
                &&& #[trigger] spec_write(old(self).ring_buffer@, e, payload@)
                    == (written, final(self).ring_buffer@)
            },
    {
        let ghost m: RingModel = self.ring_buffer@;
        let entry = TelemetryEntry {
            timestamp_ns: self.read_timestamp(),
            level,
            subsystem,
            event_type,
            span_id: SpanId::none(),
            trace_id: TraceId::none(),
            parent_span_id: SpanId::none(),
            payload_len: 0,
        };
        let written = self.ring_buffer.try_write(&entry, payload);
        assert(logged_entry(entry, old(self).next_timestamp, level, subsystem, event_type));
        assert(spec_write(m, entry, payload@) == (written, self.ring_buffer@));
        written
    }

    /// The serial line for a message: `[LEVEL] subsystem: message` and a line break.
    pub fn write_serial(level: Level, subsystem: Subsystem, message: &str) -> (out: Vec<u8>)
        ensures
            out@ == serial_line(level, subsystem, message.spec_bytes()),
    {
        let mut out: Vec<u8> = Vec::new();
        push_encoded(&mut out, "[");
        push_encoded(&mut out, level.as_str());
        push_encoded(&mut out, "] ");
        push_encoded(&mut out, subsystem.as_str());
        push_encoded(&mut out, ": ");
        push_encoded(&mut out, message);
        push_encoded(&mut out, "\n");
        out
    }
}

} // verus!

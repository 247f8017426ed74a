use tardis::telemetry::config::{ConsoleOutput, TardisLayerConfig, TelemetryConfig};
use tardis::telemetry::level::Level;
use tardis::telemetry::meta::{EventType, Subsystem};
use tardis::telemetry::metrics::{Counter, Gauge, HistogramCounts};
use tardis::telemetry::ring_buffer::{RingBuffer, MAX_PAYLOAD_SIZE, RING_BUFFER_SIZE};
use tardis::telemetry::span::{EventData, SpanData};
use tardis::telemetry::store::TelemetryStore;
use tardis::telemetry::trace::{SpanId, TraceId};
use tardis::telemetry::wire::TelemetryEntry;

fn entry(timestamp_ns: u64, event_type: EventType, payload_len: u16) -> TelemetryEntry {
    TelemetryEntry {
        timestamp_ns,
        level: Level::Info,
        subsystem: Subsystem::Kernel,
        event_type,
        span_id: SpanId::none(),
        trace_id: TraceId::none(),
        parent_span_id: SpanId::none(),
        payload_len,
    }
}

#[test]
fn ring_buffer_write_read() {
    let mut buffer = RingBuffer::new();
    let e = entry(12345, EventType::Boot, 0);

    assert!(buffer.try_write(&e, b"test payload"));
    assert_eq!(buffer.available(), 1);

    let (read_entry, payload) = buffer.try_read().unwrap();
    assert_eq!(read_entry.timestamp_ns, 12345);
    assert_eq!(read_entry.level, Level::Info);
    assert_eq!(&payload, b"test payload");
    assert!(buffer.is_empty());
}

#[test]
fn ring_buffer_empty() {
    let mut buffer = RingBuffer::new();
    assert!(buffer.is_empty());
    assert!(buffer.try_read().is_none());
}

#[test]
fn ring_buffer_overwrite_protection() {
    let mut buffer = RingBuffer::new();

    // Fill buffer completely
    for i in 0..RING_BUFFER_SIZE {
        buffer.try_write(&entry(i as u64, EventType::Boot, 0), &[]);
    }

    // Write one more to overwrite index 0
    buffer.try_write(&entry(RING_BUFFER_SIZE as u64, EventType::Boot, 0), &[]);

    // Reading skips the overwritten entry and returns a valid one.
    if let Some((read_entry, _)) = buffer.try_read() {
        assert!(read_entry.timestamp_ns > 0);
    } else {
        panic!("Should have returned an entry");
    }
}

#[test]
fn ring_buffer_corrupted_header_safety() {
    let mut buffer = RingBuffer::new();

    buffer.try_write(&entry(1, EventType::Log, 10), &[1, 2, 3, 4, 5, 6, 7, 8, 9, 10]);

    // Corrupt the stored header to claim a huge payload.
    buffer.slots[0].entry.payload_len = 65535;

    if let Some((read_entry, payload)) = buffer.try_read() {
        assert_eq!(read_entry.payload_len, 65535);
        assert_eq!(payload.len(), MAX_PAYLOAD_SIZE);
    } else {
        panic!("Should have returned an entry");
    }
}

#[test]
fn ring_buffer_stuck_writer() {
    let mut buffer = RingBuffer::new();

    // 1. Write a normal entry
    buffer.try_write(&entry(1, EventType::Log, 0), &[]);

    // 2. Simulate a writer that claimed position 1 and never finished.
    buffer.write_pos += 1;
    buffer.slots[1].sequence = 3;

    // 3. Write another normal entry at slot 2
    buffer.try_write(&entry(3, EventType::Log, 0), &[]);

    // 4. Read slot 0
    let (read_entry, _) = buffer.try_read().expect("Should read slot 0");
    assert_eq!(read_entry.timestamp_ns, 1);

    // 5. Slot 1 is skipped and slot 2 is returned.
    let (read_entry2, _) = buffer.try_read().expect("Should return slot 2 after skipping slot 1");
    assert_eq!(read_entry2.timestamp_ns, 3);

    // Verify we dropped 1
    assert_eq!(buffer.dropped_count(), 1);
}

#[test]
fn available_wrapping_correctness() {
    let mut buffer = RingBuffer::new();

    // Case 1: Normal
    buffer.write_pos = 10;
    buffer.read_pos = 5;
    assert_eq!(buffer.available(), 5);

    // Case 2: Wrap around
    let max = usize::MAX;
    buffer.read_pos = max - 4;
    buffer.write_pos = 5;
    assert_eq!(buffer.available(), 10, "available() should handle wrapping arithmetic");
}

#[test]
fn ring_buffer_payload_is_capped() {
    let mut buffer = RingBuffer::new();
    let payload: Vec<u8> = (0..500u32).map(|i| (i % 251) as u8).collect();
    assert!(buffer.try_write(&entry(1, EventType::Log, 0), &payload));
    let (read_entry, read_payload) = buffer.try_read().unwrap();
    assert_eq!(read_payload.len(), MAX_PAYLOAD_SIZE);
    assert_eq!(&read_payload[..], &payload[..MAX_PAYLOAD_SIZE]);
    assert_eq!(read_entry.payload_len, MAX_PAYLOAD_SIZE as u16);
}

#[test]
fn ring_buffer_reads_in_write_order() {
    let mut buffer = RingBuffer::new();
    for i in 0..10u64 {
        assert!(buffer.try_write(&entry(i, EventType::Log, 0), &i.to_le_bytes()));
    }
    for i in 0..10u64 {
        let (e, p) = buffer.try_read().unwrap();
        assert_eq!(e.timestamp_ns, i);
        assert_eq!(p, i.to_le_bytes().to_vec());
    }
    assert!(buffer.try_read().is_none());
    assert_eq!(buffer.dropped_count(), 0);
}

#[test]
fn ring_buffer_reset_empties() {
    let mut buffer = RingBuffer::new();
    buffer.try_write(&entry(1, EventType::Log, 0), b"x");
    buffer.reset();
    assert!(buffer.is_empty());
    assert_eq!(buffer.dropped_count(), 0);
    assert!(buffer.try_read().is_none());
}

#[test]
fn ring_buffer_is_full_after_a_lap() {
    let mut buffer = RingBuffer::new();
    for i in 0..RING_BUFFER_SIZE {
        buffer.try_write(&entry(i as u64, EventType::Log, 0), &[]);
    }
    assert!(buffer.is_full());
    assert_eq!(buffer.available(), RING_BUFFER_SIZE);
}

#[test]
fn level_ordering() {
    assert!(Level::Trace < Level::Debug);
    assert!(Level::Debug < Level::Info);
    assert!(Level::Info < Level::Warn);
    assert!(Level::Warn < Level::Error);
}

#[test]
fn level_names_and_bytes() {
    assert_eq!(Level::Warn.as_str(), "WARN");
    assert_eq!(Level::Trace.severity(), 0);
    assert_eq!(Level::from(4u8), Level::Error);
    assert_eq!(Level::from(200u8), Level::Info);
    assert_eq!(Level::from(Level::Debug.severity()), Level::Debug);
}

#[test]
fn subsystem_from_target() {
    assert_eq!(Subsystem::from_target("tardis_vortex::inference"), Subsystem::Vortex);
    assert_eq!(Subsystem::from_target("tardis_gallifrey::stores"), Subsystem::Gallifrey);
    assert_eq!(Subsystem::from_target("memory::allocator"), Subsystem::Memory);
    assert_eq!(Subsystem::from_target("tardis_kernel::core"), Subsystem::Kernel);
    assert_eq!(Subsystem::from_target("random_crate"), Subsystem::Unknown);
}

#[test]
fn subsystem_from_target_comprehensive() {
    let cases = [
        ("kernel_panic", Subsystem::Kernel),
        ("memory_alloc", Subsystem::Memory),
        ("heap_allocator", Subsystem::Memory),
        ("scheduler_tick", Subsystem::Scheduler),
        ("process_manager", Subsystem::Scheduler),
        ("interrupt_handler", Subsystem::Interrupt),
        ("irq_controller", Subsystem::Interrupt),
        ("syscall_dispatch", Subsystem::Syscall),
        ("boot_loader", Subsystem::Boot),
        ("vortex_inference", Subsystem::Vortex),
        ("gallifrey_store", Subsystem::Gallifrey),
        ("chronos_rag", Subsystem::Chronos),
        ("shell_repl", Subsystem::Shell),
        ("tardis_cli", Subsystem::Shell),
        ("telemetry_drainer", Subsystem::Telemetry),
        ("unknown_module", Subsystem::Unknown),
    ];

    for (input, expected) in cases {
        assert_eq!(Subsystem::from_target(input), expected, "Failed for input: {input}");
    }
}

#[test]
fn subsystem_from_target_case_insensitive() {
    assert_eq!(Subsystem::from_target("KERNEL"), Subsystem::Kernel);
    assert_eq!(Subsystem::from_target("MeMoRy"), Subsystem::Memory);
    assert_eq!(Subsystem::from_target("VORtex"), Subsystem::Vortex);
}

#[test]
fn subsystem_precedence() {
    assert_eq!(Subsystem::from_target("kernel_memory"), Subsystem::Kernel);
    assert_eq!(Subsystem::from_target("telemetry_kernel"), Subsystem::Kernel);
}

#[test]
fn subsystem_and_event_codes_round_trip() {
    assert_eq!(Subsystem::from(Subsystem::Chronos.code()), Subsystem::Chronos);
    assert_eq!(Subsystem::from(9999u16), Subsystem::Unknown);
    assert_eq!(EventType::from(EventType::SpanEnd.code()), EventType::SpanEnd);
    assert_eq!(Subsystem::Scheduler.as_str(), "scheduler");
}

#[test]
fn trace_id_display() {
    let id = TraceId::from_bytes([
        0x01, 0x23, 0x45, 0x67, 0x89, 0xab, 0xcd, 0xef, 0x01, 0x23, 0x45, 0x67, 0x89, 0xab, 0xcd,
        0xef,
    ]);
    assert_eq!(id.to_string(), "0123456789abcdef0123456789abcdef");
}

#[test]
fn span_id_display() {
    let id = SpanId::from_bytes([0x01, 0x23, 0x45, 0x67, 0x89, 0xab, 0xcd, 0xef]);
    assert_eq!(id.to_string(), "0123456789abcdef");
}

#[test]
fn ids_none_and_comparison() {
    assert!(TraceId::none().is_none());
    assert!(SpanId::none().is_none());
    let a = SpanId::generate(7);
    let b = SpanId::generate(7);
    let c = SpanId::generate(8);
    assert!(a.same_as(&b));
    assert!(!a.same_as(&c));
    assert!(!a.is_none());
    assert_eq!(SpanId::generate(1).to_string(), "0100000000000000");
    let t = TraceId::from_time_and_count(0x0102, 3);
    assert_eq!(t.to_string(), "02010000000000000300000000000000");
}

#[test]
fn counter_operations() {
    let mut counter = Counter::new("test_counter", Subsystem::Kernel);
    assert_eq!(counter.get(), 0);

    counter.inc();
    assert_eq!(counter.get(), 1);

    counter.add(10);
    assert_eq!(counter.get(), 11);

    counter.reset();
    assert_eq!(counter.get(), 0);
}

#[test]
fn gauge_operations() {
    let mut gauge = Gauge::new("test_gauge", Subsystem::Kernel);
    assert_eq!(gauge.get(), 0);

    gauge.set(42);
    assert_eq!(gauge.get(), 42);

    gauge.inc();
    assert_eq!(gauge.get(), 43);

    gauge.dec();
    assert_eq!(gauge.get(), 42);

    gauge.add(10);
    assert_eq!(gauge.get(), 52);

    gauge.sub(5);
    assert_eq!(gauge.get(), 47);
}

#[test]
fn counter_wraps_like_an_atomic() {
    let mut counter = Counter::new("wrap", Subsystem::Kernel);
    counter.add(u64::MAX);
    counter.inc();
    assert_eq!(counter.get(), 0);
}

#[test]
fn histogram_counts_cumulative() {
    // Boundaries 1, 5, 10: 2 and 3 fall in the second bucket, 7 in the third.
    let mut h = HistogramCounts::new(3);
    h.record(2, Some(1));
    h.record(7, Some(2));
    h.record(3, Some(1));
    assert_eq!(h.count(), 3);
    assert_eq!(h.sum(), 12);
    assert_eq!(h.cumulative(), vec![0, 2, 3]);
    h.record(100, None);
    assert_eq!(h.cumulative(), vec![0, 2, 3]);
    assert_eq!(h.count(), 4);
    h.reset();
    assert_eq!(h.cumulative(), vec![0, 0, 0]);
    assert_eq!(h.sum(), 0);
}

#[test]
fn config_defaults() {
    let config = TelemetryConfig::default();
    assert!(config.gallifrey_enabled);
    assert!(!config.otlp_enabled);
    assert!(config.console_enabled);
}

#[test]
fn config_with_otlp() {
    let config = TelemetryConfig::with_otlp("http://localhost:4317");
    assert!(config.otlp_enabled);
    assert_eq!(config.otlp_endpoint, Some("http://localhost:4317".to_string()));
}

#[test]
fn config_plan_follows_configuration() {
    let mut config = TelemetryConfig::minimal();
    config.json_output = true;
    let plan = config.subscriber_plan();
    assert!(!plan.gallifrey_store);
    assert!(!plan.otlp_export);
    assert_eq!(plan.console, ConsoleOutput::Json);
    config.console_enabled = false;
    assert_eq!(config.console_output(), ConsoleOutput::Off);
    assert_eq!(TelemetryConfig::default().console_output(), ConsoleOutput::Plain);
}

#[test]
fn layer_records_from_min_level() {
    let layer = TardisLayerConfig::default();
    assert!(!layer.records(Level::Debug));
    assert!(layer.records(Level::Info));
    assert!(layer.records(Level::Error));
}

fn span(span_byte: u8, trace_byte: u8, name: &str, start: i64, end: Option<i64>) -> SpanData {
    SpanData {
        trace_id: TraceId::from_bytes([trace_byte; 16]),
        span_id: SpanId::from_bytes([span_byte; 8]),
        parent_id: None,
        name: name.to_string(),
        subsystem: Subsystem::Vortex,
        start_time_ns: start,
        end_time_ns: end,
        attributes: Vec::new(),
        level: Level::Info,
    }
}

const HOUR_NS: i64 = 3_600_000_000_000;

#[test]
fn spans_at_time() {
    let mut store = TelemetryStore::new();

    let now: i64 = 1_700_000_000_000_000_000;
    let past = now - HOUR_NS;
    let future = now + HOUR_NS;

    store.record_span(span(1, 1, "active_span", past, Some(future)));

    let active = store.spans_at(now, None);
    assert_eq!(active.len(), 1);
    assert_eq!(active[0].data.name, "active_span");
}

#[test]
fn store_and_retrieve_span() {
    let mut store = TelemetryStore::new();
    let s = span(2, 1, "test_span", 10, Some(20));
    let span_id = s.span_id;
    let entity = store.record_span(s);
    let retrieved = store.get_span(span_id).unwrap();
    assert_eq!(retrieved.data.name, "test_span");
    assert_eq!(retrieved.entity_id, entity);
    assert!(store.get_span(SpanId::from_bytes([9; 8])).is_none());
}

#[test]
fn store_trace_spans_and_replacement() {
    let mut store = TelemetryStore::new();
    let e1 = store.record_span(span(1, 7, "a", 0, Some(5)));
    let e2 = store.record_span(span(2, 7, "b", 3, Some(9)));
    assert_eq!(e2, e1 + 1);
    store.record_span(span(3, 8, "c", 0, None));
    let trace = store.get_trace_spans(TraceId::from_bytes([7; 16]));
    let names: Vec<&str> = trace.iter().map(|s| s.data.name.as_str()).collect();
    assert_eq!(names, vec!["a", "b"]);
    // Recording the same span ID again replaces the span; the trace lists it once.
    store.record_span(span(1, 7, "a2", 0, Some(5)));
    assert_eq!(store.span_count(), 3);
    let trace = store.get_trace_spans(TraceId::from_bytes([7; 16]));
    let names: Vec<&str> = trace.iter().map(|s| s.data.name.as_str()).collect();
    assert_eq!(names, vec!["a2", "b"]);
    // A span re-recorded under another trace belongs to that trace only.
    store.record_span(span(2, 8, "b2", 3, Some(9)));
    let trace = store.get_trace_spans(TraceId::from_bytes([7; 16]));
    let names: Vec<&str> = trace.iter().map(|s| s.data.name.as_str()).collect();
    assert_eq!(names, vec!["a2"]);
    let trace = store.get_trace_spans(TraceId::from_bytes([8; 16]));
    let names: Vec<&str> = trace.iter().map(|s| s.data.name.as_str()).collect();
    assert_eq!(names, vec!["b2", "c"]);
    assert!(store.get_trace_spans(TraceId::from_bytes([5; 16])).is_empty());
}

#[test]
fn store_range_queries() {
    let mut store = TelemetryStore::new();
    store.record_span(span(1, 1, "early", 0, Some(10)));
    store.record_span(span(2, 1, "late", 20, Some(30)));
    store.record_span(span(3, 1, "open", 25, None));
    let names = |v: Vec<tardis::telemetry::store::StoredSpan>| -> Vec<String> {
        v.into_iter().map(|s| s.data.name).collect()
    };
    assert_eq!(names(store.spans_overlapping(5, 15, 100)), vec!["early"]);
    assert_eq!(names(store.spans_overlapping(10, 20, 100)), vec!["early", "late"]);
    assert_eq!(names(store.spans_active_at(40, 100)), vec!["open"]);
    assert_eq!(names(store.spans_active_at(40, 30)), Vec::<String>::new());
    assert_eq!(names(store.spans_overlapping(12, 12, 100)), names(store.spans_active_at(12, 100)));
}

fn event(ts: i64, message: &str) -> EventData {
    EventData {
        span_id: None,
        trace_id: TraceId::none(),
        timestamp_ns: ts,
        level: Level::Warn,
        message: message.to_string(),
        fields: vec![("k".to_string(), "v".to_string())],
        subsystem: Subsystem::Kernel,
    }
}

#[test]
fn store_events_and_context() {
    let mut store = TelemetryStore::new();
    store.record_event(event(1_000_000, "one"));
    store.record_event(event(5_000_000, "five"));
    store.record_span(span(1, 1, "s", 4_000_000, Some(4_500_000)));
    assert_eq!(store.event_count(), 2);
    let found = store.events_in_range(0, 2_000_000);
    assert_eq!(found.len(), 1);
    assert_eq!(found[0].data.message, "one");
    assert_eq!(found[0].data.fields, vec![("k".to_string(), "v".to_string())]);
    let ctx = store.context_at(4_000_000, 1, 0);
    assert_eq!(ctx.start(), 3_000_000);
    assert_eq!(ctx.end(), 5_000_000);
    assert_eq!(ctx.events.len(), 1);
    assert_eq!(ctx.spans.len(), 1);
    assert_eq!(ctx.len(), 2);
    assert!(!ctx.is_empty());
    store.clear();
    assert_eq!(store.span_count(), 0);
    assert_eq!(store.event_count(), 0);
    assert!(store.context_around(4_000_000, 1).is_empty());
}

#[test]
fn ring_buffer_full_write_reports_false_and_counts_one_drop() {
    let mut buffer = RingBuffer::new();
    for i in 0..RING_BUFFER_SIZE {
        assert!(buffer.try_write(&entry(i as u64, EventType::Log, 0), &[]));
    }
    assert_eq!(buffer.dropped_count(), 0);
    assert!(!buffer.try_write(&entry(RING_BUFFER_SIZE as u64, EventType::Log, 0), &[]));
    assert_eq!(buffer.dropped_count(), 1);
    assert_eq!(buffer.available(), RING_BUFFER_SIZE);
    let (first, _) = buffer.try_read().unwrap();
    assert_eq!(first.timestamp_ns, 1);
    assert_eq!(buffer.dropped_count(), 1);
    let mut last = first.timestamp_ns;
    while let Some((e, _)) = buffer.try_read() {
        assert_eq!(e.timestamp_ns, last + 1);
        last = e.timestamp_ns;
    }
    assert_eq!(last, RING_BUFFER_SIZE as u64);
    assert_eq!(buffer.dropped_count(), 1);
}

#[test]
fn subsystem_names_parse_back() {
    let all = [
        Subsystem::Kernel, Subsystem::Memory, Subsystem::Scheduler, Subsystem::Interrupt,
        Subsystem::Syscall, Subsystem::Boot, Subsystem::Vortex, Subsystem::Gallifrey,
        Subsystem::Chronos, Subsystem::Shell, Subsystem::Telemetry, Subsystem::Unknown,
    ];
    for s in all {
        assert_eq!(Subsystem::from_target(s.as_str()), s);
    }
}

#[test]
fn event_type_names_are_distinct() {
    let mut types: Vec<EventType> = Vec::new();
    for code in 0u16..=600 {
        let e = EventType::from(code);
        if !types.contains(&e) {
            types.push(e);
        }
    }
    assert_eq!(types.len(), 31);
    let mut names: Vec<&str> = types.iter().map(|e| e.as_str()).collect();
    names.sort();
    names.dedup();
    assert_eq!(names.len(), types.len());
}

#[test]
fn ids_are_their_bytes() {
    let t = TraceId::from_bytes([3; 16]);
    assert_eq!(TraceId::from_bytes(*t.as_bytes()), t);
    let s = SpanId::from_bytes([4; 8]);
    assert_eq!(SpanId::from_bytes(*s.as_bytes()), s);
}

#[test]
fn counter_and_gauge_keep_name_and_subsystem() {
    let c = Counter::new("requests", Subsystem::Vortex);
    assert_eq!(c.name, "requests");
    assert_eq!(c.subsystem, Subsystem::Vortex);
    let g = Gauge::new("depth", Subsystem::Kernel);
    assert_eq!(g.name, "depth");
    assert_eq!(g.subsystem, Subsystem::Kernel);
}

#[test]
fn event_type_names_are_snake_case() {
    for code in 0u16..=600 {
        let name = EventType::from(code).as_str();
        assert!(!name.is_empty());
        assert!(name.chars().all(|c| c.is_ascii_lowercase() || c == '_'));
    }
}

#[test]
fn store_keeps_one_record_per_span_id() {
    let mut store = TelemetryStore::new();
    store.record_span(span(1, 7, "a", 0, Some(1)));
    store.record_span(span(2, 7, "b", 0, Some(1)));
    store.record_span(span(1, 7, "a again", 0, Some(1)));
    store.record_span(span(3, 7, "c", 0, Some(1)));
    let names: Vec<String> = store
        .get_trace_spans(TraceId::from_bytes([7; 16]))
        .iter()
        .map(|s| s.data.name.clone())
        .collect();
    assert_eq!(names, vec!["a again", "b", "c"]);
}

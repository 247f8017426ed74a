use tardis::telemetry::batch::Batcher;
use tardis::telemetry::config::{BatchConfig, DrainerConfig, OtlpConfig, TelemetryConfig};
use tardis::telemetry::trace::SpanId;
use tardis::vortex::error::VortexError;
use tardis::vortex::loader::hub::{missing_weights_error, model_file_failure, model_file_names, ModelPreset};
use tardis::telemetry::drain::kernel_event_message;
use tardis::telemetry::level::Level;
use tardis::telemetry::logger::KernelLogger;
use tardis::telemetry::meta::{EventType, Subsystem};
use tardis::telemetry::query::TelemetryQuery;
use tardis::telemetry::ring_buffer::RingBuffer;
use tardis::telemetry::serial::{decimal_u32, encode_line, encode_panic, encode_str};
use tardis::telemetry::trace::TraceId;
use tardis::text::with_decimal;
use tardis::vortex::tokenizer::service::prepend_bos;

#[test]
fn logger_writes_to_ring_and_serial() {
    let mut logger = KernelLogger::new(RingBuffer::new(), true);
    // Info goes to the ring buffer only.
    let out = logger.log(Level::Info, Subsystem::Memory, "page mapped");
    assert!(out.is_empty());
    // Warnings also go to the serial console.
    let out = logger.log(Level::Warn, Subsystem::Memory, "low memory");
    assert_eq!(out, b"[WARN] memory: low memory\r\n".to_vec());
    let (e1, p1) = logger.ring_buffer.try_read().unwrap();
    assert_eq!(e1.timestamp_ns, 0);
    assert_eq!(e1.event_type, EventType::Log);
    assert_eq!(e1.payload_len, 11);
    assert_eq!(p1, b"page mapped".to_vec());
    let (e2, _) = logger.ring_buffer.try_read().unwrap();
    assert_eq!(e2.timestamp_ns, 1);
    assert_eq!(e2.level, Level::Warn);
}

#[test]
fn logger_without_serial_is_silent() {
    let mut logger = KernelLogger::new(RingBuffer::new(), false);
    assert!(logger.log(Level::Error, Subsystem::Kernel, "boom").is_empty());
    assert!(logger.log_event(Level::Info, Subsystem::Boot, EventType::Boot, &[1, 2]));
    assert_eq!(logger.ring_buffer.available(), 2);
    assert_eq!(logger.read_timestamp(), 2);
}

#[test]
fn logger_falls_back_to_serial_when_the_buffer_refuses() {
    let mut logger = KernelLogger::new(RingBuffer::new(), true);
    // A writer is stuck on the slot the next write claims.
    logger.ring_buffer.slots[0].sequence = 1;
    let out = logger.log(Level::Debug, Subsystem::Shell, "a\nb");
    assert_eq!(out, b"[DEBUG] shell: a\r\nb\r\n".to_vec());
    assert_eq!(logger.ring_buffer.dropped_count(), 1);
}

#[test]
fn serial_encodings() {
    assert_eq!(encode_str("a\nb"), b"a\r\nb".to_vec());
    assert_eq!(encode_line("boot", "ok"), b"boot: ok\r\n".to_vec());
    assert_eq!(decimal_u32(0), b"0".to_vec());
    assert_eq!(decimal_u32(4_294_967_295), b"4294967295".to_vec());
    assert_eq!(
        encode_panic("oops", "main.rs", 42),
        b"\r\n!!! KERNEL PANIC !!!\r\nMessage: oops\r\nLocation: main.rs:42\r\n\r\n".to_vec()
    );
}

#[test]
fn batcher_flushes_by_size_tick_and_close() {
    let mut b: Batcher<u32> = Batcher::new(2);
    assert_eq!(b.on_item(1), None);
    assert_eq!(b.on_item(2), Some(vec![1, 2]));
    assert_eq!(b.on_tick(), None);
    assert_eq!(b.on_item(3), None);
    assert_eq!(b.on_tick(), Some(vec![3]));
    assert_eq!(b.on_item(4), None);
    assert_eq!(b.finish(), Some(vec![4]));
}

#[test]
fn kernel_messages() {
    assert_eq!(kernel_event_message(b"hello"), "[kernel] hello");
    assert_eq!(kernel_event_message(&[0xff, 0xfe]), "[kernel] <binary>");
    assert_eq!(kernel_event_message("héllo".as_bytes()), "[kernel] héllo");
}

#[test]
fn query_builder() {
    let q = TelemetryQuery::new().with_trace_id(TraceId::none()).in_range(1, 2).limit(5).with_history();
    assert!(q.trace_id.is_some());
    assert_eq!(q.time_range, Some((1, 2)));
    assert_eq!(q.limit, Some(5));
    assert!(q.include_history);
    assert!(q.span_id.is_none());
    assert!(q.valid_at(7).valid_at == Some(7));
}

#[test]
fn bos_is_added_once() {
    assert_eq!(prepend_bos(vec![5, 6], Some(1)), vec![1, 5, 6]);
    assert_eq!(prepend_bos(vec![1, 5], Some(1)), vec![1, 5]);
    assert_eq!(prepend_bos(vec![], Some(1)), vec![1]);
    assert_eq!(prepend_bos(vec![5], None), vec![5]);
    assert_eq!(prepend_bos(prepend_bos(vec![5], Some(1)), Some(1)), vec![1, 5]);
}

#[test]
fn decimal_text() {
    assert_eq!(with_decimal("handle ", 0), "handle 0");
    assert_eq!(with_decimal("", 18_446_744_073_709_551_615), "18446744073709551615");
}

#[test]
fn otlp_config_builders() {
    let c = OtlpConfig::new("http://collector:4317")
        .with_batch_size(64)
        .with_flush_interval(std::time::Duration::from_millis(250))
        .with_header("authorization", "token")
        .with_header("x-team", "tardis");
    assert_eq!(c.endpoint, "http://collector:4317");
    assert_eq!(c.batch_size, 64);
    assert_eq!(c.flush_interval, std::time::Duration::from_millis(250));
    assert_eq!(c.timeout, std::time::Duration::from_secs(10));
    assert_eq!(
        c.headers,
        vec![("authorization".to_string(), "token".to_string()), ("x-team".to_string(), "tardis".to_string())]
    );
    assert_eq!(OtlpConfig::default().endpoint, "http://localhost:4317");
}

#[test]
fn config_constructors() {
    let g = TelemetryConfig::with_gallifrey();
    assert!(g.gallifrey_enabled);
    assert_eq!(g.otlp_batch_size, 512);
    let m = TelemetryConfig::minimal();
    assert!(!m.gallifrey_enabled);
    assert!(m.console_enabled);
    assert_eq!(DrainerConfig::default().batch_size, 100);
    assert_eq!(DrainerConfig::default().poll_interval, std::time::Duration::from_millis(10));
    assert_eq!(BatchConfig::default().max_size, 512);
    assert_eq!(BatchConfig::default().max_delay, std::time::Duration::from_secs(5));
}

#[test]
fn presets_and_download_rules() {
    assert_eq!(ModelPreset::Phi2.estimated_size_bytes(), 5_600_000_000);
    assert_eq!(ModelPreset::SmolLm360M.display_name(), "SmolLM 360M");
    assert_eq!(model_file_names(), vec!["config.json", "tokenizer.json", "tokenizer_config.json"]);
    assert!(model_file_failure("tokenizer_config.json", "404").is_none());
    match model_file_failure("config.json", "404") {
        Some(VortexError::LoadFailed(m)) => assert_eq!(m, "Failed to download config.json: 404"),
        _ => panic!("expected a load error"),
    }
    match missing_weights_error(true) {
        VortexError::LoadFailed(m) => assert!(m.starts_with("Model only has PyTorch format")),
        _ => panic!("expected a load error"),
    }
}

#[test]
fn query_span_filter() {
    let q = TelemetryQuery::new().with_span_id(SpanId::from_bytes([1; 8])).transaction_at(3);
    assert!(q.span_id.unwrap().same_as(&SpanId::from_bytes([1; 8])));
    assert_eq!(q.transaction_at, Some(3));
}

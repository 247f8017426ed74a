# tardis

Telemetry and LLM-inference support for the Tardis system, with the logic
verified by Verus.

- `src/telemetry`: severity levels, subsystems and event types, trace and span
  identifiers, the kernel ring buffer and logger, serial-console encoding,
  counters, gauges and histogram counts, configuration of the tracing stack,
  batching for the exporters, span and event records and the temporal
  telemetry store.
- `src/vortex`: the model registry, model configuration arithmetic, device
  specifications, weight-file selection and format detection, quantization
  names, model presets and download rules, chat templates, the tokenizer
  service and the engine's bookkeeping.
- `src/text.rs`, `src/assoc.rs`: string helpers and association lists shared
  by both.
- `app/`: the runtime around the library — serial port I/O, the global kernel
  logger, the `tracing` layer and subscriber, async export loops, the metrics
  registry, the shared store, and model loading with candle and the
  HuggingFace Hub.
- `tests/`: tests of the library.

//! Configuration records of the telemetry stack: the subscriber, the tracing layer,
//! the ring-buffer drainer and the exporters.

use vstd::prelude::*;
use std::time::Duration;
use crate::telemetry::level::{Level, level_severity};
use crate::text::to_owned_string;

verus! {

/// A duration of the given number of milliseconds.
///
/// Calls `Duration::from_millis`. Nothing is stated of the result: the duration type
/// is opaque to the verifier.
#[verifier::external_body]
fn millis(ms: u64) -> Duration {
    Duration::from_millis(ms)
}

/// Clones an optional string.
fn clone_opt_string(s: &Option<String>) -> (r: Option<String>)
    ensures
        r == *s,
{
    match s {
        Some(v) => Some(v.clone()),
        None => None,
    }
}

/// Configuration for the telemetry system.
#[derive(Debug)]
pub struct TelemetryConfig {
    /// Enable Gallifrey storage for temporal queries.
    pub gallifrey_enabled: bool,
    /// Enable OpenTelemetry export.
    pub otlp_enabled: bool,
    /// OTLP endpoint URL.
    pub otlp_endpoint: Option<String>,
    /// OTLP batch size.
    pub otlp_batch_size: usize,
    /// Minimum level to record.
    pub min_level: Level,
    /// Enable console output.
    pub console_enabled: bool,
    /// Enable JSON formatting for console output.
    pub json_output: bool,
    /// Custom env filter directive.
    pub env_filter: Option<String>,
}

/// The default telemetry configuration: Gallifrey storage and console output on,
/// OTLP export off (batch size 512), minimum level `Info`, plain-text output, no
/// custom filter.
pub open spec fn is_default_telemetry_config(c: TelemetryConfig) -> bool {
    &&& c.gallifrey_enabled
    &&& !c.otlp_enabled
    &&& c.otlp_endpoint is None
    &&& c.otlp_batch_size == 512
    &&& c.min_level == Level::Info
    &&& c.console_enabled
    &&& !c.json_output
    &&& c.env_filter is None
}

impl Clone for TelemetryConfig {
    fn clone(&self) -> (c: TelemetryConfig)
        ensures
            c == *self,
    {
        TelemetryConfig {
            gallifrey_enabled: self.gallifrey_enabled,
            otlp_enabled: self.otlp_enabled,
            otlp_endpoint: clone_opt_string(&self.otlp_endpoint),
            otlp_batch_size: self.otlp_batch_size,
            min_level: self.min_level,
            console_enabled: self.console_enabled,
            json_output: self.json_output,
            env_filter: clone_opt_string(&self.env_filter),
        }
    }
}

impl Default for TelemetryConfig {
    fn default() -> (c: TelemetryConfig)
        ensures
            is_default_telemetry_config(c),
    {
        TelemetryConfig {
            gallifrey_enabled: true,
            otlp_enabled: false,
            otlp_endpoint: None,
            otlp_batch_size: 512,
            min_level: Level::Info,
            console_enabled: true,
            json_output: false,
            env_filter: None,
        }
    }
}

impl TelemetryConfig {
    /// A configuration with Gallifrey storage enabled (the defaults otherwise).
    pub fn with_gallifrey() -> (c: TelemetryConfig)
        ensures
            is_default_telemetry_config(c),
            c.gallifrey_enabled,
    {
        TelemetryConfig { gallifrey_enabled: true, ..TelemetryConfig::default() }
    }

    /// A configuration with OTLP export to `endpoint` enabled (the defaults otherwise).
    pub fn with_otlp(endpoint: &str) -> (c: TelemetryConfig)
        ensures
            c.otlp_enabled,
            c.otlp_endpoint is Some && c.otlp_endpoint->Some_0@ == endpoint@,
            is_default_telemetry_config(TelemetryConfig { otlp_enabled: false, otlp_endpoint: None, ..c }),
    {
        TelemetryConfig {
            otlp_enabled: true,
            otlp_endpoint: Some(to_owned_string(endpoint)),
            ..TelemetryConfig::default()
        }
    }

    /// A minimal configuration: no storage, no export, console output on.
    pub fn minimal() -> (c: TelemetryConfig)
        ensures
            !c.gallifrey_enabled,
            !c.otlp_enabled,
            c.console_enabled,
            is_default_telemetry_config(TelemetryConfig { gallifrey_enabled: true, ..c }),
    {
        TelemetryConfig {
            gallifrey_enabled: false,
            otlp_enabled: false,
            console_enabled: true,
            ..TelemetryConfig::default()
        }
    }
}

/// Configuration for the tracing layer.
#[derive(Debug, Clone, Copy)]
pub struct TardisLayerConfig {
    /// Enable storage to Gallifrey.
    pub gallifrey_enabled: bool,
    /// Enable OTLP export.
    pub otlp_enabled: bool,
    /// Minimum level to record.
    pub min_level: Level,
}

impl TardisLayerConfig {
    /// Whether a span or event at `level` is recorded: when its level is at
    /// least the minimum level.
    pub fn records(&self, level: Level) -> (r: bool)
        ensures
            r == (level_severity(level) >= level_severity(self.min_level)),
    {
        level.severity() >= self.min_level.severity()
    }
}

/// How the subscriber writes to the console.
#[derive(Debug, Clone, Copy, PartialEq, Eq, Structural)]
pub enum ConsoleOutput {
    /// No console output.
    Off,
    /// Human-readable lines.
    Plain,
    /// JSON lines.
    Json,
}

/// What the telemetry stack is built from a configuration: which parts run and
/// how they are set up.
#[derive(Debug)]
pub struct SubscriberPlan {
    /// Whether a Gallifrey store is created and given to the layer.
    pub gallifrey_store: bool,
    /// Whether an OTLP export channel is created and given to the layer.
    pub otlp_export: bool,
    /// The tracing layer's configuration.
    pub layer: TardisLayerConfig,
    /// The custom filter directive; `None` means the environment's filter with
    /// `tardis=debug` added.
    pub env_filter: Option<String>,
    /// The console layer.
    pub console: ConsoleOutput,
}

impl TelemetryConfig {
    /// The tracing layer's configuration: storage, export and minimum level as
    /// configured.
    pub fn layer_config(&self) -> (c: TardisLayerConfig)
        ensures
            c.gallifrey_enabled == self.gallifrey_enabled,
            c.otlp_enabled == self.otlp_enabled,
            c.min_level == self.min_level,
    {
        TardisLayerConfig {
            gallifrey_enabled: self.gallifrey_enabled,
            otlp_enabled: self.otlp_enabled,
            min_level: self.min_level,
        }
    }

    /// The console output: off unless enabled, JSON if asked for, plain otherwise.
    pub fn console_output(&self) -> (o: ConsoleOutput)
        ensures
            o == (if !self.console_enabled {
                ConsoleOutput::Off
            } else if self.json_output {
                ConsoleOutput::Json
            } else {
                ConsoleOutput::Plain
            }),
    {
        if !self.console_enabled {
            ConsoleOutput::Off
        } else if self.json_output {
            ConsoleOutput::Json
        } else {
            ConsoleOutput::Plain
        }
    }

    /// What `init` builds for this configuration.
    pub fn subscriber_plan(&self) -> (p: SubscriberPlan)
        ensures
            p.gallifrey_store == self.gallifrey_enabled,
            p.otlp_export == self.otlp_enabled,
            p.layer.gallifrey_enabled == self.gallifrey_enabled,
            p.layer.otlp_enabled == self.otlp_enabled,
            p.layer.min_level == self.min_level,
            p.env_filter == self.env_filter,
            p.console == (if !self.console_enabled {
                ConsoleOutput::Off
            } else if self.json_output {
                ConsoleOutput::Json
            } else {
                ConsoleOutput::Plain
            }),
    {
        SubscriberPlan {
            gallifrey_store: self.gallifrey_enabled,
            otlp_export: self.otlp_enabled,
            layer: self.layer_config(),
            env_filter: clone_opt_string(&self.env_filter),
            console: self.console_output(),
        }
    }
}

impl Default for TardisLayerConfig {
    /// Storage on, export off, minimum level `Info`.
    fn default() -> (c: TardisLayerConfig)
        ensures
            c.gallifrey_enabled,
            !c.otlp_enabled,
            c.min_level == Level::Info,
    {
        TardisLayerConfig { gallifrey_enabled: true, otlp_enabled: false, min_level: Level::Info }
    }
}

/// Configuration for the ring buffer drainer.
#[derive(Debug, Clone, Copy)]
pub struct DrainerConfig {
    /// How often to poll the ring buffer.
    pub poll_interval: Duration,
    /// Maximum entries to process per poll.
    pub batch_size: usize,
}

impl Default for DrainerConfig {
    /// Poll every 10 ms, up to 100 entries per poll.
    fn default() -> (c: DrainerConfig)
        ensures
            c.batch_size == 100,
    {
        DrainerConfig { poll_interval: millis(10), batch_size: 100 }
    }
}

/// Configuration for the batch processor.
#[derive(Debug, Clone, Copy)]
pub struct BatchConfig {
    /// Maximum batch size.
    pub max_size: usize,
    /// Maximum time to wait before flushing.
    pub max_delay: Duration,
}

impl Default for BatchConfig {
    /// Batches of up to 512 items, flushed at least every 5 s.
    fn default() -> (c: BatchConfig)
        ensures
            c.max_size == 512,
    {
        BatchConfig { max_size: 512, max_delay: millis(5000) }
    }
}

/// Configuration for the OTLP exporter.
#[derive(Debug)]
pub struct OtlpConfig {
    /// OTLP endpoint URL.
    pub endpoint: String,
    /// Maximum batch size before flushing.
    pub batch_size: usize,
    /// Maximum time to wait before flushing.
    pub flush_interval: Duration,
    /// Request timeout.
    pub timeout: Duration,
    /// Optional headers to include in requests.
    pub headers: Vec<(String, String)>,
}

impl Clone for OtlpConfig {
    fn clone(&self) -> (c: OtlpConfig)
        ensures
            c.endpoint == self.endpoint,
            c.batch_size == self.batch_size,
            c.flush_interval == self.flush_interval,
            c.timeout == self.timeout,
            c.headers@ == self.headers@,
    {
        let mut headers: Vec<(String, String)> = Vec::new();
        let n = self.headers.len();
        let mut i: usize = 0;
        while i < n
            invariant
                n == self.headers@.len(),
                i <= n,
                headers@ =~= self.headers@.take(i as int),
            decreases n - i,
        {
            let (k, v) = &self.headers[i];
            headers.push((k.clone(), v.clone()));
            proof {
                assert(self.headers@.take(i + 1) =~= self.headers@.take(i as int).push(self.headers@[i as int]));
            }
            i = i + 1;
        }
        proof {
            assert(self.headers@.take(n as int) =~= self.headers@);
        }
        OtlpConfig {
            endpoint: self.endpoint.clone(),
            batch_size: self.batch_size,
            flush_interval: self.flush_interval,
            timeout: self.timeout,
            headers,
        }
    }
}

impl Default for OtlpConfig {
    /// Endpoint `http://localhost:4317`, batches of 512, flush every 5 s, 10 s
    /// timeout, no headers.
    fn default() -> (c: OtlpConfig)
        ensures
            c.endpoint@ == "http://localhost:4317"@,
            c.batch_size == 512,
            c.headers@.len() == 0,
    {
        OtlpConfig {
            endpoint: to_owned_string("http://localhost:4317"),
            batch_size: 512,
            flush_interval: millis(5000),
            timeout: millis(10000),
            headers: Vec::new(),
        }
    }
}

impl OtlpConfig {
    /// A configuration for the given endpoint (the defaults otherwise).
    pub fn new(endpoint: &str) -> (c: OtlpConfig)
        ensures
            c.endpoint@ == endpoint@,
            c.batch_size == 512,
            c.headers@.len() == 0,
    {
        OtlpConfig { endpoint: to_owned_string(endpoint), ..OtlpConfig::default() }
    }

    /// Sets the batch size.
    pub fn with_batch_size(self, size: usize) -> (c: OtlpConfig)
        ensures
            c == (OtlpConfig { batch_size: size, ..self }),
    {
        OtlpConfig { batch_size: size, ..self }
    }

    /// Sets the flush interval.
    pub fn with_flush_interval(self, interval: Duration) -> (c: OtlpConfig)
        ensures
            c == (OtlpConfig { flush_interval: interval, ..self }),
    {
        OtlpConfig { flush_interval: interval, ..self }
    }

    /// Adds a header at the end of the header list.
    pub fn with_header(self, key: &str, value: &str) -> (c: OtlpConfig)
        ensures
            c.endpoint == self.endpoint,
            c.batch_size == self.batch_size,
            c.flush_interval == self.flush_interval,
            c.timeout == self.timeout,
            c.headers@.len() == self.headers@.len() + 1,
            forall|i: int| 0 <= i < self.headers@.len() ==> c.headers@[i] == self.headers@[i],
            c.headers@.last().0@ == key@,
            c.headers@.last().1@ == value@,
    {
        let mut c = self;
        c.headers.push((to_owned_string(key), to_owned_string(value)));
        c
    }
}

} // verus!

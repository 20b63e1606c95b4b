//! Prometheus metrics exporter with hot reload, as a verified core.
//!
//! Every component is a sequential state machine over plain values: the
//! snapshot buffer pair, the completion signal, the refresh loop and the
//! endpoint manager. Each step is one short call, so a caller that shares
//! the state between tasks holds its lock only for the length of a step
//! and performs the waiting, binding and serving that a step asks for.

pub mod buffers;
pub mod config;
pub mod exporter;
pub mod formatter;
pub mod handle;
pub mod signal;
pub mod writer;

pub use crate::buffers::{Buffers, MetricsBuffer, BUFFER_COUNT};
pub use crate::config::{
    deserialize, normalize_metrics_path, serialize, Config, ConfigError, IpAddress,
    ListenAddress, MetricsPath,
};
pub use crate::exporter::{
    create_exporter, MetricsExporter, ReloadAction, ReloadError, ReloadEvent, RunningEndpoint,
};
pub use crate::formatter::{DisplayPrometheusExt, PrometheusFormatter};
pub use crate::handle::{
    MetricsExporterHandle, Response, WaitEvent, WaitState, STATUS_NOT_FOUND, STATUS_OK,
};
pub use crate::signal::{wake_all, Polled, Trigger, TriggerReceiver};
pub use crate::writer::{LoopState, MetricsWriter, RefreshAction, RefreshEvent, RefreshLoop};

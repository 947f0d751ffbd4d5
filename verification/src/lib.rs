//! In-process observability core: bounded FIFO buffers for telemetry events
//! and audit entries, with a structured-logging and metrics front end.
//!
//! The heart of the library is [`ring::RingBuffer`], a fixed-capacity FIFO
//! store with oldest-first eviction. [`audit::Audit`] and
//! [`telemetry::Telemetry`] wrap one buffer each; [`logger::Logger`] renders
//! structured log entries and [`metrics::Metrics`] keeps named counters.

pub mod audit;
pub mod event;
pub mod json;
pub mod logger;
pub mod metrics;
pub mod ring;
mod stamp;
pub mod telemetry;

pub use audit::{Audit, AuditEntry};
pub use event::{Event, EventType};
pub use logger::{LogEntry, LogLevel, Logger};
pub use metrics::Metrics;
pub use ring::RingBuffer;
pub use telemetry::Telemetry;

//! Unified observability facade.
//!
//! One `Telemetry` owns an audit trail, a bounded event buffer, a logger and
//! a metrics registry. Constructing a `Telemetry` produces fresh, empty,
//! independently-capacitated components: two instances never share buffers.
//! The facade adds no buffering logic of its own.

use vstd::prelude::*;

use crate::audit::{Audit, AuditEntry};
use crate::event::Event;
use crate::logger::{LogEntry, LogLevel, Logger};
use crate::metrics::Metrics;
use crate::ring::{ring_push, DeepClone, RingBuffer};
use crate::stamp::fresh_id;

verus! {

/// The fixed capacity of the event buffer, in events.
pub const MAX_EVENTS: usize = 1000;

/// The source tag the facade stamps on forwarded log records.
pub const LOG_TARGET: &'static str = "femtoclaw";

/// The unified observability entry point.
pub struct Telemetry {
    logger: Logger,
    metrics: Metrics,
    audit: Audit,
    events: RingBuffer<Event>,
}

impl Telemetry {
    /// The audit trail component.
    pub closed spec fn spec_audit(&self) -> Audit {
        self.audit
    }

    /// The metrics registry component.
    pub closed spec fn spec_metrics(&self) -> Metrics {
        self.metrics
    }

    /// The buffered events, oldest first.
    pub closed spec fn events_view(&self) -> Seq<Event> {
        self.events@
    }

    /// The event buffer's fixed capacity.
    pub closed spec fn events_cap(&self) -> nat {
        self.events.cap()
    }

    /// Well-formed: both buffers are within their fixed capacities.
    pub open spec fn wf(&self) -> bool {
        &&& self.spec_audit().wf()
        &&& self.events_view().len() <= self.events_cap()
        &&& self.events_cap() == MAX_EVENTS as nat
    }

    /// Creates a facade whose audit trail and event buffer are empty and
    /// whose counters are all zero.
    pub fn new() -> (r: Self)
        ensures
            r.wf(),
            r.events_view() == Seq::<Event>::empty(),
            r.spec_audit()@ == Seq::<AuditEntry>::empty(),
            forall|name: Seq<char>| #[trigger] r.spec_metrics().counter_value(name) == 0,
    {
        Telemetry {
            logger: Logger::new(),
            metrics: Metrics::new(),
            audit: Audit::new(),
            events: RingBuffer::new(MAX_EVENTS),
        }
    }

    /// The logger component.
    pub fn logger(&self) -> &Logger {
        &self.logger
    }

    /// Read access to the metrics registry.
    pub fn metrics(&self) -> (r: &Metrics)
        ensures
            *r == self.spec_metrics(),
    {
        &self.metrics
    }

    /// Write access to the metrics registry; nothing else is touched.
    pub fn metrics_mut(&mut self) -> (r: &mut Metrics)
        ensures
            *r == old(self).spec_metrics(),
            final(self).spec_metrics() == *final(r),
            final(self).spec_audit() == old(self).spec_audit(),
            final(self).events_view() == old(self).events_view(),
            final(self).events_cap() == old(self).events_cap(),
    {
        &mut self.metrics
    }

    /// Read access to the audit trail.
    pub fn audit(&self) -> (r: &Audit)
        ensures
            *r == self.spec_audit(),
    {
        &self.audit
    }

    /// Write access to the audit trail; nothing else is touched.
    pub fn audit_mut(&mut self) -> (r: &mut Audit)
        ensures
            *r == old(self).spec_audit(),
            final(self).spec_audit() == *final(r),
            final(self).spec_metrics() == old(self).spec_metrics(),
            final(self).events_view() == old(self).events_view(),
            final(self).events_cap() == old(self).events_cap(),
    {
        &mut self.audit
    }

    /// Buffers one event, evicting the oldest event first when the buffer
    /// is full. Never fails; the audit trail and counters are untouched.
    pub fn emit(&mut self, event: Event)
        requires
            old(self).wf(),
        ensures
            final(self).wf(),
            final(self).events_view() == ring_push(
                old(self).events_view(),
                old(self).events_cap(),
                event,
            ),
            final(self).spec_audit() == old(self).spec_audit(),
            final(self).spec_metrics() == old(self).spec_metrics(),
    {
        self.events.push(event);
    }

    /// Buffers the event, then renders a log record of it (event kind as
    /// the message, payload as the fields, informational severity) for the
    /// caller to forward. The event is retained in the buffer whatever the
    /// forwarding sink later does with the record.
    pub fn emit_and_log(&mut self, event: Event) -> (r: LogEntry)
        requires
            old(self).wf(),
        ensures
            final(self).wf(),
            final(self).events_view() == ring_push(
                old(self).events_view(),
                old(self).events_cap(),
                event,
            ),
            final(self).spec_audit() == old(self).spec_audit(),
            final(self).spec_metrics() == old(self).spec_metrics(),
            r.level@ == LogLevel::Info.name_spec(),
            r.target@ == LOG_TARGET@,
            r.message@ == event.event_type.name_spec(),
            r.fields == event.payload,
    {
        let copy = event.deep_clone();
        self.events.push(copy);
        let message = event.event_type.name();
        self.logger.log(LogLevel::Info, LOG_TARGET, message.as_str(), event.payload)
    }

    /// Returns a copy of all buffered events, oldest first.
    pub fn get_events(&self) -> (r: Vec<Event>)
        ensures
            r@ == self.events_view(),
    {
        self.events.snapshot()
    }

    /// Draws a fresh trace correlation identifier. Pure utility: the value
    /// is random and unrelated to any buffer state.
    pub fn start_trace(&self) -> u128 {
        fresh_id()
    }
}

impl Default for Telemetry {
    /// The same as `Telemetry::new`: fresh, empty components.
    fn default() -> (r: Self)
        ensures
            r.wf(),
            r.events_view() == Seq::<Event>::empty(),
            r.spec_audit()@ == Seq::<AuditEntry>::empty(),
    {
        Telemetry::new()
    }
}

} // verus!

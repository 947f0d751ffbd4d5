//! Telemetry event records.
//!
//! An `Event` is an immutable value: a fresh identifier and timestamp are
//! assigned at construction and never reassigned, and the record is only
//! ever appended to or evicted from a buffer as a whole.

use vstd::prelude::*;

use crate::json::{json_insert_str, json_insert_value, json_object, new_json_map};
use crate::ring::DeepClone;
use crate::stamp::{fresh_id, now_micros};

verus! {

/// The closed set of telemetry event kinds.
#[derive(Debug, Clone, Copy, PartialEq, Eq, Structural)]
pub enum EventType {
    InputReceived,
    ProtocolValidated,
    ProtocolRejected,
    AuthorizationDecision,
    CapabilityExecutionStart,
    CapabilityExecutionComplete,
    CapabilityExecutionError,
    MemoryWrite,
    ExecutionComplete,
    ExecutionError,
    StateTransition,
}

impl EventType {
    /// The kind's name as it is rendered into forwarded log messages.
    pub open spec fn name_spec(self) -> Seq<char> {
        match self {
            EventType::InputReceived => "InputReceived"@,
            EventType::ProtocolValidated => "ProtocolValidated"@,
            EventType::ProtocolRejected => "ProtocolRejected"@,
            EventType::AuthorizationDecision => "AuthorizationDecision"@,
            EventType::CapabilityExecutionStart => "CapabilityExecutionStart"@,
            EventType::CapabilityExecutionComplete => "CapabilityExecutionComplete"@,
            EventType::CapabilityExecutionError => "CapabilityExecutionError"@,
            EventType::MemoryWrite => "MemoryWrite"@,
            EventType::ExecutionComplete => "ExecutionComplete"@,
            EventType::ExecutionError => "ExecutionError"@,
            EventType::StateTransition => "StateTransition"@,
        }
    }

    /// Renders the kind's name.
    pub fn name(&self) -> (r: String)
        ensures
            r@ == self.name_spec(),
    {
        match self {
            EventType::InputReceived => "InputReceived".to_string(),
            EventType::ProtocolValidated => "ProtocolValidated".to_string(),
            EventType::ProtocolRejected => "ProtocolRejected".to_string(),
            EventType::AuthorizationDecision => "AuthorizationDecision".to_string(),
            EventType::CapabilityExecutionStart => "CapabilityExecutionStart".to_string(),
            EventType::CapabilityExecutionComplete => "CapabilityExecutionComplete".to_string(),
            EventType::CapabilityExecutionError => "CapabilityExecutionError".to_string(),
            EventType::MemoryWrite => "MemoryWrite".to_string(),
            EventType::ExecutionComplete => "ExecutionComplete".to_string(),
            EventType::ExecutionError => "ExecutionError".to_string(),
            EventType::StateTransition => "StateTransition".to_string(),
        }
    }
}

/// One structured telemetry record. `id` is a 128-bit identifier drawn at
/// construction; `timestamp` is microseconds since the Unix epoch as the
/// clock supplied it; `payload` is an opaque key/value document whose shape
/// depends on `event_type`; `trace_id` correlates events of one logical
/// execution and is absent unless explicitly attached.
#[derive(Debug, Clone)]
pub struct Event {
    pub id: u128,
    pub timestamp: i64,
    pub event_type: EventType,
    pub payload: serde_json::Value,
    pub trace_id: Option<u128>,
}

impl Event {
    /// Creates an event of the given kind carrying `payload`, with a fresh
    /// identifier and the current time, and no trace correlation.
    pub fn new(event_type: EventType, payload: serde_json::Value) -> (r: Self)
        ensures
            r.event_type == event_type,
            r.payload == payload,
            r.trace_id is None,
    {
        Event { id: fresh_id(), timestamp: now_micros(), event_type, payload, trace_id: None }
    }

    /// Attaches a trace correlation identifier; every other field is kept.
    pub fn with_trace(self, trace_id: u128) -> (r: Self)
        ensures
            r == (Event { trace_id: Some(trace_id), ..self }),
    {
        Event { trace_id: Some(trace_id), ..self }
    }

    /// An input-received event; the payload records the input text.
    pub fn input_received(input: &str) -> (r: Self)
        ensures
            r.event_type == EventType::InputReceived,
            r.trace_id is None,
    {
        let mut m = new_json_map();
        json_insert_str(&mut m, "input", input);
        Event::new(EventType::InputReceived, json_object(m))
    }

    /// A protocol-validated event.
    pub fn protocol_validated() -> (r: Self)
        ensures
            r.event_type == EventType::ProtocolValidated,
            r.trace_id is None,
    {
        let mut m = new_json_map();
        json_insert_str(&mut m, "result", "valid");
        Event::new(EventType::ProtocolValidated, json_object(m))
    }

    /// A protocol-rejected event; the payload records the reason.
    pub fn protocol_rejected(reason: &str) -> (r: Self)
        ensures
            r.event_type == EventType::ProtocolRejected,
            r.trace_id is None,
    {
        let mut m = new_json_map();
        json_insert_str(&mut m, "reason", reason);
        Event::new(EventType::ProtocolRejected, json_object(m))
    }

    /// An authorization-decision event; the payload records the tool asked
    /// for and the decision taken.
    pub fn authorization_decision(tool: &str, decision: &str) -> (r: Self)
        ensures
            r.event_type == EventType::AuthorizationDecision,
            r.trace_id is None,
    {
        let mut m = new_json_map();
        json_insert_str(&mut m, "tool", tool);
        json_insert_str(&mut m, "decision", decision);
        Event::new(EventType::AuthorizationDecision, json_object(m))
    }

    /// A capability-execution-start event; the payload records the tool and
    /// a copy of its arguments.
    pub fn capability_execution_start(tool: &str, args: &serde_json::Value) -> (r: Self)
        ensures
            r.event_type == EventType::CapabilityExecutionStart,
            r.trace_id is None,
    {
        let mut m = new_json_map();
        json_insert_str(&mut m, "tool", tool);
        json_insert_value(&mut m, "args", args);
        Event::new(EventType::CapabilityExecutionStart, json_object(m))
    }

    /// A capability-execution-complete event; the payload records the tool
    /// and its result.
    pub fn capability_execution_complete(tool: &str, result: &str) -> (r: Self)
        ensures
            r.event_type == EventType::CapabilityExecutionComplete,
            r.trace_id is None,
    {
        let mut m = new_json_map();
        json_insert_str(&mut m, "tool", tool);
        json_insert_str(&mut m, "result", result);
        Event::new(EventType::CapabilityExecutionComplete, json_object(m))
    }

    /// A capability-execution-error event; the payload records the tool and
    /// the error text.
    pub fn capability_execution_error(tool: &str, error: &str) -> (r: Self)
        ensures
            r.event_type == EventType::CapabilityExecutionError,
            r.trace_id is None,
    {
        let mut m = new_json_map();
        json_insert_str(&mut m, "tool", tool);
        json_insert_str(&mut m, "error", error);
        Event::new(EventType::CapabilityExecutionError, json_object(m))
    }

    /// An execution-complete event with an empty payload.
    pub fn execution_complete() -> (r: Self)
        ensures
            r.event_type == EventType::ExecutionComplete,
            r.trace_id is None,
    {
        Event::new(EventType::ExecutionComplete, json_object(new_json_map()))
    }

    /// An execution-error event; the payload records the error text.
    pub fn execution_error(error: &str) -> (r: Self)
        ensures
            r.event_type == EventType::ExecutionError,
            r.trace_id is None,
    {
        let mut m = new_json_map();
        json_insert_str(&mut m, "error", error);
        Event::new(EventType::ExecutionError, json_object(m))
    }
}

impl DeepClone for Event {
    fn deep_clone(&self) -> (r: Self)
        ensures
            r == *self,
    {
        Event {
            id: self.id,
            timestamp: self.timestamp,
            event_type: self.event_type,
            payload: self.payload.clone(),
            trace_id: self.trace_id,
        }
    }
}

} // verus!

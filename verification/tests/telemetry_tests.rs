use observability::{Event, EventType, LogLevel, Logger, Telemetry};

fn payload(text: &str) -> serde_json::Value {
    serde_json::Value::String(text.to_string())
}

#[test]
fn new_telemetry_is_empty() {
    let t = Telemetry::new();
    assert!(t.get_events().is_empty());
    assert!(t.audit().get_entries().is_empty());
    assert_eq!(t.metrics().get_counter("anything"), 0);
}

#[test]
fn emit_buffers_the_event() {
    let mut t = Telemetry::new();
    t.emit(Event::new(EventType::MemoryWrite, payload("w")));
    let events = t.get_events();
    assert_eq!(events.len(), 1);
    assert_eq!(events[0].event_type, EventType::MemoryWrite);
    assert_eq!(events[0].payload, payload("w"));
}

#[test]
fn emit_and_log_buffers_and_renders() {
    let mut t = Telemetry::new();
    let e = Event::new(EventType::ProtocolValidated, payload("v"));
    let record = t.emit_and_log(e);
    assert_eq!(record.level, "INFO");
    assert_eq!(record.target, "femtoclaw");
    assert_eq!(record.message, "ProtocolValidated");
    assert_eq!(record.fields, payload("v"));
    let events = t.get_events();
    assert_eq!(events.len(), 1);
    assert_eq!(events[0].event_type, EventType::ProtocolValidated);
}

#[test]
fn audit_access_through_facade() {
    let mut t = Telemetry::new();
    t.audit_mut().log_event("test", "user1", "file.txt", "read", "success");
    let entries = t.audit().get_entries();
    assert_eq!(entries.len(), 1);
    assert_eq!(entries[0].resource, "file.txt");
    // The event buffer is untouched by audit writes.
    assert!(t.get_events().is_empty());
}

#[test]
fn metrics_access_through_facade() {
    let mut t = Telemetry::new();
    t.metrics_mut().increment_counter("emitted");
    assert_eq!(t.metrics().get_counter("emitted"), 1);
}

#[test]
fn telemetry_instances_are_independent() {
    let mut t1 = Telemetry::new();
    let t2 = Telemetry::new();
    t1.emit(Event::new(EventType::ExecutionComplete, payload("x")));
    t1.audit_mut().log_event("e", "a", "r", "act", "ok");
    assert_eq!(t1.get_events().len(), 1);
    assert!(t2.get_events().is_empty());
    assert!(t2.audit().get_entries().is_empty());
}

#[test]
fn logger_renders_structured_record() {
    let logger = Logger::new();
    let record = logger.log(LogLevel::Warn, "worker", "slow response", payload("f"));
    assert_eq!(record.level, "WARN");
    assert_eq!(record.target, "worker");
    assert_eq!(record.message, "slow response");
    assert_eq!(record.fields, payload("f"));
}

#[test]
fn log_level_names() {
    assert_eq!(LogLevel::Trace.name(), "TRACE");
    assert_eq!(LogLevel::Debug.name(), "DEBUG");
    assert_eq!(LogLevel::Info.name(), "INFO");
    assert_eq!(LogLevel::Warn.name(), "WARN");
    assert_eq!(LogLevel::Error.name(), "ERROR");
}

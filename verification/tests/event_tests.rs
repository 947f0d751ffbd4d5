use observability::{Event, EventType, RingBuffer};

fn payload(text: &str) -> serde_json::Value {
    serde_json::Value::String(text.to_string())
}

#[test]
fn event_new_sets_type_payload_and_no_trace() {
    let e = Event::new(EventType::MemoryWrite, payload("p"));
    assert_eq!(e.event_type, EventType::MemoryWrite);
    assert_eq!(e.payload, payload("p"));
    assert!(e.trace_id.is_none());
}

#[test]
fn event_with_trace_attaches_id() {
    let e = Event::new(EventType::StateTransition, payload("q"));
    let id = e.id;
    let traced = e.with_trace(42);
    assert_eq!(traced.trace_id, Some(42));
    assert_eq!(traced.id, id);
    assert_eq!(traced.event_type, EventType::StateTransition);
}

#[test]
fn event_convenience_constructors() {
    assert_eq!(Event::input_received("hi").event_type, EventType::InputReceived);
    assert_eq!(Event::protocol_validated().event_type, EventType::ProtocolValidated);
    assert_eq!(Event::protocol_rejected("bad").event_type, EventType::ProtocolRejected);
    assert_eq!(
        Event::authorization_decision("tool", "allow").event_type,
        EventType::AuthorizationDecision
    );
    assert_eq!(
        Event::capability_execution_start("tool", &payload("args")).event_type,
        EventType::CapabilityExecutionStart
    );
    assert_eq!(
        Event::capability_execution_complete("tool", "done").event_type,
        EventType::CapabilityExecutionComplete
    );
    assert_eq!(
        Event::capability_execution_error("tool", "boom").event_type,
        EventType::CapabilityExecutionError
    );
    assert_eq!(Event::execution_complete().event_type, EventType::ExecutionComplete);
    assert_eq!(Event::execution_error("oops").event_type, EventType::ExecutionError);
}

#[test]
fn event_payload_is_carried_through() {
    let e = Event::input_received("the input");
    match &e.payload {
        serde_json::Value::Object(m) => {
            assert_eq!(m.get("input"), Some(&payload("the input")));
        }
        other => panic!("expected an object payload, got {:?}", other),
    }
}

#[test]
fn event_type_names() {
    assert_eq!(EventType::InputReceived.name(), "InputReceived");
    assert_eq!(EventType::CapabilityExecutionError.name(), "CapabilityExecutionError");
    assert_eq!(EventType::StateTransition.name(), "StateTransition");
}

#[test]
fn capacity_two_stream_keeps_last_two() {
    // Emitting A, B, C into a capacity-2 buffer leaves [B, C].
    let mut stream: RingBuffer<Event> = RingBuffer::new(2);
    let a = Event::input_received("A");
    let b = Event::input_received("B");
    let c = Event::input_received("C");
    let (id_b, id_c) = (b.id, c.id);
    stream.push(a);
    stream.push(b);
    stream.push(c);
    let all = stream.snapshot();
    assert_eq!(all.len(), 2);
    assert_eq!(all[0].id, id_b);
    assert_eq!(all[1].id, id_c);
}

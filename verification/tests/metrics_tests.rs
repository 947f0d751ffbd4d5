use observability::Metrics;

#[test]
fn fresh_counters_are_zero() {
    let m = Metrics::new();
    assert_eq!(m.get_counter("requests"), 0);
    assert_eq!(m.get_counter("anything.else"), 0);
}

#[test]
fn increment_advances_by_one() {
    let mut m = Metrics::new();
    m.increment_counter("requests");
    assert_eq!(m.get_counter("requests"), 1);
    m.increment_counter("requests");
    m.increment_counter("requests");
    assert_eq!(m.get_counter("requests"), 3);
}

#[test]
fn counters_are_independent() {
    let mut m = Metrics::new();
    m.increment_counter("a");
    m.increment_counter("b");
    m.increment_counter("a");
    assert_eq!(m.get_counter("a"), 2);
    assert_eq!(m.get_counter("b"), 1);
    assert_eq!(m.get_counter("c"), 0);
}

use observability::Audit;

#[test]
fn test_audit_log() {
    let mut audit = Audit::new();
    audit.log_event("test", "user1", "file.txt", "read", "success");

    let entries = audit.get_entries();
    assert_eq!(entries.len(), 1);
    assert_eq!(entries[0].action, "read");
}

#[test]
fn test_audit_filter() {
    let mut audit = Audit::new();
    audit.log_event("test", "user1", "file1.txt", "read", "success");
    audit.log_event("test", "user1", "file2.txt", "read", "success");

    let entries = audit.get_entries_for_resource("file1.txt");
    assert_eq!(entries.len(), 1);
}

#[test]
fn audit_eviction_over_capacity() {
    // 10,001 entries with distinct resources into the capacity-10,000 trail:
    // the first resource is evicted, the last is present exactly once.
    let mut audit = Audit::new();
    for i in 0..=10000u32 {
        let resource = format!("r{}", i);
        audit.log_event("test", "user1", &resource, "write", "success");
    }
    assert_eq!(audit.get_entries().len(), 10000);
    assert!(audit.get_entries_for_resource("r0").is_empty());
    let last = audit.get_entries_for_resource("r10000");
    assert_eq!(last.len(), 1);
    assert_eq!(last[0].resource, "r10000");
}

#[test]
fn audit_clear_then_record() {
    let mut audit = Audit::new();
    audit.log_event("test", "user1", "file.txt", "read", "success");
    audit.clear();
    assert_eq!(audit.get_entries().len(), 0);
    audit.log_event("test", "user2", "other.txt", "write", "denied");
    let entries = audit.get_entries();
    assert_eq!(entries.len(), 1);
    assert_eq!(entries[0].actor, "user2");
    assert_eq!(entries[0].result, "denied");
}

#[test]
fn audit_entry_fields_and_details() {
    let entry = observability::AuditEntry::new("login", "alice", "vault", "open", "success");
    assert_eq!(entry.event, "login");
    assert_eq!(entry.actor, "alice");
    assert_eq!(entry.resource, "vault");
    assert_eq!(entry.action, "open");
    assert_eq!(entry.result, "success");
    assert_eq!(entry.details, serde_json::Value::Object(serde_json::Map::new()));

    let detailed = entry.with_details(serde_json::Value::String("extra".to_string()));
    assert_eq!(detailed.details, serde_json::Value::String("extra".to_string()));
    assert_eq!(detailed.actor, "alice");
}

#[test]
fn audit_snapshots_without_write_are_equal() {
    let mut audit = Audit::new();
    audit.log_event("a", "b", "c", "d", "e");
    audit.log_event("f", "g", "h", "i", "j");
    let s1 = audit.get_entries();
    let s2 = audit.get_entries();
    assert_eq!(s1.len(), s2.len());
    for (x, y) in s1.iter().zip(s2.iter()) {
        assert_eq!(x.id, y.id);
        assert_eq!(x.event, y.event);
        assert_eq!(x.resource, y.resource);
    }
}

#[test]
fn audit_filter_matches_snapshot_subsequence() {
    let mut audit = Audit::new();
    audit.log_event("e1", "u", "res-a", "read", "ok");
    audit.log_event("e2", "u", "res-b", "read", "ok");
    audit.log_event("e3", "u", "res-a", "write", "ok");
    let all = audit.get_entries();
    let expected: Vec<_> = all.iter().filter(|e| e.resource == "res-a").collect();
    let filtered = audit.get_entries_for_resource("res-a");
    assert_eq!(filtered.len(), expected.len());
    for (x, y) in filtered.iter().zip(expected.iter()) {
        assert_eq!(x.id, y.id);
        assert_eq!(x.event, y.event);
        assert_eq!(x.action, y.action);
    }
}

//! Audit trail: a bounded, append-only record of who did what to which
//! resource, with what outcome.
//!
//! Entries are immutable once recorded: the log only appends whole entries
//! and evicts the oldest when its fixed capacity is exceeded; nothing is
//! mutated or reordered in place.

use vstd::prelude::*;

use crate::json::empty_document;
use crate::ring::{ring_push, DeepClone, RingBuffer};
use crate::stamp::{fresh_id, now_micros};

verus! {

/// The fixed capacity of the audit trail, in entries.
pub const MAX_AUDIT_ENTRIES: usize = 10000;

/// One compliance record: an actor performed an action on a resource with a
/// result. `id` is a 128-bit identifier drawn at construction; `timestamp`
/// is microseconds since the Unix epoch as the clock supplied it; `details`
/// is an opaque key/value document, an empty document unless attached.
#[derive(Debug, Clone)]
pub struct AuditEntry {
    pub id: u128,
    pub timestamp: i64,
    pub event: String,
    pub actor: String,
    pub resource: String,
    pub action: String,
    pub result: String,
    pub details: serde_json::Value,
}

impl AuditEntry {
    /// Creates an entry with the given classification fields, a fresh
    /// identifier, the current time, and an empty details document.
    pub fn new(event: &str, actor: &str, resource: &str, action: &str, result: &str) -> (r: Self)
        ensures
            r.event@ == event@,
            r.actor@ == actor@,
            r.resource@ == resource@,
            r.action@ == action@,
            r.result@ == result@,
    {
        AuditEntry {
            id: fresh_id(),
            timestamp: now_micros(),
            event: event.to_string(),
            actor: actor.to_string(),
            resource: resource.to_string(),
            action: action.to_string(),
            result: result.to_string(),
            details: empty_document(),
        }
    }

    /// Replaces the details document; every other field is kept.
    pub fn with_details(self, details: serde_json::Value) -> (r: Self)
        ensures
            r == (AuditEntry { details, ..self }),
    {
        AuditEntry { details, ..self }
    }
}

impl DeepClone for AuditEntry {
    fn deep_clone(&self) -> (r: Self)
        ensures
            r == *self,
    {
        AuditEntry {
            id: self.id,
            timestamp: self.timestamp,
            event: self.event.clone(),
            actor: self.actor.clone(),
            resource: self.resource.clone(),
            action: self.action.clone(),
            result: self.result.clone(),
            details: self.details.clone(),
        }
    }
}

/// The subsequence of `s`, order preserved, whose entries name `resource`.
pub open spec fn entries_for_resource(s: Seq<AuditEntry>, resource: Seq<char>) -> Seq<AuditEntry> {
    s.filter(|e: AuditEntry| e.resource@ == resource)
}

/// Filtering one more entry keeps it exactly when it names the resource.
proof fn lemma_entries_for_resource_push(s: Seq<AuditEntry>, x: AuditEntry, resource: Seq<char>)
    ensures
        entries_for_resource(s.push(x), resource) == if x.resource@ == resource {
            entries_for_resource(s, resource).push(x)
        } else {
            entries_for_resource(s, resource)
        },
{
    reveal(Seq::filter);
    assert(s.push(x).drop_last() =~= s);
}

/// The audit trail: a bounded FIFO of `AuditEntry`, capacity
/// `MAX_AUDIT_ENTRIES`, oldest evicted first.
pub struct Audit {
    entries: RingBuffer<AuditEntry>,
}

impl View for Audit {
    type V = Seq<AuditEntry>;

    closed spec fn view(&self) -> Seq<AuditEntry> {
        self.entries@
    }
}

impl Audit {
    /// The trail's fixed capacity, in entries.
    pub closed spec fn cap(&self) -> nat {
        self.entries.cap()
    }

    /// Well-formed: within capacity, and the capacity is the fixed audit
    /// trail bound.
    pub open spec fn wf(&self) -> bool {
        &&& self@.len() <= self.cap()
        &&& self.cap() == MAX_AUDIT_ENTRIES as nat
    }

    /// Creates an empty audit trail with capacity `MAX_AUDIT_ENTRIES`.
    pub fn new() -> (r: Self)
        ensures
            r.wf(),
            r@ == Seq::<AuditEntry>::empty(),
    {
        Audit { entries: RingBuffer::new(MAX_AUDIT_ENTRIES) }
    }

    /// Records one entry, evicting the oldest entry first when the trail is
    /// full. Never fails.
    pub fn log(&mut self, entry: AuditEntry)
        requires
            old(self).wf(),
        ensures
            final(self).wf(),
            final(self)@ == ring_push(old(self)@, old(self).cap(), entry),
    {
        self.entries.push(entry);
    }

    /// Builds an entry from the given classification fields (fresh
    /// identifier, current time, empty details) and records it.
    pub fn log_event(&mut self, event: &str, actor: &str, resource: &str, action: &str, result: &str)
        requires
            old(self).wf(),
        ensures
            final(self).wf(),
            final(self)@.len() >= 1,
            final(self)@ == ring_push(old(self)@, old(self).cap(), final(self)@.last()),
            final(self)@.last().event@ == event@,
            final(self)@.last().actor@ == actor@,
            final(self)@.last().resource@ == resource@,
            final(self)@.last().action@ == action@,
            final(self)@.last().result@ == result@,
    {
        let entry = AuditEntry::new(event, actor, resource, action, result);
        self.log(entry);
    }

    /// Returns a copy of every recorded entry, oldest first.
    pub fn get_entries(&self) -> (r: Vec<AuditEntry>)
        ensures
            r@ == self@,
    {
        self.entries.snapshot()
    }

    /// Returns, oldest first, copies of exactly the entries whose resource
    /// field equals `resource`.
    pub fn get_entries_for_resource(&self, resource: &str) -> (r: Vec<AuditEntry>)
        ensures
            r@ == entries_for_resource(self@, resource@),
    {
        let want: String = resource.to_owned();
        let mut out: Vec<AuditEntry> = Vec::new();
        let n = self.entries.len();
        proof {
            assert(self@.subrange(0, 0) =~= Seq::<AuditEntry>::empty());
            reveal(Seq::filter);
        }
        for i in 0..n
            invariant
                n == self@.len(),
                want@ == resource@,
                out@ == entries_for_resource(self@.subrange(0, i as int), resource@),
        {
            let e = self.entries.get(i);
            proof {
                lemma_entries_for_resource_push(self@.subrange(0, i as int), self@[i as int], resource@);
                assert(self@.subrange(0, i as int).push(self@[i as int]) =~= self@.subrange(
                    0,
                    i + 1,
                ));
            }
            if e.resource == want {
                out.push(e.deep_clone());
            }
        }
        proof {
            assert(self@.subrange(0, n as int) =~= self@);
        }
        out
    }

    /// Empties the trail; the capacity is unchanged, so later recording
    /// behaves exactly as on a fresh trail.
    pub fn clear(&mut self)
        requires
            old(self).wf(),
        ensures
            final(self).wf(),
            final(self)@ == Seq::<AuditEntry>::empty(),
    {
        self.entries.clear();
    }
}

impl Default for Audit {
    /// An empty audit trail, the same as `Audit::new`.
    fn default() -> (r: Self)
        ensures
            r.wf(),
            r@ == Seq::<AuditEntry>::empty(),
    {
        Audit::new()
    }
}

} // verus!

//! Named counters.
//!
//! A small in-memory metrics registry: each counter is identified by name,
//! starts at zero, and is incremented one step at a time, saturating at the
//! largest representable count.

use vstd::prelude::*;

verus! {

/// The value recorded for `name` in the list of counters: the first pair
/// whose name matches, or zero when none does.
pub open spec fn counter_lookup(s: Seq<(String, u64)>, name: Seq<char>) -> u64
    decreases s.len(),
{
    if s.len() == 0 {
        0
    } else if s[0].0@ == name {
        s[0].1
    } else {
        counter_lookup(s.skip(1), name)
    }
}

/// When no pair among the first `i` matches `name`, the lookup is decided
/// by the rest of the list.
proof fn lemma_lookup_skip(s: Seq<(String, u64)>, name: Seq<char>, i: int)
    requires
        0 <= i <= s.len(),
        forall|j: int| 0 <= j < i ==> s[j].0@ != name,
    ensures
        counter_lookup(s, name) == counter_lookup(s.skip(i), name),
    decreases i,
{
    if i > 0 {
        assert(s[0].0@ != name);
        assert(counter_lookup(s, name) == counter_lookup(s.skip(1), name));
        assert(forall|j: int| 0 <= j < i - 1 ==> s.skip(1)[j] == s[j + 1]);
        lemma_lookup_skip(s.skip(1), name, i - 1);
        assert(s.skip(1).skip(i - 1) =~= s.skip(i));
    } else {
        assert(s.skip(0) =~= s);
    }
}

/// Replacing the first matching pair changes that counter to the new value
/// and no other.
proof fn lemma_lookup_update(s: Seq<(String, u64)>, name: Seq<char>, i: int, p: (String, u64))
    requires
        0 <= i < s.len(),
        forall|j: int| 0 <= j < i ==> s[j].0@ != name,
        s[i].0@ == name,
        p.0@ == name,
    ensures
        counter_lookup(s.update(i, p), name) == p.1,
        forall|other: Seq<char>| other != name ==> counter_lookup(s.update(i, p), other)
            == counter_lookup(s, other),
    decreases i,
{
    let t = s.update(i, p);
    if i == 0 {
        assert(t.skip(1) =~= s.skip(1));
        assert forall|other: Seq<char>| other != name implies counter_lookup(t, other)
            == counter_lookup(s, other) by {
            assert(counter_lookup(t, other) == counter_lookup(t.skip(1), other));
            assert(counter_lookup(s, other) == counter_lookup(s.skip(1), other));
        }
    } else {
        assert(forall|j: int| 0 <= j < i - 1 ==> s.skip(1)[j] == s[j + 1]);
        lemma_lookup_update(s.skip(1), name, i - 1, p);
        assert(t.skip(1) =~= s.skip(1).update(i - 1, p));
        assert(t[0] == s[0]);
        assert(counter_lookup(t, name) == counter_lookup(t.skip(1), name));
        assert forall|other: Seq<char>| other != name implies counter_lookup(t, other)
            == counter_lookup(s, other) by {
            if s[0].0@ == other {
                assert(counter_lookup(t, other) == t[0].1);
                assert(counter_lookup(s, other) == s[0].1);
            } else {
                assert(counter_lookup(t, other) == counter_lookup(t.skip(1), other));
                assert(counter_lookup(s, other) == counter_lookup(s.skip(1), other));
            }
        }
    }
}

/// Appending a pair for a name with no existing pair sets that counter to
/// the appended value and no other.
proof fn lemma_lookup_push(s: Seq<(String, u64)>, name: Seq<char>, p: (String, u64))
    requires
        forall|j: int| 0 <= j < s.len() ==> s[j].0@ != name,
        p.0@ == name,
    ensures
        counter_lookup(s.push(p), name) == p.1,
        forall|other: Seq<char>| other != name ==> counter_lookup(s.push(p), other)
            == counter_lookup(s, other),
    decreases s.len(),
{
    let t = s.push(p);
    if s.len() == 0 {
        assert(t.skip(1) =~= Seq::<(String, u64)>::empty());
        assert forall|other: Seq<char>| other != name implies counter_lookup(t, other)
            == counter_lookup(s, other) by {
            assert(counter_lookup(t, other) == counter_lookup(t.skip(1), other));
        }
    } else {
        assert(forall|j: int| 0 <= j < s.len() - 1 ==> s.skip(1)[j] == s[j + 1]);
        lemma_lookup_push(s.skip(1), name, p);
        assert(t.skip(1) =~= s.skip(1).push(p));
        assert(t[0] == s[0]);
        assert(counter_lookup(t, name) == counter_lookup(t.skip(1), name));
        assert forall|other: Seq<char>| other != name implies counter_lookup(t, other)
            == counter_lookup(s, other) by {
            if s[0].0@ == other {
                assert(counter_lookup(t, other) == t[0].1);
                assert(counter_lookup(s, other) == s[0].1);
            } else {
                assert(counter_lookup(t, other) == counter_lookup(t.skip(1), other));
                assert(counter_lookup(s, other) == counter_lookup(s.skip(1), other));
            }
        }
    }
}

/// A registry of named counters.
pub struct Metrics {
    counters: Vec<(String, u64)>,
}

impl Metrics {
    /// The current count recorded under `name`; zero when the name was
    /// never incremented.
    pub closed spec fn counter_value(&self, name: Seq<char>) -> u64 {
        counter_lookup(self.counters@, name)
    }

    /// Creates a registry with every counter at zero.
    pub fn new() -> (r: Self)
        ensures
            forall|name: Seq<char>| #[trigger] r.counter_value(name) == 0,
    {
        Metrics { counters: Vec::new() }
    }

    /// Advances the named counter by one step, saturating at `u64::MAX`;
    /// every other counter is unchanged.
    pub fn increment_counter(&mut self, name: &str)
        ensures
            final(self).counter_value(name@) == if old(self).counter_value(name@) < u64::MAX {
                old(self).counter_value(name@) + 1
            } else {
                u64::MAX as int
            },
            forall|other: Seq<char>| other != name@ ==> #[trigger] final(self).counter_value(other)
                == old(self).counter_value(other),
    {
        let want: String = name.to_owned();
        let n = self.counters.len();
        let mut i: usize = 0;
        while i < n
            invariant
                n == self.counters@.len(),
                self.counters@ == old(self).counters@,
                want@ == name@,
                i <= n,
                forall|j: int| 0 <= j < i ==> self.counters@[j].0@ != name@,
            decreases n - i,
        {
            if self.counters[i].0 == want {
                let cur = self.counters[i].1;
                let nv = if cur < u64::MAX {
                    cur + 1
                } else {
                    cur
                };
                proof {
                    lemma_lookup_skip(old(self).counters@, name@, i as int);
                    assert(old(self).counters@.skip(i as int)[0] == old(self).counters@[i as int]);
                }
                let e = &mut self.counters[i];
                e.1 = nv;
                proof {
                    lemma_lookup_update(old(self).counters@, name@, i as int, *final(e));
                }
                return ;
            }
            i += 1;
        }
        proof {
            lemma_lookup_skip(old(self).counters@, name@, n as int);
            assert(old(self).counters@.skip(n as int) =~= Seq::<(String, u64)>::empty());
        }
        let ghost p = (want, 1u64);
        self.counters.push((want, 1));
        proof {
            lemma_lookup_push(old(self).counters@, name@, p);
        }
    }

    /// Reads the current count recorded under `name`.
    pub fn get_counter(&self, name: &str) -> (r: u64)
        ensures
            r == self.counter_value(name@),
    {
        let want: String = name.to_owned();
        let n = self.counters.len();
        let mut i: usize = 0;
        while i < n
            invariant
                n == self.counters@.len(),
                want@ == name@,
                i <= n,
                forall|j: int| 0 <= j < i ==> self.counters@[j].0@ != name@,
            decreases n - i,
        {
            if self.counters[i].0 == want {
                proof {
                    lemma_lookup_skip(self.counters@, name@, i as int);
                }
                return self.counters[i].1;
            }
            i += 1;
        }
        proof {
            lemma_lookup_skip(self.counters@, name@, n as int);
            assert(self.counters@.skip(n as int) =~= Seq::<(String, u64)>::empty());
        }
        0
    }
}

impl Default for Metrics {
    /// A registry with every counter at zero, the same as `Metrics::new`.
    fn default() -> (r: Self)
        ensures
            forall|name: Seq<char>| #[trigger] r.counter_value(name) == 0,
    {
        Metrics::new()
    }
}

} // verus!

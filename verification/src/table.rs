//! The contact table: the status of each sensor, keyed by its MQTT topic.

use vstd::prelude::*;
use crate::contact::{ContactStatus, ContactView};
use crate::text::str_equal;

verus! {

/// Contact statuses keyed by topic. Each entry is stored under its own
/// `topic`, and no topic occurs twice.
pub struct ContactTable {
    entries: Vec<ContactStatus>,
}

/// Whether some entry of `s` has topic `k`.
pub open spec fn has_topic(s: Seq<ContactStatus>, k: Seq<char>) -> bool {
    exists|i: int| 0 <= i < s.len() && s[i].topic@ == k
}

/// No two entries of `s` share a topic.
pub open spec fn distinct_topics(s: Seq<ContactStatus>) -> bool {
    forall|i: int, j: int| 0 <= i < s.len() && 0 <= j < s.len() && i != j ==> s[i].topic@ != s[j].topic@
}

/// The entries of `s` as a map from topic to status.
pub open spec fn entries_map(s: Seq<ContactStatus>) -> Map<Seq<char>, ContactView> {
    Map::new(
        |k: Seq<char>| has_topic(s, k),
        |k: Seq<char>| s[choose|i: int| 0 <= i < s.len() && s[i].topic@ == k]@,
    )
}

/// The status that `m` holds for `topic`, if any.
pub open spec fn status_of(m: Map<Seq<char>, ContactView>, topic: Seq<char>) -> Option<ContactView> {
    if m.dom().contains(topic) {
        Some(m[topic])
    } else {
        None
    }
}

/// The topics of the open contacts in `m`.
pub open spec fn open_topics(m: Map<Seq<char>, ContactView>) -> Set<Seq<char>> {
    m.dom().filter(|k: Seq<char>| !m[k].contact)
}

/// The number of entries of `s` that are open.
pub open spec fn open_entries(s: Seq<ContactStatus>) -> nat
    decreases s.len(),
{
    if s.len() == 0 {
        0
    } else {
        open_entries(s.drop_last()) + if s.last().contact { 0nat } else { 1nat }
    }
}

proof fn lemma_entries_map_push(s: Seq<ContactStatus>, c: ContactStatus)
    requires
        distinct_topics(s),
        !has_topic(s, c.topic@),
    ensures
        distinct_topics(s.push(c)),
        entries_map(s.push(c)) == entries_map(s).insert(c.topic@, c@),
{
    let t = s.push(c);
    assert forall|i: int, j: int| 0 <= i < t.len() && 0 <= j < t.len() && i != j implies t[i].topic@
        != t[j].topic@ by {
        if i == s.len() as int {
            assert(s[j].topic@ == t[j].topic@);
        } else if j == s.len() as int {
            assert(s[i].topic@ == t[i].topic@);
        }
    }
    let a = entries_map(t);
    let b = entries_map(s).insert(c.topic@, c@);
    assert forall|k: Seq<char>| a.dom().contains(k) <==> b.dom().contains(k) by {
        if has_topic(s, k) {
            let i = choose|i: int| 0 <= i < s.len() && s[i].topic@ == k;
            assert(t[i].topic@ == k);
        }
        if k == c.topic@ {
            assert(t[s.len() as int].topic@ == k);
        }
    }
    assert forall|k: Seq<char>| a.dom().contains(k) implies a[k] == b[k] by {
        let i = choose|i: int| 0 <= i < t.len() && t[i].topic@ == k;
        if k == c.topic@ {
            assert(i == s.len() as int);
        } else {
            assert(s[i].topic@ == k);
            let j = choose|j: int| 0 <= j < s.len() && s[j].topic@ == k;
            assert(i == j);
        }
    }
    assert(a =~= b);
}

pub proof fn lemma_entries_map_finite(s: Seq<ContactStatus>)
    requires
        distinct_topics(s),
    ensures
        entries_map(s).dom().finite(),
        entries_map(s).dom().len() == s.len(),
        open_topics(entries_map(s)).len() == open_entries(s),
        open_topics(entries_map(s)).finite(),
    decreases s.len(),
{
    if s.len() == 0 {
        assert(entries_map(s).dom() =~= Set::empty());
        assert(open_topics(entries_map(s)) =~= Set::empty());
    } else {
        let p = s.drop_last();
        let c = s.last();
        assert(p.push(c) =~= s);
        assert(distinct_topics(p));
        if has_topic(p, c.topic@) {
            let i = choose|i: int| 0 <= i < p.len() && p[i].topic@ == c.topic@;
            assert(s[i].topic@ == s[s.len() - 1].topic@);
        }
        lemma_entries_map_finite(p);
        lemma_entries_map_push(p, c);
        let m = entries_map(p);
        let m2 = m.insert(c.topic@, c@);
        assert(!m.dom().contains(c.topic@));
        if c.contact {
            assert(open_topics(m2) =~= open_topics(m));
        } else {
            assert(open_topics(m2) =~= open_topics(m).insert(c.topic@));
        }
    }
}

proof fn lemma_entries_map_update(s: Seq<ContactStatus>, i: int, c: ContactStatus)
    requires
        distinct_topics(s),
        0 <= i < s.len(),
        s[i].topic@ == c.topic@,
    ensures
        distinct_topics(s.update(i, c)),
        entries_map(s.update(i, c)) == entries_map(s).insert(c.topic@, c@),
{
    let t = s.update(i, c);
    assert forall|a: int, b: int| 0 <= a < t.len() && 0 <= b < t.len() && a != b implies t[a].topic@
        != t[b].topic@ by {
        assert(t[a].topic@ == s[a].topic@);
        assert(t[b].topic@ == s[b].topic@);
    }
    let x = entries_map(t);
    let y = entries_map(s).insert(c.topic@, c@);
    assert forall|k: Seq<char>| x.dom().contains(k) <==> y.dom().contains(k) by {
        if has_topic(s, k) {
            let j = choose|j: int| 0 <= j < s.len() && s[j].topic@ == k;
            assert(t[j].topic@ == k);
        }
        if has_topic(t, k) {
            let j = choose|j: int| 0 <= j < t.len() && t[j].topic@ == k;
            assert(s[j].topic@ == k);
        }
        if k == c.topic@ {
            assert(t[i].topic@ == k);
        }
    }
    assert forall|k: Seq<char>| x.dom().contains(k) implies x[k] == y[k] by {
        let j = choose|j: int| 0 <= j < t.len() && t[j].topic@ == k;
        if k == c.topic@ {
            assert(j == i);
        } else {
            assert(s[j].topic@ == k);
            let j2 = choose|j2: int| 0 <= j2 < s.len() && s[j2].topic@ == k;
            assert(j == j2);
        }
    }
    assert(x =~= y);
}

proof fn lemma_entries_map_remove(s: Seq<ContactStatus>, i: int)
    requires
        distinct_topics(s),
        0 <= i < s.len(),
    ensures
        distinct_topics(s.remove(i)),
        entries_map(s.remove(i)) == entries_map(s).remove(s[i].topic@),
{
    let t = s.remove(i);
    let key = s[i].topic@;
    assert forall|k: int| 0 <= k < t.len() implies t[k] == s[if k < i { k } else { k + 1 }] by {}
    assert forall|a: int, b: int| 0 <= a < t.len() && 0 <= b < t.len() && a != b implies t[a].topic@
        != t[b].topic@ by {
        assert(t[a] == s[if a < i { a } else { a + 1 }]);
        assert(t[b] == s[if b < i { b } else { b + 1 }]);
    }
    let x = entries_map(t);
    let y = entries_map(s).remove(key);
    assert forall|k: Seq<char>| x.dom().contains(k) <==> y.dom().contains(k) by {
        if has_topic(s, k) && k != key {
            let j = choose|j: int| 0 <= j < s.len() && s[j].topic@ == k;
            assert(j != i);
            let j2 = if j < i { j } else { j - 1 };
            assert(t[j2] == s[j]);
        }
        if has_topic(t, k) {
            let j = choose|j: int| 0 <= j < t.len() && t[j].topic@ == k;
            let j2 = if j < i { j } else { j + 1 };
            assert(s[j2].topic@ == k);
            assert(j2 != i);
        }
    }
    assert forall|k: Seq<char>| x.dom().contains(k) implies x[k] == y[k] by {
        let j = choose|j: int| 0 <= j < t.len() && t[j].topic@ == k;
        let j2 = if j < i { j } else { j + 1 };
        assert(s[j2].topic@ == k);
        let j3 = choose|j3: int| 0 <= j3 < s.len() && s[j3].topic@ == k;
        assert(j2 == j3);
    }
    assert(x =~= y);
}

impl View for ContactTable {
    type V = Map<Seq<char>, ContactView>;

    /// The statuses, keyed by topic.
    closed spec fn view(&self) -> Map<Seq<char>, ContactView> {
        entries_map(self.entries@)
    }
}

impl ContactTable {
    /// Each entry is stored under its own topic, once.
    #[verifier::type_invariant]
    pub closed spec fn wf(&self) -> bool {
        distinct_topics(self.entries@)
    }

    /// The table is a finite map whose every status is stored under its own topic.
    pub proof fn lemma_view_facts(&self)
        requires
            self.wf(),
        ensures
            self@.dom().finite(),
            forall|k: Seq<char>| #[trigger] self@.dom().contains(k) ==> self@[k].topic == k,
    {
        lemma_entries_map_finite(self.entries@);
        assert forall|k: Seq<char>| #[trigger] self@.dom().contains(k) implies self@[k].topic == k by {
            let i = choose|i: int| 0 <= i < self.entries@.len() && self.entries@[i].topic@ == k;
        }
    }

    /// An empty table.
    pub fn new() -> (t: Self)
        ensures
            t@ == Map::<Seq<char>, ContactView>::empty(),
    {
        let t = ContactTable { entries: Vec::new() };
        assert(t@ =~= Map::<Seq<char>, ContactView>::empty());
        t
    }

    /// The number of sensors in the table.
    pub fn len(&self) -> (n: usize)
        ensures
            n == self@.dom().len(),
    {
        proof {
            use_type_invariant(self);
            lemma_entries_map_finite(self.entries@);
        }
        self.entries.len()
    }

    fn find(&self, topic: &str) -> (r: Option<usize>)
        ensures
            match r {
                Some(i) => i < self.entries@.len() && self.entries@[i as int].topic@ == topic@,
                None => !has_topic(self.entries@, topic@),
            },
    {
        let mut i: usize = 0;
        while i < self.entries.len()
            invariant
                0 <= i <= self.entries@.len(),
                forall|k: int| 0 <= k < i ==> self.entries@[k].topic@ != topic@,
            decreases self.entries.len() - i,
        {
            if str_equal(self.entries[i].topic.as_str(), topic) {
                return Some(i);
            }
            i += 1;
        }
        None
    }

    /// Whether `topic` has a status in the table.
    pub fn contains(&self, topic: &str) -> (b: bool)
        ensures
            b == self@.dom().contains(topic@),
    {
        self.find(topic).is_some()
    }

    /// The status of `topic`, if the table holds one.
    pub fn get(&self, topic: &str) -> (r: Option<&ContactStatus>)
        ensures
            match r {
                Some(c) => self@.dom().contains(topic@) && self@[topic@] == c@,
                None => !self@.dom().contains(topic@),
            },
    {
        proof {
            use_type_invariant(self);
        }
        match self.find(topic) {
            Some(i) => {
                proof {
                    let j = choose|j: int|
                        0 <= j < self.entries@.len() && self.entries@[j].topic@ == topic@;
                    assert(j == i as int);
                }
                Some(&self.entries[i])
            },
            None => None,
        }
    }

    /// Stores `status` under its topic, in place of any status the topic had.
    pub fn insert(&mut self, status: ContactStatus)
        ensures
            final(self)@ == old(self)@.insert(status.topic@, status@),
    {
        proof {
            use_type_invariant(&*self);
        }
        let found = self.find(status.topic.as_str());
        let mut taken = ContactTable::new();
        std::mem::swap(&mut taken, self);
        let ContactTable { mut entries } = taken;
        match found {
            Some(i) => {
                proof {
                    lemma_entries_map_update(entries@, i as int, status);
                }
                entries.set(i, status);
            },
            None => {
                proof {
                    lemma_entries_map_push(entries@, status);
                }
                entries.push(status);
            },
        }
        *self = ContactTable { entries };
    }

    /// Drops the status of `topic`, if any.
    pub fn remove(&mut self, topic: &str)
        ensures
            final(self)@ == old(self)@.remove(topic@),
    {
        proof {
            use_type_invariant(&*self);
        }
        match self.find(topic) {
            Some(i) => {
                let mut taken = ContactTable::new();
                std::mem::swap(&mut taken, self);
                let ContactTable { mut entries } = taken;
                proof {
                    lemma_entries_map_remove(entries@, i as int);
                }
                let _ = entries.remove(i);
                *self = ContactTable { entries };
            },
            None => {
                assert(self@.remove(topic@) =~= self@);
            },
        }
    }

    /// The number of open contacts in the table.
    pub fn count_open(&self) -> (n: usize)
        ensures
            n == open_topics(self@).len(),
    {
        proof {
            use_type_invariant(self);
        }
        let mut n: usize = 0;
        let mut i: usize = 0;
        while i < self.entries.len()
            invariant
                0 <= i <= self.entries@.len(),
                n == open_entries(self.entries@.subrange(0, i as int)),
                n <= i,
            decreases self.entries.len() - i,
        {
            proof {
                assert(self.entries@.subrange(0, i + 1).drop_last() =~= self.entries@.subrange(
                    0,
                    i as int,
                ));
            }
            if !self.entries[i].contact {
                n += 1;
            }
            i += 1;
        }
        proof {
            assert(self.entries@.subrange(0, i as int) =~= self.entries@);
            lemma_entries_map_finite(self.entries@);
        }
        n
    }

    /// Copies of all statuses, one per topic, in no particular order.
    pub fn values(&self) -> (v: Vec<ContactStatus>)
        ensures
            distinct_topics(v@),
            entries_map(v@) == self@,
    {
        proof {
            use_type_invariant(self);
        }
        let mut v: Vec<ContactStatus> = Vec::new();
        let mut i: usize = 0;
        while i < self.entries.len()
            invariant
                0 <= i <= self.entries@.len(),
                distinct_topics(self.entries@),
                v@.len() == i,
                forall|k: int| 0 <= k < i ==> (#[trigger] v@[k])@ == self.entries@[k]@,
            decreases self.entries.len() - i,
        {
            v.push(self.entries[i].clone());
            i += 1;
        }
        proof {
            let s = self.entries@;
            assert forall|a: int, b: int|
                0 <= a < v@.len() && 0 <= b < v@.len() && a != b implies v@[a].topic@
                != v@[b].topic@ by {
                assert(v@[a]@ == s[a]@);
                assert(v@[b]@ == s[b]@);
            }
            let x = entries_map(v@);
            let y = entries_map(s);
            assert forall|k: Seq<char>| x.dom().contains(k) <==> y.dom().contains(k) by {
                if has_topic(s, k) {
                    let j = choose|j: int| 0 <= j < s.len() && s[j].topic@ == k;
                    assert(v@[j]@ == s[j]@);
                }
                if has_topic(v@, k) {
                    let j = choose|j: int| 0 <= j < v@.len() && v@[j].topic@ == k;
                    assert(v@[j]@ == s[j]@);
                }
            }
            assert forall|k: Seq<char>| x.dom().contains(k) implies x[k] == y[k] by {
                let j = choose|j: int| 0 <= j < v@.len() && v@[j].topic@ == k;
                assert(v@[j]@ == s[j]@);
                let j2 = choose|j2: int| 0 <= j2 < s.len() && s[j2].topic@ == k;
                assert(j == j2);
            }
            assert(x =~= y);
        }
        v
    }
}

} // verus!

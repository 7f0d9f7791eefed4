//! The set of MQTT topics that a session has subscribed to.

use vstd::prelude::*;
use crate::text::str_equal;

verus! {

/// The views of a sequence of strings.
pub open spec fn string_views(s: Seq<String>) -> Seq<Seq<char>> {
    s.map_values(|x: String| x@)
}

/// A set of topics, each held once.
pub struct TopicSet {
    topics: Vec<String>,
}

impl View for TopicSet {
    type V = Set<Seq<char>>;

    /// The topics in the set.
    closed spec fn view(&self) -> Set<Seq<char>> {
        string_views(self.topics@).to_set()
    }
}

impl TopicSet {
    /// No topic is held twice.
    #[verifier::type_invariant]
    pub closed spec fn wf(&self) -> bool {
        string_views(self.topics@).no_duplicates()
    }

    /// An empty set.
    pub fn new() -> (s: Self)
        ensures
            s@ == Set::<Seq<char>>::empty(),
    {
        let s = TopicSet { topics: Vec::new() };
        assert(string_views(s.topics@) =~= Seq::<Seq<char>>::empty());
        assert(s.view() =~= Set::<Seq<char>>::empty());
        s
    }

    fn find(&self, topic: &str) -> (r: Option<usize>)
        ensures
            match r {
                Some(i) => i < self.topics@.len() && self.topics@[i as int]@ == topic@,
                None => !self@.contains(topic@),
            },
    {
        let mut i: usize = 0;
        while i < self.topics.len()
            invariant
                0 <= i <= self.topics@.len(),
                forall|k: int| 0 <= k < i ==> self.topics@[k]@ != topic@,
            decreases self.topics.len() - i,
        {
            if str_equal(self.topics[i].as_str(), topic) {
                return Some(i);
            }
            i += 1;
        }
        proof {
            if self@.contains(topic@) {
                let k = choose|k: int|
                    0 <= k < string_views(self.topics@).len() && string_views(self.topics@)[k]
                        == topic@;
                assert(self.topics@[k]@ == topic@);
            }
        }
        None
    }

    /// Whether `topic` is in the set.
    pub fn contains(&self, topic: &str) -> (b: bool)
        ensures
            b == self@.contains(topic@),
    {
        match self.find(topic) {
            Some(i) => {
                assert(string_views(self.topics@)[i as int] == topic@);
                true
            },
            None => false,
        }
    }

    /// The number of topics.
    pub fn len(&self) -> (n: usize)
        ensures
            n == self@.len(),
    {
        proof {
            use_type_invariant(self);
            string_views(self.topics@).unique_seq_to_set();
        }
        self.topics.len()
    }

    /// Adds `topic`.
    pub fn insert(&mut self, topic: String)
        ensures
            final(self)@ == old(self)@.insert(topic@),
    {
        proof {
            use_type_invariant(&*self);
        }
        match self.find(topic.as_str()) {
            Some(i) => {
                assert(string_views(self.topics@)[i as int] == topic@);
                assert(self@.insert(topic@) =~= self@);
            },
            None => {
                let mut taken = TopicSet::new();
                std::mem::swap(&mut taken, self);
                let TopicSet { mut topics } = taken;
                let ghost before = string_views(topics@);
                topics.push(topic);
                proof {
                    broadcast use vstd::seq_lib::group_seq_properties;
                    assert(string_views(topics@) =~= before.push(topic@));
                    assert(before.push(topic@).to_set() =~= before.to_set().insert(topic@));
                }
                *self = TopicSet { topics };
            },
        }
    }

    /// Removes `topic`.
    pub fn remove(&mut self, topic: &str)
        ensures
            final(self)@ == old(self)@.remove(topic@),
    {
        proof {
            use_type_invariant(&*self);
        }
        match self.find(topic) {
            Some(i) => {
                let mut taken = TopicSet::new();
                std::mem::swap(&mut taken, self);
                let TopicSet { mut topics } = taken;
                let ghost before = string_views(topics@);
                let _ = topics.remove(i);
                proof {
                    let after = string_views(topics@);
                    assert(after =~= before.remove(i as int));
                    assert forall|a: int, b: int|
                        0 <= a < after.len() && 0 <= b < after.len() && a != b implies after[a]
                        != after[b] by {
                        assert(after[a] == before[if a < i { a } else { a + 1 }]);
                        assert(after[b] == before[if b < i { b } else { b + 1 }]);
                    }
                    assert forall|x: Seq<char>| after.to_set().contains(x) <==> before.to_set().remove(
                        topic@,
                    ).contains(x) by {
                        if after.to_set().contains(x) {
                            assert(after.contains(x));
                            let a = choose|a: int| 0 <= a < after.len() && after[a] == x;
                            let a2 = if a < i { a } else { a + 1 };
                            assert(before[a2] == x);
                            assert(before[i as int] == topic@);
                            assert(a2 != i);
                            assert(x != topic@);
                            assert(before.contains(x));
                        }
                        if before.to_set().contains(x) && x != topic@ {
                            let b = choose|b: int| 0 <= b < before.len() && before[b] == x;
                            assert(b != i);
                            assert(after[if b < i { b } else { b - 1 }] == x);
                            assert(after.contains(x));
                        }
                    }
                    assert(after.to_set() =~= before.to_set().remove(topic@));
                }
                *self = TopicSet { topics };
            },
            None => {
                assert(self@.remove(topic@) =~= self@);
            },
        }
    }

    /// Removes every topic.
    pub fn clear(&mut self)
        ensures
            final(self)@ == Set::<Seq<char>>::empty(),
    {
        *self = TopicSet::new();
    }

    /// Copies of the topics, each once, in no particular order.
    pub fn to_vec(&self) -> (v: Vec<String>)
        ensures
            string_views(v@).no_duplicates(),
            string_views(v@).to_set() == self@,
    {
        proof {
            use_type_invariant(self);
        }
        let mut v: Vec<String> = Vec::new();
        let mut i: usize = 0;
        while i < self.topics.len()
            invariant
                0 <= i <= self.topics@.len(),
                v@.len() == i,
                forall|k: int| 0 <= k < i ==> (#[trigger] v@[k])@ == self.topics@[k]@,
            decreases self.topics.len() - i,
        {
            v.push(self.topics[i].clone());
            i += 1;
        }
        assert(string_views(v@) =~= string_views(self.topics@));
        v
    }
}

} // verus!

//! The set of consumers currently subscribed to a cell.
//!
//! Subscribers are opaque identifiers handed out by the host runtime. The set
//! has plain set semantics: inserting a member twice is a no-op, and removing
//! an absent member leaves the set untouched.

use vstd::prelude::*;

verus! {

/// A duplicate-free collection of subscriber identifiers.
pub struct SubscriberSet {
    ids: Vec<u64>,
}

impl View for SubscriberSet {
    type V = Set<u64>;

    closed spec fn view(&self) -> Set<u64> {
        self.ids@.to_set()
    }
}

impl SubscriberSet {
    /// The backing vector never stores an identifier twice.
    pub closed spec fn wf(&self) -> bool {
        self.ids@.no_duplicates()
    }

    pub fn new() -> (s: Self)
        ensures
            s@ == Set::<u64>::empty(),
            s.wf(),
    {
        let s = SubscriberSet { ids: Vec::new() };
        proof {
            assert(s@ =~= Set::<u64>::empty());
        }
        s
    }

    pub fn len(&self) -> (n: usize)
        requires
            self.wf(),
        ensures
            n == self@.len(),
    {
        proof {
            self.ids@.unique_seq_to_set();
        }
        self.ids.len()
    }

    pub fn contains(&self, id: u64) -> (present: bool)
        ensures
            present == self@.contains(id),
    {
        let mut i: usize = 0;
        while i < self.ids.len()
            invariant
                i <= self.ids@.len(),
                forall|j: int| 0 <= j < i ==> self.ids@[j] != id,
            decreases self.ids@.len() - i,
        {
            if self.ids[i] == id {
                return true;
            }
            i += 1;
        }
        false
    }

    /// Adds `id` to the set; a member already present stays a single member.
    pub fn insert(&mut self, id: u64)
        requires
            old(self).wf(),
        ensures
            final(self).wf(),
            final(self)@ == old(self)@.insert(id),
            old(self)@.contains(id) ==> *final(self) == *old(self),
    {
        if !self.contains(id) {
            self.ids.push(id);
            proof {
                assert(self@ =~= old(self)@.insert(id)) by {
                    assert(forall|x: u64| self.ids@.contains(x) <==> (old(
                        self,
                    ).ids@.contains(x) || x == id)) by {
                        assert(forall|x: u64| #[trigger] old(self).ids@.contains(x)
                            ==> self.ids@.contains(x)) by {
                            assert(forall|j: int|
                                0 <= j < old(self).ids@.len() ==> self.ids@[j] == old(
                                    self,
                                ).ids@[j]);
                        };
                        assert(self.ids@.contains(id)) by {
                            assert(self.ids@[self.ids@.len() - 1] == id);
                        };
                        assert(forall|x: u64| #[trigger] self.ids@.contains(x) && x != id
                            ==> old(self).ids@.contains(x)) by {
                            assert(forall|j: int|
                                0 <= j < self.ids@.len() && self.ids@[j] != id ==> old(
                                    self,
                                ).ids@.contains(self.ids@[j]));
                        };
                    };
                };
            }
        } else {
            proof {
                assert(self@ =~= self@.insert(id));
            }
        }
    }

    /// Removes `id` from the set; removing an absent member changes nothing.
    pub fn remove(&mut self, id: u64)
        requires
            old(self).wf(),
        ensures
            final(self).wf(),
            final(self)@ == old(self)@.remove(id),
            !old(self)@.contains(id) ==> *final(self) == *old(self),
    {
        let mut i: usize = 0;
        while i < self.ids.len()
            invariant
                i <= self.ids@.len(),
                self.wf(),
                *self == *old(self),
                forall|j: int| 0 <= j < i ==> self.ids@[j] != id,
            decreases self.ids@.len() - i,
        {
            if self.ids[i] == id {
                self.ids.remove(i);
                proof {
                    assert(self@ =~= old(self)@.remove(id)) by {
                        let prev = old(self).ids@;
                        assert(forall|x: u64| #[trigger] self.ids@.contains(x)
                            ==> prev.contains(x) && x != id) by {
                            assert(forall|j: int| 0 <= j < self.ids@.len() ==> self.ids@[j]
                                == (if j < i { prev[j] } else { prev[j + 1] }));
                        };
                        assert(forall|x: u64| #[trigger] prev.contains(x) && x != id
                            ==> self.ids@.contains(x)) by {
                            assert(forall|j: int| 0 <= j < prev.len() && prev[j] != id
                                ==> self.ids@.contains(prev[j])) by {
                                assert(forall|j: int|
                                    0 <= j < i ==> self.ids@[j] == prev[j]);
                                assert(forall|j: int|
                                    i < j < prev.len() ==> self.ids@[j - 1] == prev[j]);
                            };
                        };
                    };
                }
                return ;
            }
            i += 1;
        }
        proof {
            assert(!self.ids@.contains(id));
            assert(self@ =~= self@.remove(id));
        }
    }

    /// The current membership, one entry per member, for notification fan-out.
    pub fn snapshot(&self) -> (ids: Vec<u64>)
        requires
            self.wf(),
        ensures
            ids@.no_duplicates(),
            forall|id: u64| #[trigger] ids@.contains(id) <==> self@.contains(id),
    {
        let mut out: Vec<u64> = Vec::new();
        let mut i: usize = 0;
        while i < self.ids.len()
            invariant
                i <= self.ids@.len(),
                out@ == self.ids@.take(i as int),
                self.wf(),
            decreases self.ids@.len() - i,
        {
            let id = self.ids[i];
            out.push(id);
            proof {
                assert(out@ =~= self.ids@.take(i + 1));
            }
            i += 1;
        }
        proof {
            assert(out@ =~= self.ids@);
        }
        out
    }
}

} // verus!

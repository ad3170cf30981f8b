//! Which clusters a connection has been made for.
//!
//! A connection to a cluster is made on first use and kept. This registry
//! gives every cluster one slot, the first time it is asked for, and the same
//! slot ever after; whoever holds the connections keeps them by slot.

use vstd::prelude::*;
use vstd::string::StringExecFns;

use crate::text::same_text;

verus! {

/// The clusters that have a slot, in the order in which they got one.
pub struct ClusterSlots {
    names: Vec<String>,
}

impl ClusterSlots {
    /// The clusters that have a slot: the cluster at index `i` has slot `i`.
    pub closed spec fn clusters(self) -> Seq<Seq<char>> {
        Seq::new(self.names@.len(), |i: int| self.names@[i]@)
    }

    /// No cluster has two slots.
    #[verifier::type_invariant]
    spec fn distinct(self) -> bool {
        forall|i: int, j: int|
            0 <= i < j < self.names@.len() ==> self.names@[i]@ != self.names@[j]@
    }

    /// Whether `cluster` has a slot.
    pub open spec fn holds(self, cluster: Seq<char>) -> bool {
        exists|i: int| 0 <= i < self.clusters().len() && self.clusters()[i] == cluster
    }

    /// A registry in which no cluster has a slot yet.
    pub fn new() -> (slots: Self)
        ensures
            slots.clusters().len() == 0,
    {
        ClusterSlots { names: Vec::new() }
    }

    /// How many clusters have a slot.
    pub fn len(&self) -> (count: usize)
        ensures
            count == self.clusters().len(),
    {
        self.names.len()
    }

    /// The slot of `cluster`, if it has one.
    pub fn find(&self, cluster: &str) -> (slot: Option<usize>)
        ensures
            match slot {
                Some(i) => i < self.clusters().len() && forall|k: int|
                    0 <= k < self.clusters().len() ==> (self.clusters()[k] == cluster@ <==> k == i),
                None => !self.holds(cluster@),
            },
    {
        let mut i: usize = 0;
        while i < self.names.len()
            invariant
                i <= self.names@.len(),
                self.clusters().len() == self.names@.len(),
                forall|k: int| 0 <= k < i ==> self.clusters()[k] != cluster@,
            decreases self.names.len() - i,
        {
            if same_text(self.names[i].as_str(), cluster) {
                proof {
                    use_type_invariant(self);
                    assert forall|k: int| i < k < self.clusters().len() implies self.clusters()[k]
                        != cluster@ by {
                        assert(self.names@[i as int]@ != self.names@[k]@);
                    }
                }
                return Some(i);
            }
            i += 1;
        }
        None
    }

    /// Gives `cluster` a slot. A cluster that had a slot keeps it and nothing
    /// changes; one that had none gets the next slot. The result is the
    /// registry afterwards, the slot of `cluster`, and whether it was given
    /// just now.
    pub fn with_slot(self, cluster: &str) -> (given: (Self, usize, bool))
        ensures
            given.1 < given.0.clusters().len(),
            given.0.clusters()[given.1 as int] == cluster@,
            given.2 == !self.holds(cluster@),
            given.2 ==> given.1 == self.clusters().len() && given.0.clusters()
                == self.clusters().push(cluster@),
            !given.2 ==> given.0.clusters() == self.clusters(),
    {
        match self.find(cluster) {
            Some(i) => (self, i, false),
            None => {
                let ghost before = self.clusters();
                proof {
                    use_type_invariant(&self);
                    assert forall|i: int| 0 <= i < before.len() implies before[i] != cluster@ by {}
                }
                let mut names = self.names;
                let fresh: usize = names.len();
                names.push(String::from_str(cluster));
                proof {
                    assert forall|i: int, j: int| 0 <= i < j < names@.len() implies names@[i]@
                        != names@[j]@ by {
                        if j == names@.len() - 1 {
                            assert(before[i] == names@[i]@);
                        }
                    }
                }
                let slots = ClusterSlots { names };
                proof {
                    assert(slots.clusters() =~= before.push(cluster@));
                }
                (slots, fresh, true)
            },
        }
    }
}

} // verus!

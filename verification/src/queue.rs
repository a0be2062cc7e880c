//! The per-cabin destination queue: a FIFO of floors with unique
//! membership.  Enqueuing appends at the tail unless the floor is
//! already waiting; the mover consumes from the head; latching the
//! emergency drains it.

use vstd::prelude::*;

use crate::common::Floor;

verus! {

/// What one enqueue does: append at the tail, unless the floor is
/// already in the queue.
pub open spec fn spec_enqueue(q: Seq<Floor>, floor: Floor) -> Seq<Floor> {
    if q.contains(floor) {
        q
    } else {
        q.push(floor)
    }
}

/// What enqueuing a whole sequence of requests does, front to back.
pub open spec fn spec_enqueue_all(q: Seq<Floor>, floors: Seq<Floor>) -> Seq<Floor>
    decreases floors.len(),
{
    if floors.len() == 0 {
        q
    } else {
        spec_enqueue_all(spec_enqueue(q, floors[0]), floors.skip(1))
    }
}

/// Unique membership: no floor appears twice.
pub open spec fn spec_unique(q: Seq<Floor>) -> bool {
    forall|i: int, j: int| 0 <= i < j < q.len() ==> q[i] != q[j]
}

/// A cabin's destination queue.
pub struct FloorQueue {
    items: Vec<Floor>,
}

impl View for FloorQueue {
    type V = Seq<Floor>;

    closed spec fn view(&self) -> Seq<Floor> {
        self.items@
    }
}

impl FloorQueue {
    /// The invariant every operation preserves: each floor waits at
    /// most once.
    pub open spec fn wf(&self) -> bool {
        spec_unique(self@)
    }

    /// An empty queue.
    pub fn new() -> (r: FloorQueue)
        ensures
            r@ == Seq::<Floor>::empty(),
            r.wf(),
    {
        FloorQueue { items: Vec::new() }
    }

    /// How many destinations wait.
    pub fn len(&self) -> (r: usize)
        ensures
            r == self@.len(),
    {
        self.items.len()
    }

    /// Whether nothing waits.
    pub fn is_empty(&self) -> (r: bool)
        ensures
            r == (self@.len() == 0),
    {
        self.items.len() == 0
    }

    /// Whether `floor` already waits in the queue.
    pub fn contains(&self, floor: Floor) -> (r: bool)
        ensures
            r == self@.contains(floor),
    {
        let mut i: usize = 0;
        while i < self.items.len()
            invariant
                i <= self.items@.len(),
                forall|k: int| 0 <= k < i ==> self.items@[k] != floor,
            decreases self.items@.len() - i,
        {
            if self.items[i] == floor {
                return true;
            }
            i = i + 1;
        }
        false
    }

    /// Add a destination at the tail unless it already waits.
    pub fn enqueue(&mut self, floor: Floor)
        requires
            old(self).wf(),
        ensures
            final(self).wf(),
            final(self)@ == spec_enqueue(old(self)@, floor),
    {
        if !self.contains(floor) {
            self.items.push(floor);
        }
    }

    /// Take the destination at the head, if any waits.
    pub fn pop(&mut self) -> (r: Option<Floor>)
        requires
            old(self).wf(),
        ensures
            final(self).wf(),
            old(self)@.len() == 0 ==> r is None && final(self)@ == old(self)@,
            old(self)@.len() > 0 ==> r == Some(old(self)@[0]) && final(self)@ == old(
                self,
            )@.drop_first(),
    {
        if self.items.len() == 0 {
            None
        } else {
            let floor = self.items.remove(0);
            proof {
                assert(old(self)@.remove(0) =~= old(self)@.drop_first());
            }
            Some(floor)
        }
    }

    /// Drain the queue; the emergency latch does this.
    pub fn clear(&mut self)
        ensures
            final(self)@ == Seq::<Floor>::empty(),
            final(self).wf(),
    {
        self.items.clear();
    }
}

/// One enqueue keeps the queue's floors unique, leaves every waiting
/// destination in its place, and adds exactly the given floor to the
/// membership.
pub proof fn lemma_enqueue_unique(q: Seq<Floor>, floor: Floor)
    requires
        spec_unique(q),
    ensures
        spec_unique(spec_enqueue(q, floor)),
        q.is_prefix_of(spec_enqueue(q, floor)),
        forall|x: Floor|
            spec_enqueue(q, floor).contains(x) <==> (q.contains(x) || x == floor),
{
    let r = spec_enqueue(q, floor);
    assert(q.is_prefix_of(r)) by {
        assert(q =~= r.subrange(0, q.len() as int));
    }
    assert forall|x: Floor| r.contains(x) <==> (q.contains(x) || x == floor) by {
        if q.contains(floor) {
        } else {
            if q.contains(x) {
                let i = choose|i: int| 0 <= i < q.len() && q[i] == x;
                assert(r[i] == x);
            }
            if x == floor {
                assert(r[q.len() as int] == x);
            }
            if r.contains(x) {
                let i = choose|i: int| 0 <= i < r.len() && r[i] == x;
                if i < q.len() {
                    assert(q[i] == x);
                }
            }
        }
    }
    if !q.contains(floor) {
        assert forall|i: int, j: int| 0 <= i < j < r.len() implies r[i] != r[j] by {
            if j == q.len() as int {
                assert(q[i] == r[i]);
            }
        }
    }
}

/// After enqueuing any sequence of requests into a well-formed
/// queue, the queue still holds each floor at most once; the
/// destinations that already waited keep their places, so entries
/// stand in first-insertion order; and a floor waits afterwards
/// exactly when it waited before or was requested.
pub proof fn lemma_enqueue_all_unique(q: Seq<Floor>, floors: Seq<Floor>)
    requires
        spec_unique(q),
    ensures
        spec_unique(spec_enqueue_all(q, floors)),
        q.is_prefix_of(spec_enqueue_all(q, floors)),
        forall|x: Floor|
            spec_enqueue_all(q, floors).contains(x) <==> (q.contains(x) || floors.contains(x)),
    decreases floors.len(),
{
    let r = spec_enqueue_all(q, floors);
    if floors.len() == 0 {
        assert(q.is_prefix_of(r)) by {
            assert(q =~= r.subrange(0, q.len() as int));
        }
        assert(forall|x: Floor| !floors.contains(x));
    } else {
        let q1 = spec_enqueue(q, floors[0]);
        lemma_enqueue_unique(q, floors[0]);
        lemma_enqueue_all_unique(q1, floors.skip(1));
        assert(q.is_prefix_of(r)) by {
            assert(q1 =~= spec_enqueue_all(q1, floors.skip(1)).subrange(0, q1.len() as int));
            assert(q =~= r.subrange(0, q.len() as int));
        }
        assert forall|x: Floor| r.contains(x) <==> (q.contains(x) || floors.contains(x)) by {
            assert(r.contains(x) <==> (q1.contains(x) || floors.skip(1).contains(x)));
            assert(floors.contains(x) <==> (x == floors[0] || floors.skip(1).contains(x))) by {
                if floors.contains(x) {
                    let i = choose|i: int| 0 <= i < floors.len() && floors[i] == x;
                    if i > 0 {
                        assert(floors.skip(1)[i - 1] == x);
                    }
                }
                if floors.skip(1).contains(x) {
                    let i = choose|i: int| 0 <= i < floors.skip(1).len() && floors.skip(1)[i] == x;
                    assert(floors[i + 1] == x);
                }
            }
        }
    }
}

} // verus!

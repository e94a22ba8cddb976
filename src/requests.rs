//! Requests in flight, and the race between their completion and their
//! cancellation.
use vstd::prelude::*;
use crate::error::ErrorKind;

verus! {

/// The ids of the requests that have been dispatched and have neither been
/// answered nor cancelled. Whichever of completion and cancellation takes an id
/// out first wins; the other finds it gone and its message is dropped.
pub struct InFlight {
    ids: Vec<i64>,
    model: Ghost<Set<i64>>,
}

/// The ids in flight after `begin`, or the error.
pub open spec fn spec_begin(s: Set<i64>, id: i64) -> Result<Set<i64>, ErrorKind> {
    if s.contains(id) {
        Err(ErrorKind::DuplicateRequest)
    } else {
        Ok(s.insert(id))
    }
}

/// The ids in flight after completion or cancellation of `id`, and whether
/// this call won the request: only the winner's message goes to the client.
pub open spec fn spec_settle(s: Set<i64>, id: i64) -> (Set<i64>, bool) {
    (s.remove(id), s.contains(id))
}

impl View for InFlight {
    type V = Set<i64>;

    closed spec fn view(&self) -> Set<i64> {
        self.model@
    }
}

impl InFlight {
    pub closed spec fn wf(&self) -> bool {
        &&& forall|i: int| 0 <= i < self.ids@.len() ==> #[trigger] self.model@.contains(self.ids@[i])
        &&& forall|x: i64|
            #[trigger] self.model@.contains(x) ==> exists|i: int|
                0 <= i < self.ids@.len() && #[trigger] self.ids@[i] == x
        &&& forall|i: int, j: int|
            0 <= i < j < self.ids@.len() ==> #[trigger] self.ids@[i] != #[trigger] self.ids@[j]
    }

    pub fn new() -> (r: Self)
        ensures
            r.wf(),
            r@ == Set::<i64>::empty(),
    {
        InFlight { ids: Vec::new(), model: Ghost(Set::empty()) }
    }

    fn find(&self, id: i64) -> (r: Option<usize>)
        requires
            self.wf(),
        ensures
            r is None <==> !self@.contains(id),
            r matches Option::Some(i) ==> i < self.ids@.len() && self.ids@[i as int] == id,
    {
        let mut i: usize = 0;
        while i < self.ids.len()
            invariant
                self.wf(),
                i <= self.ids@.len(),
                forall|j: int| 0 <= j < i ==> #[trigger] self.ids@[j] != id,
            decreases self.ids.len() - i,
        {
            if self.ids[i] == id {
                return Option::Some(i);
            }
            i = i + 1;
        }
        Option::None
    }

    /// Whether `id` is in flight.
    pub fn contains(&self, id: i64) -> (r: bool)
        requires
            self.wf(),
        ensures
            r == self@.contains(id),
    {
        self.find(id).is_some()
    }

    /// Records that request `id` has been dispatched.
    pub fn begin(&mut self, id: i64) -> (r: Result<(), ErrorKind>)
        requires
            old(self).wf(),
        ensures
            final(self).wf(),
            (match r {
                Ok(_) => Ok(final(self)@),
                Err(e) => Err(e),
            }) == spec_begin(old(self)@, id),
            r is Err ==> final(self)@ == old(self)@,
    {
        if self.find(id).is_some() {
            return Err(ErrorKind::DuplicateRequest);
        }
        let ghost s0 = self.model@;
        let ghost ids0 = self.ids@;
        self.model = Ghost(s0.insert(id));
        self.ids.push(id);
        proof {
            let n = ids0.len() as int;
            assert(self.ids@[n] == id);
            assert forall|i: int| 0 <= i < n implies #[trigger] self.ids@[i] != id by {
                assert(s0.contains(ids0[i]));
                assert(self.ids@[i] == ids0[i]);
            }
            assert forall|i: int| 0 <= i < self.ids@.len() implies #[trigger] self.model@.contains(
                self.ids@[i],
            ) by {
                if i < n {
                    assert(s0.contains(ids0[i]));
                    assert(self.ids@[i] == ids0[i]);
                }
            }
            assert forall|x: i64| #[trigger] self.model@.contains(x) implies exists|i: int|
                0 <= i < self.ids@.len() && #[trigger] self.ids@[i] == x by {
                if x != id {
                    let i = choose|i: int| 0 <= i < ids0.len() && #[trigger] ids0[i] == x;
                    assert(self.ids@[i] == x);
                } else {
                    assert(self.ids@[n] == x);
                }
            }
        }
        Ok(())
    }

    /// Takes `id` out of flight, for its completion or its cancellation.
    /// Returns whether it was in flight, that is whether this call won.
    pub fn settle(&mut self, id: i64) -> (r: bool)
        requires
            old(self).wf(),
        ensures
            final(self).wf(),
            (final(self)@, r) == spec_settle(old(self)@, id),
    {
        let i = match self.find(id) {
            Option::None => {
                assert(old(self)@.remove(id) =~= old(self)@);
                return false;
            },
            Option::Some(i) => i,
        };
        let ghost s0 = self.model@;
        let ghost ids0 = self.ids@;
        self.model = Ghost(s0.remove(id));
        self.ids.remove(i);
        proof {
            assert forall|x: i64| #[trigger] self.model@.contains(x) implies exists|j: int|
                0 <= j < self.ids@.len() && #[trigger] self.ids@[j] == x by {
                let j = choose|j: int| 0 <= j < ids0.len() && #[trigger] ids0[j] == x;
                if j < i {
                    assert(self.ids@[j] == x);
                } else {
                    assert(self.ids@[j - 1] == x);
                }
            }
            assert forall|j: int| 0 <= j < self.ids@.len() implies #[trigger] self.model@.contains(
                self.ids@[j],
            ) by {
                let j0 = if j < i { j } else { j + 1 };
                assert(self.ids@[j] == ids0[j0]);
                assert(ids0[j0] != ids0[i as int]);
                assert(s0.contains(ids0[j0]));
            }
            assert forall|a: int, b: int| 0 <= a < b < self.ids@.len() implies #[trigger] self.ids@[a]
                != #[trigger] self.ids@[b] by {
                let a0 = if a < i { a } else { a + 1 };
                let b0 = if b < i { b } else { b + 1 };
                assert(self.ids@[a] == ids0[a0]);
                assert(self.ids@[b] == ids0[b0]);
            }
        }
        true
    }
}

/// Completion and cancellation of one dispatched request: whichever comes
/// first wins and the other is dropped, so the request is answered exactly
/// once. In particular a cancellation after the result was delivered changes
/// nothing, and the result is not delivered again.
pub proof fn lemma_single_winner(s: Set<i64>, id: i64)
    requires
        s.contains(id),
    ensures
        spec_settle(s, id).1,
        !spec_settle(spec_settle(s, id).0, id).1,
        spec_settle(spec_settle(s, id).0, id).0 == spec_settle(s, id).0,
{
    assert(s.remove(id).remove(id) =~= s.remove(id));
}

} // verus!

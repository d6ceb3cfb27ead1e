use vstd::prelude::*;

verus! {

/// Subscription ids handed over on discard, waiting for a best-effort
/// unsubscribe by a background task, so that discarding never waits.
pub struct PendingUnsubscribes {
    sids: Vec<u64>,
}

impl View for PendingUnsubscribes {
    type V = Seq<u64>;

    closed spec fn view(&self) -> Seq<u64> {
        self.sids@
    }
}

impl PendingUnsubscribes {
    /// An empty list.
    pub fn new() -> (r: PendingUnsubscribes)
        ensures
            r@ == Seq::<u64>::empty(),
    {
        PendingUnsubscribes { sids: Vec::new() }
    }

    /// Records the sid that a discard handed over, if any.
    pub fn enqueue(&mut self, handed_over: Option<u64>)
        ensures
            final(self)@ == match handed_over {
                Some(sid) => old(self)@.push(sid),
                None => old(self)@,
            },
    {
        if let Some(sid) = handed_over {
            self.sids.push(sid);
        }
    }

    /// How many sids are waiting.
    pub fn len(&self) -> (r: usize)
        ensures
            r == self@.len(),
    {
        self.sids.len()
    }

    /// Takes every waiting sid, oldest first, and leaves the list empty.
    pub fn take_all(&mut self) -> (r: Vec<u64>)
        ensures
            r@ == old(self)@,
            final(self)@ == Seq::<u64>::empty(),
    {
        let mut taken: Vec<u64> = Vec::new();
        std::mem::swap(&mut taken, &mut self.sids);
        taken
    }
}

} // verus!

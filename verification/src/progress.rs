use vstd::prelude::*;

verus! {

/// The countdown of remaining work items for one batch run. It starts at the
/// plan's size and is decremented exactly once per attempted file, whatever
/// the outcome for that file, so it reaches zero exactly when every work item
/// has been attempted. The ghost fields record how the count got where it is.
pub struct ProgressCounter {
    pub remaining: usize,
    pub total: Ghost<nat>,
    pub completed: Ghost<nat>,
}

impl ProgressCounter {
    /// The counter's books balance: work done plus work left is the plan size.
    pub open spec fn wf(&self) -> bool {
        self.remaining as nat + self.completed@ == self.total@
    }

    pub fn new(n: usize) -> (r: ProgressCounter)
        ensures
            r.wf(),
            r.remaining == n,
            r.total@ == n as nat,
            r.completed@ == 0,
    {
        ProgressCounter { remaining: n, total: Ghost(n as nat), completed: Ghost(0) }
    }

    /// Records one attempted work item and returns the new remaining count.
    pub fn complete_one(&mut self) -> (left: usize)
        requires
            old(self).wf(),
            old(self).remaining > 0,
        ensures
            final(self).wf(),
            final(self).remaining == old(self).remaining - 1,
            final(self).completed@ == old(self).completed@ + 1,
            final(self).total@ == old(self).total@,
            left == final(self).remaining,
    {
        self.remaining = self.remaining - 1;
        proof {
            self.completed@ = self.completed@ + 1;
        }
        self.remaining
    }

    pub fn remaining(&self) -> (r: usize)
        ensures
            r == self.remaining,
    {
        self.remaining
    }
}

} // verus!

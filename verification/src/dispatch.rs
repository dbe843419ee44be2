//! Cross-context dispatch: a single-producer queue of named shell actions,
//! posted from the indicator's execution context and drained by the main
//! context one per iteration, in order of posting.
//!
//! Posting is fire-and-forget: no value crosses back to the poster. The
//! queue promises FIFO order among its own entries only; nothing is said of
//! its order relative to events other contexts produce concurrently.

use vstd::prelude::*;

use crate::indicator::ShellAction;

verus! {

pub struct DispatchQueue {
    entries: Vec<ShellAction>,
}

impl View for DispatchQueue {
    type V = Seq<ShellAction>;

    closed spec fn view(&self) -> Seq<ShellAction> {
        self.entries@
    }
}

impl DispatchQueue {
    pub fn new() -> (q: DispatchQueue)
        ensures
            q@ == Seq::<ShellAction>::empty(),
    {
        let q = DispatchQueue { entries: Vec::new() };
        proof {
            assert(q@ =~= Seq::<ShellAction>::empty());
        }
        q
    }

    /// Queue an action for the main context's next iterations.
    pub fn post(&mut self, action: ShellAction)
        ensures
            final(self)@ == old(self)@.push(action),
    {
        self.entries.push(action);
    }

    /// Take the oldest queued action, if any: the drain order is exactly the
    /// post order.
    pub fn drain_next(&mut self) -> (r: Option<ShellAction>)
        ensures
            old(self)@.len() == 0 ==> r is None && final(self)@ == old(self)@,
            old(self)@.len() > 0 ==> r == Some(old(self)@[0]) && final(self)@ == old(
                self,
            )@.drop_first(),
    {
        if self.entries.len() == 0 {
            None
        } else {
            let a = self.entries.remove(0);
            proof {
                assert(self@ =~= old(self)@.drop_first());
            }
            Some(a)
        }
    }

    pub fn len(&self) -> (n: usize)
        ensures
            n == self@.len(),
    {
        self.entries.len()
    }
}

} // verus!

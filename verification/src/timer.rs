//! A single-shot scheduler slot under a virtual millisecond clock. It holds
//! at most one outstanding task; scheduling replaces whatever was pending
//! (last call wins, pending work never stacks), and a task is named by a
//! fresh handle so that a stale cancellation cannot touch a newer task.

use vstd::prelude::*;

verus! {

/// A pending single-shot task: the handle that names it and the virtual
/// time at which it becomes due.
#[derive(Clone, Copy)]
pub struct PendingTask {
    pub handle: u64,
    pub due_ms: u64,
}

/// A one-slot single-shot timer. `pending` is the at-most-one outstanding
/// task; `next_handle` names the next task to be scheduled.
pub struct OneShotTimer {
    pub pending: Option<PendingTask>,
    pub next_handle: u64,
}

impl OneShotTimer {
    /// A timer with nothing scheduled.
    pub fn new() -> (t: OneShotTimer)
        ensures
            t.pending is None,
            t.next_handle == 0,
    {
        OneShotTimer { pending: None, next_handle: 0 }
    }

    /// Schedules the task `delay_ms` after `now_ms`, replacing any pending
    /// task, and returns the fresh handle that names it.
    pub fn schedule(&mut self, now_ms: u64, delay_ms: u64) -> (h: u64)
        ensures
            h == old(self).next_handle,
            final(self).next_handle == old(self).next_handle.saturating_add(1),
            final(self).pending == Some(PendingTask {
                handle: h,
                due_ms: now_ms.saturating_add(delay_ms),
            }),
    {
        let h = self.next_handle;
        self.next_handle = self.next_handle.saturating_add(1);
        self.pending = Some(PendingTask { handle: h, due_ms: now_ms.saturating_add(delay_ms) });
        h
    }

    /// Cancels the pending task if `h` still names it; a stale handle is a
    /// no-op, so a superseded task can never be cancelled by its old owner.
    pub fn cancel(&mut self, h: u64)
        ensures
            final(self).next_handle == old(self).next_handle,
            final(self).pending == (if old(self).pending is Some
                && old(self).pending.unwrap().handle == h {
                Option::<PendingTask>::None
            } else {
                old(self).pending
            }),
    {
        let stale = match self.pending {
            Some(p) => p.handle == h,
            None => false,
        };
        if stale {
            self.pending = None;
        }
    }

    /// Clears the pending task once it has fired.
    pub fn clear(&mut self)
        ensures
            final(self).next_handle == old(self).next_handle,
            final(self).pending is None,
    {
        self.pending = None;
    }
}

} // verus!

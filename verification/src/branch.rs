//! The branch side of a multiplexed batch: one task per prompt, forwarding
//! its pipeline's events to the merge point.
//!
//! A branch owns its request's capacity permit while it runs, and releases
//! it whichever way it stops: its terminal event was delivered, or a
//! delivery failed because the consumer disconnected. Capacity is returned
//! the moment the branch observes either, not at process exit, and never
//! waits for the backend to finish producing output.

use vstd::prelude::*;

verus! {

/// Where a branch task stands in its life.
#[derive(Clone, Copy, PartialEq, Eq, Structural, Debug)]
pub enum BranchPhase {
    /// Forwarding events; the permit is held.
    Running,
    /// The terminal event was delivered; the permit is released.
    Finished,
    /// A delivery failed (the consumer is gone); the permit is released.
    Cancelled,
}

/// One branch task and the capacity permit it owns.
#[derive(Clone, Copy, PartialEq, Eq, Structural, Debug)]
pub struct BranchTask {
    pub phase: BranchPhase,
    pub permit_held: bool,
}

/// The state of a branch after one delivery attempt: a failed delivery
/// cancels the branch, a delivered terminal event finishes it, and both
/// release the permit; otherwise the branch keeps running.
pub open spec fn spec_after_delivery(t: BranchTask, delivered: bool, terminal: bool) -> BranchTask {
    if !delivered {
        BranchTask { phase: BranchPhase::Cancelled, permit_held: false }
    } else if terminal {
        BranchTask { phase: BranchPhase::Finished, permit_held: false }
    } else {
        t
    }
}

impl BranchTask {
    /// A branch holds its permit exactly while it runs.
    pub open spec fn wf(self) -> bool {
        self.permit_held <==> self.phase is Running
    }

    /// A fresh branch task, admitted and holding its permit.
    pub fn spawn() -> (t: BranchTask)
        ensures
            t.phase is Running,
            t.permit_held,
            t.wf(),
    {
        BranchTask { phase: BranchPhase::Running, permit_held: true }
    }

    /// Record the outcome of forwarding one event downstream. `delivered`
    /// is false when the send failed because the consumer side of the
    /// channel is gone; `terminal` says whether the event ends the branch's
    /// stream. Returns whether the permit was released at this step.
    pub fn on_delivery(&mut self, delivered: bool, terminal: bool) -> (released: bool)
        requires
            old(self).wf(),
            old(self).phase is Running,
        ensures
            final(self).wf(),
            *final(self) == spec_after_delivery(*old(self), delivered, terminal),
            released == (delivered ==> terminal),
            released ==> !final(self).permit_held,
            !delivered ==> final(self).phase is Cancelled,
            (delivered && terminal) ==> final(self).phase is Finished,
            (delivered && !terminal) ==> final(self).phase is Running && final(self).permit_held,
    {
        if !delivered {
            self.phase = BranchPhase::Cancelled;
            self.permit_held = false;
            true
        } else if terminal {
            self.phase = BranchPhase::Finished;
            self.permit_held = false;
            true
        } else {
            false
        }
    }
}

/// Law: when a client disconnects mid-stream, every live branch of the
/// batch releases its permit at its next delivery attempt, without the
/// backend having to finish producing output: after one failed delivery,
/// no branch of the batch holds a permit, whatever event it was sending.
pub proof fn lemma_disconnect_releases_all(tasks: Seq<BranchTask>, terminals: Seq<bool>)
    requires
        tasks.len() == terminals.len(),
        forall|i: int| 0 <= i < tasks.len() ==> (#[trigger] tasks[i]).wf(),
    ensures
        forall|i: int|
            0 <= i < tasks.len() ==> !spec_after_delivery(
                #[trigger] tasks[i],
                false,
                terminals[i],
            ).permit_held,
{
}

} // verus!

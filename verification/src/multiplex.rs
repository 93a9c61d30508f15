//! Fan-out and fan-in of a multi-prompt request: independent per-prompt
//! branches are merged into one output stream for one client connection.
//!
//! Every forwarded event carries its branch index, which is the sole
//! correlation key for the client: events of one branch keep their order,
//! while the interleaving across branches is arbitrary. A branch leaves the
//! wait set exactly when its channel closes, and the completion sentinel is
//! appended exactly once, only after every branch has closed. The branch
//! side releases its capacity permit whichever way it stops: terminal event
//! delivered, or consumer gone.

use vstd::prelude::*;
use crate::errors::InferError;
use crate::stream::StreamItem;

verus! {

/// One forwarded event, tagged with the branch it came from.
#[derive(Clone, PartialEq, Eq, Debug)]
pub struct TaggedItem {
    pub index: usize,
    pub item: StreamItem,
}

/// One element of the merged output stream: a branch event, or the single
/// completion sentinel that ends the whole stream.
#[derive(Clone, PartialEq, Eq, Debug)]
pub enum MuxOutput {
    Event(TaggedItem),
    Done,
}

/// What the merge loop observes from the branch channels: an event of a
/// branch, or the closing of a branch's channel.
#[derive(Clone, PartialEq, Eq, Debug)]
pub enum MuxCmd {
    Item(usize, StreamItem),
    Close(usize),
}

/// The events of branch `i` inside a command sequence, in arrival order.
pub open spec fn spec_branch_inputs(cmds: Seq<MuxCmd>, i: int) -> Seq<StreamItem>
    decreases cmds.len(),
{
    if cmds.len() == 0 {
        Seq::empty()
    } else {
        let rest = spec_branch_inputs(cmds.skip(1), i);
        match cmds[0] {
            MuxCmd::Item(j, it) => if j == i {
                seq![it] + rest
            } else {
                rest
            },
            MuxCmd::Close(_) => rest,
        }
    }
}

/// The events of branch `i` inside the merged output, in output order.
pub open spec fn spec_out_events(out: Seq<MuxOutput>, i: int) -> Seq<StreamItem>
    decreases out.len(),
{
    if out.len() == 0 {
        Seq::empty()
    } else {
        let rest = spec_out_events(out.drop_last(), i);
        match out.last() {
            MuxOutput::Event(t) => if t.index == i {
                rest.push(t.item)
            } else {
                rest
            },
            MuxOutput::Done => rest,
        }
    }
}

/// A command sequence is well formed for a set of open branches when every
/// event belongs to a still-open branch, every close closes a still-open
/// branch (so each branch closes at most once), and when the sequence is
/// over every branch has been closed.
pub open spec fn spec_pending_wf(branches: Seq<bool>, cmds: Seq<MuxCmd>) -> bool
    decreases cmds.len(),
{
    if cmds.len() == 0 {
        forall|i: int| 0 <= i < branches.len() ==> !branches[i]
    } else {
        match cmds[0] {
            MuxCmd::Item(j, _) => j < branches.len() && branches[j as int] && spec_pending_wf(
                branches,
                cmds.skip(1),
            ),
            MuxCmd::Close(j) => j < branches.len() && branches[j as int] && spec_pending_wf(
                branches.update(j as int, false),
                cmds.skip(1),
            ),
        }
    }
}

/// Law: a merged output whose projection to branch `i` is nonempty holds a
/// forwarded event of branch `i`. Together with the projection equality of
/// [`merge_streams`], the branch indices observed across a batch whose
/// branches each sent at least one event are exactly the batch's indices.
pub proof fn lemma_observed_branch(out: Seq<MuxOutput>, i: int)
    requires
        spec_out_events(out, i).len() > 0,
    ensures
        exists|k: int|
            0 <= k < out.len() && (#[trigger] out[k]) is Event && out[k]->Event_0.index == i,
    decreases out.len(),
{
    match out.last() {
        MuxOutput::Event(t) => {
            if t.index == i {
                assert(out[out.len() - 1] is Event && out[out.len() - 1]->Event_0.index == i);
            } else {
                lemma_observed_branch(out.drop_last(), i);
                let k = choose|k: int|
                    0 <= k < out.drop_last().len() && (#[trigger] out.drop_last()[k]) is Event
                        && out.drop_last()[k]->Event_0.index == i;
                assert(out[k] is Event && out[k]->Event_0.index == i);
            }
        },
        MuxOutput::Done => {
            lemma_observed_branch(out.drop_last(), i);
            let k = choose|k: int|
                0 <= k < out.drop_last().len() && (#[trigger] out.drop_last()[k]) is Event
                    && out.drop_last()[k]->Event_0.index == i;
            assert(out[k] is Event && out[k]->Event_0.index == i);
        },
    }
}

/// The merge point of a multiplexed batch: which branch channels are still
/// open, and whether the completion sentinel has been emitted.
pub struct Multiplexer {
    branches: Vec<bool>,
    done_emitted: bool,
}

impl Multiplexer {
    /// Which branches are still open.
    pub closed spec fn branches_view(&self) -> Seq<bool> {
        self.branches@
    }

    /// Whether the completion sentinel has been emitted.
    pub closed spec fn done_view(&self) -> bool {
        self.done_emitted
    }

    /// Every branch channel has closed.
    pub open spec fn all_closed(&self) -> bool {
        forall|i: int| 0 <= i < self.branches_view().len() ==> !self.branches_view()[i]
    }

    /// A fresh merge point over `m` branches, all open, sentinel pending.
    pub fn new(m: usize) -> (mux: Multiplexer)
        ensures
            mux.branches_view().len() == m,
            forall|i: int| 0 <= i < m ==> mux.branches_view()[i],
            !mux.done_view(),
    {
        let mut branches: Vec<bool> = Vec::new();
        let mut k: usize = 0;
        while k < m
            invariant
                k <= m,
                branches@.len() == k,
                forall|i: int| 0 <= i < k ==> branches@[i],
            decreases m - k,
        {
            branches.push(true);
            k = k + 1;
        }
        Multiplexer { branches, done_emitted: false }
    }

    /// Whether a branch's channel is still open.
    pub fn is_open(&self, index: usize) -> (r: bool)
        requires
            index < self.branches_view().len(),
        ensures
            r == self.branches_view()[index as int],
    {
        self.branches[index]
    }

    /// Whether the completion sentinel has been emitted.
    pub fn is_done(&self) -> (r: bool)
        ensures
            r == self.done_view(),
    {
        self.done_emitted
    }

    /// Forward one event of an open branch downstream, tagged with its
    /// branch index. Forwarding never changes the wait set.
    pub fn forward(&mut self, index: usize, item: StreamItem) -> (out: TaggedItem)
        requires
            index < old(self).branches_view().len(),
            old(self).branches_view()[index as int],
            !old(self).done_view(),
        ensures
            final(self).branches_view() == old(self).branches_view(),
            final(self).done_view() == old(self).done_view(),
            out.index == index,
            out.item == item,
    {
        TaggedItem { index, item }
    }

    /// Remove a branch from the wait set, exactly when its channel closed.
    pub fn close(&mut self, index: usize)
        requires
            index < old(self).branches_view().len(),
            old(self).branches_view()[index as int],
            !old(self).done_view(),
        ensures
            final(self).branches_view() == old(self).branches_view().update(index as int, false),
            final(self).done_view() == old(self).done_view(),
    {
        self.branches.set(index, false);
    }

    /// Emit the completion sentinel when every branch has closed and it has
    /// not been emitted yet; report whether it was emitted now.
    pub fn try_complete(&mut self) -> (emitted: bool)
        ensures
            final(self).branches_view() == old(self).branches_view(),
            emitted <==> (old(self).all_closed() && !old(self).done_view()),
            final(self).done_view() == (old(self).done_view() || emitted),
    {
        if self.done_emitted {
            return false;
        }
        let mut k: usize = 0;
        while k < self.branches.len()
            invariant
                k <= self.branches@.len(),
                forall|i: int| 0 <= i < k ==> !self.branches@[i],
                !self.done_emitted,
                self.branches@ == old(self).branches_view(),
            decreases self.branches@.len() - k,
        {
            if self.branches[k] {
                return false;
            }
            k = k + 1;
        }
        self.done_emitted = true;
        true
    }
}

/// Merge the interleaved events of a multiplexed batch into the single
/// output stream the client sees.
///
/// Laws carried by the contract: for every branch, the merged output
/// restricted to that branch equals that branch's own events in their
/// original order, whatever the interleaving was; every forwarded event
/// carries a branch index below the batch size; and the completion
/// sentinel is the last element of the output, appearing exactly once,
/// strictly after every branch's events, only once every branch has
/// closed.
pub fn merge_streams(m: usize, cmds: Vec<MuxCmd>) -> (out: Vec<MuxOutput>)
    requires
        spec_pending_wf(Seq::new(m as nat, |i: int| true), cmds@),
    ensures
        out@.len() > 0,
        out@.last() == MuxOutput::Done,
        forall|k: int| 0 <= k < out@.len() - 1 ==> (#[trigger] out@[k]) is Event,
        forall|k: int|
            0 <= k < out@.len() && (#[trigger] out@[k]) is Event ==> out@[k]->Event_0.index < m,
        forall|i: int|
            0 <= i < m ==> #[trigger] spec_out_events(out@, i) == spec_branch_inputs(cmds@, i),
        forall|i: int|
            0 <= i < m && spec_branch_inputs(#[trigger] cmds@, i).len() > 0 ==> (exists|k: int|
                0 <= k < out@.len() && (#[trigger] out@[k]) is Event && out@[k]->Event_0.index
                    == i),
{
    let ghost cmds0 = cmds@;
    let mut remaining = cmds;
    let mut mux = Multiplexer::new(m);
    let mut out: Vec<MuxOutput> = Vec::new();
    proof {
        assert(mux.branches_view() =~= Seq::new(m as nat, |i: int| true));
    }
    while remaining.len() != 0
        invariant
            mux.branches_view().len() == m,
            !mux.done_view(),
            spec_pending_wf(mux.branches_view(), remaining@),
            forall|k: int| 0 <= k < out@.len() ==> (#[trigger] out@[k]) is Event,
            forall|k: int|
                0 <= k < out@.len() && (#[trigger] out@[k]) is Event ==> out@[k]->Event_0.index
                    < m,
            forall|i: int|
                0 <= i < m ==> #[trigger] spec_out_events(out@, i) + spec_branch_inputs(
                    remaining@,
                    i,
                ) == spec_branch_inputs(cmds0, i),
        decreases remaining@.len(),
    {
        let ghost rem_pre = remaining@;
        let ghost out_pre = out@;
        let cmd = remaining.remove(0);
        proof {
            assert(rem_pre[0] == cmd);
            assert(remaining@ =~= rem_pre.skip(1));
        }
        match cmd {
            MuxCmd::Item(index, item) => {
                let ghost it = item;
                let tagged = mux.forward(index, item);
                out.push(MuxOutput::Event(tagged));
                proof {
                    assert forall|i: int| 0 <= i < m implies #[trigger] spec_out_events(out@, i)
                        + spec_branch_inputs(remaining@, i) == spec_branch_inputs(cmds0, i) by {
                        assert(out@.drop_last() == out_pre);
                        if i == index {
                            assert(spec_out_events(out@, i) == spec_out_events(out_pre, i).push(
                                it,
                            ));
                            assert(spec_branch_inputs(rem_pre, i) == seq![it]
                                + spec_branch_inputs(rem_pre.skip(1), i));
                            assert(spec_out_events(out_pre, i).push(it) + spec_branch_inputs(
                                remaining@,
                                i,
                            ) =~= spec_out_events(out_pre, i) + (seq![it] + spec_branch_inputs(
                                remaining@,
                                i,
                            )));
                        } else {
                            assert(spec_out_events(out@, i) == spec_out_events(out_pre, i));
                            assert(spec_branch_inputs(rem_pre, i) == spec_branch_inputs(
                                rem_pre.skip(1),
                                i,
                            ));
                        }
                    }
                }
            },
            MuxCmd::Close(index) => {
                mux.close(index);
                proof {
                    assert forall|i: int| 0 <= i < m implies #[trigger] spec_out_events(out@, i)
                        + spec_branch_inputs(remaining@, i) == spec_branch_inputs(cmds0, i) by {
                        assert(spec_branch_inputs(rem_pre, i) == spec_branch_inputs(
                            rem_pre.skip(1),
                            i,
                        ));
                    }
                }
            },
        }
    }
    let emitted = mux.try_complete();
    proof {
        assert(remaining@.len() == 0);
        assert(mux.all_closed());
        assert(emitted);
        assert forall|i: int| 0 <= i < m implies spec_out_events(out@, i) == spec_branch_inputs(
            cmds0,
            i,
        ) by {
            assert(spec_branch_inputs(remaining@, i) =~= Seq::<StreamItem>::empty());
            assert(spec_out_events(out@, i) + Seq::<StreamItem>::empty() =~= spec_out_events(
                out@,
                i,
            ));
        }
    }
    let ghost out_pre_done = out@;
    out.push(MuxOutput::Done);
    proof {
        assert forall|i: int| 0 <= i < m implies spec_out_events(out@, i) == spec_branch_inputs(
            cmds0,
            i,
        ) by {
            assert(out@.drop_last() == out_pre_done);
            assert(spec_out_events(out@, i) == spec_out_events(out_pre_done, i));
        }
        assert forall|i: int|
            0 <= i < m && spec_branch_inputs(cmds0, i).len() > 0 implies (exists|k: int|
                0 <= k < out@.len() && (#[trigger] out@[k]) is Event && out@[k]->Event_0.index
                    == i) by {
            lemma_observed_branch(out@, i);
        }
    }
    out
}

} // verus!

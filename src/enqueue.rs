use vstd::prelude::*;
use crate::error::RingError;

verus! {

/// What the caller does next while placing one entry on the submission queue.
#[derive(Clone, Copy, Debug, PartialEq, Eq, Structural)]
pub enum EnqueueAction {
    /// The entry is on the queue.
    Accepted,
    /// Flush the queue to the kernel, then push the entry again.
    Flush,
    /// Give up: the queue stayed full.
    QueueFull,
}

/// The decision after one push attempt.
pub open spec fn next_action(autosubmit: bool, flushed: bool, pushed: bool) -> EnqueueAction {
    if pushed {
        EnqueueAction::Accepted
    } else if autosubmit && !flushed {
        EnqueueAction::Flush
    } else {
        EnqueueAction::QueueFull
    }
}

/// The actions taken when successive push attempts turn out as `pushes`
/// says, until the entry is accepted or refused.
pub open spec fn enqueue_run(autosubmit: bool, flushed: bool, pushes: Seq<bool>) -> Seq<
    EnqueueAction,
>
    decreases pushes.len(),
{
    if pushes.len() == 0 {
        Seq::empty()
    } else {
        let a = next_action(autosubmit, flushed, pushes[0]);
        if a == EnqueueAction::Flush {
            seq![a] + enqueue_run(autosubmit, true, pushes.drop_first())
        } else {
            seq![a]
        }
    }
}

/// Retry state for placing one entry on the submission queue.
#[derive(Clone, Copy, Debug)]
pub struct EnqueueState {
    pub autosubmit: bool,
    pub flushed: bool,
}

impl EnqueueState {
    /// The state before the first push attempt.
    pub fn new(autosubmit: bool) -> (r: EnqueueState)
        ensures
            r.autosubmit == autosubmit,
            !r.flushed,
    {
        EnqueueState { autosubmit, flushed: false }
    }

    /// Decides what follows a push attempt. A full queue is flushed once, and
    /// only under the autosubmit policy; a second full queue is final.
    pub fn after_push(&mut self, pushed: bool) -> (r: EnqueueAction)
        ensures
            r == next_action(old(self).autosubmit, old(self).flushed, pushed),
            final(self).autosubmit == old(self).autosubmit,
            final(self).flushed == (old(self).flushed || r == EnqueueAction::Flush),
    {
        if pushed {
            EnqueueAction::Accepted
        } else if self.autosubmit && !self.flushed {
            self.flushed = true;
            EnqueueAction::Flush
        } else {
            EnqueueAction::QueueFull
        }
    }

    /// Takes the outcome of a flush: on success the entry is pushed again,
    /// on failure the kernel's errno is reported.
    pub fn after_flush(&self, outcome: Result<usize, i32>) -> (r: Result<(), RingError>)
        ensures
            outcome is Ok ==> r is Ok,
            outcome is Err ==> r == Err::<(), RingError>(RingError::Os(outcome->Err_0)),
    {
        match outcome {
            Ok(_) => Ok(()),
            Err(errno) => Err(RingError::Os(errno)),
        }
    }
}

/// Placing one entry flushes at most once: a flush can only be the first
/// action, and every run ends on its first non-flush action.
pub proof fn lemma_enqueue_flushes_at_most_once(autosubmit: bool, pushes: Seq<bool>)
    ensures
        forall|i: int|
            0 <= i < enqueue_run(autosubmit, false, pushes).len() && #[trigger] enqueue_run(
                autosubmit,
                false,
                pushes,
            )[i] == EnqueueAction::Flush ==> i == 0,
        enqueue_run(autosubmit, false, pushes).len() <= 2,
{
    let run = enqueue_run(autosubmit, false, pushes);
    if pushes.len() > 0 {
        let a = next_action(autosubmit, false, pushes[0]);
        if a == EnqueueAction::Flush {
            let rest = pushes.drop_first();
            let tail = enqueue_run(autosubmit, true, rest);
            assert(run == seq![a] + tail);
            if rest.len() > 0 {
                assert(next_action(autosubmit, true, rest[0]) != EnqueueAction::Flush);
                assert(tail == seq![next_action(autosubmit, true, rest[0])]);
            } else {
                assert(tail == Seq::<EnqueueAction>::empty());
            }
            assert(forall|i: int| 1 <= i < run.len() ==> run[i] == tail[i - 1]);
        } else {
            assert(run == seq![a]);
        }
    }
}

/// On a queue that stays full, autosubmit flushes exactly once and then
/// reports a full queue; without autosubmit the full queue is reported at once.
pub proof fn lemma_full_queue_outcome(autosubmit: bool, pushes: Seq<bool>)
    requires
        pushes.len() >= 2,
        forall|i: int| 0 <= i < pushes.len() ==> !#[trigger] pushes[i],
    ensures
        autosubmit ==> enqueue_run(autosubmit, false, pushes) == seq![
            EnqueueAction::Flush,
            EnqueueAction::QueueFull,
        ],
        !autosubmit ==> enqueue_run(autosubmit, false, pushes) == seq![EnqueueAction::QueueFull],
{
    let rest = pushes.drop_first();
    assert(!pushes[0]);
    assert(!rest[0]);
    if autosubmit {
        assert(enqueue_run(autosubmit, true, rest) == seq![EnqueueAction::QueueFull]);
        assert(seq![EnqueueAction::Flush] + seq![EnqueueAction::QueueFull] =~= seq![
            EnqueueAction::Flush,
            EnqueueAction::QueueFull,
        ]);
    }
}

} // verus!

use vstd::prelude::*;
use crate::caps::{op_code, Capabilities, OpKind};
use crate::completion::{harvest, harvested, tokens_of, CompletionEvent, RawCompletion, INTERNAL_TOKEN_BIT};
use crate::enqueue::{EnqueueAction, EnqueueState};
use crate::error::RingError;
use crate::registry::{OwnedData, OwnershipRegistry};
use crate::setup::RingSetup;
use crate::submit::Submission;

verus! {

/// The ring's own state: whether the kernel handle is still held, the
/// capability set, the token counter, the autosubmit policy, and the data
/// that in-flight operations point into.
pub struct TheIoRing {
    open: bool,
    caps: Capabilities,
    user_data_counter: u64,
    autosubmit: bool,
    owned_data: OwnershipRegistry,
    minted: Ghost<Seq<u64>>,
}

impl TheIoRing {
    /// Whether the kernel handle is still held.
    pub closed spec fn is_open(&self) -> bool {
        self.open
    }

    /// The opcodes the kernel supports.
    pub closed spec fn supported(&self) -> Set<u8> {
        self.caps@
    }

    /// The token that `get_next_user_data` hands out next.
    pub closed spec fn next_token(&self) -> u64 {
        self.user_data_counter
    }

    /// Whether a full queue is flushed once before an enqueue fails.
    pub closed spec fn autosubmit_policy(&self) -> bool {
        self.autosubmit
    }

    /// The data kept alive, by token.
    pub closed spec fn owned(&self) -> Map<u64, OwnedData> {
        self.owned_data@
    }

    /// The tokens handed out so far, in order.
    pub closed spec fn minted(&self) -> Seq<u64> {
        self.minted@
    }

    pub closed spec fn wf(&self) -> bool {
        &&& self.caps.wf()
        &&& self.user_data_counter <= INTERNAL_TOKEN_BIT
        &&& forall|i: int, j: int|
            0 <= i < j < self.minted@.len() ==> #[trigger] self.minted@[i] < #[trigger] self.minted@[j]
        &&& forall|i: int|
            0 <= i < self.minted@.len() ==> #[trigger] self.minted@[i] < self.user_data_counter
    }

    /// A ring that holds its kernel handle, set up as `setup` says, on a
    /// kernel that supports `caps`.
    pub fn new(setup: &RingSetup, caps: Capabilities) -> (r: TheIoRing)
        requires
            caps.wf(),
        ensures
            r.wf(),
            r.is_open(),
            r.supported() == caps@,
            r.next_token() == 0,
            r.autosubmit_policy() == setup.autosubmit,
            r.owned() == Map::<u64, OwnedData>::empty(),
            r.minted() == Seq::<u64>::empty(),
    {
        TheIoRing {
            open: true,
            caps,
            user_data_counter: 0,
            autosubmit: setup.autosubmit,
            owned_data: OwnershipRegistry::new(),
            minted: Ghost(Seq::empty()),
        }
    }

    /// Whether the kernel handle is still held.
    pub fn is_open_now(&self) -> (r: bool)
        ensures
            r == self.is_open(),
    {
        self.open
    }

    /// Fails with ring-closed once the ring is closed.
    pub fn ensure_open(&self) -> (r: Result<(), RingError>)
        ensures
            self.is_open() ==> r is Ok,
            !self.is_open() ==> r == Err::<(), RingError>(RingError::RingClosed),
    {
        if self.open {
            Ok(())
        } else {
            Err(RingError::RingClosed)
        }
    }

    /// Whether the kernel supports operations of this kind.
    pub fn supports(&self, kind: OpKind) -> (r: bool)
        requires
            self.wf(),
        ensures
            r == self.supported().contains(op_code(kind)),
    {
        self.caps.is_supported(kind.code())
    }

    /// Whether `get_next_user_data` may be called: tokens with the internal
    /// bit set are never handed out.
    pub fn can_mint_token(&self) -> (r: bool)
        ensures
            r == (self.next_token() < INTERNAL_TOKEN_BIT),
    {
        self.user_data_counter < INTERNAL_TOKEN_BIT
    }

    /// Hands out the next correlation token and advances the counter.
    pub fn get_next_user_data(&mut self) -> (r: u64)
        requires
            old(self).wf(),
            old(self).next_token() < INTERNAL_TOKEN_BIT,
        ensures
            final(self).wf(),
            r == old(self).next_token(),
            final(self).next_token() == r + 1,
            final(self).minted() == old(self).minted().push(r),
            final(self).is_open() == old(self).is_open(),
            final(self).supported() == old(self).supported(),
            final(self).autosubmit_policy() == old(self).autosubmit_policy(),
            final(self).owned() == old(self).owned(),
    {
        let r = self.user_data_counter;
        self.user_data_counter = r + 1;
        self.minted = Ghost(self.minted@.push(r));
        r
    }

    /// Drops the kernel handle for good. Closing a closed ring succeeds and
    /// changes nothing.
    pub fn close(&mut self) -> (r: Result<(), RingError>)
        requires
            old(self).wf(),
        ensures
            r is Ok,
            final(self).wf(),
            !final(self).is_open(),
            final(self).supported() == old(self).supported(),
            final(self).next_token() == old(self).next_token(),
            final(self).minted() == old(self).minted(),
            final(self).autosubmit_policy() == old(self).autosubmit_policy(),
            final(self).owned() == old(self).owned(),
    {
        self.open = false;
        Ok(())
    }

    /// The retry state for placing one entry on the submission queue; fails
    /// with ring-closed once the ring is closed.
    pub fn start_enqueue(&self) -> (r: Result<EnqueueState, RingError>)
        ensures
            self.is_open() ==> r is Ok && r->Ok_0.autosubmit == self.autosubmit_policy()
                && !r->Ok_0.flushed,
            !self.is_open() ==> r == Err::<EnqueueState, RingError>(RingError::RingClosed),
    {
        if self.open {
            Ok(EnqueueState::new(self.autosubmit))
        } else {
            Err(RingError::RingClosed)
        }
    }

    /// Keeps `data` alive under `token` until its completion is harvested.
    pub fn add_owned(&mut self, token: u64, data: OwnedData)
        requires
            old(self).wf(),
        ensures
            final(self).wf(),
            final(self).owned() == old(self).owned().insert(token, data),
            final(self).is_open() == old(self).is_open(),
            final(self).supported() == old(self).supported(),
            final(self).next_token() == old(self).next_token(),
            final(self).minted() == old(self).minted(),
            final(self).autosubmit_policy() == old(self).autosubmit_policy(),
    {
        self.owned_data.store(token, data);
    }

    /// Records a submission whose request the kernel queue accepted: its
    /// owned data, if any, is kept alive under its token.
    pub fn record_accepted(&mut self, sub: Submission)
        requires
            old(self).wf(),
        ensures
            final(self).wf(),
            sub.owned is Some ==> final(self).owned() == old(self).owned().insert(
                sub.request.user_data,
                sub.owned->0,
            ),
            sub.owned is None ==> final(self).owned() == old(self).owned(),
            final(self).is_open() == old(self).is_open(),
            final(self).supported() == old(self).supported(),
            final(self).next_token() == old(self).next_token(),
            final(self).minted() == old(self).minted(),
            final(self).autosubmit_policy() == old(self).autosubmit_policy(),
    {
        let token = sub.request.user_data;
        match sub.owned {
            Some(data) => self.add_owned(token, data),
            None => {},
        }
    }

    /// Ends an enqueue on its final action. The submission's owned data is
    /// recorded if and only if the queue accepted its request; a full queue
    /// records nothing and is reported.
    pub fn finish_enqueue(&mut self, sub: Submission, outcome: EnqueueAction) -> (r: Result<
        (),
        RingError,
    >)
        requires
            old(self).wf(),
            outcome != EnqueueAction::Flush,
        ensures
            final(self).wf(),
            outcome == EnqueueAction::Accepted ==> r is Ok,
            outcome == EnqueueAction::QueueFull ==> r == Err::<(), RingError>(RingError::QueueFull),
            outcome == EnqueueAction::Accepted && sub.owned is Some ==> final(self).owned()
                == old(self).owned().insert(sub.request.user_data, sub.owned->0),
            outcome == EnqueueAction::QueueFull || sub.owned is None ==> final(self).owned()
                == old(self).owned(),
            final(self).is_open() == old(self).is_open(),
            final(self).supported() == old(self).supported(),
            final(self).next_token() == old(self).next_token(),
            final(self).minted() == old(self).minted(),
            final(self).autosubmit_policy() == old(self).autosubmit_policy(),
    {
        match outcome {
            EnqueueAction::Accepted => {
                self.record_accepted(sub);
                Ok(())
            },
            _ => Err(RingError::QueueFull),
        }
    }

    /// Whether data is kept alive under `token`.
    pub fn owns(&self, token: u64) -> (r: bool)
        ensures
            r == self.owned().contains_key(token),
    {
        self.owned_data.contains(token)
    }

    /// Turns the completions read from the kernel into events, releasing what
    /// each token kept alive; fails with ring-closed once the ring is closed.
    pub fn get_completion_entries(&mut self, raw: Vec<RawCompletion>) -> (r: Result<
        Vec<CompletionEvent>,
        RingError,
    >)
        requires
            old(self).wf(),
        ensures
            final(self).wf(),
            !old(self).is_open() ==> r == Err::<Vec<CompletionEvent>, RingError>(
                RingError::RingClosed,
            ) && final(self).owned() == old(self).owned(),
            old(self).is_open() ==> r is Ok && r->Ok_0@.len() == raw@.len() && (forall|j: int|
                0 <= j < raw@.len() ==> harvested(old(self).owned(), raw@, j, #[trigger] r->Ok_0@[j]))
                && final(self).owned() == old(self).owned().remove_keys(tokens_of(raw@)),
            final(self).is_open() == old(self).is_open(),
            final(self).supported() == old(self).supported(),
            final(self).next_token() == old(self).next_token(),
            final(self).minted() == old(self).minted(),
            final(self).autosubmit_policy() == old(self).autosubmit_policy(),
    {
        if !self.open {
            return Err(RingError::RingClosed);
        }
        let events = harvest(&mut self.owned_data, raw);
        Ok(events)
    }
}

/// Tokens handed out by one ring strictly increase, so none repeats.
pub proof fn lemma_minted_tokens_distinct(ring: TheIoRing)
    requires
        ring.wf(),
    ensures
        forall|i: int, j: int|
            0 <= i < j < ring.minted().len() ==> #[trigger] ring.minted()[i] < #[trigger] ring.minted()[j],
        forall|i: int, j: int|
            0 <= i < ring.minted().len() && 0 <= j < ring.minted().len() && i != j
                ==> #[trigger] ring.minted()[i] != #[trigger] ring.minted()[j],
        forall|i: int| 0 <= i < ring.minted().len() ==> !crate::completion::is_internal_token(#[trigger] ring.minted()[i]),
{
    assert forall|i: int, j: int|
        0 <= i < ring.minted().len() && 0 <= j < ring.minted().len() && i != j
            implies #[trigger] ring.minted()[i] != #[trigger] ring.minted()[j] by {
        if i < j {
            assert(ring.minted()[i] < ring.minted()[j]);
        } else {
            assert(ring.minted()[j] < ring.minted()[i]);
        }
    }
}

} // verus!

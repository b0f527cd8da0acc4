use vstd::prelude::*;
use crate::buffer::{finalize_buffer, finalized};
use crate::registry::{entry_of, OwnedData, OwnershipRegistry};

verus! {

/// Tokens with this bit set mark entries that the ring itself injected.
pub const INTERNAL_TOKEN_BIT: u64 = 0x8000_0000_0000_0000;

/// Whether a token marks an internal bookkeeping entry.
pub open spec fn is_internal_token(token: u64) -> bool {
    token >= INTERNAL_TOKEN_BIT
}

/// One completion as the kernel reports it: the token and the result code.
#[derive(Clone, Copy, Debug, PartialEq, Eq, Structural)]
pub struct RawCompletion {
    pub user_data: u64,
    pub result: i32,
}

/// A single completion event returned by the ring.
pub struct CompletionEvent {
    pub user_data: u64,
    pub result: i32,
    pub buffer: Option<Vec<u8>>,
}

/// The bytes of an optional buffer.
pub open spec fn bytes_of(buffer: Option<Vec<u8>>) -> Option<Seq<u8>> {
    match buffer {
        Some(b) => Some(b@),
        None => None,
    }
}

impl CompletionEvent {
    /// The token of the operation that completed.
    pub fn user_data(&self) -> (r: u64)
        ensures
            r == self.user_data,
    {
        self.user_data
    }

    /// The result code: negative for a negated errno, else the operation's value.
    pub fn result(&self) -> (r: i32)
        ensures
            r == self.result,
    {
        self.result
    }

    /// The destination buffer of a read or receive, cut to what was transferred.
    pub fn buffer(&self) -> (r: Option<&[u8]>)
        ensures
            r is Some <==> self.buffer is Some,
            r is Some ==> r->0@ == self.buffer->0@,
    {
        match &self.buffer {
            Some(b) => Some(b.as_slice()),
            None => None,
        }
    }

    /// Whether this event belongs to an entry that the ring injected itself,
    /// such as a timeout barrier, and is no real work of the caller's.
    pub fn should_be_ignored(&self) -> (r: bool)
        ensures
            r == is_internal_token(self.user_data),
    {
        let t = self.user_data;
        assert((t & 0x8000_0000_0000_0000u64 != 0) == (t >= 0x8000_0000_0000_0000u64))
            by (bit_vector);
        t & INTERNAL_TOKEN_BIT != 0
    }
}

/// The buffer that an event hands back for what its token owned: only a
/// destination buffer comes back, cut to the result; anything else is dropped.
pub open spec fn event_buffer(owned: Option<OwnedData>, result: i32) -> Option<Seq<u8>> {
    match owned {
        Some(OwnedData::Buffer(b)) => Some(finalized(b@, result)),
        _ => None,
    }
}

/// The tokens of a batch of completions.
pub open spec fn tokens_of(raw: Seq<RawCompletion>) -> Set<u64> {
    raw.map_values(|c: RawCompletion| c.user_data).to_set()
}

/// What the registry holds for the `j`-th completion of a batch taken in
/// order: the entries of earlier completions are gone by then.
pub open spec fn owned_for(reg: Map<u64, OwnedData>, raw: Seq<RawCompletion>, j: int) -> Option<
    OwnedData,
> {
    entry_of(reg.remove_keys(tokens_of(raw.take(j))), raw[j].user_data)
}

/// Whether `event` is what harvesting the `j`-th completion of `raw` gives.
pub open spec fn harvested(
    reg: Map<u64, OwnedData>,
    raw: Seq<RawCompletion>,
    j: int,
    event: CompletionEvent,
) -> bool {
    &&& event.user_data == raw[j].user_data
    &&& event.result == raw[j].result
    &&& bytes_of(event.buffer) == event_buffer(owned_for(reg, raw, j), raw[j].result)
}

/// A destination buffer of `m` bytes comes back holding `min(m, result)`
/// bytes when the result is a success, and all `m` bytes when it is a failure.
pub proof fn lemma_destination_length(
    reg: Map<u64, OwnedData>,
    raw: Seq<RawCompletion>,
    j: int,
    m: nat,
)
    requires
        0 <= j < raw.len(),
        owned_for(reg, raw, j) matches Some(OwnedData::Buffer(b)) && b@.len() == m,
    ensures
        event_buffer(owned_for(reg, raw, j), raw[j].result) is Some,
        event_buffer(owned_for(reg, raw, j), raw[j].result)->0.len() == if raw[j].result >= 0 {
            if (raw[j].result as nat) < m {
                raw[j].result as nat
            } else {
                m
            }
        } else {
            m
        },
{
}

/// The first completion of a batch that carries a token whose destination
/// buffer of `m` bytes is registered gets that buffer back holding
/// `min(m, result)` bytes on success and all `m` bytes on failure.
pub proof fn lemma_first_completion_length(
    reg: Map<u64, OwnedData>,
    raw: Seq<RawCompletion>,
    j: int,
    m: nat,
)
    requires
        0 <= j < raw.len(),
        reg.contains_key(raw[j].user_data),
        reg[raw[j].user_data] matches OwnedData::Buffer(b) && b@.len() == m,
        forall|k: int| 0 <= k < j ==> #[trigger] raw[k].user_data != raw[j].user_data,
    ensures
        event_buffer(owned_for(reg, raw, j), raw[j].result) is Some,
        event_buffer(owned_for(reg, raw, j), raw[j].result)->0.len() == if raw[j].result >= 0 {
            if (raw[j].result as nat) < m {
                raw[j].result as nat
            } else {
                m
            }
        } else {
            m
        },
{
    let t = raw[j].user_data;
    let prefix = raw.take(j).map_values(|c: RawCompletion| c.user_data);
    assert(!prefix.contains(t)) by {
        if prefix.contains(t) {
            let k = choose|k: int| 0 <= k < prefix.len() && prefix[k] == t;
            assert(raw[k].user_data == t);
        }
    }
    assert(!tokens_of(raw.take(j)).contains(t));
    assert(owned_for(reg, raw, j) == Some(reg[t]));
    lemma_destination_length(reg, raw, j, m);
}

/// Turns a batch of completions into events, in order. Each token's entry is
/// removed from the registry; a destination buffer comes back cut to the
/// result, and any other owned data is dropped.
pub fn harvest(registry: &mut OwnershipRegistry, raw: Vec<RawCompletion>) -> (r: Vec<
    CompletionEvent,
>)
    ensures
        r@.len() == raw@.len(),
        forall|j: int| 0 <= j < raw@.len() ==> harvested(old(registry)@, raw@, j, #[trigger] r@[j]),
        final(registry)@ == old(registry)@.remove_keys(tokens_of(raw@)),
{
    let ghost reg0 = registry@;
    let mut events: Vec<CompletionEvent> = Vec::with_capacity(raw.len());
    let mut i: usize = 0;
    while i < raw.len()
        invariant
            i <= raw@.len(),
            events@.len() == i,
            forall|j: int| 0 <= j < i ==> harvested(reg0, raw@, j, #[trigger] events@[j]),
            registry@ == reg0.remove_keys(tokens_of(raw@.take(i as int))),
        decreases raw@.len() - i,
    {
        let c = raw[i];
        let owned = registry.take(c.user_data);
        let buffer = match owned {
            Some(OwnedData::Buffer(buf)) => Some(finalize_buffer(buf, c.result)),
            _ => None,
        };
        let event = CompletionEvent { user_data: c.user_data, result: c.result, buffer };
        proof {
            let f = |c: RawCompletion| c.user_data;
            assert(raw@.take(i + 1) == raw@.take(i as int).push(c));
            assert(raw@.take(i + 1).map_values(f) =~= raw@.take(i as int).map_values(f).push(
                c.user_data,
            ));
            raw@.take(i as int).map_values(f).lemma_push_to_set_commute(c.user_data);
            assert(reg0.remove_keys(tokens_of(raw@.take(i as int))).remove(c.user_data)
                =~= reg0.remove_keys(tokens_of(raw@.take(i + 1))));
        }
        events.push(event);
        i = i + 1;
    }
    assert(raw@.take(raw@.len() as int) =~= raw@);
    events
}

} // verus!

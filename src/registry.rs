use vstd::prelude::*;
use std::collections::HashMap;
use nix::sys::socket::{SockaddrIn, SockaddrIn6};

verus! {

broadcast use vstd::std_specs::hash::group_hash_axioms;

#[verifier::external_type_specification]
#[verifier::external_body]
pub struct ExSockaddrIn(SockaddrIn);

#[verifier::external_type_specification]
#[verifier::external_body]
pub struct ExSockaddrIn6(SockaddrIn6);

/// Data that an in-flight operation points into, kept alive until its
/// completion is harvested.
pub enum OwnedData {
    /// A null-terminated path.
    OnePath(Vec<u8>),
    /// Two null-terminated paths.
    TwoPaths(Vec<u8>, Vec<u8>),
    /// Source bytes of a write or send, or the destination of a read or receive.
    Buffer(Vec<u8>),
    /// An IPv4 socket address.
    SockAddrV4(Box<SockaddrIn>),
    /// An IPv6 socket address.
    SockAddrV6(Box<SockaddrIn6>),
}

/// Owned data keyed by correlation token. At most one entry per token.
pub struct OwnershipRegistry {
    entries: HashMap<u64, OwnedData>,
}

impl View for OwnershipRegistry {
    type V = Map<u64, OwnedData>;

    closed spec fn view(&self) -> Map<u64, OwnedData> {
        self.entries@
    }
}

/// What a registry holds for a token, if anything.
pub open spec fn entry_of(m: Map<u64, OwnedData>, token: u64) -> Option<OwnedData> {
    if m.contains_key(token) {
        Some(m[token])
    } else {
        None
    }
}

impl OwnershipRegistry {
    /// An empty registry.
    pub fn new() -> (r: OwnershipRegistry)
        ensures
            r@ == Map::<u64, OwnedData>::empty(),
    {
        OwnershipRegistry { entries: HashMap::new() }
    }

    /// Keeps `data` alive under `token`.
    pub fn store(&mut self, token: u64, data: OwnedData)
        ensures
            final(self)@ == old(self)@.insert(token, data),
    {
        self.entries.insert(token, data);
    }

    /// Removes and returns what is kept under `token`.
    pub fn take(&mut self, token: u64) -> (r: Option<OwnedData>)
        ensures
            r == entry_of(old(self)@, token),
            final(self)@ == old(self)@.remove(token),
    {
        self.entries.remove(&token)
    }

    /// Whether anything is kept under `token`.
    pub fn contains(&self, token: u64) -> (r: bool)
        ensures
            r == self@.contains_key(token),
    {
        self.entries.contains_key(&token)
    }

    /// How many tokens hold data.
    pub fn len(&self) -> (r: usize)
        ensures
            r == self@.len(),
    {
        self.entries.len()
    }
}

} // verus!

use vstd::prelude::*;

verus! {

/// The kinds of operation that the ring builds requests for.
#[derive(Clone, Copy, Debug, PartialEq, Eq, Structural)]
pub enum OpKind {
    OpenAt,
    Read,
    Write,
    Close,
    Socket,
    Connect,
    Send,
    Recv,
    Timeout,
}

/// The kernel's opcode for each kind of operation.
pub open spec fn op_code(kind: OpKind) -> u8 {
    match kind {
        OpKind::Timeout => 11,
        OpKind::Connect => 16,
        OpKind::OpenAt => 18,
        OpKind::Close => 19,
        OpKind::Read => 22,
        OpKind::Write => 23,
        OpKind::Send => 26,
        OpKind::Recv => 27,
        OpKind::Socket => 45,
    }
}

impl OpKind {
    /// The kernel's opcode for this kind of operation.
    pub fn code(&self) -> (r: u8)
        ensures
            r == op_code(*self),
    {
        match self {
            OpKind::Timeout => 11,
            OpKind::Connect => 16,
            OpKind::OpenAt => 18,
            OpKind::Close => 19,
            OpKind::Read => 22,
            OpKind::Write => 23,
            OpKind::Send => 26,
            OpKind::Recv => 27,
            OpKind::Socket => 45,
        }
    }
}

/// Number of distinct opcodes: one per value of a byte.
pub const OPCODE_COUNT: usize = 256;

#[verifier::external_type_specification]
#[verifier::external_body]
pub struct ExProbe(io_uring::Probe);

/// The opcodes that a probe's table marks as supported.
pub uninterp spec fn probe_ops(probe: io_uring::Probe) -> Set<u8>;

/// Relies on io_uring's `Probe::is_supported`: it reads only the probe's own
/// table, so the answer is whether the opcode is among the probe's contents.
pub assume_specification[ io_uring::Probe::is_supported ](probe: &io_uring::Probe, opcode: u8) -> (r: bool)
    ensures
        r == probe_ops(*probe).contains(opcode),
;

/// The set of opcodes that the running kernel supports, taken once when the
/// ring is built and never changed afterwards.
pub struct Capabilities {
    supported: Vec<bool>,
}

impl Capabilities {
    pub closed spec fn wf(&self) -> bool {
        self.supported@.len() == OPCODE_COUNT
    }

    /// The opcodes in the set.
    pub closed spec fn view(&self) -> Set<u8> {
        Set::new(|op: u8| self.supported@[op as int])
    }

    /// A set with no opcode in it.
    pub fn none() -> (r: Capabilities)
        ensures
            r.wf(),
            r@ == Set::<u8>::empty(),
    {
        let mut supported: Vec<bool> = Vec::with_capacity(OPCODE_COUNT);
        let mut i: usize = 0;
        while i < OPCODE_COUNT
            invariant
                i <= OPCODE_COUNT,
                supported@.len() == i,
                forall|j: int| 0 <= j < i ==> !supported@[j],
            decreases OPCODE_COUNT - i,
        {
            supported.push(false);
            i = i + 1;
        }
        let r = Capabilities { supported };
        assert(r@ =~= Set::<u8>::empty());
        r
    }

    /// Adds one opcode to the set.
    pub fn insert(&mut self, op: u8)
        requires
            old(self).wf(),
        ensures
            final(self).wf(),
            final(self)@ == old(self)@.insert(op),
    {
        self.supported.set(op as usize, true);
        assert(self@ =~= old(self)@.insert(op));
    }

    /// The set of the given opcodes.
    pub fn from_opcodes(ops: &[u8]) -> (r: Capabilities)
        ensures
            r.wf(),
            r@ == ops@.to_set(),
    {
        let mut r = Capabilities::none();
        let mut i: usize = 0;
        while i < ops.len()
            invariant
                i <= ops@.len(),
                r.wf(),
                r@ == ops@.take(i as int).to_set(),
            decreases ops@.len() - i,
        {
            r.insert(ops[i]);
            proof {
                assert(ops@.take(i + 1) == ops@.take(i as int).push(ops@[i as int]));
                ops@.take(i as int).lemma_push_to_set_commute(ops@[i as int]);
            }
            i = i + 1;
        }
        assert(ops@.take(ops@.len() as int) =~= ops@);
        r
    }

    /// The opcodes that a probe, filled in by the kernel, reports as supported.
    pub fn from_probe(probe: &io_uring::Probe) -> (r: Capabilities)
        ensures
            r.wf(),
            r@ == probe_ops(*probe),
    {
        let mut supported: Vec<bool> = Vec::with_capacity(OPCODE_COUNT);
        let mut op: usize = 0;
        while op < OPCODE_COUNT
            invariant
                op <= OPCODE_COUNT,
                supported@.len() == op,
                forall|j: int| 0 <= j < op ==> supported@[j] == probe_ops(*probe).contains(j as u8),
            decreases OPCODE_COUNT - op,
        {
            supported.push(probe.is_supported(op as u8));
            op = op + 1;
        }
        let r = Capabilities { supported };
        assert(r@ =~= probe_ops(*probe)) by {
            assert forall|o: u8| r@.contains(o) == probe_ops(*probe).contains(o) by {
                assert(supported@[o as int] == probe_ops(*probe).contains((o as int) as u8));
            }
        }
        r
    }

    /// Whether the opcode is in the set.
    pub fn is_supported(&self, op: u8) -> (r: bool)
        requires
            self.wf(),
        ensures
            r == self@.contains(op),
    {
        self.supported[op as usize]
    }
}

} // verus!

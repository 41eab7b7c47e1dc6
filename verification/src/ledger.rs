//! The ledger-facing data model.
//!
//! The workflow composes and orders ledger instructions; it never
//! interprets their payloads beyond size and shape. An [`Identity`] is a
//! 32-byte account or program address; an [`Instruction`] is an opaque,
//! program-addressed operation with an account-access list and a binary
//! payload; a [`LedgerTransaction`] is an ordered list of instructions
//! with a fee payer, the required signers, and a freshness anchor.
//! A transaction is immutable once signed: mutating its instruction list
//! invalidates prior signatures, and signing must be redone.

use vstd::prelude::*;

verus! {

/// A 32-byte account or program address.
pub struct Identity {
    pub bytes: Vec<u8>,
}

impl View for Identity {
    type V = Seq<u8>;

    open spec fn view(&self) -> Seq<u8> {
        self.bytes@
    }
}

impl DeepView for Identity {
    type V = Seq<u8>;

    open spec fn deep_view(&self) -> Seq<u8> {
        self.bytes@
    }
}

impl Identity {
    /// A well-formed identity is exactly 32 bytes.
    pub open spec fn wf(&self) -> bool {
        self@.len() == 32
    }

    /// Builds an identity from raw bytes; anything but 32 bytes is
    /// refused.
    pub fn from_bytes(bytes: Vec<u8>) -> (r: Option<Identity>)
        ensures
            match r {
                Option::Some(id) => id.wf() && id@ == bytes@,
                Option::None => bytes@.len() != 32,
            },
    {
        if bytes.len() == 32 {
            Option::Some(Identity { bytes })
        } else {
            Option::None
        }
    }

    /// Copies this identity.
    pub fn duplicate(&self) -> (r: Identity)
        ensures
            r@ == self@,
    {
        Identity { bytes: copy_bytes(&self.bytes) }
    }

    /// Compares two identities by their bytes.
    pub fn same_as(&self, other: &Identity) -> (b: bool)
        ensures
            b == (self@ == other@),
    {
        if self.bytes.len() != other.bytes.len() {
            proof {
                assert(self@ != other@);
            }
            return false;
        }
        let mut i: usize = 0;
        while i < self.bytes.len()
            invariant
                i <= self.bytes.len(),
                self.bytes.len() == other.bytes.len(),
                forall|j: int| 0 <= j < i ==> self@[j] == other@[j],
            decreases self.bytes.len() - i,
        {
            if self.bytes[i] != other.bytes[i] {
                proof {
                    assert(self@[i as int] != other@[i as int]);
                }
                return false;
            }
            i = i + 1;
        }
        proof {
            assert(self@ =~= other@);
        }
        true
    }
}

/// Copies a byte vector.
pub fn copy_bytes(v: &Vec<u8>) -> (r: Vec<u8>)
    ensures
        r@ == v@,
{
    let mut r: Vec<u8> = Vec::new();
    let mut i: usize = 0;
    while i < v.len()
        invariant
            i <= v.len(),
            r@ =~= v@.take(i as int),
        decreases v.len() - i,
    {
        r.push(v[i]);
        i = i + 1;
    }
    proof {
        assert(r@ =~= v@);
    }
    r
}

/// Builds a 32-byte vector in which every byte is `b`.
fn filled_address(b: u8) -> (r: Vec<u8>)
    ensures
        r@ == Seq::new(32, |i: int| b),
{
    let mut r: Vec<u8> = Vec::new();
    let mut i: usize = 0;
    while i < 32
        invariant
            i <= 32,
            r@ =~= Seq::new(i as nat, |j: int| b),
        decreases 32 - i,
    {
        r.push(b);
        i = i + 1;
    }
    r
}

/// The address of the ledger's built-in account-management program,
/// which allocates accounts: in this model, the all-zero address.
pub open spec fn spec_system_program_id() -> Seq<u8> {
    Seq::new(32, |i: int| 0u8)
}

/// The address of the proof-verification program that owns the
/// ephemeral proof context accounts: in this model, a fixed
/// distinguished address.
pub open spec fn spec_proof_program_id() -> Seq<u8> {
    Seq::new(32, |i: int| 7u8)
}

/// The address of the token program that executes the transfer: in this
/// model, a fixed distinguished address.
pub open spec fn spec_token_program_id() -> Seq<u8> {
    Seq::new(32, |i: int| 9u8)
}

/// The account-management program's identity.
pub fn system_program_id() -> (r: Identity)
    ensures
        r.wf(),
        r@ == spec_system_program_id(),
{
    Identity { bytes: filled_address(0) }
}

/// The proof-verification program's identity.
pub fn proof_program_id() -> (r: Identity)
    ensures
        r.wf(),
        r@ == spec_proof_program_id(),
{
    Identity { bytes: filled_address(7) }
}

/// The token program's identity.
pub fn token_program_id() -> (r: Identity)
    ensures
        r.wf(),
        r@ == spec_token_program_id(),
{
    Identity { bytes: filled_address(9) }
}

/// A recent ledger checkpoint reference. A transaction must be signed
/// against a fresh one, and a transaction whose anchor has gone stale
/// must be re-signed against a fresher one before submission.
#[derive(Clone, Copy, Debug, PartialEq, Eq, Structural)]
pub struct Anchor {
    pub slot: u64,
}

/// An opaque, program-addressed operation: the program that interprets
/// it, the accounts it may touch in order, and its binary payload.
pub struct Instruction {
    pub program: Identity,
    pub accounts: Vec<Identity>,
    pub payload: Vec<u8>,
}

impl Instruction {
    pub open spec fn wf(&self) -> bool {
        self.program.wf() && forall|i: int|
            0 <= i < self.accounts@.len() ==> (#[trigger] self.accounts@[i]).wf()
    }
}

/// An atomic, signed unit of work: an ordered instruction list, the
/// fee-payer identity, the required signers, and the freshness anchor the
/// signatures were made against. `signed` records whether the current
/// contents are covered by signatures; any mutation clears it.
pub struct LedgerTransaction {
    pub instructions: Vec<Instruction>,
    pub fee_payer: Identity,
    pub signers: Vec<Identity>,
    pub anchor: Anchor,
    pub signed: bool,
}

impl LedgerTransaction {
    pub open spec fn wf(&self) -> bool {
        &&& self.fee_payer.wf()
        &&& forall|i: int| 0 <= i < self.signers@.len() ==> (#[trigger] self.signers@[i]).wf()
        &&& forall|i: int|
            0 <= i < self.instructions@.len() ==> (#[trigger] self.instructions@[i]).wf()
    }

    /// Assembles a transaction and signs it against `anchor`.
    pub fn new_signed(
        instructions: Vec<Instruction>,
        fee_payer: Identity,
        signers: Vec<Identity>,
        anchor: Anchor,
    ) -> (tx: LedgerTransaction)
        ensures
            tx.instructions == instructions,
            tx.fee_payer == fee_payer,
            tx.signers == signers,
            tx.anchor == anchor,
            tx.signed,
    {
        LedgerTransaction { instructions, fee_payer, signers, anchor, signed: true }
    }

    /// Appends an instruction. The transaction's prior signatures no
    /// longer cover its contents, so it is left unsigned and must be
    /// re-signed before submission.
    pub fn push_instruction(&mut self, ix: Instruction)
        ensures
            final(self).instructions@ == old(self).instructions@.push(ix),
            final(self).fee_payer == old(self).fee_payer,
            final(self).signers == old(self).signers,
            final(self).anchor == old(self).anchor,
            !final(self).signed,
    {
        self.instructions.push(ix);
        self.signed = false;
    }

    /// Re-signs the transaction against a fresh anchor, covering its
    /// current contents.
    pub fn sign(&mut self, anchor: Anchor)
        ensures
            final(self).instructions == old(self).instructions,
            final(self).fee_payer == old(self).fee_payer,
            final(self).signers == old(self).signers,
            final(self).anchor == anchor,
            final(self).signed,
    {
        self.anchor = anchor;
        self.signed = true;
    }
}

} // verus!

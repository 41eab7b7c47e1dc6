//! The proof context account lifecycle manager.
//!
//! The zero-knowledge proofs of one transfer are too large to travel in
//! the transfer transaction itself, so each proof is first written into an
//! ephemeral on-ledger scratch account — a proof context account — and the
//! transfer references the accounts instead. Each account is created
//! (allocate), populated (encode/verify), consumed by the transfer, and
//! finally closed, refunding its reserve. The identities are freshly
//! generated for every attempt and never reused.
//!
//! This module builds the three instruction shapes of that lifecycle.
//! What only the ledger can supply — the minimum reserve for a given
//! account size, and the fresh identities themselves — is handed in as
//! plain values.

use vstd::prelude::*;
use vstd::bytes::{spec_u64_to_le_bytes, u64_to_le_bytes};

use crate::ledger::{
    copy_bytes, proof_program_id, spec_proof_program_id, spec_system_program_id, system_program_id,
    Identity, Instruction,
};

verus! {

/// The payload tag of an account-allocation instruction.
pub const ALLOCATE_TAG: u8 = 0;

/// The payload tag of a close-context-account instruction.
pub const CLOSE_TAG: u8 = 4;

/// The kind of proof a context account holds.
#[derive(Clone, Copy, Debug, PartialEq, Eq, Structural)]
pub enum ProofKind {
    /// Proves two ciphertexts encrypt the same value.
    Equality,
    /// Proves ciphertexts are properly generated.
    Validity,
    /// Proves a ciphertext encrypts a value in the allowed range.
    Range,
}

/// The payload tag that selects the verifier for a proof kind.
pub open spec fn spec_kind_tag(kind: ProofKind) -> u8 {
    match kind {
        ProofKind::Equality => 1,
        ProofKind::Validity => 2,
        ProofKind::Range => 3,
    }
}

/// The payload tag that selects the verifier for a proof kind.
pub fn kind_tag(kind: ProofKind) -> (t: u8)
    ensures
        t == spec_kind_tag(kind),
{
    match kind {
        ProofKind::Equality => 1,
        ProofKind::Validity => 2,
        ProofKind::Range => 3,
    }
}

/// An externally generated proof: its kind, its opaque payload bytes,
/// and the on-ledger account size, in bytes, its context account needs.
pub struct ProofPayload {
    pub kind: ProofKind,
    pub data: Vec<u8>,
    pub space: u64,
}

/// The payload of an instruction that allocates a context account of
/// `space` bytes, funds it with `reserve`, and assigns it to the
/// proof-verification program.
pub open spec fn spec_allocate_payload(reserve: u64, space: u64) -> Seq<u8> {
    seq![ALLOCATE_TAG] + spec_u64_to_le_bytes(reserve) + spec_u64_to_le_bytes(space)
        + spec_proof_program_id()
}

/// Holds when `ix` allocates the context account `account` with the given
/// reserve and size, funded by `fee_payer`.
pub open spec fn is_allocate_ix(
    ix: Instruction,
    fee_payer: Seq<u8>,
    account: Seq<u8>,
    reserve: u64,
    space: u64,
) -> bool {
    &&& ix.program@ == spec_system_program_id()
    &&& ix.accounts@.len() == 2
    &&& ix.accounts@[0]@ == fee_payer
    &&& ix.accounts@[1]@ == account
    &&& ix.payload@ == spec_allocate_payload(reserve, space)
}

/// The payload of an instruction that writes and verifies a proof of the
/// given kind into its context account.
pub open spec fn spec_encode_payload(kind: ProofKind, data: Seq<u8>) -> Seq<u8> {
    seq![spec_kind_tag(kind)] + data
}

/// Holds when `ix` writes and verifies a proof of kind `kind` with bytes
/// `data` into the context account `account`, whose close authority is
/// `authority`.
pub open spec fn is_encode_ix(
    ix: Instruction,
    account: Seq<u8>,
    authority: Seq<u8>,
    kind: ProofKind,
    data: Seq<u8>,
) -> bool {
    &&& ix.program@ == spec_proof_program_id()
    &&& ix.accounts@.len() == 2
    &&& ix.accounts@[0]@ == account
    &&& ix.accounts@[1]@ == authority
    &&& ix.payload@ == spec_encode_payload(kind, data)
}

/// Holds when `ix` closes the context account `account`, refunding its
/// reserve to `destination`, authorized by `authority`.
pub open spec fn is_close_ix(
    ix: Instruction,
    account: Seq<u8>,
    destination: Seq<u8>,
    authority: Seq<u8>,
) -> bool {
    &&& ix.program@ == spec_proof_program_id()
    &&& ix.accounts@.len() == 3
    &&& ix.accounts@[0]@ == account
    &&& ix.accounts@[1]@ == destination
    &&& ix.accounts@[2]@ == authority
    &&& ix.payload@ == seq![CLOSE_TAG]
}

/// Builds the instruction pair that brings one proof context account to
/// its populated state: first allocate the scratch account sized for the
/// proof (funded by `fee_payer` with the ledger-quoted `reserve`), then
/// write and verify the proof's payload into it. The two instructions
/// may travel in different transactions, but the allocation must land
/// first.
pub fn get_zk_proof_context_state_account_creation_instructions(
    fee_payer: &Identity,
    account: &Identity,
    authority: &Identity,
    payload: &ProofPayload,
    reserve: u64,
) -> (pair: (Instruction, Instruction))
    ensures
        is_allocate_ix(pair.0, fee_payer@, account@, reserve, payload.space),
        is_encode_ix(pair.1, account@, authority@, payload.kind, payload.data@),
{
    let mut allocate_payload: Vec<u8> = Vec::new();
    allocate_payload.push(ALLOCATE_TAG);
    let mut reserve_bytes = u64_to_le_bytes(reserve);
    allocate_payload.append(&mut reserve_bytes);
    let mut space_bytes = u64_to_le_bytes(payload.space);
    allocate_payload.append(&mut space_bytes);
    let owner = proof_program_id();
    let mut owner_bytes = owner.bytes;
    allocate_payload.append(&mut owner_bytes);
    proof {
        assert(allocate_payload@ =~= spec_allocate_payload(reserve, payload.space));
    }
    let mut allocate_accounts: Vec<Identity> = Vec::new();
    allocate_accounts.push(fee_payer.duplicate());
    allocate_accounts.push(account.duplicate());
    let allocate_ix = Instruction {
        program: system_program_id(),
        accounts: allocate_accounts,
        payload: allocate_payload,
    };

    let mut encode_payload: Vec<u8> = Vec::new();
    encode_payload.push(kind_tag(payload.kind));
    let mut data_bytes = copy_bytes(&payload.data);
    encode_payload.append(&mut data_bytes);
    proof {
        assert(encode_payload@ =~= spec_encode_payload(payload.kind, payload.data@));
    }
    let mut encode_accounts: Vec<Identity> = Vec::new();
    encode_accounts.push(account.duplicate());
    encode_accounts.push(authority.duplicate());
    let encode_ix = Instruction {
        program: proof_program_id(),
        accounts: encode_accounts,
        payload: encode_payload,
    };

    (allocate_ix, encode_ix)
}

/// Builds the instruction that closes a consumed proof context account,
/// refunding its reserve to `destination`.
pub fn close_context_state(
    account: &Identity,
    destination: &Identity,
    authority: &Identity,
) -> (ix: Instruction)
    ensures
        is_close_ix(ix, account@, destination@, authority@),
{
    let mut accounts: Vec<Identity> = Vec::new();
    accounts.push(account.duplicate());
    accounts.push(destination.duplicate());
    accounts.push(authority.duplicate());
    let mut payload: Vec<u8> = Vec::new();
    payload.push(CLOSE_TAG);
    proof {
        assert(payload@ =~= seq![CLOSE_TAG]);
    }
    Instruction { program: proof_program_id(), accounts, payload }
}

} // verus!

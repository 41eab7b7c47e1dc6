//! Framing transactions to relay wire form.
//!
//! The relay accepts a bundle as an array of base58-encoded serialized
//! transactions. This module frames a [`LedgerTransaction`] to bytes —
//! a fixed, length-prefixed layout with little-endian integers — and
//! encodes the bytes as base58 text.

use vstd::prelude::*;
use vstd::bytes::{spec_u64_to_le_bytes, u64_to_le_bytes};

use crate::ledger::{copy_bytes, Identity, Instruction, LedgerTransaction};
use crate::sequencer::WorkflowPlan;

verus! {

/// The concatenation of a list of byte strings.
pub open spec fn spec_cat(parts: Seq<Seq<u8>>) -> Seq<u8>
    decreases parts.len(),
{
    if parts.len() == 0 {
        Seq::empty()
    } else {
        parts[0] + spec_cat(parts.drop_first())
    }
}

/// Concatenation grows one part at a time.
proof fn lemma_cat_take_step(parts: Seq<Seq<u8>>, i: int)
    requires
        0 <= i < parts.len(),
    ensures
        spec_cat(parts.take(i + 1)) == spec_cat(parts.take(i)) + parts[i],
    decreases i,
{
    if i == 0 {
        assert(parts.take(1).len() == 1);
        assert(parts.take(1).drop_first() =~= Seq::<Seq<u8>>::empty());
        assert(spec_cat(Seq::<Seq<u8>>::empty()) == Seq::<u8>::empty());
        assert(spec_cat(parts.take(1)) == parts.take(1)[0] + spec_cat(
            parts.take(1).drop_first(),
        ));
        assert(spec_cat(parts.take(1)) =~= parts[0]);
        assert(spec_cat(parts.take(0)) == Seq::<u8>::empty());
        assert(spec_cat(parts.take(0)) + parts[0] =~= parts[0]);
    } else {
        lemma_cat_take_step(parts.drop_first(), i - 1);
        assert(parts.take(i + 1).drop_first() =~= parts.drop_first().take(i));
        assert(parts.take(i).drop_first() =~= parts.drop_first().take(i - 1));
        assert(spec_cat(parts.take(i + 1)) == parts[0] + spec_cat(parts.drop_first().take(i)));
        assert(spec_cat(parts.take(i)) == parts[0] + spec_cat(parts.drop_first().take(i - 1)));
        assert(spec_cat(parts.take(i + 1)) =~= spec_cat(parts.take(i)) + parts[i]);
    }
}

/// The frame of an identity list: a little-endian count followed by the
/// 32-byte identities in order.
pub open spec fn spec_frame_ids(ids: Seq<Seq<u8>>) -> Seq<u8> {
    spec_u64_to_le_bytes(ids.len() as u64) + spec_cat(ids)
}

/// The frame of one instruction: the program address, the framed
/// account list, and the length-prefixed payload.
pub open spec fn spec_frame_ix(ix: Instruction) -> Seq<u8> {
    ix.program@ + spec_frame_ids(ix.accounts.deep_view()) + spec_u64_to_le_bytes(
        ix.payload@.len() as u64,
    ) + ix.payload@
}

/// The frame of a whole transaction: the fee payer, the anchor, the
/// framed signer list, and the length-prefixed framed instructions.
pub open spec fn spec_frame_transaction(tx: LedgerTransaction) -> Seq<u8> {
    tx.fee_payer@ + spec_u64_to_le_bytes(tx.anchor.slot) + spec_frame_ids(tx.signers.deep_view())
        + spec_u64_to_le_bytes(tx.instructions@.len() as u64) + spec_cat(
        tx.instructions@.map_values(|ix: Instruction| spec_frame_ix(ix)),
    )
}

/// Appends the frame of an identity list to `out`.
fn frame_ids(ids: &Vec<Identity>, out: &mut Vec<u8>)
    ensures
        final(out)@ == old(out)@ + spec_frame_ids(ids.deep_view()),
{
    let mut count_bytes = u64_to_le_bytes(ids.len() as u64);
    out.append(&mut count_bytes);
    let ghost mark = out@;
    let mut i: usize = 0;
    proof {
        assert(spec_cat(ids.deep_view().take(0)) =~= Seq::<u8>::empty());
        assert(out@ =~= mark + spec_cat(ids.deep_view().take(0)));
    }
    while i < ids.len()
        invariant
            i <= ids.len(),
            out@ == mark + spec_cat(ids.deep_view().take(i as int)),
        decreases ids.len() - i,
    {
        let mut id_bytes = copy_bytes(&ids[i].bytes);
        out.append(&mut id_bytes);
        proof {
            lemma_cat_take_step(ids.deep_view(), i as int);
            assert(out@ =~= mark + spec_cat(ids.deep_view().take(i as int + 1)));
        }
        i = i + 1;
    }
    proof {
        assert(ids.deep_view().take(ids.deep_view().len() as int) =~= ids.deep_view());
        assert(final(out)@ =~= old(out)@ + spec_frame_ids(ids.deep_view()));
    }
}

/// Appends the frame of one instruction to `out`.
fn frame_instruction(ix: &Instruction, out: &mut Vec<u8>)
    ensures
        final(out)@ == old(out)@ + spec_frame_ix(*ix),
{
    let mut program_bytes = copy_bytes(&ix.program.bytes);
    out.append(&mut program_bytes);
    frame_ids(&ix.accounts, out);
    let mut len_bytes = u64_to_le_bytes(ix.payload.len() as u64);
    out.append(&mut len_bytes);
    let mut payload_bytes = copy_bytes(&ix.payload);
    out.append(&mut payload_bytes);
    proof {
        assert(final(out)@ =~= old(out)@ + spec_frame_ix(*ix));
    }
}

/// Frames a transaction to its relay wire bytes.
pub fn frame_transaction(tx: &LedgerTransaction) -> (r: Vec<u8>)
    ensures
        r@ == spec_frame_transaction(*tx),
{
    let mut out: Vec<u8> = Vec::new();
    let mut payer_bytes = copy_bytes(&tx.fee_payer.bytes);
    out.append(&mut payer_bytes);
    let mut anchor_bytes = u64_to_le_bytes(tx.anchor.slot);
    out.append(&mut anchor_bytes);
    frame_ids(&tx.signers, &mut out);
    let mut count_bytes = u64_to_le_bytes(tx.instructions.len() as u64);
    out.append(&mut count_bytes);
    let ghost frames = tx.instructions@.map_values(|ix: Instruction| spec_frame_ix(ix));
    let ghost mark = out@;
    let mut i: usize = 0;
    proof {
        assert(spec_cat(frames.take(0)) =~= Seq::<u8>::empty());
        assert(out@ =~= mark + spec_cat(frames.take(0)));
    }
    while i < tx.instructions.len()
        invariant
            i <= tx.instructions.len(),
            frames == tx.instructions@.map_values(|ix: Instruction| spec_frame_ix(ix)),
            out@ == mark + spec_cat(frames.take(i as int)),
        decreases tx.instructions.len() - i,
    {
        frame_instruction(&tx.instructions[i], &mut out);
        proof {
            lemma_cat_take_step(frames, i as int);
            assert(out@ =~= mark + spec_cat(frames.take(i as int + 1)));
        }
        i = i + 1;
    }
    proof {
        assert(frames.take(frames.len() as int) =~= frames);
        assert(out@ =~= spec_frame_transaction(*tx));
    }
    out
}

/// The base58 text of a byte string, as the relay's alphabet renders it.
pub uninterp spec fn base58_of(bytes: Seq<u8>) -> Seq<char>;

/// Relies on bs58::encode(..).into_string(): the base58 text of the
/// bytes, a function of the bytes alone; empty input encodes to the
/// empty string.
#[verifier::external_body]
fn base58_encode(bytes: &Vec<u8>) -> (r: String)
    ensures
        r@ == base58_of(bytes@),
        bytes@.len() == 0 ==> r@.len() == 0,
{
    bs58::encode(bytes.as_slice()).into_string()
}

/// Frames one transaction and encodes it as base58 text: one entry of
/// the relay bundle.
pub fn encode_bundle_entry(tx: &LedgerTransaction) -> (r: String)
    ensures
        r@ == base58_of(spec_frame_transaction(*tx)),
{
    let bytes = frame_transaction(tx);
    base58_encode(&bytes)
}

/// Serializes a whole plan into the relay's bundle form: one base58
/// entry per transaction, in plan order.
pub fn serialize_bundle(plan: &WorkflowPlan) -> (r: Vec<String>)
    ensures
        r@.len() == plan.transactions@.len(),
        forall|i: int|
            0 <= i < plan.transactions@.len() ==> r.deep_view()[i] == base58_of(
                spec_frame_transaction(#[trigger] plan.transactions@[i]),
            ),
{
    let mut r: Vec<String> = Vec::new();
    let mut i: usize = 0;
    while i < plan.transactions.len()
        invariant
            i <= plan.transactions.len(),
            r@.len() == i,
            forall|j: int|
                0 <= j < i ==> r.deep_view()[j] == base58_of(
                    spec_frame_transaction(#[trigger] plan.transactions@[j]),
                ),
        decreases plan.transactions.len() - i,
    {
        let entry = encode_bundle_entry(&plan.transactions[i]);
        r.push(entry);
        i = i + 1;
    }
    r
}

} // verus!

//! The checks that a signed block must pass to follow a given parent block: its signature under
//! the parent's validator key, its header's transaction commitment and note root against its
//! body, and its link to the parent.
//!
//! The checks run in that order, and the first one that fails decides the error.

use vstd::prelude::*;

use miden_protocol::block::{BlockHeader, SignedBlock};

use crate::external::{
    block_commitment, block_number_of, block_number_value, body_note_indices, body_note_root,
    body_note_root_value, body_notes_well_formed, body_tx_commitment, body_tx_commitment_value,
    commitment_value, header_note_root, header_of, header_tx_commitment, max_batches_per_block,
    max_output_notes_per_batch, note_batch_count, note_batch_len, note_index_in_batch,
    note_root_value, prev_block_commitment, prev_commitment_value, signature_verifies_under,
    signed_block_header, signed_under_key_of, tx_commitment_value, NumberedHeader,
    SignedBlockError,
};
use crate::fee::words_equal;

verus! {

/// The signature of `block` verifies under `parent`'s validator key and its header's
/// transaction commitment is that of its body, so the note tree of its body is built next.
pub open spec fn reaches_note_root_check(block: SignedBlock, parent: BlockHeader) -> bool {
    &&& signed_under_key_of(block, parent)
    &&& header_tx_commitment(signed_block_header(block))@ == body_tx_commitment(block)@
}

/// `block` is not the genesis block, its number minus one is the parent's number, and the
/// previous block commitment its header names is the parent's commitment.
pub open spec fn block_extends(block: SignedBlock, parent: BlockHeader) -> bool {
    let header = signed_block_header(block);
    &&& block_number_of(header) >= 1
    &&& block_number_of(header) - 1 == block_number_of(parent)
    &&& prev_block_commitment(header)@ == block_commitment(parent)@
}

/// `block` passes every check against `parent`: it may follow `parent` in the chain.
pub open spec fn block_is_valid(block: SignedBlock, parent: BlockHeader) -> bool {
    &&& reaches_note_root_check(block, parent)
    &&& header_note_root(signed_block_header(block))@ == body_note_root(block)@
    &&& block_extends(block, parent)
}

/// `e` is the error of the first check that `block` fails against `parent`, carrying the values
/// that were compared; no error is the refusal of a block that passes every check.
pub open spec fn is_refusal_of(e: SignedBlockError, block: SignedBlock, parent: BlockHeader) -> bool {
    let header = signed_block_header(block);
    if !signed_under_key_of(block, parent) {
        e is InvalidSignature
    } else if header_tx_commitment(header)@ != body_tx_commitment(block)@ {
        &&& e matches SignedBlockError::TxCommitmentMismatch {
            header_tx_commitment: h,
            body_tx_commitment: b,
        }
        &&& h@ == header_tx_commitment(header)@
        &&& b@ == body_tx_commitment(block)@
    } else if header_note_root(header)@ != body_note_root(block)@ {
        &&& e matches SignedBlockError::NoteRootMismatch { header_root: h, body_root: b }
        &&& h@ == header_note_root(header)@
        &&& b@ == body_note_root(block)@
    } else if block_number_of(header) == 0 {
        e == SignedBlockError::GenesisBlockHasNoParent { parent: block_number_of(parent) }
    } else if block_number_of(header) - 1 != block_number_of(parent) {
        e == SignedBlockError::ParentNumberMismatch {
            expected: (block_number_of(header) - 1) as u32,
            parent: block_number_of(parent),
        }
    } else if prev_block_commitment(header)@ != block_commitment(parent)@ {
        &&& e matches SignedBlockError::ParentCommitmentMismatch { expected: x, parent: p }
        &&& x@ == prev_block_commitment(header)@
        &&& p@ == block_commitment(parent)@
    } else {
        false
    }
}

/// Whether the output note tree of the block's body can be built: every note sits in one of
/// the first `MAX_BATCHES_PER_BLOCK` batches at an index below `MAX_OUTPUT_NOTES_PER_BATCH`,
/// and no index repeats within a batch.
#[verifier::loop_isolation(false)]
pub fn note_tree_can_be_built(block: &SignedBlock) -> (r: bool)
    ensures
        r == body_notes_well_formed(*block),
{
    let ghost batches = body_note_indices(*block);
    let max_batches = max_batches_per_block();
    let max_notes = max_output_notes_per_batch();
    let count = note_batch_count(block);
    let mut b: usize = 0;
    while b < count
        invariant
            b <= count,
            count == batches.len(),
            batches == body_note_indices(*block),
            max_batches == 64,
            max_notes == 1024,
            forall|bb: int| 64 <= bb < b ==> #[trigger] batches[bb].len() == 0,
            forall|bb: int, i: int|
                0 <= bb < b && 0 <= i < batches[bb].len() ==> #[trigger] batches[bb][i] < 1024,
            forall|bb: int, i: int, j: int|
                0 <= bb < b && 0 <= i < j < batches[bb].len() ==> #[trigger] batches[bb][i]
                    != #[trigger] batches[bb][j],
        decreases count - b,
    {
        let len = note_batch_len(block, b);
        if len > 0 && b >= max_batches {
            assert(batches[b as int].len() != 0);
            return false;
        }
        let mut i: usize = 0;
        while i < len
            invariant
                b < count,
                count == batches.len(),
                batches == body_note_indices(*block),
                len == batches[b as int].len(),
                len > 0 ==> b < 64,
                max_notes == 1024,
                i <= len,
                forall|ii: int| 0 <= ii < i ==> #[trigger] batches[b as int][ii] < 1024,
                forall|ii: int, jj: int|
                    0 <= ii < jj < i ==> #[trigger] batches[b as int][ii]
                        != #[trigger] batches[b as int][jj],
            decreases len - i,
        {
            let idx = note_index_in_batch(block, b, i);
            if idx >= max_notes {
                assert(!(batches[b as int][i as int] < 1024));
                return false;
            }
            let mut j: usize = 0;
            while j < i
                invariant
                    b < count,
                    count == batches.len(),
                    batches == body_note_indices(*block),
                    len == batches[b as int].len(),
                    i < len,
                    j <= i,
                    idx == batches[b as int][i as int],
                    forall|jj: int| 0 <= jj < j ==> #[trigger] batches[b as int][jj] != idx,
                decreases i - j,
            {
                if note_index_in_batch(block, b, j) == idx {
                    assert(batches[b as int][j as int] == batches[b as int][i as int]);
                    return false;
                }
                j += 1;
            }
            i += 1;
        }
        b += 1;
    }
    true
}

/// Checks `block` against `parent` in order: the signature over the block header's commitment
/// under the parent's validator key, the header's transaction commitment against the body's
/// transactions, the header's note root against the body's note tree, then the link to the
/// parent (not the genesis block, the next number, the parent's commitment). Returns the error
/// of the first check that fails, or the block's header with its number.
pub fn validate_signed_block(block: &SignedBlock, parent: &NumberedHeader) -> (r: Result<
    NumberedHeader,
    SignedBlockError,
>)
    requires
        parent.is_consistent(),
        reaches_note_root_check(*block, parent.header_value()) ==> body_notes_well_formed(*block),
    ensures
        r is Ok <==> block_is_valid(*block, parent.header_value()),
        r matches Err(e) ==> is_refusal_of(e, *block, parent.header_value()),
        r matches Ok(h) ==> h.header_value() == signed_block_header(*block),
        r matches Ok(h) ==> h.is_consistent(),
        r matches Ok(h) ==> h.number() == parent.number() + 1,
{
    let tip = parent.header();
    let header = header_of(block);
    if !signature_verifies_under(block, tip) {
        return Err(SignedBlockError::InvalidSignature);
    }
    let header_tx_commitment = tx_commitment_value(header);
    let body_tx_commitment = body_tx_commitment_value(block);
    if !words_equal(&header_tx_commitment, &body_tx_commitment) {
        return Err(SignedBlockError::TxCommitmentMismatch { header_tx_commitment, body_tx_commitment });
    }
    let header_root = note_root_value(header);
    let body_root = body_note_root_value(block);
    if !words_equal(&header_root, &body_root) {
        return Err(SignedBlockError::NoteRootMismatch { header_root, body_root });
    }
    let number = block_number_value(header);
    let parent_number = parent.block_number();
    if number == 0 {
        return Err(SignedBlockError::GenesisBlockHasNoParent { parent: parent_number });
    }
    if number - 1 != parent_number {
        return Err(SignedBlockError::ParentNumberMismatch { expected: number - 1, parent: parent_number });
    }
    let expected = prev_commitment_value(header);
    let parent_commitment = commitment_value(tip);
    if !words_equal(&expected, &parent_commitment) {
        return Err(SignedBlockError::ParentCommitmentMismatch { expected, parent: parent_commitment });
    }
    Ok(NumberedHeader::new(header.clone()))
}

/// A block is valid against a parent exactly when all of these hold, whatever the parent's
/// number and however many note batches its body has: its signature verifies under the
/// parent's validator key, its header's transaction commitment and note root are those of its
/// body, its number is the parent's plus one, and the previous block commitment it names is
/// the parent's commitment.
pub proof fn lemma_valid_block_passes_every_check(block: SignedBlock, parent: BlockHeader)
    ensures
        block_is_valid(block, parent) <==> {
            let header = signed_block_header(block);
            &&& signed_under_key_of(block, parent)
            &&& header_tx_commitment(header)@ == body_tx_commitment(block)@
            &&& header_note_root(header)@ == body_note_root(block)@
            &&& block_number_of(header) == block_number_of(parent) + 1
            &&& prev_block_commitment(header)@ == block_commitment(parent)@
        },
{
}

/// A refused block failed a check, and the error says which one with the values compared: the
/// values it carries differ, and every check before it passed.
pub proof fn lemma_refusal_names_a_failed_check(
    e: SignedBlockError,
    block: SignedBlock,
    parent: BlockHeader,
)
    requires
        is_refusal_of(e, block, parent),
    ensures
        !block_is_valid(block, parent),
        e is InvalidSignature <==> !signed_under_key_of(block, parent),
        e matches SignedBlockError::TxCommitmentMismatch { header_tx_commitment: h, body_tx_commitment: b }
            ==> {
            &&& signed_under_key_of(block, parent)
            &&& h@ == header_tx_commitment(signed_block_header(block))@
            &&& b@ == body_tx_commitment(block)@
            &&& h@ != b@
        },
        e matches SignedBlockError::NoteRootMismatch { header_root: h, body_root: b } ==> {
            &&& reaches_note_root_check(block, parent)
            &&& h@ == header_note_root(signed_block_header(block))@
            &&& b@ == body_note_root(block)@
            &&& h@ != b@
        },
        e matches SignedBlockError::GenesisBlockHasNoParent { parent: p } ==> {
            &&& reaches_note_root_check(block, parent)
            &&& block_number_of(signed_block_header(block)) == 0
            &&& p == block_number_of(parent)
        },
        e matches SignedBlockError::ParentNumberMismatch { expected: x, parent: p } ==> {
            &&& reaches_note_root_check(block, parent)
            &&& x + 1 == block_number_of(signed_block_header(block))
            &&& p == block_number_of(parent)
            &&& x != p
        },
        e matches SignedBlockError::ParentCommitmentMismatch { expected: x, parent: p } ==> {
            &&& reaches_note_root_check(block, parent)
            &&& block_number_of(signed_block_header(block)) == block_number_of(parent) + 1
            &&& x@ == prev_block_commitment(signed_block_header(block))@
            &&& p@ == block_commitment(parent)@
            &&& x@ != p@
        },
{
}

} // verus!

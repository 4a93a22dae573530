//! The miden-protocol types that the chain state carries, and the trusted items through which
//! the library reads and changes them.
//!
//! Verus sees nothing inside these types. What the library relies on is stated here, in the
//! contracts of the wrappers, over names for what the protocol library's functions return on
//! these values: what a partial blockchain and its MMR hold, what a block header and a signed
//! block say, and what the fee rule reads of a transaction and the fee parameters.

use vstd::prelude::*;

use miden_protocol::block::{BlockHeader, BlockNumber, FeeParameters, SignedBlock};
use miden_protocol::crypto::merkle::mmr::PartialMmr;
use miden_protocol::note::NoteScriptRoot;
use miden_protocol::transaction::{OutputNotes, PartialBlockchain, ProvenTransaction};
use std::sync::Arc;

use crate::fee::{OutputNoteFeeData, WordValue};

verus! {

#[verifier::external_type_specification]
#[verifier::external_body]
pub struct ExBlockHeader(BlockHeader);

#[verifier::external_type_specification]
#[verifier::external_body]
pub struct ExSignedBlock(SignedBlock);

#[verifier::external_type_specification]
#[verifier::external_body]
pub struct ExPartialMmr(PartialMmr);

#[verifier::external_type_specification]
#[verifier::external_body]
pub struct ExPartialBlockchain(PartialBlockchain);

/// `BlockHeader::clone`, which `derive(Clone)` writes field by field: the copy equals the
/// original.
pub assume_specification[ <BlockHeader as Clone>::clone ](header: &BlockHeader) -> (r: BlockHeader)
    ensures
        r == *header,
;

// PARTIAL BLOCKCHAIN
// ================================================================================================

/// The block headers that `chain` keeps, by block number: the map behind
/// `PartialBlockchain::block_headers` and `PartialBlockchain::get_block`.
pub uninterp spec fn tracked_headers(chain: PartialBlockchain) -> Map<u32, BlockHeader>;

/// The numbers of the blocks whose headers (and authentication paths) `chain` tracks.
pub open spec fn tracked_blocks(chain: PartialBlockchain) -> Set<u32> {
    tracked_headers(chain).dom()
}

/// The partial MMR that `chain` holds (`PartialBlockchain::mmr`).
pub uninterp spec fn partial_mmr_in(chain: PartialBlockchain) -> PartialMmr;

/// The number of leaves of `mmr`: the number of blocks in the chain that it describes.
pub uninterp spec fn mmr_leaf_count(mmr: PartialMmr) -> nat;

/// The positions of the leaves whose authentication paths `mmr` tracks.
pub uninterp spec fn mmr_tracked_leaves(mmr: PartialMmr) -> Set<nat>;

/// The peaks of `mmr`, each as the canonical integers of its word.
pub uninterp spec fn mmr_peaks(mmr: PartialMmr) -> Seq<WordValue>;

/// The partial MMR that `PartialMmr::add(leaf, true)` makes of `mmr`: `leaf` appended as its
/// next, tracked leaf.
pub uninterp spec fn mmr_with_leaf(mmr: PartialMmr, leaf: WordValue) -> PartialMmr;

/// The number of blocks in the chain that `chain` describes: the leaves of its MMR
/// (`PartialBlockchain::chain_length`).
pub open spec fn chain_length(chain: PartialBlockchain) -> nat {
    mmr_leaf_count(partial_mmr_in(chain))
}

/// `PartialBlockchain::new` with no block headers. With an empty list the constructor has no
/// header to check and always succeeds, so the `expect` never fires; the result keeps no
/// block header and holds `mmr` itself.
#[verifier::external_body]
pub(crate) fn partial_blockchain_from_mmr(mmr: PartialMmr) -> (chain: PartialBlockchain)
    ensures
        tracked_headers(chain).dom() == Set::<u32>::empty(),
        partial_mmr_in(chain) == mmr,
{
    PartialBlockchain::new(mmr, []).expect("a partial blockchain without block headers builds")
}

/// `PartialBlockchain::chain_length`: the number of leaves of the partial MMR. The MMR holds at
/// most `Forest::MAX_LEAVES` leaves, which is at most `u32::MAX`, so the conversion to `u32`
/// inside never fails.
#[verifier::external_body]
pub(crate) fn chain_length_of(chain: &PartialBlockchain) -> (n: u32)
    ensures
        n == chain_length(*chain),
{
    chain.chain_length().as_u32()
}

/// `PartialBlockchain::add_block(header, true)` on the shared partial blockchain, through
/// `Arc::make_mut` (which first copies the blockchain when other pointers to it exist, so that
/// they keep the old value). It appends the header's commitment as the next leaf of the MMR
/// (`PartialMmr::add(commitment, true)`), tracking it, and stores a copy of the header under its
/// block number. `add_block` asserts that the header's number equals the chain length, and the
/// MMR refuses to grow to more than `Forest::MAX_LEAVES` leaves (the smaller of `u32::MAX` and
/// `usize::MAX / 2`): both are required here. With them it does not unwind (running out of
/// memory aborts the process).
#[verifier::external_body]
pub(crate) fn add_tracked_block(chain: &mut Arc<PartialBlockchain>, header: &BlockHeader)
    requires
        block_number_of(*header) == chain_length(**old(chain)),
        chain_length(**old(chain)) < u32::MAX,
        chain_length(**old(chain)) < usize::MAX / 2,
    ensures
        tracked_headers(**final(chain)) == tracked_headers(**old(chain)).insert(
            block_number_of(*header),
            *header,
        ),
        partial_mmr_in(**final(chain)) == mmr_with_leaf(
            partial_mmr_in(**old(chain)),
            block_commitment(*header),
        ),
        mmr_leaf_count(partial_mmr_in(**final(chain))) == mmr_leaf_count(
            partial_mmr_in(**old(chain)),
        ) + 1,
        mmr_tracked_leaves(partial_mmr_in(**final(chain))) == mmr_tracked_leaves(
            partial_mmr_in(**old(chain)),
        ).insert(mmr_leaf_count(partial_mmr_in(**old(chain)))),
    no_unwind
{
    Arc::make_mut(chain).add_block(header, true)
}

/// The positions, as MMR leaves, of the tracked blocks of `chain` numbered below `bound`.
pub open spec fn tracked_leaves_below(chain: PartialBlockchain, bound: u32) -> Set<nat> {
    tracked_blocks(chain).filter(|n: u32| n < bound).map(|n: u32| n as nat)
}

/// `PartialBlockchain::prune_to(..bound)` on the shared partial blockchain, through
/// `Arc::make_mut` (copy on write, as for `add_tracked_block`): drops the header of every
/// tracked block whose number is below `bound` (the others keep their headers) and untracks its
/// leaf in the MMR (`PartialMmr::untrack`, which removes the leaf from the tracked set and the
/// authentication nodes no other tracked leaf needs). The MMR keeps its leaves and peaks. It
/// does not unwind.
#[verifier::external_body]
pub(crate) fn prune_blocks_below(chain: &mut Arc<PartialBlockchain>, bound: u32)
    ensures
        tracked_headers(**final(chain)) == tracked_headers(**old(chain)).filter_keys(
            |n: u32| n >= bound,
        ),
        mmr_leaf_count(partial_mmr_in(**final(chain))) == mmr_leaf_count(
            partial_mmr_in(**old(chain)),
        ),
        mmr_peaks(partial_mmr_in(**final(chain))) == mmr_peaks(partial_mmr_in(**old(chain))),
        mmr_tracked_leaves(partial_mmr_in(**final(chain))) == mmr_tracked_leaves(
            partial_mmr_in(**old(chain)),
        ).difference(tracked_leaves_below(**old(chain), bound)),
    no_unwind
{
    Arc::make_mut(chain).prune_to(..BlockNumber::from(bound))
}

/// `PartialBlockchain::mmr` followed by `Clone::clone` (derived): a copy of the partial MMR
/// that `chain` holds.
#[verifier::external_body]
pub(crate) fn partial_mmr_of(chain: &PartialBlockchain) -> (mmr: PartialMmr)
    ensures
        mmr == partial_mmr_in(*chain),
{
    chain.mmr().clone()
}

/// `Arc::clone`: another pointer to the same partial blockchain.
#[verifier::external_body]
pub(crate) fn share_chain(chain: &Arc<PartialBlockchain>) -> (r: Arc<PartialBlockchain>)
    ensures
        *r == **chain,
{
    Arc::clone(chain)
}

// BLOCK HEADERS AND SIGNED BLOCKS
// ================================================================================================

/// The block number of `header` (`BlockHeader::block_num`).
pub uninterp spec fn block_number_of(header: BlockHeader) -> u32;

/// The commitment of `header` (`BlockHeader::commitment`), as canonical integers.
pub uninterp spec fn block_commitment(header: BlockHeader) -> WordValue;

/// The commitment of the block before `header` that `header` names
/// (`BlockHeader::prev_block_commitment`), as canonical integers.
pub uninterp spec fn prev_block_commitment(header: BlockHeader) -> WordValue;

/// The transaction commitment that `header` names (`BlockHeader::tx_commitment`).
pub uninterp spec fn header_tx_commitment(header: BlockHeader) -> WordValue;

/// The root of the output note tree that `header` names (`BlockHeader::note_root`).
pub uninterp spec fn header_note_root(header: BlockHeader) -> WordValue;

/// The header of `block` (`SignedBlock::header`).
pub uninterp spec fn signed_block_header(block: SignedBlock) -> BlockHeader;

/// Whether the signature of `block` over its header's commitment verifies under the validator
/// key that `key_header` names (`Signature::verify(header.commitment(), key_header.validator_key())`).
pub uninterp spec fn signed_under_key_of(block: SignedBlock, key_header: BlockHeader) -> bool;

/// The commitment to the transactions in the body of `block`
/// (`BlockBody::transaction_commitment`).
pub uninterp spec fn body_tx_commitment(block: SignedBlock) -> WordValue;

/// The root of the output note tree built from the body of `block`
/// (`BlockBody::compute_block_note_tree().root()`).
pub uninterp spec fn body_note_root(block: SignedBlock) -> WordValue;

/// For each output note batch of the body of `block`, in order, the indices that its notes
/// carry within the batch (`BlockBody::output_note_batches`).
pub uninterp spec fn body_note_indices(block: SignedBlock) -> Seq<Seq<usize>>;

/// `BlockHeader::block_num`.
#[verifier::external_body]
pub(crate) fn block_number_value(header: &BlockHeader) -> (n: u32)
    ensures
        n == block_number_of(*header),
{
    header.block_num().as_u32()
}

/// `BlockHeader::commitment` as the canonical integers of its word.
#[verifier::external_body]
pub(crate) fn commitment_value(header: &BlockHeader) -> (w: WordValue)
    ensures
        w@ == block_commitment(*header)@,
{
    <[u64; 4]>::from(header.commitment())
}

/// `BlockHeader::prev_block_commitment` as the canonical integers of its word.
#[verifier::external_body]
pub(crate) fn prev_commitment_value(header: &BlockHeader) -> (w: WordValue)
    ensures
        w@ == prev_block_commitment(*header)@,
{
    <[u64; 4]>::from(header.prev_block_commitment())
}

/// `BlockHeader::tx_commitment` as the canonical integers of its word.
#[verifier::external_body]
pub(crate) fn tx_commitment_value(header: &BlockHeader) -> (w: WordValue)
    ensures
        w@ == header_tx_commitment(*header)@,
{
    <[u64; 4]>::from(header.tx_commitment())
}

/// `BlockHeader::note_root` as the canonical integers of its word.
#[verifier::external_body]
pub(crate) fn note_root_value(header: &BlockHeader) -> (w: WordValue)
    ensures
        w@ == header_note_root(*header)@,
{
    <[u64; 4]>::from(header.note_root())
}

/// `SignedBlock::header`.
#[verifier::external_body]
pub(crate) fn header_of(block: &SignedBlock) -> (h: &BlockHeader)
    ensures
        *h == signed_block_header(*block),
{
    block.header()
}

/// `Signature::verify` of the block's signature over its header's commitment, under the
/// validator key that `key_header` names (`BlockHeader::validator_key`). ECDSA verification is
/// deterministic and returns `false`, never panics, on a malformed signature.
#[verifier::external_body]
pub(crate) fn signature_verifies_under(block: &SignedBlock, key_header: &BlockHeader) -> (r: bool)
    ensures
        r == signed_under_key_of(*block, *key_header),
{
    block.signature().verify(block.header().commitment(), key_header.validator_key())
}

/// `BlockBody::transaction_commitment` of the block's body, as canonical integers.
#[verifier::external_body]
pub(crate) fn body_tx_commitment_value(block: &SignedBlock) -> (w: WordValue)
    ensures
        w@ == body_tx_commitment(*block)@,
{
    <[u64; 4]>::from(block.body().transaction_commitment())
}

/// `miden_protocol::MAX_BATCHES_PER_BLOCK`, `1 << (16 - 10)`.
#[verifier::external_body]
pub(crate) fn max_batches_per_block() -> (n: usize)
    ensures
        n == 64,
{
    miden_protocol::MAX_BATCHES_PER_BLOCK
}

/// `miden_protocol::MAX_OUTPUT_NOTES_PER_BATCH`, `1 << 10`.
#[verifier::external_body]
pub(crate) fn max_output_notes_per_batch() -> (n: usize)
    ensures
        n == 1024,
{
    miden_protocol::MAX_OUTPUT_NOTES_PER_BATCH
}

/// The number of output note batches of the block's body (`BlockBody::output_note_batches`).
#[verifier::external_body]
pub(crate) fn note_batch_count(block: &SignedBlock) -> (n: usize)
    ensures
        n == body_note_indices(*block).len(),
{
    block.body().output_note_batches().len()
}

/// The number of notes in batch `batch` of the block's body.
#[verifier::external_body]
pub(crate) fn note_batch_len(block: &SignedBlock, batch: usize) -> (n: usize)
    requires
        batch < body_note_indices(*block).len(),
    ensures
        n == body_note_indices(*block)[batch as int].len(),
{
    block.body().output_note_batches()[batch].len()
}

/// The index within its batch that note `note` of batch `batch` of the block's body carries.
#[verifier::external_body]
pub(crate) fn note_index_in_batch(block: &SignedBlock, batch: usize, note: usize) -> (i: usize)
    requires
        batch < body_note_indices(*block).len(),
        note < body_note_indices(*block)[batch as int].len(),
    ensures
        i == body_note_indices(*block)[batch as int][note as int],
{
    block.body().output_note_batches()[batch][note].0
}

/// Whether the output note tree of the block's body can be built: every note sits in one of
/// the first 64 batches (`MAX_BATCHES_PER_BLOCK`) at an index below 1024
/// (`MAX_OUTPUT_NOTES_PER_BATCH`), and no index repeats within a batch. Otherwise
/// `BlockBody::compute_block_note_tree` panics (`BlockNoteIndex::new(..).expect(..)`, or the
/// duplicate leaf refused by `SimpleSmt::with_leaves`).
pub open spec fn body_notes_well_formed(block: SignedBlock) -> bool {
    let batches = body_note_indices(block);
    &&& forall|b: int| 64 <= b < batches.len() ==> #[trigger] batches[b].len() == 0
    &&& forall|b: int, i: int|
        0 <= b < batches.len() && 0 <= i < batches[b].len() ==> #[trigger] batches[b][i] < 1024
    &&& forall|b: int, i: int, j: int|
        0 <= b < batches.len() && 0 <= i < j < batches[b].len() ==> #[trigger] batches[b][i]
            != #[trigger] batches[b][j]
}

/// `BlockBody::compute_block_note_tree().root()` of the block's body, as canonical integers.
/// The tree is built only from a well-formed body, on which it does not panic.
#[verifier::external_body]
pub(crate) fn body_note_root_value(block: &SignedBlock) -> (w: WordValue)
    requires
        body_notes_well_formed(*block),
    ensures
        w@ == body_note_root(*block)@,
{
    <[u64; 4]>::from(block.body().compute_block_note_tree().root())
}

/// Why a signed block was refused as the next block of the chain, in the order the checks run:
/// the signature, the transaction commitment, the note root, then the link to the parent.
#[derive(Debug, Clone, PartialEq, Eq)]
pub enum SignedBlockError {
    /// The signature over the header's commitment does not verify under the parent's validator
    /// key.
    InvalidSignature,
    /// The header's transaction commitment is not that of the body's transactions.
    TxCommitmentMismatch { header_tx_commitment: WordValue, body_tx_commitment: WordValue },
    /// The header's note root is not the root of the body's output note tree.
    NoteRootMismatch { header_root: WordValue, body_root: WordValue },
    /// The block is the genesis block, which has no parent.
    GenesisBlockHasNoParent { parent: u32 },
    /// The parent's number is not the block's number minus one.
    ParentNumberMismatch { expected: u32, parent: u32 },
    /// The previous block commitment that the header names is not the parent's commitment.
    ParentCommitmentMismatch { expected: WordValue, parent: WordValue },
}

/// A block header with its block number, read from the header when the pair is made.
#[derive(Debug)]
pub struct NumberedHeader {
    header: BlockHeader,
    number: u32,
}

impl NumberedHeader {
    /// The block number held beside the header.
    pub closed spec fn number(&self) -> u32 {
        self.number
    }

    /// The header itself.
    pub closed spec fn header_value(&self) -> BlockHeader {
        self.header
    }

    /// The number held is the header's own block number.
    pub open spec fn is_consistent(&self) -> bool {
        self.number() == block_number_of(self.header_value())
    }

    /// Pairs `header` with its block number.
    pub fn new(header: BlockHeader) -> (r: Self)
        ensures
            r.header_value() == header,
            r.is_consistent(),
    {
        let number = block_number_value(&header);
        NumberedHeader { header, number }
    }

    pub fn block_number(&self) -> (n: u32)
        ensures
            n == self.number(),
    {
        self.number
    }

    pub fn header(&self) -> (h: &BlockHeader)
        ensures
            *h == self.header_value(),
    {
        &self.header
    }

    pub fn into_header(self) -> (h: BlockHeader)
        ensures
            h == self.header_value(),
    {
        self.header
    }
}

impl Clone for NumberedHeader {
    /// A copy of the header with the same number.
    fn clone(&self) -> (r: Self)
        ensures
            r == *self,
    {
        NumberedHeader { header: self.header.clone(), number: self.number }
    }
}

// TRANSACTIONS AND FEES
// ================================================================================================

#[verifier::external_type_specification]
#[verifier::external_body]
pub struct ExProvenTransaction(ProvenTransaction);

#[verifier::external_type_specification]
#[verifier::external_body]
pub struct ExFeeParameters(FeeParameters);

#[verifier::external_type_specification]
#[verifier::external_body]
pub struct ExNoteScriptRoot(NoteScriptRoot);

#[verifier::external_type_specification]
#[verifier::external_body]
pub struct ExOutputNote(miden_protocol::transaction::OutputNote);

#[verifier::external_type_specification]
#[verifier::external_body]
#[verifier::reject_recursive_types(N)]
pub struct ExOutputNoteCollection<N>(miden_protocol::transaction::OutputNoteCollection<N>);

/// The output notes of a proven transaction, in order, each as the fee rule reads it: the root
/// of the recipient's note script and the value words of the assets, both `None` for a private
/// note.
pub uninterp spec fn output_note_fee_data(notes: OutputNotes) -> Seq<OutputNoteFeeData>;

/// What the fee rule reads of the output notes of `tx` (`ProvenTransaction::output_notes`).
pub uninterp spec fn transaction_output_note_fee_data(tx: ProvenTransaction) -> Seq<
    OutputNoteFeeData,
>;

/// The id of `tx` (`ProvenTransaction::id`) as the canonical integers of its word.
pub uninterp spec fn transaction_id_word(tx: ProvenTransaction) -> WordValue;

/// The verification base fee of `fee_parameters` (`FeeParameters::verification_base_fee`).
pub uninterp spec fn verification_base_fee(fee_parameters: FeeParameters) -> u32;

/// The canonical integers of the word of `root` (`NoteScriptRoot::as_word`).
pub uninterp spec fn script_root_word(root: NoteScriptRoot) -> WordValue;

/// `ProvenTransaction::output_notes`: the output notes of the transaction, whose fee data is
/// that of the transaction.
#[verifier::external_body]
pub(crate) fn output_notes_of(tx: &ProvenTransaction) -> (notes: &OutputNotes)
    ensures
        output_note_fee_data(*notes) == transaction_output_note_fee_data(*tx),
{
    tx.output_notes()
}

/// `OutputNoteCollection::num_notes`: how many output notes there are.
#[verifier::external_body]
pub(crate) fn output_note_count(notes: &OutputNotes) -> (n: usize)
    ensures
        n == output_note_fee_data(*notes).len(),
{
    notes.num_notes()
}

/// `OutputNoteCollection::get_note(idx)`, which panics past the last note (required here),
/// with the note mapped to what the fee rule reads: for a public note, the root of its
/// recipient's script (`NoteRecipient::script().root()`) and the value word of each of its
/// assets (`Asset::to_value_word`), as canonical integers; for a private note, `None` for both
/// (`OutputNote::recipient` and `OutputNote::assets` return `None`).
#[verifier::external_body]
pub(crate) fn output_note_fee_data_at(notes: &OutputNotes, idx: usize) -> (d: OutputNoteFeeData)
    requires
        idx < output_note_fee_data(*notes).len(),
    ensures
        d == output_note_fee_data(*notes)[idx as int],
{
    let note = notes.get_note(idx);
    let script_root = match note.recipient() {
        Some(recipient) => Some(<[u64; 4]>::from(recipient.script().root().as_word())),
        None => None,
    };
    let asset_values = match note.assets() {
        Some(assets) => Some(assets.iter().map(|a| <[u64; 4]>::from(a.to_value_word())).collect()),
        None => None,
    };
    OutputNoteFeeData { script_root, asset_values }
}

/// `ProvenTransaction::id` as the canonical integers of its word (`Felt::as_canonical_u64` on
/// each element).
#[verifier::external_body]
pub(crate) fn transaction_id_value(tx: &ProvenTransaction) -> (id: WordValue)
    ensures
        id@ == transaction_id_word(*tx)@,
{
    <[u64; 4]>::from(tx.id().as_word())
}

/// `FeeParameters::verification_base_fee`.
#[verifier::external_body]
pub(crate) fn verification_base_fee_of(fee_parameters: &FeeParameters) -> (fee: u32)
    ensures
        fee == verification_base_fee(*fee_parameters),
{
    fee_parameters.verification_base_fee()
}

/// A note script root as the canonical integers of its word (`NoteScriptRoot::as_word`, then
/// `Felt::as_canonical_u64` on each element). Two roots are equal exactly when these integers
/// are.
#[verifier::external_body]
pub(crate) fn script_root_value(root: &NoteScriptRoot) -> (value: WordValue)
    ensures
        value@ == script_root_word(*root)@,
{
    <[u64; 4]>::from(root.as_word())
}

} // verus!

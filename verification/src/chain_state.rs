//! The chain state that the network transaction builder keeps: the current chain tip, and a
//! partial chain MMR that lags the tip by one block.
//!
//! The partial MMR holds the MMR peaks, and block headers with authentication paths for the
//! most recent blocks only, at most `max_block_count` of them: notes are executed as
//! unauthenticated, so nothing older is needed.

use vstd::prelude::*;

use miden_protocol::block::{BlockHeader, SignedBlock};
use miden_protocol::crypto::merkle::mmr::PartialMmr;
use miden_protocol::transaction::PartialBlockchain;
use std::sync::Arc;

use crate::block_checks::{
    block_extends, block_is_valid, is_refusal_of, note_tree_can_be_built, reaches_note_root_check,
    validate_signed_block,
};
use crate::external::{
    add_tracked_block, block_commitment, block_number_of, body_notes_well_formed,
    body_tx_commitment_value, chain_length, header_of, signature_verifies_under,
    signed_under_key_of, tx_commitment_value,
    chain_length_of, mmr_leaf_count, mmr_peaks, mmr_tracked_leaves, mmr_with_leaf,
    partial_blockchain_from_mmr, partial_mmr_in, partial_mmr_of, prune_blocks_below,
    share_chain, signed_block_header, tracked_blocks, tracked_headers, tracked_leaves_below, NumberedHeader,
    SignedBlockError,
};
use crate::fee::words_equal;

verus! {

/// The lowest block number whose header stays tracked once the chain has `length` blocks and
/// at most `max_block_count` of them are kept.
pub open spec fn pruning_height(length: nat, max_block_count: usize) -> nat {
    if length >= max_block_count {
        (length - max_block_count) as nat
    } else {
        0
    }
}

/// The chain tip and the partial chain MMR.
#[derive(Debug)]
pub struct ChainState {
    chain_tip_header: NumberedHeader,
    chain_mmr: Arc<PartialBlockchain>,
}

impl ChainState {
    /// The current chain tip.
    pub closed spec fn tip(&self) -> NumberedHeader {
        self.chain_tip_header
    }

    /// The partial blockchain behind the shared pointer.
    pub closed spec fn mmr(&self) -> PartialBlockchain {
        *self.chain_mmr
    }

    /// The block number of the chain tip.
    pub open spec fn tip_number(&self) -> u32 {
        self.tip().number()
    }

    /// The tip's number is the tip header's own block number.
    pub open spec fn tip_is_numbered(&self) -> bool {
        self.tip().is_consistent()
    }

    /// The chain MMR lags the tip by one block: it holds every block before the tip.
    pub open spec fn mmr_lags_tip(&self) -> bool {
        chain_length(self.mmr()) == self.tip_number()
    }

    /// Every tracked block header belongs to a block of the chain.
    pub open spec fn tracks_chain_blocks(&self) -> bool {
        forall|n: u32| #[trigger] tracked_blocks(self.mmr()).contains(n) ==> n < chain_length(self.mmr())
    }

    /// Every chain state keeps its tip's number beside the tip and tracks only headers of blocks
    /// in its chain.
    #[verifier::type_invariant]
    spec fn state_invariant(&self) -> bool {
        self.tip_is_numbered() && self.tracks_chain_blocks()
    }

    /// The only tracked block headers are those of the last `max_block_count` blocks of the chain.
    pub open spec fn tracks_only_recent(&self, max_block_count: usize) -> bool {
        forall|n: u32| #[trigger] tracked_blocks(self.mmr()).contains(n)
            ==> pruning_height(chain_length(self.mmr()), max_block_count) <= n
    }

    /// The state can take the next block.
    pub open spec fn wf(&self) -> bool {
        self.tip_is_numbered() && self.mmr_lags_tip() && self.tracks_chain_blocks()
    }

    /// The partial MMR of this state with the tip's commitment appended as a tracked leaf, as
    /// it stands once a block has been accepted after this tip and before any pruning.
    pub open spec fn mmr_after_accepting(&self) -> PartialMmr {
        mmr_with_leaf(partial_mmr_in(self.mmr()), block_commitment(self.tip().header_value()))
    }

    /// Builds the state from the chain tip's header and a partial MMR of the chain, tracking no
    /// block header yet.
    pub fn new(chain_tip_header: BlockHeader, chain_mmr: PartialMmr) -> (r: Self)
        ensures
            r.tip().header_value() == chain_tip_header,
            r.tip_number() == block_number_of(chain_tip_header),
            partial_mmr_in(r.mmr()) == chain_mmr,
            tracked_headers(r.mmr()).dom() == Set::<u32>::empty(),
            r.wf() == (mmr_leaf_count(chain_mmr) == block_number_of(chain_tip_header)),
    {
        let chain_mmr = partial_blockchain_from_mmr(chain_mmr);
        let r = ChainState {
            chain_tip_header: NumberedHeader::new(chain_tip_header),
            chain_mmr: Arc::new(chain_mmr),
        };
        r
    }

    /// Consumes the chain state and returns the chain tip header and the partial blockchain.
    pub fn into_parts(self) -> (r: (BlockHeader, Arc<PartialBlockchain>))
        ensures
            r.0 == self.tip().header_value(),
            *r.1 == self.mmr(),
    {
        (self.chain_tip_header.into_header(), self.chain_mmr)
    }

    /// The header of the chain tip.
    pub fn chain_tip_header(&self) -> (h: &BlockHeader)
        ensures
            *h == self.tip().header_value(),
    {
        self.chain_tip_header.header()
    }

    /// The block number of the chain tip.
    pub fn chain_tip_block_number(&self) -> (n: u32)
        ensures
            n == self.tip_number(),
            n == block_number_of(self.tip().header_value()),
    {
        proof {
            use_type_invariant(self);
        }
        self.chain_tip_header.block_number()
    }

    /// A copy of the current partial chain MMR.
    pub fn current_mmr(&self) -> (m: PartialMmr)
        ensures
            m == partial_mmr_in(self.mmr()),
    {
        partial_mmr_of(&self.chain_mmr)
    }

    /// The number of blocks in the chain that the MMR describes.
    pub fn chain_length(&self) -> (n: u32)
        ensures
            n == chain_length(self.mmr()),
    {
        chain_length_of(&self.chain_mmr)
    }

    /// Whether the chain MMR holds exactly the blocks before the tip, as a next block needs.
    pub fn mmr_lags_tip_by_one(&self) -> (b: bool)
        ensures
            b == self.mmr_lags_tip(),
    {
        self.chain_length() == self.chain_tip_header.block_number()
    }

    /// Whether checking `block` against the tip would reach the note tree of a body from which
    /// no note tree can be built (the protocol library panics there).
    pub fn note_tree_check_fails(&self, block: &SignedBlock) -> (r: bool)
        ensures
            r == (reaches_note_root_check(*block, self.tip().header_value())
                && !body_notes_well_formed(*block)),
    {
        let tip = self.chain_tip_header.header();
        if signature_verifies_under(block, tip) {
            let header = header_of(block);
            let header_tx = tx_commitment_value(header);
            let body_tx = body_tx_commitment_value(block);
            words_equal(&header_tx, &body_tx) && !note_tree_can_be_built(block)
        } else {
            false
        }
    }

    /// Verifies the block against the current tip: its signature under the tip's validator key,
    /// its header's commitments against its body, then its link to the tip. On success returns
    /// the block's header with its number, which is the tip's plus one; on a refusal, the error
    /// of the first check that failed.
    pub fn validate_block(&self, block: &SignedBlock) -> (r: Result<NumberedHeader, SignedBlockError>)
        requires
            reaches_note_root_check(*block, self.tip().header_value()) ==> body_notes_well_formed(
                *block,
            ),
        ensures
            r is Ok <==> block_is_valid(*block, self.tip().header_value()),
            r matches Err(e) ==> is_refusal_of(e, *block, self.tip().header_value()),
            r matches Ok(h) ==> h.header_value() == signed_block_header(*block),
            r matches Ok(h) ==> h.is_consistent(),
            r matches Ok(h) ==> h.number() == self.tip_number() + 1,
    {
        proof {
            use_type_invariant(self);
        }
        validate_signed_block(block, &self.chain_tip_header)
    }

    /// Verifies the block against the current tip before updating the chain MMR.
    ///
    /// A block that fails verification (its signature under the tip's validator key, its
    /// commitments, or its link to the current tip) is refused with the error of the first
    /// failed check and leaves the state as it was. An accepted block becomes the new tip; the
    /// old tip's header joins the MMR as a tracked leaf, and the MMR then drops the headers and
    /// authentication paths of all but the last `max_block_count` blocks.
    pub fn update_chain_tip(&mut self, block: &SignedBlock, max_block_count: usize) -> (r: Result<
        (),
        SignedBlockError,
    >)
        requires
            reaches_note_root_check(*block, old(self).tip().header_value())
                ==> body_notes_well_formed(*block),
            block_is_valid(*block, old(self).tip().header_value()) ==> (old(self).mmr_lags_tip()
                && old(self).tip_number() < usize::MAX / 2),
        ensures
            r is Ok <==> block_is_valid(*block, old(self).tip().header_value()),
            r matches Err(e) ==> is_refusal_of(e, *block, old(self).tip().header_value()),
            r is Err ==> *final(self) == *old(self),
            r is Ok ==> final(self).wf(),
            r is Ok ==> final(self).tip().header_value() == signed_block_header(*block),
            r is Ok ==> final(self).tip_number() == block_number_of(signed_block_header(*block)),
            r is Ok ==> final(self).tip_number() == old(self).tip_number() + 1,
            r is Ok ==> final(self).accepted_after(*old(self), max_block_count),
    {
        let validation = self.validate_block(block);
        self.apply_block_validation(validation, max_block_count)
    }

    /// How the MMR of this state follows from `prev` when a block is accepted after `prev`'s tip:
    /// the old tip's commitment is appended as a tracked leaf (so the leaves and peaks are those
    /// of that appended MMR) and its header is stored under its number, and then the headers and
    /// authentication paths of all blocks below the pruning height are dropped.
    pub open spec fn accepted_after(&self, prev: ChainState, max_block_count: usize) -> bool {
        let appended = prev.mmr_after_accepting();
        let bound = pruning_height(chain_length(self.mmr()), max_block_count);
        &&& chain_length(self.mmr()) == chain_length(prev.mmr()) + 1
        &&& mmr_peaks(partial_mmr_in(self.mmr())) == mmr_peaks(appended)
        &&& mmr_tracked_leaves(partial_mmr_in(self.mmr())) == mmr_tracked_leaves(
            partial_mmr_in(prev.mmr()),
        ).insert(chain_length(prev.mmr())).difference(
            tracked_blocks(prev.mmr()).insert(prev.tip_number()).filter(|n: u32| n < bound).map(
                |n: u32| n as nat,
            ),
        )
        &&& tracked_headers(self.mmr()) == tracked_headers(prev.mmr()).insert(
            prev.tip_number(),
            prev.tip().header_value(),
        ).filter_keys(|n: u32| n >= bound)
        &&& tracked_blocks(self.mmr()) == tracked_blocks(prev.mmr()).insert(
            prev.tip_number(),
        ).filter(|n: u32| n >= bound)
        &&& self.tracks_only_recent(max_block_count)
        &&& tracked_blocks(self.mmr()).len() <= max_block_count
    }

    /// Applies the outcome of validating a block against the current tip: a refusal is passed
    /// on and changes nothing; an accepted block's header `h` becomes the new tip, the old tip
    /// joins the MMR, and the MMR drops the headers of all but the last `max_block_count` blocks.
    pub fn apply_block_validation(
        &mut self,
        validation: Result<NumberedHeader, SignedBlockError>,
        max_block_count: usize,
    ) -> (r: Result<(), SignedBlockError>)
        requires
            validation matches Ok(h) ==> {
                &&& h.is_consistent()
                &&& h.number() == old(self).tip_number() + 1
                &&& old(self).mmr_lags_tip()
                &&& old(self).tip_number() < usize::MAX / 2
            },
        ensures
            r is Ok <==> validation is Ok,
            validation matches Err(e) ==> r == Err::<(), SignedBlockError>(e),
            validation is Err ==> *final(self) == *old(self),
            validation is Ok ==> final(self).wf(),
            validation matches Ok(h) ==> final(self).tip() == h,
            validation is Ok ==> final(self).accepted_after(*old(self), max_block_count),
    {
        proof {
            use_type_invariant(&*self);
        }
        let new_tip = match validation {
            Ok(h) => h,
            Err(e) => {
                return Err(e);
            },
        };
        let ghost prev = *self;

        // Update the MMR, which lags by one block.
        proof {
            let headers = tracked_headers(self.mmr());
            let number = self.tip_number();
            assert forall|n: u32| #[trigger] headers.insert(
                number,
                self.tip().header_value(),
            ).dom().contains(n) implies n < chain_length(self.mmr()) + 1 by {
                if n != number {
                    assert(tracked_blocks(self.mmr()).contains(n));
                }
            }
        }
        add_tracked_block(&mut self.chain_mmr, self.chain_tip_header.header());

        // Set the new tip.
        self.chain_tip_header = new_tip;

        // Keep the MMR pruned.
        let length = chain_length_of(&self.chain_mmr);
        let pruned_block_height = if (length as usize) >= max_block_count {
            ((length as usize) - max_block_count) as u32
        } else {
            0
        };
        let ghost added = self.mmr();
        prune_blocks_below(&mut self.chain_mmr, pruned_block_height);
        proof {
            assert(tracked_blocks(added) =~= tracked_blocks(prev.mmr()).insert(prev.tip_number()));
            assert(tracked_blocks(self.mmr()) =~= tracked_blocks(added).filter(
                |n: u32| n >= pruned_block_height,
            ));
            lemma_tracked_headers_bounded(*self, max_block_count);
            assert(tracked_leaves_below(added, pruned_block_height) =~= tracked_blocks(
                prev.mmr(),
            ).insert(prev.tip_number()).filter(|n: u32| n < pruned_block_height).map(
                |n: u32| n as nat,
            ));
        }
        Ok(())
    }
}

impl Clone for ChainState {
    /// A copy of the tip and another pointer to the same partial blockchain.
    fn clone(&self) -> (r: Self)
        ensures
            r == *self,
    {
        proof {
            use_type_invariant(self);
        }
        ChainState {
            chain_tip_header: self.chain_tip_header.clone(),
            chain_mmr: share_chain(&self.chain_mmr),
        }
    }
}

/// A block whose header is already the chain tip does not extend the tip: the same block is
/// never accepted twice in a row.
pub proof fn lemma_accepted_block_does_not_extend_itself(state: ChainState, block: SignedBlock)
    requires
        state.tip_is_numbered(),
        state.tip().header_value() == signed_block_header(block),
    ensures
        !block_extends(block, state.tip().header_value()),
{
}

/// Only a block signed under the tip's validator key can advance the tip: a block signed by any
/// other key, the key that the block itself names included, is refused.
pub proof fn lemma_only_tip_validator_advances(state: ChainState, block: SignedBlock)
    requires
        block_is_valid(block, state.tip().header_value()),
    ensures
        signed_under_key_of(block, state.tip().header_value()),
{
}

/// Once a block is accepted after a tip, the chain MMR keeps the old tip's header under the old
/// tip's number, unless it keeps no header at all (`max_block_count` is zero).
pub proof fn lemma_old_tip_header_is_kept(next: ChainState, prev: ChainState, max_block_count: usize)
    requires
        next.accepted_after(prev, max_block_count),
        prev.mmr_lags_tip(),
        max_block_count > 0,
    ensures
        tracked_headers(next.mmr()).dom().contains(prev.tip_number()),
        tracked_headers(next.mmr())[prev.tip_number()] == prev.tip().header_value(),
{
    let bound = pruning_height(chain_length(next.mmr()), max_block_count);
    assert(prev.tip_number() >= bound);
    let inserted = tracked_headers(prev.mmr()).insert(prev.tip_number(), prev.tip().header_value());
    assert(inserted.dom().contains(prev.tip_number()));
}

/// After a block is accepted, the MMR keeps the header of block `n` exactly when it kept it
/// before or `n` is the old tip, and `n` is one of the last `max_block_count` blocks of the
/// chain (`n + max_block_count >= length`).
pub proof fn lemma_accepted_block_keeps_the_last_blocks(
    next: ChainState,
    prev: ChainState,
    max_block_count: usize,
)
    requires
        next.accepted_after(prev, max_block_count),
    ensures
        forall|n: u32| #[trigger]
            tracked_blocks(next.mmr()).contains(n) <==> {
                &&& tracked_blocks(prev.mmr()).contains(n) || n == prev.tip_number()
                &&& n + max_block_count >= chain_length(next.mmr())
            },
{
}

/// A state that keeps the headers of the blocks before its tip that stay among the last
/// `max_block_count` once one more block is added keeps, after accepting a block, the headers
/// of exactly the last `max_block_count` blocks of its chain (all of them, if the chain is
/// shorter).
pub proof fn lemma_accepted_block_keeps_exactly_the_last_blocks(
    next: ChainState,
    prev: ChainState,
    max_block_count: usize,
)
    requires
        next.accepted_after(prev, max_block_count),
        prev.mmr_lags_tip(),
        prev.tracks_chain_blocks(),
        forall|n: u32|
            n < prev.tip_number() && n + max_block_count >= prev.tip_number() + 1
                ==> #[trigger] tracked_blocks(prev.mmr()).contains(n),
    ensures
        forall|n: u32| #[trigger]
            tracked_blocks(next.mmr()).contains(n) <==> (n < chain_length(next.mmr()) && n
                + max_block_count >= chain_length(next.mmr())),
{
    lemma_accepted_block_keeps_the_last_blocks(next, prev, max_block_count);
}

/// The block numbers from `lo` up to, not including, `hi`.
spec fn block_range(lo: nat, hi: nat) -> Set<u32> {
    Set::new(|n: u32| lo <= n < hi)
}

/// The range of block numbers from `lo` to `hi` is finite, with at most `hi - lo` numbers.
proof fn lemma_block_range_len(lo: nat, hi: nat)
    requires
        lo <= hi,
    ensures
        block_range(lo, hi).finite(),
        block_range(lo, hi).len() <= hi - lo,
    decreases hi - lo,
{
    if lo == hi {
        assert(block_range(lo, hi) =~= Set::<u32>::empty());
    } else {
        let top = (hi - 1) as nat;
        lemma_block_range_len(lo, top);
        if top <= u32::MAX {
            assert(block_range(lo, hi) =~= block_range(lo, top).insert(top as u32));
        } else {
            assert(block_range(lo, hi) =~= block_range(lo, top));
        }
    }
}

/// A chain state whose tracked headers belong to the chain and to its last `max_block_count`
/// blocks tracks at most `max_block_count` block headers.
pub proof fn lemma_tracked_headers_bounded(state: ChainState, max_block_count: usize)
    requires
        state.tracks_chain_blocks(),
        state.tracks_only_recent(max_block_count),
    ensures
        tracked_blocks(state.mmr()).finite(),
        tracked_blocks(state.mmr()).len() <= max_block_count,
{
    let length = chain_length(state.mmr());
    let lo = pruning_height(length, max_block_count);
    lemma_block_range_len(lo, length);
    assert(tracked_blocks(state.mmr()).subset_of(block_range(lo, length)));
    vstd::set_lib::lemma_len_subset(tracked_blocks(state.mmr()), block_range(lo, length));
}

} // verus!

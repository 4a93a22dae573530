use miden_node_core::block_checks::note_tree_can_be_built;
use miden_node_core::chain_state::ChainState;
use miden_node_core::external::SignedBlockError;
use miden_protocol::Word;
use miden_protocol::account::AccountId;
use miden_protocol::asset::{Asset, FungibleAsset};
use miden_protocol::block::{BlockBody, BlockHeader, BlockNumber, FeeParameters, SignedBlock};
use miden_protocol::crypto::dsa::ecdsa_k256_keccak::{PublicKey, SigningKey};
use miden_protocol::crypto::merkle::mmr::PartialMmr;
use miden_protocol::note::{
    Note, NoteAssets, NoteAttachments, NoteHeader, NoteRecipient, NoteStorage, NoteType,
    PartialNoteMetadata,
};
use miden_protocol::transaction::{
    OrderedTransactionHeaders, OutputNote, PartialBlockchain, PrivateOutputNote,
};
use miden_standards::note::P2idNote;
use std::sync::Arc;

/// A public account id (version 1, public, random part 0xabcd_acde).
const FEE_FAUCET_ID: u128 = 0xab00_0000_0000_cd11_0000_ac00_0000_de00;

fn fee_parameters() -> FeeParameters {
    FeeParameters::new(AccountId::try_from(FEE_FAUCET_ID).unwrap(), 0)
}

fn empty_body() -> BlockBody {
    BlockBody::new_unchecked(vec![], vec![], vec![], OrderedTransactionHeaders::new_unchecked(vec![]))
}

fn header(
    prev_block_commitment: Word,
    block_num: u32,
    validator_key: PublicKey,
    body: &BlockBody,
    timestamp: u32,
) -> BlockHeader {
    BlockHeader::new(
        0,
        prev_block_commitment,
        BlockNumber::from(block_num),
        Word::empty(),
        Word::empty(),
        Word::empty(),
        body.compute_block_note_tree().root(),
        body.transaction_commitment(),
        Word::empty(),
        validator_key,
        fee_parameters(),
        timestamp,
    )
}

fn genesis(signer: &SigningKey) -> BlockHeader {
    header(Word::empty(), 0, signer.public_key(), &empty_body(), 0)
}

/// The next block after `parent`, signed by `signer`.
fn child(parent: &BlockHeader, signer: &SigningKey) -> SignedBlock {
    let body = empty_body();
    let h = header(
        parent.commitment(),
        parent.block_num().as_u32() + 1,
        signer.public_key(),
        &body,
        parent.timestamp() + 1,
    );
    let signature = signer.sign(h.commitment());
    SignedBlock::new_unchecked(h, body, signature)
}

/// A private account id (version 1, private, random part 0xbfcc_dcee).
const ACCOUNT_ID: u128 = 0xbf00_0000_0000_cc01_0000_dc00_0000_ee00;

fn private_note(serial: u32) -> OutputNote {
    let faucet = AccountId::try_from(FEE_FAUCET_ID).unwrap();
    let recipient =
        NoteRecipient::new(Word::from([serial, 0, 0, 0]), P2idNote::script(), NoteStorage::default());
    let note = Note::new(
        NoteAssets::new(vec![Asset::from(FungibleAsset::new(faucet, 5).unwrap())]).unwrap(),
        PartialNoteMetadata::new(AccountId::try_from(ACCOUNT_ID).unwrap(), NoteType::Private),
        recipient,
    );
    OutputNote::Private(PrivateOutputNote::new(NoteHeader::from(&note), NoteAttachments::default()).unwrap())
}

fn body_with_batches(batches: Vec<Vec<(usize, OutputNote)>>) -> BlockBody {
    BlockBody::new_unchecked(vec![], batches, vec![], OrderedTransactionHeaders::new_unchecked(vec![]))
}

fn word_value(word: Word) -> [u64; 4] {
    <[u64; 4]>::from(word)
}

fn headers_kept(chain: &ChainState) -> Vec<u32> {
    let (_, mmr): (BlockHeader, Arc<PartialBlockchain>) = chain.clone().into_parts();
    mmr.block_headers().map(|h| h.block_num().as_u32()).collect()
}

#[test]
fn rejected_blocks_do_not_advance_chain_state() {
    let signer = SigningKey::new();
    let attacker = SigningKey::new();
    let parent = genesis(&signer);
    let mut chain = ChainState::new(parent.clone(), PartialMmr::default());
    assert!(chain.mmr_lags_tip_by_one());
    let initial_mmr = chain.current_mmr();

    // The next block names the attacker as the validator of the block after it.
    let body = empty_body();
    let header = header(parent.commitment(), 1, attacker.public_key(), &body, parent.timestamp() + 1);

    for signature in [attacker.sign(header.commitment()), signer.sign(parent.commitment())] {
        let invalid = SignedBlock::new_unchecked(header.clone(), body.clone(), signature);
        assert!(chain.update_chain_tip(&invalid, 4).is_err());
        assert_eq!(chain.chain_tip_header(), &parent);
        assert_eq!(chain.current_mmr(), initial_mmr);
    }

    let valid = SignedBlock::new_unchecked(header.clone(), body, signer.sign(header.commitment()));
    chain.update_chain_tip(&valid, 4).unwrap();
    assert_eq!(chain.chain_tip_header(), valid.header());
    let advanced_mmr = chain.current_mmr();
    assert_ne!(advanced_mmr, initial_mmr);

    assert!(chain.update_chain_tip(&valid, 4).is_err());
    assert_eq!(chain.chain_tip_header(), valid.header());
    assert_eq!(chain.current_mmr(), advanced_mmr);
}

#[test]
fn block_signed_by_the_key_it_names_is_refused() {
    let signer = SigningKey::new();
    let attacker = SigningKey::new();
    let parent = genesis(&signer);
    let mut chain = ChainState::new(parent.clone(), PartialMmr::default());
    let forged = child(&parent, &attacker);
    assert_eq!(chain.update_chain_tip(&forged, 4), Err(SignedBlockError::InvalidSignature));
    assert_eq!(chain.chain_tip_header(), &parent);
    assert_eq!(chain.chain_length(), 0);
}

#[test]
fn next_validator_signs_the_block_after_next() {
    let signer = SigningKey::new();
    let next_signer = SigningKey::new();
    let parent = genesis(&signer);
    let mut chain = ChainState::new(parent.clone(), PartialMmr::default());

    let body = empty_body();
    let first = header(parent.commitment(), 1, next_signer.public_key(), &body, 1);
    let block = SignedBlock::new_unchecked(first.clone(), body.clone(), signer.sign(first.commitment()));
    chain.update_chain_tip(&block, 4).unwrap();

    let second = header(first.commitment(), 2, next_signer.public_key(), &body, 2);
    let by_old = SignedBlock::new_unchecked(second.clone(), body.clone(), signer.sign(second.commitment()));
    assert_eq!(chain.update_chain_tip(&by_old, 4), Err(SignedBlockError::InvalidSignature));
    let by_new = SignedBlock::new_unchecked(second.clone(), body, next_signer.sign(second.commitment()));
    chain.update_chain_tip(&by_new, 4).unwrap();
    assert_eq!(chain.chain_tip_block_number(), 2);
}

#[test]
fn accepted_block_becomes_tip_and_old_tip_joins_the_mmr() {
    let signer = SigningKey::new();
    let genesis = genesis(&signer);
    let mut chain = ChainState::new(genesis.clone(), PartialMmr::default());
    assert_eq!(chain.chain_length(), 0);
    assert_eq!(chain.chain_tip_block_number(), 0);

    let block = child(&genesis, &signer);
    chain.update_chain_tip(&block, 4).unwrap();
    assert_eq!(chain.chain_tip_block_number(), 1);
    assert_eq!(chain.chain_length(), 1);
    assert!(chain.mmr_lags_tip_by_one());
    assert_eq!(headers_kept(&chain), vec![0]);
    let (tip, mmr) = chain.into_parts();
    assert_eq!(&tip, block.header());
    assert_eq!(mmr.get_block(BlockNumber::from(0)), Some(&genesis));
}

#[test]
fn mmr_keeps_only_the_last_max_block_count_headers() {
    let signer = SigningKey::new();
    let mut tip = genesis(&signer);
    let mut chain = ChainState::new(tip.clone(), PartialMmr::default());
    for n in 1..=10u32 {
        let block = child(&tip, &signer);
        chain.update_chain_tip(&block, 3).unwrap();
        tip = block.header().clone();
        assert_eq!(chain.chain_tip_block_number(), n);
        assert_eq!(chain.chain_length(), n);
        let kept = headers_kept(&chain);
        let low = n.saturating_sub(3);
        assert_eq!(kept, (low..n).collect::<Vec<u32>>());
    }
}

#[test]
fn zero_max_block_count_keeps_no_header() {
    let signer = SigningKey::new();
    let genesis = genesis(&signer);
    let mut chain = ChainState::new(genesis.clone(), PartialMmr::default());
    let block = child(&genesis, &signer);
    chain.update_chain_tip(&block, 0).unwrap();
    assert_eq!(chain.chain_length(), 1);
    assert!(headers_kept(&chain).is_empty());
}

#[test]
fn block_with_wrong_number_is_rejected() {
    let signer = SigningKey::new();
    let genesis = genesis(&signer);
    let mut chain = ChainState::new(genesis.clone(), PartialMmr::default());
    let body = empty_body();
    let h = header(genesis.commitment(), 2, signer.public_key(), &body, 1);
    let block = SignedBlock::new_unchecked(h.clone(), body, signer.sign(h.commitment()));
    assert_eq!(
        chain.update_chain_tip(&block, 4),
        Err(SignedBlockError::ParentNumberMismatch { expected: 1, parent: 0 })
    );
    assert_eq!(chain.chain_tip_block_number(), 0);
    assert_eq!(chain.chain_length(), 0);
}

#[test]
fn block_with_wrong_parent_commitment_is_rejected() {
    let signer = SigningKey::new();
    let genesis = genesis(&signer);
    let mut chain = ChainState::new(genesis.clone(), PartialMmr::default());
    let body = empty_body();
    let h = header(Word::empty(), 1, signer.public_key(), &body, 1);
    let block = SignedBlock::new_unchecked(h.clone(), body, signer.sign(h.commitment()));
    assert_eq!(
        chain.update_chain_tip(&block, 4),
        Err(SignedBlockError::ParentCommitmentMismatch {
            expected: [0, 0, 0, 0],
            parent: word_value(genesis.commitment()),
        })
    );
    assert_eq!(chain.chain_tip_header(), &genesis);
}

#[test]
fn genesis_block_cannot_follow_the_tip() {
    let signer = SigningKey::new();
    let genesis = genesis(&signer);
    let mut chain = ChainState::new(genesis.clone(), PartialMmr::default());
    let again = SignedBlock::new_unchecked(genesis.clone(), empty_body(), signer.sign(genesis.commitment()));
    assert_eq!(
        chain.update_chain_tip(&again, 4),
        Err(SignedBlockError::GenesisBlockHasNoParent { parent: 0 })
    );
    assert_eq!(chain.chain_tip_header(), &genesis);
}

#[test]
fn block_whose_body_does_not_match_its_header_is_rejected() {
    let signer = SigningKey::new();
    let genesis = genesis(&signer);
    let mut chain = ChainState::new(genesis.clone(), PartialMmr::default());
    let body = empty_body();
    let mut h = header(genesis.commitment(), 1, signer.public_key(), &body, 1);
    h = BlockHeader::new(
        h.version(),
        h.prev_block_commitment(),
        h.block_num(),
        h.chain_commitment(),
        h.account_root(),
        h.nullifier_root(),
        h.note_root(),
        Word::from([1u32, 2, 3, 4]),
        h.tx_kernel_commitment(),
        h.validator_key().clone(),
        fee_parameters(),
        h.timestamp(),
    );
    let block = SignedBlock::new_unchecked(h.clone(), body, signer.sign(h.commitment()));
    assert_eq!(
        chain.update_chain_tip(&block, 4),
        Err(SignedBlockError::TxCommitmentMismatch {
            header_tx_commitment: [1, 2, 3, 4],
            body_tx_commitment: word_value(empty_body().transaction_commitment()),
        })
    );
    assert_eq!(chain.chain_tip_header(), &genesis);
}

#[test]
fn block_whose_note_root_does_not_match_its_body_is_rejected() {
    let signer = SigningKey::new();
    let genesis = genesis(&signer);
    let mut chain = ChainState::new(genesis.clone(), PartialMmr::default());
    let body = body_with_batches(vec![vec![(0, private_note(1))]]);
    let h = header(genesis.commitment(), 1, signer.public_key(), &empty_body(), 1);
    let block = SignedBlock::new_unchecked(h.clone(), body.clone(), signer.sign(h.commitment()));
    assert!(!chain.note_tree_check_fails(&block));
    assert_eq!(
        chain.update_chain_tip(&block, 4),
        Err(SignedBlockError::NoteRootMismatch {
            header_root: word_value(empty_body().compute_block_note_tree().root()),
            body_root: word_value(body.compute_block_note_tree().root()),
        })
    );
    assert_eq!(chain.chain_tip_header(), &genesis);
}

#[test]
fn block_with_notes_is_accepted() {
    let signer = SigningKey::new();
    let genesis = genesis(&signer);
    let mut chain = ChainState::new(genesis.clone(), PartialMmr::default());
    let body = body_with_batches(vec![vec![(3, private_note(1)), (0, private_note(2))], vec![(7, private_note(3))]]);
    assert!(note_tree_can_be_built(&SignedBlock::new_unchecked(genesis.clone(), body.clone(), signer.sign(genesis.commitment()))));
    let h = header(genesis.commitment(), 1, signer.public_key(), &body, 1);
    let block = SignedBlock::new_unchecked(h.clone(), body, signer.sign(h.commitment()));
    chain.update_chain_tip(&block, 4).unwrap();
    assert_eq!(chain.chain_tip_header(), &h);
}

#[test]
fn malformed_note_batches_are_detected() {
    let signer = SigningKey::new();
    let genesis = genesis(&signer);
    let chain = ChainState::new(genesis.clone(), PartialMmr::default());
    let sign = |body: BlockBody| {
        let h = header(genesis.commitment(), 1, signer.public_key(), &empty_body(), 1);
        SignedBlock::new_unchecked(h.clone(), body, signer.sign(h.commitment()))
    };

    let well_formed = sign(body_with_batches(vec![vec![(1023, private_note(1))]]));
    assert!(note_tree_can_be_built(&well_formed));
    assert!(!chain.note_tree_check_fails(&well_formed));

    let index_too_large = sign(body_with_batches(vec![vec![(1024, private_note(1))]]));
    assert!(!note_tree_can_be_built(&index_too_large));
    assert!(chain.note_tree_check_fails(&index_too_large));

    let repeated = sign(body_with_batches(vec![vec![(5, private_note(1)), (5, private_note(2))]]));
    assert!(!note_tree_can_be_built(&repeated));
    assert!(chain.note_tree_check_fails(&repeated));

    let mut batches: Vec<Vec<(usize, OutputNote)>> = (0..64).map(|_| Vec::new()).collect();
    let with_empty_tail = {
        let mut b = batches.clone();
        b.push(Vec::new());
        sign(body_with_batches(b))
    };
    assert!(note_tree_can_be_built(&with_empty_tail));
    batches.push(vec![(0, private_note(1))]);
    let too_many_batches = sign(body_with_batches(batches));
    assert!(!note_tree_can_be_built(&too_many_batches));
    assert!(chain.note_tree_check_fails(&too_many_batches));

    // A block that is refused before its note tree is built does not reach the check.
    let attacker = SigningKey::new();
    let h = header(genesis.commitment(), 1, signer.public_key(), &empty_body(), 1);
    let forged = SignedBlock::new_unchecked(
        h.clone(),
        body_with_batches(vec![vec![(5000, private_note(1))]]),
        attacker.sign(h.commitment()),
    );
    assert!(!chain.note_tree_check_fails(&forged));
}

#[test]
fn mmr_lagging_check_reports_a_mismatch() {
    let signer = SigningKey::new();
    let body = empty_body();
    let tip = header(Word::empty(), 5, signer.public_key(), &body, 0);
    let chain = ChainState::new(tip, PartialMmr::default());
    assert!(!chain.mmr_lags_tip_by_one());
    assert_eq!(chain.chain_tip_block_number(), 5);
    assert_eq!(chain.chain_length(), 0);
}

#[test]
fn current_mmr_describes_the_chain_and_rebuilds_it() {
    let signer = SigningKey::new();
    let mut tip = genesis(&signer);
    let mut chain = ChainState::new(tip.clone(), PartialMmr::default());
    assert_eq!(chain.current_mmr().forest().num_leaves(), 0);
    for _ in 0..3 {
        let block = child(&tip, &signer);
        chain.update_chain_tip(&block, 2).unwrap();
        tip = block.header().clone();
    }
    let mmr = chain.current_mmr();
    assert_eq!(mmr.forest().num_leaves(), 3);
    assert_eq!(mmr.forest().num_leaves(), chain.chain_length() as usize);

    let mut rebuilt = ChainState::new(tip.clone(), mmr);
    assert_eq!(rebuilt.chain_length(), 3);
    assert!(rebuilt.mmr_lags_tip_by_one());
    let next = child(&tip, &signer);
    rebuilt.update_chain_tip(&next, 2).unwrap();
    assert_eq!(rebuilt.chain_length(), 4);
    assert_eq!(rebuilt.chain_tip_header(), next.header());
}

#[test]
fn new_state_holds_the_given_mmr() {
    let signer = SigningKey::new();
    let mut tip = genesis(&signer);
    let mut chain = ChainState::new(tip.clone(), PartialMmr::default());
    for _ in 0..2 {
        let block = child(&tip, &signer);
        chain.update_chain_tip(&block, 5).unwrap();
        tip = block.header().clone();
    }
    let mmr = chain.current_mmr();
    let rebuilt = ChainState::new(tip.clone(), mmr.clone());
    assert_eq!(rebuilt.current_mmr(), mmr);
    assert_eq!(rebuilt.chain_tip_block_number(), tip.block_num().as_u32());
    assert_eq!(ChainState::new(tip, PartialMmr::default()).current_mmr(), PartialMmr::default());
}

#[test]
fn accepted_block_appends_the_old_tip_and_prunes_paths() {
    let signer = SigningKey::new();
    let mut tip = genesis(&signer);
    let mut chain = ChainState::new(tip.clone(), PartialMmr::default());
    for n in 1..=5u32 {
        let before = chain.current_mmr();
        let old_tip = tip.clone();
        let block = child(&tip, &signer);
        chain.update_chain_tip(&block, 2).unwrap();
        tip = block.header().clone();
        let after = chain.current_mmr();
        let mut appended = before.clone();
        appended.add(old_tip.commitment(), true).unwrap();
        assert_eq!(after.peaks(), appended.peaks());
        assert_eq!(after.forest().num_leaves(), n as usize);
        let kept_paths: Vec<usize> = (0..n as usize).filter(|p| after.is_tracked(*p)).collect();
        let low = n.saturating_sub(2) as usize;
        assert_eq!(kept_paths, (low..n as usize).collect::<Vec<usize>>());
    }
}

#[test]
fn invalid_block_on_inconsistent_state_is_refused() {
    let signer = SigningKey::new();
    let attacker = SigningKey::new();
    let body = empty_body();
    let tip = header(Word::empty(), 5, signer.public_key(), &body, 0);
    let mut chain = ChainState::new(tip.clone(), PartialMmr::default());
    assert!(!chain.mmr_lags_tip_by_one());
    let next = header(tip.commitment(), 6, signer.public_key(), &body, 1);
    let forged = SignedBlock::new_unchecked(next.clone(), body, attacker.sign(next.commitment()));
    assert!(chain.update_chain_tip(&forged, 4).is_err());
    assert_eq!(chain.chain_tip_header(), &tip);
}

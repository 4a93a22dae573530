//! The fee rule for submitted transactions.
//!
//! When fees are enabled (a non-zero verification base fee), a transaction must create the
//! canonical fee note: a public output note whose recipient runs the fee note script and which
//! carries at least one asset whose value word is not the empty word. Whether the amount covers
//! the execution cost is checked elsewhere.

use vstd::prelude::*;

use miden_protocol::block::FeeParameters;
use miden_protocol::note::NoteScriptRoot;
use miden_protocol::transaction::{OutputNotes, ProvenTransaction};

use crate::external::{
    output_note_count, output_note_fee_data, output_note_fee_data_at, output_notes_of,
    script_root_value, script_root_word, transaction_id_value, transaction_id_word,
    transaction_output_note_fee_data, verification_base_fee, verification_base_fee_of,
};

verus! {

/// The canonical integers of the four field elements of a word.
pub type WordValue = [u64; 4];

/// The word of four zero elements.
pub open spec fn is_empty_word(w: WordValue) -> bool {
    w@[0] == 0 && w@[1] == 0 && w@[2] == 0 && w@[3] == 0
}

/// What the fee rule reads of one output note of a transaction.
#[derive(Debug, Clone)]
pub struct OutputNoteFeeData {
    /// The root of the recipient's note script; `None` for a private note.
    pub script_root: Option<WordValue>,
    /// The value words of the note's assets; `None` for a private note.
    pub asset_values: Option<Vec<WordValue>>,
}

/// What the fee rule reads of a transaction: its id and its output notes, in order.
#[derive(Debug, Clone)]
pub struct TransactionFeeData {
    pub id: WordValue,
    pub output_notes: Vec<OutputNoteFeeData>,
}

/// Why the mempool refused a transaction.
#[derive(Debug, Clone)]
pub enum MempoolSubmissionError {
    /// Fees are enabled and the transaction creates no canonical fee note with a non-zero asset.
    MissingFee { transaction_id: WordValue },
}

/// Some asset value in `values` is not the empty word.
pub open spec fn carries_non_zero_asset(values: Seq<WordValue>) -> bool {
    exists|i: int| 0 <= i < values.len() && !is_empty_word(#[trigger] values[i])
}

/// `note` is a canonical fee note: its recipient runs the script with root `fee_script_root`
/// and it holds an asset with a non-empty value word.
pub open spec fn is_canonical_fee_note(note: OutputNoteFeeData, fee_script_root: WordValue) -> bool {
    &&& note.script_root matches Some(root) && root@ == fee_script_root@
    &&& note.asset_values matches Some(values) && carries_non_zero_asset(values@)
}

/// Some output note of `notes` is a canonical fee note.
pub open spec fn contains_fee_note(notes: Seq<OutputNoteFeeData>, fee_script_root: WordValue) -> bool {
    exists|i: int|
        0 <= i < notes.len() && is_canonical_fee_note(#[trigger] notes[i], fee_script_root)
}

/// The fee rule admits a transaction with output notes `notes` under base fee `base_fee`.
pub open spec fn fee_rule_admits(
    notes: Seq<OutputNoteFeeData>,
    base_fee: u32,
    fee_script_root: WordValue,
) -> bool {
    base_fee == 0 || contains_fee_note(notes, fee_script_root)
}

/// Whether two words are equal, element by element.
pub fn words_equal(a: &WordValue, b: &WordValue) -> (r: bool)
    ensures
        r == (a@ == b@),
{
    let r = a[0] == b[0] && a[1] == b[1] && a[2] == b[2] && a[3] == b[3];
    proof {
        if r {
            assert(a@ =~= b@);
        }
    }
    r
}

/// Whether `w` is the empty word.
pub fn word_is_empty(w: &WordValue) -> (r: bool)
    ensures
        r == is_empty_word(*w),
{
    w[0] == 0 && w[1] == 0 && w[2] == 0 && w[3] == 0
}

/// Whether some asset value word in `values` is not the empty word.
pub fn has_non_zero_asset(values: &Vec<WordValue>) -> (r: bool)
    ensures
        r == carries_non_zero_asset(values@),
{
    let mut i: usize = 0;
    while i < values.len()
        invariant
            i <= values.len(),
            forall|j: int| 0 <= j < i ==> is_empty_word(#[trigger] values@[j]),
        decreases values.len() - i,
    {
        if !word_is_empty(&values[i]) {
            return true;
        }
        i = i + 1;
    }
    false
}

/// Whether `note` is a canonical fee note for the script root `fee_script_root`.
pub fn is_fee_note(note: &OutputNoteFeeData, fee_script_root: &WordValue) -> (r: bool)
    ensures
        r == is_canonical_fee_note(*note, *fee_script_root),
{
    let has_fee_script = match &note.script_root {
        Some(root) => words_equal(root, fee_script_root),
        None => false,
    };
    let has_non_zero = match &note.asset_values {
        Some(values) => has_non_zero_asset(values),
        None => false,
    };
    has_fee_script && has_non_zero
}

/// Whether some note of `notes` is a canonical fee note for `fee_script_root`.
pub fn any_fee_note(notes: &Vec<OutputNoteFeeData>, fee_script_root: &WordValue) -> (r: bool)
    ensures
        r == contains_fee_note(notes@, *fee_script_root),
{
    let mut i: usize = 0;
    while i < notes.len()
        invariant
            i <= notes.len(),
            forall|j: int|
                0 <= j < i ==> !is_canonical_fee_note(#[trigger] notes@[j], *fee_script_root),
        decreases notes.len() - i,
    {
        if is_fee_note(&notes[i], fee_script_root) {
            return true;
        }
        i = i + 1;
    }
    false
}

/// The fee rule on what it reads of a transaction.
///
/// A zero verification base fee disables the check. Otherwise the transaction must contain a
/// canonical fee output note (recipient script root `fee_script_root`) with at least one
/// non-zero asset; if it does not, the transaction is refused with `MissingFee`, naming it.
pub fn check_transaction_fee(
    tx: &TransactionFeeData,
    verification_base_fee: u32,
    fee_script_root: &WordValue,
) -> (r: Result<(), MempoolSubmissionError>)
    ensures
        r is Ok <==> fee_rule_admits(tx.output_notes@, verification_base_fee, *fee_script_root),
        r matches Err(e) ==> (e matches MempoolSubmissionError::MissingFee { transaction_id }
            && transaction_id@ == tx.id@),
{
    if verification_base_fee == 0 {
        return Ok(());
    }
    if any_fee_note(&tx.output_notes, fee_script_root) {
        Ok(())
    } else {
        Err(MempoolSubmissionError::MissingFee { transaction_id: tx.id })
    }
}

/// What the fee rule reads of the output notes of a transaction, note by note, in order.
pub fn collect_output_note_fee_data(notes: &OutputNotes) -> (r: Vec<OutputNoteFeeData>)
    ensures
        r@ == output_note_fee_data(*notes),
{
    let count = output_note_count(notes);
    let mut r: Vec<OutputNoteFeeData> = Vec::new();
    let mut i: usize = 0;
    while i < count
        invariant
            count == output_note_fee_data(*notes).len(),
            i <= count,
            r@ == output_note_fee_data(*notes).take(i as int),
        decreases count - i,
    {
        let data = output_note_fee_data_at(notes, i);
        r.push(data);
        i = i + 1;
        assert(r@ =~= output_note_fee_data(*notes).take(i as int));
    }
    assert(r@ =~= output_note_fee_data(*notes));
    r
}

/// What the fee rule reads of a transaction: its id and its output notes.
pub fn transaction_fee_data(tx: &ProvenTransaction) -> (r: TransactionFeeData)
    ensures
        r.id@ == transaction_id_word(*tx)@,
        r.output_notes@ == transaction_output_note_fee_data(*tx),
{
    let notes = output_notes_of(tx);
    TransactionFeeData { id: transaction_id_value(tx), output_notes: collect_output_note_fee_data(notes) }
}

/// Ensures that a transaction pays a non-zero fee when fees are enabled.
///
/// A zero verification base fee disables this check. Otherwise, the transaction must contain a
/// canonical fee output note, one whose recipient runs the note script with root
/// `fee_script_root`, with at least one non-zero asset. Validating that the amount is
/// sufficient for the transaction's execution cost is handled separately.
///
/// What the transaction and the fee parameters hold is read through the protocol library; the
/// rule applied to what was read is `check_transaction_fee`.
pub fn ensure_transaction_has_fee(
    tx: &ProvenTransaction,
    fee_parameters: &FeeParameters,
    fee_script_root: &NoteScriptRoot,
) -> (r: Result<(), MempoolSubmissionError>)
    ensures
        r is Ok <==> fee_rule_admits(
            transaction_output_note_fee_data(*tx),
            verification_base_fee(*fee_parameters),
            script_root_word(*fee_script_root),
        ),
        r matches Err(e) ==> (e matches MempoolSubmissionError::MissingFee { transaction_id }
            && transaction_id@ == transaction_id_word(*tx)@),
{
    let base_fee = verification_base_fee_of(fee_parameters);
    if base_fee == 0 {
        return Ok(());
    }
    let data = transaction_fee_data(tx);
    check_transaction_fee(&data, base_fee, &script_root_value(fee_script_root))
}

/// With a zero verification base fee every transaction passes the fee rule.
pub proof fn lemma_zero_base_fee_admits_all(notes: Seq<OutputNoteFeeData>, fee_script_root: WordValue)
    ensures
        fee_rule_admits(notes, 0, fee_script_root),
{
}

/// With fees enabled, a transaction without output notes is refused.
pub proof fn lemma_no_output_notes_refused(base_fee: u32, fee_script_root: WordValue)
    requires
        base_fee > 0,
    ensures
        !fee_rule_admits(Seq::<OutputNoteFeeData>::empty(), base_fee, fee_script_root),
{
}

/// A private note (no recipient, no assets visible) never counts as the fee note.
pub proof fn lemma_private_note_is_not_fee_note(note: OutputNoteFeeData, fee_script_root: WordValue)
    requires
        note.script_root is None || note.asset_values is None,
    ensures
        !is_canonical_fee_note(note, fee_script_root),
{
}

/// A note whose asset value words are all empty (a zero amount) never counts as the fee note.
pub proof fn lemma_empty_assets_do_not_pay(note: OutputNoteFeeData, fee_script_root: WordValue)
    requires
        note.asset_values matches Some(values) && forall|i: int|
            0 <= i < values@.len() ==> is_empty_word(#[trigger] values@[i]),
    ensures
        !is_canonical_fee_note(note, fee_script_root),
{
}

/// Adding output notes never turns an admitted transaction into a refused one.
pub proof fn lemma_more_notes_stay_admitted(
    notes: Seq<OutputNoteFeeData>,
    more: Seq<OutputNoteFeeData>,
    base_fee: u32,
    fee_script_root: WordValue,
)
    requires
        fee_rule_admits(notes, base_fee, fee_script_root),
    ensures
        fee_rule_admits(notes + more, base_fee, fee_script_root),
{
    if base_fee != 0 {
        let i = choose|i: int|
            0 <= i < notes.len() && is_canonical_fee_note(#[trigger] notes[i], fee_script_root);
        assert((notes + more)[i] == notes[i]);
    }
}

/// The order of the output notes does not matter to the fee rule: any permutation of them is
/// admitted exactly when they are.
pub proof fn lemma_fee_rule_ignores_order(
    notes: Seq<OutputNoteFeeData>,
    reordered: Seq<OutputNoteFeeData>,
    base_fee: u32,
    fee_script_root: WordValue,
)
    requires
        notes.to_multiset() == reordered.to_multiset(),
    ensures
        fee_rule_admits(notes, base_fee, fee_script_root) == fee_rule_admits(
            reordered,
            base_fee,
            fee_script_root,
        ),
{
    broadcast use vstd::seq_lib::group_to_multiset_ensures;

    if contains_fee_note(notes, fee_script_root) {
        let i = choose|i: int|
            0 <= i < notes.len() && is_canonical_fee_note(#[trigger] notes[i], fee_script_root);
        assert(notes.to_multiset().count(notes[i]) > 0);
        assert(reordered.contains(notes[i]));
        let j = choose|j: int| 0 <= j < reordered.len() && reordered[j] == notes[i];
        assert(is_canonical_fee_note(reordered[j], fee_script_root));
    }
    if contains_fee_note(reordered, fee_script_root) {
        let j = choose|j: int|
            0 <= j < reordered.len() && is_canonical_fee_note(
                #[trigger] reordered[j],
                fee_script_root,
            );
        assert(reordered.to_multiset().count(reordered[j]) > 0);
        assert(notes.contains(reordered[j]));
        let i = choose|i: int| 0 <= i < notes.len() && notes[i] == reordered[j];
        assert(is_canonical_fee_note(notes[i], fee_script_root));
    }
}

/// An asset list carries a non-zero asset exactly when one of its value words has a non-zero
/// element: any number of non-empty assets counts, not only one.
pub proof fn lemma_non_zero_asset_is_any_non_empty_word(values: Seq<WordValue>)
    ensures
        carries_non_zero_asset(values) <==> exists|k: int, e: int|
            0 <= k < values.len() && 0 <= e < 4 && #[trigger] values[k]@[e] != 0,
{
    if carries_non_zero_asset(values) {
        let k = choose|k: int| 0 <= k < values.len() && !is_empty_word(#[trigger] values[k]);
        if values[k]@[0] != 0 {
            assert(values[k]@[0] != 0);
        } else if values[k]@[1] != 0 {
            assert(values[k]@[1] != 0);
        } else if values[k]@[2] != 0 {
            assert(values[k]@[2] != 0);
        } else {
            assert(values[k]@[3] != 0);
        }
    }
    if exists|k: int, e: int| 0 <= k < values.len() && 0 <= e < 4 && #[trigger] values[k]@[e] != 0 {
        let (k, e) = choose|k: int, e: int|
            0 <= k < values.len() && 0 <= e < 4 && #[trigger] values[k]@[e] != 0;
        assert(!is_empty_word(values[k]));
    }
}

/// With fees enabled, a transaction is admitted exactly when one and the same output note both
/// runs the fee note script (its script root is `fee_script_root`) and holds an asset whose
/// value word has a non-zero element. A fee-script note without value and a valuable note with
/// another script do not add up to a fee.
pub proof fn lemma_fee_is_paid_by_a_single_note(
    notes: Seq<OutputNoteFeeData>,
    base_fee: u32,
    fee_script_root: WordValue,
)
    requires
        base_fee > 0,
    ensures
        fee_rule_admits(notes, base_fee, fee_script_root) <==> exists|i: int|
            0 <= i < notes.len() && {
                &&& (#[trigger] notes[i]).script_root matches Some(root) && root@
                    == fee_script_root@
                &&& notes[i].asset_values matches Some(values) && exists|k: int, e: int|
                    0 <= k < values@.len() && 0 <= e < 4 && #[trigger] values@[k]@[e] != 0
            },
{
    if fee_rule_admits(notes, base_fee, fee_script_root) {
        let i = choose|i: int|
            0 <= i < notes.len() && is_canonical_fee_note(#[trigger] notes[i], fee_script_root);
        let values = notes[i].asset_values.unwrap();
        lemma_non_zero_asset_is_any_non_empty_word(values@);
    }
    if exists|i: int|
        0 <= i < notes.len() && {
            &&& (#[trigger] notes[i]).script_root matches Some(root) && root@ == fee_script_root@
            &&& notes[i].asset_values matches Some(values) && exists|k: int, e: int|
                0 <= k < values@.len() && 0 <= e < 4 && #[trigger] values@[k]@[e] != 0
        } {
        let i = choose|i: int|
            0 <= i < notes.len() && {
                &&& (#[trigger] notes[i]).script_root matches Some(root) && root@
                    == fee_script_root@
                &&& notes[i].asset_values matches Some(values) && exists|k: int, e: int|
                    0 <= k < values@.len() && 0 <= e < 4 && #[trigger] values@[k]@[e] != 0
            };
        let values = notes[i].asset_values.unwrap();
        lemma_non_zero_asset_is_any_non_empty_word(values@);
        assert(is_canonical_fee_note(notes[i], fee_script_root));
    }
}

} // verus!

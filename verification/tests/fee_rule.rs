use miden_node_core::fee::{
    check_transaction_fee, has_non_zero_asset, is_fee_note, MempoolSubmissionError,
    OutputNoteFeeData, TransactionFeeData, WordValue,
};

const FEE_SCRIPT_ROOT: WordValue = [11, 12, 13, 14];
const OTHER_SCRIPT_ROOT: WordValue = [21, 22, 23, 24];
const TX_ID: WordValue = [1, 2, 3, 4];

/// The value word of a fungible asset holds its amount in the first element.
fn fungible_value(amount: u64) -> WordValue {
    [amount, 0, 0, 0]
}

fn public_note(script_root: WordValue, asset_values: Vec<WordValue>) -> OutputNoteFeeData {
    OutputNoteFeeData { script_root: Some(script_root), asset_values: Some(asset_values) }
}

fn private_note() -> OutputNoteFeeData {
    OutputNoteFeeData { script_root: None, asset_values: None }
}

fn transaction(output_notes: Vec<OutputNoteFeeData>) -> TransactionFeeData {
    TransactionFeeData { id: TX_ID, output_notes }
}

fn transaction_with_fee_amount(amount: u64) -> TransactionFeeData {
    transaction(vec![public_note(FEE_SCRIPT_ROOT, vec![fungible_value(amount)])])
}

fn is_missing_fee_for(result: Result<(), MempoolSubmissionError>, id: WordValue) -> bool {
    matches!(result, Err(MempoolSubmissionError::MissingFee { transaction_id }) if transaction_id == id)
}

#[test]
fn fee_note_with_non_zero_amount_pays_the_fee() {
    let tx = transaction_with_fee_amount(1);
    check_transaction_fee(&tx, 1, &FEE_SCRIPT_ROOT).unwrap();
}

#[test]
fn no_output_notes_is_refused_when_fees_are_enabled() {
    let tx = transaction(vec![]);
    assert!(is_missing_fee_for(check_transaction_fee(&tx, 1, &FEE_SCRIPT_ROOT), TX_ID));
}

#[test]
fn zero_amount_fee_note_is_refused_when_fees_are_enabled() {
    let tx = transaction_with_fee_amount(0);
    assert!(is_missing_fee_for(check_transaction_fee(&tx, 1, &FEE_SCRIPT_ROOT), TX_ID));
}

#[test]
fn no_output_notes_is_admitted_when_fees_are_disabled() {
    let tx = transaction(vec![]);
    check_transaction_fee(&tx, 0, &FEE_SCRIPT_ROOT).unwrap();
}

#[test]
fn zero_base_fee_accepts_any_transaction() {
    let tx = transaction(vec![private_note(), public_note(OTHER_SCRIPT_ROOT, vec![fungible_value(0)])]);
    assert!(check_transaction_fee(&tx, 0, &FEE_SCRIPT_ROOT).is_ok());
}

#[test]
fn fee_note_with_other_script_is_rejected() {
    let tx = transaction(vec![public_note(OTHER_SCRIPT_ROOT, vec![fungible_value(5)])]);
    assert!(is_missing_fee_for(check_transaction_fee(&tx, 7, &FEE_SCRIPT_ROOT), TX_ID));
}

#[test]
fn script_root_must_match_in_every_element() {
    for differing in 0..4 {
        let mut root = FEE_SCRIPT_ROOT;
        root[differing] += 100;
        let tx = transaction(vec![public_note(root, vec![fungible_value(5)])]);
        assert!(check_transaction_fee(&tx, 1, &FEE_SCRIPT_ROOT).is_err());
    }
}

#[test]
fn private_notes_never_pay_the_fee() {
    let tx = transaction(vec![private_note(), private_note()]);
    assert!(is_missing_fee_for(check_transaction_fee(&tx, 1, &FEE_SCRIPT_ROOT), TX_ID));
}

#[test]
fn fee_note_without_assets_is_rejected() {
    let tx = transaction(vec![public_note(FEE_SCRIPT_ROOT, vec![])]);
    assert!(check_transaction_fee(&tx, 1, &FEE_SCRIPT_ROOT).is_err());
}

#[test]
fn one_non_zero_asset_among_empty_ones_pays() {
    let tx = transaction(vec![public_note(
        FEE_SCRIPT_ROOT,
        vec![fungible_value(0), [0, 0, 0, 9], fungible_value(0)],
    )]);
    assert!(check_transaction_fee(&tx, 1, &FEE_SCRIPT_ROOT).is_ok());
}

#[test]
fn fee_note_may_stand_anywhere_among_the_outputs() {
    let fee_note = || public_note(FEE_SCRIPT_ROOT, vec![fungible_value(3)]);
    let other = || public_note(OTHER_SCRIPT_ROOT, vec![fungible_value(3)]);
    let last = transaction(vec![other(), private_note(), fee_note()]);
    let first = transaction(vec![fee_note(), private_note(), other()]);
    assert!(check_transaction_fee(&last, 1, &FEE_SCRIPT_ROOT).is_ok());
    assert!(check_transaction_fee(&first, 1, &FEE_SCRIPT_ROOT).is_ok());
}

#[test]
fn adding_notes_keeps_an_admitted_transaction_admitted() {
    let mut tx = transaction_with_fee_amount(2);
    assert!(check_transaction_fee(&tx, 1, &FEE_SCRIPT_ROOT).is_ok());
    tx.output_notes.push(private_note());
    tx.output_notes.push(public_note(OTHER_SCRIPT_ROOT, vec![]));
    assert!(check_transaction_fee(&tx, 1, &FEE_SCRIPT_ROOT).is_ok());
}

#[test]
fn missing_fee_names_the_transaction() {
    let tx = TransactionFeeData { id: [9, 8, 7, 6], output_notes: vec![] };
    assert!(is_missing_fee_for(check_transaction_fee(&tx, u32::MAX, &FEE_SCRIPT_ROOT), [9, 8, 7, 6]));
}

#[test]
fn note_level_checks() {
    assert!(is_fee_note(&public_note(FEE_SCRIPT_ROOT, vec![fungible_value(1)]), &FEE_SCRIPT_ROOT));
    assert!(!is_fee_note(&public_note(FEE_SCRIPT_ROOT, vec![fungible_value(0)]), &FEE_SCRIPT_ROOT));
    assert!(!is_fee_note(&private_note(), &FEE_SCRIPT_ROOT));
    assert!(has_non_zero_asset(&vec![[0, 0, 1, 0]]));
    assert!(!has_non_zero_asset(&vec![[0, 0, 0, 0], [0, 0, 0, 0]]));
    assert!(!has_non_zero_asset(&vec![]));
}

use block_indexer::classify::{
    classify_receipt, code_of, derive_log_key, derive_script_result_key, derive_transfer_key,
    Registry, Totals,
};
use block_indexer::entity::{Entity, Log, ScriptResult, Transfer, TransferOut};
use block_indexer::failure::Stage;
use block_indexer::model::{Receipt, ScriptExecutionResult};

const CONTRACT: [u8; 32] = [1u8; 32];
const RECIPIENT: [u8; 32] = [2u8; 32];
const ASSET: [u8; 32] = [3u8; 32];

fn classify(receipt: Receipt) -> (Result<Option<Entity>, Stage>, Registry, Totals) {
    let mut registry = Registry::new();
    let mut totals = Totals::new();
    let res = classify_receipt(&receipt, &mut registry, &mut totals);
    (res, registry, totals)
}

#[test]
fn script_results_map_to_small_codes() {
    assert_eq!(code_of(&ScriptExecutionResult::Success), 1);
    assert_eq!(code_of(&ScriptExecutionResult::Revert), 2);
    assert_eq!(code_of(&ScriptExecutionResult::Panic), 3);
    assert_eq!(code_of(&ScriptExecutionResult::GenericFailure(0)), 4);
    assert_eq!(code_of(&ScriptExecutionResult::GenericFailure(99)), 4);
}

#[test]
fn derived_keys_have_their_known_values() {
    assert_eq!(derive_transfer_key(&CONTRACT, &RECIPIENT, &ASSET), 7018351376520656738);
    assert_eq!(derive_transfer_key(&CONTRACT, &[4u8; 32], &ASSET), 4063712737172468322);
    assert_eq!(derive_log_key(&[5u8; 32], 7), 4049691757023421794);
    assert_eq!(derive_log_key(&[5u8; 32], 0x0102_0304_0506_0708), 4134642228686840930);
    assert_eq!(derive_script_result_key(1), 3906364909342242864);
    assert_eq!(derive_script_result_key(2), 7017510056110667577);
    assert_eq!(derive_script_result_key(3), 4063481835418693682);
    assert_eq!(derive_script_result_key(4), 3833235515640984377);
}

#[test]
fn call_registers_its_contract_and_yields_nothing() {
    let (res, registry, totals) = classify(Receipt::Call { id: CONTRACT });
    assert_eq!(res, Ok(None));
    assert_eq!(registry.contracts.len(), 1);
    assert!(registry.contracts.contains(&CONTRACT));
    assert_eq!(registry.accounts.len(), 0);
    assert_eq!(totals.amount, 0);
    assert!(totals.tokens.is_empty());
}

#[test]
fn return_data_and_log_data_register_their_contract_only() {
    for receipt in [Receipt::ReturnData { id: CONTRACT }, Receipt::LogData { id: CONTRACT }] {
        let (res, registry, totals) = classify(receipt);
        assert_eq!(res, Ok(None));
        assert_eq!(registry.contracts.len(), 1);
        assert_eq!(registry.contracts.get(0), CONTRACT);
        assert_eq!(registry.accounts.len(), 0);
        assert_eq!(totals.amount, 0);
        assert!(totals.tokens.is_empty());
    }
}

#[test]
fn transfer_yields_a_record_and_lists_its_asset() {
    let receipt =
        Receipt::Transfer { id: CONTRACT, to: RECIPIENT, asset_id: ASSET, amount: 500 };
    let (res, registry, totals) = classify(receipt);
    assert_eq!(
        res,
        Ok(Some(Entity::Transfer(Transfer {
            id: 7018351376520656738,
            contract_id: CONTRACT,
            receiver: RECIPIENT,
            amount: 500,
            asset_id: ASSET,
        })))
    );
    assert_eq!(registry.contracts.len(), 1);
    assert!(registry.contracts.contains(&CONTRACT));
    assert_eq!(registry.accounts.len(), 0);
    assert_eq!(totals.amount, 0);
    assert_eq!(totals.tokens, vec!["03".repeat(32)]);
}

#[test]
fn transfer_out_yields_a_record_adds_its_amount_and_registers_the_recipient() {
    let receipt =
        Receipt::TransferOut { id: CONTRACT, to: RECIPIENT, asset_id: ASSET, amount: 200 };
    let (res, registry, totals) = classify(receipt);
    assert_eq!(
        res,
        Ok(Some(Entity::TransferOut(TransferOut {
            id: 7018351376520656738,
            contract_id: CONTRACT,
            receiver: RECIPIENT,
            amount: 200,
            asset_id: ASSET,
        })))
    );
    assert!(registry.contracts.contains(&CONTRACT));
    assert_eq!(registry.accounts.len(), 1);
    assert!(registry.accounts.contains(&RECIPIENT));
    assert_eq!(totals.amount, 200);
    assert!(totals.tokens.is_empty());
}

#[test]
fn log_yields_a_record_keyed_by_contract_and_register() {
    let (res, registry, totals) = classify(Receipt::Log { id: [5u8; 32], rb: 7 });
    assert_eq!(
        res,
        Ok(Some(Entity::Log(Log { id: 4049691757023421794, contract_id: [5u8; 32], rb: 7 })))
    );
    assert!(registry.contracts.contains(&[5u8; 32]));
    assert_eq!(totals.amount, 0);
}

#[test]
fn script_result_yields_a_record_and_registers_nothing() {
    let receipt =
        Receipt::ScriptResult { result: ScriptExecutionResult::Revert, gas_used: 321 };
    let (res, registry, totals) = classify(receipt);
    assert_eq!(
        res,
        Ok(Some(Entity::ScriptResult(ScriptResult {
            id: 7017510056110667577,
            result: 2,
            gas_used: 321,
        })))
    );
    assert_eq!(registry.contracts.len(), 0);
    assert_eq!(registry.accounts.len(), 0);
    assert_eq!(totals.amount, 0);
}

#[test]
fn message_out_adds_its_amount_and_registers_sender_then_recipient() {
    let receipt = Receipt::MessageOut { sender: [8u8; 32], recipient: [9u8; 32], amount: 75 };
    let (res, registry, totals) = classify(receipt);
    assert_eq!(res, Ok(None));
    assert_eq!(registry.contracts.len(), 0);
    assert_eq!(registry.accounts.len(), 2);
    assert_eq!(registry.accounts.get(0), [8u8; 32]);
    assert_eq!(registry.accounts.get(1), [9u8; 32]);
    assert_eq!(totals.amount, 75);
}

#[test]
fn an_unrecognized_receipt_changes_nothing() {
    let (res, registry, totals) = classify(Receipt::Unrecognized);
    assert_eq!(res, Ok(None));
    assert_eq!(registry.contracts.len(), 0);
    assert_eq!(registry.accounts.len(), 0);
    assert_eq!(totals.amount, 0);
    assert!(totals.tokens.is_empty());
}

#[test]
fn an_amount_past_64_bits_is_refused_and_nothing_changes() {
    let mut registry = Registry::new();
    let mut totals = Totals::new();
    totals.amount = u64::MAX - 10;
    let fits = Receipt::MessageOut { sender: [8u8; 32], recipient: [9u8; 32], amount: 10 };
    assert_eq!(classify_receipt(&fits, &mut registry, &mut totals), Ok(None));
    assert_eq!(totals.amount, u64::MAX);
    let too_much =
        Receipt::TransferOut { id: CONTRACT, to: RECIPIENT, asset_id: ASSET, amount: 1 };
    assert_eq!(classify_receipt(&too_much, &mut registry, &mut totals), Err(Stage::Classify));
    assert_eq!(totals.amount, u64::MAX);
    assert_eq!(registry.contracts.len(), 0);
    assert_eq!(registry.accounts.len(), 2);
    let message = Receipt::MessageOut { sender: [6u8; 32], recipient: [7u8; 32], amount: 1 };
    assert_eq!(classify_receipt(&message, &mut registry, &mut totals), Err(Stage::Classify));
    assert_eq!(registry.accounts.len(), 2);
}

#[test]
fn receipts_with_the_same_defining_fields_get_the_same_key() {
    let small = Receipt::Transfer { id: CONTRACT, to: RECIPIENT, asset_id: ASSET, amount: 1 };
    let large = Receipt::Transfer { id: CONTRACT, to: RECIPIENT, asset_id: ASSET, amount: 999 };
    let key = |receipt: Receipt| match classify(receipt).0 {
        Ok(Some(Entity::Transfer(t))) => t.id,
        other => panic!("no transfer: {:?}", other),
    };
    assert_eq!(key(small), key(large));
    let elsewhere =
        Receipt::Transfer { id: CONTRACT, to: [4u8; 32], asset_id: ASSET, amount: 1 };
    assert_ne!(key(small), key(elsewhere));
}

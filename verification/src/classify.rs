//! Receipt classification: what one receipt adds to the records, to the
//! transaction's running totals and to the block's address sets.

use vstd::prelude::*;
use crate::dedup::{lemma_register_one, lemma_register_two, register_all, AddressSet};
use crate::entity::{Entity, EntityView, Log, ScriptResult, Transfer, TransferOut};
use crate::failure::Stage;
use crate::ident::{be_bytes, derive_key, derived_key, le_bytes, u64_be_bytes, u64_le_bytes};
use crate::model::{Bytes32, Receipt, ScriptExecutionResult};
use crate::text::{asset_text, hex_text};

verus! {

/// The small integer that stands for the way a script ended.
pub open spec fn result_code(result: ScriptExecutionResult) -> u64 {
    match result {
        ScriptExecutionResult::Success => 1,
        ScriptExecutionResult::Revert => 2,
        ScriptExecutionResult::Panic => 3,
        ScriptExecutionResult::GenericFailure(_) => 4,
    }
}

/// Thirty-two zero bytes: the seed of keys that belong to no contract.
pub open spec fn zero_seed() -> Seq<u8> {
    Seq::new(32, |i: int| 0u8)
}

/// The bytes that define a transfer: contract, recipient, asset.
pub open spec fn transfer_preimage(contract: Bytes32, to: Bytes32, asset: Bytes32) -> Seq<u8> {
    contract@ + to@ + asset@
}

/// The key of a transfer record, seeded with its contract.
pub open spec fn transfer_key(contract: Bytes32, to: Bytes32, asset: Bytes32) -> u64 {
    derived_key(contract@, transfer_preimage(contract, to, asset))
}

/// The key of a log record, seeded with its contract.
pub open spec fn log_key(contract: Bytes32, rb: u64) -> u64 {
    derived_key(contract@, le_bytes(rb))
}

/// The key of a script result record.
pub open spec fn script_result_key(code: u64) -> u64 {
    derived_key(zero_seed(), be_bytes(code))
}

/// The record that a receipt yields by itself, if any.
pub open spec fn receipt_entity(receipt: Receipt) -> Option<EntityView> {
    match receipt {
        Receipt::Transfer { id, to, asset_id, amount } => Some(
            EntityView::Transfer(
                Transfer {
                    id: transfer_key(id, to, asset_id),
                    contract_id: id,
                    receiver: to,
                    amount,
                    asset_id,
                },
            ),
        ),
        Receipt::TransferOut { id, to, asset_id, amount } => Some(
            EntityView::TransferOut(
                TransferOut {
                    id: transfer_key(id, to, asset_id),
                    contract_id: id,
                    receiver: to,
                    amount,
                    asset_id,
                },
            ),
        ),
        Receipt::Log { id, rb } => Some(
            EntityView::Log(Log { id: log_key(id, rb), contract_id: id, rb }),
        ),
        Receipt::ScriptResult { result, gas_used } => Some(
            EntityView::ScriptResult(
                ScriptResult {
                    id: script_result_key(result_code(result)),
                    result: result_code(result),
                    gas_used,
                },
            ),
        ),
        _ => None,
    }
}

/// The contracts that a receipt refers to.
pub open spec fn receipt_contracts(receipt: Receipt) -> Seq<Bytes32> {
    match receipt {
        Receipt::Call { id } => seq![id],
        Receipt::ReturnData { id } => seq![id],
        Receipt::Transfer { id, .. } => seq![id],
        Receipt::TransferOut { id, .. } => seq![id],
        Receipt::Log { id, .. } => seq![id],
        Receipt::LogData { id } => seq![id],
        _ => Seq::empty(),
    }
}

/// The accounts that a receipt refers to, in the order in which it registers
/// them.
pub open spec fn receipt_accounts(receipt: Receipt) -> Seq<Bytes32> {
    match receipt {
        Receipt::TransferOut { to, .. } => seq![to],
        Receipt::MessageOut { sender, recipient, .. } => seq![sender, recipient],
        _ => Seq::empty(),
    }
}

/// What a receipt adds to the value that its transaction moved out.
pub open spec fn receipt_amount(receipt: Receipt) -> nat {
    match receipt {
        Receipt::TransferOut { amount, .. } => amount as nat,
        Receipt::MessageOut { amount, .. } => amount as nat,
        _ => 0,
    }
}

/// What a receipt adds to its transaction's list of transferred tokens.
pub open spec fn receipt_tokens(receipt: Receipt) -> Seq<Seq<char>> {
    match receipt {
        Receipt::Transfer { asset_id, .. } => seq![hex_text(asset_id@)],
        _ => Seq::empty(),
    }
}

/// The addresses seen so far in a block: the deduplication collector.
pub struct Registry {
    pub contracts: AddressSet,
    pub accounts: AddressSet,
}

impl Registry {
    /// A registry that has seen nothing.
    pub fn new() -> (registry: Self)
        ensures
            registry.contracts@ == Seq::<Bytes32>::empty(),
            registry.accounts@ == Seq::<Bytes32>::empty(),
    {
        Registry { contracts: AddressSet::new(), accounts: AddressSet::new() }
    }
}

/// The running totals of one transaction.
pub struct Totals {
    /// The amount moved out so far.
    pub amount: u64,
    /// The assets transferred so far, as text, in receipt order.
    pub tokens: Vec<String>,
}

impl Totals {
    /// Totals of a transaction none of whose receipts has been seen.
    pub fn new() -> (totals: Self)
        ensures
            totals.amount == 0,
            totals.tokens.deep_view() == Seq::<Seq<char>>::empty(),
    {
        let totals = Totals { amount: 0, tokens: Vec::new() };
        assert(totals.tokens.deep_view() =~= Seq::<Seq<char>>::empty());
        totals
    }
}

/// The small integer that stands for the way a script ended.
pub fn code_of(result: &ScriptExecutionResult) -> (code: u64)
    ensures
        code == result_code(*result),
{
    match result {
        ScriptExecutionResult::Success => 1,
        ScriptExecutionResult::Revert => 2,
        ScriptExecutionResult::Panic => 3,
        ScriptExecutionResult::GenericFailure(_) => 4,
    }
}

/// Appends the 32 bytes of `part` to `bytes`.
fn append_bytes32(bytes: &mut Vec<u8>, part: &Bytes32)
    ensures
        final(bytes)@ == old(bytes)@ + part@,
{
    let mut i: usize = 0;
    while i < 32
        invariant
            i <= 32,
            bytes@ == old(bytes)@ + part@.take(i as int),
        decreases 32 - i,
    {
        bytes.push(part[i]);
        assert(part@.take(i + 1) =~= part@.take(i as int).push(part@[i as int]));
        i += 1;
    }
    assert(part@.take(32) =~= part@);
}

/// Derives the key of a transfer from its contract, recipient and asset.
pub fn derive_transfer_key(contract: &Bytes32, to: &Bytes32, asset: &Bytes32) -> (id: u64)
    ensures
        id == transfer_key(*contract, *to, *asset),
{
    let mut preimage: Vec<u8> = Vec::with_capacity(96);
    append_bytes32(&mut preimage, contract);
    append_bytes32(&mut preimage, to);
    append_bytes32(&mut preimage, asset);
    derive_key(contract, &preimage)
}

/// Derives the key of a log record from its contract and the register value.
pub fn derive_log_key(contract: &Bytes32, rb: u64) -> (id: u64)
    ensures
        id == log_key(*contract, rb),
{
    let extra = u64_le_bytes(rb);
    derive_key(contract, &extra)
}

/// Derives the key of a script result from its code.
pub fn derive_script_result_key(code: u64) -> (id: u64)
    ensures
        id == script_result_key(code),
{
    let seed: Bytes32 = [0u8; 32];
    let extra = u64_be_bytes(code);
    assert(seed@ =~= zero_seed());
    derive_key(&seed, &extra)
}

/// The view of what a receipt yielded.
pub open spec fn emitted_view(emitted: Option<Entity>) -> Option<EntityView> {
    match emitted {
        Some(entity) => Some(entity@),
        None => None,
    }
}

/// Appends `token` to the list of transferred tokens.
fn push_token(tokens: &mut Vec<String>, token: String)
    ensures
        final(tokens).deep_view() == old(tokens).deep_view() + seq![token@],
{
    tokens.push(token);
    assert(tokens.deep_view() =~= old(tokens).deep_view() + seq![token@]);
}

/// Classifies one receipt: registers the addresses it refers to, adds to the
/// transaction's totals, and hands back the record it yields, if any. A
/// receipt without a rule changes nothing. Where the amount moved out would
/// pass 64 bits, nothing is changed and the receipt is refused.
pub fn classify_receipt(receipt: &Receipt, registry: &mut Registry, totals: &mut Totals) -> (res:
    Result<Option<Entity>, Stage>)
    ensures
        res is Ok <==> old(totals).amount + receipt_amount(*receipt) <= u64::MAX,
        res matches Ok(emitted) ==> emitted_view(emitted) == receipt_entity(*receipt),
        res is Ok ==> final(totals).amount == old(totals).amount + receipt_amount(*receipt),
        res is Ok ==> final(totals).tokens.deep_view() == old(totals).tokens.deep_view()
            + receipt_tokens(*receipt),
        res is Ok ==> final(registry).contracts@ == register_all(
            old(registry).contracts@,
            receipt_contracts(*receipt),
        ),
        res is Ok ==> final(registry).accounts@ == register_all(
            old(registry).accounts@,
            receipt_accounts(*receipt),
        ),
        res matches Err(stage) ==> stage == Stage::Classify,
        res is Err ==> *final(totals) == *old(totals) && *final(registry) == *old(registry),
{
    proof {
        assert(old(totals).tokens.deep_view() + Seq::<Seq<char>>::empty() =~= old(
            totals,
        ).tokens.deep_view());
    }
    match receipt {
        Receipt::Call { id } => {
            proof {
                lemma_register_one(registry.contracts@, *id);
            }
            registry.contracts.insert(*id);
            Ok(None)
        },
        Receipt::ReturnData { id } => {
            proof {
                lemma_register_one(registry.contracts@, *id);
            }
            registry.contracts.insert(*id);
            Ok(None)
        },
        Receipt::Transfer { id, to, asset_id, amount } => {
            proof {
                lemma_register_one(registry.contracts@, *id);
            }
            registry.contracts.insert(*id);
            let transfer = Transfer {
                id: derive_transfer_key(id, to, asset_id),
                contract_id: *id,
                receiver: *to,
                amount: *amount,
                asset_id: *asset_id,
            };
            push_token(&mut totals.tokens, asset_text(asset_id));
            Ok(Some(Entity::Transfer(transfer)))
        },
        Receipt::TransferOut { id, to, asset_id, amount } => {
            match totals.amount.checked_add(*amount) {
                None => Err(Stage::Classify),
                Some(sum) => {
                    proof {
                        lemma_register_one(registry.contracts@, *id);
                        lemma_register_one(registry.accounts@, *to);
                    }
                    registry.contracts.insert(*id);
                    registry.accounts.insert(*to);
                    totals.amount = sum;
                    let transfer_out = TransferOut {
                        id: derive_transfer_key(id, to, asset_id),
                        contract_id: *id,
                        receiver: *to,
                        amount: *amount,
                        asset_id: *asset_id,
                    };
                    Ok(Some(Entity::TransferOut(transfer_out)))
                },
            }
        },
        Receipt::Log { id, rb } => {
            proof {
                lemma_register_one(registry.contracts@, *id);
            }
            registry.contracts.insert(*id);
            let log = Log { id: derive_log_key(id, *rb), contract_id: *id, rb: *rb };
            Ok(Some(Entity::Log(log)))
        },
        Receipt::LogData { id } => {
            proof {
                lemma_register_one(registry.contracts@, *id);
            }
            registry.contracts.insert(*id);
            Ok(None)
        },
        Receipt::ScriptResult { result, gas_used } => {
            let code = code_of(result);
            let script_result = ScriptResult {
                id: derive_script_result_key(code),
                result: code,
                gas_used: *gas_used,
            };
            Ok(Some(Entity::ScriptResult(script_result)))
        },
        Receipt::MessageOut { sender, recipient, amount } => {
            match totals.amount.checked_add(*amount) {
                None => Err(Stage::Classify),
                Some(sum) => {
                    proof {
                        lemma_register_two(registry.accounts@, *sender, *recipient);
                    }
                    totals.amount = sum;
                    registry.accounts.insert(*sender);
                    registry.accounts.insert(*recipient);
                    Ok(None)
                },
            }
        },
        Receipt::Unrecognized => Ok(None),
    }
}

} // verus!

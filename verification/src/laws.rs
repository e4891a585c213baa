//! What holds of every block: the laws that the contracts of this library add
//! up to.

use vstd::prelude::*;
use crate::assemble::{
    account_records, block_accounts, block_contracts, block_record, contract_records, emission,
    outcome, outcome_view, transactions_accounts, transactions_contracts, transactions_emission,
    transactions_failure,
};
use crate::classify::{receipt_entity, result_code, transfer_preimage, zero_seed};
use crate::dedup::register_all;
use crate::entity::{Account, Contract, Entity, EntityView};
use crate::failure::BlockFailure;
use crate::ident::{be_bytes, byte_at, derived_key, le_bytes, leading_u64};
use crate::model::{BlockData, Bytes32, Receipt, TransactionData};
use crate::walk::{
    receipts_entities, receipts_value, transaction_emission, transaction_record,
};

verus! {

/// Processing a block twice gives the same outcome both times: the same
/// records in the same order, or the same failure.
pub proof fn lemma_processing_repeats(
    block: BlockData,
    first: Result<Vec<Entity>, BlockFailure>,
    second: Result<Vec<Entity>, BlockFailure>,
)
    requires
        outcome_view(first) == outcome(block),
        outcome_view(second) == outcome(block),
    ensures
        outcome_view(first) == outcome_view(second),
{
}

/// A narrowed key depends on the first eight bytes of the hash and on nothing
/// else.
pub proof fn lemma_leading_u64_reads_eight_bytes(first: Seq<u8>, second: Seq<u8>)
    requires
        first.len() >= 8,
        second.len() >= 8,
        first.take(8) == second.take(8),
    ensures
        leading_u64(first) == leading_u64(second),
{
    assert forall|i: int| 0 <= i < 8 implies first[i] == second[i] by {
        assert(first[i] == first.take(8)[i]);
        assert(second[i] == second.take(8)[i]);
    }
}

/// Narrowing reads back what the least-significant-first bytes of a number
/// spell.
pub proof fn lemma_leading_u64_of_le_bytes(value: u64, tail: Seq<u8>)
    ensures
        leading_u64(le_bytes(value) + tail) == value,
{
    let bytes = le_bytes(value) + tail;
    assert forall|i: int| 0 <= i < 8 implies bytes[i] == byte_at(value, i) by {
        assert(bytes[i] == le_bytes(value)[i]);
    }
    assert(value == (value % 0x100) + (value / 0x100 % 0x100) * 0x100 + (value / 0x1_0000
        % 0x100) * 0x1_0000 + (value / 0x100_0000 % 0x100) * 0x100_0000 + (value / 0x1_0000_0000
        % 0x100) * 0x1_0000_0000 + (value / 0x100_0000_0000 % 0x100) * 0x100_0000_0000 + (value
        / 0x1_0000_0000_0000 % 0x100) * 0x1_0000_0000_0000 + (value / 0x100_0000_0000_0000
        % 0x100) * 0x100_0000_0000_0000) by (bit_vector);
}

/// Distinct numbers have distinct bytes.
pub proof fn lemma_le_bytes_differ(first: u64, second: u64)
    requires
        first != second,
    ensures
        le_bytes(first) != le_bytes(second),
{
    if le_bytes(first) == le_bytes(second) {
        lemma_leading_u64_of_le_bytes(first, Seq::empty());
        lemma_leading_u64_of_le_bytes(second, Seq::empty());
    }
}

/// Distinct numbers have distinct most-significant-first bytes too.
pub proof fn lemma_be_bytes_differ(first: u64, second: u64)
    requires
        first != second,
    ensures
        be_bytes(first) != be_bytes(second),
{
    if be_bytes(first) == be_bytes(second) {
        assert forall|i: int| 0 <= i < 8 implies le_bytes(first)[i] == le_bytes(second)[i] by {
            assert(le_bytes(first)[i] == be_bytes(first)[7 - i]);
            assert(le_bytes(second)[i] == be_bytes(second)[7 - i]);
        }
        assert(le_bytes(first) =~= le_bytes(second));
        lemma_le_bytes_differ(first, second);
    }
}

/// Whether two receipts yield records of the same kind and agree in the
/// fields that define such a record: contract, recipient and asset of a
/// transfer; contract and register value of a log; the code of a script
/// result.
pub open spec fn same_defining_fields(first: Receipt, second: Receipt) -> bool {
    match (first, second) {
        (
            Receipt::Transfer { id, to, asset_id, .. },
            Receipt::Transfer { id: id2, to: to2, asset_id: asset_id2, .. },
        ) => id == id2 && to == to2 && asset_id == asset_id2,
        (
            Receipt::TransferOut { id, to, asset_id, .. },
            Receipt::TransferOut { id: id2, to: to2, asset_id: asset_id2, .. },
        ) => id == id2 && to == to2 && asset_id == asset_id2,
        (Receipt::Log { id, rb }, Receipt::Log { id: id2, rb: rb2 }) => id == id2 && rb == rb2,
        (
            Receipt::ScriptResult { result, .. },
            Receipt::ScriptResult { result: result2, .. },
        ) => result_code(result) == result_code(result2),
        _ => false,
    }
}

/// Whether two receipts yield records of the same kind.
pub open spec fn same_kind_of_record(first: Receipt, second: Receipt) -> bool {
    ||| first is Transfer && second is Transfer
    ||| first is TransferOut && second is TransferOut
    ||| first is Log && second is Log
    ||| first is ScriptResult && second is ScriptResult
}

/// The seed and the bytes that stand for a receipt when its record's key is
/// derived; `None` for a receipt that yields no record.
pub open spec fn key_material(receipt: Receipt) -> Option<(Seq<u8>, Seq<u8>)> {
    match receipt {
        Receipt::Transfer { id, to, asset_id, .. } => Some(
            (id@, transfer_preimage(id, to, asset_id)),
        ),
        Receipt::TransferOut { id, to, asset_id, .. } => Some(
            (id@, transfer_preimage(id, to, asset_id)),
        ),
        Receipt::Log { id, rb } => Some((id@, le_bytes(rb))),
        Receipt::ScriptResult { result, .. } => Some((zero_seed(), be_bytes(result_code(result)))),
        _ => None,
    }
}

/// The key of the record that a receipt yields; `None` where it yields none.
pub open spec fn receipt_key(receipt: Receipt) -> Option<u64> {
    match receipt_entity(receipt) {
        Some(EntityView::Transfer(transfer)) => Some(transfer.id),
        Some(EntityView::TransferOut(transfer_out)) => Some(transfer_out.id),
        Some(EntityView::Log(log)) => Some(log.id),
        Some(EntityView::ScriptResult(script_result)) => Some(script_result.id),
        _ => None,
    }
}

/// The key of a receipt's record is derived from the receipt's key material
/// and from nothing else.
pub proof fn lemma_key_is_derived_from_material(receipt: Receipt)
    ensures
        (match key_material(receipt) {
            Some((seed, extra)) => receipt_key(receipt) == Some(derived_key(seed, extra)),
            None => receipt_key(receipt) is None,
        }),
{
}

/// Receipts that agree in their defining fields yield records with the same
/// key, whatever else they carry.
pub proof fn lemma_same_fields_same_key(first: Receipt, second: Receipt)
    requires
        same_defining_fields(first, second),
    ensures
        receipt_key(first) is Some,
        receipt_key(first) == receipt_key(second),
{
}

/// Receipts of one kind that differ in a defining field have different key
/// material: their keys are narrowed digests of different bytes.
pub proof fn lemma_different_fields_different_material(first: Receipt, second: Receipt)
    requires
        same_kind_of_record(first, second),
        !same_defining_fields(first, second),
    ensures
        key_material(first) is Some,
        key_material(second) is Some,
        key_material(first) != key_material(second),
{
    match (first, second) {
        (
            Receipt::Transfer { id, to, asset_id, .. },
            Receipt::Transfer { id: id2, to: to2, asset_id: asset_id2, .. },
        ) => {
            lemma_transfer_preimages_differ(id, to, asset_id, id2, to2, asset_id2);
        },
        (
            Receipt::TransferOut { id, to, asset_id, .. },
            Receipt::TransferOut { id: id2, to: to2, asset_id: asset_id2, .. },
        ) => {
            lemma_transfer_preimages_differ(id, to, asset_id, id2, to2, asset_id2);
        },
        (Receipt::Log { id, rb }, Receipt::Log { id: id2, rb: rb2 }) => {
            if id == id2 {
                lemma_le_bytes_differ(rb, rb2);
            } else {
                lemma_views_differ(id, id2);
            }
        },
        (
            Receipt::ScriptResult { result, .. },
            Receipt::ScriptResult { result: result2, .. },
        ) => {
            lemma_be_bytes_differ(result_code(result), result_code(result2));
        },
        _ => {},
    }
}

/// Different 32-byte values have different bytes.
proof fn lemma_views_differ(first: Bytes32, second: Bytes32)
    requires
        first != second,
    ensures
        first@ != second@,
{
    if first@ == second@ {
        assert(first =~= second);
    }
}

/// Transfers that differ in contract, recipient or asset have different
/// defining bytes.
proof fn lemma_transfer_preimages_differ(
    contract: Bytes32,
    to: Bytes32,
    asset: Bytes32,
    contract2: Bytes32,
    to2: Bytes32,
    asset2: Bytes32,
)
    requires
        contract != contract2 || to != to2 || asset != asset2,
    ensures
        transfer_preimage(contract, to, asset) != transfer_preimage(contract2, to2, asset2),
{
    let first = transfer_preimage(contract, to, asset);
    let second = transfer_preimage(contract2, to2, asset2);
    if first == second {
        assert(first.subrange(0, 32) =~= contract@);
        assert(second.subrange(0, 32) =~= contract2@);
        assert(first.subrange(32, 64) =~= to@);
        assert(second.subrange(32, 64) =~= to2@);
        assert(first.subrange(64, 96) =~= asset@);
        assert(second.subrange(64, 96) =~= asset2@);
        if contract != contract2 {
            lemma_views_differ(contract, contract2);
        } else if to != to2 {
            lemma_views_differ(to, to2);
        } else {
            lemma_views_differ(asset, asset2);
        }
    }
}

/// The amounts of the `TransferOut` receipts, added up.
pub open spec fn transfer_out_total(receipts: Seq<Receipt>) -> nat
    decreases receipts.len(),
{
    if receipts.len() == 0 {
        0
    } else {
        transfer_out_total(receipts.drop_last()) + match receipts.last() {
            Receipt::TransferOut { amount, .. } => amount as nat,
            _ => 0,
        }
    }
}

/// The amounts of the `MessageOut` receipts, added up.
pub open spec fn message_out_total(receipts: Seq<Receipt>) -> nat
    decreases receipts.len(),
{
    if receipts.len() == 0 {
        0
    } else {
        message_out_total(receipts.drop_last()) + match receipts.last() {
            Receipt::MessageOut { amount, .. } => amount as nat,
            _ => 0,
        }
    }
}

/// The value that a transaction moved out is what its `TransferOut` receipts
/// moved plus what its `MessageOut` receipts moved; no other receipt counts.
pub proof fn lemma_value_is_transfers_out_plus_messages_out(receipts: Seq<Receipt>)
    ensures
        receipts_value(receipts) == transfer_out_total(receipts) + message_out_total(receipts),
    decreases receipts.len(),
{
    if receipts.len() > 0 {
        lemma_value_is_transfers_out_plus_messages_out(receipts.drop_last());
    }
}

/// In a block that is processed, every transaction has its record among what
/// is handed to storage, and the record's value is what the transaction's
/// `TransferOut` and `MessageOut` receipts moved.
pub proof fn lemma_transaction_record_is_emitted(block: BlockData, i: int)
    requires
        0 <= i < block.transactions@.len(),
        transactions_failure(block.transactions@) is None,
    ensures
        emission(block).contains(
            EntityView::Tx(
                transaction_record(leading_u64(block.id@), block.time, block.transactions@[i]),
            ),
        ),
        transaction_record(leading_u64(block.id@), block.time, block.transactions@[i]).value
            == transfer_out_total(block.transactions@[i].receipts@) + message_out_total(
            block.transactions@[i].receipts@,
        ),
{
    let txs = block.transactions@;
    let key = leading_u64(block.id@);
    let record = EntityView::Tx(transaction_record(key, block.time, txs[i]));
    lemma_walked_holds_record(key, block.time, txs, i);
    let walked = transactions_emission(key, block.time, txs);
    let k = choose|k: int| 0 <= k < walked.len() && walked[k] == record;
    assert(emission(block)[k + 1] == record);
    lemma_no_failure_in_prefix(txs, i + 1);
    assert(txs.take(i + 1).last() == txs[i]);
    lemma_value_is_transfers_out_plus_messages_out(txs[i].receipts@);
}

/// A block without a failure has none among its first transactions either.
pub proof fn lemma_no_failure_in_prefix(txs: Seq<TransactionData>, n: int)
    requires
        0 <= n <= txs.len(),
        transactions_failure(txs) is None,
    ensures
        transactions_failure(txs.take(n)) is None,
    decreases txs.len(),
{
    if n < txs.len() {
        assert(txs.drop_last().take(n) =~= txs.take(n));
        lemma_no_failure_in_prefix(txs.drop_last(), n);
    } else {
        assert(txs.take(n) =~= txs);
    }
}

/// What the transactions hand to storage holds the record of each of them.
proof fn lemma_walked_holds_record(
    block_key: u64,
    timestamp: i64,
    txs: Seq<TransactionData>,
    i: int,
)
    requires
        0 <= i < txs.len(),
    ensures
        transactions_emission(block_key, timestamp, txs).contains(
            EntityView::Tx(transaction_record(block_key, timestamp, txs[i])),
        ),
    decreases txs.len(),
{
    let record = EntityView::Tx(transaction_record(block_key, timestamp, txs[i]));
    let before = transactions_emission(block_key, timestamp, txs.drop_last());
    let last = transaction_emission(block_key, timestamp, txs.last());
    if i == txs.len() - 1 {
        assert((before + last)[before.len() + last.len() - 1] == record);
    } else {
        lemma_walked_holds_record(block_key, timestamp, txs.drop_last(), i);
        let k = choose|k: int| 0 <= k < before.len() && before[k] == record;
        assert((before + last)[k] == record);
    }
}

/// How often `record` stands in `records`.
pub open spec fn occurrences(records: Seq<EntityView>, record: EntityView) -> nat
    decreases records.len(),
{
    if records.len() == 0 {
        0
    } else {
        occurrences(records.drop_last(), record) + if records.last() == record {
            1nat
        } else {
            0nat
        }
    }
}

/// The record of the contract at `address`.
pub open spec fn contract_record(address: Bytes32) -> EntityView {
    EntityView::Contract(Contract { id: address, last_seen: 0 })
}

/// The record of the account at `address`.
pub open spec fn account_record(address: Bytes32) -> EntityView {
    EntityView::Account(Account { id: address, last_seen: 0 })
}

/// Registering keeps a list free of repeats, holds exactly what was there or
/// was registered, and leaves what was there where it was.
pub proof fn lemma_register_all_is_a_set(seen: Seq<Bytes32>, refs: Seq<Bytes32>)
    requires
        seen.no_duplicates(),
    ensures
        register_all(seen, refs).no_duplicates(),
        forall|address: Bytes32|
            register_all(seen, refs).contains(address) <==> seen.contains(address)
                || refs.contains(address),
        seen.is_prefix_of(register_all(seen, refs)),
    decreases refs.len(),
{
    if refs.len() > 0 {
        let before = register_all(seen, refs.drop_last());
        let after = register_all(seen, refs);
        lemma_register_all_is_a_set(seen, refs.drop_last());
        assert forall|address: Bytes32|
            after.contains(address) <==> seen.contains(address) || refs.contains(
                address,
            ) by {
            if refs.contains(address) {
                let k = choose|k: int| 0 <= k < refs.len() && refs[k] == address;
                if k < refs.len() - 1 {
                    assert(refs.drop_last()[k] == address);
                }
            }
            if refs.drop_last().contains(address) {
                let k = choose|k: int|
                    0 <= k < refs.drop_last().len() && refs.drop_last()[k] == address;
                assert(refs[k] == address);
            }
            if before.contains(address) {
                let k = choose|k: int| 0 <= k < before.len() && before[k] == address;
                assert(after[k] == address);
            }
            if !before.contains(refs.last()) {
                assert(after[after.len() - 1] == refs.last());
            }
            assert(refs[refs.len() - 1] == refs.last());
        }
    }
}

/// Joining two lists adds up how often a record stands in them.
pub proof fn lemma_occurrences_add_up(
    first: Seq<EntityView>,
    second: Seq<EntityView>,
    record: EntityView,
)
    ensures
        occurrences(first + second, record) == occurrences(first, record) + occurrences(
            second,
            record,
        ),
    decreases second.len(),
{
    if second.len() == 0 {
        assert(first + second =~= first);
    } else {
        lemma_occurrences_add_up(first, second.drop_last(), record);
        assert((first + second).drop_last() =~= first + second.drop_last());
    }
}

/// A record that equals none of a list's records stands in it zero times.
proof fn lemma_absent_record(records: Seq<EntityView>, record: EntityView)
    requires
        forall|k: int| 0 <= k < records.len() ==> records[k] != record,
    ensures
        occurrences(records, record) == 0,
    decreases records.len(),
{
    if records.len() > 0 {
        lemma_absent_record(records.drop_last(), record);
    }
}

/// Receipts yield neither account records nor contract records.
proof fn lemma_receipts_yield_no_address_records(receipts: Seq<Receipt>)
    ensures
        forall|k: int|
            0 <= k < receipts_entities(receipts).len() ==> !(#[trigger] receipts_entities(
                receipts,
            )[k] is Account) && !(receipts_entities(receipts)[k] is Contract),
    decreases receipts.len(),
{
    if receipts.len() > 0 {
        lemma_receipts_yield_no_address_records(receipts.drop_last());
    }
}

/// Transactions hand neither account records nor contract records to storage.
proof fn lemma_transactions_yield_no_address_records(
    block_key: u64,
    timestamp: i64,
    txs: Seq<TransactionData>,
)
    ensures
        forall|k: int|
            0 <= k < transactions_emission(block_key, timestamp, txs).len()
                ==> !(#[trigger] transactions_emission(block_key, timestamp, txs)[k] is Account)
                && !(transactions_emission(block_key, timestamp, txs)[k] is Contract),
    decreases txs.len(),
{
    if txs.len() > 0 {
        lemma_transactions_yield_no_address_records(block_key, timestamp, txs.drop_last());
        lemma_receipts_yield_no_address_records(txs.last().receipts@);
    }
}

/// Among the contract records of a list without repeats, the record of an
/// address stands once if the list holds the address, and not at all if not.
proof fn lemma_contract_records_count(addresses: Seq<Bytes32>, address: Bytes32)
    requires
        addresses.no_duplicates(),
    ensures
        occurrences(contract_records(addresses), contract_record(address)) == (if addresses.contains(
            address,
        ) {
            1nat
        } else {
            0nat
        }),
    decreases addresses.len(),
{
    if addresses.len() > 0 {
        let rest = addresses.drop_last();
        lemma_contract_records_count(rest, address);
        assert(contract_records(addresses).drop_last() =~= contract_records(rest));
        assert(contract_records(addresses).last() == contract_record(addresses.last()));
        if addresses.last() == address {
            if rest.contains(address) {
                let k = choose|k: int| 0 <= k < rest.len() && rest[k] == address;
                assert(addresses[k] == addresses[addresses.len() - 1]);
            }
            assert(addresses[addresses.len() - 1] == address);
        } else {
            if rest.contains(address) {
                let k = choose|k: int| 0 <= k < rest.len() && rest[k] == address;
                assert(addresses[k] == address);
            }
            if addresses.contains(address) {
                let k = choose|k: int| 0 <= k < addresses.len() && addresses[k] == address;
                assert(rest[k] == address);
            }
        }
    }
}

/// Among the account records of a list without repeats, the record of an
/// address stands once if the list holds the address, and not at all if not.
proof fn lemma_account_records_count(addresses: Seq<Bytes32>, address: Bytes32)
    requires
        addresses.no_duplicates(),
    ensures
        occurrences(account_records(addresses), account_record(address)) == (if addresses.contains(
            address,
        ) {
            1nat
        } else {
            0nat
        }),
    decreases addresses.len(),
{
    if addresses.len() > 0 {
        let rest = addresses.drop_last();
        lemma_account_records_count(rest, address);
        assert(account_records(addresses).drop_last() =~= account_records(rest));
        assert(account_records(addresses).last() == account_record(addresses.last()));
        if addresses.last() == address {
            if rest.contains(address) {
                let k = choose|k: int| 0 <= k < rest.len() && rest[k] == address;
                assert(addresses[k] == addresses[addresses.len() - 1]);
            }
            assert(addresses[addresses.len() - 1] == address);
        } else {
            if rest.contains(address) {
                let k = choose|k: int| 0 <= k < rest.len() && rest[k] == address;
                assert(addresses[k] == address);
            }
            if addresses.contains(address) {
                let k = choose|k: int| 0 <= k < addresses.len() && addresses[k] == address;
                assert(rest[k] == address);
            }
        }
    }
}

/// A contract that receipts of a block refer to, however often, has exactly
/// one record among what the block hands to storage; a contract that none
/// refers to has none.
pub proof fn lemma_one_record_per_contract(block: BlockData, contract: Bytes32)
    ensures
        occurrences(emission(block), contract_record(contract)) == (if transactions_contracts(
            block.transactions@,
        ).contains(contract) {
            1nat
        } else {
            0nat
        }),
{
    let record = contract_record(contract);
    let key = leading_u64(block.id@);
    let head = seq![EntityView::Block(block_record(block))];
    let walked = transactions_emission(key, block.time, block.transactions@);
    let accounts = account_records(block_accounts(block));
    let contracts = contract_records(block_contracts(block));
    lemma_transactions_yield_no_address_records(key, block.time, block.transactions@);
    lemma_absent_record(head, record);
    lemma_absent_record(walked, record);
    lemma_absent_record(accounts, record);
    lemma_register_all_is_a_set(Seq::empty(), transactions_contracts(block.transactions@));
    lemma_contract_records_count(block_contracts(block), contract);
    lemma_occurrences_add_up(head, walked, record);
    lemma_occurrences_add_up(head + walked, accounts, record);
    lemma_occurrences_add_up(head + walked + accounts, contracts, record);
}

/// An address that receipts of a block register as an account, however
/// often, has exactly one account record among what the block hands to
/// storage; an address that none registers has none.
pub proof fn lemma_one_record_per_account(block: BlockData, account: Bytes32)
    ensures
        occurrences(emission(block), account_record(account)) == (if transactions_accounts(
            block.transactions@,
        ).contains(account) {
            1nat
        } else {
            0nat
        }),
{
    let record = account_record(account);
    let key = leading_u64(block.id@);
    let head = seq![EntityView::Block(block_record(block))];
    let walked = transactions_emission(key, block.time, block.transactions@);
    let accounts = account_records(block_accounts(block));
    let contracts = contract_records(block_contracts(block));
    lemma_transactions_yield_no_address_records(key, block.time, block.transactions@);
    lemma_absent_record(head, record);
    lemma_absent_record(walked, record);
    lemma_absent_record(contracts, record);
    lemma_register_all_is_a_set(Seq::empty(), transactions_accounts(block.transactions@));
    lemma_account_records_count(block_accounts(block), account);
    lemma_occurrences_add_up(head, walked, record);
    lemma_occurrences_add_up(head + walked, accounts, record);
    lemma_occurrences_add_up(head + walked + accounts, contracts, record);
}

} // verus!

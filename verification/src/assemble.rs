//! The block assembler: drives the walk over a block's transactions, adds up
//! the block's gas, and lays out everything the block hands to storage.

use vstd::prelude::*;
use crate::classify::Registry;
use crate::dedup::{lemma_register_concat, register_all, AddressSet};
use crate::entity::{entity_views, Account, Block, Contract, Entity, EntityView};
use crate::failure::{failure_of, BlockFailure, Stage};
use crate::ident::{leading_u64, truncate_to_u64};
use crate::model::{BlockData, Bytes32, TransactionData, TransactionKind};
use crate::walk::{
    receipts_accounts, receipts_contracts, transaction_emission, transaction_failure,
    walk_transaction,
};

verus! {

/// What a transaction adds to its block's gas limit: its own limit if it is a
/// script or a create, nothing if it is a mint.
pub open spec fn transaction_gas(kind: TransactionKind) -> nat {
    match kind {
        TransactionKind::Script { gas_limit } => gas_limit as nat,
        TransactionKind::Create { gas_limit } => gas_limit as nat,
        TransactionKind::Mint => 0,
    }
}

/// The gas limits of the transactions, added up.
pub open spec fn transactions_gas(txs: Seq<TransactionData>) -> nat
    decreases txs.len(),
{
    if txs.len() == 0 {
        0
    } else {
        transactions_gas(txs.drop_last()) + transaction_gas(txs.last().kind)
    }
}

/// What the transactions hand to storage, transaction after transaction.
pub open spec fn transactions_emission(
    block_key: u64,
    timestamp: i64,
    txs: Seq<TransactionData>,
) -> Seq<EntityView>
    decreases txs.len(),
{
    if txs.len() == 0 {
        Seq::empty()
    } else {
        transactions_emission(block_key, timestamp, txs.drop_last()) + transaction_emission(
            block_key,
            timestamp,
            txs.last(),
        )
    }
}

/// Every mention of a contract in the transactions, in order, repeats
/// included.
pub open spec fn transactions_contracts(txs: Seq<TransactionData>) -> Seq<Bytes32>
    decreases txs.len(),
{
    if txs.len() == 0 {
        Seq::empty()
    } else {
        transactions_contracts(txs.drop_last()) + receipts_contracts(txs.last().receipts@)
    }
}

/// Every mention of an account in the transactions, in order, repeats
/// included.
pub open spec fn transactions_accounts(txs: Seq<TransactionData>) -> Seq<Bytes32>
    decreases txs.len(),
{
    if txs.len() == 0 {
        Seq::empty()
    } else {
        transactions_accounts(txs.drop_last()) + receipts_accounts(txs.last().receipts@)
    }
}

/// The stage at which the first failing transaction fails, if one does. A
/// transaction fails where the gas limits up to and including its own pass 64
/// bits, or else where it cannot be walked.
pub open spec fn transactions_failure(txs: Seq<TransactionData>) -> Option<Stage>
    decreases txs.len(),
{
    if txs.len() == 0 {
        None
    } else if transactions_failure(txs.drop_last()) is Some {
        transactions_failure(txs.drop_last())
    } else if transactions_gas(txs) > u64::MAX {
        Some(Stage::Assemble)
    } else {
        transaction_failure(txs.last())
    }
}

/// The producer of a block; thirty-two zero bytes where the block names none.
pub open spec fn producer_of(block: BlockData) -> Bytes32 {
    match block.producer {
        Some(producer) => producer,
        None => vstd::array::spec_array_fill_for_copy_type::<u8, 32>(0u8),
    }
}

/// The record of a block.
pub open spec fn block_record(block: BlockData) -> Block {
    Block {
        id: leading_u64(block.id@),
        height: block.height,
        producer: producer_of(block),
        hash: block.id,
        hash4: block.id,
        timestamp: block.time,
        gas_limit: transactions_gas(block.transactions@) as u64,
    }
}

/// One account record for each address, in order.
pub open spec fn account_records(addresses: Seq<Bytes32>) -> Seq<EntityView> {
    addresses.map_values(|id: Bytes32| EntityView::Account(Account { id, last_seen: 0 }))
}

/// One contract record for each address, in order.
pub open spec fn contract_records(addresses: Seq<Bytes32>) -> Seq<EntityView> {
    addresses.map_values(|id: Bytes32| EntityView::Contract(Contract { id, last_seen: 0 }))
}

/// The accounts of a block: each address that a receipt registers as an
/// account, once, in the order of first mention.
pub open spec fn block_accounts(block: BlockData) -> Seq<Bytes32> {
    register_all(Seq::empty(), transactions_accounts(block.transactions@))
}

/// The contracts of a block: each contract that a receipt refers to, once, in
/// the order of first mention.
pub open spec fn block_contracts(block: BlockData) -> Seq<Bytes32> {
    register_all(Seq::empty(), transactions_contracts(block.transactions@))
}

/// Everything a block hands to storage, in the order of handing over: the
/// block's record; for each transaction the records of its receipts and then
/// its own; the accounts; the contracts.
pub open spec fn emission(block: BlockData) -> Seq<EntityView> {
    seq![EntityView::Block(block_record(block))] + transactions_emission(
        leading_u64(block.id@),
        block.time,
        block.transactions@,
    ) + account_records(block_accounts(block)) + contract_records(block_contracts(block))
}

/// How processing a block ends: with its emission, or with the failure of its
/// first failing transaction.
pub open spec fn outcome(block: BlockData) -> Result<Seq<EntityView>, BlockFailure> {
    match transactions_failure(block.transactions@) {
        Some(stage) => Err(failure_of(stage, block)),
        None => Ok(emission(block)),
    }
}

/// A result of processing, with the records by their views.
pub open spec fn outcome_view(res: Result<Vec<Entity>, BlockFailure>) -> Result<
    Seq<EntityView>,
    BlockFailure,
> {
    match res {
        Ok(entities) => Ok(entity_views(entities@)),
        Err(failure) => Err(failure),
    }
}

/// A failure among the first transactions is a failure of the block.
pub proof fn lemma_failure_of_prefix(txs: Seq<TransactionData>, n: int)
    requires
        0 <= n <= txs.len(),
        transactions_failure(txs.take(n)) is Some,
    ensures
        transactions_failure(txs) == transactions_failure(txs.take(n)),
    decreases txs.len(),
{
    if n < txs.len() {
        assert(txs.drop_last().take(n) =~= txs.take(n));
        lemma_failure_of_prefix(txs.drop_last(), n);
    } else {
        assert(txs.take(n) =~= txs);
    }
}

/// What a transaction adds to its block's gas limit.
pub fn gas_contribution(kind: &TransactionKind) -> (gas: u64)
    ensures
        gas == transaction_gas(*kind),
{
    match kind {
        TransactionKind::Script { gas_limit } => *gas_limit,
        TransactionKind::Create { gas_limit } => *gas_limit,
        TransactionKind::Mint => 0,
    }
}

/// Builds the record of a block whose transactions' gas limits add up to
/// `gas_limit`.
pub fn assemble_block(block: &BlockData, gas_limit: u64) -> (record: Block)
    ensures
        record == (Block {
            id: leading_u64(block.id@),
            height: block.height,
            producer: producer_of(*block),
            hash: block.id,
            hash4: block.id,
            timestamp: block.time,
            gas_limit,
        }),
{
    let producer: Bytes32 = match block.producer {
        Some(producer) => producer,
        None => [0u8; 32],
    };
    Block {
        id: truncate_to_u64(&block.id),
        height: block.height,
        producer,
        hash: block.id,
        hash4: block.id,
        timestamp: block.time,
        gas_limit,
    }
}

/// Appends one account record for each address of `set`, in order.
fn flush_accounts(set: &AddressSet, out: &mut Vec<Entity>)
    ensures
        entity_views(final(out)@) == entity_views(old(out)@) + account_records(set@),
{
    let n = set.len();
    let mut i: usize = 0;
    proof {
        assert(account_records(set@.take(0)) =~= Seq::<EntityView>::empty());
        assert(entity_views(out@) + Seq::<EntityView>::empty() =~= entity_views(out@));
    }
    while i < n
        invariant
            n == set@.len(),
            i <= n,
            entity_views(out@) == entity_views(old(out)@) + account_records(set@.take(i as int)),
        decreases n - i,
    {
        let ghost views_before = entity_views(out@);
        let account = Account { id: set.get(i), last_seen: 0 };
        out.push(Entity::Account(account));
        proof {
            assert(entity_views(out@) =~= views_before.push(EntityView::Account(account)));
            assert(account_records(set@.take(i + 1)) =~= account_records(
                set@.take(i as int),
            ).push(EntityView::Account(account)));
        }
        i += 1;
    }
    assert(set@.take(n as int) =~= set@);
}

/// Appends one contract record for each address of `set`, in order.
fn flush_contracts(set: &AddressSet, out: &mut Vec<Entity>)
    ensures
        entity_views(final(out)@) == entity_views(old(out)@) + contract_records(set@),
{
    let n = set.len();
    let mut i: usize = 0;
    proof {
        assert(contract_records(set@.take(0)) =~= Seq::<EntityView>::empty());
        assert(entity_views(out@) + Seq::<EntityView>::empty() =~= entity_views(out@));
    }
    while i < n
        invariant
            n == set@.len(),
            i <= n,
            entity_views(out@) == entity_views(old(out)@) + contract_records(
                set@.take(i as int),
            ),
        decreases n - i,
    {
        let ghost views_before = entity_views(out@);
        let contract = Contract { id: set.get(i), last_seen: 0 };
        out.push(Entity::Contract(contract));
        proof {
            assert(entity_views(out@) =~= views_before.push(EntityView::Contract(contract)));
            assert(contract_records(set@.take(i + 1)) =~= contract_records(
                set@.take(i as int),
            ).push(EntityView::Contract(contract)));
        }
        i += 1;
    }
    assert(set@.take(n as int) =~= set@);
}

/// Processes one block: derives every record that the block hands to storage,
/// in the order of handing over. Either all of them come back or, where a
/// transaction fails, none and the failure.
pub fn process_block(block: &BlockData) -> (res: Result<Vec<Entity>, BlockFailure>)
    ensures
        outcome_view(res) == outcome(*block),
{
    let ghost txs = block.transactions@;
    let block_key = truncate_to_u64(&block.id);
    let mut gas: u64 = 0;
    let mut registry = Registry::new();
    let mut walked: Vec<Entity> = Vec::new();
    let mut i: usize = 0;
    proof {
        assert(txs.take(0) =~= Seq::<TransactionData>::empty());
        assert(entity_views(walked@) =~= Seq::<EntityView>::empty());
    }
    while i < block.transactions.len()
        invariant
            txs == block.transactions@,
            block_key == leading_u64(block.id@),
            i <= txs.len(),
            transactions_failure(txs.take(i as int)) is None,
            gas == transactions_gas(txs.take(i as int)),
            entity_views(walked@) == transactions_emission(
                block_key,
                block.time,
                txs.take(i as int),
            ),
            registry.contracts@ == register_all(
                Seq::empty(),
                transactions_contracts(txs.take(i as int)),
            ),
            registry.accounts@ == register_all(
                Seq::empty(),
                transactions_accounts(txs.take(i as int)),
            ),
        decreases txs.len() - i,
    {
        let tx = &block.transactions[i];
        let ghost before = txs.take(i as int);
        let ghost after = txs.take(i + 1);
        proof {
            assert(after.drop_last() =~= before);
            assert(after.last() == txs[i as int]);
            lemma_register_concat(
                Seq::empty(),
                transactions_contracts(before),
                receipts_contracts(tx.receipts@),
            );
            lemma_register_concat(
                Seq::empty(),
                transactions_accounts(before),
                receipts_accounts(tx.receipts@),
            );
        }
        gas = match gas.checked_add(gas_contribution(&tx.kind)) {
            Some(sum) => sum,
            None => {
                proof {
                    lemma_failure_of_prefix(txs, i + 1);
                }
                return Err(BlockFailure::at(Stage::Assemble, block));
            },
        };
        let ghost views_before = entity_views(walked@);
        match walk_transaction(block_key, block.time, tx, registry) {
            Err(stage) => {
                proof {
                    lemma_failure_of_prefix(txs, i + 1);
                }
                return Err(BlockFailure::at(stage, block));
            },
            Ok((mut emitted, registry_after)) => {
                let ghost emitted_views = entity_views(emitted@);
                walked.append(&mut emitted);
                registry = registry_after;
                assert(entity_views(walked@) =~= views_before + emitted_views);
            },
        }
        i += 1;
    }
    proof {
        assert(txs.take(i as int) =~= txs);
    }
    let mut entities: Vec<Entity> = Vec::new();
    entities.push(Entity::Block(assemble_block(block, gas)));
    let ghost head = entity_views(entities@);
    let ghost walked_views = entity_views(walked@);
    entities.append(&mut walked);
    proof {
        assert(head =~= seq![EntityView::Block(block_record(*block))]);
        assert(entity_views(entities@) =~= head + walked_views);
    }
    flush_accounts(&registry.accounts, &mut entities);
    flush_contracts(&registry.contracts, &mut entities);
    Ok(entities)
}

} // verus!

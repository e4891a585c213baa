//! The transaction walker: classifies a transaction's receipts in order and
//! assembles the transaction's own record from what they add up to.

use vstd::prelude::*;
use crate::classify::{
    classify_receipt, receipt_accounts, receipt_amount, receipt_contracts, receipt_entity,
    receipt_tokens, Registry, Totals,
};
use crate::dedup::{lemma_register_concat, register_all};
use crate::entity::{entity_views, Entity, EntityView, Tx, TxView};
use crate::failure::Stage;
use crate::ident::{leading_u64, truncate_to_u64};
use crate::model::{Bytes32, Receipt, TransactionData};
use crate::text::{
    all_plain, is_plain, json_array_text, lemma_hex_text_is_plain, serialized, to_json_text,
};

verus! {

/// The value that a transaction moved out: the amounts of its `TransferOut`
/// and `MessageOut` receipts, added up.
pub open spec fn receipts_value(receipts: Seq<Receipt>) -> nat
    decreases receipts.len(),
{
    if receipts.len() == 0 {
        0
    } else {
        receipts_value(receipts.drop_last()) + receipt_amount(receipts.last())
    }
}

/// The assets that a transaction's transfers moved, as text, in receipt order.
pub open spec fn receipts_tokens(receipts: Seq<Receipt>) -> Seq<Seq<char>>
    decreases receipts.len(),
{
    if receipts.len() == 0 {
        Seq::empty()
    } else {
        receipts_tokens(receipts.drop_last()) + receipt_tokens(receipts.last())
    }
}

/// The records that a transaction's receipts yield, in receipt order.
pub open spec fn receipts_entities(receipts: Seq<Receipt>) -> Seq<EntityView>
    decreases receipts.len(),
{
    if receipts.len() == 0 {
        Seq::empty()
    } else {
        match receipt_entity(receipts.last()) {
            Some(entity) => receipts_entities(receipts.drop_last()).push(entity),
            None => receipts_entities(receipts.drop_last()),
        }
    }
}

/// Every mention of a contract that a transaction's receipts make, in
/// receipt order, repeats included.
pub open spec fn receipts_contracts(receipts: Seq<Receipt>) -> Seq<Bytes32>
    decreases receipts.len(),
{
    if receipts.len() == 0 {
        Seq::empty()
    } else {
        receipts_contracts(receipts.drop_last()) + receipt_contracts(receipts.last())
    }
}

/// Every mention of an account that a transaction's receipts make, in
/// receipt order, repeats included.
pub open spec fn receipts_accounts(receipts: Seq<Receipt>) -> Seq<Bytes32>
    decreases receipts.len(),
{
    if receipts.len() == 0 {
        Seq::empty()
    } else {
        receipts_accounts(receipts.drop_last()) + receipt_accounts(receipts.last())
    }
}

/// The record of a transaction: keyed by its narrowed hash, stamped with the
/// block's time, with the value its receipts moved out and the tokens they
/// transferred.
pub open spec fn transaction_record(block_key: u64, timestamp: i64, tx: TransactionData) -> TxView {
    TxView {
        id: leading_u64(tx.id@),
        block: block_key,
        hash: tx.id,
        timestamp,
        value: receipts_value(tx.receipts@) as u64,
        status: tx.status,
        tokens_transferred: json_array_text(receipts_tokens(tx.receipts@)),
    }
}

/// What a transaction hands to storage: the records of its receipts, then its
/// own record.
pub open spec fn transaction_emission(
    block_key: u64,
    timestamp: i64,
    tx: TransactionData,
) -> Seq<EntityView> {
    receipts_entities(tx.receipts@).push(
        EntityView::Tx(transaction_record(block_key, timestamp, tx)),
    )
}

/// Why a transaction cannot be walked, if it cannot: the value it moved out
/// passes 64 bits, or else its token list has no text.
pub open spec fn transaction_failure(tx: TransactionData) -> Option<Stage> {
    if receipts_value(tx.receipts@) > u64::MAX {
        Some(Stage::Classify)
    } else if serialized(receipts_tokens(tx.receipts@)) is None {
        Some(Stage::Walk)
    } else {
        None
    }
}

/// The value moved out never shrinks as receipts are added.
pub proof fn lemma_value_of_prefix(receipts: Seq<Receipt>, n: int)
    requires
        0 <= n <= receipts.len(),
    ensures
        receipts_value(receipts.take(n)) <= receipts_value(receipts),
    decreases receipts.len(),
{
    if n < receipts.len() {
        lemma_value_of_prefix(receipts.drop_last(), n);
        assert(receipts.drop_last().take(n) =~= receipts.take(n));
    } else {
        assert(receipts.take(n) =~= receipts);
    }
}

/// The tokens of a transaction need no escaping.
pub proof fn lemma_tokens_are_plain(receipts: Seq<Receipt>)
    ensures
        all_plain(receipts_tokens(receipts)),
    decreases receipts.len(),
{
    if receipts.len() > 0 {
        lemma_tokens_are_plain(receipts.drop_last());
        let tokens = receipts_tokens(receipts);
        let before = receipts_tokens(receipts.drop_last());
        assert forall|i: int, j: int|
            0 <= i < tokens.len() && 0 <= j < tokens[i].len() implies is_plain(
            #[trigger] tokens[i][j],
        ) by {
            if i < before.len() {
                assert(tokens[i] == before[i]);
                assert(is_plain(before[i][j]));
            } else {
                match receipts.last() {
                    Receipt::Transfer { asset_id, .. } => {
                        lemma_hex_text_is_plain(asset_id@);
                    },
                    _ => {},
                }
            }
        }
    }
}

/// Builds the record of a transaction from what its receipts added up to.
pub fn assemble_transaction(
    block_key: u64,
    timestamp: i64,
    tx: &TransactionData,
    value: u64,
    tokens_json: String,
) -> (record: Tx)
    ensures
        record@ == (TxView {
            id: leading_u64(tx.id@),
            block: block_key,
            hash: tx.id,
            timestamp,
            value,
            status: tx.status,
            tokens_transferred: tokens_json@,
        }),
{
    Tx {
        id: truncate_to_u64(&tx.id),
        block: block_key,
        hash: tx.id,
        timestamp,
        value,
        status: tx.status.clone(),
        tokens_transferred: tokens_json,
    }
}

/// Walks one transaction: classifies its receipts in order, then assembles its
/// record. Hands back what the transaction gives to storage, in order, and the
/// registry with the transaction's addresses added.
pub fn walk_transaction(
    block_key: u64,
    timestamp: i64,
    tx: &TransactionData,
    registry: Registry,
) -> (res: Result<(Vec<Entity>, Registry), Stage>)
    ensures
        res is Ok <==> transaction_failure(*tx) is None,
        res matches Err(stage) ==> transaction_failure(*tx) == Some(stage),
        res matches Ok(walked) ==> entity_views(walked.0@) == transaction_emission(
            block_key,
            timestamp,
            *tx,
        ),
        res matches Ok(walked) ==> walked.1.contracts@ == register_all(
            registry.contracts@,
            receipts_contracts(tx.receipts@),
        ),
        res matches Ok(walked) ==> walked.1.accounts@ == register_all(
            registry.accounts@,
            receipts_accounts(tx.receipts@),
        ),
{
    let ghost receipts = tx.receipts@;
    let ghost seen_contracts = registry.contracts@;
    let ghost seen_accounts = registry.accounts@;
    let mut registry = registry;
    let mut totals = Totals::new();
    let mut emitted: Vec<Entity> = Vec::new();
    let mut i: usize = 0;
    proof {
        assert(receipts.take(0) =~= Seq::<Receipt>::empty());
        assert(entity_views(emitted@) =~= Seq::<EntityView>::empty());
    }
    while i < tx.receipts.len()
        invariant
            receipts == tx.receipts@,
            i <= receipts.len(),
            totals.amount == receipts_value(receipts.take(i as int)),
            totals.tokens.deep_view() == receipts_tokens(receipts.take(i as int)),
            entity_views(emitted@) == receipts_entities(receipts.take(i as int)),
            registry.contracts@ == register_all(
                seen_contracts,
                receipts_contracts(receipts.take(i as int)),
            ),
            registry.accounts@ == register_all(
                seen_accounts,
                receipts_accounts(receipts.take(i as int)),
            ),
        decreases receipts.len() - i,
    {
        let ghost before = receipts.take(i as int);
        let ghost after = receipts.take(i + 1);
        proof {
            assert(after.drop_last() =~= before);
            assert(after.last() == receipts[i as int]);
            lemma_register_concat(
                seen_contracts,
                receipts_contracts(before),
                receipt_contracts(receipts[i as int]),
            );
            lemma_register_concat(
                seen_accounts,
                receipts_accounts(before),
                receipt_accounts(receipts[i as int]),
            );
        }
        let ghost views_before = entity_views(emitted@);
        match classify_receipt(&tx.receipts[i], &mut registry, &mut totals) {
            Err(stage) => {
                proof {
                    lemma_value_of_prefix(receipts, i + 1);
                }
                return Err(stage);
            },
            Ok(Some(entity)) => {
                emitted.push(entity);
                assert(entity_views(emitted@) =~= views_before.push(entity@));
            },
            Ok(None) => {},
        }
        i += 1;
    }
    proof {
        assert(receipts.take(i as int) =~= receipts);
        lemma_tokens_are_plain(receipts);
    }
    match to_json_text(&totals.tokens) {
        Err(_) => Err(Stage::Walk),
        Ok(tokens_json) => {
            let record = assemble_transaction(block_key, timestamp, tx, totals.amount, tokens_json);
            let ghost views_before = entity_views(emitted@);
            emitted.push(Entity::Tx(record));
            assert(entity_views(emitted@) =~= views_before.push(EntityView::Tx(record@)));
            Ok((emitted, registry))
        },
    }
}

} // verus!

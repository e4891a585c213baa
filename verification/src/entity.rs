//! The normalized records that a block yields, each with a stable key.

use vstd::prelude::*;
use crate::model::{Bytes32, TransactionStatus};

verus! {

/// One per processed block.
#[derive(Clone, Copy, Debug, PartialEq, Eq)]
pub struct Block {
    pub id: u64,
    pub height: u64,
    pub producer: Bytes32,
    /// The block hash, kept for lookups by the full hash.
    pub hash: Bytes32,
    /// The block hash once more, kept for lookups by a part of it.
    pub hash4: Bytes32,
    pub timestamp: i64,
    pub gas_limit: u64,
}

/// One per transaction of the block.
#[derive(Clone, Debug, PartialEq, Eq)]
pub struct Tx {
    pub id: u64,
    /// Key of the block that holds the transaction.
    pub block: u64,
    pub hash: Bytes32,
    pub timestamp: i64,
    /// Total amount that the transaction moved out.
    pub value: u64,
    pub status: TransactionStatus,
    /// The assets that the transaction's transfers moved, in receipt order, as
    /// the text of a JSON array.
    pub tokens_transferred: String,
}

/// An address that took part in a block.
#[derive(Clone, Copy, Debug, PartialEq, Eq)]
pub struct Account {
    pub id: Bytes32,
    pub last_seen: u64,
}

/// A contract that a receipt of a block refers to.
#[derive(Clone, Copy, Debug, PartialEq, Eq)]
pub struct Contract {
    pub id: Bytes32,
    pub last_seen: u64,
}

/// A transfer between contracts.
#[derive(Clone, Copy, Debug, PartialEq, Eq)]
pub struct Transfer {
    pub id: u64,
    pub contract_id: Bytes32,
    pub receiver: Bytes32,
    pub amount: u64,
    pub asset_id: Bytes32,
}

/// A transfer from a contract to an address.
#[derive(Clone, Copy, Debug, PartialEq, Eq)]
pub struct TransferOut {
    pub id: u64,
    pub contract_id: Bytes32,
    pub receiver: Bytes32,
    pub amount: u64,
    pub asset_id: Bytes32,
}

/// A register value that a contract logged.
#[derive(Clone, Copy, Debug, PartialEq, Eq)]
pub struct Log {
    pub id: u64,
    pub contract_id: Bytes32,
    pub rb: u64,
}

/// The outcome of a script, as a small code, and the gas it used.
#[derive(Clone, Copy, Debug, PartialEq, Eq)]
pub struct ScriptResult {
    pub id: u64,
    pub result: u64,
    pub gas_used: u64,
}

/// Any record that processing a block hands to storage.
#[derive(Clone, Debug, PartialEq, Eq)]
pub enum Entity {
    Block(Block),
    Tx(Tx),
    Account(Account),
    Contract(Contract),
    Transfer(Transfer),
    TransferOut(TransferOut),
    Log(Log),
    ScriptResult(ScriptResult),
}

/// A transaction record with its text as a sequence of characters.
pub struct TxView {
    pub id: u64,
    pub block: u64,
    pub hash: Bytes32,
    pub timestamp: i64,
    pub value: u64,
    pub status: TransactionStatus,
    pub tokens_transferred: Seq<char>,
}

impl View for Tx {
    type V = TxView;

    open spec fn view(&self) -> TxView {
        TxView {
            id: self.id,
            block: self.block,
            hash: self.hash,
            timestamp: self.timestamp,
            value: self.value,
            status: self.status,
            tokens_transferred: self.tokens_transferred@,
        }
    }
}

/// A record as contracts speak of it.
pub enum EntityView {
    Block(Block),
    Tx(TxView),
    Account(Account),
    Contract(Contract),
    Transfer(Transfer),
    TransferOut(TransferOut),
    Log(Log),
    ScriptResult(ScriptResult),
}

impl View for Entity {
    type V = EntityView;

    open spec fn view(&self) -> EntityView {
        match *self {
            Entity::Block(b) => EntityView::Block(b),
            Entity::Tx(t) => EntityView::Tx(t@),
            Entity::Account(a) => EntityView::Account(a),
            Entity::Contract(c) => EntityView::Contract(c),
            Entity::Transfer(t) => EntityView::Transfer(t),
            Entity::TransferOut(t) => EntityView::TransferOut(t),
            Entity::Log(l) => EntityView::Log(l),
            Entity::ScriptResult(r) => EntityView::ScriptResult(r),
        }
    }
}

/// The records of a list, each by its view.
pub open spec fn entity_views(entities: Seq<Entity>) -> Seq<EntityView> {
    entities.map_values(|e: Entity| e@)
}

} // verus!

//! What a block brings in: its header fields, its transactions and the
//! receipts that their execution left behind.

use vstd::prelude::*;

verus! {

/// A 32-byte value: a content hash, an address, a contract or asset identifier.
pub type Bytes32 = [u8; 32];

/// A point in time: seconds since the Unix epoch, and the nanoseconds within
/// that second.
#[derive(Clone, Copy, Debug, PartialEq, Eq)]
pub struct Moment {
    pub secs: i64,
    pub nanos: u32,
}

/// How the chain disposed of a transaction.
#[derive(Debug, PartialEq, Eq)]
pub enum TransactionStatus {
    Failure { block_id: String, time: Moment, reason: String },
    SqueezedOut { reason: String },
    Submitted { submitted_at: Moment },
    Success { block_id: String, time: Moment },
}

impl Clone for TransactionStatus {
    fn clone(&self) -> (copy: Self)
        ensures
            copy == *self,
    {
        match self {
            TransactionStatus::Failure { block_id, time, reason } => TransactionStatus::Failure {
                block_id: block_id.clone(),
                time: *time,
                reason: reason.clone(),
            },
            TransactionStatus::SqueezedOut { reason } => TransactionStatus::SqueezedOut {
                reason: reason.clone(),
            },
            TransactionStatus::Submitted { submitted_at } => TransactionStatus::Submitted {
                submitted_at: *submitted_at,
            },
            TransactionStatus::Success { block_id, time } => TransactionStatus::Success {
                block_id: block_id.clone(),
                time: *time,
            },
        }
    }
}

/// The kind of a transaction, with the one figure the block's aggregates need.
#[derive(Clone, Copy, Debug, PartialEq, Eq)]
pub enum TransactionKind {
    Script { gas_limit: u64 },
    Create { gas_limit: u64 },
    Mint,
}

/// How a script's execution ended.
#[derive(Clone, Copy, Debug, PartialEq, Eq)]
pub enum ScriptExecutionResult {
    Success,
    Revert,
    Panic,
    GenericFailure(u64),
}

/// One side effect of a transaction's execution. Each variant carries the
/// fields that entity derivation reads; `Unrecognized` stands for every kind
/// of receipt that has no rule of its own.
#[derive(Clone, Copy, Debug, PartialEq, Eq)]
pub enum Receipt {
    Call { id: Bytes32 },
    ReturnData { id: Bytes32 },
    Transfer { id: Bytes32, to: Bytes32, asset_id: Bytes32, amount: u64 },
    TransferOut { id: Bytes32, to: Bytes32, asset_id: Bytes32, amount: u64 },
    Log { id: Bytes32, rb: u64 },
    LogData { id: Bytes32 },
    ScriptResult { result: ScriptExecutionResult, gas_used: u64 },
    MessageOut { sender: Bytes32, recipient: Bytes32, amount: u64 },
    Unrecognized,
}

/// A transaction of a block, with its receipts in execution order.
#[derive(Clone, Debug, PartialEq, Eq)]
pub struct TransactionData {
    pub kind: TransactionKind,
    pub status: TransactionStatus,
    pub receipts: Vec<Receipt>,
    pub id: Bytes32,
}

/// A finalized block, with its transactions in block order.
#[derive(Clone, Debug, PartialEq, Eq)]
pub struct BlockData {
    pub height: u64,
    pub id: Bytes32,
    pub producer: Option<Bytes32>,
    pub time: i64,
    pub transactions: Vec<TransactionData>,
}

} // verus!

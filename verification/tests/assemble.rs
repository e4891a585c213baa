use block_indexer::assemble::{assemble_block, gas_contribution, process_block};
use block_indexer::entity::{Account, Block, Contract, Entity, Transfer, TransferOut, Tx};
use block_indexer::failure::{BlockFailure, Stage};
use block_indexer::model::{
    BlockData, Moment, Receipt, ScriptExecutionResult, TransactionData, TransactionKind,
    TransactionStatus,
};

const BLOCK_ID: [u8; 32] = [0x10u8; 32];
const BLOCK_KEY: u64 = 0x1010_1010_1010_1010;
const TIME: i64 = 1_700_000_000;

fn status() -> TransactionStatus {
    TransactionStatus::Success { block_id: "b1".to_string(), time: Moment { secs: TIME, nanos: 0 } }
}

fn transaction(kind: TransactionKind, id: u8, receipts: Vec<Receipt>) -> TransactionData {
    TransactionData { kind, status: status(), receipts, id: [id; 32] }
}

fn block(transactions: Vec<TransactionData>) -> BlockData {
    BlockData { height: 5, id: BLOCK_ID, producer: Some([0x77u8; 32]), time: TIME, transactions }
}

fn count(entities: &[Entity], pick: fn(&Entity) -> bool) -> usize {
    entities.iter().filter(|e| pick(e)).count()
}

#[test]
fn gas_contribution_counts_scripts_and_creates_only() {
    assert_eq!(gas_contribution(&TransactionKind::Script { gas_limit: 1000 }), 1000);
    assert_eq!(gas_contribution(&TransactionKind::Create { gas_limit: 7 }), 7);
    assert_eq!(gas_contribution(&TransactionKind::Mint), 0);
}

#[test]
fn assemble_block_defaults_the_producer_to_zero_bytes() {
    let mut data = block(Vec::new());
    data.producer = None;
    assert_eq!(
        assemble_block(&data, 12),
        Block {
            id: BLOCK_KEY,
            height: 5,
            producer: [0u8; 32],
            hash: BLOCK_ID,
            hash4: BLOCK_ID,
            timestamp: TIME,
            gas_limit: 12,
        }
    );
    data.producer = Some([0x77u8; 32]);
    assert_eq!(assemble_block(&data, 12).producer, [0x77u8; 32]);
}

#[test]
fn an_empty_block_yields_its_record_alone() {
    let entities = process_block(&block(Vec::new())).unwrap();
    assert_eq!(
        entities,
        vec![Entity::Block(Block {
            id: BLOCK_KEY,
            height: 5,
            producer: [0x77u8; 32],
            hash: BLOCK_ID,
            hash4: BLOCK_ID,
            timestamp: TIME,
            gas_limit: 0,
        })]
    );
}

#[test]
fn script_with_transfer_and_transfer_out() {
    let data = block(vec![transaction(
        TransactionKind::Script { gas_limit: 1000 },
        0x20,
        vec![
            Receipt::Transfer { id: [1u8; 32], to: [2u8; 32], asset_id: [3u8; 32], amount: 500 },
            Receipt::TransferOut {
                id: [1u8; 32],
                to: [4u8; 32],
                asset_id: [3u8; 32],
                amount: 200,
            },
        ],
    )]);
    let entities = process_block(&data).unwrap();
    let expected = vec![
        Entity::Block(Block {
            id: BLOCK_KEY,
            height: 5,
            producer: [0x77u8; 32],
            hash: BLOCK_ID,
            hash4: BLOCK_ID,
            timestamp: TIME,
            gas_limit: 1000,
        }),
        Entity::Transfer(Transfer {
            id: 7018351376520656738,
            contract_id: [1u8; 32],
            receiver: [2u8; 32],
            amount: 500,
            asset_id: [3u8; 32],
        }),
        Entity::TransferOut(TransferOut {
            id: 4063712737172468322,
            contract_id: [1u8; 32],
            receiver: [4u8; 32],
            amount: 200,
            asset_id: [3u8; 32],
        }),
        Entity::Tx(Tx {
            id: 0x2020_2020_2020_2020,
            block: BLOCK_KEY,
            hash: [0x20u8; 32],
            timestamp: TIME,
            value: 200,
            status: status(),
            tokens_transferred: format!("[\"{}\"]", "03".repeat(32)),
        }),
        Entity::Account(Account { id: [4u8; 32], last_seen: 0 }),
        Entity::Contract(Contract { id: [1u8; 32], last_seen: 0 }),
    ];
    assert_eq!(entities, expected);
    assert_eq!(count(&entities, |e| matches!(e, Entity::Tx(_))), 1);
    assert_eq!(count(&entities, |e| matches!(e, Entity::Transfer(_))), 1);
    assert_eq!(count(&entities, |e| matches!(e, Entity::TransferOut(_))), 1);
    assert_eq!(count(&entities, |e| matches!(e, Entity::Contract(_))), 1);
    assert_eq!(count(&entities, |e| matches!(e, Entity::Account(_))), 1);
}

#[test]
fn a_mint_alone_adds_no_gas_and_moves_nothing() {
    let data = block(vec![transaction(TransactionKind::Mint, 0x21, Vec::new())]);
    let entities = process_block(&data).unwrap();
    assert_eq!(entities.len(), 2);
    match &entities[0] {
        Entity::Block(record) => assert_eq!(record.gas_limit, 0),
        other => panic!("the block's record comes first, not {:?}", other),
    }
    match &entities[1] {
        Entity::Tx(record) => {
            assert_eq!(record.value, 0);
            assert_eq!(record.tokens_transferred, "[]");
        },
        other => panic!("the transaction's record comes second, not {:?}", other),
    }
    assert_eq!(count(&entities, |e| matches!(e, Entity::Account(_))), 0);
    assert_eq!(count(&entities, |e| matches!(e, Entity::Contract(_))), 0);
}

#[test]
fn an_unrecognized_receipt_does_not_keep_the_block_from_storage() {
    let with = block(vec![transaction(
        TransactionKind::Script { gas_limit: 10 },
        0x22,
        vec![
            Receipt::Log { id: [1u8; 32], rb: 3 },
            Receipt::Unrecognized,
            Receipt::MessageOut { sender: [5u8; 32], recipient: [6u8; 32], amount: 9 },
        ],
    )]);
    let without = block(vec![transaction(
        TransactionKind::Script { gas_limit: 10 },
        0x22,
        vec![
            Receipt::Log { id: [1u8; 32], rb: 3 },
            Receipt::MessageOut { sender: [5u8; 32], recipient: [6u8; 32], amount: 9 },
        ],
    )]);
    let entities = process_block(&with).unwrap();
    assert_eq!(entities, process_block(&without).unwrap());
    assert_eq!(count(&entities, |e| matches!(e, Entity::Block(_))), 1);
    assert_eq!(count(&entities, |e| matches!(e, Entity::Tx(_))), 1);
}

#[test]
fn a_contract_in_three_receipts_has_one_record() {
    let contract = [0xc0u8; 32];
    let data = block(vec![
        transaction(
            TransactionKind::Script { gas_limit: 1 },
            0x23,
            vec![Receipt::Call { id: contract }, Receipt::Log { id: contract, rb: 1 }],
        ),
        transaction(
            TransactionKind::Create { gas_limit: 2 },
            0x24,
            vec![Receipt::ReturnData { id: [0xc1u8; 32] }, Receipt::LogData { id: contract }],
        ),
    ]);
    let entities = process_block(&data).unwrap();
    let records: Vec<&Entity> =
        entities.iter().filter(|e| matches!(e, Entity::Contract(c) if c.id == contract)).collect();
    assert_eq!(records, vec![&Entity::Contract(Contract { id: contract, last_seen: 0 })]);
    assert_eq!(count(&entities, |e| matches!(e, Entity::Contract(_))), 2);
}

#[test]
fn an_account_in_several_receipts_has_one_record() {
    let account = [0xa0u8; 32];
    let data = block(vec![
        transaction(
            TransactionKind::Script { gas_limit: 1 },
            0x25,
            vec![
                Receipt::MessageOut { sender: account, recipient: [0xa1u8; 32], amount: 1 },
                Receipt::MessageOut { sender: [0xa1u8; 32], recipient: account, amount: 1 },
            ],
        ),
        transaction(
            TransactionKind::Script { gas_limit: 1 },
            0x26,
            vec![Receipt::TransferOut {
                id: [1u8; 32],
                to: account,
                asset_id: [3u8; 32],
                amount: 1,
            }],
        ),
    ]);
    let entities = process_block(&data).unwrap();
    let accounts: Vec<&Entity> =
        entities.iter().filter(|e| matches!(e, Entity::Account(_))).collect();
    assert_eq!(
        accounts,
        vec![
            &Entity::Account(Account { id: account, last_seen: 0 }),
            &Entity::Account(Account { id: [0xa1u8; 32], last_seen: 0 }),
        ]
    );
}

#[test]
fn processing_the_same_block_twice_gives_the_same_records() {
    let data = block(vec![
        transaction(
            TransactionKind::Script { gas_limit: 1000 },
            0x27,
            vec![
                Receipt::Transfer {
                    id: [1u8; 32],
                    to: [2u8; 32],
                    asset_id: [3u8; 32],
                    amount: 500,
                },
                Receipt::ScriptResult { result: ScriptExecutionResult::Success, gas_used: 88 },
            ],
        ),
        transaction(TransactionKind::Mint, 0x28, vec![Receipt::Log { id: [9u8; 32], rb: 4 }]),
    ]);
    let first = process_block(&data).unwrap();
    let second = process_block(&data.clone()).unwrap();
    assert_eq!(first, second);
}

#[test]
fn gas_limits_add_up_over_scripts_and_creates() {
    let data = block(vec![
        transaction(TransactionKind::Script { gas_limit: 1000 }, 0x29, Vec::new()),
        transaction(TransactionKind::Mint, 0x2a, Vec::new()),
        transaction(TransactionKind::Create { gas_limit: 234 }, 0x2b, Vec::new()),
    ]);
    let entities = process_block(&data).unwrap();
    match &entities[0] {
        Entity::Block(record) => assert_eq!(record.gas_limit, 1234),
        other => panic!("the block's record comes first, not {:?}", other),
    }
    assert_eq!(entities.len(), 4);
}

#[test]
fn records_come_in_the_order_of_handing_over() {
    let data = block(vec![
        transaction(
            TransactionKind::Script { gas_limit: 1 },
            0x2c,
            vec![
                Receipt::TransferOut {
                    id: [1u8; 32],
                    to: [4u8; 32],
                    asset_id: [3u8; 32],
                    amount: 1,
                },
                Receipt::Log { id: [2u8; 32], rb: 1 },
            ],
        ),
        transaction(
            TransactionKind::Script { gas_limit: 1 },
            0x2d,
            vec![Receipt::ScriptResult { result: ScriptExecutionResult::Panic, gas_used: 1 }],
        ),
    ]);
    let entities = process_block(&data).unwrap();
    let kinds: Vec<&str> = entities
        .iter()
        .map(|e| match e {
            Entity::Block(_) => "block",
            Entity::Tx(_) => "tx",
            Entity::Account(_) => "account",
            Entity::Contract(_) => "contract",
            Entity::Transfer(_) => "transfer",
            Entity::TransferOut(_) => "transfer_out",
            Entity::Log(_) => "log",
            Entity::ScriptResult(_) => "script_result",
        })
        .collect();
    assert_eq!(
        kinds,
        vec![
            "block",
            "transfer_out",
            "log",
            "tx",
            "script_result",
            "tx",
            "account",
            "contract",
            "contract"
        ]
    );
}

#[test]
fn gas_past_64_bits_fails_at_assembly() {
    let data = block(vec![
        transaction(TransactionKind::Script { gas_limit: u64::MAX }, 0x2e, Vec::new()),
        transaction(TransactionKind::Create { gas_limit: 1 }, 0x2f, Vec::new()),
    ]);
    assert_eq!(
        process_block(&data),
        Err(BlockFailure { stage: Stage::Assemble, height: 5, hash: BLOCK_ID })
    );
}

#[test]
fn a_value_past_64_bits_fails_the_block_at_classification() {
    let data = block(vec![transaction(
        TransactionKind::Mint,
        0x30,
        vec![
            Receipt::MessageOut { sender: [5u8; 32], recipient: [6u8; 32], amount: u64::MAX },
            Receipt::MessageOut { sender: [5u8; 32], recipient: [6u8; 32], amount: 1 },
        ],
    )]);
    assert_eq!(
        process_block(&data),
        Err(BlockFailure { stage: Stage::Classify, height: 5, hash: BLOCK_ID })
    );
}

#[test]
fn the_first_failing_transaction_decides_the_stage() {
    let overflowing = vec![
        Receipt::MessageOut { sender: [5u8; 32], recipient: [6u8; 32], amount: u64::MAX },
        Receipt::MessageOut { sender: [5u8; 32], recipient: [6u8; 32], amount: 1 },
    ];
    let value_first = block(vec![
        transaction(TransactionKind::Script { gas_limit: u64::MAX }, 0x31, overflowing.clone()),
        transaction(TransactionKind::Script { gas_limit: 1 }, 0x32, Vec::new()),
    ]);
    assert_eq!(process_block(&value_first).unwrap_err().stage, Stage::Classify);
    let gas_first = block(vec![
        transaction(TransactionKind::Script { gas_limit: u64::MAX }, 0x31, Vec::new()),
        transaction(TransactionKind::Script { gas_limit: 1 }, 0x32, overflowing),
    ]);
    assert_eq!(process_block(&gas_first).unwrap_err().stage, Stage::Assemble);
}

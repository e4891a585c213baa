use block_indexer::failure::{BlockFailure, Stage};
use block_indexer::model::BlockData;

fn block() -> BlockData {
    BlockData {
        height: 42,
        id: [0x11u8; 32],
        producer: None,
        time: 1_700_000_000,
        transactions: Vec::new(),
    }
}

#[test]
fn a_failure_names_stage_height_and_hash() {
    let failure = BlockFailure::at(Stage::Persist, &block());
    assert_eq!(failure.stage, Stage::Persist);
    assert_eq!(failure.height, 42);
    assert_eq!(failure.hash, [0x11u8; 32]);
}

#[test]
fn every_stage_can_be_reported() {
    for stage in [Stage::Walk, Stage::Classify, Stage::Assemble, Stage::Persist] {
        let failure = BlockFailure::at(stage, &block());
        assert_eq!(failure, BlockFailure { stage, height: 42, hash: [0x11u8; 32] });
    }
}

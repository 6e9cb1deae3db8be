use block_metrics::chain::{BlockInfo, ChainState};
use block_metrics::command::{blocks_needed, call_command, call_command_at, Command, Report};
use block_metrics::error::MetricError;
use block_metrics::network::Network;

fn sample_chain() -> ChainState {
    let mut chain = ChainState::new(6_058);
    chain.record_block(6_048, BlockInfo { time: 10_000, tx_count: 3 }).unwrap();
    chain.record_block(6_057, BlockInfo { time: 15_339, tx_count: 4 }).unwrap();
    chain.record_block(6_058, BlockInfo { time: 16_005, tx_count: 237 }).unwrap();
    chain
}

#[test]
fn blocks_needed_for_each_command() {
    assert_eq!(blocks_needed(Command::Chain, Some(6_058)), Ok(vec![]));
    assert_eq!(blocks_needed(Command::Chain, None), Ok(vec![]));
    assert_eq!(blocks_needed(Command::TimeToMine { block_height: 24 }, None), Ok(vec![24, 23]));
    assert_eq!(
        blocks_needed(Command::TimeToMine { block_height: 24 }, Some(6_058)),
        Ok(vec![24, 23])
    );
    assert_eq!(
        blocks_needed(Command::TimeToMine { block_height: 0 }, None),
        Err(MetricError::NoPredecessor)
    );
    assert_eq!(
        blocks_needed(Command::NumberOfTransactions { block_height: 300_000 }, None),
        Ok(vec![300_000])
    );
    assert_eq!(
        blocks_needed(Command::NumberOfTransactions { block_height: 0 }, Some(0)),
        Ok(vec![0])
    );
    assert_eq!(blocks_needed(Command::NextBlock, Some(6_058)), Ok(vec![6_058, 6_048]));
    assert_eq!(blocks_needed(Command::NextBlock, Some(6_048)), Err(MetricError::EpochBoundary));
    assert_eq!(blocks_needed(Command::NextBlock, Some(0)), Err(MetricError::EpochBoundary));
    assert_eq!(blocks_needed(Command::NextBlock, None), Err(MetricError::TipUnknown));
}

#[test]
fn only_the_next_block_needs_the_tip() {
    assert!(Command::NextBlock.needs_tip());
    assert!(!Command::Chain.needs_tip());
    assert!(!Command::TimeToMine { block_height: 24 }.needs_tip());
    assert!(!Command::NumberOfTransactions { block_height: 24 }.needs_tip());
}

#[test]
fn call_command_answers_without_a_tip() {
    let mut chain = ChainState::without_tip();
    chain.record_block(23, BlockInfo { time: 1_000, tx_count: 1 }).unwrap();
    chain.record_block(24, BlockInfo { time: 1_666, tx_count: 237 }).unwrap();
    assert_eq!(
        call_command(&chain, "", Command::TimeToMine { block_height: 24 }),
        Ok(Report::TimeToMine { seconds: 666, minutes: 11 })
    );
    assert_eq!(
        call_command(&chain, "", Command::NumberOfTransactions { block_height: 24 }),
        Ok(Report::NumberOfTransactions { count: 237 })
    );
    assert_eq!(
        call_command(&chain, "regtest", Command::Chain),
        Ok(Report::Chain { network: Network::Regtest })
    );
    assert_eq!(call_command(&chain, "", Command::NextBlock), Err(MetricError::TipUnknown));
    assert_eq!(
        call_command_at(&chain, "", Command::NextBlock, 2_000),
        Err(MetricError::TipUnknown)
    );
}

#[test]
fn call_command_reports_the_network() {
    let chain = sample_chain();
    assert_eq!(
        call_command_at(&chain, "signet", Command::Chain, 0),
        Ok(Report::Chain { network: Network::Signet })
    );
    assert_eq!(
        call_command(&chain, "main", Command::Chain),
        Ok(Report::Chain { network: Network::Bitcoin })
    );
    assert_eq!(call_command(&chain, "nonet", Command::Chain), Err(MetricError::UnknownNetwork));
}

#[test]
fn call_command_reports_time_to_mine() {
    let chain = sample_chain();
    assert_eq!(
        call_command(&chain, "", Command::TimeToMine { block_height: 6_058 }),
        Ok(Report::TimeToMine { seconds: 666, minutes: 11 })
    );
    assert_eq!(
        call_command(&chain, "", Command::TimeToMine { block_height: 0 }),
        Err(MetricError::NoPredecessor)
    );
    assert_eq!(
        call_command(&chain, "", Command::TimeToMine { block_height: 6_057 }),
        Err(MetricError::BlockNotFound { height: 6_056 })
    );
}

#[test]
fn call_command_reports_number_of_transactions() {
    let chain = sample_chain();
    assert_eq!(
        call_command(&chain, "", Command::NumberOfTransactions { block_height: 6_058 }),
        Ok(Report::NumberOfTransactions { count: 237 })
    );
    assert_eq!(
        call_command(&chain, "", Command::NumberOfTransactions { block_height: 1 }),
        Err(MetricError::BlockNotFound { height: 1 })
    );
}

#[test]
fn call_command_reports_next_block() {
    let chain = sample_chain();
    assert_eq!(
        call_command_at(&chain, "", Command::NextBlock, 16_005),
        Ok(Report::NextBlock { seconds: 600, minutes: 10, days: 0 })
    );
    assert_eq!(
        call_command_at(&chain, "", Command::NextBlock, 16_005 + 600 + 200_000),
        Ok(Report::NextBlock { seconds: -200_000, minutes: -3_333, days: -2 })
    );
    let before = chrono::Utc::now().timestamp();
    let report = call_command(&chain, "", Command::NextBlock).unwrap();
    let after = chrono::Utc::now().timestamp();
    match report {
        Report::NextBlock { seconds, minutes, days } => {
            assert!(600 - (after - 16_005) <= seconds);
            assert!(seconds <= 600 - (before - 16_005));
            assert_eq!(minutes, seconds / 60);
            assert_eq!(days, seconds / 86_400);
        }
        other => panic!("not an estimate: {:?}", other),
    }
}

#[test]
fn call_command_fails_on_the_epoch_boundary() {
    let mut chain = ChainState::new(6_048);
    chain.record_block(6_048, BlockInfo { time: 10_000, tx_count: 3 }).unwrap();
    assert_eq!(call_command(&chain, "", Command::NextBlock), Err(MetricError::EpochBoundary));
    assert_eq!(
        call_command_at(&chain, "", Command::NextBlock, 10_000),
        Err(MetricError::EpochBoundary)
    );
}

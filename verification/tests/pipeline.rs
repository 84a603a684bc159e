use chain_ingest::chain::{RawInput, RawOutput, RawTransaction};
use chain_ingest::error::IngestError;
use chain_ingest::normalize::{NormalizationMode, TransactionRecord};
use chain_ingest::pipeline::{
    Pipeline, PipelineAction, PipelineConfig, PipelineEvent, PipelinePhase, RunOutcome,
};
use chain_ingest::unit::{TransactionUnit, UnitAction, UnitEvent};
use chain_ingest::wallet::{OwnerPlaceholder, WalletSnapshot};

/// A transaction from `from` to `to`, named `txid`.
fn transfer(txid: &str, from: &str, to: &str, value: u64) -> RawTransaction {
    RawTransaction {
        txid: txid.to_string(),
        inputs: vec![RawInput {
            previous_output: Some(RawOutput { address: Some(from.to_string()), value }),
        }],
        outputs: vec![RawOutput { address: Some(to.to_string()), value }],
    }
}

fn transfers(prefix: &str, count: usize) -> Vec<RawTransaction> {
    (0..count)
        .map(|i| {
            transfer(
                &format!("{}-{}", prefix, i),
                &format!("{}-from-{}", prefix, i),
                &format!("{}-to-{}", prefix, i),
                1_000 + i as u64,
            )
        })
        .collect()
}

fn config(start: u64, span: u64, quota: u64) -> PipelineConfig {
    PipelineConfig {
        start_height: start,
        span_length: span,
        max_transactions: quota,
        mode: NormalizationMode::AllAddresses,
    }
}

fn hash_of(height: u64) -> String {
    format!("{:064x}", height)
}

/// An upstream that serves blocks from a table and notes what it was asked.
struct MockUpstream {
    blocks: Vec<(u64, Result<Vec<RawTransaction>, IngestError>)>,
    heights_requested: Vec<u64>,
    hashes_requested: Vec<String>,
    addresses_requested: Vec<String>,
    failing_address: Option<String>,
}

impl MockUpstream {
    fn with_blocks(blocks: Vec<(u64, Result<Vec<RawTransaction>, IngestError>)>) -> MockUpstream {
        MockUpstream {
            blocks,
            heights_requested: Vec::new(),
            hashes_requested: Vec::new(),
            addresses_requested: Vec::new(),
            failing_address: None,
        }
    }

    fn block_hash(&mut self, height: u64) -> Result<String, IngestError> {
        self.heights_requested.push(height);
        if self.blocks.iter().any(|(h, _)| *h == height) {
            Ok(format!("{}\n", hash_of(height)))
        } else {
            Err(IngestError::UpstreamUnavailable)
        }
    }

    fn block_transactions(&mut self, hash: &str) -> Result<Vec<RawTransaction>, IngestError> {
        self.hashes_requested.push(hash.to_string());
        for (height, reply) in &self.blocks {
            if hash_of(*height) == hash {
                return reply.clone();
            }
        }
        Err(IngestError::UpstreamMalformed)
    }

    fn utxo_values(&mut self, address: &str) -> Result<Vec<u64>, IngestError> {
        self.addresses_requested.push(address.to_string());
        if self.failing_address.as_deref() == Some(address) {
            Err(IngestError::UpstreamUnavailable)
        } else {
            Ok(vec![address.len() as u64, 1])
        }
    }
}

/// A store that keeps what it is given.
struct MockStore {
    transactions: Vec<TransactionRecord>,
    wallets: Vec<WalletSnapshot>,
    owners: Vec<OwnerPlaceholder>,
    rejected_transaction: Option<String>,
}

impl MockStore {
    fn empty() -> MockStore {
        MockStore {
            transactions: Vec::new(),
            wallets: Vec::new(),
            owners: Vec::new(),
            rejected_transaction: None,
        }
    }

    fn transaction_ids(&self) -> Vec<String> {
        self.transactions
            .iter()
            .map(|record| match record {
                TransactionRecord::AllAddresses(row) => row.id.clone(),
                TransactionRecord::FirstAddress(row) => row.hash.clone(),
            })
            .collect()
    }
}

fn run_unit(
    tx: &RawTransaction,
    height: u64,
    mode: NormalizationMode,
    upstream: &mut MockUpstream,
    store: &mut MockStore,
) -> Result<(), IngestError> {
    let (mut unit, mut action) = TransactionUnit::begin(tx, height, mode);
    loop {
        let event = match action {
            UnitAction::InsertTransaction(record) => {
                let id = match &record {
                    TransactionRecord::AllAddresses(row) => row.id.clone(),
                    TransactionRecord::FirstAddress(row) => row.hash.clone(),
                };
                if store.rejected_transaction.as_deref() == Some(id.as_str()) {
                    UnitEvent::Stored(Err(IngestError::PersistenceFailure))
                } else {
                    store.transactions.push(record);
                    UnitEvent::Stored(Ok(()))
                }
            }
            UnitAction::FetchUtxos(address) => UnitEvent::Utxos(upstream.utxo_values(&address)),
            UnitAction::InsertWallet(wallet) => {
                store.wallets.push(wallet);
                UnitEvent::Stored(Ok(()))
            }
            UnitAction::InsertOwner(owner) => {
                store.owners.push(owner);
                UnitEvent::Stored(Ok(()))
            }
            UnitAction::Wait => panic!("a unit that is driven in turn never waits"),
            UnitAction::Finish(result) => return result,
        };
        let next = unit.advance(event);
        unit = next.0;
        action = next.1;
    }
}

/// What a driven run left behind.
struct RunReport {
    outcome: RunOutcome,
    dispatched: u64,
    dispatches: Vec<(u64, u64, Vec<String>)>,
}

/// Drives a pipeline to its end against the mocks; the units of a block
/// finish in reverse order of their dispatch.
fn run_pipeline(
    config: PipelineConfig,
    upstream: &mut MockUpstream,
    store: &mut MockStore,
) -> RunReport {
    assert!(config.is_valid());
    let (mut pipeline, mut action) = Pipeline::start(config);
    let mut dispatches = Vec::new();
    let mut results: Vec<Result<(), IngestError>> = Vec::new();
    loop {
        assert!(pipeline.dispatched() <= config.max_transactions);
        let event = match action {
            PipelineAction::ResolveHash { height } => {
                assert_eq!(pipeline.in_flight(), 0);
                PipelineEvent::HashReply(upstream.block_hash(height))
            }
            PipelineAction::ListTransactions { hash } => {
                assert_eq!(pipeline.in_flight(), 0);
                PipelineEvent::TransactionsReply(upstream.block_transactions(&hash))
            }
            PipelineAction::Dispatch { height, first_ordinal, transactions } => {
                assert!(results.is_empty());
                assert_eq!(pipeline.in_flight(), transactions.len() as u64);
                assert_eq!(height, pipeline.height());
                dispatches.push((
                    height,
                    first_ordinal,
                    transactions.iter().map(|tx| tx.txid.clone()).collect(),
                ));
                for tx in &transactions {
                    results.push(run_unit(tx, height, config.mode, upstream, store));
                }
                PipelineEvent::UnitFinished(results.pop().expect("a dispatch is never empty"))
            }
            PipelineAction::Wait => {
                PipelineEvent::UnitFinished(results.pop().expect("a unit is still in flight"))
            }
            PipelineAction::Finish(outcome) => {
                assert!(results.is_empty());
                assert_eq!(pipeline.outcome(), Some(outcome));
                return RunReport { outcome, dispatched: pipeline.dispatched(), dispatches };
            }
        };
        let next = pipeline.step(event);
        pipeline = next.0;
        action = next.1;
    }
}

#[test]
fn config_validity_is_about_the_last_height() {
    assert!(config(830_000, 10, 5).is_valid());
    assert!(config(u64::MAX, 0, 5).is_valid());
    assert!(config(u64::MAX, 1, 5).is_valid());
    assert!(!config(u64::MAX, 2, 5).is_valid());
    assert!(config(0, u64::MAX, 5).is_valid());
    assert!(config(1, u64::MAX, 5).is_valid());
    assert!(!config(2, u64::MAX, 5).is_valid());
}

#[test]
fn pipeline_starts_by_resolving_the_first_height() {
    let (pipeline, action) = Pipeline::start(config(830_000, 10, 5));
    assert_eq!(action, PipelineAction::ResolveHash { height: 830_000 });
    assert_eq!(pipeline.phase(), PipelinePhase::AwaitingHash);
    assert_eq!(pipeline.height(), 830_000);
    assert_eq!(pipeline.dispatched(), 0);
    assert_eq!(pipeline.in_flight(), 0);
    assert_eq!(pipeline.outcome(), None);
    assert_eq!(pipeline.config(), config(830_000, 10, 5));
}

#[test]
fn empty_range_completes_at_once() {
    let (pipeline, action) = Pipeline::start(config(830_000, 0, 5));
    assert_eq!(action, PipelineAction::Finish(RunOutcome::Completed(0)));
    assert_eq!(pipeline.phase(), PipelinePhase::Completed);
    assert_eq!(pipeline.outcome(), Some(RunOutcome::Completed(0)));
}

#[test]
fn zero_quota_completes_at_once() {
    let (pipeline, action) = Pipeline::start(config(830_000, 10, 0));
    assert_eq!(action, PipelineAction::Finish(RunOutcome::Completed(0)));
    assert_eq!(pipeline.outcome(), Some(RunOutcome::Completed(0)));
}

#[test]
fn hash_reply_leads_to_listing_the_block() {
    let (pipeline, _) = Pipeline::start(config(830_000, 10, 5));
    let (pipeline, action) = pipeline.step(PipelineEvent::HashReply(Ok(" 00ab12\n".to_string())));
    assert_eq!(action, PipelineAction::ListTransactions { hash: "00ab12".to_string() });
    assert_eq!(pipeline.phase(), PipelinePhase::AwaitingTransactions);
    assert_eq!(pipeline.height(), 830_000);
}

#[test]
fn malformed_hash_reply_aborts_the_run() {
    let (pipeline, _) = Pipeline::start(config(830_000, 10, 5));
    let (pipeline, action) =
        pipeline.step(PipelineEvent::HashReply(Ok("Block not found".to_string())));
    assert_eq!(action, PipelineAction::Finish(RunOutcome::Aborted(IngestError::UpstreamMalformed)));
    assert_eq!(pipeline.phase(), PipelinePhase::Aborted(IngestError::UpstreamMalformed));
    assert_eq!(pipeline.dispatched(), 0);
}

#[test]
fn failed_hash_request_aborts_the_run() {
    let (pipeline, _) = Pipeline::start(config(830_000, 10, 5));
    let (pipeline, action) =
        pipeline.step(PipelineEvent::HashReply(Err(IngestError::UpstreamUnavailable)));
    assert_eq!(
        action,
        PipelineAction::Finish(RunOutcome::Aborted(IngestError::UpstreamUnavailable))
    );
    assert_eq!(pipeline.outcome(), Some(RunOutcome::Aborted(IngestError::UpstreamUnavailable)));
}

#[test]
fn failed_listing_aborts_the_run() {
    let (pipeline, _) = Pipeline::start(config(830_000, 10, 5));
    let (pipeline, _) = pipeline.step(PipelineEvent::HashReply(Ok("00ab".to_string())));
    let (pipeline, action) =
        pipeline.step(PipelineEvent::TransactionsReply(Err(IngestError::UpstreamMalformed)));
    assert_eq!(action, PipelineAction::Finish(RunOutcome::Aborted(IngestError::UpstreamMalformed)));
    assert_eq!(pipeline.phase(), PipelinePhase::Aborted(IngestError::UpstreamMalformed));
}

#[test]
fn dispatch_hands_out_the_listed_transactions_in_order() {
    let (pipeline, _) = Pipeline::start(config(100, 10, 50));
    let (pipeline, _) = pipeline.step(PipelineEvent::HashReply(Ok("00ab".to_string())));
    let listed = transfers("a", 3);
    let (pipeline, action) = pipeline.step(PipelineEvent::TransactionsReply(Ok(listed.clone())));
    assert_eq!(
        action,
        PipelineAction::Dispatch { height: 100, first_ordinal: 1, transactions: listed }
    );
    assert_eq!(pipeline.phase(), PipelinePhase::Draining);
    assert_eq!(pipeline.dispatched(), 3);
    assert_eq!(pipeline.in_flight(), 3);
}

#[test]
fn dispatch_never_exceeds_the_quota() {
    let (pipeline, _) = Pipeline::start(config(100, 10, 4));
    let (pipeline, _) = pipeline.step(PipelineEvent::HashReply(Ok("00ab".to_string())));
    let listed = transfers("a", 9);
    let (pipeline, action) = pipeline.step(PipelineEvent::TransactionsReply(Ok(listed.clone())));
    assert_eq!(
        action,
        PipelineAction::Dispatch {
            height: 100,
            first_ordinal: 1,
            transactions: listed[..4].to_vec(),
        }
    );
    assert_eq!(pipeline.dispatched(), 4);
    assert_eq!(pipeline.in_flight(), 4);
}

#[test]
fn quota_carries_over_from_block_to_block() {
    let mut upstream = MockUpstream::with_blocks(vec![
        (10, Ok(transfers("a", 3))),
        (11, Ok(transfers("b", 3))),
        (12, Ok(transfers("c", 3))),
    ]);
    let mut store = MockStore::empty();
    let report = run_pipeline(config(10, 3, 5), &mut upstream, &mut store);
    assert_eq!(report.outcome, RunOutcome::Completed(5));
    assert_eq!(report.dispatched, 5);
    assert_eq!(
        report.dispatches,
        vec![
            (10, 1, vec!["a-0".to_string(), "a-1".to_string(), "a-2".to_string()]),
            (11, 4, vec!["b-0".to_string(), "b-1".to_string()]),
        ]
    );
    assert_eq!(upstream.heights_requested, vec![10, 11]);
}

#[test]
fn next_block_waits_for_every_unit_of_the_current_one() {
    let (pipeline, _) = Pipeline::start(config(100, 10, 50));
    let (pipeline, _) = pipeline.step(PipelineEvent::HashReply(Ok("00ab".to_string())));
    let (pipeline, _) = pipeline.step(PipelineEvent::TransactionsReply(Ok(transfers("a", 3))));

    let (pipeline, action) = pipeline.step(PipelineEvent::UnitFinished(Ok(())));
    assert_eq!(action, PipelineAction::Wait);
    assert_eq!((pipeline.height(), pipeline.in_flight()), (100, 2));

    let (pipeline, action) = pipeline.step(PipelineEvent::UnitFinished(Ok(())));
    assert_eq!(action, PipelineAction::Wait);
    assert_eq!((pipeline.height(), pipeline.in_flight()), (100, 1));

    let (pipeline, action) = pipeline.step(PipelineEvent::UnitFinished(Ok(())));
    assert_eq!(action, PipelineAction::ResolveHash { height: 101 });
    assert_eq!((pipeline.height(), pipeline.in_flight()), (101, 0));
    assert_eq!(pipeline.phase(), PipelinePhase::AwaitingHash);
}

#[test]
fn replies_are_left_unanswered_while_a_block_drains() {
    let (pipeline, _) = Pipeline::start(config(100, 10, 50));
    let (pipeline, _) = pipeline.step(PipelineEvent::HashReply(Ok("00ab".to_string())));
    let (pipeline, _) = pipeline.step(PipelineEvent::TransactionsReply(Ok(transfers("a", 2))));

    let (pipeline, action) = pipeline.step(PipelineEvent::HashReply(Ok("00cd".to_string())));
    assert_eq!(action, PipelineAction::Wait);
    let (pipeline, action) =
        pipeline.step(PipelineEvent::TransactionsReply(Ok(transfers("b", 2))));
    assert_eq!(action, PipelineAction::Wait);
    let (pipeline, action) =
        pipeline.step(PipelineEvent::TransactionsReply(Err(IngestError::UpstreamUnavailable)));
    assert_eq!(action, PipelineAction::Wait);
    assert_eq!(pipeline.phase(), PipelinePhase::Draining);
    assert_eq!(pipeline.height(), 100);
    assert_eq!(pipeline.dispatched(), 2);
    assert_eq!(pipeline.in_flight(), 2);
}

#[test]
fn events_that_were_not_asked_for_change_nothing() {
    let (pipeline, _) = Pipeline::start(config(100, 10, 50));
    let (pipeline, action) = pipeline.step(PipelineEvent::UnitFinished(Ok(())));
    assert_eq!(action, PipelineAction::Wait);
    let (pipeline, action) = pipeline.step(PipelineEvent::TransactionsReply(Ok(transfers("a", 2))));
    assert_eq!(action, PipelineAction::Wait);
    assert_eq!(pipeline.phase(), PipelinePhase::AwaitingHash);
    assert_eq!(pipeline.dispatched(), 0);

    let (pipeline, _) = pipeline.step(PipelineEvent::HashReply(Ok("00ab".to_string())));
    let (pipeline, action) = pipeline.step(PipelineEvent::HashReply(Ok("00cd".to_string())));
    assert_eq!(action, PipelineAction::Wait);
    let (pipeline, action) =
        pipeline.step(PipelineEvent::UnitFinished(Err(IngestError::PersistenceFailure)));
    assert_eq!(action, PipelineAction::Wait);
    assert_eq!(pipeline.phase(), PipelinePhase::AwaitingTransactions);
}

#[test]
fn failed_unit_aborts_after_the_block_has_drained() {
    let (pipeline, _) = Pipeline::start(config(100, 10, 50));
    let (pipeline, _) = pipeline.step(PipelineEvent::HashReply(Ok("00ab".to_string())));
    let (pipeline, _) = pipeline.step(PipelineEvent::TransactionsReply(Ok(transfers("a", 3))));

    let (pipeline, action) =
        pipeline.step(PipelineEvent::UnitFinished(Err(IngestError::PersistenceFailure)));
    assert_eq!(action, PipelineAction::Wait);
    assert_eq!(pipeline.outcome(), None);
    let (pipeline, action) = pipeline.step(PipelineEvent::UnitFinished(Ok(())));
    assert_eq!(action, PipelineAction::Wait);
    let (pipeline, action) = pipeline.step(PipelineEvent::UnitFinished(Ok(())));
    assert_eq!(
        action,
        PipelineAction::Finish(RunOutcome::Aborted(IngestError::PersistenceFailure))
    );
    assert_eq!(pipeline.phase(), PipelinePhase::Aborted(IngestError::PersistenceFailure));
    assert_eq!(pipeline.dispatched(), 3);
    assert_eq!(pipeline.in_flight(), 0);
}

#[test]
fn first_observed_failure_is_the_one_reported() {
    let (pipeline, _) = Pipeline::start(config(100, 10, 50));
    let (pipeline, _) = pipeline.step(PipelineEvent::HashReply(Ok("00ab".to_string())));
    let (pipeline, _) = pipeline.step(PipelineEvent::TransactionsReply(Ok(transfers("a", 3))));
    let (pipeline, _) = pipeline.step(PipelineEvent::UnitFinished(Ok(())));
    let (pipeline, _) =
        pipeline.step(PipelineEvent::UnitFinished(Err(IngestError::UpstreamUnavailable)));
    let (pipeline, action) =
        pipeline.step(PipelineEvent::UnitFinished(Err(IngestError::PersistenceFailure)));
    assert_eq!(
        action,
        PipelineAction::Finish(RunOutcome::Aborted(IngestError::UpstreamUnavailable))
    );
    assert_eq!(pipeline.outcome(), Some(RunOutcome::Aborted(IngestError::UpstreamUnavailable)));
}

#[test]
fn failure_of_the_last_unit_aborts() {
    let (pipeline, _) = Pipeline::start(config(100, 10, 50));
    let (pipeline, _) = pipeline.step(PipelineEvent::HashReply(Ok("00ab".to_string())));
    let (pipeline, _) = pipeline.step(PipelineEvent::TransactionsReply(Ok(transfers("a", 1))));
    let (_, action) =
        pipeline.step(PipelineEvent::UnitFinished(Err(IngestError::UpstreamMalformed)));
    assert_eq!(action, PipelineAction::Finish(RunOutcome::Aborted(IngestError::UpstreamMalformed)));
}

#[test]
fn empty_block_is_passed_over() {
    let (pipeline, _) = Pipeline::start(config(100, 2, 50));
    let (pipeline, _) = pipeline.step(PipelineEvent::HashReply(Ok("00ab".to_string())));
    let (pipeline, action) = pipeline.step(PipelineEvent::TransactionsReply(Ok(Vec::new())));
    assert_eq!(action, PipelineAction::ResolveHash { height: 101 });
    assert_eq!(pipeline.dispatched(), 0);
    let (pipeline, _) = pipeline.step(PipelineEvent::HashReply(Ok("00cd".to_string())));
    let (pipeline, action) = pipeline.step(PipelineEvent::TransactionsReply(Ok(Vec::new())));
    assert_eq!(action, PipelineAction::Finish(RunOutcome::Completed(0)));
    assert_eq!(pipeline.height(), 101);
}

#[test]
fn range_ends_before_the_quota_is_reached() {
    let mut upstream = MockUpstream::with_blocks(vec![
        (7, Ok(transfers("a", 2))),
        (8, Ok(transfers("b", 1))),
        (9, Ok(transfers("c", 4))),
    ]);
    let mut store = MockStore::empty();
    let report = run_pipeline(config(7, 2, 100), &mut upstream, &mut store);
    assert_eq!(report.outcome, RunOutcome::Completed(3));
    assert_eq!(upstream.heights_requested, vec![7, 8]);
    assert_eq!(store.transaction_ids(), vec!["a-0", "a-1", "b-0"]);
}

#[test]
fn range_may_end_at_the_largest_height() {
    let mut upstream = MockUpstream::with_blocks(vec![
        (u64::MAX - 1, Ok(transfers("a", 1))),
        (u64::MAX, Ok(transfers("b", 1))),
    ]);
    let mut store = MockStore::empty();
    let report = run_pipeline(config(u64::MAX - 1, 2, 100), &mut upstream, &mut store);
    assert_eq!(report.outcome, RunOutcome::Completed(2));
    assert_eq!(upstream.heights_requested, vec![u64::MAX - 1, u64::MAX]);
}

#[test]
fn finished_run_stays_finished() {
    let (pipeline, _) = Pipeline::start(config(100, 1, 50));
    let (pipeline, _) = pipeline.step(PipelineEvent::HashReply(Ok("00ab".to_string())));
    let (pipeline, _) = pipeline.step(PipelineEvent::TransactionsReply(Ok(transfers("a", 2))));
    let (pipeline, _) = pipeline.step(PipelineEvent::UnitFinished(Ok(())));
    let (pipeline, action) = pipeline.step(PipelineEvent::UnitFinished(Ok(())));
    assert_eq!(action, PipelineAction::Finish(RunOutcome::Completed(2)));
    let (pipeline, action) = pipeline.step(PipelineEvent::HashReply(Ok("00cd".to_string())));
    assert_eq!(action, PipelineAction::Finish(RunOutcome::Completed(2)));
    let (pipeline, action) =
        pipeline.step(PipelineEvent::UnitFinished(Err(IngestError::PersistenceFailure)));
    assert_eq!(action, PipelineAction::Finish(RunOutcome::Completed(2)));
    assert_eq!(pipeline.outcome(), Some(RunOutcome::Completed(2)));

    let (pipeline, _) = Pipeline::start(config(100, 1, 50));
    let (pipeline, _) =
        pipeline.step(PipelineEvent::HashReply(Err(IngestError::UpstreamUnavailable)));
    let (pipeline, action) = pipeline.step(PipelineEvent::HashReply(Ok("00ab".to_string())));
    assert_eq!(
        action,
        PipelineAction::Finish(RunOutcome::Aborted(IngestError::UpstreamUnavailable))
    );
    assert_eq!(pipeline.dispatched(), 0);
}

#[test]
fn blocks_are_drained_in_order_of_height() {
    let mut upstream = MockUpstream::with_blocks(vec![
        (50, Ok(transfers("a", 2))),
        (51, Ok(Vec::new())),
        (52, Ok(transfers("c", 3))),
        (53, Ok(transfers("d", 1))),
    ]);
    let mut store = MockStore::empty();
    let report = run_pipeline(config(50, 4, 100), &mut upstream, &mut store);
    assert_eq!(report.outcome, RunOutcome::Completed(6));
    assert_eq!(upstream.heights_requested, vec![50, 51, 52, 53]);
    let heights: Vec<u64> = report.dispatches.iter().map(|d| d.0).collect();
    assert_eq!(heights, vec![50, 52, 53]);
    let ordinals: Vec<u64> = report.dispatches.iter().map(|d| d.1).collect();
    assert_eq!(ordinals, vec![1, 3, 6]);
    assert_eq!(store.transaction_ids(), vec!["a-0", "a-1", "c-0", "c-1", "c-2", "d-0"]);
    let row_heights: Vec<u64> = store.wallets.iter().map(|w| w.last_seen_block).collect();
    let mut sorted = row_heights.clone();
    sorted.sort();
    assert_eq!(row_heights, sorted);
}

#[test]
fn quota_of_five_on_a_block_of_seven() {
    let block = transfers("t", 7);
    let mut upstream = MockUpstream::with_blocks(vec![(830_000, Ok(block.clone()))]);
    let mut store = MockStore::empty();
    let report = run_pipeline(config(830_000, 10, 5), &mut upstream, &mut store);

    assert_eq!(report.outcome, RunOutcome::Completed(5));
    assert_eq!(report.dispatched, 5);
    assert_eq!(report.dispatches.len(), 1);
    assert_eq!(report.dispatches[0].0, 830_000);
    assert_eq!(report.dispatches[0].1, 1);
    assert_eq!(report.dispatches[0].2, vec!["t-0", "t-1", "t-2", "t-3", "t-4"]);
    assert_eq!(upstream.heights_requested, vec![830_000]);
    assert_eq!(upstream.hashes_requested, vec![hash_of(830_000)]);

    assert_eq!(store.transaction_ids(), vec!["t-0", "t-1", "t-2", "t-3", "t-4"]);
    let mut expected_addresses: Vec<String> = Vec::new();
    for i in 0..5 {
        expected_addresses.push(format!("t-from-{}", i));
        expected_addresses.push(format!("t-to-{}", i));
    }
    let wallet_addresses: Vec<String> = store.wallets.iter().map(|w| w.address.clone()).collect();
    let owner_addresses: Vec<String> = store.owners.iter().map(|o| o.address.clone()).collect();
    assert_eq!(wallet_addresses, expected_addresses);
    assert_eq!(owner_addresses, expected_addresses);
    assert!(store.wallets.iter().all(|w| w.last_seen_block == 830_000));
    assert!(store
        .owners
        .iter()
        .all(|o| o.person_name.is_empty() && o.person_id == 0 && o.personal_id == 0));
    for address in ["t-from-5", "t-to-5", "t-from-6", "t-to-6"] {
        assert!(!upstream.addresses_requested.iter().any(|a| a == address));
    }
}

#[test]
fn unavailable_listing_of_the_second_block() {
    let mut upstream = MockUpstream::with_blocks(vec![
        (830_000, Ok(transfers("first", 3))),
        (830_001, Err(IngestError::UpstreamUnavailable)),
        (830_002, Ok(transfers("third", 2))),
    ]);
    let mut store = MockStore::empty();
    let report = run_pipeline(config(830_000, 10, 200), &mut upstream, &mut store);

    assert_eq!(report.outcome, RunOutcome::Aborted(IngestError::UpstreamUnavailable));
    assert_eq!(report.dispatched, 3);
    assert_eq!(upstream.heights_requested, vec![830_000, 830_001]);
    assert_eq!(store.transaction_ids(), vec!["first-0", "first-1", "first-2"]);
    assert_eq!(store.wallets.len(), 6);
    assert_eq!(store.owners.len(), 6);
}

#[test]
fn unavailable_listing_of_the_second_block_under_a_small_quota() {
    let mut upstream = MockUpstream::with_blocks(vec![
        (830_000, Ok(transfers("first", 3))),
        (830_001, Err(IngestError::UpstreamUnavailable)),
    ]);
    let mut store = MockStore::empty();
    let report = run_pipeline(config(830_000, 10, 2), &mut upstream, &mut store);
    assert_eq!(report.outcome, RunOutcome::Completed(2));
    assert_eq!(report.dispatched, 2);
    assert_eq!(upstream.heights_requested, vec![830_000]);
    assert_eq!(store.transaction_ids(), vec!["first-0", "first-1"]);
}

#[test]
fn rejected_write_aborts_the_run_and_keeps_what_was_written() {
    let mut upstream = MockUpstream::with_blocks(vec![
        (20, Ok(transfers("a", 3))),
        (21, Ok(transfers("b", 3))),
    ]);
    let mut store = MockStore::empty();
    store.rejected_transaction = Some("a-1".to_string());
    let report = run_pipeline(config(20, 2, 100), &mut upstream, &mut store);
    assert_eq!(report.outcome, RunOutcome::Aborted(IngestError::PersistenceFailure));
    assert_eq!(report.dispatched, 3);
    assert_eq!(upstream.heights_requested, vec![20]);
    assert_eq!(store.transaction_ids(), vec!["a-0", "a-2"]);
    assert_eq!(store.wallets.len(), 4);
}

#[test]
fn failed_balance_lookup_aborts_the_run() {
    let mut upstream = MockUpstream::with_blocks(vec![
        (20, Ok(transfers("a", 2))),
        (21, Ok(transfers("b", 2))),
    ]);
    upstream.failing_address = Some("a-to-0".to_string());
    let mut store = MockStore::empty();
    let report = run_pipeline(config(20, 2, 100), &mut upstream, &mut store);
    assert_eq!(report.outcome, RunOutcome::Aborted(IngestError::UpstreamUnavailable));
    assert_eq!(report.dispatched, 2);
    assert_eq!(store.transaction_ids(), vec!["a-0", "a-1"]);
    let wallet_addresses: Vec<String> = store.wallets.iter().map(|w| w.address.clone()).collect();
    assert_eq!(wallet_addresses, vec!["a-from-0", "a-from-1", "a-to-1"]);
}

//! The ingestion pipeline: a walk over a range of block heights under a
//! quota of transactions. For each height the block's hash is resolved and
//! its transactions are listed; as many of them as the quota still allows
//! are dispatched together, and the next height is turned to only when every
//! one of them has finished. The pipeline decides; whoever drives it performs
//! each action and reports what came of it.

use crate::chain::{is_hash_text, parse_block_hash, trimmed, RawTransaction};
use crate::error::IngestError;
use crate::normalize::NormalizationMode;
use vstd::prelude::*;

verus! {

/// What a run works on: the heights `start_height ..
/// start_height + span_length`, at most `max_transactions` transactions.
#[derive(Clone, Copy, Debug, PartialEq, Eq, Structural)]
pub struct PipelineConfig {
    pub start_height: u64,
    pub span_length: u64,
    pub max_transactions: u64,
    pub mode: NormalizationMode,
}

impl PipelineConfig {
    /// The height after the last one of the range.
    pub open spec fn end_height(self) -> nat {
        (self.start_height + self.span_length) as nat
    }

    /// Every height of the range is a height that the machine can hold.
    pub open spec fn valid(self) -> bool {
        self.end_height() <= u64::MAX + 1
    }

    /// Tells whether every height of the range can be held.
    pub fn is_valid(&self) -> (valid: bool)
        ensures
            valid == self.valid(),
    {
        self.span_length == 0 || self.start_height <= u64::MAX - (self.span_length - 1)
    }
}

/// How a run ended.
#[derive(Clone, Copy, Debug, PartialEq, Eq, Structural)]
pub enum RunOutcome {
    /// The range or the quota was used up; the count is that of the
    /// transactions dispatched.
    Completed(u64),
    /// A request or a unit failed.
    Aborted(IngestError),
}

/// What a pipeline is waiting for.
#[derive(Clone, Copy, Debug, PartialEq, Eq, Structural)]
pub enum PipelinePhase {
    /// The hash of the block at the current height is being resolved.
    AwaitingHash,
    /// The transactions of the block at the current height are being listed.
    AwaitingTransactions,
    /// Units of the block at the current height are still at work.
    Draining,
    /// The run is over: the range or the quota was used up.
    Completed,
    /// The run is over: something failed.
    Aborted(IngestError),
}

/// What came of the work that a pipeline asked for.
#[derive(Debug, PartialEq, Eq)]
pub enum PipelineEvent {
    /// The upstream answered the request for a block hash; the text is the
    /// body of its reply as it came.
    HashReply(Result<String, IngestError>),
    /// The upstream answered the request for a block's transactions.
    TransactionsReply(Result<Vec<RawTransaction>, IngestError>),
    /// One dispatched unit has finished.
    UnitFinished(Result<(), IngestError>),
}

/// What a pipeline asks its driver to do next.
#[derive(Debug, PartialEq, Eq)]
pub enum PipelineAction {
    /// Request the hash of the block at `height`, then report `HashReply`.
    ResolveHash { height: u64 },
    /// Request the transactions of the block with `hash`, then report
    /// `TransactionsReply`.
    ListTransactions { hash: String },
    /// Start one unit of work for each of `transactions`, all found at
    /// `height`, and report `UnitFinished` for each as it ends. They count as
    /// transactions number `first_ordinal` and following of the run.
    Dispatch { height: u64, first_ordinal: u64, transactions: Vec<RawTransaction> },
    /// Nothing new; report the next event when it comes.
    Wait,
    /// The run is over.
    Finish(RunOutcome),
}

/// Mathematical content of a `PipelineAction`.
pub enum PipelineActionView {
    ResolveHash { height: nat },
    ListTransactions { hash: Seq<char> },
    Dispatch { height: nat, first_ordinal: nat, transactions: Seq<RawTransaction> },
    Wait,
    Finish(RunOutcome),
}

impl View for PipelineAction {
    type V = PipelineActionView;

    open spec fn view(&self) -> PipelineActionView {
        match self {
            PipelineAction::ResolveHash { height } => PipelineActionView::ResolveHash {
                height: *height as nat,
            },
            PipelineAction::ListTransactions { hash } => PipelineActionView::ListTransactions {
                hash: hash@,
            },
            PipelineAction::Dispatch {
                height,
                first_ordinal,
                transactions,
            } => PipelineActionView::Dispatch {
                height: *height as nat,
                first_ordinal: *first_ordinal as nat,
                transactions: transactions@,
            },
            PipelineAction::Wait => PipelineActionView::Wait,
            PipelineAction::Finish(outcome) => PipelineActionView::Finish(*outcome),
        }
    }
}

/// The state of a run.
#[derive(Debug)]
pub struct Pipeline {
    config: PipelineConfig,
    height: u64,
    dispatched: u64,
    in_flight: u64,
    failure: Option<IngestError>,
    phase: PipelinePhase,
}

/// Mathematical content of a `Pipeline`.
pub struct PipelineView {
    pub config: PipelineConfig,
    /// The height that the run is at.
    pub height: nat,
    /// How many transactions were dispatched so far.
    pub dispatched: nat,
    /// How many dispatched units have not finished yet.
    pub in_flight: nat,
    /// The first failure among the units of the current block that have
    /// finished.
    pub failure: Option<IngestError>,
    pub phase: PipelinePhase,
}

impl PipelineView {
    /// How many transactions may still be dispatched.
    pub open spec fn quota_left(self) -> nat {
        (self.config.max_transactions - self.dispatched) as nat
    }

    /// The run is over.
    pub open spec fn finished(self) -> bool {
        self.phase == PipelinePhase::Completed || self.phase is Aborted
    }

    /// No height of the range is left after the current one.
    pub open spec fn range_exhausted(self) -> bool {
        self.height + 1 >= self.config.end_height()
    }

    /// What holds of every state that a run can be in: the count of
    /// dispatched transactions stays within the quota, the height stays
    /// within the range, and units are in flight only while their block is
    /// drained.
    pub open spec fn wf(self) -> bool {
        &&& self.config.valid()
        &&& self.config.start_height <= self.height
        &&& self.config.span_length > 0 ==> self.height < self.config.end_height()
        &&& self.config.span_length == 0 ==> self.height == self.config.start_height
        &&& self.dispatched <= self.config.max_transactions
        &&& self.in_flight <= self.dispatched
        &&& match self.phase {
            PipelinePhase::AwaitingHash | PipelinePhase::AwaitingTransactions => {
                &&& self.in_flight == 0
                &&& self.failure is None
                &&& self.dispatched < self.config.max_transactions
                &&& self.config.span_length > 0
            },
            PipelinePhase::Draining => {
                &&& self.in_flight >= 1
                &&& self.config.span_length > 0
            },
            PipelinePhase::Completed => {
                &&& self.in_flight == 0
                &&& self.failure is None
                &&& (self.dispatched == self.config.max_transactions || self.range_exhausted())
            },
            PipelinePhase::Aborted(_) => {
                &&& self.in_flight == 0
                &&& self.failure is None
            },
        }
    }
}

/// The outcome of a run that used up its range or its quota.
pub open spec fn completed(dispatched: nat) -> RunOutcome {
    RunOutcome::Completed(dispatched as u64)
}

/// The pipeline as it starts, and its first action: nothing at all is
/// requested where the range is empty or the quota is zero.
pub open spec fn pipeline_start(config: PipelineConfig) -> (PipelineView, PipelineActionView) {
    let first = PipelineView {
        config,
        height: config.start_height as nat,
        dispatched: 0,
        in_flight: 0,
        failure: None,
        phase: PipelinePhase::AwaitingHash,
    };
    if config.span_length == 0 || config.max_transactions == 0 {
        (
            PipelineView { phase: PipelinePhase::Completed, ..first },
            PipelineActionView::Finish(completed(0)),
        )
    } else {
        (first, PipelineActionView::ResolveHash { height: first.height })
    }
}

/// The run ends with `error`.
pub open spec fn pipeline_abort(pre: PipelineView, error: IngestError) -> (
    PipelineView,
    PipelineActionView,
) {
    (
        PipelineView { phase: PipelinePhase::Aborted(error), in_flight: 0, failure: None, ..pre },
        PipelineActionView::Finish(RunOutcome::Aborted(error)),
    )
}

/// The block at the current height is done with: the run ends where the
/// quota is reached or no height is left, and turns to the next height
/// otherwise.
pub open spec fn pipeline_move_on(pre: PipelineView) -> (PipelineView, PipelineActionView) {
    if pre.dispatched >= pre.config.max_transactions || pre.range_exhausted() {
        (
            PipelineView { phase: PipelinePhase::Completed, in_flight: 0, failure: None, ..pre },
            PipelineActionView::Finish(completed(pre.dispatched)),
        )
    } else {
        (
            PipelineView {
                height: pre.height + 1,
                phase: PipelinePhase::AwaitingHash,
                in_flight: 0,
                failure: None,
                ..pre
            },
            PipelineActionView::ResolveHash { height: pre.height + 1 },
        )
    }
}

/// How many of `listed` transactions are dispatched: all of them, or as many
/// as the quota still allows.
pub open spec fn dispatch_count(pre: PipelineView, listed: nat) -> nat {
    if listed <= pre.quota_left() {
        listed
    } else {
        pre.quota_left()
    }
}

/// The first failure of a batch: the one already held, or else the one that
/// `result` brings.
pub open spec fn first_failure(held: Option<IngestError>, result: Result<(), IngestError>) -> Option<
    IngestError,
> {
    match held {
        Some(error) => Some(error),
        None => match result {
            Ok(_) => None,
            Err(error) => Some(error),
        },
    }
}

/// The transition of a pipeline: the state after `event`, and the action it
/// asks for.
///
/// - A failed request ends the run with its error, and so does a hash reply
///   that is no well-formed hash.
/// - Of the transactions listed for a block the first ones are dispatched,
///   as many as the quota still allows, in the order of the list.
/// - While units are in flight every event but `UnitFinished` is left
///   unanswered. When the last unit of a block has finished, the run ends
///   with the first failure that a unit of the block reported, if any did;
///   otherwise it moves on.
/// - An event that does not answer what the pipeline waits for changes
///   nothing, and a run that is over stays over.
pub open spec fn pipeline_step(pre: PipelineView, event: PipelineEvent) -> (
    PipelineView,
    PipelineActionView,
) {
    match pre.phase {
        PipelinePhase::Completed => (pre, PipelineActionView::Finish(completed(pre.dispatched))),
        PipelinePhase::Aborted(error) => (
            pre,
            PipelineActionView::Finish(RunOutcome::Aborted(error)),
        ),
        PipelinePhase::AwaitingHash => match event {
            PipelineEvent::HashReply(Ok(body)) => if is_hash_text(trimmed(body@)) {
                (
                    PipelineView { phase: PipelinePhase::AwaitingTransactions, ..pre },
                    PipelineActionView::ListTransactions { hash: trimmed(body@) },
                )
            } else {
                pipeline_abort(pre, IngestError::UpstreamMalformed)
            },
            PipelineEvent::HashReply(Err(error)) => pipeline_abort(pre, error),
            _ => (pre, PipelineActionView::Wait),
        },
        PipelinePhase::AwaitingTransactions => match event {
            PipelineEvent::TransactionsReply(Ok(listed)) => {
                let count = dispatch_count(pre, listed@.len());
                if count == 0 {
                    pipeline_move_on(pre)
                } else {
                    (
                        PipelineView {
                            dispatched: pre.dispatched + count,
                            in_flight: count,
                            phase: PipelinePhase::Draining,
                            ..pre
                        },
                        PipelineActionView::Dispatch {
                            height: pre.height,
                            first_ordinal: pre.dispatched + 1,
                            transactions: listed@.take(count as int),
                        },
                    )
                }
            },
            PipelineEvent::TransactionsReply(Err(error)) => pipeline_abort(pre, error),
            _ => (pre, PipelineActionView::Wait),
        },
        PipelinePhase::Draining => match event {
            PipelineEvent::UnitFinished(result) => {
                let failure = first_failure(pre.failure, result);
                if pre.in_flight > 1 {
                    (
                        PipelineView { in_flight: (pre.in_flight - 1) as nat, failure, ..pre },
                        PipelineActionView::Wait,
                    )
                } else {
                    match failure {
                        Some(error) => pipeline_abort(pre, error),
                        None => pipeline_move_on(pre),
                    }
                }
            },
            _ => (pre, PipelineActionView::Wait),
        },
    }
}

impl View for Pipeline {
    type V = PipelineView;

    closed spec fn view(&self) -> PipelineView {
        PipelineView {
            config: self.config,
            height: self.height as nat,
            dispatched: self.dispatched as nat,
            in_flight: self.in_flight as nat,
            failure: self.failure,
            phase: self.phase,
        }
    }
}

impl Pipeline {
    #[verifier::type_invariant]
    closed spec fn well_formed(self) -> bool {
        self@.wf()
    }

    /// Starts a run and says what to do first.
    pub fn start(config: PipelineConfig) -> (started: (Pipeline, PipelineAction))
        requires
            config.valid(),
        ensures
            started.0@ == pipeline_start(config).0,
            started.1@ == pipeline_start(config).1,
            started.0@.wf(),
    {
        if config.span_length == 0 || config.max_transactions == 0 {
            (
                Pipeline {
                    config,
                    height: config.start_height,
                    dispatched: 0,
                    in_flight: 0,
                    failure: None,
                    phase: PipelinePhase::Completed,
                },
                PipelineAction::Finish(RunOutcome::Completed(0)),
            )
        } else {
            (
                Pipeline {
                    config,
                    height: config.start_height,
                    dispatched: 0,
                    in_flight: 0,
                    failure: None,
                    phase: PipelinePhase::AwaitingHash,
                },
                PipelineAction::ResolveHash { height: config.start_height },
            )
        }
    }

    /// The configuration of the run.
    pub fn config(&self) -> (config: PipelineConfig)
        ensures
            config == self@.config,
    {
        self.config
    }

    /// The height that the run is at.
    pub fn height(&self) -> (height: u64)
        ensures
            height == self@.height,
    {
        self.height
    }

    /// How many transactions were dispatched so far; never more than the
    /// quota.
    pub fn dispatched(&self) -> (count: u64)
        ensures
            count == self@.dispatched,
            count <= self@.config.max_transactions,
    {
        proof {
            use_type_invariant(self);
        }
        self.dispatched
    }

    /// How many dispatched units have not finished yet.
    pub fn in_flight(&self) -> (count: u64)
        ensures
            count == self@.in_flight,
    {
        self.in_flight
    }

    /// The phase that the run is in.
    pub fn phase(&self) -> (phase: PipelinePhase)
        ensures
            phase == self@.phase,
    {
        self.phase
    }

    /// How the run ended, once it has.
    pub fn outcome(&self) -> (outcome: Option<RunOutcome>)
        ensures
            outcome == match self@.phase {
                PipelinePhase::Completed => Some(completed(self@.dispatched)),
                PipelinePhase::Aborted(error) => Some(RunOutcome::Aborted(error)),
                _ => None,
            },
    {
        match self.phase {
            PipelinePhase::Completed => Some(RunOutcome::Completed(self.dispatched)),
            PipelinePhase::Aborted(error) => Some(RunOutcome::Aborted(error)),
            _ => None,
        }
    }

    fn abort(self, error: IngestError) -> (next: (Pipeline, PipelineAction))
        ensures
            next.0@ == pipeline_abort(self@, error).0,
            next.1@ == pipeline_abort(self@, error).1,
    {
        proof {
            use_type_invariant(&self);
        }
        (
            Pipeline {
                config: self.config,
                height: self.height,
                dispatched: self.dispatched,
                in_flight: 0,
                failure: None,
                phase: PipelinePhase::Aborted(error),
            },
            PipelineAction::Finish(RunOutcome::Aborted(error)),
        )
    }

    fn move_on(self) -> (next: (Pipeline, PipelineAction))
        requires
            self@.config.span_length > 0,
        ensures
            next.0@ == pipeline_move_on(self@).0,
            next.1@ == pipeline_move_on(self@).1,
    {
        proof {
            use_type_invariant(&self);
        }
        if self.dispatched >= self.config.max_transactions || self.height
            - self.config.start_height >= self.config.span_length - 1 {
            (
                Pipeline {
                    config: self.config,
                    height: self.height,
                    dispatched: self.dispatched,
                    in_flight: 0,
                    failure: None,
                    phase: PipelinePhase::Completed,
                },
                PipelineAction::Finish(RunOutcome::Completed(self.dispatched)),
            )
        } else {
            (
                Pipeline {
                    config: self.config,
                    height: self.height + 1,
                    dispatched: self.dispatched,
                    in_flight: 0,
                    failure: None,
                    phase: PipelinePhase::AwaitingHash,
                },
                PipelineAction::ResolveHash { height: self.height + 1 },
            )
        }
    }

    fn dispatch(self, listed: Vec<RawTransaction>) -> (next: (Pipeline, PipelineAction))
        requires
            self@.phase == PipelinePhase::AwaitingTransactions,
        ensures
            next.0@ == pipeline_step(self@, PipelineEvent::TransactionsReply(Ok(listed))).0,
            next.1@ == pipeline_step(self@, PipelineEvent::TransactionsReply(Ok(listed))).1,
    {
        proof {
            use_type_invariant(&self);
        }
        let left: u64 = self.config.max_transactions - self.dispatched;
        let listed_count: usize = listed.len();
        let count: u64 = if listed_count as u64 <= left {
            listed_count as u64
        } else {
            left
        };
        if count == 0 {
            self.move_on()
        } else {
            let mut transactions = listed;
            transactions.truncate(count as usize);
            assert(transactions@ =~= listed@.take(count as int));
            (
                Pipeline {
                    config: self.config,
                    height: self.height,
                    dispatched: self.dispatched + count,
                    in_flight: count,
                    failure: None,
                    phase: PipelinePhase::Draining,
                },
                PipelineAction::Dispatch {
                    height: self.height,
                    first_ordinal: self.dispatched + 1,
                    transactions,
                },
            )
        }
    }

    fn unit_finished(self, result: Result<(), IngestError>) -> (next: (Pipeline, PipelineAction))
        requires
            self@.phase == PipelinePhase::Draining,
        ensures
            next.0@ == pipeline_step(self@, PipelineEvent::UnitFinished(result)).0,
            next.1@ == pipeline_step(self@, PipelineEvent::UnitFinished(result)).1,
    {
        proof {
            use_type_invariant(&self);
        }
        let failure = match self.failure {
            Some(error) => Some(error),
            None => match result {
                Ok(_) => None,
                Err(error) => Some(error),
            },
        };
        if self.in_flight > 1 {
            (
                Pipeline {
                    config: self.config,
                    height: self.height,
                    dispatched: self.dispatched,
                    in_flight: self.in_flight - 1,
                    failure,
                    phase: PipelinePhase::Draining,
                },
                PipelineAction::Wait,
            )
        } else {
            match failure {
                Some(error) => self.abort(error),
                None => self.move_on(),
            }
        }
    }

    /// Takes what came of the work that was asked for and says what to do
    /// next.
    pub fn step(self, event: PipelineEvent) -> (next: (Pipeline, PipelineAction))
        ensures
            next.0@ == pipeline_step(self@, event).0,
            next.1@ == pipeline_step(self@, event).1,
            next.0@.wf(),
            next.0@.dispatched <= next.0@.config.max_transactions,
    {
        proof {
            use_type_invariant(&self);
            law_step_keeps_wf(self@, event);
        }
        match self.phase {
            PipelinePhase::Completed => {
                let outcome = RunOutcome::Completed(self.dispatched);
                (self, PipelineAction::Finish(outcome))
            },
            PipelinePhase::Aborted(error) => (
                self,
                PipelineAction::Finish(RunOutcome::Aborted(error)),
            ),
            PipelinePhase::AwaitingHash => match event {
                PipelineEvent::HashReply(Ok(body)) => match parse_block_hash(body.as_str()) {
                    Ok(hash) => (
                        Pipeline {
                            config: self.config,
                            height: self.height,
                            dispatched: self.dispatched,
                            in_flight: 0,
                            failure: None,
                            phase: PipelinePhase::AwaitingTransactions,
                        },
                        PipelineAction::ListTransactions { hash },
                    ),
                    Err(_) => self.abort(IngestError::UpstreamMalformed),
                },
                PipelineEvent::HashReply(Err(error)) => self.abort(error),
                _ => (self, PipelineAction::Wait),
            },
            PipelinePhase::AwaitingTransactions => match event {
                PipelineEvent::TransactionsReply(Ok(listed)) => self.dispatch(listed),
                PipelineEvent::TransactionsReply(Err(error)) => self.abort(error),
                _ => (self, PipelineAction::Wait),
            },
            PipelinePhase::Draining => match event {
                PipelineEvent::UnitFinished(result) => self.unit_finished(result),
                _ => (self, PipelineAction::Wait),
            },
        }
    }
}

/// A run starts well-formed.
pub proof fn law_start_wf(config: PipelineConfig)
    requires
        config.valid(),
    ensures
        pipeline_start(config).0.wf(),
{
}

/// Every step keeps a run well-formed.
pub proof fn law_step_keeps_wf(pre: PipelineView, event: PipelineEvent)
    requires
        pre.wf(),
    ensures
        pipeline_step(pre, event).0.wf(),
{
}

/// The count of dispatched transactions grows only by a dispatch, and then
/// by the number of transactions handed out, which is never more than what
/// the quota had left, even when the block lists more. Once the quota is
/// used up no further block is asked for.
pub proof fn law_dispatch_within_quota(pre: PipelineView, event: PipelineEvent)
    requires
        pre.wf(),
    ensures
        ({
            let (post, action) = pipeline_step(pre, event);
            &&& post.dispatched <= pre.config.max_transactions
            &&& (action is ResolveHash || action is ListTransactions) ==> post.dispatched
                < pre.config.max_transactions
            &&& action matches PipelineActionView::Dispatch { first_ordinal, transactions, .. }
                ==> {
                &&& transactions.len() >= 1
                &&& transactions.len() <= pre.quota_left()
                &&& post.dispatched == pre.dispatched + transactions.len()
                &&& first_ordinal == pre.dispatched + 1
                &&& event matches PipelineEvent::TransactionsReply(Ok(listed))
                &&& transactions == listed@.take(transactions.len() as int)
            }
            &&& !(action is Dispatch) ==> post.dispatched == pre.dispatched
        }),
{
}

/// Blocks are drained in order of height. The height never goes down. A
/// dispatch happens only while no unit is in flight, and hands out
/// transactions of the current height. While more than one unit is in
/// flight nothing is requested or dispatched, and when the height goes up
/// or anything is requested, no unit is left in flight: every unit of a
/// block has finished, well or not, before anything of a later block begins.
pub proof fn law_blocks_drain_in_order(pre: PipelineView, event: PipelineEvent)
    requires
        pre.wf(),
    ensures
        ({
            let (post, action) = pipeline_step(pre, event);
            &&& post.height >= pre.height
            &&& post.height <= pre.height + 1
            &&& action matches PipelineActionView::Dispatch { height, transactions, .. } ==> {
                &&& pre.in_flight == 0
                &&& height == pre.height
                &&& post.height == pre.height
                &&& post.in_flight == transactions.len()
            }
            &&& action matches PipelineActionView::ResolveHash { height } ==> {
                &&& post.in_flight == 0
                &&& height == post.height
                &&& post.height == pre.height + 1
            }
            &&& action is ListTransactions ==> pre.in_flight == 0 && post.in_flight == 0
            &&& post.height > pre.height ==> post.in_flight == 0 && pre.in_flight <= 1
            &&& pre.in_flight > 1 ==> action is Wait && post.height == pre.height
            &&& post.in_flight < pre.in_flight ==> event is UnitFinished && post.in_flight
                == pre.in_flight - 1
            &&& pre.in_flight > 0 && !(event is UnitFinished) ==> post == pre && action is Wait
        }),
{
}

/// The first failure that a unit of a block reports is the one that ends
/// the run; failures that come after it from the same block are dropped.
pub proof fn law_first_failure_is_kept(
    pre: PipelineView,
    first: IngestError,
    result: Result<(), IngestError>,
)
    requires
        pre.wf(),
        pre.phase == PipelinePhase::Draining,
        pre.failure == Some(first),
    ensures
        ({
            let (post, action) = pipeline_step(pre, PipelineEvent::UnitFinished(result));
            &&& pre.in_flight > 1 ==> post.failure == Some(first) && action is Wait
            &&& pre.in_flight == 1 ==> post.phase == PipelinePhase::Aborted(first) && action
                == PipelineActionView::Finish(RunOutcome::Aborted(first))
        }),
{
}

} // verus!

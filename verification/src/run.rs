//! What holds of whole runs of the pipeline, whatever events they are fed:
//! the quota is kept, every unit is accounted for, and blocks are drained
//! strictly in order of height.

use crate::pipeline::{
    law_blocks_drain_in_order, law_dispatch_within_quota, law_start_wf, law_step_keeps_wf,
    pipeline_start, pipeline_step, PipelineActionView, PipelineConfig, PipelineEvent,
    PipelinePhase, PipelineView,
};
use vstd::prelude::*;

verus! {

/// The state that a run is in after a sequence of events.
pub open spec fn pipeline_run(config: PipelineConfig, events: Seq<PipelineEvent>) -> PipelineView
    decreases events.len(),
{
    if events.len() == 0 {
        pipeline_start(config).0
    } else {
        pipeline_step(pipeline_run(config, events.drop_last()), events.last()).0
    }
}

/// The action that the last of a sequence of events was answered with; the
/// first action of the run where there was no event yet.
pub open spec fn last_action(
    config: PipelineConfig,
    events: Seq<PipelineEvent>,
) -> PipelineActionView {
    if events.len() == 0 {
        pipeline_start(config).1
    } else {
        pipeline_step(pipeline_run(config, events.drop_last()), events.last()).1
    }
}

/// How many transactions a run has handed out for dispatch.
pub open spec fn units_handed_out(config: PipelineConfig, events: Seq<PipelineEvent>) -> nat
    decreases events.len(),
{
    if events.len() == 0 {
        0
    } else {
        units_handed_out(config, events.drop_last()) + match last_action(config, events) {
            PipelineActionView::Dispatch { transactions, .. } => transactions.len(),
            _ => 0,
        }
    }
}

/// How many units have reported their end to a run that was waiting for
/// them.
pub open spec fn units_finished(config: PipelineConfig, events: Seq<PipelineEvent>) -> nat
    decreases events.len(),
{
    if events.len() == 0 {
        0
    } else {
        let before = pipeline_run(config, events.drop_last());
        units_finished(config, events.drop_last()) + if before.phase == PipelinePhase::Draining
            && events.last() is UnitFinished {
            1nat
        } else {
            0nat
        }
    }
}

/// The height of the block whose transactions a run has dispatched last, if
/// it has dispatched any.
pub open spec fn latest_dispatch_height(
    config: PipelineConfig,
    events: Seq<PipelineEvent>,
) -> Option<nat>
    decreases events.len(),
{
    if events.len() == 0 {
        None
    } else {
        match last_action(config, events) {
            PipelineActionView::Dispatch { height, .. } => Some(height),
            _ => latest_dispatch_height(config, events.drop_last()),
        }
    }
}

/// Whatever events a run is fed, it stays well-formed, and the count of
/// dispatched transactions, which is the number of transactions handed out,
/// never exceeds the quota.
pub proof fn law_run_within_quota(config: PipelineConfig, events: Seq<PipelineEvent>)
    requires
        config.valid(),
    ensures
        pipeline_run(config, events).wf(),
        pipeline_run(config, events).config == config,
        pipeline_run(config, events).dispatched == units_handed_out(config, events),
        units_handed_out(config, events) <= config.max_transactions,
    decreases events.len(),
{
    if events.len() == 0 {
        law_start_wf(config);
    } else {
        let before = pipeline_run(config, events.drop_last());
        law_run_within_quota(config, events.drop_last());
        law_step_keeps_wf(before, events.last());
        law_dispatch_within_quota(before, events.last());
    }
}

/// Every transaction handed out is either still in flight or has finished.
pub proof fn law_units_accounted_for(config: PipelineConfig, events: Seq<PipelineEvent>)
    requires
        config.valid(),
    ensures
        pipeline_run(config, events).in_flight + units_finished(config, events)
            == units_handed_out(config, events),
    decreases events.len(),
{
    if events.len() > 0 {
        let before = pipeline_run(config, events.drop_last());
        law_units_accounted_for(config, events.drop_last());
        law_run_within_quota(config, events.drop_last());
        law_blocks_drain_in_order(before, events.last());
    }
}

/// The block that was dispatched last is never above the height that the
/// run is at, and lies below it while the run fetches a block.
proof fn lemma_latest_dispatch_lies_behind(config: PipelineConfig, events: Seq<PipelineEvent>)
    requires
        config.valid(),
    ensures
        latest_dispatch_height(config, events) matches Some(height) ==> {
            let now = pipeline_run(config, events);
            &&& height <= now.height
            &&& (now.phase == PipelinePhase::AwaitingHash || now.phase
                == PipelinePhase::AwaitingTransactions) ==> height < now.height
        },
    decreases events.len(),
{
    if events.len() > 0 {
        let before = pipeline_run(config, events.drop_last());
        lemma_latest_dispatch_lies_behind(config, events.drop_last());
        law_run_within_quota(config, events.drop_last());
        law_blocks_drain_in_order(before, events.last());
    }
}

/// Blocks are drained strictly in order. When a run hands out the
/// transactions of a block, every transaction that it handed out before has
/// finished, well or not, and belongs to a block of a lower height.
pub proof fn law_dispatch_follows_drain(
    config: PipelineConfig,
    events: Seq<PipelineEvent>,
    event: PipelineEvent,
)
    requires
        config.valid(),
    ensures
        pipeline_step(pipeline_run(config, events), event).1 matches PipelineActionView::Dispatch {
            height,
            ..
        } ==> {
            &&& units_finished(config, events) == units_handed_out(config, events)
            &&& latest_dispatch_height(config, events) matches Some(earlier) ==> earlier < height
        },
{
    let now = pipeline_run(config, events);
    law_run_within_quota(config, events);
    law_units_accounted_for(config, events);
    lemma_latest_dispatch_lies_behind(config, events);
    law_blocks_drain_in_order(now, event);
}

/// Nothing of a later block is asked for while a unit is in flight: a
/// request for a block's hash or transactions is made only when every
/// transaction handed out so far has finished.
pub proof fn law_fetch_follows_drain(
    config: PipelineConfig,
    events: Seq<PipelineEvent>,
    event: PipelineEvent,
)
    requires
        config.valid(),
    ensures
        ({
            let action = pipeline_step(pipeline_run(config, events), event).1;
            action is ResolveHash || action is ListTransactions
        }) ==> units_finished(config, events.push(event)) == units_handed_out(
            config,
            events.push(event),
        ),
{
    let after = events.push(event);
    assert(after.drop_last() =~= events);
    law_run_within_quota(config, events);
    law_units_accounted_for(config, after);
    law_blocks_drain_in_order(pipeline_run(config, events), event);
}

} // verus!

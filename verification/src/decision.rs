//! What follows a decision of the consensus engine, step by step: the batcher
//! is told, the block is handed to state sync, the blob for the next height is
//! prepared, and only then does the controller move on.

use vstd::prelude::*;
use crate::types::{BlockHash, ConsensusBlockInfo};

verus! {

/// Where the handling of a decision stands: each phase but the last two names
/// the action whose outcome is awaited.
#[derive(Clone, Copy, Debug, PartialEq, Eq)]
pub enum DecisionPhase {
    NotifyingBatcher,
    AddingBlock,
    PreparingBlob,
    Committed,
    Failed,
}

/// What the embedding program reports while a decision is handled.
#[derive(Clone, Copy, Debug, PartialEq, Eq)]
pub enum DecisionEvent {
    /// The batcher took note of the decision.
    BatcherDecided,
    /// State sync took the block.
    BlockAdded,
    /// The blob store took the artifacts of the block.
    BlobPrepared,
    /// The collaborator that was called failed.
    CollaboratorFailed,
}

/// What the embedding program is asked to do for a decision.
#[derive(Clone, Copy, Debug, PartialEq, Eq)]
pub enum DecisionAction {
    /// Tell the batcher which proposal was decided.
    NotifyBatcher { block_hash: BlockHash },
    /// Hand the block to state sync, its header made from `block_info`.
    AddNewBlock { block_info: ConsensusBlockInfo },
    /// Hand the artifacts of the block to the blob store.
    PrepareBlob { block_info: ConsensusBlockInfo },
    /// Set the gauge of the L2 gas price and let the controller move on.
    Commit { l2_gas_price_fri: u128 },
    /// Report a fatal failure to the engine.
    Fail,
    /// The handling is over: do nothing.
    Ignore,
}

/// The handling of one decision.
#[derive(Clone, Copy, Debug, PartialEq, Eq)]
pub struct DecisionPipeline {
    pub block_hash: BlockHash,
    pub block_info: ConsensusBlockInfo,
    pub phase: DecisionPhase,
}

/// The rule of the handling: the phase and the action that follow `event`.
pub open spec fn decision_step(
    block_info: ConsensusBlockInfo,
    phase: DecisionPhase,
    event: DecisionEvent,
) -> (DecisionPhase, DecisionAction) {
    match (phase, event) {
        (DecisionPhase::Committed, _) => (phase, DecisionAction::Ignore),
        (DecisionPhase::Failed, _) => (phase, DecisionAction::Ignore),
        (DecisionPhase::NotifyingBatcher, DecisionEvent::BatcherDecided) => (
            DecisionPhase::AddingBlock,
            DecisionAction::AddNewBlock { block_info },
        ),
        (DecisionPhase::AddingBlock, DecisionEvent::BlockAdded) => (
            DecisionPhase::PreparingBlob,
            DecisionAction::PrepareBlob { block_info },
        ),
        (DecisionPhase::PreparingBlob, DecisionEvent::BlobPrepared) => (
            DecisionPhase::Committed,
            DecisionAction::Commit { l2_gas_price_fri: block_info.l2_gas_price_fri },
        ),
        _ => (DecisionPhase::Failed, DecisionAction::Fail),
    }
}

impl DecisionPipeline {
    /// Starts the handling of the decision on the proposal under `block_hash`,
    /// whose block info is `block_info`: the batcher is told first.
    pub fn start(block_hash: BlockHash, block_info: ConsensusBlockInfo) -> (started: (
        DecisionPipeline,
        DecisionAction,
    ))
        ensures
            started.0 == (DecisionPipeline {
                block_hash,
                block_info,
                phase: DecisionPhase::NotifyingBatcher,
            }),
            started.1 == (DecisionAction::NotifyBatcher { block_hash }),
    {
        (
            DecisionPipeline { block_hash, block_info, phase: DecisionPhase::NotifyingBatcher },
            DecisionAction::NotifyBatcher { block_hash },
        )
    }

    /// Takes the outcome of the last action and decides the next one.
    pub fn on_event(&mut self, event: DecisionEvent) -> (action: DecisionAction)
        ensures
            final(self).block_hash == old(self).block_hash,
            final(self).block_info == old(self).block_info,
            (final(self).phase, action) == decision_step(
                old(self).block_info,
                old(self).phase,
                event,
            ),
    {
        let block_info = self.block_info;
        match (self.phase, event) {
            (DecisionPhase::Committed, _) => DecisionAction::Ignore,
            (DecisionPhase::Failed, _) => DecisionAction::Ignore,
            (DecisionPhase::NotifyingBatcher, DecisionEvent::BatcherDecided) => {
                self.phase = DecisionPhase::AddingBlock;
                DecisionAction::AddNewBlock { block_info }
            },
            (DecisionPhase::AddingBlock, DecisionEvent::BlockAdded) => {
                self.phase = DecisionPhase::PreparingBlob;
                DecisionAction::PrepareBlob { block_info }
            },
            (DecisionPhase::PreparingBlob, DecisionEvent::BlobPrepared) => {
                self.phase = DecisionPhase::Committed;
                DecisionAction::Commit { l2_gas_price_fri: block_info.l2_gas_price_fri }
            },
            _ => {
                self.phase = DecisionPhase::Failed;
                DecisionAction::Fail
            },
        }
    }
}

/// The phase after a sequence of events, from the start.
pub open spec fn decision_after(block_info: ConsensusBlockInfo, events: Seq<DecisionEvent>)
    -> DecisionPhase
    decreases events.len(),
{
    if events.len() == 0 {
        DecisionPhase::NotifyingBatcher
    } else {
        decision_step(block_info, decision_after(block_info, events.drop_last()), events.last()).0
    }
}

/// The block handed to state sync carries the timestamp of the decided
/// proposal's block info, whatever the clock shows; and the gauge is set to
/// that block info's L2 gas price.
pub proof fn lemma_decision_uses_cached_values(
    block_info: ConsensusBlockInfo,
    phase: DecisionPhase,
    event: DecisionEvent,
)
    ensures
        ({
            let action = decision_step(block_info, phase, event).1;
            &&& action is AddNewBlock ==> action->AddNewBlock_block_info.timestamp
                == block_info.timestamp
            &&& action is Commit ==> action->l2_gas_price_fri == block_info.l2_gas_price_fri
        }),
{
}

/// The handling commits only after the batcher, state sync and the blob store
/// have each succeeded, in this order, with nothing in between.
pub proof fn lemma_commit_needs_all_three(block_info: ConsensusBlockInfo, events: Seq<DecisionEvent>)
    ensures
        decision_after(block_info, events) == DecisionPhase::Committed ==> events.len() >= 3
            && events.take(3) == seq![
            DecisionEvent::BatcherDecided,
            DecisionEvent::BlockAdded,
            DecisionEvent::BlobPrepared,
        ],
        decision_after(block_info, events) == DecisionPhase::PreparingBlob ==> events == seq![
            DecisionEvent::BatcherDecided,
            DecisionEvent::BlockAdded,
        ],
        decision_after(block_info, events) == DecisionPhase::AddingBlock ==> events == seq![
            DecisionEvent::BatcherDecided,
        ],
        decision_after(block_info, events) == DecisionPhase::NotifyingBatcher ==> events.len()
            == 0,
    decreases events.len(),
{
    if events.len() > 0 {
        let before = events.drop_last();
        lemma_commit_needs_all_three(block_info, before);
        let phase = decision_after(block_info, before);
        let next = decision_after(block_info, events);
        assert(events =~= before.push(events.last()));
        if next == DecisionPhase::Committed {
            if phase == DecisionPhase::Committed {
                assert(events.take(3) =~= before.take(3));
            } else {
                assert(phase == DecisionPhase::PreparingBlob);
                assert(events.take(3) =~= events);
            }
        }
    }
}

} // verus!

//! The height and round controller: what the consensus engine talks to.
//!
//! It owns the one active proposal and the proposals accepted at the current
//! height. The embedding program keeps, for each proposal identifier that the
//! controller hands out, the promise of that proposal, and completes it as the
//! controller says.

use vstd::prelude::*;
use crate::config::{shorten, shortened, ContextConfig};
use crate::decision::{
    decision_after,
    lemma_commit_needs_all_three,
    DecisionAction,
    DecisionEvent,
    DecisionPhase,
    DecisionPipeline,
};
use crate::proposer::{
    build_initial,
    build_step,
    built_proposal,
    BuildAction,
    BuildActionModel,
    BuildEvent,
    BuildPipeline,
    BuildPhase,
    PipelineSetup,
};
use crate::gas_price::{assembled, PriceInfo, PricedBlock};
use crate::store::{AcceptedModel, ProposalStore};
use crate::stream::{encode_proposal, stream_of};
use crate::types::{
    parts_model,
    BlockHash,
    BlockNumber,
    ConsensusBlockInfo,
    ContractAddress,
    L1DataAvailabilityMode,
    ProposalInit,
    ProposalPart,
    Round,
};
use crate::validator::{
    validate_initial,
    validate_step,
    validated_proposal,
    ValidateAction,
    ValidateActionModel,
    ValidateEvent,
    ValidatePhase,
    ValidatePipeline,
};

verus! {

/// The one proposal that the controller works on.
pub enum ActiveProposal {
    Builder(BuildPipeline),
    Validator(ValidatePipeline),
}

/// Which side of a proposal this node is on.
#[derive(Clone, Copy, Debug, PartialEq, Eq)]
pub enum ProposalRole {
    Builder,
    Validator,
}

/// Why the controller refuses a call.
#[derive(Clone, Copy, Debug, PartialEq, Eq)]
pub enum ControllerError {
    /// A minimum price of the options exceeds its maximum.
    InvalidConfig,
    /// The height and round asked for lie before the current ones.
    Regression,
    /// The call names a height or round other than the current one.
    NotCurrent,
    /// No accepted proposal stands under the block hash.
    UnknownProposal,
    /// The handling of the decision has not committed, or is of another
    /// block info than the accepted proposal.
    DecisionNotHandled,
    /// Every proposal identifier has been handed out.
    ProposalIdsExhausted,
    /// No height follows the current one.
    HeightExhausted,
}

/// What a change of height or round did.
#[derive(Clone, Copy, Debug, PartialEq, Eq)]
pub struct Transition {
    /// The proposal that was cancelled: its promise completes as cancelled.
    pub cancelled: Option<u64>,
    /// Whether the accepted proposals were forgotten.
    pub store_cleared: bool,
}

/// A build that the controller has installed.
#[derive(Clone, Debug, PartialEq, Eq)]
pub struct BuildStart {
    /// The identifier under which events of this build are reported.
    pub proposal_id: u64,
    /// The proposal that this one replaced: its promise completes as cancelled.
    pub preempted: Option<u64>,
    /// The first thing to do.
    pub action: BuildAction,
}

/// What the controller does with an incoming proposal.
#[derive(Clone, Debug, PartialEq, Eq)]
pub enum ValidateStart {
    /// The validation is installed.
    Started { proposal_id: u64, preempted: Option<u64>, action: ValidateAction },
    /// The proposal is of a past round: its promise completes as cancelled.
    PastRound,
    /// The proposal is of a future round: it is dropped, and its promise
    /// never completes.
    FutureRound,
}

/// What a decision leaves behind.
#[derive(Clone, Copy, Debug, PartialEq, Eq)]
pub struct Decision {
    /// The block info of the decided block: the header of the block handed to
    /// state sync carries its timestamp.
    pub block_info: ConsensusBlockInfo,
    /// The raw blob fee that the data gas price of the decided block was
    /// derived from.
    pub raw_blob_fee: u128,
    /// The value for the gauge of the L2 gas price.
    pub l2_gas_price_fri: u128,
    /// The proposal that was still active: its promise completes as cancelled.
    pub cancelled: Option<u64>,
}

/// The state of the consensus context.
pub struct Controller {
    pub config: ContextConfig,
    pub current_height: BlockNumber,
    pub current_round: Round,
    pub active: Option<ActiveProposal>,
    pub store: ProposalStore,
    /// The last committed block: its block info beside the raw blob fee that
    /// its data gas price was derived from.
    pub last_block: Option<PricedBlock>,
    pub next_proposal_id: u64,
}

/// Whether `first` is at most `second`, by height and then by round.
pub open spec fn precedes(first: (BlockNumber, Round), second: (BlockNumber, Round)) -> bool {
    first.0.0 < second.0.0 || (first.0.0 == second.0.0 && first.1 <= second.1)
}

impl ActiveProposal {
    /// The setup of the pipeline.
    pub open spec fn setup(&self) -> PipelineSetup {
        match self {
            ActiveProposal::Builder(pipeline) => pipeline.setup,
            ActiveProposal::Validator(pipeline) => pipeline.setup,
        }
    }

    /// The pipeline is in a reachable state and not over.
    pub open spec fn wf(&self) -> bool {
        match self {
            ActiveProposal::Builder(pipeline) => pipeline.wf() && pipeline.phase
                != BuildPhase::Done && pipeline.phase != BuildPhase::Cancelled,
            ActiveProposal::Validator(pipeline) => pipeline.wf() && pipeline.phase
                != ValidatePhase::Done && pipeline.phase != ValidatePhase::Cancelled,
        }
    }

    /// The side that this node is on.
    pub fn role(&self) -> (role: ProposalRole)
        ensures
            role == ProposalRole::Builder <==> self is Builder,
            role == ProposalRole::Validator <==> self is Validator,
    {
        match self {
            ActiveProposal::Builder(_) => ProposalRole::Builder,
            ActiveProposal::Validator(_) => ProposalRole::Validator,
        }
    }

    /// The deadline handed to the batcher, in milliseconds.
    pub fn deadline_ms(&self) -> (deadline: u64)
        ensures
            deadline == self.setup().deadline_ms,
    {
        match self {
            ActiveProposal::Builder(pipeline) => pipeline.setup.deadline_ms,
            ActiveProposal::Validator(pipeline) => pipeline.setup.deadline_ms,
        }
    }

    /// The identifier of the proposal.
    pub fn proposal_id(&self) -> (id: u64)
        ensures
            id == self.setup().proposal_id,
    {
        match self {
            ActiveProposal::Builder(pipeline) => pipeline.setup.proposal_id,
            ActiveProposal::Validator(pipeline) => pipeline.setup.proposal_id,
        }
    }
}

impl Controller {
    /// The current height and round.
    pub open spec fn position(&self) -> (BlockNumber, Round) {
        (self.current_height, self.current_round)
    }

    /// The identifier of the active proposal, if there is one.
    pub open spec fn active_id(&self) -> Option<u64> {
        match self.active {
            Some(active) => Some(active.setup().proposal_id),
            None => None,
        }
    }

    /// Whether the active proposal is a build under `proposal_id`.
    pub open spec fn building(&self, proposal_id: u64) -> bool {
        self.active matches Some(ActiveProposal::Builder(pipeline)) && pipeline.setup.proposal_id
            == proposal_id
    }

    /// Whether the active proposal is a validation under `proposal_id`.
    pub open spec fn validating(&self, proposal_id: u64) -> bool {
        self.active matches Some(ActiveProposal::Validator(pipeline))
            && pipeline.setup.proposal_id == proposal_id
    }

    /// The active build.
    pub open spec fn builder(&self) -> BuildPipeline {
        self.active->Some_0->Builder_0
    }

    /// The active validation.
    pub open spec fn validator(&self) -> ValidatePipeline {
        self.active->Some_0->Validator_0
    }

    /// The setup that a proposal started now is given.
    pub open spec fn setup_for(&self, init: ProposalInit, margin_ms: u64, timeout_ms: u64) -> PipelineSetup {
        PipelineSetup {
            params: self.config.params(),
            previous: self.last_block,
            l1_da_mode: self.config.l1_da_mode,
            init,
            proposal_id: self.next_proposal_id,
            deadline_ms: shortened(timeout_ms, margin_ms),
        }
    }

    /// The options are sound, and the active proposal, if any, is of the
    /// current height and round, is not over, and bears an identifier that
    /// will not be handed out again. Every accepted
    /// proposal and the last committed block bear prices that the options
    /// lead to from the raw blob fee kept beside them.
    pub open spec fn wf(&self) -> bool {
        &&& self.config.params().ordered()
        &&& forall|hash: BlockHash| #[trigger]
            self.store@.contains_key(hash) ==> self.config.params().priced_by(
                self.store@[hash].block(),
            )
        &&& self.last_block.is_some() ==> self.config.params().priced_by(self.last_block.unwrap())
        &&& match self.active {
            Some(active) => {
                &&& active.wf()
                &&& active.setup().params == self.config.params()
                &&& active.setup().init.height == self.current_height
                &&& active.setup().init.round == self.current_round
                &&& active.setup().proposal_id < self.next_proposal_id
            },
            None => true,
        }
    }

    /// A controller at height zero, round zero, with nothing active and
    /// nothing accepted. Refused where the options are unsound.
    pub fn new(config: ContextConfig) -> (result: Result<Controller, ControllerError>)
        ensures
            result.is_ok() <==> config.params().ordered(),
            result.is_err() ==> result == Err::<Controller, ControllerError>(
                ControllerError::InvalidConfig,
            ),
            result.is_ok() ==> {
                let controller = result.unwrap();
                &&& controller.wf()
                &&& controller.config == config
                &&& controller.position() == (BlockNumber(0), 0u32)
                &&& controller.active.is_none()
                &&& controller.store@ == Map::<BlockHash, AcceptedModel>::empty()
                &&& controller.last_block.is_none()
                &&& controller.next_proposal_id == 0
            },
    {
        if !config.gas_price_params().is_ordered() {
            return Err(ControllerError::InvalidConfig);
        }
        Ok(
            Controller {
                config,
                current_height: BlockNumber(0),
                current_round: 0,
                active: None,
                store: ProposalStore::new(),
                last_block: None,
                next_proposal_id: 0,
            },
        )
    }

    /// The current height.
    pub fn height(&self) -> (height: BlockNumber)
        ensures
            height == self.current_height,
    {
        self.current_height
    }

    /// The current round.
    pub fn round(&self) -> (round: Round)
        ensures
            round == self.current_round,
    {
        self.current_round
    }

    /// The identifier of the active proposal, if there is one.
    pub fn active_proposal_id(&self) -> (id: Option<u64>)
        ensures
            id == self.active_id(),
    {
        match &self.active {
            Some(active) => Some(active.proposal_id()),
            None => None,
        }
    }

    /// Drops the active proposal and names it.
    fn cancel_active(&mut self) -> (cancelled: Option<u64>)
        ensures
            cancelled == old(self).active_id(),
            final(self).active.is_none(),
            final(self).config == old(self).config,
            final(self).current_height == old(self).current_height,
            final(self).current_round == old(self).current_round,
            final(self).store == old(self).store,
            final(self).last_block == old(self).last_block,
            final(self).next_proposal_id == old(self).next_proposal_id,
    {
        let cancelled = self.active_proposal_id();
        self.active = None;
        cancelled
    }

    /// Moves to `height` and `round`.
    ///
    /// A move backwards is refused and changes nothing. A move to the current
    /// position changes nothing. A move forwards cancels the active proposal
    /// and, where the height grows, forgets the accepted proposals.
    pub fn set_height_and_round(&mut self, height: BlockNumber, round: Round) -> (result: Result<
        Transition,
        ControllerError,
    >)
        requires
            old(self).wf(),
        ensures
            final(self).wf(),
            result.is_ok() <==> precedes(old(self).position(), (height, round)),
            precedes(old(self).position(), final(self).position()),
            match result {
                Err(error) => error == ControllerError::Regression && *final(self) == *old(self),
                Ok(transition) => {
                    &&& final(self).position() == (height, round)
                    &&& final(self).config == old(self).config
                    &&& final(self).last_block == old(self).last_block
                    &&& final(self).next_proposal_id == old(self).next_proposal_id
                    &&& if (height, round) == old(self).position() {
                        &&& *final(self) == *old(self)
                        &&& transition == (Transition { cancelled: None, store_cleared: false })
                    } else {
                        &&& final(self).active.is_none()
                        &&& transition.cancelled == old(self).active_id()
                        &&& transition.store_cleared == (height.0 > old(self).current_height.0)
                        &&& final(self).store@ == if transition.store_cleared {
                            Map::<BlockHash, AcceptedModel>::empty()
                        } else {
                            old(self).store@
                        }
                    }
                },
            },
    {
        let current = self.current_height.0;
        if height.0 < current || (height.0 == current && round < self.current_round) {
            return Err(ControllerError::Regression);
        }
        if height.0 == current && round == self.current_round {
            return Ok(Transition { cancelled: None, store_cleared: false });
        }
        let cancelled = self.cancel_active();
        let store_cleared = height.0 > current;
        if store_cleared {
            self.store.clear();
        }
        self.current_height = height;
        self.current_round = round;
        Ok(Transition { cancelled, store_cleared })
    }

    /// Installs a build for the current height and round, in place of the
    /// active proposal, if any.
    pub fn build_proposal(&mut self, init: ProposalInit, timeout_ms: u64) -> (result: Result<
        BuildStart,
        ControllerError,
    >)
        requires
            old(self).wf(),
        ensures
            final(self).wf(),
            final(self).config == old(self).config,
            final(self).position() == old(self).position(),
            final(self).store@ == old(self).store@,
            final(self).last_block == old(self).last_block,
            match result {
                Err(error) => {
                    &&& *final(self) == *old(self)
                    &&& error == if (init.height, init.round) != old(self).position() {
                        ControllerError::NotCurrent
                    } else {
                        ControllerError::ProposalIdsExhausted
                    }
                },
                Ok(start) => {
                    &&& start.proposal_id == old(self).next_proposal_id
                    &&& start.preempted == old(self).active_id()
                    &&& start.action@ == (BuildActionModel::StartHeight { height: init.height })
                    &&& final(self).next_proposal_id == old(self).next_proposal_id + 1
                    &&& final(self).building(start.proposal_id)
                    &&& final(self).builder()@ == build_initial()
                    &&& final(self).builder().setup == old(self).setup_for(
                        init,
                        old(self).config.build_proposal_margin_ms,
                        timeout_ms,
                    )
                },
            },
            result.is_ok() <==> (init.height, init.round) == old(self).position() && old(self).next_proposal_id < u64::MAX,
    {
        if init.height.0 != self.current_height.0 || init.round != self.current_round {
            return Err(ControllerError::NotCurrent);
        }
        if self.next_proposal_id == u64::MAX {
            return Err(ControllerError::ProposalIdsExhausted);
        }
        let setup = PipelineSetup {
            params: self.config.gas_price_params(),
            previous: self.last_block,
            l1_da_mode: self.config.l1_da_mode,
            init,
            proposal_id: self.next_proposal_id,
            deadline_ms: shorten(timeout_ms, self.config.build_proposal_margin_ms),
        };
        let preempted = self.cancel_active();
        let (pipeline, action) = BuildPipeline::start(setup);
        self.active = Some(ActiveProposal::Builder(pipeline));
        self.next_proposal_id = self.next_proposal_id + 1;
        Ok(BuildStart { proposal_id: setup.proposal_id, preempted, action })
    }

    /// Takes an incoming proposal: installs its validation where it is of the
    /// current round, in place of the active proposal, if any; turns it away
    /// where it is of a past round; drops it where it is of a future round.
    pub fn validate_proposal(&mut self, init: ProposalInit, timeout_ms: u64) -> (result: Result<
        ValidateStart,
        ControllerError,
    >)
        requires
            old(self).wf(),
        ensures
            final(self).wf(),
            final(self).config == old(self).config,
            final(self).position() == old(self).position(),
            final(self).store@ == old(self).store@,
            final(self).last_block == old(self).last_block,
            match result {
                Err(error) => {
                    &&& *final(self) == *old(self)
                    &&& error == if init.height != old(self).current_height {
                        ControllerError::NotCurrent
                    } else {
                        ControllerError::ProposalIdsExhausted
                    }
                },
                Ok(ValidateStart::PastRound) => {
                    &&& *final(self) == *old(self)
                    &&& init.round < old(self).current_round
                },
                Ok(ValidateStart::FutureRound) => {
                    &&& *final(self) == *old(self)
                    &&& init.round > old(self).current_round
                },
                Ok(ValidateStart::Started { proposal_id, preempted, action }) => {
                    &&& init.round == old(self).current_round
                    &&& proposal_id == old(self).next_proposal_id
                    &&& preempted == old(self).active_id()
                    &&& action@ == (ValidateActionModel::StartHeight { height: init.height })
                    &&& final(self).next_proposal_id == old(self).next_proposal_id + 1
                    &&& final(self).validating(proposal_id)
                    &&& final(self).validator()@ == validate_initial()
                    &&& final(self).validator().setup == old(self).setup_for(
                        init,
                        old(self).config.validate_proposal_margin_ms,
                        timeout_ms,
                    )
                },
            },
            result.is_ok() <==> init.height == old(self).current_height && (init.round != old(self).current_round || old(self).next_proposal_id < u64::MAX),
    {
        if init.height.0 != self.current_height.0 {
            return Err(ControllerError::NotCurrent);
        }
        if init.round < self.current_round {
            return Ok(ValidateStart::PastRound);
        }
        if init.round > self.current_round {
            return Ok(ValidateStart::FutureRound);
        }
        if self.next_proposal_id == u64::MAX {
            return Err(ControllerError::ProposalIdsExhausted);
        }
        let setup = PipelineSetup {
            params: self.config.gas_price_params(),
            previous: self.last_block,
            l1_da_mode: self.config.l1_da_mode,
            init,
            proposal_id: self.next_proposal_id,
            deadline_ms: shorten(timeout_ms, self.config.validate_proposal_margin_ms),
        };
        let preempted = self.cancel_active();
        let (pipeline, action) = ValidatePipeline::start(setup);
        self.active = Some(ActiveProposal::Validator(pipeline));
        self.next_proposal_id = self.next_proposal_id + 1;
        Ok(ValidateStart::Started { proposal_id: setup.proposal_id, preempted, action })
    }

    /// Whether the active proposal is a build under `proposal_id`.
    pub fn is_building(&self, proposal_id: u64) -> (yes: bool)
        ensures
            yes == self.building(proposal_id),
    {
        match &self.active {
            Some(ActiveProposal::Builder(pipeline)) => pipeline.setup.proposal_id == proposal_id,
            _ => false,
        }
    }

    /// Whether the active proposal is a validation under `proposal_id`.
    pub fn is_validating(&self, proposal_id: u64) -> (yes: bool)
        ensures
            yes == self.validating(proposal_id),
    {
        match &self.active {
            Some(ActiveProposal::Validator(pipeline)) => pipeline.setup.proposal_id == proposal_id,
            _ => false,
        }
    }

    /// Hands an event to the build under `proposal_id` and returns what to do.
    ///
    /// Where that build is not the active proposal, the event is ignored and
    /// nothing changes. Otherwise the build takes its step. Where it resolves,
    /// its proposal is stored under the hash it resolves to, and nothing is
    /// active any more; where it aborts, nothing is active any more.
    pub fn on_build_event(&mut self, proposal_id: u64, event: BuildEvent) -> (action: BuildAction)
        requires
            old(self).wf(),
        ensures
            final(self).wf(),
            final(self).config == old(self).config,
            final(self).position() == old(self).position(),
            final(self).last_block == old(self).last_block,
            final(self).next_proposal_id == old(self).next_proposal_id,
            !old(self).building(proposal_id) ==> action@ == BuildActionModel::Ignore && *final(self)
                == *old(self),
            old(self).building(proposal_id) ==> {
                let (next, expected) = build_step(
                    old(self).builder().setup,
                    old(self).builder()@,
                    event@,
                );
                &&& action@ == expected
                &&& match expected {
                    BuildActionModel::Resolve(hash) => {
                        &&& final(self).active.is_none()
                        &&& final(self).store@ == old(self).store@.insert(
                            hash,
                            AcceptedModel {
                                proposal: built_proposal(next),
                                raw_blob_fee: next.raw_blob_fee,
                            },
                        )
                    },
                    BuildActionModel::Abort => {
                        &&& final(self).active.is_none()
                        &&& final(self).store@ == old(self).store@
                    },
                    _ => {
                        &&& final(self).building(proposal_id)
                        &&& final(self).builder()@ == next
                        &&& final(self).builder().setup == old(self).builder().setup
                        &&& final(self).store@ == old(self).store@
                    },
                }
            },
    {
        if !self.is_building(proposal_id) {
            return BuildAction::Ignore;
        }
        match self.active.take() {
            Some(ActiveProposal::Builder(mut pipeline)) => {
                let action = pipeline.on_event(event);
                match &action {
                    BuildAction::Resolve(_) => {
                        let (hash, proposal) = pipeline.built();
                        self.store.insert(hash, proposal, pipeline.raw_blob_fee);
                    },
                    BuildAction::Abort => {},
                    _ => {
                        self.active = Some(ActiveProposal::Builder(pipeline));
                    },
                }
                action
            },
            _ => BuildAction::Ignore,
        }
    }

    /// Hands an event to the validation under `proposal_id` and returns what
    /// to do.
    ///
    /// Where that validation is not the active proposal, the event is ignored
    /// and nothing changes. Otherwise the validation takes its step. Where it
    /// resolves, its proposal is stored under the hash it resolves to, and
    /// nothing is active any more; where it aborts, nothing is active any more.
    pub fn on_validate_event(&mut self, proposal_id: u64, event: ValidateEvent) -> (action:
        ValidateAction)
        requires
            old(self).wf(),
        ensures
            final(self).wf(),
            final(self).config == old(self).config,
            final(self).position() == old(self).position(),
            final(self).last_block == old(self).last_block,
            final(self).next_proposal_id == old(self).next_proposal_id,
            !old(self).validating(proposal_id) ==> action@ == ValidateActionModel::Ignore && *final(self) == *old(self),
            old(self).validating(proposal_id) ==> {
                let (next, expected) = validate_step(
                    old(self).validator().setup,
                    old(self).validator()@,
                    event@,
                );
                &&& action@ == expected
                &&& match expected {
                    ValidateActionModel::Resolve(hash) => {
                        &&& final(self).active.is_none()
                        &&& final(self).store@ == old(self).store@.insert(
                            hash,
                            AcceptedModel {
                                proposal: validated_proposal(next),
                                raw_blob_fee: next.raw_blob_fee,
                            },
                        )
                    },
                    ValidateActionModel::Abort => {
                        &&& final(self).active.is_none()
                        &&& final(self).store@ == old(self).store@
                    },
                    _ => {
                        &&& final(self).validating(proposal_id)
                        &&& final(self).validator()@ == next
                        &&& final(self).validator().setup == old(self).validator().setup
                        &&& final(self).store@ == old(self).store@
                    },
                }
            },
    {
        if !self.is_validating(proposal_id) {
            return ValidateAction::Ignore;
        }
        match self.active.take() {
            Some(ActiveProposal::Validator(mut pipeline)) => {
                let action = pipeline.on_event(event);
                match &action {
                    ValidateAction::Resolve(_) => {
                        let (hash, proposal) = pipeline.validated();
                        self.store.insert(hash, proposal, pipeline.raw_blob_fee);
                    },
                    ValidateAction::Abort => {},
                    _ => {
                        self.active = Some(ActiveProposal::Validator(pipeline));
                    },
                }
                action
            },
            _ => ValidateAction::Ignore,
        }
    }

    /// The parts that send the accepted proposal under `block_hash` again,
    /// opened by `init`: the block info, the batches and the closing part are
    /// those of the first sending.
    pub fn repropose(&self, block_hash: BlockHash, init: ProposalInit) -> (result: Result<
        Vec<ProposalPart>,
        ControllerError,
    >)
        requires
            self.wf(),
        ensures
            result.is_ok() <==> self.store@.contains_key(block_hash),
            match result {
                Ok(parts) => parts_model(parts@) == stream_of(
                    init,
                    self.store@[block_hash].proposal,
                ),
                Err(error) => error == ControllerError::UnknownProposal,
            },
    {
        match self.store.get(&block_hash) {
            Some(entry) => Ok(encode_proposal(init, &entry.proposal)),
            None => Err(ControllerError::UnknownProposal),
        }
    }

    /// Begins the handling of the decision on the accepted proposal under
    /// `block_hash` at `height`. Nothing changes yet: the controller moves on
    /// with `decision_reached`, once the handling has committed.
    pub fn begin_decision(&self, block_hash: BlockHash, height: BlockNumber) -> (result: Result<
        (DecisionPipeline, DecisionAction),
        ControllerError,
    >)
        requires
            self.wf(),
        ensures
            result.is_ok() <==> height == self.current_height && self.store@.contains_key(
                block_hash,
            ),
            match result {
                Ok((pipeline, action)) => {
                    &&& pipeline == (DecisionPipeline {
                        block_hash,
                        block_info: self.store@[block_hash].proposal.block_info,
                        phase: DecisionPhase::NotifyingBatcher,
                    })
                    &&& action == (DecisionAction::NotifyBatcher { block_hash })
                },
                Err(error) => error == if height != self.current_height {
                    ControllerError::NotCurrent
                } else {
                    ControllerError::UnknownProposal
                },
            },
    {
        if height.0 != self.current_height.0 {
            return Err(ControllerError::NotCurrent);
        }
        match self.store.get(&block_hash) {
            Some(entry) => Ok(DecisionPipeline::start(block_hash, entry.proposal.block_info)),
            None => Err(ControllerError::UnknownProposal),
        }
    }

    /// Whether `handling` is the finished handling of the decision on an
    /// accepted proposal: it has committed, and it bears the block info that
    /// stands in the store under its block hash.
    pub open spec fn handled(&self, handling: DecisionPipeline) -> bool {
        &&& self.store@.contains_key(handling.block_hash)
        &&& handling.phase == DecisionPhase::Committed
        &&& handling.block_info == self.store@[handling.block_hash].proposal.block_info
    }

    /// Commits a decision at `height` whose handling has committed: moves to
    /// the next height, round zero, forgets the accepted proposals, drops the
    /// active proposal, and keeps the block info of the decided block, beside
    /// the raw blob fee that its data gas price was derived from, for the
    /// prices of later blocks.
    ///
    /// Refused, with nothing changed, where `height` is not the current one,
    /// where no accepted proposal stands under the block hash, where the
    /// handling has not committed or is of another block info, and where no
    /// height follows.
    pub fn decision_reached(&mut self, handling: &DecisionPipeline, height: BlockNumber) -> (result:
        Result<Decision, ControllerError>)
        requires
            old(self).wf(),
        ensures
            final(self).wf(),
            precedes(old(self).position(), final(self).position()),
            final(self).config == old(self).config,
            final(self).next_proposal_id == old(self).next_proposal_id,
            match result {
                Err(error) => {
                    &&& *final(self) == *old(self)
                    &&& error == if height != old(self).current_height {
                        ControllerError::NotCurrent
                    } else if !old(self).store@.contains_key(handling.block_hash) {
                        ControllerError::UnknownProposal
                    } else if !old(self).handled(*handling) {
                        ControllerError::DecisionNotHandled
                    } else {
                        ControllerError::HeightExhausted
                    }
                },
                Ok(decision) => {
                    &&& decision.block_info == old(self).store@[handling.block_hash].proposal.block_info
                    &&& decision.raw_blob_fee == old(self).store@[handling.block_hash].raw_blob_fee
                    &&& decision.l2_gas_price_fri == decision.block_info.l2_gas_price_fri
                    &&& decision.cancelled == old(self).active_id()
                    &&& final(self).position() == (BlockNumber((height.0 + 1) as u64), 0u32)
                    &&& final(self).active.is_none()
                    &&& final(self).store@ == Map::<BlockHash, AcceptedModel>::empty()
                    &&& final(self).last_block == Some(
                        PricedBlock {
                            block_info: decision.block_info,
                            raw_blob_fee: decision.raw_blob_fee,
                        },
                    )
                },
            },
            result.is_ok() <==> height == old(self).current_height && old(self).handled(*handling)
                && height.0 < u64::MAX,
    {
        if height.0 != self.current_height.0 {
            return Err(ControllerError::NotCurrent);
        }
        let (block_info, raw_blob_fee) = match self.store.get(&handling.block_hash) {
            Some(entry) => (entry.proposal.block_info, entry.raw_blob_fee),
            None => {
                return Err(ControllerError::UnknownProposal);
            },
        };
        let committed = match handling.phase {
            DecisionPhase::Committed => true,
            _ => false,
        };
        if !committed || !handling.block_info.same(&block_info) {
            return Err(ControllerError::DecisionNotHandled);
        }
        if height.0 == u64::MAX {
            return Err(ControllerError::HeightExhausted);
        }
        let cancelled = self.cancel_active();
        self.store.clear();
        self.current_height = BlockNumber(height.0 + 1);
        self.current_round = 0;
        self.last_block = Some(PricedBlock { block_info, raw_blob_fee });
        Ok(
            Decision {
                block_info,
                raw_blob_fee,
                l2_gas_price_fri: block_info.l2_gas_price_fri,
                cancelled,
            },
        )
    }
}

/// At most one proposal is active: two identifiers under which the controller
/// takes events are the same identifier, and it was handed out before.
pub proof fn lemma_single_active(controller: Controller, first: u64, second: u64)
    requires
        controller.wf(),
        controller.building(first) || controller.validating(first),
        controller.building(second) || controller.validating(second),
    ensures
        first == second,
        controller.active_id() == Some(first),
        first < controller.next_proposal_id,
        !(controller.building(first) && controller.validating(first)),
{
}

/// The order of positions is total, and `precedes` is reflexive and
/// transitive: positions that only move by `precedes` never come back.
pub proof fn lemma_precedes_is_an_order(
    first: (BlockNumber, Round),
    second: (BlockNumber, Round),
    third: (BlockNumber, Round),
)
    ensures
        precedes(first, first),
        precedes(first, second) || precedes(second, first),
        precedes(first, second) && precedes(second, third) ==> precedes(first, third),
        precedes(first, second) && precedes(second, first) ==> first == second,
{
}

/// With an oracle out, a block priced after a decision carries the prices of
/// the decided block: its rate, its L1 gas price and its data gas price, which
/// is the one that the raw blob fee of the decided block leads to.
pub proof fn lemma_outage_keeps_decided_prices(
    controller: Controller,
    height: BlockNumber,
    timestamp: u64,
    builder: ContractAddress,
    l1_da_mode: L1DataAvailabilityMode,
    prices: Option<PriceInfo>,
    rate: Option<u128>,
)
    requires
        controller.wf(),
        controller.last_block.is_some(),
        prices.is_none() || rate.is_none(),
    ensures
        ({
            let decided = controller.last_block.unwrap();
            let info = assembled(
                controller.config.params(),
                height,
                timestamp,
                builder,
                l1_da_mode,
                prices,
                rate,
                controller.last_block,
            );
            &&& info.eth_to_fri_rate == decided.block_info.eth_to_fri_rate
            &&& info.l1_gas_price_wei == decided.block_info.l1_gas_price_wei
            &&& info.l1_data_gas_price_wei == decided.block_info.l1_data_gas_price_wei
            &&& info.l1_data_gas_price_wei == controller.config.params().data_gas_price_for(
                decided.raw_blob_fee,
            )
        }),
{
    crate::gas_price::lemma_previous_reused(
        controller.config.params(),
        height,
        timestamp,
        builder,
        l1_da_mode,
        prices,
        rate,
        controller.last_block.unwrap(),
    );
}

/// The controller moves to the next height only after the batcher, state
/// sync and the blob store have each taken the decision, in this order: a
/// handling that `decision_reached` accepts has, from its start, seen those
/// three outcomes first.
pub proof fn lemma_decision_waits_for_collaborators(
    controller: Controller,
    block_info: ConsensusBlockInfo,
    block_hash: BlockHash,
    events: Seq<DecisionEvent>,
)
    requires
        controller.handled(
            DecisionPipeline {
                block_hash,
                block_info,
                phase: decision_after(block_info, events),
            },
        ),
    ensures
        events.len() >= 3,
        events.take(3) == seq![
            DecisionEvent::BatcherDecided,
            DecisionEvent::BlockAdded,
            DecisionEvent::BlobPrepared,
        ],
{
    lemma_commit_needs_all_three(block_info, events);
}

} // verus!

//! The build pipeline: the decisions of a proposer, one event at a time.
//!
//! The embedding program performs each action and reports what came of it as
//! the next event. The pipeline decides what follows, and keeps in `sent` the
//! parts that it has handed to the outbound sink.

use vstd::prelude::*;
use crate::gas_price::{price_block, priced, GasPriceParams, PriceInfo, PricedBlock};
use crate::stream::{open_prefix, stream_head, stream_of, well_ordered, CachedProposal, ProposalModel};
use crate::types::{
    batches_model,
    commitment_to_block_hash,
    widened,
    BatchModel,
    BlockHash,
    BlockNumber,
    ConsensusBlockInfo,
    L1DataAvailabilityMode,
    PartModel,
    ProposalCommitment,
    ProposalFin,
    ProposalInit,
    ProposalPart,
    TransactionBatch,
};

verus! {

/// What a pipeline is given when it starts, and never changes.
#[derive(Clone, Copy, Debug, PartialEq, Eq)]
pub struct PipelineSetup {
    pub params: GasPriceParams,
    /// The last committed block, if any.
    pub previous: Option<PricedBlock>,
    pub l1_da_mode: L1DataAvailabilityMode,
    pub init: ProposalInit,
    pub proposal_id: u64,
    pub deadline_ms: u64,
}

/// Where a build stands: each phase but the last two names the action whose
/// outcome is awaited.
#[derive(Clone, Copy, Debug, PartialEq, Eq)]
pub enum BuildPhase {
    StartingHeight,
    Pricing,
    BeginningBlob,
    SendingInit,
    SendingBlockInfo,
    Proposing,
    FetchingContent,
    SendingTransactions,
    JoiningBlob,
    SendingFin,
    Done,
    Cancelled,
}

/// How the batcher answered `start_height`.
#[derive(Clone, Copy, Debug, PartialEq, Eq)]
pub enum StartHeightOutcome {
    Started,
    AlreadyStarted,
    Failed,
}

/// What the embedding program reports to a build.
#[derive(Clone, Debug, PartialEq, Eq)]
pub enum BuildEvent {
    /// The batcher answered `start_height`.
    HeightStarted(StartHeightOutcome),
    /// The clock was read and both oracles were asked; `None` where one failed.
    Prices { timestamp: u64, prices: Option<PriceInfo>, rate: Option<u128> },
    /// The write of the previous height's blob is under way.
    BlobWriteBegun,
    /// The sink took the part.
    Sent,
    /// The sink refused the part or is closed.
    SinkFailed,
    /// The batcher accepted `propose_block`.
    ProposeAccepted,
    /// The batcher refused `propose_block`.
    ProposeRejected,
    /// The batcher produced a batch.
    Content(TransactionBatch),
    /// The batcher finished the block.
    Finished(ProposalCommitment),
    /// A call to the batcher failed.
    BatcherFailed,
    /// The blob write ended, with its verdict.
    BlobWritten(bool),
    /// The deadline passed.
    DeadlineExpired,
}

/// What a build asks the embedding program to do next.
#[derive(Clone, Debug, PartialEq, Eq)]
pub enum BuildAction {
    StartHeight { height: BlockNumber },
    FetchPrices { height: BlockNumber },
    BeginBlobWrite { previous_height: BlockNumber },
    /// Send the part on the outbound sink.
    Emit(ProposalPart),
    ProposeBlock { proposal_id: u64, height: BlockNumber, deadline_ms: u64 },
    GetContent { proposal_id: u64 },
    /// Wait for the blob write to end.
    AwaitBlob,
    /// Close the sink and complete the promise with the hash.
    Resolve(BlockHash),
    /// Drop the sink and complete the promise as cancelled.
    Abort,
    /// The build is over: do nothing.
    Ignore,
}

/// What a build event holds.
pub ghost enum BuildEventModel {
    HeightStarted(StartHeightOutcome),
    Prices { timestamp: u64, prices: Option<PriceInfo>, rate: Option<u128> },
    BlobWriteBegun,
    Sent,
    SinkFailed,
    ProposeAccepted,
    ProposeRejected,
    Content(BatchModel),
    Finished(ProposalCommitment),
    BatcherFailed,
    BlobWritten(bool),
    DeadlineExpired,
}

/// What a build action holds.
pub ghost enum BuildActionModel {
    StartHeight { height: BlockNumber },
    FetchPrices { height: BlockNumber },
    BeginBlobWrite { previous_height: BlockNumber },
    Emit(PartModel),
    ProposeBlock { proposal_id: u64, height: BlockNumber, deadline_ms: u64 },
    GetContent { proposal_id: u64 },
    AwaitBlob,
    Resolve(BlockHash),
    Abort,
    Ignore,
}

impl View for BuildEvent {
    type V = BuildEventModel;

    open spec fn view(&self) -> BuildEventModel {
        match self {
            BuildEvent::HeightStarted(outcome) => BuildEventModel::HeightStarted(*outcome),
            BuildEvent::Prices { timestamp, prices, rate } => BuildEventModel::Prices {
                timestamp: *timestamp,
                prices: *prices,
                rate: *rate,
            },
            BuildEvent::BlobWriteBegun => BuildEventModel::BlobWriteBegun,
            BuildEvent::Sent => BuildEventModel::Sent,
            BuildEvent::SinkFailed => BuildEventModel::SinkFailed,
            BuildEvent::ProposeAccepted => BuildEventModel::ProposeAccepted,
            BuildEvent::ProposeRejected => BuildEventModel::ProposeRejected,
            BuildEvent::Content(batch) => BuildEventModel::Content(batch@),
            BuildEvent::Finished(commitment) => BuildEventModel::Finished(*commitment),
            BuildEvent::BatcherFailed => BuildEventModel::BatcherFailed,
            BuildEvent::BlobWritten(ok) => BuildEventModel::BlobWritten(*ok),
            BuildEvent::DeadlineExpired => BuildEventModel::DeadlineExpired,
        }
    }
}

impl View for BuildAction {
    type V = BuildActionModel;

    open spec fn view(&self) -> BuildActionModel {
        match self {
            BuildAction::StartHeight { height } => BuildActionModel::StartHeight {
                height: *height,
            },
            BuildAction::FetchPrices { height } => BuildActionModel::FetchPrices {
                height: *height,
            },
            BuildAction::BeginBlobWrite { previous_height } => BuildActionModel::BeginBlobWrite {
                previous_height: *previous_height,
            },
            BuildAction::Emit(part) => BuildActionModel::Emit(part@),
            BuildAction::ProposeBlock {
                proposal_id,
                height,
                deadline_ms,
            } => BuildActionModel::ProposeBlock {
                proposal_id: *proposal_id,
                height: *height,
                deadline_ms: *deadline_ms,
            },
            BuildAction::GetContent { proposal_id } => BuildActionModel::GetContent {
                proposal_id: *proposal_id,
            },
            BuildAction::AwaitBlob => BuildActionModel::AwaitBlob,
            BuildAction::Resolve(hash) => BuildActionModel::Resolve(*hash),
            BuildAction::Abort => BuildActionModel::Abort,
            BuildAction::Ignore => BuildActionModel::Ignore,
        }
    }
}

/// What a build holds besides its setup.
pub ghost struct BuildState {
    pub phase: BuildPhase,
    pub block_info: Option<ConsensusBlockInfo>,
    pub raw_blob_fee: u128,
    pub batches: Seq<BatchModel>,
    pub commitment: Option<ProposalCommitment>,
    pub sent: Seq<PartModel>,
}

/// The state of a build that has just asked for `start_height`.
pub open spec fn build_initial() -> BuildState {
    BuildState {
        phase: BuildPhase::StartingHeight,
        block_info: None,
        raw_blob_fee: 0,
        batches: Seq::empty(),
        commitment: None,
        sent: Seq::empty(),
    }
}

/// The closing part of a build that the batcher finished with `commitment`.
pub open spec fn fin_for(commitment: ProposalCommitment) -> ProposalFin {
    ProposalFin { proposal_commitment: widened(commitment) }
}

/// The state after handing `part` to the sink, awaited in `phase`.
pub open spec fn emitting(state: BuildState, phase: BuildPhase, part: PartModel) -> (
    BuildState,
    BuildActionModel,
) {
    (BuildState { phase, sent: state.sent.push(part), ..state }, BuildActionModel::Emit(part))
}

/// The state after asking for `action`, awaited in `phase`.
pub open spec fn asking(state: BuildState, phase: BuildPhase, action: BuildActionModel) -> (
    BuildState,
    BuildActionModel,
) {
    (BuildState { phase, ..state }, action)
}

/// The rule of the build: the state and the action that follow `event`.
///
/// A build that is over ignores every event. Otherwise the one event that
/// the phase awaits, with a good outcome, moves the build on; every other
/// event aborts it.
pub open spec fn build_step(setup: PipelineSetup, state: BuildState, event: BuildEventModel) -> (
    BuildState,
    BuildActionModel,
) {
    let height = setup.init.height;
    match (state.phase, event) {
        (BuildPhase::Done, _) => (state, BuildActionModel::Ignore),
        (BuildPhase::Cancelled, _) => (state, BuildActionModel::Ignore),
        (BuildPhase::StartingHeight, BuildEventModel::HeightStarted(outcome)) => if outcome
            != StartHeightOutcome::Failed {
            asking(state, BuildPhase::Pricing, BuildActionModel::FetchPrices { height })
        } else {
            asking(state, BuildPhase::Cancelled, BuildActionModel::Abort)
        },
        (BuildPhase::Pricing, BuildEventModel::Prices { timestamp, prices, rate }) => {
            let block = priced(
                setup.params,
                height,
                timestamp,
                setup.init.proposer,
                setup.l1_da_mode,
                prices,
                rate,
                setup.previous,
            );
            let with_prices = BuildState {
                block_info: Some(block.block_info),
                raw_blob_fee: block.raw_blob_fee,
                ..state
            };
            if height.0 > 0 {
                asking(
                    with_prices,
                    BuildPhase::BeginningBlob,
                    BuildActionModel::BeginBlobWrite {
                        previous_height: BlockNumber((height.0 - 1) as u64),
                    },
                )
            } else {
                emitting(with_prices, BuildPhase::SendingInit, PartModel::Init(setup.init))
            }
        },
        (BuildPhase::BeginningBlob, BuildEventModel::BlobWriteBegun) => emitting(
            state,
            BuildPhase::SendingInit,
            PartModel::Init(setup.init),
        ),
        (BuildPhase::SendingInit, BuildEventModel::Sent) => emitting(
            state,
            BuildPhase::SendingBlockInfo,
            PartModel::BlockInfo(state.block_info.unwrap()),
        ),
        (BuildPhase::SendingBlockInfo, BuildEventModel::Sent) => asking(
            state,
            BuildPhase::Proposing,
            BuildActionModel::ProposeBlock {
                proposal_id: setup.proposal_id,
                height,
                deadline_ms: setup.deadline_ms,
            },
        ),
        (BuildPhase::Proposing, BuildEventModel::ProposeAccepted) => asking(
            state,
            BuildPhase::FetchingContent,
            BuildActionModel::GetContent { proposal_id: setup.proposal_id },
        ),
        (BuildPhase::FetchingContent, BuildEventModel::Content(batch)) => emitting(
            BuildState { batches: state.batches.push(batch), ..state },
            BuildPhase::SendingTransactions,
            PartModel::Transactions(batch),
        ),
        (BuildPhase::SendingTransactions, BuildEventModel::Sent) => asking(
            state,
            BuildPhase::FetchingContent,
            BuildActionModel::GetContent { proposal_id: setup.proposal_id },
        ),
        (BuildPhase::FetchingContent, BuildEventModel::Finished(commitment)) => {
            let finished = BuildState { commitment: Some(commitment), ..state };
            if height.0 > 0 {
                asking(finished, BuildPhase::JoiningBlob, BuildActionModel::AwaitBlob)
            } else {
                emitting(finished, BuildPhase::SendingFin, PartModel::Fin(fin_for(commitment)))
            }
        },
        (BuildPhase::JoiningBlob, BuildEventModel::BlobWritten(written)) => if written {
            emitting(
                state,
                BuildPhase::SendingFin,
                PartModel::Fin(fin_for(state.commitment.unwrap())),
            )
        } else {
            asking(state, BuildPhase::Cancelled, BuildActionModel::Abort)
        },
        (BuildPhase::SendingFin, BuildEventModel::Sent) => asking(
            state,
            BuildPhase::Done,
            BuildActionModel::Resolve(widened(state.commitment.unwrap())),
        ),
        _ => asking(state, BuildPhase::Cancelled, BuildActionModel::Abort),
    }
}

/// What holds of every state that a build reaches.
pub open spec fn build_consistent(setup: PipelineSetup, state: BuildState) -> bool {
    &&& setup.params.ordered()
    &&& match state.phase {
        BuildPhase::StartingHeight | BuildPhase::Pricing => {
            &&& state.block_info.is_none()
            &&& state.commitment.is_none()
            &&& state.batches.len() == 0
            &&& state.sent.len() == 0
        },
        BuildPhase::BeginningBlob => {
            &&& state.block_info.is_some()
            &&& state.commitment.is_none()
            &&& state.batches.len() == 0
            &&& state.sent.len() == 0
        },
        BuildPhase::SendingInit => {
            &&& state.block_info.is_some()
            &&& state.commitment.is_none()
            &&& state.batches.len() == 0
            &&& state.sent == seq![PartModel::Init(setup.init)]
        },
        BuildPhase::SendingBlockInfo
        | BuildPhase::Proposing
        | BuildPhase::FetchingContent
        | BuildPhase::SendingTransactions => {
            &&& state.block_info.is_some()
            &&& state.commitment.is_none()
            &&& state.sent == stream_head(setup.init, state.block_info.unwrap(), state.batches)
        },
        BuildPhase::JoiningBlob => {
            &&& state.block_info.is_some()
            &&& state.commitment.is_some()
            &&& state.sent == stream_head(setup.init, state.block_info.unwrap(), state.batches)
        },
        BuildPhase::SendingFin | BuildPhase::Done => {
            &&& state.block_info.is_some()
            &&& state.commitment.is_some()
            &&& state.sent == stream_of(setup.init, built_proposal(state))
        },
        BuildPhase::Cancelled => open_prefix(state.sent) || well_ordered(state.sent),
    }
    &&& state.block_info.is_some() ==> setup.params.priced_by(built_block(state))
}

/// The block info of a build beside the raw blob fee that it was priced from.
pub open spec fn built_block(state: BuildState) -> PricedBlock {
    PricedBlock { block_info: state.block_info.unwrap(), raw_blob_fee: state.raw_blob_fee }
}

/// The proposal that a finished build has produced.
pub open spec fn built_proposal(state: BuildState) -> ProposalModel {
    ProposalModel {
        block_info: state.block_info.unwrap(),
        batches: state.batches,
        fin: fin_for(state.commitment.unwrap()),
    }
}

/// A build in progress.
pub struct BuildPipeline {
    pub setup: PipelineSetup,
    pub phase: BuildPhase,
    /// The block info, once the prices are known.
    pub block_info: Option<ConsensusBlockInfo>,
    /// The raw blob fee that the data gas price was derived from; zero until
    /// the prices are known.
    pub raw_blob_fee: u128,
    /// The batches that the batcher has produced so far.
    pub content: Vec<TransactionBatch>,
    /// The commitment, once the batcher has finished the block.
    pub commitment: Option<ProposalCommitment>,
    /// The parts handed to the sink so far, in their order.
    pub sent: Ghost<Seq<PartModel>>,
}

impl View for BuildPipeline {
    type V = BuildState;

    open spec fn view(&self) -> BuildState {
        BuildState {
            phase: self.phase,
            block_info: self.block_info,
            raw_blob_fee: self.raw_blob_fee,
            batches: batches_model(self.content@),
            commitment: self.commitment,
            sent: self.sent@,
        }
    }
}

impl BuildPipeline {
    /// The state is one that a build can reach.
    pub open spec fn wf(&self) -> bool {
        build_consistent(self.setup, self@)
    }

    /// Starts a build: the first thing to do is to tell the batcher the height.
    pub fn start(setup: PipelineSetup) -> (started: (BuildPipeline, BuildAction))
        requires
            setup.params.ordered(),
        ensures
            started.0.wf(),
            started.0.setup == setup,
            started.0@ == build_initial(),
            started.1@ == (BuildActionModel::StartHeight { height: setup.init.height }),
    {
        let pipeline = BuildPipeline {
            setup,
            phase: BuildPhase::StartingHeight,
            block_info: None,
            raw_blob_fee: 0,
            content: Vec::new(),
            commitment: None,
            sent: Ghost(Seq::empty()),
        };
        assert(pipeline@.batches =~= Seq::empty());
        (pipeline, BuildAction::StartHeight { height: setup.init.height })
    }

    /// Whether the build is over, in success or not.
    pub fn is_over(&self) -> (over: bool)
        ensures
            over <==> self.phase == BuildPhase::Done || self.phase == BuildPhase::Cancelled,
    {
        match self.phase {
            BuildPhase::Done | BuildPhase::Cancelled => true,
            _ => false,
        }
    }

    /// Cancels the build.
    fn abort(&mut self) -> (action: BuildAction)
        requires
            old(self).wf(),
        ensures
            final(self).wf(),
            final(self).setup == old(self).setup,
            (final(self)@, action@) == asking(
                old(self)@,
                BuildPhase::Cancelled,
                BuildActionModel::Abort,
            ),
    {
        proof {
            lemma_build_sent_ordered(self.setup, self@);
        }
        self.phase = BuildPhase::Cancelled;
        BuildAction::Abort
    }

    /// Hands `part` to the sink and awaits the outcome in `phase`.
    fn emit(&mut self, phase: BuildPhase, part: ProposalPart) -> (action: BuildAction)
        ensures
            final(self).setup == old(self).setup,
            (final(self)@, action@) == emitting(old(self)@, phase, part@),
    {
        self.phase = phase;
        self.sent = Ghost(self.sent@.push(part@));
        BuildAction::Emit(part)
    }

    /// Takes the outcome of the last action and decides the next one.
    pub fn on_event(&mut self, event: BuildEvent) -> (action: BuildAction)
        requires
            old(self).wf(),
        ensures
            final(self).wf(),
            final(self).setup == old(self).setup,
            (final(self)@, action@) == build_step(old(self).setup, old(self)@, event@),
    {
        proof {
            lemma_build_step_consistent(self.setup, self@, event@);
        }
        let height = self.setup.init.height;
        let proposal_id = self.setup.proposal_id;
        match (self.phase, event) {
            (BuildPhase::Done, _) => BuildAction::Ignore,
            (BuildPhase::Cancelled, _) => BuildAction::Ignore,
            (BuildPhase::StartingHeight, BuildEvent::HeightStarted(outcome)) => {
                match outcome {
                    StartHeightOutcome::Failed => self.abort(),
                    _ => {
                        self.phase = BuildPhase::Pricing;
                        BuildAction::FetchPrices { height }
                    },
                }
            },
            (BuildPhase::Pricing, BuildEvent::Prices { timestamp, prices, rate }) => {
                let block = price_block(
                    &self.setup.params,
                    height,
                    timestamp,
                    self.setup.init.proposer,
                    self.setup.l1_da_mode,
                    prices,
                    rate,
                    self.setup.previous,
                );
                self.block_info = Some(block.block_info);
                self.raw_blob_fee = block.raw_blob_fee;
                if height.0 > 0 {
                    self.phase = BuildPhase::BeginningBlob;
                    BuildAction::BeginBlobWrite { previous_height: BlockNumber(height.0 - 1) }
                } else {
                    self.emit(BuildPhase::SendingInit, ProposalPart::Init(self.setup.init))
                }
            },
            (BuildPhase::BeginningBlob, BuildEvent::BlobWriteBegun) => {
                self.emit(BuildPhase::SendingInit, ProposalPart::Init(self.setup.init))
            },
            (BuildPhase::SendingInit, BuildEvent::Sent) => {
                let info = self.block_info.unwrap();
                self.emit(BuildPhase::SendingBlockInfo, ProposalPart::BlockInfo(info))
            },
            (BuildPhase::SendingBlockInfo, BuildEvent::Sent) => {
                self.phase = BuildPhase::Proposing;
                BuildAction::ProposeBlock {
                    proposal_id,
                    height,
                    deadline_ms: self.setup.deadline_ms,
                }
            },
            (BuildPhase::Proposing, BuildEvent::ProposeAccepted) => {
                self.phase = BuildPhase::FetchingContent;
                BuildAction::GetContent { proposal_id }
            },
            (BuildPhase::FetchingContent, BuildEvent::Content(batch)) => {
                let ghost before = batches_model(self.content@);
                self.content.push(batch.duplicate());
                assert(batches_model(self.content@) =~= before.push(batch@));
                self.emit(BuildPhase::SendingTransactions, ProposalPart::Transactions(batch))
            },
            (BuildPhase::SendingTransactions, BuildEvent::Sent) => {
                self.phase = BuildPhase::FetchingContent;
                BuildAction::GetContent { proposal_id }
            },
            (BuildPhase::FetchingContent, BuildEvent::Finished(commitment)) => {
                self.commitment = Some(commitment);
                if height.0 > 0 {
                    self.phase = BuildPhase::JoiningBlob;
                    BuildAction::AwaitBlob
                } else {
                    let fin = ProposalFin {
                        proposal_commitment: commitment_to_block_hash(commitment),
                    };
                    self.emit(BuildPhase::SendingFin, ProposalPart::Fin(fin))
                }
            },
            (BuildPhase::JoiningBlob, BuildEvent::BlobWritten(written)) => {
                if written {
                    let fin = ProposalFin {
                        proposal_commitment: commitment_to_block_hash(self.commitment.unwrap()),
                    };
                    self.emit(BuildPhase::SendingFin, ProposalPart::Fin(fin))
                } else {
                    self.abort()
                }
            },
            (BuildPhase::SendingFin, BuildEvent::Sent) => {
                self.phase = BuildPhase::Done;
                BuildAction::Resolve(commitment_to_block_hash(self.commitment.unwrap()))
            },
            _ => self.abort(),
        }
    }

    /// The proposal that a finished build has produced, under its block hash.
    pub fn built(&self) -> (result: (BlockHash, CachedProposal))
        requires
            self.wf(),
            self.phase == BuildPhase::Done,
        ensures
            result.0 == widened(self.commitment.unwrap()),
            result.1@ == built_proposal(self@),
    {
        let hash = commitment_to_block_hash(self.commitment.unwrap());
        let proposal = CachedProposal {
            block_info: self.block_info.unwrap(),
            transactions: crate::types::duplicate_batches(&self.content),
            fin: ProposalFin { proposal_commitment: hash },
        };
        (hash, proposal)
    }
}

/// What a build has handed to the sink is the start of a well ordered stream,
/// or a whole one.
pub proof fn lemma_build_sent_ordered(setup: PipelineSetup, state: BuildState)
    requires
        build_consistent(setup, state),
    ensures
        open_prefix(state.sent) || well_ordered(state.sent),
        state.phase == BuildPhase::SendingFin || state.phase == BuildPhase::Done ==> well_ordered(
            state.sent,
        ),
        state.phase != BuildPhase::SendingFin && state.phase != BuildPhase::Done
            && state.phase != BuildPhase::Cancelled ==> open_prefix(state.sent),
{
    if state.phase == BuildPhase::SendingFin || state.phase == BuildPhase::Done {
        crate::stream::lemma_encoded_decodes(setup.init, built_proposal(state));
    }
}

/// Every step leads from a reachable state to a reachable state.
pub proof fn lemma_build_step_consistent(
    setup: PipelineSetup,
    state: BuildState,
    event: BuildEventModel,
)
    requires
        build_consistent(setup, state),
    ensures
        build_consistent(setup, build_step(setup, state, event).0),
{
    let next = build_step(setup, state, event).0;
    lemma_build_sent_ordered(setup, state);
    match (state.phase, event) {
        (BuildPhase::Pricing, BuildEventModel::Prices { timestamp, prices, rate }) => {
            crate::gas_price::lemma_priced_is_derived(
                setup.params,
                setup.init.height,
                timestamp,
                setup.init.proposer,
                setup.l1_da_mode,
                prices,
                rate,
                setup.previous,
            );
            crate::gas_price::lemma_assembled_within_bounds(
                setup.params,
                setup.init.height,
                timestamp,
                setup.init.proposer,
                setup.l1_da_mode,
                prices,
                rate,
                setup.previous,
            );
            assert(next.sent =~= state.sent || next.sent =~= seq![PartModel::Init(setup.init)]);
        },
        (BuildPhase::BeginningBlob, BuildEventModel::BlobWriteBegun) => {
            assert(next.sent =~= seq![PartModel::Init(setup.init)]);
        },
        (BuildPhase::SendingInit, BuildEventModel::Sent) => {
            assert(next.sent =~= stream_head(
                setup.init,
                next.block_info.unwrap(),
                next.batches,
            ));
        },
        (BuildPhase::FetchingContent, BuildEventModel::Content(batch)) => {
            assert(next.sent =~= stream_head(
                setup.init,
                next.block_info.unwrap(),
                next.batches,
            ));
        },
        _ => {},
    }
}

/// The sink of a build that succeeded has carried, in this order and with
/// nothing else: the opening part, the block info, the batches, the closing
/// part. The hash in the closing part is the one that the promise resolves to.
pub proof fn lemma_build_success_ordered(
    setup: PipelineSetup,
    state: BuildState,
    event: BuildEventModel,
)
    requires
        build_consistent(setup, state),
        build_step(setup, state, event).1 is Resolve,
    ensures
        ({
            let (next, action) = build_step(setup, state, event);
            &&& next.phase == BuildPhase::Done
            &&& well_ordered(next.sent)
            &&& next.sent == stream_of(setup.init, built_proposal(next))
            &&& action == BuildActionModel::Resolve(built_proposal(next).fin.proposal_commitment)
        }),
{
    lemma_build_step_consistent(setup, state, event);
    lemma_build_sent_ordered(setup, build_step(setup, state, event).0);
}

/// A build that is over hands out nothing more: every event is ignored and
/// the state stays as it is.
pub proof fn lemma_build_over_is_final(
    setup: PipelineSetup,
    state: BuildState,
    event: BuildEventModel,
)
    requires
        state.phase == BuildPhase::Done || state.phase == BuildPhase::Cancelled,
    ensures
        build_step(setup, state, event) == (state, BuildActionModel::Ignore),
{
}

/// The closing part leaves only after the blob of the previous height was
/// written: past the first height, a step that emits it answers a successful
/// blob write; and a build that is aborted before has sent no closing part.
pub proof fn lemma_fin_waits_for_blob(
    setup: PipelineSetup,
    state: BuildState,
    event: BuildEventModel,
)
    requires
        build_consistent(setup, state),
    ensures
        ({
            let (next, action) = build_step(setup, state, event);
            &&& setup.init.height.0 > 0 && action is Emit && action->Emit_0 is Fin ==> event
                == BuildEventModel::BlobWritten(true)
            &&& action is Abort && state.phase != BuildPhase::SendingFin ==> open_prefix(
                next.sent,
            )
        }),
{
    lemma_build_sent_ordered(setup, state);
}

/// The state of a build after a sequence of events, from the start.
pub open spec fn build_after(setup: PipelineSetup, events: Seq<BuildEventModel>) -> BuildState
    decreases events.len(),
{
    if events.len() == 0 {
        build_initial()
    } else {
        build_step(setup, build_after(setup, events.drop_last()), events.last()).0
    }
}

/// Whatever the events, a build stays consistent; what it has handed to the
/// sink is the start of a well ordered stream or a whole one; and a build
/// that succeeded has handed over exactly the stream of the proposal it
/// built: opening part, block info, batches, closing part.
pub proof fn lemma_every_build_ordered(setup: PipelineSetup, events: Seq<BuildEventModel>)
    requires
        setup.params.ordered(),
    ensures
        build_consistent(setup, build_after(setup, events)),
        open_prefix(build_after(setup, events).sent) || well_ordered(
            build_after(setup, events).sent,
        ),
        build_after(setup, events).phase == BuildPhase::Done ==> well_ordered(
            build_after(setup, events).sent,
        ) && build_after(setup, events).sent == stream_of(
            setup.init,
            built_proposal(build_after(setup, events)),
        ),
    decreases events.len(),
{
    if events.len() > 0 {
        lemma_every_build_ordered(setup, events.drop_last());
        lemma_build_step_consistent(setup, build_after(setup, events.drop_last()), events.last());
    }
    lemma_build_sent_ordered(setup, build_after(setup, events));
}

/// A step hands at most one part to the sink, and takes none back.
pub proof fn lemma_build_sink_only_grows(
    setup: PipelineSetup,
    state: BuildState,
    event: BuildEventModel,
)
    ensures
        ({
            let (next, action) = build_step(setup, state, event);
            if action is Emit {
                next.sent == state.sent.push(action->Emit_0)
            } else {
                next.sent == state.sent
            }
        }),
{
}

/// Every block info that a build emits carries L1 prices within the bounds.
pub proof fn lemma_built_prices_within_bounds(
    setup: PipelineSetup,
    state: BuildState,
    event: BuildEventModel,
)
    requires
        build_consistent(setup, state),
        build_step(setup, state, event).1 is Emit,
        build_step(setup, state, event).1->Emit_0 is BlockInfo,
    ensures
        setup.params.bounds(build_step(setup, state, event).1->Emit_0->BlockInfo_0),
{
}

/// Whether `event` reports a failure: a refusal of the batcher, a sink that
/// is gone, a blob that was not written, or the deadline.
pub open spec fn build_failure(event: BuildEventModel) -> bool {
    match event {
        BuildEventModel::HeightStarted(outcome) => outcome == StartHeightOutcome::Failed,
        BuildEventModel::SinkFailed => true,
        BuildEventModel::ProposeRejected => true,
        BuildEventModel::BatcherFailed => true,
        BuildEventModel::BlobWritten(written) => !written,
        BuildEventModel::DeadlineExpired => true,
        _ => false,
    }
}

/// A failure at any point of a build that is not over cancels it: the build
/// aborts, and hands nothing more to the sink.
pub proof fn lemma_build_failure_cancels(
    setup: PipelineSetup,
    state: BuildState,
    event: BuildEventModel,
)
    requires
        state.phase != BuildPhase::Done,
        state.phase != BuildPhase::Cancelled,
        build_failure(event),
    ensures
        build_step(setup, state, event) == (
            BuildState { phase: BuildPhase::Cancelled, ..state },
            BuildActionModel::Abort,
        ),
{
}

/// Sending again what a build produced repeats what the build sent, but for
/// the opening part: the block info, the batches and the closing part are the
/// same, in the same places.
pub proof fn lemma_resend_repeats_build(
    setup: PipelineSetup,
    state: BuildState,
    event: BuildEventModel,
    again: ProposalInit,
)
    requires
        build_consistent(setup, state),
        build_step(setup, state, event).1 is Resolve,
    ensures
        ({
            let next = build_step(setup, state, event).0;
            let resent = stream_of(again, built_proposal(next));
            &&& resent.len() == next.sent.len()
            &&& resent[0] == PartModel::Init(again)
            &&& forall|i: int| 1 <= i < resent.len() ==> resent[i] == next.sent[i]
        }),
{
    lemma_build_success_ordered(setup, state, event);
    let next = build_step(setup, state, event).0;
    crate::stream::lemma_resend_differs_in_init_only(setup.init, again, built_proposal(next));
}

} // verus!

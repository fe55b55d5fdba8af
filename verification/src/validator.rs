//! The validate pipeline: the decisions of a node that checks an incoming
//! proposal, one event at a time.
//!
//! The embedding program reads the parts from the wire, talks to the batcher
//! and the oracles, and reports each outcome as an event. The pipeline keeps in
//! `accepted` the parts that it has taken from the wire, and in `forwarded`
//! what it has asked to be sent to the batcher.

use vstd::prelude::*;
use crate::gas_price::{
    accept_prices,
    price_block,
    priced,
    prices_accepted,
    rate_within_margin,
    PriceInfo,
    PricedBlock,
};
use crate::proposer::{PipelineSetup, StartHeightOutcome};
use crate::stream::{stream_of, well_ordered, CachedProposal, ProposalModel};
use crate::types::{
    batches_model,
    commitment_to_block_hash,
    duplicate_batches,
    widened,
    BatchModel,
    BlockHash,
    BlockNumber,
    ConsensusBlockInfo,
    PartModel,
    ProposalCommitment,
    ProposalFin,
    ProposalPart,
    TransactionBatch,
};

verus! {

/// Where a validation stands: each phase but the last two names the action
/// whose outcome is awaited.
#[derive(Clone, Copy, Debug, PartialEq, Eq)]
pub enum ValidatePhase {
    StartingHeight,
    AwaitingBlockInfo,
    Pricing,
    StartingValidation,
    AwaitingContent,
    ForwardingTransactions,
    Finishing,
    Done,
    Cancelled,
}

/// How the batcher answers content that was sent to it.
#[derive(Clone, Copy, Debug, PartialEq, Eq)]
pub enum ProposalStatus {
    Processing,
    Finished(ProposalCommitment),
    InvalidProposal,
    Aborted,
}

/// What the embedding program reports to a validation.
#[derive(Clone, Debug, PartialEq, Eq)]
pub enum ValidateEvent {
    /// The batcher answered `start_height`.
    HeightStarted(StartHeightOutcome),
    /// The next part of the incoming stream.
    Part(ProposalPart),
    /// The sender closed the stream.
    EndOfStream,
    /// Both oracles were asked; `None` where one failed.
    Prices { prices: Option<PriceInfo>, rate: Option<u128> },
    /// The batcher accepted `validate_block`.
    ValidateAccepted,
    /// The batcher refused `validate_block`.
    ValidateRejected,
    /// A transaction could not be converted for the batcher.
    ConverterFailed,
    /// The batcher answered the content that was sent.
    Status(ProposalStatus),
    /// A call to the batcher failed.
    BatcherFailed,
    /// The deadline passed.
    DeadlineExpired,
}

/// What a validation asks the embedding program to do next.
#[derive(Clone, Debug, PartialEq, Eq)]
pub enum ValidateAction {
    StartHeight { height: BlockNumber },
    /// Read the next part of the incoming stream.
    ReadPart,
    FetchPrices { height: BlockNumber, timestamp: u64 },
    ValidateBlock { proposal_id: u64, height: BlockNumber, deadline_ms: u64 },
    /// Convert the batch and send it to the batcher.
    SendTransactions { proposal_id: u64, batch: TransactionBatch },
    /// Tell the batcher that the content is complete.
    SendFinish { proposal_id: u64 },
    /// Complete the promise with the hash.
    Resolve(BlockHash),
    /// Complete the promise as cancelled.
    Abort,
    /// The validation is over: do nothing.
    Ignore,
}

/// What a validate event holds.
pub ghost enum ValidateEventModel {
    HeightStarted(StartHeightOutcome),
    Part(PartModel),
    EndOfStream,
    Prices { prices: Option<PriceInfo>, rate: Option<u128> },
    ValidateAccepted,
    ValidateRejected,
    ConverterFailed,
    Status(ProposalStatus),
    BatcherFailed,
    DeadlineExpired,
}

/// What a validate action holds.
pub ghost enum ValidateActionModel {
    StartHeight { height: BlockNumber },
    ReadPart,
    FetchPrices { height: BlockNumber, timestamp: u64 },
    ValidateBlock { proposal_id: u64, height: BlockNumber, deadline_ms: u64 },
    SendTransactions { proposal_id: u64, batch: BatchModel },
    SendFinish { proposal_id: u64 },
    Resolve(BlockHash),
    Abort,
    Ignore,
}

/// One piece of content sent to the batcher.
pub ghost enum ContentModel {
    Txs(BatchModel),
    Finish,
}

impl View for ValidateEvent {
    type V = ValidateEventModel;

    open spec fn view(&self) -> ValidateEventModel {
        match self {
            ValidateEvent::HeightStarted(outcome) => ValidateEventModel::HeightStarted(*outcome),
            ValidateEvent::Part(part) => ValidateEventModel::Part(part@),
            ValidateEvent::EndOfStream => ValidateEventModel::EndOfStream,
            ValidateEvent::Prices { prices, rate } => ValidateEventModel::Prices {
                prices: *prices,
                rate: *rate,
            },
            ValidateEvent::ValidateAccepted => ValidateEventModel::ValidateAccepted,
            ValidateEvent::ValidateRejected => ValidateEventModel::ValidateRejected,
            ValidateEvent::ConverterFailed => ValidateEventModel::ConverterFailed,
            ValidateEvent::Status(status) => ValidateEventModel::Status(*status),
            ValidateEvent::BatcherFailed => ValidateEventModel::BatcherFailed,
            ValidateEvent::DeadlineExpired => ValidateEventModel::DeadlineExpired,
        }
    }
}

impl View for ValidateAction {
    type V = ValidateActionModel;

    open spec fn view(&self) -> ValidateActionModel {
        match self {
            ValidateAction::StartHeight { height } => ValidateActionModel::StartHeight {
                height: *height,
            },
            ValidateAction::ReadPart => ValidateActionModel::ReadPart,
            ValidateAction::FetchPrices { height, timestamp } => ValidateActionModel::FetchPrices {
                height: *height,
                timestamp: *timestamp,
            },
            ValidateAction::ValidateBlock {
                proposal_id,
                height,
                deadline_ms,
            } => ValidateActionModel::ValidateBlock {
                proposal_id: *proposal_id,
                height: *height,
                deadline_ms: *deadline_ms,
            },
            ValidateAction::SendTransactions {
                proposal_id,
                batch,
            } => ValidateActionModel::SendTransactions { proposal_id: *proposal_id, batch: batch@ },
            ValidateAction::SendFinish { proposal_id } => ValidateActionModel::SendFinish {
                proposal_id: *proposal_id,
            },
            ValidateAction::Resolve(hash) => ValidateActionModel::Resolve(*hash),
            ValidateAction::Abort => ValidateActionModel::Abort,
            ValidateAction::Ignore => ValidateActionModel::Ignore,
        }
    }
}

/// What a validation holds besides its setup.
pub ghost struct ValidateState {
    pub phase: ValidatePhase,
    pub block_info: Option<ConsensusBlockInfo>,
    pub raw_blob_fee: u128,
    pub batches: Seq<BatchModel>,
    pub fin: Option<ProposalFin>,
    pub accepted: Seq<PartModel>,
    pub forwarded: Seq<ContentModel>,
}

/// The state of a validation that has just asked for `start_height`.
pub open spec fn validate_initial() -> ValidateState {
    ValidateState {
        phase: ValidatePhase::StartingHeight,
        block_info: None,
        raw_blob_fee: 0,
        batches: Seq::empty(),
        fin: None,
        accepted: Seq::empty(),
        forwarded: Seq::empty(),
    }
}

/// The state after asking for `action`, awaited in `phase`.
pub open spec fn awaiting(
    state: ValidateState,
    phase: ValidatePhase,
    action: ValidateActionModel,
) -> (ValidateState, ValidateActionModel) {
    (ValidateState { phase, ..state }, action)
}

/// The block that this node assembles to check `received` against.
pub open spec fn local_block(
    setup: PipelineSetup,
    received: ConsensusBlockInfo,
    prices: Option<PriceInfo>,
    rate: Option<u128>,
) -> PricedBlock {
    priced(
        setup.params,
        setup.init.height,
        received.timestamp,
        received.builder,
        received.l1_da_mode,
        prices,
        rate,
        setup.previous,
    )
}

/// The block info that this node assembles to check `received` against.
pub open spec fn local_block_info(
    setup: PipelineSetup,
    received: ConsensusBlockInfo,
    prices: Option<PriceInfo>,
    rate: Option<u128>,
) -> ConsensusBlockInfo {
    local_block(setup, received, prices, rate).block_info
}

/// The batches as content for the batcher, in their order.
pub open spec fn as_content(batches: Seq<BatchModel>) -> Seq<ContentModel> {
    Seq::new(batches.len(), |i: int| ContentModel::Txs(batches[i]))
}

/// The rule of the validation: the state and the action that follow `event`.
///
/// A validation that is over ignores every event. Otherwise the one event
/// that the phase awaits, with a good outcome, moves the validation on; every
/// other event aborts it.
pub open spec fn validate_step(
    setup: PipelineSetup,
    state: ValidateState,
    event: ValidateEventModel,
) -> (ValidateState, ValidateActionModel) {
    let height = setup.init.height;
    let proposal_id = setup.proposal_id;
    let abort = awaiting(state, ValidatePhase::Cancelled, ValidateActionModel::Abort);
    match (state.phase, event) {
        (ValidatePhase::Done, _) => (state, ValidateActionModel::Ignore),
        (ValidatePhase::Cancelled, _) => (state, ValidateActionModel::Ignore),
        (ValidatePhase::StartingHeight, ValidateEventModel::HeightStarted(outcome)) => if outcome
            != StartHeightOutcome::Failed {
            awaiting(state, ValidatePhase::AwaitingBlockInfo, ValidateActionModel::ReadPart)
        } else {
            abort
        },
        (
            ValidatePhase::AwaitingBlockInfo,
            ValidateEventModel::Part(PartModel::BlockInfo(info)),
        ) => awaiting(
            ValidateState {
                block_info: Some(info),
                accepted: state.accepted.push(PartModel::BlockInfo(info)),
                ..state
            },
            ValidatePhase::Pricing,
            ValidateActionModel::FetchPrices { height, timestamp: info.timestamp },
        ),
        (ValidatePhase::Pricing, ValidateEventModel::Prices { prices, rate }) => {
            let received = state.block_info.unwrap();
            if prices_accepted(
                setup.params,
                received,
                local_block_info(setup, received, prices, rate),
            ) {
                awaiting(
                    ValidateState {
                        raw_blob_fee: local_block(setup, received, prices, rate).raw_blob_fee,
                        ..state
                    },
                    ValidatePhase::StartingValidation,
                    ValidateActionModel::ValidateBlock {
                        proposal_id,
                        height,
                        deadline_ms: setup.deadline_ms,
                    },
                )
            } else {
                abort
            }
        },
        (ValidatePhase::StartingValidation, ValidateEventModel::ValidateAccepted) => awaiting(
            state,
            ValidatePhase::AwaitingContent,
            ValidateActionModel::ReadPart,
        ),
        (
            ValidatePhase::AwaitingContent,
            ValidateEventModel::Part(PartModel::Transactions(batch)),
        ) => awaiting(
            ValidateState {
                batches: state.batches.push(batch),
                accepted: state.accepted.push(PartModel::Transactions(batch)),
                forwarded: state.forwarded.push(ContentModel::Txs(batch)),
                ..state
            },
            ValidatePhase::ForwardingTransactions,
            ValidateActionModel::SendTransactions { proposal_id, batch },
        ),
        (
            ValidatePhase::ForwardingTransactions,
            ValidateEventModel::Status(ProposalStatus::Processing),
        ) => awaiting(state, ValidatePhase::AwaitingContent, ValidateActionModel::ReadPart),
        (ValidatePhase::AwaitingContent, ValidateEventModel::Part(PartModel::Fin(fin))) => awaiting(
            ValidateState {
                fin: Some(fin),
                accepted: state.accepted.push(PartModel::Fin(fin)),
                forwarded: state.forwarded.push(ContentModel::Finish),
                ..state
            },
            ValidatePhase::Finishing,
            ValidateActionModel::SendFinish { proposal_id },
        ),
        (
            ValidatePhase::Finishing,
            ValidateEventModel::Status(ProposalStatus::Finished(commitment)),
        ) => if widened(commitment) == state.fin.unwrap().proposal_commitment {
            awaiting(
                state,
                ValidatePhase::Done,
                ValidateActionModel::Resolve(state.fin.unwrap().proposal_commitment),
            )
        } else {
            abort
        },
        _ => abort,
    }
}

/// The proposal that a finished validation has accepted.
pub open spec fn validated_proposal(state: ValidateState) -> ProposalModel {
    ProposalModel {
        block_info: state.block_info.unwrap(),
        batches: state.batches,
        fin: state.fin.unwrap(),
    }
}

/// No `Finish` stands in `content` but, at most, at its end.
pub open spec fn finish_only_last(content: Seq<ContentModel>) -> bool {
    forall|i: int| 0 <= i < content.len() - 1 ==> #[trigger] content[i] is Txs
}

/// The parts after the opening part, up to the batches.
pub open spec fn accepted_head(block_info: ConsensusBlockInfo, batches: Seq<BatchModel>) -> Seq<
    PartModel,
> {
    seq![PartModel::BlockInfo(block_info)] + Seq::new(
        batches.len(),
        |i: int| PartModel::Transactions(batches[i]),
    )
}

/// What holds of every state that a validation reaches.
pub open spec fn validate_consistent(setup: PipelineSetup, state: ValidateState) -> bool {
    &&& setup.params.ordered()
    &&& match state.phase {
        ValidatePhase::StartingHeight | ValidatePhase::AwaitingBlockInfo => {
            &&& state.block_info.is_none()
            &&& state.fin.is_none()
            &&& state.batches.len() == 0
            &&& state.accepted.len() == 0
            &&& state.forwarded.len() == 0
        },
        ValidatePhase::Pricing | ValidatePhase::StartingValidation => {
            &&& state.block_info.is_some()
            &&& state.fin.is_none()
            &&& state.batches.len() == 0
            &&& state.accepted == accepted_head(state.block_info.unwrap(), state.batches)
            &&& state.forwarded.len() == 0
        },
        ValidatePhase::AwaitingContent | ValidatePhase::ForwardingTransactions => {
            &&& state.block_info.is_some()
            &&& state.fin.is_none()
            &&& state.accepted == accepted_head(state.block_info.unwrap(), state.batches)
            &&& state.forwarded == as_content(state.batches)
        },
        ValidatePhase::Finishing | ValidatePhase::Done => {
            &&& state.block_info.is_some()
            &&& state.fin.is_some()
            &&& state.accepted == accepted_head(state.block_info.unwrap(), state.batches).push(
                PartModel::Fin(state.fin.unwrap()),
            )
            &&& state.forwarded == as_content(state.batches).push(ContentModel::Finish)
        },
        ValidatePhase::Cancelled => finish_only_last(state.forwarded),
    }
    &&& prices_checked(state.phase) ==> setup.params.priced_by(validated_block(state))
}

/// Whether the prices of the block info have been checked in `phase`, and the
/// validation has not been cancelled.
pub open spec fn prices_checked(phase: ValidatePhase) -> bool {
    match phase {
        ValidatePhase::StartingValidation
        | ValidatePhase::AwaitingContent
        | ValidatePhase::ForwardingTransactions
        | ValidatePhase::Finishing
        | ValidatePhase::Done => true,
        _ => false,
    }
}

/// The block info of a validation beside the raw blob fee that this node
/// derived its data gas price from.
pub open spec fn validated_block(state: ValidateState) -> PricedBlock {
    PricedBlock { block_info: state.block_info.unwrap(), raw_blob_fee: state.raw_blob_fee }
}

/// A validation in progress.
pub struct ValidatePipeline {
    pub setup: PipelineSetup,
    pub phase: ValidatePhase,
    /// The block info, once it has arrived.
    pub block_info: Option<ConsensusBlockInfo>,
    /// The raw blob fee that this node derived the data gas price from; zero
    /// until the prices are checked.
    pub raw_blob_fee: u128,
    /// The batches that have arrived so far.
    pub content: Vec<TransactionBatch>,
    /// The closing part, once it has arrived.
    pub fin: Option<ProposalFin>,
    /// The parts taken from the wire so far, in their order.
    pub accepted: Ghost<Seq<PartModel>>,
    /// What the batcher was sent so far, in its order.
    pub forwarded: Ghost<Seq<ContentModel>>,
}

impl View for ValidatePipeline {
    type V = ValidateState;

    open spec fn view(&self) -> ValidateState {
        ValidateState {
            phase: self.phase,
            block_info: self.block_info,
            raw_blob_fee: self.raw_blob_fee,
            batches: batches_model(self.content@),
            fin: self.fin,
            accepted: self.accepted@,
            forwarded: self.forwarded@,
        }
    }
}

impl ValidatePipeline {
    /// The state is one that a validation can reach.
    pub open spec fn wf(&self) -> bool {
        validate_consistent(self.setup, self@)
    }

    /// Starts a validation: the first thing to do is to tell the batcher the
    /// height.
    pub fn start(setup: PipelineSetup) -> (started: (ValidatePipeline, ValidateAction))
        requires
            setup.params.ordered(),
        ensures
            started.0.wf(),
            started.0.setup == setup,
            started.0@ == validate_initial(),
            started.1@ == (ValidateActionModel::StartHeight { height: setup.init.height }),
    {
        let pipeline = ValidatePipeline {
            setup,
            phase: ValidatePhase::StartingHeight,
            block_info: None,
            raw_blob_fee: 0,
            content: Vec::new(),
            fin: None,
            accepted: Ghost(Seq::empty()),
            forwarded: Ghost(Seq::empty()),
        };
        assert(pipeline@.batches =~= Seq::empty());
        (pipeline, ValidateAction::StartHeight { height: setup.init.height })
    }

    /// Whether the validation is over, in success or not.
    pub fn is_over(&self) -> (over: bool)
        ensures
            over <==> self.phase == ValidatePhase::Done || self.phase == ValidatePhase::Cancelled,
    {
        match self.phase {
            ValidatePhase::Done | ValidatePhase::Cancelled => true,
            _ => false,
        }
    }

    /// Cancels the validation.
    fn abort(&mut self) -> (action: ValidateAction)
        ensures
            final(self).setup == old(self).setup,
            (final(self)@, action@) == awaiting(
                old(self)@,
                ValidatePhase::Cancelled,
                ValidateActionModel::Abort,
            ),
    {
        self.phase = ValidatePhase::Cancelled;
        ValidateAction::Abort
    }

    /// Takes the outcome of the last action and decides the next one.
    pub fn on_event(&mut self, event: ValidateEvent) -> (action: ValidateAction)
        requires
            old(self).wf(),
        ensures
            final(self).wf(),
            final(self).setup == old(self).setup,
            (final(self)@, action@) == validate_step(old(self).setup, old(self)@, event@),
    {
        proof {
            lemma_validate_step_consistent(self.setup, self@, event@);
        }
        let height = self.setup.init.height;
        let proposal_id = self.setup.proposal_id;
        match (self.phase, event) {
            (ValidatePhase::Done, _) => ValidateAction::Ignore,
            (ValidatePhase::Cancelled, _) => ValidateAction::Ignore,
            (ValidatePhase::StartingHeight, ValidateEvent::HeightStarted(outcome)) => {
                match outcome {
                    StartHeightOutcome::Failed => self.abort(),
                    _ => {
                        self.phase = ValidatePhase::AwaitingBlockInfo;
                        ValidateAction::ReadPart
                    },
                }
            },
            (ValidatePhase::AwaitingBlockInfo, ValidateEvent::Part(ProposalPart::BlockInfo(info))) => {
                self.block_info = Some(info);
                self.accepted = Ghost(self.accepted@.push(PartModel::BlockInfo(info)));
                self.phase = ValidatePhase::Pricing;
                ValidateAction::FetchPrices { height, timestamp: info.timestamp }
            },
            (ValidatePhase::Pricing, ValidateEvent::Prices { prices, rate }) => {
                let received = self.block_info.unwrap();
                let local = price_block(
                    &self.setup.params,
                    height,
                    received.timestamp,
                    received.builder,
                    received.l1_da_mode,
                    prices,
                    rate,
                    self.setup.previous,
                );
                if accept_prices(&self.setup.params, &received, &local.block_info) {
                    self.raw_blob_fee = local.raw_blob_fee;
                    self.phase = ValidatePhase::StartingValidation;
                    ValidateAction::ValidateBlock {
                        proposal_id,
                        height,
                        deadline_ms: self.setup.deadline_ms,
                    }
                } else {
                    self.abort()
                }
            },
            (ValidatePhase::StartingValidation, ValidateEvent::ValidateAccepted) => {
                self.phase = ValidatePhase::AwaitingContent;
                ValidateAction::ReadPart
            },
            (
                ValidatePhase::AwaitingContent,
                ValidateEvent::Part(ProposalPart::Transactions(batch)),
            ) => {
                let ghost before = batches_model(self.content@);
                self.content.push(batch.duplicate());
                assert(batches_model(self.content@) =~= before.push(batch@));
                self.accepted = Ghost(self.accepted@.push(PartModel::Transactions(batch@)));
                self.forwarded = Ghost(self.forwarded@.push(ContentModel::Txs(batch@)));
                self.phase = ValidatePhase::ForwardingTransactions;
                ValidateAction::SendTransactions { proposal_id, batch }
            },
            (
                ValidatePhase::ForwardingTransactions,
                ValidateEvent::Status(ProposalStatus::Processing),
            ) => {
                self.phase = ValidatePhase::AwaitingContent;
                ValidateAction::ReadPart
            },
            (ValidatePhase::AwaitingContent, ValidateEvent::Part(ProposalPart::Fin(fin))) => {
                self.fin = Some(fin);
                self.accepted = Ghost(self.accepted@.push(PartModel::Fin(fin)));
                self.forwarded = Ghost(self.forwarded@.push(ContentModel::Finish));
                self.phase = ValidatePhase::Finishing;
                ValidateAction::SendFinish { proposal_id }
            },
            (
                ValidatePhase::Finishing,
                ValidateEvent::Status(ProposalStatus::Finished(commitment)),
            ) => {
                let expected = self.fin.unwrap().proposal_commitment;
                if commitment_to_block_hash(commitment).same(&expected) {
                    self.phase = ValidatePhase::Done;
                    ValidateAction::Resolve(expected)
                } else {
                    self.abort()
                }
            },
            _ => self.abort(),
        }
    }

    /// The proposal that a finished validation has accepted, under its block
    /// hash.
    pub fn validated(&self) -> (result: (BlockHash, CachedProposal))
        requires
            self.wf(),
            self.phase == ValidatePhase::Done,
        ensures
            result.0 == self.fin.unwrap().proposal_commitment,
            result.1@ == validated_proposal(self@),
    {
        let fin = self.fin.unwrap();
        let proposal = CachedProposal {
            block_info: self.block_info.unwrap(),
            transactions: duplicate_batches(&self.content),
            fin,
        };
        (fin.proposal_commitment, proposal)
    }
}

/// Every step leads from a reachable state to a reachable state.
pub proof fn lemma_validate_step_consistent(
    setup: PipelineSetup,
    state: ValidateState,
    event: ValidateEventModel,
)
    requires
        validate_consistent(setup, state),
    ensures
        validate_consistent(setup, validate_step(setup, state, event).0),
{
    let next = validate_step(setup, state, event).0;
    match (state.phase, event) {
        (ValidatePhase::Pricing, ValidateEventModel::Prices { prices, rate }) => {
            let received = state.block_info.unwrap();
            crate::gas_price::lemma_priced_is_derived(
                setup.params,
                setup.init.height,
                received.timestamp,
                received.builder,
                received.l1_da_mode,
                prices,
                rate,
                setup.previous,
            );
            crate::gas_price::lemma_assembled_within_bounds(
                setup.params,
                setup.init.height,
                received.timestamp,
                received.builder,
                received.l1_da_mode,
                prices,
                rate,
                setup.previous,
            );
        },
        (
            ValidatePhase::AwaitingBlockInfo,
            ValidateEventModel::Part(PartModel::BlockInfo(info)),
        ) => {
            assert(next.accepted =~= accepted_head(info, next.batches));
        },
        (
            ValidatePhase::AwaitingContent,
            ValidateEventModel::Part(PartModel::Transactions(batch)),
        ) => {
            assert(next.forwarded =~= as_content(next.batches));
            assert(next.accepted =~= accepted_head(next.block_info.unwrap(), next.batches));
        },
        (ValidatePhase::StartingValidation, ValidateEventModel::ValidateAccepted) => {
            assert(next.forwarded =~= as_content(next.batches));
        },
        _ => {},
    }
}

/// The proposal that a validation accepts is the one that came over the
/// wire: its stream under the opening part is that part followed by the parts
/// taken from the wire, in their order, and it is well ordered. Sending it
/// again repeats those parts.
pub proof fn lemma_accepted_is_what_arrived(setup: PipelineSetup, state: ValidateState)
    requires
        validate_consistent(setup, state),
        state.phase == ValidatePhase::Done,
    ensures
        stream_of(setup.init, validated_proposal(state)) == seq![PartModel::Init(setup.init)]
            + state.accepted,
        well_ordered(seq![PartModel::Init(setup.init)] + state.accepted),
{
    let proposal = validated_proposal(state);
    crate::stream::lemma_encoded_decodes(setup.init, proposal);
    assert(stream_of(setup.init, proposal) =~= seq![PartModel::Init(setup.init)] + state.accepted);
}

/// What is forwarded to the batcher follows what is taken from the wire, part
/// for part: each batch is forwarded as it is, the closing part as `Finish`,
/// and the block info is not forwarded.
pub proof fn lemma_forwarded_follows_accepted(setup: PipelineSetup, state: ValidateState)
    requires
        validate_consistent(setup, state),
        state.phase != ValidatePhase::Cancelled,
        state.accepted.len() > 0,
    ensures
        state.forwarded.len() == state.accepted.len() - 1,
        forall|i: int|
            0 <= i < state.forwarded.len() ==> #[trigger] state.forwarded[i] == match state.accepted[i
                + 1] {
                PartModel::Transactions(batch) => ContentModel::Txs(batch),
                _ => ContentModel::Finish,
            },
{
}

/// A validation resolves to a hash only when the batcher finished with a
/// commitment that, widened, equals the hash of the closing part; and that
/// hash is the one it resolves to.
pub proof fn lemma_resolve_needs_agreement(
    setup: PipelineSetup,
    state: ValidateState,
    event: ValidateEventModel,
)
    requires
        validate_consistent(setup, state),
        validate_step(setup, state, event).1 is Resolve,
    ensures
        state.phase == ValidatePhase::Finishing,
        event is Status,
        event->Status_0 is Finished,
        widened(event->Status_0->Finished_0) == state.fin.unwrap().proposal_commitment,
        validate_step(setup, state, event).1 == ValidateActionModel::Resolve(
            state.fin.unwrap().proposal_commitment,
        ),
        validate_step(setup, state, event).0.phase == ValidatePhase::Done,
{
}

/// The batcher is sent the batches in the order in which they were read, and
/// `Finish` once, after the closing part was read: a validation that succeeded
/// has forwarded exactly the batches of the accepted proposal, then `Finish`.
pub proof fn lemma_forwarded_in_order(setup: PipelineSetup, state: ValidateState)
    requires
        validate_consistent(setup, state),
    ensures
        finish_only_last(state.forwarded),
        state.phase == ValidatePhase::Done ==> state.forwarded == as_content(
            validated_proposal(state).batches,
        ).push(ContentModel::Finish),
{
}

/// A block info whose rate is outside the margin of the local rate ends the
/// validation before anything was forwarded to the batcher.
pub proof fn lemma_rate_out_of_margin_aborts(
    setup: PipelineSetup,
    state: ValidateState,
    prices: Option<PriceInfo>,
    rate: Option<u128>,
)
    requires
        validate_consistent(setup, state),
        state.phase == ValidatePhase::Pricing,
        !rate_within_margin(
            state.block_info.unwrap().eth_to_fri_rate,
            local_block_info(setup, state.block_info.unwrap(), prices, rate).eth_to_fri_rate,
            setup.params.eth_to_fri_rate_margin_ppm,
        ),
    ensures
        ({
            let (next, action) = validate_step(
                setup,
                state,
                ValidateEventModel::Prices { prices, rate },
            );
            &&& action is Abort
            &&& next.phase == ValidatePhase::Cancelled
            &&& next.forwarded.len() == 0
        }),
{
}

/// A validation that is over asks for nothing more: every event is ignored
/// and the state stays as it is.
pub proof fn lemma_validate_over_is_final(
    setup: PipelineSetup,
    state: ValidateState,
    event: ValidateEventModel,
)
    requires
        state.phase == ValidatePhase::Done || state.phase == ValidatePhase::Cancelled,
    ensures
        validate_step(setup, state, event) == (state, ValidateActionModel::Ignore),
{
}

/// The state of a validation after a sequence of events, from the start.
pub open spec fn validate_after(setup: PipelineSetup, events: Seq<ValidateEventModel>)
    -> ValidateState
    decreases events.len(),
{
    if events.len() == 0 {
        validate_initial()
    } else {
        validate_step(setup, validate_after(setup, events.drop_last()), events.last()).0
    }
}

/// Whatever the events, a validation stays consistent, and what it has
/// forwarded holds `Finish` at most once, at the end.
pub proof fn lemma_every_validation_consistent(
    setup: PipelineSetup,
    events: Seq<ValidateEventModel>,
)
    requires
        setup.params.ordered(),
    ensures
        validate_consistent(setup, validate_after(setup, events)),
        finish_only_last(validate_after(setup, events).forwarded),
    decreases events.len(),
{
    if events.len() > 0 {
        lemma_every_validation_consistent(setup, events.drop_last());
        lemma_validate_step_consistent(
            setup,
            validate_after(setup, events.drop_last()),
            events.last(),
        );
    }
}

/// Whether `event` reports a failure: a refusal or a verdict of the batcher,
/// a transaction that could not be converted, a stream that ended, or the
/// deadline.
pub open spec fn validate_failure(event: ValidateEventModel) -> bool {
    match event {
        ValidateEventModel::HeightStarted(outcome) => outcome == StartHeightOutcome::Failed,
        ValidateEventModel::EndOfStream => true,
        ValidateEventModel::ValidateRejected => true,
        ValidateEventModel::ConverterFailed => true,
        ValidateEventModel::Status(status) => status == ProposalStatus::InvalidProposal || status
            == ProposalStatus::Aborted,
        ValidateEventModel::BatcherFailed => true,
        ValidateEventModel::DeadlineExpired => true,
        _ => false,
    }
}

/// A failure at any point of a validation that is not over cancels it: the
/// validation aborts, and forwards nothing more to the batcher.
pub proof fn lemma_validate_failure_cancels(
    setup: PipelineSetup,
    state: ValidateState,
    event: ValidateEventModel,
)
    requires
        state.phase != ValidatePhase::Done,
        state.phase != ValidatePhase::Cancelled,
        validate_failure(event),
    ensures
        validate_step(setup, state, event) == (
            ValidateState { phase: ValidatePhase::Cancelled, ..state },
            ValidateActionModel::Abort,
        ),
{
}

/// A part out of order cancels the validation: anything but a block info
/// first, and an opening part or a block info among the batches.
pub proof fn lemma_misplaced_part_cancels(
    setup: PipelineSetup,
    state: ValidateState,
    part: PartModel,
)
    requires
        (state.phase == ValidatePhase::AwaitingBlockInfo && !(part is BlockInfo)) || (state.phase
            == ValidatePhase::AwaitingContent && (part is Init || part is BlockInfo)),
    ensures
        validate_step(setup, state, ValidateEventModel::Part(part)) == (
            ValidateState { phase: ValidatePhase::Cancelled, ..state },
            ValidateActionModel::Abort,
        ),
{
}

} // verus!

use std::collections::VecDeque;

use consensus_orchestrator::config::{ContextConfig, DEFAULT_ETH_TO_FRI_RATE, MIN_L2_GAS_PRICE_FRI};
use consensus_orchestrator::controller::{
    BuildStart,
    Controller,
    ControllerError,
    Decision,
    ProposalRole,
    Transition,
    ValidateStart,
};
use consensus_orchestrator::decision::{
    DecisionAction,
    DecisionEvent,
    DecisionPhase,
    DecisionPipeline,
};
use consensus_orchestrator::gas_price::{PriceInfo, PricedBlock};
use consensus_orchestrator::proposer::{
    BuildAction,
    BuildEvent,
    BuildPhase,
    BuildPipeline,
    PipelineSetup,
    StartHeightOutcome,
};
use consensus_orchestrator::stream::{decode_proposal, CachedProposal};
use consensus_orchestrator::types::{
    BlockHash,
    BlockNumber,
    ConsensusBlockInfo,
    ContractAddress,
    Felt,
    L1DataAvailabilityMode,
    ProposalCommitment,
    ProposalFin,
    ProposalInit,
    ProposalPart,
    Transaction,
    TransactionBatch,
};
use consensus_orchestrator::validator::{
    ProposalStatus,
    ValidateAction,
    ValidateEvent,
    ValidatePhase,
    ValidatePipeline,
};

const TIMEOUT_MS: u64 = 1200;
const CHANNEL_SIZE: usize = 5000;
const NUM_VALIDATORS: u64 = 4;
const ETH_TO_FRI_RATE: u128 = 1_000_000_000_000_000_000;
const TEMP_ETH_GAS_FEE_IN_WEI: u128 = 1_000_000_000;
const TEMP_ETH_BLOB_GAS_FEE_IN_WEI: u128 = 100_000_000;
const NOW: u64 = 1_700_000_000;

fn state_diff_commitment() -> ProposalCommitment {
    ProposalCommitment { state_diff_commitment: Felt { high: 0, low: 0 } }
}

fn zero_hash() -> BlockHash {
    BlockHash(Felt { high: 0, low: 0 })
}

fn generate_invoke_tx(nonce: u8) -> Transaction {
    Transaction { payload: vec![0x49, 0x4e, 0x56, nonce] }
}

fn tx_batch() -> TransactionBatch {
    TransactionBatch { transactions: (0..3).map(generate_invoke_tx).collect() }
}

fn block_info(height: BlockNumber) -> ConsensusBlockInfo {
    let context_config = ContextConfig::default();
    ConsensusBlockInfo {
        height,
        timestamp: NOW,
        builder: ContractAddress::default(),
        l1_da_mode: L1DataAvailabilityMode::Blob,
        l2_gas_price_fri: MIN_L2_GAS_PRICE_FRI,
        l1_gas_price_wei: TEMP_ETH_GAS_FEE_IN_WEI,
        l1_data_gas_price_wei: TEMP_ETH_BLOB_GAS_FEE_IN_WEI
            * u128::from(context_config.l1_data_gas_price_multiplier_ppt)
            / 1000,
        eth_to_fri_rate: ETH_TO_FRI_RATE,
    }
}

fn setup() -> Controller {
    Controller::new(ContextConfig {
        proposal_buffer_size: CHANNEL_SIZE,
        num_validators: NUM_VALIDATORS,
        ..Default::default()
    })
    .unwrap()
}

/// What the collaborators of a pipeline answer.
struct Doubles {
    start_height: StartHeightOutcome,
    timestamp: u64,
    prices: Option<PriceInfo>,
    rate: Option<u128>,
    batcher_ready: bool,
    content: VecDeque<BuildEvent>,
    statuses: VecDeque<ProposalStatus>,
    /// `None`: the blob write never ends, and the deadline passes.
    blob: Option<bool>,
}

fn dummy_price_info() -> PriceInfo {
    PriceInfo { base_fee_per_gas: TEMP_ETH_GAS_FEE_IN_WEI, blob_fee: TEMP_ETH_BLOB_GAS_FEE_IN_WEI }
}

fn doubles_for_build() -> Doubles {
    Doubles {
        start_height: StartHeightOutcome::Started,
        timestamp: NOW,
        prices: Some(dummy_price_info()),
        rate: Some(ETH_TO_FRI_RATE),
        batcher_ready: true,
        content: VecDeque::from(vec![
            BuildEvent::Content(tx_batch()),
            BuildEvent::Finished(state_diff_commitment()),
        ]),
        statuses: VecDeque::new(),
        blob: Some(true),
    }
}

fn doubles_for_validate() -> Doubles {
    Doubles {
        content: VecDeque::new(),
        statuses: VecDeque::from(vec![
            ProposalStatus::Processing,
            ProposalStatus::Finished(state_diff_commitment()),
        ]),
        ..doubles_for_build()
    }
}

#[derive(Debug, PartialEq)]
enum Promise {
    Resolved(BlockHash),
    Cancelled,
    Pending,
}

struct BuildRun {
    promise: Promise,
    sink: Vec<ProposalPart>,
    blob_writes: Vec<BlockNumber>,
    batcher_calls: usize,
}

fn drive_build(context: &mut Controller, start: BuildStart, doubles: &mut Doubles) -> BuildRun {
    let mut run =
        BuildRun { promise: Promise::Pending, sink: vec![], blob_writes: vec![], batcher_calls: 0 };
    let mut action = start.action;
    loop {
        let event = match action {
            BuildAction::StartHeight { .. } => {
                run.batcher_calls += 1;
                BuildEvent::HeightStarted(doubles.start_height)
            }
            BuildAction::FetchPrices { .. } => BuildEvent::Prices {
                timestamp: doubles.timestamp,
                prices: doubles.prices,
                rate: doubles.rate,
            },
            BuildAction::BeginBlobWrite { previous_height } => {
                run.blob_writes.push(previous_height);
                BuildEvent::BlobWriteBegun
            }
            BuildAction::Emit(part) => {
                run.sink.push(part);
                BuildEvent::Sent
            }
            BuildAction::ProposeBlock { proposal_id, .. } => {
                assert_eq!(proposal_id, start.proposal_id);
                run.batcher_calls += 1;
                if doubles.batcher_ready {
                    BuildEvent::ProposeAccepted
                } else {
                    BuildEvent::ProposeRejected
                }
            }
            BuildAction::GetContent { proposal_id } => {
                assert_eq!(proposal_id, start.proposal_id);
                run.batcher_calls += 1;
                doubles.content.pop_front().unwrap_or(BuildEvent::BatcherFailed)
            }
            BuildAction::AwaitBlob => match doubles.blob {
                Some(written) => BuildEvent::BlobWritten(written),
                None => BuildEvent::DeadlineExpired,
            },
            BuildAction::Resolve(hash) => {
                run.promise = Promise::Resolved(hash);
                return run;
            }
            BuildAction::Abort => {
                run.promise = Promise::Cancelled;
                return run;
            }
            BuildAction::Ignore => return run,
        };
        action = context.on_build_event(start.proposal_id, event);
    }
}

struct ValidateRun {
    promise: Promise,
    sent_to_batcher: Vec<Option<TransactionBatch>>,
    validate_block_calls: usize,
}

/// Feeds `parts` to the validation; once they are used up the stream is
/// closed, or stays open until the deadline passes.
fn drive_validate(
    context: &mut Controller,
    proposal_id: u64,
    first: ValidateAction,
    parts: Vec<ProposalPart>,
    closed: bool,
    doubles: &mut Doubles,
) -> ValidateRun {
    let mut run =
        ValidateRun { promise: Promise::Pending, sent_to_batcher: vec![], validate_block_calls: 0 };
    let mut parts = VecDeque::from(parts);
    let mut action = first;
    loop {
        let event = match action {
            ValidateAction::StartHeight { .. } => ValidateEvent::HeightStarted(doubles.start_height),
            ValidateAction::ReadPart => match parts.pop_front() {
                Some(part) => ValidateEvent::Part(part),
                None if closed => ValidateEvent::EndOfStream,
                None => ValidateEvent::DeadlineExpired,
            },
            ValidateAction::FetchPrices { .. } => {
                ValidateEvent::Prices { prices: doubles.prices, rate: doubles.rate }
            }
            ValidateAction::ValidateBlock { .. } => {
                run.validate_block_calls += 1;
                if doubles.batcher_ready {
                    ValidateEvent::ValidateAccepted
                } else {
                    ValidateEvent::ValidateRejected
                }
            }
            ValidateAction::SendTransactions { batch, .. } => {
                run.sent_to_batcher.push(Some(batch));
                match doubles.statuses.pop_front() {
                    Some(status) => ValidateEvent::Status(status),
                    None => ValidateEvent::BatcherFailed,
                }
            }
            ValidateAction::SendFinish { .. } => {
                run.sent_to_batcher.push(None);
                match doubles.statuses.pop_front() {
                    Some(status) => ValidateEvent::Status(status),
                    None => ValidateEvent::BatcherFailed,
                }
            }
            ValidateAction::Resolve(hash) => {
                run.promise = Promise::Resolved(hash);
                return run;
            }
            ValidateAction::Abort => {
                run.promise = Promise::Cancelled;
                return run;
            }
            ValidateAction::Ignore => return run,
        };
        action = context.on_validate_event(proposal_id, event);
    }
}

fn started(start: ValidateStart) -> (u64, ValidateAction) {
    match start {
        ValidateStart::Started { proposal_id, action, .. } => (proposal_id, action),
        other => panic!("Expected ValidateStart::Started, got {:?}", other),
    }
}

fn full_stream(info: ConsensusBlockInfo) -> Vec<ProposalPart> {
    vec![
        ProposalPart::BlockInfo(info),
        ProposalPart::Transactions(tx_batch()),
        ProposalPart::Fin(ProposalFin { proposal_commitment: zero_hash() }),
    ]
}

fn validate_full(context: &mut Controller, init: ProposalInit) -> ValidateRun {
    let (id, action) = started(context.validate_proposal(init, TIMEOUT_MS).unwrap());
    let height = init.height;
    drive_validate(context, id, action, full_stream(block_info(height)), true, &mut doubles_for_validate())
}

#[test]
fn cancelled_proposal_aborts() {
    let mut context = setup();
    let start = context.build_proposal(ProposalInit::default(), TIMEOUT_MS).unwrap();
    let id = start.proposal_id;
    let action = context.on_build_event(id, BuildEvent::HeightStarted(StartHeightOutcome::Started));
    assert_eq!(action, BuildAction::FetchPrices { height: BlockNumber(0) });

    // Now we interrupt the proposal: its promise is to be completed as cancelled.
    let transition = context.set_height_and_round(BlockNumber(0), 1).unwrap();
    assert_eq!(transition, Transition { cancelled: Some(id), store_cleared: false });
    assert_eq!(context.active_proposal_id(), None);

    // The interrupted build gets nothing more to do.
    let event = BuildEvent::Prices { timestamp: NOW, prices: None, rate: None };
    assert_eq!(context.on_build_event(id, event), BuildAction::Ignore);
}

#[test]
fn validate_proposal_success() {
    let mut context = setup();
    assert!(context.set_height_and_round(BlockNumber(0), 0).is_ok());
    let run = validate_full(&mut context, ProposalInit::default());
    assert_eq!(run.promise, Promise::Resolved(zero_hash()));
    assert_eq!(run.sent_to_batcher, vec![Some(tx_batch()), None]);
    assert_eq!(run.validate_block_calls, 1);
}

#[test]
fn dont_send_block_info() {
    let mut context = setup();
    assert!(context.set_height_and_round(BlockNumber(0), 0).is_ok());
    let (id, action) =
        started(context.validate_proposal(ProposalInit::default(), TIMEOUT_MS).unwrap());
    let run = drive_validate(&mut context, id, action, vec![], true, &mut doubles_for_validate());
    // No block info was sent, the proposal is invalid.
    assert_eq!(run.promise, Promise::Cancelled);
    assert_eq!(run.validate_block_calls, 0);
}

#[test]
fn first_part_must_be_block_info() {
    let mut context = setup();
    let (id, action) =
        started(context.validate_proposal(ProposalInit::default(), TIMEOUT_MS).unwrap());
    let parts = vec![ProposalPart::Transactions(tx_batch())];
    let run = drive_validate(&mut context, id, action, parts, true, &mut doubles_for_validate());
    assert_eq!(run.promise, Promise::Cancelled);
    assert!(run.sent_to_batcher.is_empty());
}

#[test]
fn repropose() {
    // Receive a proposal. Then re-retrieve it.
    let mut context = setup();
    assert!(context.set_height_and_round(BlockNumber(0), 0).is_ok());
    let block_info = ProposalPart::BlockInfo(block_info(BlockNumber(0)));
    let transactions = ProposalPart::Transactions(tx_batch());
    let fin = ProposalPart::Fin(ProposalFin { proposal_commitment: zero_hash() });
    let run = validate_full(&mut context, ProposalInit::default());
    assert_eq!(run.promise, Promise::Resolved(zero_hash()));

    let init = ProposalInit { round: 1, ..Default::default() };
    let parts = context.repropose(zero_hash(), init).unwrap();
    assert_eq!(parts.len(), 4);
    assert_eq!(parts[0], ProposalPart::Init(init));
    assert_eq!(parts[1], block_info);
    assert_eq!(parts[2], transactions);
    assert_eq!(parts[3], fin);
}

#[test]
fn repropose_unknown_hash_is_refused() {
    let context = setup();
    let unknown = BlockHash(Felt { high: 0, low: 7 });
    assert_eq!(
        context.repropose(unknown, ProposalInit::default()),
        Err(ControllerError::UnknownProposal)
    );
}

#[test]
fn proposals_from_different_rounds() {
    let mut context = setup();
    assert!(context.set_height_and_round(BlockNumber(0), 0).is_ok());
    assert!(context.set_height_and_round(BlockNumber(0), 1).is_ok());

    // The proposal from the past round is ignored.
    let mut init = ProposalInit { round: 0, ..Default::default() };
    assert_eq!(context.validate_proposal(init, TIMEOUT_MS), Ok(ValidateStart::PastRound));
    assert_eq!(context.active_proposal_id(), None);

    // The proposal from the current round should be validated.
    init.round = 1;
    let run = validate_full(&mut context, init);
    assert_eq!(run.promise, Promise::Resolved(zero_hash()));

    // The proposal from the future round should not be processed.
    let future = ProposalInit { round: 2, ..Default::default() };
    assert_eq!(context.validate_proposal(future, TIMEOUT_MS), Ok(ValidateStart::FutureRound));
    assert_eq!(context.active_proposal_id(), None);
    assert_eq!(context.round(), 1);
}

#[test]
fn interrupt_active_proposal() {
    let mut context = setup();
    assert!(context.set_height_and_round(BlockNumber(0), 0).is_ok());

    // The sender of the first proposal stays silent.
    let (id_0, action) =
        started(context.validate_proposal(ProposalInit::default(), TIMEOUT_MS).unwrap());
    assert_eq!(action, ValidateAction::StartHeight { height: BlockNumber(0) });

    // A proposal for the next round arrives early: it is dropped.
    let next_round = ProposalInit { round: 1, ..Default::default() };
    assert_eq!(context.validate_proposal(next_round, TIMEOUT_MS), Ok(ValidateStart::FutureRound));
    assert_eq!(context.active_proposal_id(), Some(id_0));

    // Move the context to the next round: the active proposal is interrupted.
    let transition = context.set_height_and_round(BlockNumber(0), 1).unwrap();
    assert_eq!(transition.cancelled, Some(id_0));
    let event = ValidateEvent::HeightStarted(StartHeightOutcome::Started);
    assert_eq!(context.on_validate_event(id_0, event), ValidateAction::Ignore);

    // In its own round the same proposal is validated.
    let run = validate_full(&mut context, next_round);
    assert_eq!(run.promise, Promise::Resolved(zero_hash()));
}

#[test]
fn second_validation_preempts_the_first() {
    let mut context = setup();
    let (id_0, _) =
        started(context.validate_proposal(ProposalInit::default(), TIMEOUT_MS).unwrap());
    match context.validate_proposal(ProposalInit::default(), TIMEOUT_MS).unwrap() {
        ValidateStart::Started { proposal_id, preempted, .. } => {
            assert_ne!(proposal_id, id_0);
            assert_eq!(preempted, Some(id_0));
            assert_eq!(context.active_proposal_id(), Some(proposal_id));
        }
        other => panic!("Expected ValidateStart::Started, got {:?}", other),
    }
    let event = ValidateEvent::HeightStarted(StartHeightOutcome::Started);
    assert_eq!(context.on_validate_event(id_0, event), ValidateAction::Ignore);
}

#[test]
fn build_proposal() {
    let mut context = setup();
    let start = context.build_proposal(ProposalInit::default(), TIMEOUT_MS).unwrap();
    assert_eq!(start.action, BuildAction::StartHeight { height: BlockNumber(0) });
    let run = drive_build(&mut context, start, &mut doubles_for_build());
    // Test proposal parts.
    assert_eq!(run.sink.len(), 4);
    assert_eq!(run.sink[0], ProposalPart::Init(ProposalInit::default()));
    let ProposalPart::BlockInfo(info) = run.sink[1].clone() else {
        panic!("Expected ProposalPart::BlockInfo");
    };
    assert_eq!(info.timestamp, NOW);
    assert_eq!(info.eth_to_fri_rate, ETH_TO_FRI_RATE);
    assert_eq!(info, block_info(BlockNumber(0)));
    assert_eq!(run.sink[2], ProposalPart::Transactions(tx_batch()));
    assert_eq!(run.sink[3], ProposalPart::Fin(ProposalFin { proposal_commitment: zero_hash() }));
    assert_eq!(run.promise, Promise::Resolved(zero_hash()));
    // At the first height there is no earlier blob to write.
    assert!(run.blob_writes.is_empty());
    assert_eq!(context.active_proposal_id(), None);
}

#[test]
fn build_proposal_deadline_is_shortened() {
    let mut context = setup();
    let start = context.build_proposal(ProposalInit::default(), TIMEOUT_MS).unwrap();
    let id = start.proposal_id;
    context.on_build_event(id, BuildEvent::HeightStarted(StartHeightOutcome::AlreadyStarted));
    context.on_build_event(
        id,
        BuildEvent::Prices { timestamp: NOW, prices: None, rate: None },
    );
    context.on_build_event(id, BuildEvent::Sent);
    let action = context.on_build_event(id, BuildEvent::Sent);
    assert_eq!(
        action,
        BuildAction::ProposeBlock { proposal_id: id, height: BlockNumber(0), deadline_ms: 200 }
    );
}

#[test]
fn build_proposal_start_height_failure() {
    let mut context = setup();
    let start = context.build_proposal(ProposalInit::default(), TIMEOUT_MS).unwrap();
    let mut doubles = Doubles { start_height: StartHeightOutcome::Failed, ..doubles_for_build() };
    let run = drive_build(&mut context, start, &mut doubles);
    assert_eq!(run.promise, Promise::Cancelled);
    assert!(run.sink.is_empty());
}

#[test]
fn build_proposal_names_a_wrong_round() {
    let mut context = setup();
    let init = ProposalInit { round: 3, ..Default::default() };
    assert_eq!(context.build_proposal(init, TIMEOUT_MS), Err(ControllerError::NotCurrent));
    let init = ProposalInit { height: BlockNumber(1), ..Default::default() };
    assert_eq!(context.validate_proposal(init, TIMEOUT_MS), Err(ControllerError::NotCurrent));
}

fn build_at_height_one(doubles: &mut Doubles) -> BuildRun {
    let mut context = setup();
    assert!(context.set_height_and_round(BlockNumber(1), 0).is_ok());
    let init = ProposalInit { height: BlockNumber(1), ..Default::default() };
    let start = context.build_proposal(init, TIMEOUT_MS).unwrap();
    drive_build(&mut context, start, doubles)
}

#[test]
fn build_proposal_cende_success() {
    let run = build_at_height_one(&mut doubles_for_build());
    assert_eq!(run.promise, Promise::Resolved(zero_hash()));
    assert_eq!(run.blob_writes, vec![BlockNumber(0)]);
    assert_eq!(run.sink.len(), 4);
}

#[test]
fn build_proposal_cende_failure() {
    let mut doubles = Doubles { blob: Some(false), ..doubles_for_build() };
    let run = build_at_height_one(&mut doubles);
    assert_eq!(run.promise, Promise::Cancelled);
    assert_eq!(run.blob_writes, vec![BlockNumber(0)]);
    // No closing part went out.
    assert_eq!(run.sink.len(), 3);
    assert!(run.sink.iter().all(|part| !matches!(part, ProposalPart::Fin(_))));
}

#[test]
fn build_proposal_cende_incomplete() {
    let mut doubles = Doubles { blob: None, ..doubles_for_build() };
    let run = build_at_height_one(&mut doubles);
    assert_eq!(run.promise, Promise::Cancelled);
    assert!(run.sink.iter().all(|part| !matches!(part, ProposalPart::Fin(_))));
}

#[test]
fn batcher_not_ready_proposer() {
    let mut context = setup();
    assert!(context.set_height_and_round(BlockNumber::default(), 0).is_ok());
    let start = context.build_proposal(ProposalInit::default(), TIMEOUT_MS).unwrap();
    let mut doubles = Doubles { batcher_ready: false, ..doubles_for_build() };
    let run = drive_build(&mut context, start, &mut doubles);
    assert_eq!(run.promise, Promise::Cancelled);
    // start_height and propose_block, and no call after the refusal.
    assert_eq!(run.batcher_calls, 2);
}

#[test]
fn batcher_not_ready_validator() {
    let mut context = setup();
    assert!(context.set_height_and_round(BlockNumber::default(), 0).is_ok());
    let (id, action) =
        started(context.validate_proposal(ProposalInit::default(), TIMEOUT_MS).unwrap());
    let mut doubles = Doubles { batcher_ready: false, ..doubles_for_validate() };
    let parts = vec![ProposalPart::BlockInfo(block_info(BlockNumber(0)))];
    let run = drive_validate(&mut context, id, action, parts, false, &mut doubles);
    assert_eq!(run.promise, Promise::Cancelled);
    assert_eq!(run.validate_block_calls, 1);
}

#[test]
fn propose_then_repropose() {
    let mut context = setup();
    // Build proposal.
    let start = context.build_proposal(ProposalInit::default(), TIMEOUT_MS).unwrap();
    let run = drive_build(&mut context, start, &mut doubles_for_build());
    assert_eq!(run.promise, Promise::Resolved(zero_hash()));
    let block_info = run.sink[1].clone();
    let txs = run.sink[2].clone();
    let fin = run.sink[3].clone();

    // Re-propose sends the same proposal.
    let init = ProposalInit { round: 1, ..Default::default() };
    let parts = context.repropose(zero_hash(), init).unwrap();
    assert_eq!(parts.len(), 4);
    assert_eq!(parts[0], ProposalPart::Init(init));
    assert_eq!(parts[1], block_info);
    assert_eq!(parts[2], txs);
    assert_eq!(parts[3], fin);
}

#[test]
fn eth_to_fri_rate_out_of_range() {
    let mut context = setup();
    assert!(context.set_height_and_round(BlockNumber(0), 0).is_ok());
    // Send a block info with an eth_to_fri_rate that is outside the margin of error.
    let mut info = block_info(BlockNumber(0));
    info.eth_to_fri_rate *= 2;
    let (id, action) =
        started(context.validate_proposal(ProposalInit::default(), TIMEOUT_MS * 100).unwrap());
    let run = drive_validate(&mut context, id, action, full_stream(info), true, &mut doubles_for_validate());
    assert_eq!(run.promise, Promise::Cancelled);
    // The rejection came before anything reached the batcher.
    assert!(run.sent_to_batcher.is_empty());
    assert_eq!(run.validate_block_calls, 0);
}

fn gas_price_limits(maximum: bool) {
    let context_config = ContextConfig::default();
    let min_gas_price = context_config.min_l1_gas_price_wei;
    let min_data_price = context_config.min_l1_data_gas_price_wei;
    let max_gas_price = context_config.max_l1_gas_price_wei;
    let max_data_price = context_config.max_l1_data_gas_price_wei;

    let price = if maximum { std::cmp::max(max_gas_price, max_data_price) * 100 } else { 0 };
    let prices = Some(PriceInfo { base_fee_per_gas: price, blob_fee: price });

    let mut context = setup();
    assert!(context.set_height_and_round(BlockNumber(0), 0).is_ok());
    let mut info = block_info(BlockNumber(0));
    if maximum {
        info.l1_gas_price_wei = max_gas_price;
        info.l1_data_gas_price_wei = max_data_price;
    } else {
        info.l1_gas_price_wei = min_gas_price;
        info.l1_data_gas_price_wei = min_data_price;
    }

    // Even though we used the minimum/maximum gas price, not the values we gave the provider,
    // the proposal should be still be valid due to the clamping of limit prices.
    let (id, action) =
        started(context.validate_proposal(ProposalInit::default(), TIMEOUT_MS).unwrap());
    let mut doubles = Doubles { prices, ..doubles_for_validate() };
    let run = drive_validate(&mut context, id, action, full_stream(info), true, &mut doubles);
    assert_eq!(run.promise, Promise::Resolved(zero_hash()));

    // A build under the same oracle emits the same limits.
    let mut context = setup();
    let start = context.build_proposal(ProposalInit::default(), TIMEOUT_MS).unwrap();
    let mut doubles = Doubles { prices, ..doubles_for_build() };
    let run = drive_build(&mut context, start, &mut doubles);
    let ProposalPart::BlockInfo(built) = run.sink[1].clone() else {
        panic!("Expected ProposalPart::BlockInfo");
    };
    assert_eq!(built.l1_gas_price_wei, info.l1_gas_price_wei);
    assert_eq!(built.l1_data_gas_price_wei, info.l1_data_gas_price_wei);
}

#[test]
fn gas_price_limits_maximum() {
    gas_price_limits(true);
}

#[test]
fn gas_price_limits_minimum() {
    gas_price_limits(false);
}

#[test]
fn decision_reached_sends_correct_values() {
    const BLOCK_TIME_STAMP_SECONDS: u64 = 123456;
    let mut context = setup();
    let start = context.build_proposal(ProposalInit::default(), TIMEOUT_MS).unwrap();
    let mut doubles = Doubles { timestamp: BLOCK_TIME_STAMP_SECONDS, ..doubles_for_build() };
    let run = drive_build(&mut context, start, &mut doubles);
    assert_eq!(run.promise, Promise::Resolved(zero_hash()));

    // The batcher is told, then state sync gets a block with the timestamp of the proposal.
    let (mut handling, action) = context.begin_decision(zero_hash(), BlockNumber(0)).unwrap();
    assert_eq!(action, DecisionAction::NotifyBatcher { block_hash: zero_hash() });
    let DecisionAction::AddNewBlock { block_info } = handling.on_event(DecisionEvent::BatcherDecided)
    else {
        panic!("Expected DecisionAction::AddNewBlock");
    };
    assert_eq!(block_info.timestamp, BLOCK_TIME_STAMP_SECONDS);
    assert_eq!(
        handling.on_event(DecisionEvent::BlockAdded),
        DecisionAction::PrepareBlob { block_info }
    );
    assert_eq!(
        handling.on_event(DecisionEvent::BlobPrepared),
        DecisionAction::Commit { l2_gas_price_fri: MIN_L2_GAS_PRICE_FRI }
    );
    assert_eq!(handling.phase, DecisionPhase::Committed);

    let decision = context.decision_reached(&handling, BlockNumber(0)).unwrap();
    assert_eq!(decision.block_info.timestamp, BLOCK_TIME_STAMP_SECONDS);
    assert_eq!(decision.l2_gas_price_fri, MIN_L2_GAS_PRICE_FRI);
    assert_eq!(decision.cancelled, None);
    assert_eq!(context.height(), BlockNumber(1));
    assert_eq!(context.round(), 0);
    // The accepted proposals of the decided height are forgotten.
    assert_eq!(
        context.repropose(zero_hash(), ProposalInit::default()),
        Err(ControllerError::UnknownProposal)
    );
}

#[test]
fn decision_on_unknown_proposal_is_refused() {
    let mut context = setup();
    let (mut handling, _) = DecisionPipeline::start(zero_hash(), block_info(BlockNumber(0)));
    handling.on_event(DecisionEvent::BatcherDecided);
    handling.on_event(DecisionEvent::BlockAdded);
    handling.on_event(DecisionEvent::BlobPrepared);
    assert_eq!(
        context.decision_reached(&handling, BlockNumber(0)),
        Err(ControllerError::UnknownProposal)
    );
    assert_eq!(
        context.decision_reached(&handling, BlockNumber(5)),
        Err(ControllerError::NotCurrent)
    );
    assert_eq!(
        context.begin_decision(zero_hash(), BlockNumber(0)),
        Err(ControllerError::UnknownProposal)
    );
    assert_eq!(
        context.begin_decision(zero_hash(), BlockNumber(1)),
        Err(ControllerError::NotCurrent)
    );
    assert_eq!(context.height(), BlockNumber(0));
}

/// Handles a decision with collaborators that all succeed, then commits it.
fn decide(
    context: &mut Controller,
    block_hash: BlockHash,
    height: BlockNumber,
) -> Result<Decision, ControllerError> {
    let (mut handling, _) = context.begin_decision(block_hash, height)?;
    handling.on_event(DecisionEvent::BatcherDecided);
    handling.on_event(DecisionEvent::BlockAdded);
    handling.on_event(DecisionEvent::BlobPrepared);
    context.decision_reached(&handling, height)
}

#[test]
fn decision_is_refused_until_its_handling_has_committed() {
    let mut context = setup();
    let run = validate_full(&mut context, ProposalInit::default());
    assert_eq!(run.promise, Promise::Resolved(zero_hash()));
    let (mut handling, _) = context.begin_decision(zero_hash(), BlockNumber(0)).unwrap();
    let refused = Err(ControllerError::DecisionNotHandled);
    assert_eq!(context.decision_reached(&handling, BlockNumber(0)), refused);
    handling.on_event(DecisionEvent::BatcherDecided);
    assert_eq!(context.decision_reached(&handling, BlockNumber(0)), refused);
    handling.on_event(DecisionEvent::BlockAdded);
    assert_eq!(context.decision_reached(&handling, BlockNumber(0)), refused);
    // A failure of the blob store is final.
    let mut failed = handling;
    assert_eq!(failed.on_event(DecisionEvent::CollaboratorFailed), DecisionAction::Fail);
    assert_eq!(context.decision_reached(&failed, BlockNumber(0)), refused);
    assert_eq!(context.height(), BlockNumber(0));
    // A handling of another block info is not the handling of this proposal.
    let mut other = block_info(BlockNumber(0));
    other.timestamp += 1;
    let (mut foreign, _) = DecisionPipeline::start(zero_hash(), other);
    foreign.on_event(DecisionEvent::BatcherDecided);
    foreign.on_event(DecisionEvent::BlockAdded);
    foreign.on_event(DecisionEvent::BlobPrepared);
    assert_eq!(context.decision_reached(&foreign, BlockNumber(0)), refused);

    handling.on_event(DecisionEvent::BlobPrepared);
    let decision = context.decision_reached(&handling, BlockNumber(0)).unwrap();
    assert_eq!(decision.block_info, block_info(BlockNumber(0)));
    assert_eq!(context.height(), BlockNumber(1));
    assert_eq!(decision.raw_blob_fee, TEMP_ETH_BLOB_GAS_FEE_IN_WEI);
    assert_eq!(
        context.last_block,
        Some(PricedBlock {
            block_info: block_info(BlockNumber(0)),
            raw_blob_fee: TEMP_ETH_BLOB_GAS_FEE_IN_WEI,
        })
    );
}

#[test]
fn decision_cancels_the_active_proposal() {
    let mut context = setup();
    let run = validate_full(&mut context, ProposalInit::default());
    assert_eq!(run.promise, Promise::Resolved(zero_hash()));
    let build = context.build_proposal(ProposalInit::default(), TIMEOUT_MS).unwrap();
    let decision = decide(&mut context, zero_hash(), BlockNumber(0)).unwrap();
    assert_eq!(decision.cancelled, Some(build.proposal_id));
    assert_eq!(context.active_proposal_id(), None);
    let event = BuildEvent::HeightStarted(StartHeightOutcome::Started);
    assert_eq!(context.on_build_event(build.proposal_id, event), BuildAction::Ignore);
}

fn oracle_fails_on_startup(l1_oracle_failure: bool) {
    let mut doubles = if l1_oracle_failure {
        Doubles { prices: None, ..doubles_for_build() }
    } else {
        Doubles { rate: None, ..doubles_for_build() }
    };
    let mut context = setup();
    let init = ProposalInit::default();
    let start = context.build_proposal(init, TIMEOUT_MS).unwrap();
    let run = drive_build(&mut context, start, &mut doubles);

    assert_eq!(run.sink[0], ProposalPart::Init(ProposalInit::default()));
    let ProposalPart::BlockInfo(info) = run.sink[1].clone() else {
        panic!("Expected ProposalPart::BlockInfo");
    };

    let default_context_config = ContextConfig::default();
    assert_eq!(info.eth_to_fri_rate, DEFAULT_ETH_TO_FRI_RATE);
    // Despite the l1_gas_price_provider being set up not to fail, we still expect the default
    // values because eth_to_strk_rate_oracle_client failed.
    assert_eq!(info.l1_gas_price_wei, default_context_config.min_l1_gas_price_wei);
    assert_eq!(info.l1_data_gas_price_wei, default_context_config.min_l1_data_gas_price_wei);

    assert_eq!(run.sink[2], ProposalPart::Transactions(tx_batch()));
    assert_eq!(run.sink[3], ProposalPart::Fin(ProposalFin { proposal_commitment: zero_hash() }));
    assert_eq!(run.sink.len(), 4);
    assert_eq!(run.promise, Promise::Resolved(zero_hash()));
}

#[test]
fn oracle_fails_on_startup_l1_price_oracle_failure() {
    oracle_fails_on_startup(true);
}

#[test]
fn oracle_fails_on_startup_eth_to_strk_rate_oracle_failure() {
    oracle_fails_on_startup(false);
}

fn oracle_fails_on_second_block(l1_oracle_failure: bool) {
    // Validate block number 0, call decision_reached to save the previous block info (block 0),
    // and attempt to build_proposal on block number 1.
    let mut context = setup();
    assert!(context.set_height_and_round(BlockNumber(0), 0).is_ok());
    let run = validate_full(&mut context, ProposalInit::default());
    assert_eq!(run.promise, Promise::Resolved(zero_hash()));

    // Decision reached
    assert!(decide(&mut context, zero_hash(), BlockNumber(0)).is_ok());

    // Build proposal for block number 1, with one oracle out.
    let mut doubles = if l1_oracle_failure {
        Doubles { prices: None, ..doubles_for_build() }
    } else {
        Doubles { rate: None, ..doubles_for_build() }
    };
    let init = ProposalInit { height: BlockNumber(1), ..Default::default() };
    let start = context.build_proposal(init, TIMEOUT_MS).unwrap();
    let run = drive_build(&mut context, start, &mut doubles);

    assert_eq!(
        run.sink[0],
        ProposalPart::Init(ProposalInit { height: BlockNumber(1), ..Default::default() })
    );
    let ProposalPart::BlockInfo(info) = run.sink[1].clone() else {
        panic!("Expected ProposalPart::BlockInfo");
    };

    let previous_block_info = block_info(BlockNumber(0));
    // The data gas price comes from the raw blob fee of block 0, with the multiplier applied
    // once and within the limits.
    let config = ContextConfig::default();
    let expected_l1_data_gas_price = (TEMP_ETH_BLOB_GAS_FEE_IN_WEI
        * u128::from(config.l1_data_gas_price_multiplier_ppt)
        / 1000)
        .clamp(config.min_l1_data_gas_price_wei, config.max_l1_data_gas_price_wei);

    assert_eq!(info.eth_to_fri_rate, previous_block_info.eth_to_fri_rate);
    assert_eq!(info.l1_gas_price_wei, previous_block_info.l1_gas_price_wei);
    assert_eq!(info.l1_data_gas_price_wei, expected_l1_data_gas_price);
    assert_eq!(info.l1_data_gas_price_wei, 13_500_000);
    assert_eq!(info.l1_data_gas_price_wei, previous_block_info.l1_data_gas_price_wei);

    assert_eq!(run.sink[2], ProposalPart::Transactions(tx_batch()));
    assert_eq!(run.sink[3], ProposalPart::Fin(ProposalFin { proposal_commitment: zero_hash() }));
    assert_eq!(run.sink.len(), 4);
    assert_eq!(run.blob_writes, vec![BlockNumber(0)]);
    assert_eq!(run.promise, Promise::Resolved(zero_hash()));
}

#[test]
fn oracle_fails_on_second_block_l1_price_oracle_failure() {
    oracle_fails_on_second_block(true);
}

#[test]
fn oracle_fails_on_second_block_eth_to_strk_rate_oracle_failure() {
    oracle_fails_on_second_block(false);
}

#[test]
fn commitment_mismatch_cancels() {
    let mut context = setup();
    let (id, action) =
        started(context.validate_proposal(ProposalInit::default(), TIMEOUT_MS).unwrap());
    let other = ProposalCommitment { state_diff_commitment: Felt { high: 0, low: 1 } };
    let mut doubles = Doubles {
        statuses: VecDeque::from(vec![ProposalStatus::Processing, ProposalStatus::Finished(other)]),
        ..doubles_for_validate()
    };
    let parts = full_stream(block_info(BlockNumber(0)));
    let run = drive_validate(&mut context, id, action, parts, true, &mut doubles);
    assert_eq!(run.promise, Promise::Cancelled);
    assert_eq!(context.repropose(zero_hash(), ProposalInit::default()), Err(ControllerError::UnknownProposal));
}

#[test]
fn batcher_verdict_before_fin_cancels() {
    let mut context = setup();
    let (id, action) =
        started(context.validate_proposal(ProposalInit::default(), TIMEOUT_MS).unwrap());
    let mut doubles = Doubles {
        statuses: VecDeque::from(vec![ProposalStatus::InvalidProposal]),
        ..doubles_for_validate()
    };
    let parts = full_stream(block_info(BlockNumber(0)));
    let run = drive_validate(&mut context, id, action, parts, true, &mut doubles);
    assert_eq!(run.promise, Promise::Cancelled);
    assert_eq!(run.sent_to_batcher.len(), 1);
}

#[test]
fn stream_ends_before_fin() {
    let mut context = setup();
    let (id, action) =
        started(context.validate_proposal(ProposalInit::default(), TIMEOUT_MS).unwrap());
    let mut parts = full_stream(block_info(BlockNumber(0)));
    parts.pop();
    let run = drive_validate(&mut context, id, action, parts, true, &mut doubles_for_validate());
    assert_eq!(run.promise, Promise::Cancelled);
    assert_eq!(run.sent_to_batcher, vec![Some(tx_batch())]);
}

#[test]
fn set_height_and_round_rejects_a_move_backwards() {
    let mut context = setup();
    assert!(context.set_height_and_round(BlockNumber(2), 3).is_ok());
    assert_eq!(
        context.set_height_and_round(BlockNumber(2), 2),
        Err(ControllerError::Regression)
    );
    assert_eq!(
        context.set_height_and_round(BlockNumber(1), 9),
        Err(ControllerError::Regression)
    );
    assert_eq!(context.height(), BlockNumber(2));
    assert_eq!(context.round(), 3);
    assert_eq!(
        context.set_height_and_round(BlockNumber(2), 3),
        Ok(Transition { cancelled: None, store_cleared: false })
    );
    assert_eq!(
        context.set_height_and_round(BlockNumber(3), 0),
        Ok(Transition { cancelled: None, store_cleared: true })
    );
}

#[test]
fn height_advance_clears_the_store_and_round_advance_keeps_it() {
    let mut context = setup();
    let run = validate_full(&mut context, ProposalInit::default());
    assert_eq!(run.promise, Promise::Resolved(zero_hash()));
    assert!(context.set_height_and_round(BlockNumber(0), 4).is_ok());
    assert!(context.repropose(zero_hash(), ProposalInit::default()).is_ok());
    assert!(context.set_height_and_round(BlockNumber(1), 0).is_ok());
    assert_eq!(
        context.repropose(zero_hash(), ProposalInit::default()),
        Err(ControllerError::UnknownProposal)
    );
}

#[test]
fn unsound_options_are_refused() {
    let config = ContextConfig {
        min_l1_gas_price_wei: 10,
        max_l1_gas_price_wei: 9,
        ..Default::default()
    };
    assert!(matches!(Controller::new(config), Err(ControllerError::InvalidConfig)));
}

#[test]
fn decision_fails_where_a_collaborator_fails() {
    let info = block_info(BlockNumber(0));
    let (mut handling, _) = DecisionPipeline::start(zero_hash(), info);
    assert_eq!(
        handling.on_event(DecisionEvent::BatcherDecided),
        DecisionAction::AddNewBlock { block_info: info }
    );
    assert_eq!(handling.on_event(DecisionEvent::CollaboratorFailed), DecisionAction::Fail);
    assert_eq!(handling.phase, DecisionPhase::Failed);
    assert_eq!(handling.on_event(DecisionEvent::BlockAdded), DecisionAction::Ignore);

    // An outcome out of order is a failure too.
    let (mut handling, _) = DecisionPipeline::start(zero_hash(), info);
    assert_eq!(handling.on_event(DecisionEvent::BlobPrepared), DecisionAction::Fail);
}

#[test]
fn built_stream_is_well_ordered() {
    let mut context = setup();
    let start = context.build_proposal(ProposalInit::default(), TIMEOUT_MS).unwrap();
    let mut doubles = doubles_for_build();
    doubles.content = VecDeque::from(vec![
        BuildEvent::Content(tx_batch()),
        BuildEvent::Content(TransactionBatch { transactions: vec![] }),
        BuildEvent::Content(tx_batch()),
        BuildEvent::Finished(state_diff_commitment()),
    ]);
    let run = drive_build(&mut context, start, &mut doubles);
    assert_eq!(run.promise, Promise::Resolved(zero_hash()));
    assert_eq!(run.sink.len(), 6);
    let (init, proposal) = decode_proposal(&run.sink).unwrap();
    assert_eq!(init, ProposalInit::default());
    assert_eq!(
        proposal,
        CachedProposal {
            block_info: block_info(BlockNumber(0)),
            transactions: vec![
                tx_batch(),
                TransactionBatch { transactions: vec![] },
                tx_batch(),
            ],
            fin: ProposalFin { proposal_commitment: zero_hash() },
        }
    );
}

#[test]
fn validation_preempts_a_build_of_the_same_round() {
    let mut context = setup();
    let build = context.build_proposal(ProposalInit::default(), TIMEOUT_MS).unwrap();
    assert_eq!(build.preempted, None);
    match context.validate_proposal(ProposalInit::default(), TIMEOUT_MS).unwrap() {
        ValidateStart::Started { proposal_id, preempted, .. } => {
            assert_eq!(preempted, Some(build.proposal_id));
            assert!(context.is_validating(proposal_id));
            assert!(!context.is_building(build.proposal_id));
        }
        other => panic!("Expected ValidateStart::Started, got {:?}", other),
    }
    let event = BuildEvent::HeightStarted(StartHeightOutcome::Started);
    assert_eq!(context.on_build_event(build.proposal_id, event), BuildAction::Ignore);
    let again = context.build_proposal(ProposalInit::default(), TIMEOUT_MS).unwrap();
    assert_eq!(again.proposal_id, 2);
    assert_eq!(again.preempted, Some(1));
}

fn pipeline_setup() -> PipelineSetup {
    PipelineSetup {
        params: ContextConfig::default().gas_price_params(),
        previous: None,
        l1_da_mode: L1DataAvailabilityMode::Blob,
        init: ProposalInit { height: BlockNumber(4), ..Default::default() },
        proposal_id: 9,
        deadline_ms: 500,
    }
}

#[test]
fn build_pipeline_step_by_step() {
    let (mut build, action) = BuildPipeline::start(pipeline_setup());
    assert_eq!(action, BuildAction::StartHeight { height: BlockNumber(4) });
    assert!(!build.is_over());
    assert_eq!(
        build.on_event(BuildEvent::HeightStarted(StartHeightOutcome::AlreadyStarted)),
        BuildAction::FetchPrices { height: BlockNumber(4) }
    );
    let prices = BuildEvent::Prices {
        timestamp: 77,
        prices: Some(dummy_price_info()),
        rate: Some(ETH_TO_FRI_RATE),
    };
    assert_eq!(
        build.on_event(prices),
        BuildAction::BeginBlobWrite { previous_height: BlockNumber(3) }
    );
    assert_eq!(
        build.on_event(BuildEvent::BlobWriteBegun),
        BuildAction::Emit(ProposalPart::Init(pipeline_setup().init))
    );
    let info = ConsensusBlockInfo { timestamp: 77, ..block_info(BlockNumber(4)) };
    assert_eq!(build.on_event(BuildEvent::Sent), BuildAction::Emit(ProposalPart::BlockInfo(info)));
    assert_eq!(
        build.on_event(BuildEvent::Sent),
        BuildAction::ProposeBlock { proposal_id: 9, height: BlockNumber(4), deadline_ms: 500 }
    );
    assert_eq!(
        build.on_event(BuildEvent::ProposeAccepted),
        BuildAction::GetContent { proposal_id: 9 }
    );
    assert_eq!(
        build.on_event(BuildEvent::Content(tx_batch())),
        BuildAction::Emit(ProposalPart::Transactions(tx_batch()))
    );
    assert_eq!(build.on_event(BuildEvent::Sent), BuildAction::GetContent { proposal_id: 9 });
    assert_eq!(
        build.on_event(BuildEvent::Finished(state_diff_commitment())),
        BuildAction::AwaitBlob
    );
    assert_eq!(build.phase, BuildPhase::JoiningBlob);
    assert_eq!(
        build.on_event(BuildEvent::BlobWritten(true)),
        BuildAction::Emit(ProposalPart::Fin(ProposalFin { proposal_commitment: zero_hash() }))
    );
    assert_eq!(build.on_event(BuildEvent::Sent), BuildAction::Resolve(zero_hash()));
    assert!(build.is_over());
    assert_eq!(build.phase, BuildPhase::Done);
    let (hash, proposal) = build.built();
    assert_eq!(hash, zero_hash());
    assert_eq!(proposal.block_info, info);
    assert_eq!(proposal.transactions, vec![tx_batch()]);
    assert_eq!(proposal.fin, ProposalFin { proposal_commitment: zero_hash() });
    // Nothing follows the end.
    assert_eq!(build.on_event(BuildEvent::Sent), BuildAction::Ignore);
    assert_eq!(build.on_event(BuildEvent::DeadlineExpired), BuildAction::Ignore);
}

fn build_up_to_content() -> BuildPipeline {
    let (mut build, _) = BuildPipeline::start(pipeline_setup());
    build.on_event(BuildEvent::HeightStarted(StartHeightOutcome::Started));
    build.on_event(BuildEvent::Prices { timestamp: 77, prices: None, rate: None });
    build.on_event(BuildEvent::BlobWriteBegun);
    build.on_event(BuildEvent::Sent);
    build.on_event(BuildEvent::Sent);
    build.on_event(BuildEvent::ProposeAccepted);
    assert_eq!(build.phase, BuildPhase::FetchingContent);
    build
}

#[test]
fn build_failures_cancel() {
    let failures = vec![
        BuildEvent::SinkFailed,
        BuildEvent::ProposeRejected,
        BuildEvent::BatcherFailed,
        BuildEvent::BlobWritten(false),
        BuildEvent::DeadlineExpired,
        BuildEvent::HeightStarted(StartHeightOutcome::Failed),
    ];
    for failure in failures {
        let mut build = build_up_to_content();
        assert_eq!(build.on_event(failure), BuildAction::Abort);
        assert_eq!(build.phase, BuildPhase::Cancelled);
        assert!(build.is_over());
        assert_eq!(build.on_event(BuildEvent::Content(tx_batch())), BuildAction::Ignore);
    }
    // An outcome that the phase does not await cancels too.
    let mut build = build_up_to_content();
    assert_eq!(build.on_event(BuildEvent::Sent), BuildAction::Abort);
    let mut build = build_up_to_content();
    assert_eq!(build.on_event(BuildEvent::BlobWritten(true)), BuildAction::Abort);
}

#[test]
fn validate_pipeline_step_by_step() {
    let (mut validation, action) = ValidatePipeline::start(pipeline_setup());
    assert_eq!(action, ValidateAction::StartHeight { height: BlockNumber(4) });
    assert_eq!(
        validation.on_event(ValidateEvent::HeightStarted(StartHeightOutcome::Started)),
        ValidateAction::ReadPart
    );
    let info = ConsensusBlockInfo { timestamp: 55, ..block_info(BlockNumber(4)) };
    assert_eq!(
        validation.on_event(ValidateEvent::Part(ProposalPart::BlockInfo(info))),
        ValidateAction::FetchPrices { height: BlockNumber(4), timestamp: 55 }
    );
    let prices =
        ValidateEvent::Prices { prices: Some(dummy_price_info()), rate: Some(ETH_TO_FRI_RATE) };
    assert_eq!(
        validation.on_event(prices),
        ValidateAction::ValidateBlock { proposal_id: 9, height: BlockNumber(4), deadline_ms: 500 }
    );
    assert_eq!(validation.on_event(ValidateEvent::ValidateAccepted), ValidateAction::ReadPart);
    assert_eq!(
        validation.on_event(ValidateEvent::Part(ProposalPart::Transactions(tx_batch()))),
        ValidateAction::SendTransactions { proposal_id: 9, batch: tx_batch() }
    );
    assert_eq!(
        validation.on_event(ValidateEvent::Status(ProposalStatus::Processing)),
        ValidateAction::ReadPart
    );
    let fin = ProposalFin { proposal_commitment: zero_hash() };
    assert_eq!(
        validation.on_event(ValidateEvent::Part(ProposalPart::Fin(fin))),
        ValidateAction::SendFinish { proposal_id: 9 }
    );
    assert_eq!(validation.phase, ValidatePhase::Finishing);
    assert!(!validation.is_over());
    assert_eq!(
        validation
            .on_event(ValidateEvent::Status(ProposalStatus::Finished(state_diff_commitment()))),
        ValidateAction::Resolve(zero_hash())
    );
    assert!(validation.is_over());
    let (hash, proposal) = validation.validated();
    assert_eq!(hash, zero_hash());
    assert_eq!(
        proposal,
        CachedProposal { block_info: info, transactions: vec![tx_batch()], fin }
    );
    assert_eq!(validation.on_event(ValidateEvent::EndOfStream), ValidateAction::Ignore);
}

fn validation_up_to_content() -> ValidatePipeline {
    let (mut validation, _) = ValidatePipeline::start(pipeline_setup());
    validation.on_event(ValidateEvent::HeightStarted(StartHeightOutcome::Started));
    let info = block_info(BlockNumber(4));
    validation.on_event(ValidateEvent::Part(ProposalPart::BlockInfo(info)));
    validation.on_event(ValidateEvent::Prices {
        prices: Some(dummy_price_info()),
        rate: Some(ETH_TO_FRI_RATE),
    });
    validation.on_event(ValidateEvent::ValidateAccepted);
    assert_eq!(validation.phase, ValidatePhase::AwaitingContent);
    validation
}

#[test]
fn validate_failures_cancel() {
    let failures = vec![
        ValidateEvent::EndOfStream,
        ValidateEvent::ValidateRejected,
        ValidateEvent::ConverterFailed,
        ValidateEvent::Status(ProposalStatus::InvalidProposal),
        ValidateEvent::Status(ProposalStatus::Aborted),
        ValidateEvent::BatcherFailed,
        ValidateEvent::DeadlineExpired,
        ValidateEvent::Part(ProposalPart::Init(ProposalInit::default())),
        ValidateEvent::Part(ProposalPart::BlockInfo(block_info(BlockNumber(4)))),
    ];
    for failure in failures {
        let mut validation = validation_up_to_content();
        assert_eq!(validation.on_event(failure), ValidateAction::Abort);
        assert_eq!(validation.phase, ValidatePhase::Cancelled);
        assert_eq!(validation.on_event(ValidateEvent::EndOfStream), ValidateAction::Ignore);
    }
    // The batcher finishes before the closing part was read.
    let mut validation = validation_up_to_content();
    validation.on_event(ValidateEvent::Part(ProposalPart::Transactions(tx_batch())));
    let early = ValidateEvent::Status(ProposalStatus::Finished(state_diff_commitment()));
    assert_eq!(validation.on_event(early), ValidateAction::Abort);
}

#[test]
fn validation_uses_the_previous_block_when_an_oracle_fails() {
    let previous = PricedBlock {
        block_info: block_info(BlockNumber(3)),
        raw_blob_fee: TEMP_ETH_BLOB_GAS_FEE_IN_WEI,
    };
    let setup = PipelineSetup { previous: Some(previous), ..pipeline_setup() };
    let (mut validation, _) = ValidatePipeline::start(setup);
    validation.on_event(ValidateEvent::HeightStarted(StartHeightOutcome::Started));
    let info = block_info(BlockNumber(4));
    assert_eq!(info.l1_data_gas_price_wei, 13_500_000);
    validation.on_event(ValidateEvent::Part(ProposalPart::BlockInfo(info)));
    let action = validation.on_event(ValidateEvent::Prices { prices: None, rate: None });
    assert_eq!(
        action,
        ValidateAction::ValidateBlock { proposal_id: 9, height: BlockNumber(4), deadline_ms: 500 }
    );
    assert_eq!(validation.raw_blob_fee, TEMP_ETH_BLOB_GAS_FEE_IN_WEI);

    // A data gas price with the multiplier applied twice is turned away.
    let (mut validation, _) = ValidatePipeline::start(setup);
    validation.on_event(ValidateEvent::HeightStarted(StartHeightOutcome::Started));
    let mut info = block_info(BlockNumber(4));
    info.l1_data_gas_price_wei = 1_822_500;
    validation.on_event(ValidateEvent::Part(ProposalPart::BlockInfo(info)));
    let action = validation.on_event(ValidateEvent::Prices { prices: None, rate: None });
    assert_eq!(action, ValidateAction::Abort);
}

fn built_block_info(run: &BuildRun) -> ConsensusBlockInfo {
    let ProposalPart::BlockInfo(info) = run.sink[1].clone() else {
        panic!("Expected ProposalPart::BlockInfo");
    };
    info
}

#[test]
fn oracle_fails_after_a_built_block() {
    // Height 0 is built from the raw blob fee of the oracle and committed.
    let mut context = setup();
    let start = context.build_proposal(ProposalInit::default(), TIMEOUT_MS).unwrap();
    let run = drive_build(&mut context, start, &mut doubles_for_build());
    assert_eq!(run.promise, Promise::Resolved(zero_hash()));
    assert_eq!(built_block_info(&run).l1_data_gas_price_wei, 13_500_000);
    let decision = decide(&mut context, zero_hash(), BlockNumber(0)).unwrap();
    assert_eq!(decision.raw_blob_fee, TEMP_ETH_BLOB_GAS_FEE_IN_WEI);

    // At height 1 an oracle fails: the raw blob fee of height 0 is used, the multiplier
    // applied once.
    let config = ContextConfig::default();
    let expected = (TEMP_ETH_BLOB_GAS_FEE_IN_WEI
        * u128::from(config.l1_data_gas_price_multiplier_ppt)
        / 1000)
        .clamp(config.min_l1_data_gas_price_wei, config.max_l1_data_gas_price_wei);
    let init = ProposalInit { height: BlockNumber(1), ..Default::default() };
    let start = context.build_proposal(init, TIMEOUT_MS).unwrap();
    let mut doubles = Doubles { prices: None, ..doubles_for_build() };
    let run = drive_build(&mut context, start, &mut doubles);
    assert_eq!(run.promise, Promise::Resolved(zero_hash()));
    let info = built_block_info(&run);
    assert_eq!(info.l1_data_gas_price_wei, expected);
    assert_eq!(info.l1_data_gas_price_wei, 13_500_000);
    assert_eq!(info.l1_gas_price_wei, TEMP_ETH_GAS_FEE_IN_WEI);
    assert_eq!(info.eth_to_fri_rate, ETH_TO_FRI_RATE);

    // The outage lasts: height 2 still carries the prices of height 0.
    let decision = decide(&mut context, zero_hash(), BlockNumber(1)).unwrap();
    assert_eq!(decision.raw_blob_fee, TEMP_ETH_BLOB_GAS_FEE_IN_WEI);
    let init = ProposalInit { height: BlockNumber(2), ..Default::default() };
    let start = context.build_proposal(init, TIMEOUT_MS).unwrap();
    let mut doubles = Doubles { rate: None, ..doubles_for_build() };
    let run = drive_build(&mut context, start, &mut doubles);
    assert_eq!(built_block_info(&run).l1_data_gas_price_wei, 13_500_000);

    // The oracles are back with another fee: it takes the place of the old one.
    assert!(decide(&mut context, zero_hash(), BlockNumber(2)).is_ok());
    let init = ProposalInit { height: BlockNumber(3), ..Default::default() };
    let start = context.build_proposal(init, TIMEOUT_MS).unwrap();
    let fresh = PriceInfo { base_fee_per_gas: 2 * TEMP_ETH_GAS_FEE_IN_WEI, blob_fee: 2_000_000 };
    let mut doubles = Doubles { prices: Some(fresh), ..doubles_for_build() };
    let run = drive_build(&mut context, start, &mut doubles);
    assert_eq!(built_block_info(&run).l1_data_gas_price_wei, 270_000);
    let decision = decide(&mut context, zero_hash(), BlockNumber(3)).unwrap();
    assert_eq!(decision.raw_blob_fee, 2_000_000);
}

#[test]
fn oracle_failure_from_the_start_keeps_a_zero_blob_fee() {
    let mut context = setup();
    let start = context.build_proposal(ProposalInit::default(), TIMEOUT_MS).unwrap();
    let mut doubles = Doubles { rate: None, ..doubles_for_build() };
    let run = drive_build(&mut context, start, &mut doubles);
    assert_eq!(built_block_info(&run).l1_data_gas_price_wei, 1);
    let decision = decide(&mut context, zero_hash(), BlockNumber(0)).unwrap();
    assert_eq!(decision.raw_blob_fee, 0);
    assert_eq!(decision.block_info.eth_to_fri_rate, DEFAULT_ETH_TO_FRI_RATE);
}

#[test]
fn active_proposal_knows_its_role() {
    let mut context = setup();
    assert!(context.active.is_none());
    let build = context.build_proposal(ProposalInit::default(), TIMEOUT_MS).unwrap();
    let active = context.active.as_ref().unwrap();
    assert_eq!(active.role(), ProposalRole::Builder);
    assert_eq!(active.proposal_id(), build.proposal_id);
    assert_eq!(active.deadline_ms(), 200);
    let (id, _) = started(context.validate_proposal(ProposalInit::default(), 5000).unwrap());
    let active = context.active.as_ref().unwrap();
    assert_eq!(active.role(), ProposalRole::Validator);
    assert_eq!(active.proposal_id(), id);
    assert_eq!(active.deadline_ms(), 4000);
}

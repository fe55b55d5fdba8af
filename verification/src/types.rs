//! The values exchanged between the consensus engine, the network and the
//! block builder.

use vstd::prelude::*;

verus! {

/// Index of a retry slot within a height.
pub type Round = u32;

/// A 64-bit block height.
#[derive(Clone, Copy, Debug, PartialEq, Eq, Hash, Default)]
pub struct BlockNumber(pub u64);

/// A 256-bit field element, as two 128-bit halves.
#[derive(Clone, Copy, Debug, PartialEq, Eq, Hash, Default)]
pub struct Felt {
    pub high: u128,
    pub low: u128,
}

/// Commitment to the state diff that executing a proposal produces.
#[derive(Clone, Copy, Debug, PartialEq, Eq, Hash, Default)]
pub struct ProposalCommitment {
    pub state_diff_commitment: Felt,
}

/// Hash of a block; the identity of a proposal towards the engine.
#[derive(Clone, Copy, Debug, PartialEq, Eq, Hash, Default)]
pub struct BlockHash(pub Felt);

/// Address of a sequencer contract.
#[derive(Clone, Copy, Debug, PartialEq, Eq, Hash, Default)]
pub struct ContractAddress(pub Felt);

/// Where a block's data is published on L1.
#[derive(Clone, Copy, Debug, PartialEq, Eq, Hash)]
pub enum L1DataAvailabilityMode {
    Calldata,
    Blob,
}

/// The header values that the proposer chooses, second part of every proposal.
#[derive(Clone, Copy, Debug, PartialEq, Eq)]
pub struct ConsensusBlockInfo {
    pub height: BlockNumber,
    pub timestamp: u64,
    pub builder: ContractAddress,
    pub l1_da_mode: L1DataAvailabilityMode,
    pub l2_gas_price_fri: u128,
    pub l1_gas_price_wei: u128,
    pub l1_data_gas_price_wei: u128,
    pub eth_to_fri_rate: u128,
}

/// Opening part of a proposal.
#[derive(Clone, Copy, Debug, PartialEq, Eq, Default)]
pub struct ProposalInit {
    pub height: BlockNumber,
    pub round: Round,
    pub valid_round: Option<Round>,
    pub proposer: ContractAddress,
}

/// Closing part of a proposal.
#[derive(Clone, Copy, Debug, PartialEq, Eq, Default)]
pub struct ProposalFin {
    pub proposal_commitment: BlockHash,
}

/// One transaction, as the bytes that travel on the wire.
#[derive(Clone, Debug, PartialEq, Eq)]
pub struct Transaction {
    pub payload: Vec<u8>,
}

/// An ordered group of transactions, sent as one part.
#[derive(Clone, Debug, PartialEq, Eq)]
pub struct TransactionBatch {
    pub transactions: Vec<Transaction>,
}

/// One element of a proposal stream.
#[derive(Clone, Debug, PartialEq, Eq)]
pub enum ProposalPart {
    Init(ProposalInit),
    BlockInfo(ConsensusBlockInfo),
    Transactions(TransactionBatch),
    Fin(ProposalFin),
}

/// What a batch holds: the payload of each transaction, in order.
pub type BatchModel = Seq<Seq<u8>>;

/// What a proposal part holds.
pub ghost enum PartModel {
    Init(ProposalInit),
    BlockInfo(ConsensusBlockInfo),
    Transactions(BatchModel),
    Fin(ProposalFin),
}

impl View for Transaction {
    type V = Seq<u8>;

    open spec fn view(&self) -> Seq<u8> {
        self.payload@
    }
}

impl View for TransactionBatch {
    type V = BatchModel;

    open spec fn view(&self) -> BatchModel {
        Seq::new(self.transactions@.len(), |i: int| self.transactions@[i]@)
    }
}

impl View for ProposalPart {
    type V = PartModel;

    open spec fn view(&self) -> PartModel {
        match self {
            ProposalPart::Init(init) => PartModel::Init(*init),
            ProposalPart::BlockInfo(info) => PartModel::BlockInfo(*info),
            ProposalPart::Transactions(batch) => PartModel::Transactions(batch@),
            ProposalPart::Fin(fin) => PartModel::Fin(*fin),
        }
    }
}

/// What a list of batches holds.
pub open spec fn batches_model(batches: Seq<TransactionBatch>) -> Seq<BatchModel> {
    Seq::new(batches.len(), |i: int| batches[i]@)
}

/// What a list of parts holds.
pub open spec fn parts_model(parts: Seq<ProposalPart>) -> Seq<PartModel> {
    Seq::new(parts.len(), |i: int| parts[i]@)
}

/// The block hash that stands for a commitment: the same field element.
pub open spec fn widened(commitment: ProposalCommitment) -> BlockHash {
    BlockHash(commitment.state_diff_commitment)
}

/// Widens a commitment to the block hash carried by the closing part.
pub fn commitment_to_block_hash(commitment: ProposalCommitment) -> (hash: BlockHash)
    ensures
        hash == widened(commitment),
{
    BlockHash(commitment.state_diff_commitment)
}

impl Felt {
    /// The element zero.
    pub fn zero() -> (felt: Felt)
        ensures
            felt.high == 0,
            felt.low == 0,
    {
        Felt { high: 0, low: 0 }
    }

    /// Whether two elements are the same.
    pub fn same(&self, other: &Felt) -> (equal: bool)
        ensures
            equal <==> *self == *other,
    {
        self.high == other.high && self.low == other.low
    }
}

impl L1DataAvailabilityMode {
    /// Whether two modes are the same.
    pub fn same(&self, other: &L1DataAvailabilityMode) -> (equal: bool)
        ensures
            equal <==> *self == *other,
    {
        match (self, other) {
            (L1DataAvailabilityMode::Calldata, L1DataAvailabilityMode::Calldata) => true,
            (L1DataAvailabilityMode::Blob, L1DataAvailabilityMode::Blob) => true,
            _ => false,
        }
    }
}

impl ConsensusBlockInfo {
    /// Whether two block infos are the same in every field.
    pub fn same(&self, other: &ConsensusBlockInfo) -> (equal: bool)
        ensures
            equal <==> *self == *other,
    {
        self.height.0 == other.height.0 && self.timestamp == other.timestamp
            && self.builder.0.same(&other.builder.0) && self.l1_da_mode.same(&other.l1_da_mode)
            && self.l2_gas_price_fri == other.l2_gas_price_fri && self.l1_gas_price_wei
            == other.l1_gas_price_wei && self.l1_data_gas_price_wei == other.l1_data_gas_price_wei
            && self.eth_to_fri_rate == other.eth_to_fri_rate
    }
}

impl BlockHash {
    /// Whether two hashes are the same.
    pub fn same(&self, other: &BlockHash) -> (equal: bool)
        ensures
            equal <==> *self == *other,
    {
        self.0.same(&other.0)
    }
}

impl Transaction {
    /// A copy with the same payload.
    pub fn duplicate(&self) -> (copy: Transaction)
        ensures
            copy@ == self@,
    {
        let mut payload: Vec<u8> = Vec::new();
        let mut i: usize = 0;
        while i < self.payload.len()
            invariant
                i <= self.payload@.len(),
                payload@ == self.payload@.subrange(0, i as int),
            decreases self.payload@.len() - i,
        {
            payload.push(self.payload[i]);
            i = i + 1;
            assert(payload@ =~= self.payload@.subrange(0, i as int));
        }
        assert(payload@ =~= self.payload@);
        Transaction { payload }
    }
}

impl TransactionBatch {
    /// A copy with the same transactions in the same order.
    pub fn duplicate(&self) -> (copy: TransactionBatch)
        ensures
            copy@ == self@,
    {
        let mut transactions: Vec<Transaction> = Vec::new();
        let mut i: usize = 0;
        while i < self.transactions.len()
            invariant
                i <= self.transactions@.len(),
                transactions@.len() == i,
                forall|k: int| 0 <= k < i ==> transactions@[k]@ == #[trigger] self.transactions@[k]@,
            decreases self.transactions@.len() - i,
        {
            transactions.push(self.transactions[i].duplicate());
            i = i + 1;
        }
        let copy = TransactionBatch { transactions };
        assert(copy@ =~= self@);
        copy
    }
}

impl ProposalPart {
    /// A copy that holds the same.
    pub fn duplicate(&self) -> (copy: ProposalPart)
        ensures
            copy@ == self@,
    {
        match self {
            ProposalPart::Init(init) => ProposalPart::Init(*init),
            ProposalPart::BlockInfo(info) => ProposalPart::BlockInfo(*info),
            ProposalPart::Transactions(batch) => ProposalPart::Transactions(batch.duplicate()),
            ProposalPart::Fin(fin) => ProposalPart::Fin(*fin),
        }
    }
}

/// Copies a list of batches.
pub fn duplicate_batches(batches: &Vec<TransactionBatch>) -> (copy: Vec<TransactionBatch>)
    ensures
        batches_model(copy@) == batches_model(batches@),
{
    let mut copy: Vec<TransactionBatch> = Vec::new();
    let mut i: usize = 0;
    while i < batches.len()
        invariant
            i <= batches@.len(),
            copy@.len() == i,
            forall|k: int| 0 <= k < i ==> copy@[k]@ == #[trigger] batches@[k]@,
        decreases batches@.len() - i,
    {
        copy.push(batches[i].duplicate());
        i = i + 1;
    }
    assert(batches_model(copy@) =~= batches_model(batches@));
    copy
}

} // verus!

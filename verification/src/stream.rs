//! The order of a proposal stream: one opening part, one block info, any
//! number of transaction batches, one closing part, and nothing after it.

use vstd::prelude::*;
use crate::types::{
    batches_model,
    duplicate_batches,
    parts_model,
    BatchModel,
    ConsensusBlockInfo,
    PartModel,
    ProposalFin,
    ProposalInit,
    ProposalPart,
    TransactionBatch,
};

verus! {

/// A proposal that this node accepted, kept so that it can be sent again.
#[derive(Clone, Debug, PartialEq, Eq)]
pub struct CachedProposal {
    pub block_info: ConsensusBlockInfo,
    pub transactions: Vec<TransactionBatch>,
    pub fin: ProposalFin,
}

/// What a cached proposal holds.
pub ghost struct ProposalModel {
    pub block_info: ConsensusBlockInfo,
    pub batches: Seq<BatchModel>,
    pub fin: ProposalFin,
}

impl View for CachedProposal {
    type V = ProposalModel;

    open spec fn view(&self) -> ProposalModel {
        ProposalModel {
            block_info: self.block_info,
            batches: batches_model(self.transactions@),
            fin: self.fin,
        }
    }
}

/// Why a sequence of parts is no proposal.
#[derive(Clone, Copy, Debug, PartialEq, Eq)]
pub enum StreamError {
    /// The first part is absent or is no opening part.
    MissingInit,
    /// The second part is absent or is no block info.
    MissingBlockInfo,
    /// The sequence ends without a closing part.
    MissingFin,
    /// An opening part or a block info stands at `index`, among the batches.
    Misplaced { index: usize },
    /// The closing part is followed by the part at `index`.
    Trailing { index: usize },
}

/// The parts before the closing part: opening part, block info, batches.
pub open spec fn stream_head(
    init: ProposalInit,
    block_info: ConsensusBlockInfo,
    batches: Seq<BatchModel>,
) -> Seq<PartModel> {
    seq![PartModel::Init(init), PartModel::BlockInfo(block_info)] + Seq::new(
        batches.len(),
        |i: int| PartModel::Transactions(batches[i]),
    )
}

/// The stream that carries `proposal` under the opening part `init`.
pub open spec fn stream_of(init: ProposalInit, proposal: ProposalModel) -> Seq<PartModel> {
    stream_head(init, proposal.block_info, proposal.batches).push(PartModel::Fin(proposal.fin))
}

/// The normative order of parts.
pub open spec fn well_ordered(parts: Seq<PartModel>) -> bool {
    &&& parts.len() >= 3
    &&& parts[0] is Init
    &&& parts[1] is BlockInfo
    &&& forall|i: int| 2 <= i < parts.len() - 1 ==> #[trigger] parts[i] is Transactions
    &&& parts[parts.len() - 1] is Fin
}

/// Whether `parts` can still grow into a well ordered stream: it is the start
/// of one, with the closing part not yet reached.
pub open spec fn open_prefix(parts: Seq<PartModel>) -> bool {
    &&& parts.len() >= 1 ==> parts[0] is Init
    &&& parts.len() >= 2 ==> parts[1] is BlockInfo
    &&& forall|i: int| 2 <= i < parts.len() ==> #[trigger] parts[i] is Transactions
}

/// The first position at or after `from` that holds no batch, or the length.
pub open spec fn run_end(parts: Seq<PartModel>, from: int) -> int
    decreases parts.len() - from,
{
    if from >= parts.len() || !(parts[from] is Transactions) {
        from
    } else {
        run_end(parts, from + 1)
    }
}

/// The batches that stand at positions `2 .. end`.
pub open spec fn batches_between(parts: Seq<PartModel>, end: int) -> Seq<BatchModel> {
    Seq::new((end - 2) as nat, |i: int| parts[i + 2]->Transactions_0)
}

/// The proposal that `parts` carries, or the first fault in their order.
pub open spec fn decoded(parts: Seq<PartModel>) -> Result<
    (ProposalInit, ProposalModel),
    StreamError,
> {
    if parts.len() < 1 || !(parts[0] is Init) {
        Err(StreamError::MissingInit)
    } else if parts.len() < 2 || !(parts[1] is BlockInfo) {
        Err(StreamError::MissingBlockInfo)
    } else {
        let end = run_end(parts, 2);
        if end >= parts.len() {
            Err(StreamError::MissingFin)
        } else if !(parts[end] is Fin) {
            Err(StreamError::Misplaced { index: end as usize })
        } else if end + 1 < parts.len() {
            Err(StreamError::Trailing { index: (end + 1) as usize })
        } else {
            Ok(
                (
                    parts[0]->Init_0,
                    ProposalModel {
                        block_info: parts[1]->BlockInfo_0,
                        batches: batches_between(parts, end),
                        fin: parts[end]->Fin_0,
                    },
                ),
            )
        }
    }
}

/// `run_end` stops at the first part that is no batch.
pub proof fn lemma_run_end(parts: Seq<PartModel>, from: int)
    requires
        0 <= from <= parts.len(),
    ensures
        from <= run_end(parts, from) <= parts.len(),
        forall|i: int| from <= i < run_end(parts, from) ==> #[trigger] parts[i] is Transactions,
        run_end(parts, from) < parts.len() ==> !(parts[run_end(parts, from)] is Transactions),
    decreases parts.len() - from,
{
    if from < parts.len() && parts[from] is Transactions {
        lemma_run_end(parts, from + 1);
    }
}

/// Where every part from `from` up to `end` is a batch and `end` is none, the
/// run that starts at `from` ends at `end`.
pub proof fn lemma_run_end_is(parts: Seq<PartModel>, from: int, end: int)
    requires
        0 <= from <= end <= parts.len(),
        forall|i: int| from <= i < end ==> #[trigger] parts[i] is Transactions,
        end < parts.len() ==> !(parts[end] is Transactions),
    ensures
        run_end(parts, from) == end,
    decreases end - from,
{
    if from < end {
        lemma_run_end_is(parts, from + 1, end);
    }
}

/// A sequence of parts decodes exactly when it is well ordered.
pub proof fn lemma_decoded_iff_well_ordered(parts: Seq<PartModel>)
    ensures
        decoded(parts).is_ok() <==> well_ordered(parts),
{
    if parts.len() >= 2 {
        lemma_run_end(parts, 2);
        let end = run_end(parts, 2);
        if well_ordered(parts) {
            if end < parts.len() - 1 {
                assert(parts[end] is Transactions);
            }
        }
    }
}

/// What decodes from a sequence of parts encodes to the same sequence.
pub proof fn lemma_decoded_encodes_back(parts: Seq<PartModel>)
    requires
        decoded(parts).is_ok(),
    ensures
        stream_of(decoded(parts).unwrap().0, decoded(parts).unwrap().1) == parts,
{
    lemma_run_end(parts, 2);
    let (init, proposal) = decoded(parts).unwrap();
    assert(stream_of(init, proposal) =~= parts);
}

/// The stream of a proposal is well ordered and decodes to that proposal.
pub proof fn lemma_encoded_decodes(init: ProposalInit, proposal: ProposalModel)
    ensures
        well_ordered(stream_of(init, proposal)),
        decoded(stream_of(init, proposal)) == Ok::<(ProposalInit, ProposalModel), StreamError>(
            (init, proposal),
        ),
{
    let parts = stream_of(init, proposal);
    let end = proposal.batches.len() + 2;
    lemma_run_end_is(parts, 2, end as int);
    assert(batches_between(parts, end as int) =~= proposal.batches);
}

/// Sending a proposal again under another opening part changes the first part
/// and no other.
pub proof fn lemma_resend_differs_in_init_only(
    first: ProposalInit,
    second: ProposalInit,
    proposal: ProposalModel,
)
    ensures
        stream_of(first, proposal).len() == stream_of(second, proposal).len(),
        stream_of(second, proposal)[0] == PartModel::Init(second),
        forall|i: int|
            1 <= i < stream_of(first, proposal).len() ==> stream_of(first, proposal)[i]
                == stream_of(second, proposal)[i],
{
}

/// Writes a cached proposal as the stream that carries it under `init`.
pub fn encode_proposal(init: ProposalInit, proposal: &CachedProposal) -> (parts: Vec<ProposalPart>)
    ensures
        parts_model(parts@) == stream_of(init, proposal@),
{
    let mut parts: Vec<ProposalPart> = Vec::new();
    parts.push(ProposalPart::Init(init));
    parts.push(ProposalPart::BlockInfo(proposal.block_info));
    let mut i: usize = 0;
    while i < proposal.transactions.len()
        invariant
            i <= proposal.transactions@.len(),
            parts@.len() == i + 2,
            parts@[0]@ == PartModel::Init(init),
            parts@[1]@ == PartModel::BlockInfo(proposal.block_info),
            forall|k: int|
                0 <= k < i ==> (#[trigger] parts@[k + 2])@ == PartModel::Transactions(
                    proposal.transactions@[k]@,
                ),
        decreases proposal.transactions@.len() - i,
    {
        let ghost before = parts@;
        parts.push(ProposalPart::Transactions(proposal.transactions[i].duplicate()));
        assert forall|k: int| 0 <= k < i + 1 implies (#[trigger] parts@[k + 2])@
            == PartModel::Transactions(proposal.transactions@[k]@) by {
            if k < i {
                assert(parts@[k + 2] == before[k + 2]);
            }
        }
        i = i + 1;
    }
    parts.push(ProposalPart::Fin(proposal.fin));
    proof {
        let expected = stream_of(init, proposal@);
        let got = parts_model(parts@);
        assert(got.len() == expected.len());
        assert forall|k: int| 0 <= k < got.len() implies got[k] == expected[k] by {
            if 2 <= k < got.len() - 1 {
                assert(parts@[(k - 2) + 2]@ == PartModel::Transactions(
                    proposal.transactions@[k - 2]@,
                ));
            }
        }
        assert(got =~= expected);
    }
    parts
}

/// Reads a sequence of parts as a proposal, or names the first fault in their
/// order.
pub fn decode_proposal(parts: &Vec<ProposalPart>) -> (result: Result<
    (ProposalInit, CachedProposal),
    StreamError,
>)
    ensures
        match result {
            Ok((init, proposal)) => decoded(parts_model(parts@)) == Ok::<
                (ProposalInit, ProposalModel),
                StreamError,
            >((init, proposal@)),
            Err(error) => decoded(parts_model(parts@)) == Err::<
                (ProposalInit, ProposalModel),
                StreamError,
            >(error),
        },
        result.is_ok() <==> well_ordered(parts_model(parts@)),
{
    let ghost model = parts_model(parts@);
    proof {
        lemma_decoded_iff_well_ordered(model);
    }
    if parts.len() < 1 {
        return Err(StreamError::MissingInit);
    }
    let init = match &parts[0] {
        ProposalPart::Init(init) => *init,
        _ => {
            return Err(StreamError::MissingInit);
        },
    };
    if parts.len() < 2 {
        return Err(StreamError::MissingBlockInfo);
    }
    let block_info = match &parts[1] {
        ProposalPart::BlockInfo(info) => *info,
        _ => {
            return Err(StreamError::MissingBlockInfo);
        },
    };
    let mut transactions: Vec<TransactionBatch> = Vec::new();
    let mut i: usize = 2;
    while i < parts.len()
        invariant
            2 <= i <= parts@.len(),
            model == parts_model(parts@),
            model[0] == PartModel::Init(init),
            model[1] == PartModel::BlockInfo(block_info),
            transactions@.len() == i - 2,
            forall|k: int| 2 <= k < i ==> #[trigger] model[k] is Transactions,
            forall|k: int|
                0 <= k < i - 2 ==> (#[trigger] transactions@[k])@ == model[k + 2]->Transactions_0,
        decreases parts@.len() - i,
    {
        match &parts[i] {
            ProposalPart::Transactions(batch) => {
                transactions.push(batch.duplicate());
                i = i + 1;
            },
            ProposalPart::Fin(fin) => {
                proof {
                    assert(model[i as int] == PartModel::Fin(*fin));
                    lemma_run_end_is(model, 2, i as int);
                }
                if i + 1 < parts.len() {
                    return Err(StreamError::Trailing { index: i + 1 });
                }
                let proposal = CachedProposal { block_info, transactions, fin: *fin };
                assert(proposal@.batches =~= batches_between(model, i as int));
                return Ok((init, proposal));
            },
            _ => {
                proof {
                    assert(model[i as int] == parts@[i as int]@);
                    lemma_run_end_is(model, 2, i as int);
                }
                return Err(StreamError::Misplaced { index: i });
            },
        }
    }
    proof {
        lemma_run_end_is(model, 2, i as int);
    }
    Err(StreamError::MissingFin)
}

impl CachedProposal {
    /// A copy that holds the same.
    pub fn duplicate(&self) -> (copy: CachedProposal)
        ensures
            copy@ == self@,
    {
        CachedProposal {
            block_info: self.block_info,
            transactions: duplicate_batches(&self.transactions),
            fin: self.fin,
        }
    }
}

} // verus!

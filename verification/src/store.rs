//! The proposals accepted at the current height, found again by block hash.

use vstd::prelude::*;
use std::collections::BTreeMap;
use crate::gas_price::PricedBlock;
use crate::stream::{CachedProposal, ProposalModel};
use crate::types::BlockHash;

verus! {

/// One accepted proposal, beside the raw blob fee that its data gas price was
/// derived from.
#[derive(Clone, Debug, PartialEq, Eq)]
pub struct StoreEntry {
    pub proposal: CachedProposal,
    pub raw_blob_fee: u128,
}

/// What stands in the store under a block hash.
pub ghost struct AcceptedModel {
    pub proposal: ProposalModel,
    pub raw_blob_fee: u128,
}

impl AcceptedModel {
    /// The block info of the proposal beside its raw blob fee.
    pub open spec fn block(&self) -> PricedBlock {
        PricedBlock { block_info: self.proposal.block_info, raw_blob_fee: self.raw_blob_fee }
    }
}

impl View for StoreEntry {
    type V = AcceptedModel;

    open spec fn view(&self) -> AcceptedModel {
        AcceptedModel { proposal: self.proposal@, raw_blob_fee: self.raw_blob_fee }
    }
}

/// The accepted proposals of one height: a map from block hash to proposal,
/// kept under the two halves of the hash.
pub struct ProposalStore {
    pub entries: BTreeMap<(u128, u128), StoreEntry>,
}

/// The two halves of a block hash, high half first.
pub open spec fn halves(hash: BlockHash) -> (u128, u128) {
    (hash.0.high, hash.0.low)
}

/// The two halves of a block hash, high half first.
pub fn halves_of(hash: &BlockHash) -> (key: (u128, u128))
    ensures
        key == halves(*hash),
{
    (hash.0.high, hash.0.low)
}

impl View for ProposalStore {
    type V = Map<BlockHash, AcceptedModel>;

    open spec fn view(&self) -> Map<BlockHash, AcceptedModel> {
        Map::new(
            |hash: BlockHash| self.entries@.contains_key(halves(hash)),
            |hash: BlockHash| self.entries@[halves(hash)]@,
        )
    }
}

impl ProposalStore {
    /// An empty store.
    pub fn new() -> (store: ProposalStore)
        ensures
            store@ == Map::<BlockHash, AcceptedModel>::empty(),
    {
        let store = ProposalStore { entries: BTreeMap::new() };
        assert(store@ =~= Map::<BlockHash, AcceptedModel>::empty());
        store
    }

    /// Whether a proposal stands under `hash`.
    pub fn contains(&self, hash: &BlockHash) -> (present: bool)
        ensures
            present == self@.contains_key(*hash),
    {
        self.get(hash).is_some()
    }

    /// The entry under `hash`, if there is one.
    pub fn get(&self, hash: &BlockHash) -> (found: Option<&StoreEntry>)
        ensures
            found.is_some() == self@.contains_key(*hash),
            found.is_some() ==> found.unwrap()@ == self@[*hash],
    {
        let key = halves_of(hash);
        self.entries.get(&key)
    }

    /// Puts `proposal` and its raw blob fee under `hash`, in place of what
    /// stood there.
    pub fn insert(&mut self, hash: BlockHash, proposal: CachedProposal, raw_blob_fee: u128)
        ensures
            final(self)@ == old(self)@.insert(
                hash,
                AcceptedModel { proposal: proposal@, raw_blob_fee },
            ),
    {
        let ghost before = self@;
        let ghost model = AcceptedModel { proposal: proposal@, raw_blob_fee };
        let key = halves_of(&hash);
        self.entries.insert(key, StoreEntry { proposal, raw_blob_fee });
        proof {
            assert forall|other: BlockHash| halves(other) == halves(hash) implies other == hash by {
                assert(other.0 == hash.0);
            }
            assert(self@ =~= before.insert(hash, model));
        }
    }

    /// Forgets every proposal.
    pub fn clear(&mut self)
        ensures
            final(self)@ == Map::<BlockHash, AcceptedModel>::empty(),
    {
        self.entries.clear();
        assert(self@ =~= Map::<BlockHash, AcceptedModel>::empty());
    }
}

} // verus!

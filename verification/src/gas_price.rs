//! Assembly of the prices that a block carries, and the check that a received
//! block carries the prices this node would have chosen.

use vstd::prelude::*;
use crate::arith::{clamp, clamped, mul_div, scale_and_clamp, scaled};
use crate::types::{BlockNumber, ConsensusBlockInfo, ContractAddress, L1DataAvailabilityMode};

verus! {

/// Divisor of a multiplier given in parts per thousand.
pub const PARTS_PER_THOUSAND: u64 = 1000;

/// Divisor of a margin given in parts per million.
pub const PARTS_PER_MILLION: u64 = 1_000_000;

/// The answer of the L1 gas price provider.
#[derive(Clone, Copy, Debug, PartialEq, Eq)]
pub struct PriceInfo {
    pub base_fee_per_gas: u128,
    pub blob_fee: u128,
}

/// The protocol's bounds on prices and the rules to derive them.
#[derive(Clone, Copy, Debug, PartialEq, Eq)]
pub struct GasPriceParams {
    pub min_l1_gas_price_wei: u128,
    pub max_l1_gas_price_wei: u128,
    pub min_l1_data_gas_price_wei: u128,
    pub max_l1_data_gas_price_wei: u128,
    pub l1_data_gas_price_multiplier_ppt: u64,
    pub min_l2_gas_price_fri: u128,
    pub default_eth_to_fri_rate: u128,
    pub eth_to_fri_rate_margin_ppm: u64,
}

/// A block info beside the raw blob fee that its data gas price was derived
/// from: what is kept of a block for the prices of later blocks.
#[derive(Clone, Copy, Debug, PartialEq, Eq)]
pub struct PricedBlock {
    pub block_info: ConsensusBlockInfo,
    pub raw_blob_fee: u128,
}

/// The oracle values that prices are derived from.
pub struct RawPrices {
    pub eth_to_fri_rate: u128,
    pub base_fee: u128,
    pub blob_fee: u128,
}

impl GasPriceParams {
    /// Each minimum is at most its maximum.
    pub open spec fn ordered(&self) -> bool {
        &&& self.min_l1_gas_price_wei <= self.max_l1_gas_price_wei
        &&& self.min_l1_data_gas_price_wei <= self.max_l1_data_gas_price_wei
    }

    /// Whether each minimum is at most its maximum.
    pub fn is_ordered(&self) -> (ok: bool)
        ensures
            ok == self.ordered(),
    {
        self.min_l1_gas_price_wei <= self.max_l1_gas_price_wei && self.min_l1_data_gas_price_wei
            <= self.max_l1_data_gas_price_wei
    }

    /// The L1 gas price that a base fee leads to.
    pub open spec fn gas_price_for(&self, base_fee: u128) -> int {
        clamped(
            base_fee as int,
            self.min_l1_gas_price_wei as int,
            self.max_l1_gas_price_wei as int,
        )
    }

    /// The L1 data gas price that a blob fee leads to.
    pub open spec fn data_gas_price_for(&self, blob_fee: u128) -> int {
        clamped(
            scaled(blob_fee, self.l1_data_gas_price_multiplier_ppt, PARTS_PER_THOUSAND),
            self.min_l1_data_gas_price_wei as int,
            self.max_l1_data_gas_price_wei as int,
        )
    }

    /// Whether the data gas price of the block is the one that its raw blob
    /// fee leads to.
    pub open spec fn derived(&self, block: PricedBlock) -> bool {
        block.block_info.l1_data_gas_price_wei == self.data_gas_price_for(block.raw_blob_fee)
    }

    /// Whether the block is one that these options lead to: its L1 prices
    /// lie within the bounds, and its data gas price is derived from the raw
    /// blob fee beside it.
    pub open spec fn priced_by(&self, block: PricedBlock) -> bool {
        self.bounds(block.block_info) && self.derived(block)
    }

    /// Whether a block's two L1 prices lie within the bounds.
    pub open spec fn bounds(&self, info: ConsensusBlockInfo) -> bool {
        &&& self.min_l1_gas_price_wei <= info.l1_gas_price_wei <= self.max_l1_gas_price_wei
        &&& self.min_l1_data_gas_price_wei <= info.l1_data_gas_price_wei
            <= self.max_l1_data_gas_price_wei
    }
}

/// The values to derive prices from: the oracles' when both answered; else
/// the rate and the L1 gas price of the last committed block, with the raw
/// blob fee that its data gas price was derived from; else the default rate
/// and zero fees.
pub open spec fn chosen_prices(
    params: GasPriceParams,
    prices: Option<PriceInfo>,
    rate: Option<u128>,
    previous: Option<PricedBlock>,
) -> RawPrices {
    if prices.is_some() && rate.is_some() {
        RawPrices {
            eth_to_fri_rate: rate.unwrap(),
            base_fee: prices.unwrap().base_fee_per_gas,
            blob_fee: prices.unwrap().blob_fee,
        }
    } else if previous.is_some() {
        RawPrices {
            eth_to_fri_rate: previous.unwrap().block_info.eth_to_fri_rate,
            base_fee: previous.unwrap().block_info.l1_gas_price_wei,
            blob_fee: previous.unwrap().raw_blob_fee,
        }
    } else {
        RawPrices { eth_to_fri_rate: params.default_eth_to_fri_rate, base_fee: 0, blob_fee: 0 }
    }
}

/// The block info that the assembler produces.
pub open spec fn assembled(
    params: GasPriceParams,
    height: BlockNumber,
    timestamp: u64,
    builder: ContractAddress,
    l1_da_mode: L1DataAvailabilityMode,
    prices: Option<PriceInfo>,
    rate: Option<u128>,
    previous: Option<PricedBlock>,
) -> ConsensusBlockInfo {
    let raw = chosen_prices(params, prices, rate, previous);
    ConsensusBlockInfo {
        height,
        timestamp,
        builder,
        l1_da_mode,
        l2_gas_price_fri: params.min_l2_gas_price_fri,
        l1_gas_price_wei: params.gas_price_for(raw.base_fee) as u128,
        l1_data_gas_price_wei: params.data_gas_price_for(raw.blob_fee) as u128,
        eth_to_fri_rate: raw.eth_to_fri_rate,
    }
}

/// The assembled block info beside the raw blob fee that was chosen for it.
pub open spec fn priced(
    params: GasPriceParams,
    height: BlockNumber,
    timestamp: u64,
    builder: ContractAddress,
    l1_da_mode: L1DataAvailabilityMode,
    prices: Option<PriceInfo>,
    rate: Option<u128>,
    previous: Option<PricedBlock>,
) -> PricedBlock {
    PricedBlock {
        block_info: assembled(
            params,
            height,
            timestamp,
            builder,
            l1_da_mode,
            prices,
            rate,
            previous,
        ),
        raw_blob_fee: chosen_prices(params, prices, rate, previous).blob_fee,
    }
}

/// Whether `received` deviates from `local` by no more than `margin_ppm`
/// millionths of `local`.
pub open spec fn rate_within_margin(received: u128, local: u128, margin_ppm: u64) -> bool {
    let distance = if received >= local {
        received - local
    } else {
        local - received
    };
    distance * PARTS_PER_MILLION <= local * margin_ppm
}

/// Whether a received block info carries the prices computed locally, and a
/// rate within the margin of the local one.
pub open spec fn prices_accepted(
    params: GasPriceParams,
    received: ConsensusBlockInfo,
    local: ConsensusBlockInfo,
) -> bool {
    &&& received.l1_gas_price_wei == local.l1_gas_price_wei
    &&& received.l1_data_gas_price_wei == local.l1_data_gas_price_wei
    &&& received.l2_gas_price_fri == local.l2_gas_price_fri
    &&& rate_within_margin(
        received.eth_to_fri_rate,
        local.eth_to_fri_rate,
        params.eth_to_fri_rate_margin_ppm,
    )
}

/// Picks the values to derive prices from.
pub fn choose_prices(
    params: &GasPriceParams,
    prices: Option<PriceInfo>,
    rate: Option<u128>,
    previous: Option<PricedBlock>,
) -> (raw: RawPrices)
    ensures
        raw == chosen_prices(*params, prices, rate, previous),
{
    match (prices, rate) {
        (Some(info), Some(eth_to_fri_rate)) => RawPrices {
            eth_to_fri_rate,
            base_fee: info.base_fee_per_gas,
            blob_fee: info.blob_fee,
        },
        _ => match previous {
            Some(last) => RawPrices {
                eth_to_fri_rate: last.block_info.eth_to_fri_rate,
                base_fee: last.block_info.l1_gas_price_wei,
                blob_fee: last.raw_blob_fee,
            },
            None => RawPrices {
                eth_to_fri_rate: params.default_eth_to_fri_rate,
                base_fee: 0,
                blob_fee: 0,
            },
        },
    }
}

/// Assembles the block info of a block at `height` stamped `timestamp`, from
/// what the two oracles answered (`None` where one failed) and the last
/// committed block, if any; and hands it out beside the raw blob fee that its
/// data gas price was derived from.
pub fn price_block(
    params: &GasPriceParams,
    height: BlockNumber,
    timestamp: u64,
    builder: ContractAddress,
    l1_da_mode: L1DataAvailabilityMode,
    prices: Option<PriceInfo>,
    rate: Option<u128>,
    previous: Option<PricedBlock>,
) -> (block: PricedBlock)
    requires
        params.ordered(),
    ensures
        block == priced(*params, height, timestamp, builder, l1_da_mode, prices, rate, previous),
        params.bounds(block.block_info),
        params.derived(block),
{
    let raw = choose_prices(params, prices, rate, previous);
    let l1_gas_price_wei = clamp(
        raw.base_fee,
        params.min_l1_gas_price_wei,
        params.max_l1_gas_price_wei,
    );
    let l1_data_gas_price_wei = scale_and_clamp(
        raw.blob_fee,
        params.l1_data_gas_price_multiplier_ppt,
        PARTS_PER_THOUSAND,
        params.min_l1_data_gas_price_wei,
        params.max_l1_data_gas_price_wei,
    );
    PricedBlock {
        block_info: ConsensusBlockInfo {
            height,
            timestamp,
            builder,
            l1_da_mode,
            l2_gas_price_fri: params.min_l2_gas_price_fri,
            l1_gas_price_wei,
            l1_data_gas_price_wei,
            eth_to_fri_rate: raw.eth_to_fri_rate,
        },
        raw_blob_fee: raw.blob_fee,
    }
}

/// Assembles the block info of a block at `height` stamped `timestamp`, from
/// what the two oracles answered (`None` where one failed) and the last
/// committed block, if any.
pub fn assemble_block_info(
    params: &GasPriceParams,
    height: BlockNumber,
    timestamp: u64,
    builder: ContractAddress,
    l1_da_mode: L1DataAvailabilityMode,
    prices: Option<PriceInfo>,
    rate: Option<u128>,
    previous: Option<PricedBlock>,
) -> (info: ConsensusBlockInfo)
    requires
        params.ordered(),
    ensures
        info == assembled(
            *params,
            height,
            timestamp,
            builder,
            l1_da_mode,
            prices,
            rate,
            previous,
        ),
        params.bounds(info),
{
    price_block(params, height, timestamp, builder, l1_da_mode, prices, rate, previous).block_info
}

/// Decides whether `received` is within `margin_ppm` millionths of `local`.
pub fn within_margin(received: u128, local: u128, margin_ppm: u64) -> (ok: bool)
    ensures
        ok == rate_within_margin(received, local, margin_ppm),
{
    let distance: u128 = if received >= local {
        received - local
    } else {
        local - received
    };
    proof {
        lemma_margin_as_quotient(distance, local, margin_ppm);
    }
    match mul_div(local, margin_ppm, PARTS_PER_MILLION) {
        Some(allowed) => distance <= allowed,
        None => true,
    }
}

/// A distance is within the margin exactly when it is at most the margin's
/// share of the local value, rounded down.
pub proof fn lemma_margin_as_quotient(distance: u128, local: u128, margin_ppm: u64)
    ensures
        distance * PARTS_PER_MILLION <= local * margin_ppm <==> distance <= scaled(
            local,
            margin_ppm,
            PARTS_PER_MILLION,
        ),
{
    let t = local as int * margin_ppm as int;
    let d = distance as int;
    let q = t / 1_000_000;
    vstd::arithmetic::div_mod::lemma_fundamental_div_mod(t, 1_000_000);
    assert(0 <= t % 1_000_000 < 1_000_000);
    assert(t == 1_000_000 * q + t % 1_000_000);
    if d <= q {
        assert(d * 1_000_000 <= t);
    } else {
        assert(d >= q + 1);
        assert(d * 1_000_000 > t);
    }
}

/// Decides whether a received block info is acceptable next to the block info
/// assembled locally for the same height and timestamp.
pub fn accept_prices(
    params: &GasPriceParams,
    received: &ConsensusBlockInfo,
    local: &ConsensusBlockInfo,
) -> (ok: bool)
    ensures
        ok == prices_accepted(*params, *received, *local),
{
    received.l1_gas_price_wei == local.l1_gas_price_wei && received.l1_data_gas_price_wei
        == local.l1_data_gas_price_wei && received.l2_gas_price_fri == local.l2_gas_price_fri
        && within_margin(
        received.eth_to_fri_rate,
        local.eth_to_fri_rate,
        params.eth_to_fri_rate_margin_ppm,
    )
}

/// Whatever the oracles answer, the assembled L1 prices lie within the bounds.
pub proof fn lemma_assembled_within_bounds(
    params: GasPriceParams,
    height: BlockNumber,
    timestamp: u64,
    builder: ContractAddress,
    l1_da_mode: L1DataAvailabilityMode,
    prices: Option<PriceInfo>,
    rate: Option<u128>,
    previous: Option<PricedBlock>,
)
    requires
        params.ordered(),
    ensures
        params.bounds(
            assembled(params, height, timestamp, builder, l1_da_mode, prices, rate, previous),
        ),
{
}

/// With both oracles out and no earlier block, the block carries the default
/// rate and the two minimum prices.
pub proof fn lemma_defaults_without_history(
    params: GasPriceParams,
    height: BlockNumber,
    timestamp: u64,
    builder: ContractAddress,
    l1_da_mode: L1DataAvailabilityMode,
    prices: Option<PriceInfo>,
    rate: Option<u128>,
)
    requires
        params.ordered(),
        prices.is_none() || rate.is_none(),
    ensures
        ({
            let info = assembled(
                params,
                height,
                timestamp,
                builder,
                l1_da_mode,
                prices,
                rate,
                None,
            );
            &&& info.eth_to_fri_rate == params.default_eth_to_fri_rate
            &&& info.l1_gas_price_wei == params.min_l1_gas_price_wei
            &&& info.l1_data_gas_price_wei == params.min_l1_data_gas_price_wei
        }),
{
    assert(scaled(0, params.l1_data_gas_price_multiplier_ppt, PARTS_PER_THOUSAND) == 0);
}

/// With an oracle out, a block after a committed one keeps that block's rate,
/// and its data gas price is the one that the raw blob fee of that block leads
/// to. Where the L1 gas price of that block lay within the bounds, it is kept
/// too; and where the data gas price of that block was derived from its raw
/// blob fee under the same options, it is kept as well.
pub proof fn lemma_previous_reused(
    params: GasPriceParams,
    height: BlockNumber,
    timestamp: u64,
    builder: ContractAddress,
    l1_da_mode: L1DataAvailabilityMode,
    prices: Option<PriceInfo>,
    rate: Option<u128>,
    previous: PricedBlock,
)
    requires
        params.ordered(),
        prices.is_none() || rate.is_none(),
    ensures
        ({
            let block = priced(
                params,
                height,
                timestamp,
                builder,
                l1_da_mode,
                prices,
                rate,
                Some(previous),
            );
            let info = block.block_info;
            &&& info.eth_to_fri_rate == previous.block_info.eth_to_fri_rate
            &&& info.l1_data_gas_price_wei == params.data_gas_price_for(previous.raw_blob_fee)
            &&& block.raw_blob_fee == previous.raw_blob_fee
            &&& params.bounds(previous.block_info) ==> info.l1_gas_price_wei
                == previous.block_info.l1_gas_price_wei
            &&& params.derived(previous) ==> info.l1_data_gas_price_wei
                == previous.block_info.l1_data_gas_price_wei
        }),
{
}

/// The data gas price of an assembled block is the one that the raw blob fee
/// kept beside it leads to, whatever the oracles answered.
pub proof fn lemma_priced_is_derived(
    params: GasPriceParams,
    height: BlockNumber,
    timestamp: u64,
    builder: ContractAddress,
    l1_da_mode: L1DataAvailabilityMode,
    prices: Option<PriceInfo>,
    rate: Option<u128>,
    previous: Option<PricedBlock>,
)
    requires
        params.ordered(),
    ensures
        params.derived(
            priced(params, height, timestamp, builder, l1_da_mode, prices, rate, previous),
        ),
        prices.is_some() && rate.is_some() ==> priced(
            params,
            height,
            timestamp,
            builder,
            l1_da_mode,
            prices,
            rate,
            previous,
        ).raw_blob_fee == prices.unwrap().blob_fee,
{
}

/// A block info assembled locally is accepted by the node that assembled it.
pub proof fn lemma_own_prices_accepted(params: GasPriceParams, info: ConsensusBlockInfo)
    ensures
        prices_accepted(params, info, info),
{
    assert(0 <= info.eth_to_fri_rate * params.eth_to_fri_rate_margin_ppm) by (nonlinear_arith);
}

} // verus!

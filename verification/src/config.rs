//! The options of the consensus context.

use vstd::prelude::*;
use crate::gas_price::GasPriceParams;
use crate::types::L1DataAvailabilityMode;

verus! {

/// The chain that the node works on.
#[derive(Clone, Debug, PartialEq, Eq)]
pub enum ChainId {
    Mainnet,
    Sepolia,
    IntegrationSepolia,
    Other(String),
}

/// The recognised options.
#[derive(Clone, Debug, PartialEq, Eq)]
pub struct ContextConfig {
    /// Bound of the channels that carry proposal parts.
    pub proposal_buffer_size: usize,
    /// Number of validators; of no effect on the decisions.
    pub num_validators: u64,
    pub chain_id: ChainId,
    /// Where the blocks that this node builds publish their data.
    pub l1_da_mode: L1DataAvailabilityMode,
    pub min_l1_gas_price_wei: u128,
    pub max_l1_gas_price_wei: u128,
    pub min_l1_data_gas_price_wei: u128,
    pub max_l1_data_gas_price_wei: u128,
    /// Multiplier of the blob fee, in parts per thousand.
    pub l1_data_gas_price_multiplier_ppt: u64,
    pub min_l2_gas_price_fri: u128,
    /// Tolerance of a received exchange rate, in parts per million.
    pub eth_to_fri_rate_margin_ppm: u64,
    pub default_eth_to_fri_rate: u128,
    /// By how much the batcher's deadline precedes the engine's, on a build.
    pub build_proposal_margin_ms: u64,
    /// By how much the batcher's deadline precedes the engine's, on a validation.
    pub validate_proposal_margin_ms: u64,
}

/// One gwei, in wei.
pub const GWEI: u128 = 1_000_000_000;

/// One ether, in wei.
pub const ETHER: u128 = 1_000_000_000_000_000_000;

/// The exchange rate used when no oracle and no earlier block gives one.
pub const DEFAULT_ETH_TO_FRI_RATE: u128 = 1_000_000_000_000_000_000_000;

/// The lowest L2 gas price that the protocol admits, in fri.
pub const MIN_L2_GAS_PRICE_FRI: u128 = 3_000_000_000;

/// A timeout shortened by a margin, and zero where the margin exceeds it.
pub open spec fn shortened(timeout_ms: u64, margin_ms: u64) -> u64 {
    if timeout_ms >= margin_ms {
        (timeout_ms - margin_ms) as u64
    } else {
        0
    }
}

/// Shortens a timeout by a margin; zero where the margin exceeds it.
pub fn shorten(timeout_ms: u64, margin_ms: u64) -> (deadline_ms: u64)
    ensures
        deadline_ms == shortened(timeout_ms, margin_ms),
{
    if timeout_ms >= margin_ms {
        timeout_ms - margin_ms
    } else {
        0
    }
}

impl ContextConfig {
    /// The part of the options that rules prices.
    pub open spec fn params(&self) -> GasPriceParams {
        GasPriceParams {
            min_l1_gas_price_wei: self.min_l1_gas_price_wei,
            max_l1_gas_price_wei: self.max_l1_gas_price_wei,
            min_l1_data_gas_price_wei: self.min_l1_data_gas_price_wei,
            max_l1_data_gas_price_wei: self.max_l1_data_gas_price_wei,
            l1_data_gas_price_multiplier_ppt: self.l1_data_gas_price_multiplier_ppt,
            min_l2_gas_price_fri: self.min_l2_gas_price_fri,
            default_eth_to_fri_rate: self.default_eth_to_fri_rate,
            eth_to_fri_rate_margin_ppm: self.eth_to_fri_rate_margin_ppm,
        }
    }

    /// The part of the options that rules prices.
    pub fn gas_price_params(&self) -> (params: GasPriceParams)
        ensures
            params == self.params(),
    {
        GasPriceParams {
            min_l1_gas_price_wei: self.min_l1_gas_price_wei,
            max_l1_gas_price_wei: self.max_l1_gas_price_wei,
            min_l1_data_gas_price_wei: self.min_l1_data_gas_price_wei,
            max_l1_data_gas_price_wei: self.max_l1_data_gas_price_wei,
            l1_data_gas_price_multiplier_ppt: self.l1_data_gas_price_multiplier_ppt,
            min_l2_gas_price_fri: self.min_l2_gas_price_fri,
            default_eth_to_fri_rate: self.default_eth_to_fri_rate,
            eth_to_fri_rate_margin_ppm: self.eth_to_fri_rate_margin_ppm,
        }
    }
}

impl Default for ContextConfig {
    fn default() -> (config: ContextConfig)
        ensures
            config.params().ordered(),
            config.proposal_buffer_size == 100,
            config.num_validators == 1,
            config.chain_id == ChainId::Mainnet,
            config.l1_da_mode == L1DataAvailabilityMode::Blob,
            config.min_l1_gas_price_wei == GWEI,
            config.max_l1_gas_price_wei == 200 * GWEI,
            config.min_l1_data_gas_price_wei == 1,
            config.max_l1_data_gas_price_wei == ETHER,
            config.l1_data_gas_price_multiplier_ppt == 135,
            config.min_l2_gas_price_fri == MIN_L2_GAS_PRICE_FRI,
            config.eth_to_fri_rate_margin_ppm == 100_000,
            config.default_eth_to_fri_rate == DEFAULT_ETH_TO_FRI_RATE,
            config.build_proposal_margin_ms == 1000,
            config.validate_proposal_margin_ms == 1000,
    {
        ContextConfig {
            proposal_buffer_size: 100,
            num_validators: 1,
            chain_id: ChainId::Mainnet,
            l1_da_mode: L1DataAvailabilityMode::Blob,
            min_l1_gas_price_wei: GWEI,
            max_l1_gas_price_wei: 200 * GWEI,
            min_l1_data_gas_price_wei: 1,
            max_l1_data_gas_price_wei: ETHER,
            l1_data_gas_price_multiplier_ppt: 135,
            min_l2_gas_price_fri: MIN_L2_GAS_PRICE_FRI,
            eth_to_fri_rate_margin_ppm: 100_000,
            default_eth_to_fri_rate: DEFAULT_ETH_TO_FRI_RATE,
            build_proposal_margin_ms: 1000,
            validate_proposal_margin_ms: 1000,
        }
    }
}

} // verus!

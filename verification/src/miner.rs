//! What the miner puts into the blocks it seals.

use vstd::prelude::*;
use crate::primitives::{Address, U256};

verus! {

/// The gas limit that the miner does not go below of its own accord.
pub const DEFAULT_GAS_FLOOR_TARGET: u64 = 4_700_000;

/// The gas limit that the miner does not go above of its own accord.
pub const DEFAULT_GAS_CEIL_TARGET: u64 = 6_283_184;

/// The number of transactions that the queue holds at most.
pub const DEFAULT_TRANSACTIONS_LIMIT: usize = 1024;

/// The settings of the miner that are not part of its options proper.
#[derive(Debug, PartialEq, Eq)]
pub struct MinerExtras {
    /// The account that is credited with the blocks.
    pub author: Address,
    /// The bytes that are put into each block as they are.
    pub extra_data: Vec<u8>,
    /// The gas limit to stay above.
    pub gas_floor_target: U256,
    /// The gas limit to stay below.
    pub gas_ceil_target: U256,
    /// The number of transactions that the queue holds at most.
    pub transactions_limit: usize,
    /// The account that signs blocks for the consensus engine.
    pub engine_signer: Address,
}

impl MinerExtras {
    /// The settings of a miner that was given none, with `extra_data` as the
    /// bytes it puts into its blocks: usually those that identify the build.
    /// No account is credited and none signs; the gas limit is kept between
    /// 4,700,000 and 6,283,184, and the queue holds 1024 transactions.
    pub fn with_extra_data(extra_data: Vec<u8>) -> (extras: Self)
        ensures
            extras == (MinerExtras {
                author: Address::zero(),
                extra_data: extra_data,
                gas_floor_target: U256::from_u64(4_700_000),
                gas_ceil_target: U256::from_u64(6_283_184),
                transactions_limit: 1024,
                engine_signer: Address::zero(),
            }),
    {
        MinerExtras {
            author: Address::default(),
            extra_data: extra_data,
            gas_floor_target: U256::from(DEFAULT_GAS_FLOOR_TARGET),
            gas_ceil_target: U256::from(DEFAULT_GAS_CEIL_TARGET),
            transactions_limit: DEFAULT_TRANSACTIONS_LIMIT,
            engine_signer: Address::default(),
        }
    }
}

} // verus!

//! How the miner sets the least gas price it accepts.

use vstd::prelude::*;
use crate::primitives::{F32Bits, U256};

verus! {

/// The least gas price that starts a calibrated pricer, in base units.
pub const DEFAULT_INITIAL_MINIMUM: u64 = 11_904_761_856;

/// The bit pattern of 0.0025, the cost in USD that a calibrated pricer aims at
/// for a plain transaction.
pub const DEFAULT_USD_PER_TX: u32 = 0x3b23_d70a;

/// The seconds between two calibrations of a calibrated pricer.
pub const DEFAULT_RECALIBRATION_PERIOD: u64 = 3600;

/// How the least accepted gas price was asked to be set.
#[derive(Debug, Clone, Copy, PartialEq, Eq)]
pub enum GasPricerConfig {
    /// A price that stays as given.
    Fixed(U256),
    /// A price that follows the exchange rate.
    Calibrated {
        /// The price to start with, until the first calibration.
        initial_minimum: U256,
        /// The cost in USD that a plain transaction should come to.
        usd_per_tx: F32Bits,
        /// The time between two calibrations, in whole seconds.
        recalibration_period: u64,
    },
}

/// What a calibrated pricer is run with.
#[derive(Debug, Clone, Copy, PartialEq, Eq, Structural)]
pub struct GasPriceCalibratorOptions {
    /// The cost in USD that a plain transaction should come to.
    pub usd_per_tx: F32Bits,
    /// The time between two calibrations, in whole seconds.
    pub recalibration_period: u64,
}

/// The pricer that the miner runs with.
#[derive(Debug, Clone, Copy, PartialEq, Eq)]
pub enum GasPricer {
    /// A price that stays as given.
    Fixed(U256),
    /// A price that is calibrated with these options.
    Calibrated(GasPriceCalibratorOptions),
}

impl GasPricerConfig {
    /// The least price in effect before any calibration has run.
    pub open spec fn spec_initial_min(self) -> U256 {
        match self {
            GasPricerConfig::Fixed(min) => min,
            GasPricerConfig::Calibrated { initial_minimum, .. } => initial_minimum,
        }
    }

    /// The pricer that this configuration asks for. A fixed price is handed
    /// on. Of a calibrated one only the target and the period are: the
    /// starting price is no part of the pricer.
    pub open spec fn pricer(self) -> GasPricer {
        match self {
            GasPricerConfig::Fixed(price) => GasPricer::Fixed(price),
            GasPricerConfig::Calibrated { usd_per_tx, recalibration_period, .. } => {
                GasPricer::Calibrated(
                    GasPriceCalibratorOptions {
                        usd_per_tx: usd_per_tx,
                        recalibration_period: recalibration_period,
                    },
                )
            },
        }
    }

    /// The least price in effect before any calibration has run: the fixed
    /// price, or the price that a calibrated pricer starts with.
    pub fn initial_min(&self) -> (min: U256)
        ensures
            min == self.spec_initial_min(),
    {
        match *self {
            GasPricerConfig::Fixed(min) => min,
            GasPricerConfig::Calibrated { initial_minimum, .. } => initial_minimum,
        }
    }
}

impl Default for GasPricerConfig {
    /// A calibrated pricer that starts at 11,904,761,856 base units, aims at
    /// 0.0025 USD for a transaction and is calibrated once an hour.
    fn default() -> (config: Self)
        ensures
            config == (GasPricerConfig::Calibrated {
                initial_minimum: U256::from_u64(11_904_761_856),
                usd_per_tx: F32Bits(0x3b23_d70a),
                recalibration_period: 3600,
            }),
    {
        GasPricerConfig::Calibrated {
            initial_minimum: U256::from(DEFAULT_INITIAL_MINIMUM),
            usd_per_tx: F32Bits(DEFAULT_USD_PER_TX),
            recalibration_period: DEFAULT_RECALIBRATION_PERIOD,
        }
    }
}

impl From<GasPricerConfig> for GasPricer {
    /// The pricer that a configuration asks for.
    fn from(config: GasPricerConfig) -> (pricer: Self)
        ensures
            pricer == config.pricer(),
    {
        match config {
            GasPricerConfig::Fixed(u) => GasPricer::Fixed(u),
            GasPricerConfig::Calibrated { usd_per_tx, recalibration_period, .. } => {
                GasPricer::Calibrated(
                    GasPriceCalibratorOptions {
                        usd_per_tx: usd_per_tx,
                        recalibration_period: recalibration_period,
                    },
                )
            },
        }
    }
}

impl vstd::std_specs::convert::FromSpecImpl<GasPricerConfig> for GasPricer {
    open spec fn obeys_from_spec() -> bool {
        true
    }

    open spec fn from_spec(config: GasPricerConfig) -> Self {
        config.pricer()
    }
}

/// The pricer of a calibrated configuration does not depend on the price that
/// the configuration starts with.
pub proof fn lemma_pricer_ignores_initial_minimum(
    first: U256,
    second: U256,
    usd_per_tx: F32Bits,
    recalibration_period: u64,
)
    ensures
        (GasPricerConfig::Calibrated {
            initial_minimum: first,
            usd_per_tx,
            recalibration_period,
        }).pricer() == (GasPricerConfig::Calibrated {
            initial_minimum: second,
            usd_per_tx,
            recalibration_period,
        }).pricer(),
{
}

} // verus!

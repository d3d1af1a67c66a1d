//! Typed start-up parameters of a blockchain node: the selectors that are
//! given as short tokens, the records of settings with their defaults, and the
//! rules by which a requested setting is held against the choices that an
//! earlier run left behind.

pub mod accounts;
pub mod chain;
pub mod gas;
pub mod miner;
pub mod mode;
pub mod primitives;
pub mod pruning;
pub mod reseal;
pub mod resolve;
pub mod switch;
pub mod text;
pub mod user_defaults;

pub use accounts::AccountsConfig;
pub use chain::SpecType;
pub use gas::{GasPriceCalibratorOptions, GasPricer, GasPricerConfig};
pub use miner::MinerExtras;
pub use mode::Mode;
pub use primitives::{Address, F32Bits, U256};
pub use pruning::{Algorithm, Pruning};
pub use reseal::ResealPolicy;
pub use resolve::{fatdb_switch_to_bool, mode_switch_to_bool, tracing_switch_to_bool};
pub use switch::Switch;
pub use user_defaults::UserDefaults;

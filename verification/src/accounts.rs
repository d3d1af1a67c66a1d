//! How the node handles the accounts it holds keys for.

use vstd::prelude::*;
use crate::primitives::Address;

verus! {

/// The settings of the account store.
#[derive(Debug, PartialEq, Eq)]
pub struct AccountsConfig {
    /// Rounds of key derivation that protect a stored key.
    pub iterations: u32,
    /// Whether the keys of the test network are used.
    pub testnet: bool,
    /// Paths of the files that hold passwords.
    pub password_files: Vec<String>,
    /// Accounts that are unlocked from the start.
    pub unlocked_accounts: Vec<Address>,
    /// Whether hardware wallets are looked for.
    pub enable_hardware_wallets: bool,
}

impl Default for AccountsConfig {
    /// 10240 rounds of key derivation on the main network, with no password
    /// file, no account unlocked, and hardware wallets looked for.
    fn default() -> (config: Self)
        ensures
            config.iterations == 10240,
            !config.testnet,
            config.password_files@.len() == 0,
            config.unlocked_accounts@.len() == 0,
            config.enable_hardware_wallets,
    {
        AccountsConfig {
            iterations: 10240,
            testnet: false,
            password_files: Vec::new(),
            unlocked_accounts: Vec::new(),
            enable_hardware_wallets: true,
        }
    }
}

} // verus!

use vstd::prelude::*;

verus! {

/// Settings of one simulation run, read once and never changed.
pub struct Config {
    pub general: GeneralConfig,
    pub transaction: TransactionConfig,
}

pub struct GeneralConfig {
    pub account_count: u32,
    pub enable_throttling: bool,
    pub generate_reports: bool,
    /// Target transactions per second.
    pub tps: u32,
}

/// Inclusive bounds of the amounts that generated transactions carry.
pub struct TransactionConfig {
    pub min_deposit_value: u64,
    pub max_deposit_value: u64,
    pub min_transfer_value: u64,
    pub max_transfer_value: u64,
}

/// What makes a configuration unusable.
#[derive(Debug, Clone, Copy, PartialEq, Eq, Structural)]
pub enum ConfigError {
    /// The target rate is zero.
    ZeroTps,
    /// The minimum deposit exceeds the maximum deposit.
    DepositBounds,
    /// The minimum transfer exceeds the maximum transfer.
    TransferBounds,
}

impl Config {
    pub open spec fn wf(&self) -> bool {
        &&& self.general.tps >= 1
        &&& self.transaction.min_deposit_value <= self.transaction.max_deposit_value
        &&& self.transaction.min_transfer_value <= self.transaction.max_transfer_value
    }

    /// Checks the configuration's invariants, reporting the first one broken
    /// in the order rate, deposit bounds, transfer bounds.
    pub fn validate(&self) -> (r: Result<(), ConfigError>)
        ensures
            r is Ok <==> self.wf(),
            r == Err::<(), _>(ConfigError::ZeroTps) <==> self.general.tps == 0,
            r == Err::<(), _>(ConfigError::DepositBounds) <==> (self.general.tps >= 1
                && self.transaction.min_deposit_value > self.transaction.max_deposit_value),
            r == Err::<(), _>(ConfigError::TransferBounds) <==> (self.general.tps >= 1
                && self.transaction.min_deposit_value <= self.transaction.max_deposit_value
                && self.transaction.min_transfer_value > self.transaction.max_transfer_value),
    {
        if self.general.tps == 0 {
            Err(ConfigError::ZeroTps)
        } else if self.transaction.min_deposit_value > self.transaction.max_deposit_value {
            Err(ConfigError::DepositBounds)
        } else if self.transaction.min_transfer_value > self.transaction.max_transfer_value {
            Err(ConfigError::TransferBounds)
        } else {
            Ok(())
        }
    }
}

} // verus!

use vstd::prelude::*;

verus! {

/// Why a ledger operation was rejected. A rejected operation changes nothing.
#[derive(Clone, Copy, Debug, PartialEq, Eq, Structural)]
pub enum ErrorCode {
    /// The signer is not the owner of the record it tries to write.
    Unauthorized,
    /// RSI thresholds out of range, or `oversold` not below `overbought`.
    InvalidRSIParameters,
    /// A risk percentage above 100.
    InvalidRiskPercentage,
    /// A current price of zero.
    InvalidCurrentPrice,
    /// A win rate above 10000 basis points.
    InvalidWinRate,
    /// More winning trades than trades.
    InvalidTradeCounts,
    /// The computation could not be carried out.
    ComputationFailed,
    /// No strategy record exists for the owner.
    StrategyNotFound,
    /// The registry record already exists.
    AlreadyInitialized,
    /// The registry record does not exist yet.
    RegistryNotFound,
    /// No bump seed gives the record an address.
    NoViableAddress,
}

} // verus!

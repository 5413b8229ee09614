use vstd::prelude::*;
use crate::identity::{EncryptedData, Pubkey};

verus! {

/// An RSI evaluation was requested.
#[derive(Clone, Copy, Debug)]
pub struct RSIComputationRequested {
    pub authority: Pubkey,
    pub rsi_period: u8,
    pub rsi_oversold: u8,
    pub rsi_overbought: u8,
    pub timestamp: i64,
}

/// A position-size computation was requested.
#[derive(Clone, Copy, Debug)]
pub struct PositionSizeComputationRequested {
    pub authority: Pubkey,
    pub risk_percentage: u8,
    pub current_price: u64,
    pub timestamp: i64,
}

/// A performance-metrics computation was requested.
#[derive(Clone, Copy, Debug)]
pub struct PerformanceComputationRequested {
    pub authority: Pubkey,
    pub timestamp: i64,
}

/// A strategy record took a new performance summary.
#[derive(Clone, Copy, Debug)]
pub struct StrategyPerformanceUpdated {
    /// The owner of the strategy record that was written.
    pub strategy: Pubkey,
    pub total_return: i64,
    pub win_rate: u16,
    pub total_trades: u32,
    pub win_trades: u32,
    pub timestamp: i64,
}

/// One entry of the append-only audit log.
#[derive(Clone, Copy, Debug)]
pub enum LedgerEvent {
    RsiRequested(RSIComputationRequested),
    PositionSizeRequested(PositionSizeComputationRequested),
    PerformanceRequested(PerformanceComputationRequested),
    PerformanceUpdated(StrategyPerformanceUpdated),
}

/// What a computation request hands back: the position of its audit event in
/// the log, by which an off-ledger worker finds the request, and the encrypted
/// input, passed on untouched.
#[derive(Clone, Debug)]
pub struct ComputationReceipt {
    pub request_id: usize,
    pub result: EncryptedData,
}

} // verus!

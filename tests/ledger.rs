use shadow_trade::address::{registry_address, strategy_address};
use shadow_trade::error::ErrorCode;
use shadow_trade::events::LedgerEvent;
use shadow_trade::identity::{EncryptedData, Pubkey};
use shadow_trade::ledger::Ledger;

fn key(b: u8) -> Pubkey {
    Pubkey::new_from_array([b; 32])
}

fn program() -> Pubkey {
    key(200)
}

fn anchor_key(k: &Pubkey) -> anchor_lang::prelude::Pubkey {
    anchor_lang::prelude::Pubkey::new_from_array(k.bytes)
}

fn blob(bytes: &[u8]) -> EncryptedData {
    EncryptedData::new(bytes.to_vec())
}

fn ready_ledger() -> Ledger {
    let mut l = Ledger::new(program());
    l.initialize_with_bump(key(1), 254, 1_000).unwrap();
    l
}

#[test]
fn initialize_creates_registry_once() {
    let mut l = Ledger::new(program());
    assert_eq!(l.load_registry().err(), Some(ErrorCode::RegistryNotFound));
    assert!(l.initialize_with_bump(key(1), 254, 1_000).is_ok());
    let reg = l.load_registry().unwrap();
    assert!(reg.authority.same_as(&key(1)));
    assert_eq!(reg.bump, 254);
    assert_eq!(reg.created_at, 1_000);
    assert_eq!(reg.total_computations, 0);
    assert_eq!(reg.successful_computations, 0);
    assert_eq!(l.initialize_with_bump(key(2), 1, 2_000), Err(ErrorCode::AlreadyInitialized));
    let again = l.load_registry().unwrap();
    assert!(again.authority.same_as(&key(1)));
    assert_eq!(again.created_at, 1_000);
}

#[test]
fn requests_need_registry() {
    let mut l = Ledger::new(program());
    let r = l.evaluate_rsi_strategy(key(3), blob(&[1]), 14, 30, 70, 5);
    assert_eq!(r.err(), Some(ErrorCode::RegistryNotFound));
    let r = l.calculate_position_size(key(3), blob(&[1]), 50, 100, 5);
    assert_eq!(r.err(), Some(ErrorCode::RegistryNotFound));
    let r = l.calculate_performance_metrics(key(3), blob(&[1]), blob(&[2]), 5);
    assert_eq!(r.err(), Some(ErrorCode::RegistryNotFound));
    assert!(l.events.is_empty());
}

#[test]
fn position_size_risk_above_hundred_rejected() {
    let mut l = ready_ledger();
    let r = l.calculate_position_size(key(3), blob(&[9, 9]), 101, 100, 5);
    assert_eq!(r.err(), Some(ErrorCode::InvalidRiskPercentage));
    assert!(l.events.is_empty());
    assert_eq!(l.load_registry().unwrap().total_computations, 0);
}

#[test]
fn position_size_zero_price_rejected() {
    let mut l = ready_ledger();
    let r = l.calculate_position_size(key(3), blob(&[9, 9]), 0, 0, 5);
    assert_eq!(r.err(), Some(ErrorCode::InvalidCurrentPrice));
    assert!(l.events.is_empty());
}

#[test]
fn position_size_valid_request_accepted() {
    let mut l = ready_ledger();
    let r = l.calculate_position_size(key(3), blob(&[9, 8, 7]), 50, 100, 5).unwrap();
    assert_eq!(r.request_id, 0);
    assert_eq!(r.result.ciphertext, vec![9, 8, 7]);
    assert_eq!(l.events.len(), 1);
    match l.events[0] {
        LedgerEvent::PositionSizeRequested(e) => {
            assert!(e.authority.same_as(&key(3)));
            assert_eq!(e.risk_percentage, 50);
            assert_eq!(e.current_price, 100);
            assert_eq!(e.timestamp, 5);
        }
        _ => panic!("wrong event"),
    }
    assert_eq!(l.load_registry().unwrap().total_computations, 1);
}

#[test]
fn rsi_thresholds_validated() {
    let mut l = ready_ledger();
    let r = l.evaluate_rsi_strategy(key(3), blob(&[1]), 14, 70, 30, 5);
    assert_eq!(r.err(), Some(ErrorCode::InvalidRSIParameters));
    let r = l.evaluate_rsi_strategy(key(3), blob(&[1]), 14, 50, 50, 5);
    assert_eq!(r.err(), Some(ErrorCode::InvalidRSIParameters));
    let r = l.evaluate_rsi_strategy(key(3), blob(&[1]), 14, 30, 101, 5);
    assert_eq!(r.err(), Some(ErrorCode::InvalidRSIParameters));
    assert!(l.events.is_empty());
    assert!(l.evaluate_rsi_strategy(key(3), blob(&[1]), 14, 0, 100, 5).is_ok());
}

#[test]
fn request_output_is_receipt_and_echoed_ciphertext() {
    let mut l = ready_ledger();
    let secret = vec![0xde, 0xad, 0xbe, 0xef, 0x01];
    let r = l
        .calculate_performance_metrics(key(4), EncryptedData::new(secret.clone()), blob(&[7, 7]), 42)
        .unwrap();
    assert_eq!(r.request_id, 0);
    assert_eq!(r.result.ciphertext, secret);
    match l.events[0] {
        LedgerEvent::PerformanceRequested(e) => {
            assert!(e.authority.same_as(&key(4)));
            assert_eq!(e.timestamp, 42);
        }
        _ => panic!("wrong event"),
    }
    let r2 = l.evaluate_rsi_strategy(key(4), EncryptedData::new(secret.clone()), 14, 30, 70, 43).unwrap();
    assert_eq!(r2.request_id, 1);
    assert_eq!(r2.result.ciphertext, secret);
}

#[test]
fn settlement_is_idempotent() {
    let mut l = Ledger::new(program());
    let o = key(5);
    let a = l.update_strategy_performance(o, o, 250, 6000, 10, 6, 100).unwrap();
    let b = l.update_strategy_performance(o, o, 250, 6000, 10, 6, 100).unwrap();
    assert_eq!(l.strategies.len(), 1);
    assert_eq!(a.total_return, b.total_return);
    assert_eq!(a.win_rate, b.win_rate);
    assert_eq!(a.total_trades, b.total_trades);
    assert_eq!(a.win_trades, b.win_trades);
    assert_eq!(a.last_updated, b.last_updated);
    assert_eq!(a.bump, b.bump);
    let c = l.update_strategy_performance(o, o, 250, 6000, 10, 6, 150).unwrap();
    assert_eq!(c.win_rate, 6000);
    assert_eq!(c.last_updated, 150);
    assert_eq!(l.strategies.len(), 1);
}

#[test]
fn settlement_by_other_signer_rejected() {
    let mut l = Ledger::new(program());
    let a = key(6);
    let b = key(7);
    l.update_strategy_performance(a, a, 100, 5000, 4, 2, 10).unwrap();
    let r = l.update_strategy_performance(b, a, -900, 0, 9, 0, 11);
    assert_eq!(r.err(), Some(ErrorCode::Unauthorized));
    let s = l.load_strategy(&a).unwrap();
    assert_eq!(s.total_return, 100);
    assert_eq!(s.win_rate, 5000);
    assert_eq!(s.total_trades, 4);
    assert_eq!(s.win_trades, 2);
    assert_eq!(s.last_updated, 10);
    assert_eq!(l.events.len(), 1);
    assert_eq!(l.load_strategy(&b).err(), Some(ErrorCode::StrategyNotFound));
}

#[test]
fn settlement_last_writer_wins() {
    let mut l = Ledger::new(program());
    let o = key(8);
    l.update_strategy_performance(o, o, 10, 5000, 10, 5, 1).unwrap();
    l.update_strategy_performance(o, o, 20, 7500, 20, 15, 2).unwrap();
    let s = l.load_strategy(&o).unwrap();
    assert_eq!(s.win_rate, 7500);
    assert_eq!(s.total_return, 20);
    assert_eq!(s.total_trades, 20);
    assert_eq!(s.win_trades, 15);
}

#[test]
fn settlement_figures_validated() {
    let mut l = Ledger::new(program());
    let o = key(9);
    let r = l.update_strategy_performance(o, o, 0, 10001, 10, 5, 1);
    assert_eq!(r.err(), Some(ErrorCode::InvalidWinRate));
    let r = l.update_strategy_performance(o, o, 0, 5000, 3, 4, 1);
    assert_eq!(r.err(), Some(ErrorCode::InvalidTradeCounts));
    assert!(l.strategies.is_empty());
    assert!(l.events.is_empty());
    assert!(l.update_strategy_performance(o, o, 0, 10000, 3, 3, 1).is_ok());
}

#[test]
fn settlement_time_never_goes_back() {
    let mut l = Ledger::new(program());
    let o = key(10);
    l.update_strategy_performance(o, o, 0, 100, 1, 0, 500).unwrap();
    let s = l.update_strategy_performance(o, o, 0, 200, 1, 1, 300).unwrap();
    assert_eq!(s.last_updated, 500);
    assert_eq!(s.win_rate, 200);
}

#[test]
fn settlements_of_distinct_owners_are_independent() {
    let mut l = ready_ledger();
    let a = key(11);
    let b = key(12);
    l.update_strategy_performance(a, a, 1, 1000, 1, 1, 1).unwrap();
    l.update_strategy_performance(b, b, 2, 2000, 2, 2, 2).unwrap();
    l.update_strategy_performance(a, a, 5, 5000, 5, 5, 3).unwrap();
    assert_eq!(l.load_strategy(&a).unwrap().win_rate, 5000);
    let sb = l.load_strategy(&b).unwrap();
    assert_eq!(sb.win_rate, 2000);
    assert!(sb.owner.same_as(&b));
    assert_eq!(l.load_registry().unwrap().successful_computations, 3);
}

#[test]
fn end_to_end_request_then_settle() {
    let mut l = Ledger::new(program());
    let o = key(13);
    l.initialize(key(1), 1_000).unwrap();
    let receipt = l.evaluate_rsi_strategy(o, blob(&[5, 6, 7]), 14, 30, 70, 1_001).unwrap();
    assert_eq!(l.events.len(), 1);
    assert_eq!(receipt.request_id, 0);
    match l.events[receipt.request_id] {
        LedgerEvent::RsiRequested(e) => {
            assert!(e.authority.same_as(&o));
            assert_eq!(e.rsi_period, 14);
            assert_eq!(e.rsi_oversold, 30);
            assert_eq!(e.rsi_overbought, 70);
            assert_eq!(e.timestamp, 1_001);
        }
        _ => panic!("wrong event"),
    }
    l.update_strategy_performance(o, o, 250, 6000, 10, 6, 1_002).unwrap();
    let s = l.load_strategy(&o).unwrap();
    assert!(s.owner.same_as(&o));
    assert_eq!(s.total_return, 250);
    assert_eq!(s.win_rate, 6000);
    assert_eq!(s.total_trades, 10);
    assert_eq!(s.win_trades, 6);
    assert_eq!(s.last_updated, 1_002);
    match l.events[1] {
        LedgerEvent::PerformanceUpdated(e) => {
            assert!(e.strategy.same_as(&o));
            assert_eq!(e.total_return, 250);
            assert_eq!(e.win_rate, 6000);
            assert_eq!(e.total_trades, 10);
            assert_eq!(e.win_trades, 6);
        }
        _ => panic!("wrong event"),
    }
    let reg = l.load_registry().unwrap();
    assert_eq!(reg.total_computations, 1);
    assert_eq!(reg.successful_computations, 1);
}

#[test]
fn find_strategy_positions() {
    let mut l = Ledger::new(program());
    assert_eq!(l.find_strategy(&key(20)), 0);
    l.update_strategy_performance(key(20), key(20), 0, 0, 0, 0, 0).unwrap();
    l.update_strategy_performance(key(21), key(21), 0, 0, 0, 0, 0).unwrap();
    assert_eq!(l.find_strategy(&key(20)), 0);
    assert_eq!(l.find_strategy(&key(21)), 1);
    assert_eq!(l.find_strategy(&key(22)), 2);
}

#[test]
fn keys_compare_by_bytes() {
    let mut raw = [3u8; 32];
    let a = Pubkey::new_from_array(raw);
    raw[31] = 4;
    let b = Pubkey::new_from_array(raw);
    assert!(a.same_as(&key(3)));
    assert!(!a.same_as(&b));
}

#[test]
fn registry_address_is_program_derived() {
    let pid = program();
    let (addr, bump) = registry_address(&pid).unwrap();
    let (want, want_bump) =
        anchor_lang::prelude::Pubkey::find_program_address(&[b"shadow-trade-mxe"], &anchor_key(&pid));
    assert_eq!(addr.bytes, want.to_bytes());
    assert_eq!(bump, want_bump);
    assert!(!addr.same_as(&pid));
}

#[test]
fn strategy_address_is_program_derived() {
    let pid = program();
    let owner = key(5);
    let (addr, bump) = strategy_address(&owner, &pid).unwrap();
    let (want, want_bump) = anchor_lang::prelude::Pubkey::find_program_address(
        &[b"strategy", &owner.bytes],
        &anchor_key(&pid),
    );
    assert_eq!(addr.bytes, want.to_bytes());
    assert_eq!(bump, want_bump);
    assert!(!addr.same_as(&owner));
    let (other, _) = strategy_address(&key(6), &pid).unwrap();
    assert!(!addr.same_as(&other));
    let (reg, _) = registry_address(&pid).unwrap();
    assert!(!addr.same_as(&reg));
}

#[test]
fn initialize_stores_derived_bump() {
    let pid = program();
    let mut l = Ledger::new(pid);
    l.initialize(key(1), 77).unwrap();
    let (_, bump) = registry_address(&pid).unwrap();
    let reg = l.load_registry().unwrap();
    assert_eq!(reg.bump, bump);
    assert_eq!(reg.created_at, 77);
    assert_eq!(l.initialize(key(1), 78), Err(ErrorCode::AlreadyInitialized));
}

#[test]
fn new_strategy_stores_derived_bump() {
    let pid = program();
    let mut l = Ledger::new(pid);
    let o = key(30);
    let s = l.update_strategy_performance(o, o, 1, 1, 1, 1, 9).unwrap();
    let (_, bump) = strategy_address(&o, &pid).unwrap();
    assert_eq!(s.bump, bump);
    assert!(s.owner.same_as(&o));
}

#[test]
fn settle_with_bump_keeps_first_bump() {
    let mut l = Ledger::new(program());
    let o = key(31);
    let a = l.settle_with_bump(o, o, 9, 1, 100, 2, 1, 5).unwrap();
    assert_eq!(a.bump, 9);
    let b = l.settle_with_bump(o, o, 10, 2, 200, 3, 2, 6).unwrap();
    assert_eq!(b.bump, 9);
    assert_eq!(b.win_rate, 200);
    assert_eq!(l.settle_with_bump(key(32), o, 9, 1, 100, 2, 1, 7).err(), Some(ErrorCode::Unauthorized));
}

use vstd::prelude::*;
use crate::error::ErrorCode;
use crate::events::{
    ComputationReceipt, LedgerEvent, PerformanceComputationRequested,
    PositionSizeComputationRequested, RSIComputationRequested, StrategyPerformanceUpdated,
};
use crate::address::{registry_address, registry_location, strategy_address, strategy_location};
use crate::identity::{EncryptedData, Pubkey};
use crate::records::{
    lemma_owner_pos, lemma_owner_pos_at, lemma_put_record, lookup, owner_pos, settle_strategies,
    settled_record, settlement_figures_valid, Strategy, MAX_WIN_RATE_BPS, MXE,
};

verus! {

/// Largest RSI threshold and risk percentage.
pub const MAX_PERCENT: u8 = 100;

/// Whether RSI thresholds are acceptable: both at most 100, oversold below overbought.
pub open spec fn rsi_parameters_valid(rsi_oversold: u8, rsi_overbought: u8) -> bool {
    rsi_oversold < rsi_overbought && rsi_overbought <= MAX_PERCENT
}

/// Whether position-sizing parameters are acceptable.
pub open spec fn position_parameters_valid(risk_percentage: u8, current_price: u64) -> bool {
    risk_percentage <= MAX_PERCENT && current_price != 0
}

/// Adds one to a counter, staying at the largest value once there.
pub open spec fn bump_count(n: u64) -> u64 {
    if n < u64::MAX { (n + 1) as u64 } else { n }
}

/// The registry after it records one more requested computation.
pub open spec fn count_request(reg: MXE) -> MXE {
    MXE { total_computations: bump_count(reg.total_computations), ..reg }
}

/// The registry, if there is one, after it records one more settled computation.
pub open spec fn count_settlement(reg: Option<MXE>) -> Option<MXE> {
    match reg {
        Some(m) => Some(MXE { successful_computations: bump_count(m.successful_computations), ..m }),
        None => None,
    }
}

fn bump_counter(n: u64) -> (r: u64)
    ensures
        r == bump_count(n),
{
    if n < u64::MAX {
        n + 1
    } else {
        n
    }
}

/// What creating the registry with `authority`, `bump` and `now` leaves: it
/// succeeds exactly when there was no registry, and then holds the new record;
/// a failure changes nothing; strategies and log are untouched.
pub open spec fn initialized(pre: Ledger, post: Ledger, r: Result<(), ErrorCode>, authority: Pubkey, bump: u8, now: i64) -> bool {
    &&& r is Ok <==> pre.registry is None
    &&& r is Err ==> r == Err::<(), ErrorCode>(ErrorCode::AlreadyInitialized) && post == pre
    &&& r is Ok ==> post.registry == Some(
        MXE { authority, bump, total_computations: 0, successful_computations: 0, created_at: now },
    )
    &&& post.program_id == pre.program_id
    &&& post.strategies == pre.strategies
    &&& post.events == pre.events
}

/// What a settlement of the given figures by `signer` for `owner` leaves, with
/// `bump` as the bump of a record that has to be created. Authorization comes
/// first, then the win rate, then the trade counts; a failure changes nothing.
/// On success the records are those of `settle_strategies`, the returned record
/// is the owner's new one, every other owner's record is as it was, one event
/// with the new figures is appended, and the registry counts the settlement.
pub open spec fn settled(
    pre: Ledger,
    post: Ledger,
    r: Result<Strategy, ErrorCode>,
    signer: Pubkey,
    owner: Pubkey,
    bump: u8,
    total_return: i64,
    win_rate: u16,
    total_trades: u32,
    win_trades: u32,
    now: i64,
) -> bool {
    &&& signer@ != owner@ ==> r == Err::<Strategy, ErrorCode>(ErrorCode::Unauthorized)
    &&& signer@ == owner@ && win_rate > MAX_WIN_RATE_BPS ==> r == Err::<Strategy, ErrorCode>(
        ErrorCode::InvalidWinRate,
    )
    &&& signer@ == owner@ && win_rate <= MAX_WIN_RATE_BPS && win_trades > total_trades ==> r
        == Err::<Strategy, ErrorCode>(ErrorCode::InvalidTradeCounts)
    &&& r is Err ==> post == pre
    &&& r is Ok <==> signer@ == owner@ && settlement_figures_valid(win_rate, total_trades, win_trades)
    &&& r is Ok ==> {
        &&& post.strategies@ == settle_strategies(
            pre.strategies@,
            owner,
            bump,
            total_return,
            win_rate,
            total_trades,
            win_trades,
            now,
        )
        &&& r->Ok_0 == settled_record(
            lookup(pre.strategies@, owner@),
            owner,
            bump,
            total_return,
            win_rate,
            total_trades,
            win_trades,
            now,
        )
        &&& lookup(post.strategies@, owner@) == Some(r->Ok_0)
        &&& forall|other: Seq<u8>|
            other != owner@ ==> lookup(post.strategies@, other) == lookup(pre.strategies@, other)
        &&& post.events@ == pre.events@.push(
            LedgerEvent::PerformanceUpdated(
                StrategyPerformanceUpdated {
                    strategy: owner,
                    total_return,
                    win_rate,
                    total_trades,
                    win_trades,
                    timestamp: now,
                },
            ),
        )
        &&& post.registry == count_settlement(pre.registry)
        &&& post.program_id == pre.program_id
    }
}

/// The ledger's state: the registry record, the strategy records and the audit log.
pub struct Ledger {
    /// The program under whose id record addresses are derived.
    pub program_id: Pubkey,
    pub registry: Option<MXE>,
    pub strategies: Vec<Strategy>,
    pub events: Vec<LedgerEvent>,
}

impl Ledger {
    /// Every strategy record is valid, and no two belong to the same owner.
    pub open spec fn wf(&self) -> bool {
        &&& forall|i: int| 0 <= i < self.strategies@.len() ==> (#[trigger] self.strategies@[i]).is_valid()
        &&& forall|i: int, j: int|
            0 <= i < j < self.strategies@.len() ==> (#[trigger] self.strategies@[i]).owner@
                != (#[trigger] self.strategies@[j]).owner@
    }

    /// A ledger of the program `program_id`, with no records and an empty log.
    pub fn new(program_id: Pubkey) -> (r: Ledger)
        ensures
            r.wf(),
            r.program_id == program_id,
            r.registry is None,
            r.strategies@.len() == 0,
            r.events@.len() == 0,
    {
        Ledger { program_id, registry: None, strategies: Vec::new(), events: Vec::new() }
    }

    /// Creates the registry record at its derived address: the bump is found
    /// from the program id, and the rest is `initialize_with_bump`. Fails,
    /// changing nothing, with `NoViableAddress` if no bump gives an address.
    pub fn initialize(&mut self, authority: Pubkey, now: i64) -> (r: Result<(), ErrorCode>)
        ensures
            match registry_location(old(self).program_id@) {
                None => r == Err::<(), ErrorCode>(ErrorCode::NoViableAddress) && *final(self) == *old(self),
                Some(loc) => initialized(*old(self), *final(self), r, authority, loc.1, now),
            },
    {
        match registry_address(&self.program_id) {
            None => Err(ErrorCode::NoViableAddress),
            Some(found) => self.initialize_with_bump(authority, found.1, now),
        }
    }

    /// Creates the registry record, owned by `authority`, with the given bump.
    /// Fails, changing nothing, if the registry already exists.
    pub fn initialize_with_bump(&mut self, authority: Pubkey, bump: u8, now: i64) -> (r: Result<(), ErrorCode>)
        ensures
            initialized(*old(self), *final(self), r, authority, bump, now),
    {
        if self.registry.is_some() {
            return Err(ErrorCode::AlreadyInitialized);
        }
        self.registry = Some(
            MXE { authority, bump, total_computations: 0, successful_computations: 0, created_at: now },
        );
        Ok(())
    }

    /// Requests an RSI evaluation over encrypted prices. Fails, changing nothing,
    /// if there is no registry or the thresholds are out of range. On success the
    /// request is counted, one event carrying exactly the caller and the scalar
    /// parameters is appended, and the receipt hands the encrypted prices back as
    /// they came.
    pub fn evaluate_rsi_strategy(
        &mut self,
        authority: Pubkey,
        encrypted_prices: EncryptedData,
        rsi_period: u8,
        rsi_oversold: u8,
        rsi_overbought: u8,
        now: i64,
    ) -> (r: Result<ComputationReceipt, ErrorCode>)
        ensures
            old(self).registry is None ==> r == Err::<ComputationReceipt, ErrorCode>(
                ErrorCode::RegistryNotFound,
            ),
            old(self).registry is Some && !rsi_parameters_valid(rsi_oversold, rsi_overbought)
                ==> r == Err::<ComputationReceipt, ErrorCode>(ErrorCode::InvalidRSIParameters),
            r is Err ==> *final(self) == *old(self),
            r is Ok <==> old(self).registry is Some && rsi_parameters_valid(rsi_oversold, rsi_overbought),
            r is Ok ==> {
                &&& r->Ok_0.request_id == old(self).events@.len()
                &&& r->Ok_0.result == encrypted_prices
                &&& final(self).events@ == old(self).events@.push(
                    LedgerEvent::RsiRequested(
                        RSIComputationRequested {
                            authority,
                            rsi_period,
                            rsi_oversold,
                            rsi_overbought,
                            timestamp: now,
                        },
                    ),
                )
                &&& final(self).registry == Some(count_request(old(self).registry->Some_0))
                &&& final(self).strategies == old(self).strategies
                &&& final(self).program_id == old(self).program_id
            },
    {
        if self.registry.is_none() {
            return Err(ErrorCode::RegistryNotFound);
        }
        if !(rsi_oversold < rsi_overbought && rsi_overbought <= MAX_PERCENT) {
            return Err(ErrorCode::InvalidRSIParameters);
        }
        let event = LedgerEvent::RsiRequested(
            RSIComputationRequested { authority, rsi_period, rsi_oversold, rsi_overbought, timestamp: now },
        );
        let request_id = self.record_request(event);
        Ok(ComputationReceipt { request_id, result: encrypted_prices })
    }

    /// Requests a position-size computation over an encrypted balance. Fails,
    /// changing nothing, if there is no registry, the risk percentage is above
    /// 100 or the price is zero (checked in that order). On success the request
    /// is counted, one event carrying exactly the caller and the scalar
    /// parameters is appended, and the receipt hands the encrypted balance back
    /// as it came.
    pub fn calculate_position_size(
        &mut self,
        authority: Pubkey,
        encrypted_balance: EncryptedData,
        risk_percentage: u8,
        current_price: u64,
        now: i64,
    ) -> (r: Result<ComputationReceipt, ErrorCode>)
        ensures
            old(self).registry is None ==> r == Err::<ComputationReceipt, ErrorCode>(
                ErrorCode::RegistryNotFound,
            ),
            old(self).registry is Some && risk_percentage > MAX_PERCENT ==> r == Err::<
                ComputationReceipt,
                ErrorCode,
            >(ErrorCode::InvalidRiskPercentage),
            old(self).registry is Some && risk_percentage <= MAX_PERCENT && current_price == 0
                ==> r == Err::<ComputationReceipt, ErrorCode>(ErrorCode::InvalidCurrentPrice),
            r is Err ==> *final(self) == *old(self),
            r is Ok <==> old(self).registry is Some && position_parameters_valid(
                risk_percentage,
                current_price,
            ),
            r is Ok ==> {
                &&& r->Ok_0.request_id == old(self).events@.len()
                &&& r->Ok_0.result == encrypted_balance
                &&& final(self).events@ == old(self).events@.push(
                    LedgerEvent::PositionSizeRequested(
                        PositionSizeComputationRequested {
                            authority,
                            risk_percentage,
                            current_price,
                            timestamp: now,
                        },
                    ),
                )
                &&& final(self).registry == Some(count_request(old(self).registry->Some_0))
                &&& final(self).strategies == old(self).strategies
                &&& final(self).program_id == old(self).program_id
            },
    {
        if self.registry.is_none() {
            return Err(ErrorCode::RegistryNotFound);
        }
        if risk_percentage > MAX_PERCENT {
            return Err(ErrorCode::InvalidRiskPercentage);
        }
        if current_price == 0 {
            return Err(ErrorCode::InvalidCurrentPrice);
        }
        let event = LedgerEvent::PositionSizeRequested(
            PositionSizeComputationRequested { authority, risk_percentage, current_price, timestamp: now },
        );
        let request_id = self.record_request(event);
        Ok(ComputationReceipt { request_id, result: encrypted_balance })
    }

    /// Requests a performance-metrics computation over an encrypted trade
    /// history and an encrypted initial balance. Fails, changing nothing, only if
    /// there is no registry. On success the request is counted, one event
    /// carrying exactly the caller and the time is appended, and the receipt
    /// hands the encrypted trade history back as it came.
    pub fn calculate_performance_metrics(
        &mut self,
        authority: Pubkey,
        encrypted_trades: EncryptedData,
        encrypted_initial_balance: EncryptedData,
        now: i64,
    ) -> (r: Result<ComputationReceipt, ErrorCode>)
        ensures
            r is Err <==> old(self).registry is None,
            r is Err ==> r == Err::<ComputationReceipt, ErrorCode>(ErrorCode::RegistryNotFound)
                && *final(self) == *old(self),
            r is Ok ==> {
                &&& r->Ok_0.request_id == old(self).events@.len()
                &&& r->Ok_0.result == encrypted_trades
                &&& final(self).events@ == old(self).events@.push(
                    LedgerEvent::PerformanceRequested(
                        PerformanceComputationRequested { authority, timestamp: now },
                    ),
                )
                &&& final(self).registry == Some(count_request(old(self).registry->Some_0))
                &&& final(self).strategies == old(self).strategies
                &&& final(self).program_id == old(self).program_id
            },
    {
        if self.registry.is_none() {
            return Err(ErrorCode::RegistryNotFound);
        }
        let event = LedgerEvent::PerformanceRequested(
            PerformanceComputationRequested { authority, timestamp: now },
        );
        let request_id = self.record_request(event);
        Ok(ComputationReceipt { request_id, result: encrypted_trades })
    }

    /// Position of the first strategy record of `owner`, or the number of
    /// records if `owner` has none.
    pub fn find_strategy(&self, owner: &Pubkey) -> (r: usize)
        ensures
            r == owner_pos(self.strategies@, owner@),
    {
        let mut i: usize = 0;
        while i < self.strategies.len()
            invariant
                i <= self.strategies@.len(),
                forall|j: int| 0 <= j < i ==> self.strategies@[j].owner@ != owner@,
            decreases self.strategies@.len() - i,
        {
            if self.strategies[i].owner.same_as(owner) {
                proof {
                    lemma_owner_pos_at(self.strategies@, owner@, i as int);
                }
                return i;
            }
            i = i + 1;
        }
        proof {
            lemma_owner_pos_at(self.strategies@, owner@, i as int);
        }
        i
    }

    /// The strategy record of `owner`; `StrategyNotFound` if it has none.
    pub fn load_strategy(&self, owner: &Pubkey) -> (r: Result<Strategy, ErrorCode>)
        ensures
            match lookup(self.strategies@, owner@) {
                Some(s) => r == Ok::<Strategy, ErrorCode>(s),
                None => r == Err::<Strategy, ErrorCode>(ErrorCode::StrategyNotFound),
            },
    {
        let p = self.find_strategy(owner);
        if p < self.strategies.len() {
            Ok(self.strategies[p])
        } else {
            Err(ErrorCode::StrategyNotFound)
        }
    }

    /// The registry record; `RegistryNotFound` if it was never created.
    pub fn load_registry(&self) -> (r: Result<MXE, ErrorCode>)
        ensures
            match self.registry {
                Some(m) => r == Ok::<MXE, ErrorCode>(m),
                None => r == Err::<MXE, ErrorCode>(ErrorCode::RegistryNotFound),
            },
    {
        match self.registry {
            Some(m) => Ok(m),
            None => Err(ErrorCode::RegistryNotFound),
        }
    }

    /// Commits a plaintext performance summary into the strategy record of
    /// `owner`, on behalf of `signer`: the bump of the owner's record is found
    /// from the owner and the program id, and the rest is `settle_with_bump`.
    /// Fails, changing nothing, with `NoViableAddress` if no bump gives an
    /// address.
    pub fn update_strategy_performance(
        &mut self,
        signer: Pubkey,
        owner: Pubkey,
        total_return: i64,
        win_rate: u16,
        total_trades: u32,
        win_trades: u32,
        now: i64,
    ) -> (r: Result<Strategy, ErrorCode>)
        requires
            old(self).wf(),
        ensures
            final(self).wf(),
            match strategy_location(owner@, old(self).program_id@) {
                None => r == Err::<Strategy, ErrorCode>(ErrorCode::NoViableAddress) && *final(self)
                    == *old(self),
                Some(loc) => settled(
                    *old(self),
                    *final(self),
                    r,
                    signer,
                    owner,
                    loc.1,
                    total_return,
                    win_rate,
                    total_trades,
                    win_trades,
                    now,
                ),
            },
    {
        match strategy_address(&owner, &self.program_id) {
            None => Err(ErrorCode::NoViableAddress),
            Some(found) => self.settle_with_bump(
                signer,
                owner,
                found.1,
                total_return,
                win_rate,
                total_trades,
                win_trades,
                now,
            ),
        }
    }

    /// Commits a plaintext performance summary into the strategy record of
    /// `owner`, on behalf of `signer`, with `bump` as the bump of a record that
    /// has to be created. Fails, changing nothing, if the signer is not the
    /// owner, the win rate is above 10000 basis points, or there are more
    /// winning trades than trades (checked in that order). On success the record
    /// is created if absent, its four figures are replaced by the given ones, its
    /// update time moves to `now` (never backwards), the settlement is counted in
    /// the registry if there is one, one event with the new figures is appended,
    /// and the new record is returned.
    pub fn settle_with_bump(
        &mut self,
        signer: Pubkey,
        owner: Pubkey,
        bump: u8,
        total_return: i64,
        win_rate: u16,
        total_trades: u32,
        win_trades: u32,
        now: i64,
    ) -> (r: Result<Strategy, ErrorCode>)
        requires
            old(self).wf(),
        ensures
            final(self).wf(),
            settled(*old(self), *final(self), r, signer, owner, bump, total_return, win_rate, total_trades, win_trades, now),
    {
        if !signer.same_as(&owner) {
            return Err(ErrorCode::Unauthorized);
        }
        if win_rate > MAX_WIN_RATE_BPS {
            return Err(ErrorCode::InvalidWinRate);
        }
        if win_trades > total_trades {
            return Err(ErrorCode::InvalidTradeCounts);
        }
        let pos = self.find_strategy(&owner);
        proof {
            lemma_owner_pos(self.strategies@, owner@);
        }
        let rec;
        if pos < self.strategies.len() {
            let prev = self.strategies[pos];
            let last_updated = if prev.last_updated > now {
                prev.last_updated
            } else {
                now
            };
            rec = Strategy {
                owner: prev.owner,
                bump: prev.bump,
                total_return,
                win_rate,
                total_trades,
                win_trades,
                last_updated,
            };
            self.strategies.set(pos, rec);
        } else {
            rec = Strategy {
                owner,
                bump,
                total_return,
                win_rate,
                total_trades,
                win_trades,
                last_updated: now,
            };
            self.strategies.push(rec);
        }
        proof {
            assert forall|other: Seq<u8>|
                other != owner@ implies lookup(self.strategies@, other) == lookup(
                    old(self).strategies@,
                    other,
                ) by {
                lemma_put_record(old(self).strategies@, owner@, rec, other);
            }
            lemma_put_record(old(self).strategies@, owner@, rec, owner@);
        }
        self.events.push(
            LedgerEvent::PerformanceUpdated(
                StrategyPerformanceUpdated {
                    strategy: owner,
                    total_return,
                    win_rate,
                    total_trades,
                    win_trades,
                    timestamp: now,
                },
            ),
        );
        match self.registry {
            Some(reg) => {
                let done = bump_counter(reg.successful_computations);
                self.registry = Some(MXE { successful_computations: done, ..reg });
            },
            None => {},
        }
        Ok(rec)
    }

    /// Appends a request event and counts the request in the registry.
    fn record_request(&mut self, event: LedgerEvent) -> (id: usize)
        requires
            old(self).registry is Some,
        ensures
            id == old(self).events@.len(),
            final(self).events@ == old(self).events@.push(event),
            final(self).registry == Some(count_request(old(self).registry->Some_0)),
            final(self).strategies == old(self).strategies,
            final(self).program_id == old(self).program_id,
    {
        let id = self.events.len();
        self.events.push(event);
        match self.registry {
            Some(reg) => {
                let total = bump_counter(reg.total_computations);
                self.registry = Some(MXE { total_computations: total, ..reg });
            },
            None => {},
        }
        id
    }
}

} // verus!

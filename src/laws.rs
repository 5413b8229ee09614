use vstd::prelude::*;
use crate::error::ErrorCode;
use crate::identity::Pubkey;
use crate::ledger::{settled, Ledger};
use crate::records::{
    lemma_owner_pos, lemma_put_record, lookup, settle_strategies, settled_record,
    Strategy,
};

verus! {

/// Settling the same figures twice for one owner leaves the same record as
/// settling them once, but for the update time, which only moves forward; no
/// other owner's record is touched by the repeat, and when the repeat carries no
/// later time than the first the records are exactly the same.
pub proof fn lemma_settlement_idempotent(
    s: Seq<Strategy>,
    owner: Pubkey,
    bump: u8,
    total_return: i64,
    win_rate: u16,
    total_trades: u32,
    win_trades: u32,
    first_time: i64,
    second_time: i64,
)
    ensures
        ({
            let once = settle_strategies(
                s,
                owner,
                bump,
                total_return,
                win_rate,
                total_trades,
                win_trades,
                first_time,
            );
            let twice = settle_strategies(
                once,
                owner,
                bump,
                total_return,
                win_rate,
                total_trades,
                win_trades,
                second_time,
            );
            &&& lookup(once, owner@) is Some
            &&& lookup(twice, owner@) is Some
            &&& lookup(twice, owner@)->Some_0.owner == lookup(once, owner@)->Some_0.owner
            &&& lookup(twice, owner@)->Some_0.bump == lookup(once, owner@)->Some_0.bump
            &&& lookup(twice, owner@)->Some_0.total_return == lookup(once, owner@)->Some_0.total_return
            &&& lookup(twice, owner@)->Some_0.win_rate == lookup(once, owner@)->Some_0.win_rate
            &&& lookup(twice, owner@)->Some_0.total_trades == lookup(once, owner@)->Some_0.total_trades
            &&& lookup(twice, owner@)->Some_0.win_trades == lookup(once, owner@)->Some_0.win_trades
            &&& lookup(once, owner@)->Some_0.last_updated <= lookup(twice, owner@)->Some_0.last_updated
            &&& forall|other: Seq<u8>| other != owner@ ==> lookup(twice, other) == lookup(once, other)
            &&& second_time <= first_time ==> twice == once
        }),
{
    let once = settle_strategies(s, owner, bump, total_return, win_rate, total_trades, win_trades, first_time);
    let rec1 = settled_record(lookup(s, owner@), owner, bump, total_return, win_rate, total_trades, win_trades, first_time);
    lemma_owner_pos(s, owner@);
    lemma_put_record(s, owner@, rec1, owner@);
    let rec2 = settled_record(lookup(once, owner@), owner, bump, total_return, win_rate, total_trades, win_trades, second_time);
    lemma_put_record(once, owner@, rec2, owner@);
    let twice = settle_strategies(once, owner, bump, total_return, win_rate, total_trades, win_trades, second_time);
    assert forall|other: Seq<u8>| other != owner@ implies lookup(twice, other) == lookup(once, other) by {
        lemma_put_record(once, owner@, rec2, other);
    }
    if second_time <= first_time {
        lemma_owner_pos(once, owner@);
        assert(rec2 == rec1);
        assert(twice =~= once);
    }
}

/// Of two settlements for one owner, the later one's figures are what the
/// record holds: nothing is merged or averaged.
pub proof fn lemma_last_writer_wins(
    s: Seq<Strategy>,
    owner: Pubkey,
    first: (u8, i64, u16, u32, u32, i64),
    second: (u8, i64, u16, u32, u32, i64),
)
    ensures
        ({
            let once = settle_strategies(s, owner, first.0, first.1, first.2, first.3, first.4, first.5);
            let twice = settle_strategies(
                once,
                owner,
                second.0,
                second.1,
                second.2,
                second.3,
                second.4,
                second.5,
            );
            &&& lookup(twice, owner@) is Some
            &&& lookup(twice, owner@)->Some_0.total_return == second.1
            &&& lookup(twice, owner@)->Some_0.win_rate == second.2
            &&& lookup(twice, owner@)->Some_0.total_trades == second.3
            &&& lookup(twice, owner@)->Some_0.win_trades == second.4
            &&& lookup(twice, owner@)->Some_0.last_updated >= second.5
        }),
{
    let rec1 = settled_record(lookup(s, owner@), owner, first.0, first.1, first.2, first.3, first.4, first.5);
    lemma_owner_pos(s, owner@);
    lemma_put_record(s, owner@, rec1, owner@);
    let once = settle_strategies(s, owner, first.0, first.1, first.2, first.3, first.4, first.5);
    let rec2 = settled_record(lookup(once, owner@), owner, second.0, second.1, second.2, second.3, second.4, second.5);
    lemma_put_record(once, owner@, rec2, owner@);
}

/// A settlement signed by anyone but the owner fails as unauthorized and leaves
/// the ledger, and so the owner's record, exactly as it was.
pub proof fn lemma_foreign_signer_rejected(
    pre: Ledger,
    post: Ledger,
    r: Result<Strategy, ErrorCode>,
    signer: Pubkey,
    owner: Pubkey,
    bump: u8,
    total_return: i64,
    win_rate: u16,
    total_trades: u32,
    win_trades: u32,
    now: i64,
)
    requires
        signer@ != owner@,
        settled(pre, post, r, signer, owner, bump, total_return, win_rate, total_trades, win_trades, now),
    ensures
        r == Err::<Strategy, ErrorCode>(ErrorCode::Unauthorized),
        post == pre,
        lookup(post.strategies@, owner@) == lookup(pre.strategies@, owner@),
{
}

} // verus!

use vstd::prelude::*;
use crate::identity::Pubkey;

verus! {

/// Largest win rate, in basis points (100%).
pub const MAX_WIN_RATE_BPS: u16 = 10000;

/// The registry record: one per deployment.
#[derive(Clone, Copy, Debug)]
pub struct MXE {
    pub authority: Pubkey,
    pub bump: u8,
    pub total_computations: u64,
    pub successful_computations: u64,
    pub created_at: i64,
}

/// The strategy record of one owner.
#[derive(Clone, Copy, Debug)]
pub struct Strategy {
    pub owner: Pubkey,
    pub bump: u8,
    /// Total return in basis points.
    pub total_return: i64,
    /// Win rate in basis points, at most 10000.
    pub win_rate: u16,
    pub total_trades: u32,
    pub win_trades: u32,
    pub last_updated: i64,
}

impl Strategy {
    /// The record's numbers are within their ranges.
    pub open spec fn is_valid(&self) -> bool {
        &&& self.win_rate <= MAX_WIN_RATE_BPS
        &&& self.win_trades <= self.total_trades
    }
}

/// Whether a settlement's figures are acceptable.
pub open spec fn settlement_figures_valid(win_rate: u16, total_trades: u32, win_trades: u32) -> bool {
    win_rate <= MAX_WIN_RATE_BPS && win_trades <= total_trades
}

/// Position of the first record owned by `owner`, or `s.len()` if there is none.
pub open spec fn owner_pos(s: Seq<Strategy>, owner: Seq<u8>) -> int
    decreases s.len(),
{
    if s.len() == 0 {
        0
    } else if s[0].owner@ == owner {
        0
    } else {
        1 + owner_pos(s.drop_first(), owner)
    }
}

/// The record of `owner` in `s`, if it has one.
pub open spec fn lookup(s: Seq<Strategy>, owner: Seq<u8>) -> Option<Strategy> {
    let p = owner_pos(s, owner);
    if p < s.len() {
        Some(s[p])
    } else {
        None
    }
}

/// The record that a settlement leaves behind, given the one it finds.
/// Owner and bump are kept from an existing record; the four figures are the
/// settlement's own; the update time never goes backwards.
pub open spec fn settled_record(
    prev: Option<Strategy>,
    owner: Pubkey,
    bump: u8,
    total_return: i64,
    win_rate: u16,
    total_trades: u32,
    win_trades: u32,
    now: i64,
) -> Strategy {
    match prev {
        Some(p) => Strategy {
            owner: p.owner,
            bump: p.bump,
            total_return,
            win_rate,
            total_trades,
            win_trades,
            last_updated: if p.last_updated > now { p.last_updated } else { now },
        },
        None => Strategy {
            owner,
            bump,
            total_return,
            win_rate,
            total_trades,
            win_trades,
            last_updated: now,
        },
    }
}

/// Writes `rec` as the record of `owner`: in place of the existing one, or
/// appended when `owner` has none.
pub open spec fn put_record(s: Seq<Strategy>, owner: Seq<u8>, rec: Strategy) -> Seq<Strategy> {
    let p = owner_pos(s, owner);
    if p < s.len() {
        s.update(p, rec)
    } else {
        s.push(rec)
    }
}

/// The strategy records after `owner` settles the given figures at time `now`.
pub open spec fn settle_strategies(
    s: Seq<Strategy>,
    owner: Pubkey,
    bump: u8,
    total_return: i64,
    win_rate: u16,
    total_trades: u32,
    win_trades: u32,
    now: i64,
) -> Seq<Strategy> {
    put_record(
        s,
        owner@,
        settled_record(lookup(s, owner@), owner, bump, total_return, win_rate, total_trades, win_trades, now),
    )
}

/// `owner_pos` lies within the sequence, points at a record of `owner`, and no
/// record before it belongs to `owner`.
pub proof fn lemma_owner_pos(s: Seq<Strategy>, owner: Seq<u8>)
    ensures
        0 <= owner_pos(s, owner) <= s.len(),
        owner_pos(s, owner) < s.len() ==> s[owner_pos(s, owner)].owner@ == owner,
        forall|j: int| 0 <= j < owner_pos(s, owner) ==> s[j].owner@ != owner,
    decreases s.len(),
{
    if s.len() > 0 && s[0].owner@ != owner {
        let t = s.drop_first();
        lemma_owner_pos(t, owner);
        assert forall|j: int| 0 <= j < owner_pos(s, owner) implies s[j].owner@ != owner by {
            if j > 0 {
                assert(s[j] == t[j - 1]);
            }
        }
    }
}

/// A position that holds a record of `owner` (or is the end), with no record of
/// `owner` before it, is `owner_pos`.
pub proof fn lemma_owner_pos_at(s: Seq<Strategy>, owner: Seq<u8>, i: int)
    requires
        0 <= i <= s.len(),
        i < s.len() ==> s[i].owner@ == owner,
        forall|j: int| 0 <= j < i ==> s[j].owner@ != owner,
    ensures
        owner_pos(s, owner) == i,
{
    lemma_owner_pos(s, owner);
    let p = owner_pos(s, owner);
    if p < i {
        assert(s[p].owner@ == owner);
    } else if i < p {
        assert(s[i].owner@ != owner);
    }
}

/// After writing `rec` for `owner`, looking up `owner` finds `rec`, and every
/// other owner finds what it found before.
pub proof fn lemma_put_record(s: Seq<Strategy>, owner: Seq<u8>, rec: Strategy, other: Seq<u8>)
    requires
        rec.owner@ == owner,
    ensures
        lookup(put_record(s, owner, rec), owner) == Some(rec),
        other != owner ==> lookup(put_record(s, owner, rec), other) == lookup(s, other),
{
    let t = put_record(s, owner, rec);
    lemma_owner_pos(s, owner);
    lemma_owner_pos(s, other);
    let p = owner_pos(s, owner);
    let q = owner_pos(s, other);
    lemma_owner_pos_at(t, owner, p);
    if other != owner {
        if p < s.len() {
            lemma_owner_pos_at(t, other, q);
        } else if q < s.len() {
            lemma_owner_pos_at(t, other, q);
        } else {
            lemma_owner_pos_at(t, other, t.len() as int);
        }
    }
}

} // verus!

//! The arithmetic of settlement: how many proofs win, and how the losers'
//! stakes are split among the winners.

use vstd::prelude::*;
use vstd::arithmetic::div_mod::{lemma_fundamental_div_mod, lemma_mod_bound};

verus! {

/// `threshold_bps` basis points of `total_days`, rounded up to whole days.
pub open spec fn required_days_exact(total_days: u32, threshold_bps: u16) -> int {
    (total_days * threshold_bps + 9999) / 10000
}

/// The number of daily proofs that wins, as `required_days` computes it: the
/// low 32 bits of `required_days_exact`, which with a threshold of at most
/// 10000 basis points is `required_days_exact` itself.
pub open spec fn spec_required_days(total_days: u32, threshold_bps: u16) -> u32 {
    (required_days_exact(total_days, threshold_bps) % 0x1_0000_0000) as u32
}

/// The number of daily proofs that wins: `threshold_bps` basis points of
/// `total_days`, rounded up, so that a challenge of one day asks for one proof.
///
/// With a threshold of at most 10000 basis points the result is at most
/// `total_days`. Above that the rounded share may exceed 32 bits; only its low
/// 32 bits are returned then.
pub fn required_days(total_days: u32, threshold_bps: u16) -> (days: u32)
    ensures
        days == spec_required_days(total_days, threshold_bps),
        threshold_bps <= 10000 ==> days == required_days_exact(total_days, threshold_bps),
{
    assert(total_days * threshold_bps <= 0xffff_ffff * 0xffff) by (nonlinear_arith)
        requires
            total_days <= 0xffff_ffff,
            threshold_bps <= 0xffff,
    ;
    let product: u64 = (total_days as u64) * (threshold_bps as u64);
    let numerator: u64 = product.saturating_add(9999);
    proof {
        lemma_required_days_is_ceiling(total_days, threshold_bps);
    }
    let quotient: u64 = numerator / 10000;
    assert((quotient as u32) as u64 == quotient % 0x1_0000_0000u64) by (bit_vector);
    #[verifier::truncate]
    let days = quotient as u32;
    days
}

/// `required_days_exact` is the ceiling of `total_days * threshold_bps / 10000`:
/// the least number of days whose ten-thousandfold reaches the product. It
/// is zero only for a product of zero, and with a threshold of at most 10000
/// basis points it is at most `total_days`, so that `spec_required_days` is
/// the same number.
pub proof fn lemma_required_days_is_ceiling(total_days: u32, threshold_bps: u16)
    ensures
        10000 * required_days_exact(total_days, threshold_bps) >= total_days * threshold_bps,
        10000 * (required_days_exact(total_days, threshold_bps) - 1) < total_days * threshold_bps,
        required_days_exact(total_days, threshold_bps) >= 0,
        total_days > 0 && threshold_bps > 0 ==> required_days_exact(total_days, threshold_bps)
            >= 1,
        threshold_bps <= 10000 ==> required_days_exact(total_days, threshold_bps) <= total_days,
        threshold_bps <= 10000 ==> spec_required_days(total_days, threshold_bps)
            == required_days_exact(total_days, threshold_bps),
{
    let product: int = total_days * threshold_bps;
    assert(0 <= product) by (nonlinear_arith)
        requires
            product == total_days * threshold_bps,
    ;
    assert(total_days > 0 && threshold_bps > 0 ==> product >= 1) by (nonlinear_arith)
        requires
            product == total_days * threshold_bps,
    ;
    assert(threshold_bps <= 10000 ==> product <= total_days * 10000) by (nonlinear_arith)
        requires
            product == total_days * threshold_bps,
    ;
    lemma_fundamental_div_mod(product + 9999, 10000);
    lemma_mod_bound(product + 9999, 10000);
}

/// What one settlement hands out.
#[derive(Clone, Copy, Debug, PartialEq, Eq)]
pub struct Split {
    /// What each winner receives on top of the own stake.
    pub bonus_per_winner: u64,
    /// What is left of the losers' stakes after the even split; it goes, one
    /// unit each, to the winners who claim first.
    pub remainder: u64,
    /// What goes to the treasury.
    pub forfeited_amount: u64,
}

/// How the pool is split once everyone is classified.
///
/// With no winner the whole pool is forfeited. With no loser there is nothing
/// to hand out. Otherwise the losers' stakes are divided evenly among the
/// winners, and the rest of the division is the remainder.
pub open spec fn spec_split(winner_count: u32, loser_count: u32, stake_amount: u64) -> Split {
    if winner_count == 0 {
        Split {
            bonus_per_winner: 0,
            remainder: 0,
            forfeited_amount: (loser_count * stake_amount) as u64,
        }
    } else {
        Split {
            bonus_per_winner: ((loser_count * stake_amount) / (winner_count as int)) as u64,
            remainder: ((loser_count * stake_amount) % (winner_count as int)) as u64,
            forfeited_amount: 0,
        }
    }
}

/// Splits the pool, or returns `None` where the losers' stakes together do not
/// fit in 64 bits.
pub fn split_pool(winner_count: u32, loser_count: u32, stake_amount: u64) -> (split: Option<Split>)
    ensures
        split is Some <==> loser_count * stake_amount <= u64::MAX,
        split is Some ==> split->0 == spec_split(winner_count, loser_count, stake_amount),
{
    let losers_stakes: u64 = match (loser_count as u64).checked_mul(stake_amount) {
        Some(product) => product,
        None => {
            return None;
        },
    };
    if winner_count == 0 {
        Some(Split { bonus_per_winner: 0, remainder: 0, forfeited_amount: losers_stakes })
    } else if loser_count == 0 {
        assert(loser_count * stake_amount == 0) by (nonlinear_arith)
            requires
                loser_count == 0,
        ;
        Some(Split { bonus_per_winner: 0, remainder: 0, forfeited_amount: 0 })
    } else {
        Some(
            Split {
                bonus_per_winner: losers_stakes / (winner_count as u64),
                remainder: losers_stakes % (winner_count as u64),
                forfeited_amount: 0,
            },
        )
    }
}

/// Nothing is lost and nothing is made in a split: the winners' bonuses and
/// the remainder together are exactly the losers' stakes, the remainder is
/// less than one unit per winner, and with no winner all of it is forfeited.
pub proof fn lemma_split_conserves(winner_count: u32, loser_count: u32, stake_amount: u64)
    requires
        loser_count * stake_amount <= u64::MAX,
    ensures
        ({
            let s = spec_split(winner_count, loser_count, stake_amount);
            &&& winner_count * s.bonus_per_winner + s.remainder + s.forfeited_amount
                == loser_count * stake_amount
            &&& winner_count > 0 ==> s.remainder < winner_count && s.forfeited_amount == 0
            &&& winner_count == 0 ==> s.bonus_per_winner == 0 && s.remainder == 0
            &&& loser_count == 0 ==> s.bonus_per_winner == 0 && s.remainder == 0
                && s.forfeited_amount == 0
        }),
{
    let total: int = loser_count * stake_amount;
    assert(0 <= total) by (nonlinear_arith)
        requires
            total == loser_count * stake_amount,
    ;
    assert(loser_count == 0 ==> total == 0) by (nonlinear_arith)
        requires
            total == loser_count * stake_amount,
    ;
    if winner_count > 0 {
        let w: int = winner_count as int;
        lemma_fundamental_div_mod(total, w);
        lemma_mod_bound(total, w);
        assert(0 <= total / w <= total) by (nonlinear_arith)
            requires
                0 <= total,
                w > 0,
        ;
        assert(w * (total / w) == winner_count * ((total / w) as u64));
    } else {
        assert(winner_count * 0 == 0);
    }
}

} // verus!

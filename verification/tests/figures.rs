//! The arithmetic of settlement on chosen figures, and what holds of all
//! figures tried on many of them.

use proven_escrow::{
    claim_payout, finalize_settlement, required_days, split_pool, ChallengeEscrow,
    ChallengeStatus, ClaimPayout, EscrowFactory, FinalizeSettlement, Participant, Pubkey, Split,
};

fn key(n: u8) -> Pubkey {
    Pubkey::new_from_array([n; 32])
}

fn id() -> String {
    String::from("figures")
}

fn factory() -> EscrowFactory {
    EscrowFactory {
        authority: key(1),
        treasury: key(2),
        oracle: key(3),
        challenge_count: 1,
        day_length_seconds: 86400,
        bump: 255,
    }
}

fn ended(winners: u32, losers: u32, stake: u64) -> ChallengeEscrow {
    ChallengeEscrow {
        challenge_id: id(),
        factory: key(10),
        creator: key(4),
        token_mint: key(12),
        escrow_vault: key(13),
        stake_amount: stake,
        total_days: 10,
        threshold_bps: 8000,
        status: ChallengeStatus::Ended,
        start_ts: 2000,
        end_ts: 866000,
        participant_count: winners + losers,
        active_participants: winners + losers,
        winner_count: winners,
        loser_count: losers,
        bonus_per_winner: 5,
        forfeited_amount: 6,
        remainder: 7,
        payouts_claimed_count: 8,
        remainder_claimed: 9,
        bump: 250,
    }
}

fn winner(user: u8, stake: u64) -> Participant {
    Participant {
        user: key(user),
        challenge: key(11),
        joined: true,
        stake_deposited: stake,
        proof_days: 9,
        is_winner: true,
        is_settled: true,
        payout_claimed: false,
        refund_claimed: false,
        bump: 200,
    }
}

#[test]
fn one_day_at_eighty_percent_asks_for_one_proof() {
    assert_eq!(required_days(1, 8000), 1);
}

#[test]
fn required_days_rounds_up() {
    assert_eq!(required_days(10, 8000), 8);
    assert_eq!(required_days(2, 8000), 2);
    assert_eq!(required_days(3, 8000), 3);
    assert_eq!(required_days(4, 8000), 4);
    assert_eq!(required_days(5, 8000), 4);
    assert_eq!(required_days(6, 8000), 5);
    assert_eq!(required_days(7, 8000), 6);
    assert_eq!(required_days(30, 8000), 24);
    assert_eq!(required_days(31, 8000), 25);
    assert_eq!(required_days(100, 8000), 80);
    assert_eq!(required_days(365, 8000), 292);
    assert_eq!(required_days(10000, 1), 1);
    assert_eq!(required_days(10001, 1), 2);
    assert_eq!(required_days(9999, 1), 1);
}

#[test]
fn required_days_at_the_edges() {
    assert_eq!(required_days(0, 8000), 0);
    assert_eq!(required_days(10, 0), 0);
    assert_eq!(required_days(0, 0), 0);
    assert_eq!(required_days(10, 10000), 10);
    assert_eq!(required_days(u32::MAX, 10000), u32::MAX);
    assert_eq!(required_days(u32::MAX, 8000), 3435973836);
    assert_eq!(required_days(u32::MAX, 1), 429497);
}

#[test]
fn required_days_is_the_ceiling_wherever_the_threshold_is_a_share() {
    for days in (0u32..400).chain([65535, 1 << 20, u32::MAX - 1, u32::MAX]) {
        for bps in [0u16, 1, 2, 4999, 5000, 7999, 8000, 8001, 9999, 10000] {
            let r = required_days(days, bps) as u128;
            let product = days as u128 * bps as u128;
            assert!(10000 * r >= product);
            assert!(r == 0 || 10000 * (r - 1) < product);
            assert!(r <= days as u128);
        }
    }
}

#[test]
fn required_days_above_a_full_share_keeps_the_low_32_bits() {
    // 20000 basis points of 10 days are 20 days.
    assert_eq!(required_days(10, 20000), 20);
    assert_eq!(required_days(1000, 65535), 6554);
    // 65535 basis points of 2^32 - 1 days are 28147068168 days, which take 35 bits.
    assert_eq!(required_days(u32::MAX, 65535), (28147068168u64 % (1u64 << 32)) as u32);
    assert_eq!(required_days(u32::MAX, 65535), 2377264392);
}

#[test]
fn split_on_chosen_figures() {
    assert_eq!(
        split_pool(1, 2, 100),
        Some(Split { bonus_per_winner: 200, remainder: 0, forfeited_amount: 0 })
    );
    assert_eq!(
        split_pool(3, 2, 100),
        Some(Split { bonus_per_winner: 66, remainder: 2, forfeited_amount: 0 })
    );
    assert_eq!(
        split_pool(3, 1, 1),
        Some(Split { bonus_per_winner: 0, remainder: 1, forfeited_amount: 0 })
    );
    assert_eq!(
        split_pool(0, 4, 25),
        Some(Split { bonus_per_winner: 0, remainder: 0, forfeited_amount: 100 })
    );
    assert_eq!(
        split_pool(5, 0, 25),
        Some(Split { bonus_per_winner: 0, remainder: 0, forfeited_amount: 0 })
    );
    assert_eq!(
        split_pool(0, 0, 25),
        Some(Split { bonus_per_winner: 0, remainder: 0, forfeited_amount: 0 })
    );
    assert_eq!(
        split_pool(7, 1, u64::MAX),
        Some(Split {
            bonus_per_winner: u64::MAX / 7,
            remainder: u64::MAX % 7,
            forfeited_amount: 0
        })
    );
    assert_eq!(
        split_pool(0, 1, u64::MAX),
        Some(Split { bonus_per_winner: 0, remainder: 0, forfeited_amount: u64::MAX })
    );
}

#[test]
fn split_gives_up_where_the_losers_stakes_leave_64_bits() {
    assert_eq!(split_pool(1, 2, u64::MAX), None);
    assert_eq!(split_pool(0, 2, u64::MAX / 2 + 1), None);
    assert_eq!(split_pool(1, u32::MAX, (1 << 32) + 2), None);
    assert!(split_pool(1, u32::MAX, (1 << 32) + 1).is_some());
    assert!(split_pool(0, 2, u64::MAX / 2).is_some());
    // Without losers no stake is too large.
    assert!(split_pool(3, 0, u64::MAX).is_some());
}

#[test]
fn split_conserves_on_many_figures() {
    for winners in [0u32, 1, 2, 3, 7, 10, 99, 1000, u32::MAX] {
        for losers in [0u32, 1, 2, 3, 5, 11, 64, 4097, u32::MAX] {
            for stake in [1u64, 2, 3, 10, 99, 100, 12345, 1_000_000_007, (1 << 32) - 1] {
                let split = split_pool(winners, losers, stake).unwrap();
                let losers_stakes = losers as u128 * stake as u128;
                assert_eq!(
                    winners as u128 * split.bonus_per_winner as u128
                        + split.remainder as u128
                        + split.forfeited_amount as u128,
                    losers_stakes
                );
                if winners > 0 {
                    assert!(split.remainder < winners as u64);
                    assert_eq!(split.forfeited_amount, 0);
                } else {
                    assert_eq!(split.forfeited_amount as u128, losers_stakes);
                }
            }
        }
    }
}

#[test]
fn finalize_writes_the_split_down_and_starts_the_claims_at_zero() {
    let mut ctx = FinalizeSettlement {
        oracle: key(3),
        factory: factory(),
        challenge_key: key(11),
        challenge: ended(3, 2, 100),
    };
    let (forfeiture, event) = finalize_settlement(&mut ctx, id()).unwrap();
    assert_eq!(forfeiture, None);
    assert_eq!(event.challenge_id, key(11));
    assert_eq!(event.winner_count, 3);
    assert_eq!(event.loser_count, 2);
    assert_eq!(event.bonus_per_winner, 66);
    assert_eq!(event.forfeited_amount, 0);
    let expected = ChallengeEscrow {
        status: ChallengeStatus::Settled,
        bonus_per_winner: 66,
        remainder: 2,
        forfeited_amount: 0,
        payouts_claimed_count: 0,
        remainder_claimed: 0,
        ..ended(3, 2, 100)
    };
    assert_eq!(ctx.challenge, expected);
}

#[test]
fn finalize_without_winners_reports_the_forfeiture() {
    let mut ctx = FinalizeSettlement {
        oracle: key(3),
        factory: factory(),
        challenge_key: key(11),
        challenge: ended(0, 4, 25),
    };
    let (forfeiture, event) = finalize_settlement(&mut ctx, id()).unwrap();
    let forfeiture = forfeiture.unwrap();
    assert_eq!(forfeiture.challenge_id, key(11));
    assert_eq!(forfeiture.forfeited_amount, 100);
    assert_eq!(forfeiture.loser_count, 4);
    assert_eq!(event.forfeited_amount, 100);
    assert_eq!(event.bonus_per_winner, 0);
    assert_eq!(ctx.challenge.forfeited_amount, 100);
    assert_eq!(ctx.challenge.remainder, 0);
    assert_eq!(ctx.challenge.payouts_claimed_count, 0);
    assert_eq!(ctx.challenge.remainder_claimed, 0);
}

/// Settles a challenge with the given classes and pays every winner; returns
/// what each claim received.
fn pay_everyone(winners: u32, losers: u32, stake: u64) -> (ChallengeEscrow, Vec<u64>) {
    let mut ctx = FinalizeSettlement {
        oracle: key(3),
        factory: factory(),
        challenge_key: key(11),
        challenge: ended(winners, losers, stake),
    };
    finalize_settlement(&mut ctx, id()).unwrap();
    let mut challenge = ctx.challenge;
    let mut paid = Vec::new();
    for n in 0..winners {
        let mut claim = ClaimPayout {
            challenge_key: key(11),
            challenge,
            participant: winner((n % 200) as u8, stake),
        };
        let event = claim_payout(&mut claim, id()).unwrap();
        assert_eq!(event.stake_returned, stake);
        assert_eq!(event.total_amount, event.stake_returned + event.bonus_received);
        assert!(claim.participant.payout_claimed);
        paid.push(event.total_amount);
        challenge = claim.challenge;
    }
    (challenge, paid)
}

#[test]
fn the_remainder_goes_one_unit_each_to_the_first_claims() {
    for (winners, losers, stake) in
        [(3u32, 2u32, 100u64), (7, 5, 13), (4, 4, 25), (10, 1, 9), (1, 9, 10), (6, 0, 50), (9, 8, 1)]
    {
        let (challenge, paid) = pay_everyone(winners, losers, stake);
        let plain = stake + challenge.bonus_per_winner;
        let with_dust = paid.iter().filter(|&&amount| amount == plain + 1).count() as u64;
        let without = paid.iter().filter(|&&amount| amount == plain).count() as u64;
        // No claim receives more than one unit, and as many receive one as there are units.
        assert_eq!(with_dust + without, winners as u64);
        assert_eq!(with_dust, challenge.remainder);
        assert_eq!(challenge.remainder_claimed, challenge.remainder);
        for (n, &amount) in paid.iter().enumerate() {
            assert_eq!(amount == plain + 1, (n as u64) < challenge.remainder);
        }
        // What was paid out is what was paid in.
        assert_eq!(paid.iter().sum::<u64>(), (winners + losers) as u64 * stake);
        assert_eq!(challenge.payouts_claimed_count, winners);
    }
}

#[test]
fn after_the_last_payout_a_further_winner_is_turned_away() {
    let (challenge, _) = pay_everyone(3, 2, 100);
    let mut claim =
        ClaimPayout { challenge_key: key(11), challenge, participant: winner(77, 100) };
    let before = claim.clone();
    assert_eq!(claim_payout(&mut claim, id()), Err(proven_escrow::ProvenError::AllPayoutsClaimed));
    assert_eq!(claim, before);
}

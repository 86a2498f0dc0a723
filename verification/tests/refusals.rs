//! Each refusal, on an input that gives it; and that a refused operation
//! changes nothing.

use proven_escrow::{
    cancel_challenge, claim_forfeited_stakes, claim_payout, claim_refund, close_challenge,
    close_escrow_vault, close_participant, create_challenge, finalize_settlement, join_challenge,
    record_proof, settle_challenge, settle_participant, update_factory, CancelChallenge,
    ChallengeEscrow, ChallengeStatus, ClaimForfeitedStakes, ClaimPayout, ClaimRefund,
    CloseChallenge, CloseEscrowVault, CloseParticipant, CreateChallenge, EscrowFactory,
    FinalizeSettlement, JoinChallenge, Participant, ProvenError, Pubkey, RecordProof,
    SettleChallenge, SettleParticipant, UpdateFactory,
};

fn key(n: u8) -> Pubkey {
    Pubkey::new_from_array([n; 32])
}

fn id() -> String {
    String::from("sprint")
}

fn other_id() -> String {
    String::from("sprint2")
}

fn factory() -> EscrowFactory {
    EscrowFactory {
        authority: key(1),
        treasury: key(2),
        oracle: key(3),
        challenge_count: 7,
        day_length_seconds: 86400,
        bump: 255,
    }
}

/// A challenge of 10 days with a stake of 100 that starts at 2000.
fn challenge(status: ChallengeStatus) -> ChallengeEscrow {
    ChallengeEscrow {
        challenge_id: id(),
        factory: key(10),
        creator: key(4),
        token_mint: key(12),
        escrow_vault: key(13),
        stake_amount: 100,
        total_days: 10,
        threshold_bps: 8000,
        status,
        start_ts: 2000,
        end_ts: 2000 + 10 * 86400,
        participant_count: 3,
        active_participants: 3,
        winner_count: 0,
        loser_count: 0,
        bonus_per_winner: 0,
        forfeited_amount: 0,
        remainder: 0,
        payouts_claimed_count: 0,
        remainder_claimed: 0,
        bump: 250,
    }
}

/// A challenge settled with one winner and two losers.
fn settled() -> ChallengeEscrow {
    ChallengeEscrow {
        winner_count: 1,
        loser_count: 2,
        bonus_per_winner: 200,
        ..challenge(ChallengeStatus::Settled)
    }
}

/// A challenge settled with no winner.
fn forfeited() -> ChallengeEscrow {
    ChallengeEscrow { loser_count: 3, forfeited_amount: 300, ..challenge(ChallengeStatus::Settled) }
}

fn participant(user: u8) -> Participant {
    Participant {
        user: key(user),
        challenge: key(11),
        joined: true,
        stake_deposited: 100,
        proof_days: 0,
        is_winner: false,
        is_settled: false,
        payout_claimed: false,
        refund_claimed: false,
        bump: 200,
    }
}

fn winner(user: u8) -> Participant {
    Participant { proof_days: 9, is_winner: true, is_settled: true, ..participant(user) }
}

fn loser(user: u8) -> Participant {
    Participant { proof_days: 2, is_settled: true, ..participant(user) }
}

fn create_ctx() -> CreateChallenge {
    CreateChallenge {
        creator: key(4),
        factory_key: key(10),
        factory: factory(),
        challenge_key: key(11),
        token_mint: key(12),
        escrow_vault: key(13),
        bump: 250,
    }
}

fn check_create(
    mut ctx: CreateChallenge,
    id: &str,
    stake: u64,
    days: u32,
    start: i64,
    now: i64,
    expected: ProvenError,
) {
    let before = ctx.clone();
    assert_eq!(create_challenge(&mut ctx, String::from(id), stake, days, start, now), Err(expected));
    assert_eq!(ctx, before);
}

#[test]
fn create_refuses_a_stake_of_zero() {
    check_create(create_ctx(), "sprint", 0, 10, 2000, 1000, ProvenError::InvalidAmount);
    // The stake is looked at first.
    check_create(create_ctx(), "", 0, 0, 0, 1000, ProvenError::InvalidAmount);
}

#[test]
fn create_refuses_zero_days() {
    check_create(create_ctx(), "sprint", 100, 0, 2000, 1000, ProvenError::InvalidDuration);
}

#[test]
fn create_refuses_a_start_that_is_not_in_the_future() {
    check_create(create_ctx(), "sprint", 100, 10, 1000, 1000, ProvenError::InvalidStartTime);
    check_create(create_ctx(), "sprint", 100, 10, 999, 1000, ProvenError::InvalidStartTime);
}

#[test]
fn create_refuses_an_empty_identifier() {
    check_create(create_ctx(), "", 100, 10, 2000, 1000, ProvenError::ChallengeIdEmpty);
}

#[test]
fn create_refuses_an_identifier_of_more_than_32_bytes() {
    let long = "a".repeat(33);
    check_create(create_ctx(), &long, 100, 10, 2000, 1000, ProvenError::ChallengeIdTooLong);
    // Bytes count, not characters: 17 characters of two bytes each are 34 bytes.
    let wide = "\u{e9}".repeat(17);
    assert_eq!(wide.chars().count(), 17);
    check_create(create_ctx(), &wide, 100, 10, 2000, 1000, ProvenError::ChallengeIdTooLong);
}

#[test]
fn create_accepts_an_identifier_of_exactly_32_bytes() {
    let mut ctx = create_ctx();
    let full = "a".repeat(32);
    let (challenge, _) = create_challenge(&mut ctx, full.clone(), 100, 10, 2000, 1000).unwrap();
    assert_eq!(challenge.challenge_id, full);
    let mut ctx = create_ctx();
    let wide = "\u{e9}".repeat(16);
    assert!(create_challenge(&mut ctx, wide, 100, 10, 2000, 1000).is_ok());
}

#[test]
fn create_refuses_a_registry_whose_day_has_no_length() {
    let mut ctx = create_ctx();
    ctx.factory.day_length_seconds = 0;
    check_create(ctx.clone(), "sprint", 100, 10, 2000, 1000, ProvenError::InvalidDayLength);
    ctx.factory.day_length_seconds = -5;
    check_create(ctx, "sprint", 100, 10, 2000, 1000, ProvenError::InvalidDayLength);
}

#[test]
fn create_refuses_an_end_beyond_the_last_moment() {
    let mut ctx = create_ctx();
    ctx.factory.day_length_seconds = i64::MAX;
    check_create(ctx.clone(), "sprint", 100, 2, 2000, 1000, ProvenError::MathOverflow);
    check_create(ctx, "sprint", 100, 1, 1, 0, ProvenError::MathOverflow);
    // The duration alone does not fit, the end does: the start lies far in the past.
    let mut ctx = create_ctx();
    ctx.factory.day_length_seconds = i64::MAX;
    let (challenge, _) =
        create_challenge(&mut ctx, id(), 100, 1, -1, -2).unwrap();
    assert_eq!(challenge.end_ts, i64::MAX - 1);
    let mut ctx = create_ctx();
    ctx.factory.day_length_seconds = i64::MAX / 2 + 1;
    let (challenge, _) =
        create_challenge(&mut ctx, id(), 100, 2, -10, -20).unwrap();
    assert_eq!(challenge.end_ts, i64::MAX - 9);
}

#[test]
fn create_refuses_when_the_registry_cannot_count_further() {
    let mut ctx = create_ctx();
    ctx.factory.challenge_count = u64::MAX;
    check_create(ctx, "sprint", 100, 10, 2000, 1000, ProvenError::MathOverflow);
}

#[test]
fn update_refuses_anyone_but_the_authority() {
    let mut ctx = UpdateFactory { authority: key(9), factory: factory() };
    let before = ctx.clone();
    assert_eq!(
        update_factory(&mut ctx, Some(key(9)), None, None, None),
        Err(ProvenError::Unauthorized)
    );
    assert_eq!(ctx, before);
}

#[test]
fn update_refuses_a_day_without_length() {
    for bad in [0, -1, i64::MIN] {
        let mut ctx = UpdateFactory { authority: key(1), factory: factory() };
        let before = ctx.clone();
        assert_eq!(
            update_factory(&mut ctx, Some(key(5)), Some(key(6)), Some(key(7)), Some(bad)),
            Err(ProvenError::InvalidDayLength)
        );
        // None of the other settings was taken over either.
        assert_eq!(ctx, before);
    }
}

fn check_join(challenge: ChallengeEscrow, id: String, now: i64, expected: ProvenError) {
    let mut ctx = JoinChallenge { user: key(21), challenge_key: key(11), challenge, bump: 9 };
    let before = ctx.clone();
    assert_eq!(join_challenge(&mut ctx, id, now), Err(expected));
    assert_eq!(ctx, before);
}

#[test]
fn join_refusals() {
    let created = challenge(ChallengeStatus::Created);
    check_join(created.clone(), other_id(), 1500, ProvenError::ChallengeIdMismatch);
    for status in [
        ChallengeStatus::Started,
        ChallengeStatus::Ended,
        ChallengeStatus::Settled,
        ChallengeStatus::Cancelled,
    ] {
        check_join(challenge(status), id(), 1500, ProvenError::InvalidChallengeStatus);
    }
    check_join(created.clone(), id(), 2000, ProvenError::ChallengeStarted);
    check_join(created.clone(), id(), 2001, ProvenError::ChallengeStarted);
    let full = ChallengeEscrow { participant_count: u32::MAX, ..created.clone() };
    check_join(full, id(), 1500, ProvenError::MathOverflow);
    let odd = ChallengeEscrow { active_participants: u32::MAX, ..created };
    check_join(odd, id(), 1500, ProvenError::MathOverflow);
}

fn check_proof(
    oracle: u8,
    challenge: ChallengeEscrow,
    participant: Participant,
    id: String,
    now: i64,
    expected: ProvenError,
) {
    let mut ctx = RecordProof {
        oracle: key(oracle),
        factory: factory(),
        challenge_key: key(11),
        challenge,
        participant,
    };
    let before = ctx.clone();
    assert_eq!(record_proof(&mut ctx, id, now), Err(expected));
    assert_eq!(ctx, before);
}

#[test]
fn record_proof_refusals() {
    let started = challenge(ChallengeStatus::Started);
    let end = started.end_ts;
    let p = participant(21);
    check_proof(3, started.clone(), p, other_id(), 2000, ProvenError::ChallengeIdMismatch);
    for status in [ChallengeStatus::Ended, ChallengeStatus::Settled, ChallengeStatus::Cancelled] {
        check_proof(3, challenge(status), p, id(), 2000, ProvenError::InvalidChallengeStatus);
    }
    check_proof(3, started.clone(), p, id(), 1999, ProvenError::ChallengeNotStarted);
    check_proof(3, started.clone(), p, id(), end + 1, ProvenError::ChallengeEnded);
    let stranger = Participant { joined: false, ..p };
    check_proof(3, started.clone(), stranger, id(), 2000, ProvenError::NotJoined);
    check_proof(8, started.clone(), p, id(), 2000, ProvenError::InvalidOracle);
    let done = Participant { proof_days: 10, ..p };
    check_proof(3, started.clone(), done, id(), 2000, ProvenError::MaxProofsReached);
    // Being a stranger is noticed before the wrong oracle, and that before the cap.
    check_proof(8, started, Participant { joined: false, proof_days: 10, ..p }, id(), 2000,
        ProvenError::NotJoined);
}

#[test]
fn record_proof_is_legal_at_both_ends_of_the_window() {
    let started = challenge(ChallengeStatus::Created);
    for now in [started.start_ts, started.end_ts] {
        let mut ctx = RecordProof {
            oracle: key(3),
            factory: factory(),
            challenge_key: key(11),
            challenge: started.clone(),
            participant: participant(21),
        };
        let event = record_proof(&mut ctx, id(), now).unwrap();
        assert_eq!(event.proof_days, 1);
        assert_eq!(event.total_required, 8);
        assert_eq!(event.user, key(21));
        assert_eq!(event.challenge_id, key(11));
        assert_eq!(ctx.participant.proof_days, 1);
        assert_eq!(ctx.challenge.status, ChallengeStatus::Started);
    }
}

#[test]
fn the_tenth_proof_is_the_last() {
    let mut ctx = RecordProof {
        oracle: key(3),
        factory: factory(),
        challenge_key: key(11),
        challenge: challenge(ChallengeStatus::Started),
        participant: Participant { proof_days: 9, ..participant(21) },
    };
    assert_eq!(record_proof(&mut ctx, id(), 3000).unwrap().proof_days, 10);
    assert_eq!(record_proof(&mut ctx, id(), 3000), Err(ProvenError::MaxProofsReached));
    assert_eq!(ctx.participant.proof_days, 10);
}

fn check_end(oracle: u8, challenge: ChallengeEscrow, id: String, now: i64, expected: ProvenError) {
    let mut ctx =
        SettleChallenge { oracle: key(oracle), factory: factory(), challenge_key: key(11), challenge };
    let before = ctx.clone();
    assert_eq!(settle_challenge(&mut ctx, id, now), Err(expected));
    assert_eq!(ctx, before);
}

#[test]
fn settle_challenge_refusals() {
    let started = challenge(ChallengeStatus::Started);
    let end = started.end_ts;
    check_end(3, started.clone(), other_id(), end + 1, ProvenError::ChallengeIdMismatch);
    // Ending a challenge that is ended already is refused too.
    for status in [ChallengeStatus::Ended, ChallengeStatus::Settled, ChallengeStatus::Cancelled] {
        check_end(3, challenge(status), id(), end + 1, ProvenError::InvalidChallengeStatus);
    }
    check_end(3, started.clone(), id(), end, ProvenError::ChallengeNotEnded);
    check_end(3, started.clone(), id(), 0, ProvenError::ChallengeNotEnded);
    check_end(8, started, id(), end + 1, ProvenError::InvalidOracle);
}

fn check_settle(
    oracle: u8,
    challenge: ChallengeEscrow,
    participant: Participant,
    id: String,
    expected: ProvenError,
) {
    let mut ctx = SettleParticipant {
        oracle: key(oracle),
        factory: factory(),
        challenge_key: key(11),
        challenge,
        participant,
    };
    let before = ctx.clone();
    assert_eq!(settle_participant(&mut ctx, id), Err(expected));
    assert_eq!(ctx, before);
}

#[test]
fn settle_participant_refusals() {
    let ended = challenge(ChallengeStatus::Ended);
    let p = Participant { proof_days: 8, ..participant(21) };
    check_settle(3, ended.clone(), p, other_id(), ProvenError::ChallengeIdMismatch);
    for status in [
        ChallengeStatus::Created,
        ChallengeStatus::Started,
        ChallengeStatus::Settled,
        ChallengeStatus::Cancelled,
    ] {
        check_settle(3, challenge(status), p, id(), ProvenError::InvalidChallengeStatus);
    }
    check_settle(8, ended.clone(), p, id(), ProvenError::InvalidOracle);
    check_settle(3, ended.clone(), winner(21), id(), ProvenError::AlreadySettled);
    check_settle(3, ended.clone(), loser(21), id(), ProvenError::AlreadySettled);
    let many_winners = ChallengeEscrow { winner_count: u32::MAX, ..ended.clone() };
    check_settle(3, many_winners.clone(), p, id(), ProvenError::MathOverflow);
    let many_losers = ChallengeEscrow { loser_count: u32::MAX, ..ended };
    check_settle(3, many_losers.clone(), participant(21), id(), ProvenError::MathOverflow);
    // The counter that is full matters only to the class the participant falls in.
    let mut ctx = SettleParticipant {
        oracle: key(3),
        factory: factory(),
        challenge_key: key(11),
        challenge: many_losers,
        participant: p,
    };
    assert!(settle_participant(&mut ctx, id()).unwrap().is_winner);
    let mut ctx = SettleParticipant {
        oracle: key(3),
        factory: factory(),
        challenge_key: key(11),
        challenge: many_winners,
        participant: participant(21),
    };
    assert!(!settle_participant(&mut ctx, id()).unwrap().is_winner);
}

#[test]
fn eight_proofs_of_ten_win_and_seven_lose() {
    for (proofs, wins) in [(0, false), (7, false), (8, true), (9, true), (10, true)] {
        let mut ctx = SettleParticipant {
            oracle: key(3),
            factory: factory(),
            challenge_key: key(11),
            challenge: challenge(ChallengeStatus::Ended),
            participant: Participant { proof_days: proofs, ..participant(21) },
        };
        let event = settle_participant(&mut ctx, id()).unwrap();
        assert_eq!(event.is_winner, wins);
        assert_eq!(event.required_days, 8);
        assert_eq!(event.proof_days, proofs);
        assert_eq!(ctx.participant.is_winner, wins);
        assert!(ctx.participant.is_settled);
        assert_eq!(ctx.challenge.winner_count, if wins { 1 } else { 0 });
        assert_eq!(ctx.challenge.loser_count, if wins { 0 } else { 1 });
        // No funds move when someone is classified.
        assert_eq!(ctx.challenge.bonus_per_winner, 0);
        assert_eq!(ctx.challenge.forfeited_amount, 0);
        assert_eq!(ctx.challenge.status, ChallengeStatus::Ended);
    }
}

fn check_finalize(oracle: u8, challenge: ChallengeEscrow, id: String, expected: ProvenError) {
    let mut ctx = FinalizeSettlement {
        oracle: key(oracle),
        factory: factory(),
        challenge_key: key(11),
        challenge,
    };
    let before = ctx.clone();
    assert_eq!(finalize_settlement(&mut ctx, id), Err(expected));
    assert_eq!(ctx, before);
}

#[test]
fn finalize_refusals() {
    let ready = ChallengeEscrow { winner_count: 1, loser_count: 2, ..challenge(ChallengeStatus::Ended) };
    check_finalize(3, ready.clone(), other_id(), ProvenError::ChallengeIdMismatch);
    for status in [
        ChallengeStatus::Created,
        ChallengeStatus::Started,
        ChallengeStatus::Settled,
        ChallengeStatus::Cancelled,
    ] {
        let c = ChallengeEscrow { status, ..ready.clone() };
        check_finalize(3, c, id(), ProvenError::InvalidChallengeStatus);
    }
    check_finalize(8, ready.clone(), id(), ProvenError::InvalidOracle);
    let short = ChallengeEscrow { loser_count: 1, ..ready.clone() };
    check_finalize(3, short, id(), ProvenError::SettlementIncomplete);
    let over = ChallengeEscrow { loser_count: 3, ..ready.clone() };
    check_finalize(3, over, id(), ProvenError::SettlementIncomplete);
    // Counts whose sum leaves 32 bits do not pass for a small count.
    let wrapped = ChallengeEscrow {
        winner_count: u32::MAX,
        loser_count: 4,
        participant_count: 3,
        ..ready.clone()
    };
    check_finalize(3, wrapped, id(), ProvenError::SettlementIncomplete);
    let huge = ChallengeEscrow { stake_amount: u64::MAX / 2 + 1, ..ready };
    check_finalize(3, huge, id(), ProvenError::MathOverflow);
}

fn check_claim(challenge: ChallengeEscrow, participant: Participant, id: String, expected: ProvenError) {
    let mut ctx = ClaimPayout { challenge_key: key(11), challenge, participant };
    let before = ctx.clone();
    assert_eq!(claim_payout(&mut ctx, id), Err(expected));
    assert_eq!(ctx, before);
}

#[test]
fn claim_payout_refusals() {
    check_claim(settled(), winner(21), other_id(), ProvenError::ChallengeIdMismatch);
    for status in [
        ChallengeStatus::Created,
        ChallengeStatus::Started,
        ChallengeStatus::Ended,
        ChallengeStatus::Cancelled,
    ] {
        let c = ChallengeEscrow { status, ..settled() };
        check_claim(c, winner(21), id(), ProvenError::ChallengeNotSettled);
    }
    check_claim(settled(), participant(21), id(), ProvenError::NotSettled);
    check_claim(settled(), loser(21), id(), ProvenError::NotWinner);
    let paid = Participant { payout_claimed: true, ..winner(21) };
    check_claim(settled(), paid, id(), ProvenError::PayoutAlreadyClaimed);
    let drained = ChallengeEscrow { payouts_claimed_count: 1, ..settled() };
    check_claim(drained, winner(22), id(), ProvenError::AllPayoutsClaimed);
    let big_bonus = ChallengeEscrow { bonus_per_winner: u64::MAX - 99, ..settled() };
    check_claim(big_bonus, winner(21), id(), ProvenError::MathOverflow);
    let dust_tips_it =
        ChallengeEscrow { bonus_per_winner: u64::MAX - 100, remainder: 1, ..settled() };
    check_claim(dust_tips_it, winner(21), id(), ProvenError::MathOverflow);
    let bonus_at_the_top = ChallengeEscrow {
        stake_amount: 0,
        bonus_per_winner: u64::MAX,
        remainder: 1,
        ..settled()
    };
    check_claim(bonus_at_the_top, winner(21), id(), ProvenError::MathOverflow);
}

#[test]
fn claim_payout_pays_up_to_the_last_unit_that_fits() {
    let c = ChallengeEscrow { bonus_per_winner: u64::MAX - 100, ..settled() };
    let mut ctx = ClaimPayout { challenge_key: key(11), challenge: c, participant: winner(21) };
    let event = claim_payout(&mut ctx, id()).unwrap();
    assert_eq!(event.total_amount, u64::MAX);
    assert_eq!(event.stake_returned, 100);
    assert_eq!(event.bonus_received, u64::MAX - 100);
}

fn check_forfeit(treasury: u8, challenge: ChallengeEscrow, id: String, expected: ProvenError) {
    let mut ctx = ClaimForfeitedStakes {
        treasury: key(treasury),
        factory: factory(),
        challenge_key: key(11),
        challenge,
    };
    let before = ctx.clone();
    assert_eq!(claim_forfeited_stakes(&mut ctx, id), Err(expected));
    assert_eq!(ctx, before);
}

#[test]
fn claim_forfeited_stakes_refusals() {
    check_forfeit(2, forfeited(), other_id(), ProvenError::ChallengeIdMismatch);
    for status in [
        ChallengeStatus::Created,
        ChallengeStatus::Started,
        ChallengeStatus::Ended,
        ChallengeStatus::Cancelled,
    ] {
        let c = ChallengeEscrow { status, ..forfeited() };
        check_forfeit(2, c, id(), ProvenError::ChallengeNotSettled);
    }
    check_forfeit(2, settled(), id(), ProvenError::HasWinners);
    let claimed = ChallengeEscrow { forfeited_amount: 0, ..forfeited() };
    check_forfeit(2, claimed, id(), ProvenError::NoForfeitedStakes);
    check_forfeit(1, forfeited(), id(), ProvenError::Unauthorized);
    check_forfeit(3, forfeited(), id(), ProvenError::Unauthorized);
}

#[test]
fn the_treasury_is_the_one_the_registry_names_now() {
    // The registry was changed after the challenge was created.
    let mut registry = UpdateFactory { authority: key(1), factory: factory() };
    update_factory(&mut registry, None, Some(key(42)), None, None).unwrap();
    let mut ctx = ClaimForfeitedStakes {
        treasury: key(2),
        factory: registry.factory,
        challenge_key: key(11),
        challenge: forfeited(),
    };
    assert_eq!(claim_forfeited_stakes(&mut ctx, id()), Err(ProvenError::Unauthorized));
    ctx.treasury = key(42);
    let event = claim_forfeited_stakes(&mut ctx, id()).unwrap();
    assert_eq!(event.amount, 300);
    assert_eq!(event.treasury, key(42));
    assert_eq!(ctx.challenge.forfeited_amount, 0);
}

fn check_cancel(creator: u8, challenge: ChallengeEscrow, id: String, now: i64, expected: ProvenError) {
    let mut ctx = CancelChallenge { creator: key(creator), challenge_key: key(11), challenge };
    let before = ctx.clone();
    assert_eq!(cancel_challenge(&mut ctx, id, now), Err(expected));
    assert_eq!(ctx, before);
}

#[test]
fn cancel_refusals() {
    let created = challenge(ChallengeStatus::Created);
    check_cancel(4, created.clone(), other_id(), 1500, ProvenError::ChallengeIdMismatch);
    check_cancel(3, created.clone(), id(), 1500, ProvenError::Unauthorized);
    for status in [
        ChallengeStatus::Started,
        ChallengeStatus::Ended,
        ChallengeStatus::Settled,
        ChallengeStatus::Cancelled,
    ] {
        check_cancel(4, challenge(status), id(), 1500, ProvenError::InvalidChallengeStatus);
    }
    check_cancel(4, created.clone(), id(), 2000, ProvenError::ChallengeStarted);
    // A stranger learns nothing of the status.
    check_cancel(3, challenge(ChallengeStatus::Settled), id(), 5000, ProvenError::Unauthorized);
}

fn check_refund(challenge: ChallengeEscrow, participant: Participant, id: String, expected: ProvenError) {
    let mut ctx = ClaimRefund { challenge_key: key(11), challenge, participant };
    let before = ctx.clone();
    assert_eq!(claim_refund(&mut ctx, id), Err(expected));
    assert_eq!(ctx, before);
}

#[test]
fn claim_refund_refusals() {
    let cancelled = challenge(ChallengeStatus::Cancelled);
    check_refund(cancelled.clone(), participant(21), other_id(), ProvenError::ChallengeIdMismatch);
    for status in [
        ChallengeStatus::Created,
        ChallengeStatus::Started,
        ChallengeStatus::Ended,
        ChallengeStatus::Settled,
    ] {
        check_refund(challenge(status), participant(21), id(), ProvenError::NotCancelled);
    }
    let stranger = Participant { joined: false, ..participant(21) };
    check_refund(cancelled.clone(), stranger, id(), ProvenError::NotJoined);
    let refunded = Participant { refund_claimed: true, ..participant(21) };
    check_refund(cancelled, refunded, id(), ProvenError::AlreadyClaimed);
}

fn check_discard(
    authority: u8,
    destination: u8,
    challenge: ChallengeEscrow,
    participant: Participant,
    id: String,
    expected: ProvenError,
) {
    let mut ctx = CloseParticipant {
        authority: key(authority),
        challenge_key: key(11),
        challenge,
        participant,
        destination: key(destination),
    };
    let before = ctx.clone();
    assert_eq!(close_participant(&mut ctx, id), Err(expected));
    assert_eq!(ctx, before);
}

#[test]
fn close_participant_refusals() {
    let paid = Participant { payout_claimed: true, ..winner(21) };
    check_discard(21, 21, settled(), paid, other_id(), ProvenError::ChallengeIdMismatch);
    check_discard(21, 22, settled(), paid, id(), ProvenError::Unauthorized);
    check_discard(22, 21, settled(), paid, id(), ProvenError::Unauthorized);
    check_discard(21, 21, settled(), participant(21), id(), ProvenError::NotSettled);
    check_discard(21, 21, settled(), winner(21), id(), ProvenError::PayoutNotClaimed);
    let cancelled = challenge(ChallengeStatus::Cancelled);
    check_discard(21, 21, cancelled, participant(21), id(), ProvenError::RefundNotClaimed);
    for status in [ChallengeStatus::Created, ChallengeStatus::Started, ChallengeStatus::Ended] {
        check_discard(21, 21, challenge(status), paid, id(), ProvenError::ChallengeStillActive);
    }
    let nobody_left = ChallengeEscrow { active_participants: 0, ..settled() };
    check_discard(21, 21, nobody_left, paid, id(), ProvenError::MathOverflow);
}

#[test]
fn the_creator_may_discard_a_record_for_its_owner() {
    let mut ctx = CloseParticipant {
        authority: key(4),
        challenge_key: key(11),
        challenge: settled(),
        participant: loser(22),
        destination: key(22),
    };
    let event = close_participant(&mut ctx, id()).unwrap();
    assert_eq!(event.closed_by, key(4));
    assert_eq!(event.user, key(22));
    assert_eq!(ctx.challenge.active_participants, 2);
    assert_eq!(ctx.participant, loser(22));
}

fn check_close_vault(creator: u8, challenge: ChallengeEscrow, amount: u64, id: String, expected: ProvenError) {
    let ctx = CloseEscrowVault {
        creator: key(creator),
        challenge_key: key(11),
        challenge,
        escrow_vault_amount: amount,
    };
    assert_eq!(close_escrow_vault(&ctx, id), Err(expected));
}

#[test]
fn close_escrow_vault_refusals() {
    let done = ChallengeEscrow { payouts_claimed_count: 1, ..settled() };
    check_close_vault(4, done.clone(), 0, other_id(), ProvenError::ChallengeIdMismatch);
    check_close_vault(5, done.clone(), 0, id(), ProvenError::Unauthorized);
    check_close_vault(4, settled(), 0, id(), ProvenError::PendingWinnerPayouts);
    check_close_vault(4, forfeited(), 0, id(), ProvenError::ForfeitedStakesUnclaimed);
    for status in [ChallengeStatus::Created, ChallengeStatus::Started, ChallengeStatus::Ended] {
        check_close_vault(4, challenge(status), 0, id(), ProvenError::ChallengeStillActive);
    }
    check_close_vault(4, done, 1, id(), ProvenError::EscrowNotEmpty);
    check_close_vault(4, challenge(ChallengeStatus::Cancelled), 300, id(), ProvenError::EscrowNotEmpty);
}

#[test]
fn close_escrow_vault_reports_the_challenge_and_its_creator() {
    let ctx = CloseEscrowVault {
        creator: key(4),
        challenge_key: key(11),
        challenge: challenge(ChallengeStatus::Cancelled),
        escrow_vault_amount: 0,
    };
    let event = close_escrow_vault(&ctx, id()).unwrap();
    assert_eq!(event.challenge_id, key(11));
    assert_eq!(event.creator, key(4));
}

fn check_close(creator: u8, challenge: ChallengeEscrow, id: String, expected: ProvenError) {
    let ctx = CloseChallenge { creator: key(creator), challenge_key: key(11), challenge };
    assert_eq!(close_challenge(&ctx, id), Err(expected));
}

#[test]
fn close_challenge_refusals() {
    let done = ChallengeEscrow { payouts_claimed_count: 1, active_participants: 0, ..settled() };
    check_close(4, done.clone(), other_id(), ProvenError::ChallengeIdMismatch);
    check_close(5, done.clone(), id(), ProvenError::Unauthorized);
    let unpaid = ChallengeEscrow { active_participants: 0, ..settled() };
    check_close(4, unpaid, id(), ProvenError::PendingWinnerPayouts);
    let dust_left = ChallengeEscrow { remainder: 1, ..done.clone() };
    check_close(4, dust_left, id(), ProvenError::PendingRemainderDistribution);
    let unclaimed = ChallengeEscrow { active_participants: 0, ..forfeited() };
    check_close(4, unclaimed, id(), ProvenError::ForfeitedStakesUnclaimed);
    for status in [ChallengeStatus::Created, ChallengeStatus::Started, ChallengeStatus::Ended] {
        let c = ChallengeEscrow { active_participants: 0, ..challenge(status) };
        check_close(4, c, id(), ProvenError::ChallengeStillActive);
    }
    check_close(4, ChallengeEscrow { active_participants: 1, ..done.clone() }, id(),
        ProvenError::ParticipantsRemaining);
    check_close(4, challenge(ChallengeStatus::Cancelled), id(), ProvenError::ParticipantsRemaining);
    let ctx = CloseChallenge { creator: key(4), challenge_key: key(11), challenge: done };
    let event = close_challenge(&ctx, id()).unwrap();
    assert_eq!(event.challenge_id, key(11));
    assert_eq!(event.creator, key(4));
}

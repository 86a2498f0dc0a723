//! What holds of the operations taken together: a status never goes back,
//! nothing is claimed twice, and what is paid out is what was paid in.

use vstd::prelude::*;
use crate::calculator::lemma_split_conserves;
use crate::claims::{ClaimForfeitedStakes, ClaimPayout, ClaimRefund};
use crate::errors::ProvenError;
use crate::lifecycle::{CancelChallenge, JoinChallenge, RecordProof, SettleChallenge};
use crate::reclaim::CloseParticipant;
use crate::settlement::{FinalizeSettlement, SettleParticipant};
use crate::state::{ChallengeEscrow, ChallengeStatus, Participant};

verus! {

/// A settled or cancelled challenge stays as it is: whatever an operation may
/// turn a terminal status into is that same status.
pub proof fn lemma_terminal_status_is_final(status: ChallengeStatus, next: ChallengeStatus)
    requires
        status.is_terminal(),
        status.may_become(next),
    ensures
        next == status,
{
}

/// No status is visited twice: every move goes to a status of higher rank.
pub proof fn lemma_status_moves_forward(status: ChallengeStatus, next: ChallengeStatus)
    requires
        status.may_become(next),
    ensures
        status.rank() <= next.rank(),
        next != status ==> status.rank() < next.rank(),
{
}

/// Every operation that moves a challenge to another status asks for a
/// status that is not terminal: a settled or cancelled challenge refuses each
/// of them.
pub proof fn lemma_terminal_challenge_refuses_every_move(
    challenge: ChallengeEscrow,
    record: RecordProof,
    end: SettleChallenge,
    finalize: FinalizeSettlement,
    cancel: CancelChallenge,
    challenge_id: Seq<char>,
    now: i64,
)
    requires
        challenge.status.is_terminal(),
        record.challenge == challenge,
        end.challenge == challenge,
        finalize.challenge == challenge,
        cancel.challenge == challenge,
    ensures
        record.refusal(challenge_id, now) is Some,
        end.refusal(challenge_id, now) is Some,
        finalize.refusal(challenge_id) is Some,
        cancel.refusal(challenge_id, now) is Some,
{
}

/// Nobody joins, and nobody is classified, once a challenge is settled or
/// cancelled.
pub proof fn lemma_terminal_challenge_is_closed_to_participants(
    join: JoinChallenge,
    settle: SettleParticipant,
    challenge_id: Seq<char>,
    now: i64,
)
    requires
        join.challenge.status.is_terminal(),
        settle.challenge.status.is_terminal(),
    ensures
        join.refusal(challenge_id, now) is Some,
        settle.refusal(challenge_id) is Some,
{
}

/// The terms of a challenge never change: whatever an operation writes, the
/// identifier, the stake, the days, the threshold, the start and the end stay
/// as they were when the challenge was created.
pub proof fn lemma_terms_never_change(
    join: JoinChallenge,
    record: RecordProof,
    end: SettleChallenge,
    cancel: CancelChallenge,
    settle: SettleParticipant,
    finalize: FinalizeSettlement,
    payout: ClaimPayout,
    forfeiture: ClaimForfeitedStakes,
    refund: ClaimRefund,
    discard: CloseParticipant,
)
    ensures
        join.joined().challenge.same_terms(join.challenge),
        record.recorded().challenge.same_terms(record.challenge),
        end.ended().challenge.same_terms(end.challenge),
        cancel.cancelled().challenge.same_terms(cancel.challenge),
        settle.settled().challenge.same_terms(settle.challenge),
        finalize.finalized().challenge.same_terms(finalize.challenge),
        payout.paid().challenge.same_terms(payout.challenge),
        forfeiture.paid().challenge.same_terms(forfeiture.challenge),
        refund.paid().challenge.same_terms(refund.challenge),
        discard.closed().challenge.same_terms(discard.challenge),
{
}

/// A participant record only moves forward: no operation takes a proof
/// away, undoes a classification, or clears the mark of a payout or a refund.
pub proof fn lemma_participant_only_moves_forward(
    record: RecordProof,
    settle: SettleParticipant,
    payout: ClaimPayout,
    refund: ClaimRefund,
    challenge_id: Seq<char>,
    now: i64,
)
    ensures
        record.refusal(challenge_id, now) is None ==> record.participant.may_become(
            record.recorded().participant,
        ),
        settle.refusal(challenge_id) is None ==> settle.participant.may_become(
            settle.settled().participant,
        ),
        payout.participant.may_become(payout.paid().participant),
        refund.participant.may_become(refund.paid().participant),
{
}

/// What a record may become is settled step by step: if it may go from a
/// first state to a second and from there to a third, it may go from the
/// first to the third.
pub proof fn lemma_participant_may_become_is_transitive(
    first: Participant,
    second: Participant,
    third: Participant,
)
    requires
        first.may_become(second),
        second.may_become(third),
    ensures
        first.may_become(third),
{
}

/// A participant is classified once: after a classification, another one of
/// the same participant is refused as already settled.
pub proof fn lemma_classified_once(ctx: SettleParticipant, challenge_id: Seq<char>)
    requires
        ctx.refusal(challenge_id) is None,
    ensures
        ctx.settled().refusal(challenge_id) == Some(ProvenError::AlreadySettled),
{
}

/// Settlement is finalized once: after it, finalizing again is refused for
/// the challenge's status.
pub proof fn lemma_finalized_once(ctx: FinalizeSettlement, challenge_id: Seq<char>)
    requires
        ctx.refusal(challenge_id) is None,
    ensures
        ctx.finalized().refusal(challenge_id) == Some(ProvenError::InvalidChallengeStatus),
{
}

/// A payout is made once: after it, the same claim is refused as already
/// claimed.
pub proof fn lemma_payout_claimed_once(ctx: ClaimPayout, challenge_id: Seq<char>)
    requires
        ctx.refusal(challenge_id) is None,
    ensures
        ctx.paid().refusal(challenge_id) == Some(ProvenError::PayoutAlreadyClaimed),
{
}

/// A participant marked as paid is never paid again, whatever has happened
/// to the challenge since.
pub proof fn lemma_paid_participant_is_refused(ctx: ClaimPayout, challenge_id: Seq<char>)
    requires
        ctx.participant.payout_claimed,
    ensures
        ctx.refusal(challenge_id) is Some,
{
}

/// A refund is made once: after it, the same claim is refused as already
/// claimed.
pub proof fn lemma_refund_claimed_once(ctx: ClaimRefund, challenge_id: Seq<char>)
    requires
        ctx.refusal(challenge_id) is None,
    ensures
        ctx.paid().refusal(challenge_id) == Some(ProvenError::AlreadyClaimed),
{
}

/// A participant marked as refunded is never refunded again.
pub proof fn lemma_refunded_participant_is_refused(ctx: ClaimRefund, challenge_id: Seq<char>)
    requires
        ctx.participant.refund_claimed,
    ensures
        ctx.refusal(challenge_id) is Some,
{
}

/// The forfeited pool is claimed once: after it, the same claim is refused
/// because nothing is left to claim.
pub proof fn lemma_forfeiture_claimed_once(ctx: ClaimForfeitedStakes, challenge_id: Seq<char>)
    requires
        ctx.refusal(challenge_id) is None,
    ensures
        ctx.paid().refusal(challenge_id) == Some(ProvenError::NoForfeitedStakes),
{
}

/// Finalizing succeeds only once everyone is classified, and what it writes
/// down is an exact account: the winners' bonuses, the remainder and what is
/// forfeited add up to the losers' stakes. With winners and losers both, the
/// bonuses and the remainder alone do.
pub proof fn lemma_settlement_conserves(ctx: FinalizeSettlement, challenge_id: Seq<char>)
    requires
        ctx.refusal(challenge_id) is None,
    ensures
        ctx.challenge.winner_count + ctx.challenge.loser_count == ctx.challenge.participant_count,
        ({
            let after = ctx.finalized().challenge;
            &&& after.winner_count * after.bonus_per_winner + after.remainder
                + after.forfeited_amount == ctx.challenge.loser_count * ctx.challenge.stake_amount
            &&& after.winner_count > 0 ==> after.forfeited_amount == 0 && after.winner_count
                * after.bonus_per_winner + after.remainder == ctx.challenge.loser_count
                * ctx.challenge.stake_amount
            &&& after.winner_count > 0 ==> after.remainder < after.winner_count
            &&& after.winner_count == 0 ==> after.forfeited_amount == ctx.challenge.pool()
        }),
{
    lemma_split_conserves(
        ctx.challenge.winner_count,
        ctx.challenge.loser_count,
        ctx.challenge.stake_amount,
    );
}

/// Right after settlement the custody account owes exactly the pool: every
/// stake that was paid in is owed to someone.
pub proof fn lemma_settlement_owes_the_pool(ctx: FinalizeSettlement, challenge_id: Seq<char>)
    requires
        ctx.refusal(challenge_id) is None,
    ensures
        ctx.finalized().challenge.owed() == ctx.challenge.pool(),
{
    lemma_split_conserves(
        ctx.challenge.winner_count,
        ctx.challenge.loser_count,
        ctx.challenge.stake_amount,
    );
    let after = ctx.finalized().challenge;
    let w = after.winner_count as int;
    let l = after.loser_count as int;
    let s = after.stake_amount as int;
    let b = after.bonus_per_winner as int;
    assert(w * (s + b) == w * s + w * b) by (nonlinear_arith);
    assert((w + l) * s == w * s + l * s) by (nonlinear_arith);
}

/// No claim receives more than one unit of the remainder, and what a claim
/// reports as its bonus is the bonus and that unit.
pub proof fn lemma_dust_is_at_most_one(ctx: ClaimPayout, challenge_id: Seq<char>)
    requires
        ctx.refusal(challenge_id) is None,
    ensures
        ctx.dust() == 0 || ctx.dust() == 1,
        ctx.event().bonus_received == ctx.challenge.bonus_per_winner + ctx.dust(),
        ctx.event().total_amount == ctx.challenge.stake_amount + ctx.challenge.bonus_per_winner
            + ctx.dust(),
        ctx.paid().challenge.remainder_claimed == ctx.challenge.remainder_claimed + ctx.dust(),
{
}

/// The remainder goes to the winners who claim first: in a well-formed settled
/// challenge a claim receives a unit exactly when fewer claims were paid
/// before it than the remainder has units.
pub proof fn lemma_dust_goes_to_the_first_claims(ctx: ClaimPayout)
    requires
        ctx.challenge.wf(),
        ctx.challenge.status is Settled,
    ensures
        ctx.dust() == 1 <==> ctx.challenge.payouts_claimed_count < ctx.challenge.remainder,
{
}

/// Once every winner is paid, the claims that received a unit of the
/// remainder are as many as the remainder has units.
pub proof fn lemma_all_paid_means_all_dust_granted(challenge: ChallengeEscrow)
    requires
        challenge.wf(),
        challenge.status is Settled,
        challenge.payouts_claimed_count == challenge.winner_count,
    ensures
        challenge.remainder_claimed == challenge.remainder,
{
}

/// A payout takes out of what is owed exactly what it pays.
pub proof fn lemma_payout_draws_down(ctx: ClaimPayout, challenge_id: Seq<char>)
    requires
        ctx.challenge.wf(),
        ctx.refusal(challenge_id) is None,
    ensures
        ctx.event().total_amount <= ctx.challenge.owed(),
        ctx.paid().challenge.owed() == ctx.challenge.owed() - ctx.event().total_amount,
{
    let c = ctx.challenge;
    let open = c.winner_count - c.payouts_claimed_count;
    let each = c.stake_amount + c.bonus_per_winner;
    assert(open * each == (open - 1) * each + each) by (nonlinear_arith);
    assert((open - 1) * each >= 0) by (nonlinear_arith)
        requires
            open >= 1,
            each >= 0,
    ;
}

/// The claim of the forfeited pool takes out all that is owed.
pub proof fn lemma_forfeiture_draws_down(ctx: ClaimForfeitedStakes, challenge_id: Seq<char>)
    requires
        ctx.challenge.wf(),
        ctx.refusal(challenge_id) is None,
    ensures
        ctx.event().amount == ctx.challenge.owed(),
        ctx.paid().challenge.owed() == 0,
{
    let c = ctx.challenge;
    assert((c.winner_count - c.payouts_claimed_count) * (c.stake_amount + c.bonus_per_winner)
        == 0) by (nonlinear_arith)
        requires
            c.winner_count - c.payouts_claimed_count == 0,
    ;
}

/// After the last payout nothing is owed: what all the winners received
/// together is the pool.
pub proof fn lemma_last_payout_empties(challenge: ChallengeEscrow)
    requires
        challenge.wf(),
        challenge.status is Settled,
        challenge.winner_count > 0,
        challenge.payouts_claimed_count == challenge.winner_count,
    ensures
        challenge.owed() == 0,
{
    assert((challenge.winner_count - challenge.payouts_claimed_count) * (challenge.stake_amount
        + challenge.bonus_per_winner) == 0) by (nonlinear_arith)
        requires
            challenge.winner_count - challenge.payouts_claimed_count == 0,
    ;
}

} // verus!

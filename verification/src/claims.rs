//! Releasing funds from custody: the payout of a winner, the forfeited pool,
//! and the refund after a cancellation. Each can be claimed exactly once.

use vstd::prelude::*;
use crate::errors::ProvenError;
use crate::events::{ForfeitedStakesClaimed, PayoutClaimed, RefundClaimed};
use crate::keys::Pubkey;
use crate::state::{ChallengeEscrow, ChallengeStatus, EscrowFactory, Participant};

verus! {

/// The records that the payout of a winner reads and changes.
#[derive(Clone, Debug, PartialEq, Eq)]
pub struct ClaimPayout {
    /// Address of the challenge record.
    pub challenge_key: Pubkey,
    /// The challenge.
    pub challenge: ChallengeEscrow,
    /// The participant who claims.
    pub participant: Participant,
}

impl ClaimPayout {
    /// The unit of the remainder that this claim receives: one as long as
    /// fewer units were handed out than the remainder holds, none after.
    pub open spec fn dust(self) -> int {
        if self.challenge.remainder_claimed < self.challenge.remainder {
            1
        } else {
            0
        }
    }

    /// What is paid: the own stake, the bonus, and the unit of the remainder.
    pub open spec fn amount(self) -> int {
        self.challenge.stake_amount + self.challenge.bonus_per_winner + self.dust()
    }

    /// Why the claim is refused, if it is.
    pub open spec fn refusal(self, challenge_id: Seq<char>) -> Option<ProvenError> {
        if self.challenge.challenge_id@ != challenge_id {
            Some(ProvenError::ChallengeIdMismatch)
        } else if self.challenge.status != ChallengeStatus::Settled {
            Some(ProvenError::ChallengeNotSettled)
        } else if !self.participant.is_settled {
            Some(ProvenError::NotSettled)
        } else if !self.participant.is_winner {
            Some(ProvenError::NotWinner)
        } else if self.participant.payout_claimed {
            Some(ProvenError::PayoutAlreadyClaimed)
        } else if self.challenge.payouts_claimed_count >= self.challenge.winner_count {
            Some(ProvenError::AllPayoutsClaimed)
        } else if self.amount() > u64::MAX {
            Some(ProvenError::MathOverflow)
        } else {
            None
        }
    }

    /// The records after the claim: one more payout, the unit of the remainder
    /// counted, and the participant marked as paid.
    pub open spec fn paid(self) -> ClaimPayout {
        ClaimPayout {
            challenge: ChallengeEscrow {
                payouts_claimed_count: (self.challenge.payouts_claimed_count + 1) as u32,
                remainder_claimed: (self.challenge.remainder_claimed + self.dust()) as u64,
                ..self.challenge
            },
            participant: Participant { payout_claimed: true, ..self.participant },
            ..self
        }
    }

    /// What the claim reports.
    pub open spec fn event(self) -> PayoutClaimed {
        PayoutClaimed {
            challenge_id: self.challenge_key,
            user: self.participant.user,
            stake_returned: self.challenge.stake_amount,
            bonus_received: (self.challenge.bonus_per_winner + self.dust()) as u64,
            total_amount: self.amount() as u64,
        }
    }
}

/// Pays a winner: the own stake, the bonus, and one unit of the remainder for
/// as long as the remainder lasts.
///
/// Legal once the challenge is settled, for a participant classified as a
/// winner and not yet paid, while fewer payouts were made than there are
/// winners. The event gives the amount to move out of custody.
pub fn claim_payout(ctx: &mut ClaimPayout, challenge_id: String) -> (result: Result<
    PayoutClaimed,
    ProvenError,
>)
    ensures
        match result {
            Ok(event) => {
                &&& old(ctx).refusal(challenge_id@) is None
                &&& *final(ctx) == old(ctx).paid()
                &&& event == old(ctx).event()
            },
            Err(error) => {
                &&& old(ctx).refusal(challenge_id@) == Some(error)
                &&& *final(ctx) == *old(ctx)
            },
        },
        old(ctx).challenge.status.may_become(final(ctx).challenge.status),
        old(ctx).challenge.wf() ==> final(ctx).challenge.wf(),
        old(ctx).participant.wf() ==> final(ctx).participant.wf(),
{
    if ctx.challenge.challenge_id != challenge_id {
        return Err(ProvenError::ChallengeIdMismatch);
    }
    if ctx.challenge.status != ChallengeStatus::Settled {
        return Err(ProvenError::ChallengeNotSettled);
    }
    if !ctx.participant.is_settled {
        return Err(ProvenError::NotSettled);
    }
    if !ctx.participant.is_winner {
        return Err(ProvenError::NotWinner);
    }
    if ctx.participant.payout_claimed {
        return Err(ProvenError::PayoutAlreadyClaimed);
    }
    if ctx.challenge.payouts_claimed_count >= ctx.challenge.winner_count {
        return Err(ProvenError::AllPayoutsClaimed);
    }
    let mut bonus: u64 = ctx.challenge.bonus_per_winner;
    let mut remainder_increment: u64 = 0;
    if ctx.challenge.remainder_claimed < ctx.challenge.remainder {
        bonus = match bonus.checked_add(1) {
            Some(sum) => sum,
            None => {
                return Err(ProvenError::MathOverflow);
            },
        };
        remainder_increment = 1;
    }
    let payout_amount: u64 = match ctx.challenge.stake_amount.checked_add(bonus) {
        Some(sum) => sum,
        None => {
            return Err(ProvenError::MathOverflow);
        },
    };
    let event = PayoutClaimed {
        challenge_id: ctx.challenge_key,
        user: ctx.participant.user,
        stake_returned: ctx.challenge.stake_amount,
        bonus_received: bonus,
        total_amount: payout_amount,
    };
    ctx.participant.payout_claimed = true;
    ctx.challenge.payouts_claimed_count = ctx.challenge.payouts_claimed_count + 1;
    ctx.challenge.remainder_claimed = ctx.challenge.remainder_claimed + remainder_increment;
    Ok(event)
}

/// The records that the claim of the forfeited pool reads and changes.
#[derive(Clone, Debug, PartialEq, Eq)]
pub struct ClaimForfeitedStakes {
    /// Who claims.
    pub treasury: Pubkey,
    /// The registry, which names the treasury.
    pub factory: EscrowFactory,
    /// Address of the challenge record.
    pub challenge_key: Pubkey,
    /// The challenge.
    pub challenge: ChallengeEscrow,
}

impl ClaimForfeitedStakes {
    /// Why the claim is refused, if it is.
    pub open spec fn refusal(self, challenge_id: Seq<char>) -> Option<ProvenError> {
        if self.challenge.challenge_id@ != challenge_id {
            Some(ProvenError::ChallengeIdMismatch)
        } else if self.challenge.status != ChallengeStatus::Settled {
            Some(ProvenError::ChallengeNotSettled)
        } else if self.challenge.winner_count != 0 {
            Some(ProvenError::HasWinners)
        } else if self.challenge.forfeited_amount == 0 {
            Some(ProvenError::NoForfeitedStakes)
        } else if self.treasury != self.factory.treasury {
            Some(ProvenError::Unauthorized)
        } else {
            None
        }
    }

    /// The records after the claim: nothing is forfeited any more.
    pub open spec fn paid(self) -> ClaimForfeitedStakes {
        ClaimForfeitedStakes {
            challenge: ChallengeEscrow { forfeited_amount: 0, ..self.challenge },
            ..self
        }
    }

    /// What the claim reports.
    pub open spec fn event(self) -> ForfeitedStakesClaimed {
        ForfeitedStakesClaimed {
            challenge_id: self.challenge_key,
            treasury: self.factory.treasury,
            amount: self.challenge.forfeited_amount,
        }
    }
}

/// Hands the forfeited pool to the treasury, all of it at once.
///
/// Legal once the challenge is settled with no winner, while something is
/// forfeited, for the registry's treasury. The event gives the amount to move
/// out of custody.
pub fn claim_forfeited_stakes(ctx: &mut ClaimForfeitedStakes, challenge_id: String) -> (result:
    Result<ForfeitedStakesClaimed, ProvenError>)
    ensures
        match result {
            Ok(event) => {
                &&& old(ctx).refusal(challenge_id@) is None
                &&& *final(ctx) == old(ctx).paid()
                &&& event == old(ctx).event()
            },
            Err(error) => {
                &&& old(ctx).refusal(challenge_id@) == Some(error)
                &&& *final(ctx) == *old(ctx)
            },
        },
        old(ctx).challenge.status.may_become(final(ctx).challenge.status),
        old(ctx).challenge.wf() ==> final(ctx).challenge.wf(),
{
    if ctx.challenge.challenge_id != challenge_id {
        return Err(ProvenError::ChallengeIdMismatch);
    }
    if ctx.challenge.status != ChallengeStatus::Settled {
        return Err(ProvenError::ChallengeNotSettled);
    }
    if ctx.challenge.winner_count != 0 {
        return Err(ProvenError::HasWinners);
    }
    if ctx.challenge.forfeited_amount == 0 {
        return Err(ProvenError::NoForfeitedStakes);
    }
    if ctx.treasury != ctx.factory.treasury {
        return Err(ProvenError::Unauthorized);
    }
    let event = ForfeitedStakesClaimed {
        challenge_id: ctx.challenge_key,
        treasury: ctx.factory.treasury,
        amount: ctx.challenge.forfeited_amount,
    };
    ctx.challenge.forfeited_amount = 0;
    Ok(event)
}

/// The records that a refund reads and changes.
#[derive(Clone, Debug, PartialEq, Eq)]
pub struct ClaimRefund {
    /// Address of the challenge record.
    pub challenge_key: Pubkey,
    /// The challenge.
    pub challenge: ChallengeEscrow,
    /// The participant who claims.
    pub participant: Participant,
}

impl ClaimRefund {
    /// Why the claim is refused, if it is.
    pub open spec fn refusal(self, challenge_id: Seq<char>) -> Option<ProvenError> {
        if self.challenge.challenge_id@ != challenge_id {
            Some(ProvenError::ChallengeIdMismatch)
        } else if self.challenge.status != ChallengeStatus::Cancelled {
            Some(ProvenError::NotCancelled)
        } else if !self.participant.joined {
            Some(ProvenError::NotJoined)
        } else if self.participant.refund_claimed {
            Some(ProvenError::AlreadyClaimed)
        } else {
            None
        }
    }

    /// The records after the claim: the participant is marked as refunded.
    pub open spec fn paid(self) -> ClaimRefund {
        ClaimRefund {
            participant: Participant { refund_claimed: true, ..self.participant },
            ..self
        }
    }

    /// What the claim reports.
    pub open spec fn event(self) -> RefundClaimed {
        RefundClaimed {
            challenge_id: self.challenge_key,
            user: self.participant.user,
            amount: self.participant.stake_deposited,
        }
    }
}

/// Pays a participant's stake back after the challenge was cancelled.
///
/// Legal for someone who joined and was not refunded yet. The event gives the
/// amount to move out of custody: the stake that was deposited, no more.
pub fn claim_refund(ctx: &mut ClaimRefund, challenge_id: String) -> (result: Result<
    RefundClaimed,
    ProvenError,
>)
    ensures
        match result {
            Ok(event) => {
                &&& old(ctx).refusal(challenge_id@) is None
                &&& *final(ctx) == old(ctx).paid()
                &&& event == old(ctx).event()
            },
            Err(error) => {
                &&& old(ctx).refusal(challenge_id@) == Some(error)
                &&& *final(ctx) == *old(ctx)
            },
        },
        final(ctx).challenge == old(ctx).challenge,
        old(ctx).participant.wf() ==> final(ctx).participant.wf(),
{
    if ctx.challenge.challenge_id != challenge_id {
        return Err(ProvenError::ChallengeIdMismatch);
    }
    if ctx.challenge.status != ChallengeStatus::Cancelled {
        return Err(ProvenError::NotCancelled);
    }
    if !ctx.participant.joined {
        return Err(ProvenError::NotJoined);
    }
    if ctx.participant.refund_claimed {
        return Err(ProvenError::AlreadyClaimed);
    }
    let event = RefundClaimed {
        challenge_id: ctx.challenge_key,
        user: ctx.participant.user,
        amount: ctx.participant.stake_deposited,
    };
    ctx.participant.refund_claimed = true;
    Ok(event)
}

} // verus!

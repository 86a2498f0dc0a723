//! Discarding records and the custody account once nothing is owed through
//! them any more.

use vstd::prelude::*;
use crate::errors::ProvenError;
use crate::events::{ChallengeClosed, EscrowVaultClosed, ParticipantClosed};
use crate::keys::Pubkey;
use crate::state::{ChallengeEscrow, ChallengeStatus, Participant};

verus! {

/// What the discarding of a participant record reads and changes.
#[derive(Clone, Debug, PartialEq, Eq)]
pub struct CloseParticipant {
    /// Who asks: the participant or the challenge's creator.
    pub authority: Pubkey,
    /// Address of the challenge record.
    pub challenge_key: Pubkey,
    /// The challenge.
    pub challenge: ChallengeEscrow,
    /// The participant whose record is discarded.
    pub participant: Participant,
    /// Who receives what the record's storage gives back.
    pub destination: Pubkey,
}

impl CloseParticipant {
    /// Why the record may not be discarded yet, seen from the challenge's
    /// status: a settled challenge asks that the participant is classified
    /// and, if a winner, paid; a cancelled one that the stake was refunded; in
    /// any other status the record stays.
    pub open spec fn obligation(self) -> Option<ProvenError> {
        match self.challenge.status {
            ChallengeStatus::Settled => {
                if !self.participant.is_settled {
                    Some(ProvenError::NotSettled)
                } else if self.participant.is_winner && !self.participant.payout_claimed {
                    Some(ProvenError::PayoutNotClaimed)
                } else {
                    None
                }
            },
            ChallengeStatus::Cancelled => {
                if !self.participant.refund_claimed {
                    Some(ProvenError::RefundNotClaimed)
                } else {
                    None
                }
            },
            _ => Some(ProvenError::ChallengeStillActive),
        }
    }

    /// Why the discarding is refused, if it is.
    pub open spec fn refusal(self, challenge_id: Seq<char>) -> Option<ProvenError> {
        if self.challenge.challenge_id@ != challenge_id {
            Some(ProvenError::ChallengeIdMismatch)
        } else if self.participant.user != self.destination {
            Some(ProvenError::Unauthorized)
        } else if self.authority != self.participant.user && self.authority
            != self.challenge.creator {
            Some(ProvenError::Unauthorized)
        } else if self.obligation() is Some {
            self.obligation()
        } else if self.challenge.active_participants == 0 {
            Some(ProvenError::MathOverflow)
        } else {
            None
        }
    }

    /// The records after the discarding: one record fewer is kept.
    pub open spec fn closed(self) -> CloseParticipant {
        CloseParticipant {
            challenge: ChallengeEscrow {
                active_participants: (self.challenge.active_participants - 1) as u32,
                ..self.challenge
            },
            ..self
        }
    }

    /// What the discarding reports.
    pub open spec fn event(self) -> ParticipantClosed {
        ParticipantClosed {
            challenge_id: self.challenge_key,
            user: self.participant.user,
            closed_by: self.authority,
        }
    }
}

/// Allows a participant record to be discarded, and counts it as gone.
///
/// Legal for the participant or the challenge's creator, with the participant
/// as the destination, once nothing is owed to the participant: in a settled
/// challenge a winner has been paid, in a cancelled one the stake was
/// refunded.
pub fn close_participant(ctx: &mut CloseParticipant, challenge_id: String) -> (result: Result<
    ParticipantClosed,
    ProvenError,
>)
    ensures
        match result {
            Ok(event) => {
                &&& old(ctx).refusal(challenge_id@) is None
                &&& *final(ctx) == old(ctx).closed()
                &&& event == old(ctx).event()
            },
            Err(error) => {
                &&& old(ctx).refusal(challenge_id@) == Some(error)
                &&& *final(ctx) == *old(ctx)
            },
        },
        old(ctx).challenge.status.may_become(final(ctx).challenge.status),
        old(ctx).challenge.wf() ==> final(ctx).challenge.wf(),
{
    if ctx.challenge.challenge_id != challenge_id {
        return Err(ProvenError::ChallengeIdMismatch);
    }
    if ctx.participant.user != ctx.destination {
        return Err(ProvenError::Unauthorized);
    }
    if ctx.authority != ctx.participant.user && ctx.authority != ctx.challenge.creator {
        return Err(ProvenError::Unauthorized);
    }
    match ctx.challenge.status {
        ChallengeStatus::Settled => {
            if !ctx.participant.is_settled {
                return Err(ProvenError::NotSettled);
            }
            if ctx.participant.is_winner && !ctx.participant.payout_claimed {
                return Err(ProvenError::PayoutNotClaimed);
            }
        },
        ChallengeStatus::Cancelled => {
            if !ctx.participant.refund_claimed {
                return Err(ProvenError::RefundNotClaimed);
            }
        },
        _ => {
            return Err(ProvenError::ChallengeStillActive);
        },
    }
    ctx.challenge.active_participants = match ctx.challenge.active_participants.checked_sub(1) {
        Some(count) => count,
        None => {
            return Err(ProvenError::MathOverflow);
        },
    };
    Ok(
        ParticipantClosed {
            challenge_id: ctx.challenge_key,
            user: ctx.participant.user,
            closed_by: ctx.authority,
        },
    )
}

/// What the closing of the custody account reads.
#[derive(Clone, Debug, PartialEq, Eq)]
pub struct CloseEscrowVault {
    /// Who asks.
    pub creator: Pubkey,
    /// Address of the challenge record.
    pub challenge_key: Pubkey,
    /// The challenge.
    pub challenge: ChallengeEscrow,
    /// What the custody account holds.
    pub escrow_vault_amount: u64,
}

impl CloseEscrowVault {
    /// Why the account may not be closed yet, seen from the challenge's
    /// status: a settled challenge asks that every winner was paid or, with no
    /// winner, that the forfeited pool was claimed; a cancelled one asks
    /// nothing here; in any other status the account stays.
    pub open spec fn obligation(self) -> Option<ProvenError> {
        match self.challenge.status {
            ChallengeStatus::Settled => {
                if self.challenge.winner_count > 0 && self.challenge.payouts_claimed_count
                    != self.challenge.winner_count {
                    Some(ProvenError::PendingWinnerPayouts)
                } else if self.challenge.winner_count == 0 && self.challenge.forfeited_amount
                    != 0 {
                    Some(ProvenError::ForfeitedStakesUnclaimed)
                } else {
                    None
                }
            },
            ChallengeStatus::Cancelled => None,
            _ => Some(ProvenError::ChallengeStillActive),
        }
    }

    /// Why the closing is refused, if it is.
    pub open spec fn refusal(self, challenge_id: Seq<char>) -> Option<ProvenError> {
        if self.challenge.challenge_id@ != challenge_id {
            Some(ProvenError::ChallengeIdMismatch)
        } else if self.challenge.creator != self.creator {
            Some(ProvenError::Unauthorized)
        } else if self.obligation() is Some {
            self.obligation()
        } else if self.escrow_vault_amount != 0 {
            Some(ProvenError::EscrowNotEmpty)
        } else {
            None
        }
    }

    /// What the closing reports.
    pub open spec fn event(self) -> EscrowVaultClosed {
        EscrowVaultClosed { challenge_id: self.challenge_key, creator: self.challenge.creator }
    }
}

/// Allows the custody account of a challenge to be closed.
///
/// Legal for the challenge's creator, once the challenge is settled and paid
/// out, or cancelled, and only while the account holds exactly nothing.
pub fn close_escrow_vault(ctx: &CloseEscrowVault, challenge_id: String) -> (result: Result<
    EscrowVaultClosed,
    ProvenError,
>)
    ensures
        match result {
            Ok(event) => {
                &&& ctx.refusal(challenge_id@) is None
                &&& ctx.escrow_vault_amount == 0
                &&& ctx.challenge.status.is_terminal()
                &&& event == ctx.event()
            },
            Err(error) => ctx.refusal(challenge_id@) == Some(error),
        },
{
    if ctx.challenge.challenge_id != challenge_id {
        return Err(ProvenError::ChallengeIdMismatch);
    }
    if ctx.challenge.creator != ctx.creator {
        return Err(ProvenError::Unauthorized);
    }
    match ctx.challenge.status {
        ChallengeStatus::Settled => {
            if ctx.challenge.winner_count > 0 && ctx.challenge.payouts_claimed_count
                != ctx.challenge.winner_count {
                return Err(ProvenError::PendingWinnerPayouts);
            }
            if ctx.challenge.winner_count == 0 && ctx.challenge.forfeited_amount != 0 {
                return Err(ProvenError::ForfeitedStakesUnclaimed);
            }
        },
        ChallengeStatus::Cancelled => {},
        _ => {
            return Err(ProvenError::ChallengeStillActive);
        },
    }
    if ctx.escrow_vault_amount != 0 {
        return Err(ProvenError::EscrowNotEmpty);
    }
    Ok(EscrowVaultClosed { challenge_id: ctx.challenge_key, creator: ctx.challenge.creator })
}

/// What the discarding of a challenge record reads.
#[derive(Clone, Debug, PartialEq, Eq)]
pub struct CloseChallenge {
    /// Who asks.
    pub creator: Pubkey,
    /// Address of the challenge record.
    pub challenge_key: Pubkey,
    /// The challenge.
    pub challenge: ChallengeEscrow,
}

impl CloseChallenge {
    /// Why the record may not be discarded yet, seen from the challenge's
    /// status: a settled challenge asks that every winner was paid and the
    /// whole remainder handed out or, with no winner, that the forfeited pool
    /// was claimed; a cancelled one asks nothing here; in any other status the
    /// record stays.
    pub open spec fn obligation(self) -> Option<ProvenError> {
        match self.challenge.status {
            ChallengeStatus::Settled => {
                if self.challenge.winner_count > 0 && self.challenge.payouts_claimed_count
                    != self.challenge.winner_count {
                    Some(ProvenError::PendingWinnerPayouts)
                } else if self.challenge.winner_count > 0 && self.challenge.remainder_claimed
                    != self.challenge.remainder {
                    Some(ProvenError::PendingRemainderDistribution)
                } else if self.challenge.winner_count == 0 && self.challenge.forfeited_amount
                    != 0 {
                    Some(ProvenError::ForfeitedStakesUnclaimed)
                } else {
                    None
                }
            },
            ChallengeStatus::Cancelled => None,
            _ => Some(ProvenError::ChallengeStillActive),
        }
    }

    /// Why the discarding is refused, if it is.
    pub open spec fn refusal(self, challenge_id: Seq<char>) -> Option<ProvenError> {
        if self.challenge.challenge_id@ != challenge_id {
            Some(ProvenError::ChallengeIdMismatch)
        } else if self.challenge.creator != self.creator {
            Some(ProvenError::Unauthorized)
        } else if self.obligation() is Some {
            self.obligation()
        } else if self.challenge.active_participants != 0 {
            Some(ProvenError::ParticipantsRemaining)
        } else {
            None
        }
    }

    /// What the discarding reports.
    pub open spec fn event(self) -> ChallengeClosed {
        ChallengeClosed { challenge_id: self.challenge_key, creator: self.challenge.creator }
    }
}

/// Allows a challenge record to be discarded.
///
/// Legal for the challenge's creator, once the challenge is settled and paid
/// out in full, or cancelled, and every participant record is gone. Of a
/// well-formed settled challenge that is discarded, nothing is owed any more.
pub fn close_challenge(ctx: &CloseChallenge, challenge_id: String) -> (result: Result<
    ChallengeClosed,
    ProvenError,
>)
    ensures
        match result {
            Ok(event) => {
                &&& ctx.refusal(challenge_id@) is None
                &&& ctx.challenge.status.is_terminal()
                &&& ctx.challenge.active_participants == 0
                &&& ctx.challenge.status is Settled && ctx.challenge.wf()
                    ==> ctx.challenge.owed() == 0
                &&& event == ctx.event()
            },
            Err(error) => ctx.refusal(challenge_id@) == Some(error),
        },
{
    if ctx.challenge.challenge_id != challenge_id {
        return Err(ProvenError::ChallengeIdMismatch);
    }
    if ctx.challenge.creator != ctx.creator {
        return Err(ProvenError::Unauthorized);
    }
    match ctx.challenge.status {
        ChallengeStatus::Settled => {
            if ctx.challenge.winner_count > 0 {
                if ctx.challenge.payouts_claimed_count != ctx.challenge.winner_count {
                    return Err(ProvenError::PendingWinnerPayouts);
                }
                if ctx.challenge.remainder_claimed != ctx.challenge.remainder {
                    return Err(ProvenError::PendingRemainderDistribution);
                }
            }
            if ctx.challenge.winner_count == 0 && ctx.challenge.forfeited_amount != 0 {
                return Err(ProvenError::ForfeitedStakesUnclaimed);
            }
        },
        ChallengeStatus::Cancelled => {},
        _ => {
            return Err(ProvenError::ChallengeStillActive);
        },
    }
    if ctx.challenge.active_participants != 0 {
        return Err(ProvenError::ParticipantsRemaining);
    }
    Ok(ChallengeClosed { challenge_id: ctx.challenge_key, creator: ctx.challenge.creator })
}

} // verus!

//! Settlement: classifying each participant of an ended challenge as a winner
//! or a loser, and then computing once what everyone is owed.

use vstd::prelude::*;
use crate::calculator::{
    lemma_split_conserves,
    required_days,
    spec_required_days,
    spec_split,
    split_pool,
};
use crate::errors::ProvenError;
use crate::events::{ChallengeSettled, NoWinnersForfeiture, ParticipantSettled};
use crate::keys::Pubkey;
use crate::state::{ChallengeEscrow, ChallengeStatus, EscrowFactory, Participant};

verus! {

/// What the classification of a participant reads and changes.
#[derive(Clone, Debug, PartialEq, Eq)]
pub struct SettleParticipant {
    /// Who classifies.
    pub oracle: Pubkey,
    /// The registry, which names the oracle.
    pub factory: EscrowFactory,
    /// Address of the challenge record.
    pub challenge_key: Pubkey,
    /// The challenge.
    pub challenge: ChallengeEscrow,
    /// The participant to classify.
    pub participant: Participant,
}

impl SettleParticipant {
    /// How many proofs win this challenge.
    pub open spec fn required(self) -> u32 {
        spec_required_days(self.challenge.total_days, self.challenge.threshold_bps)
    }

    /// Whether the participant has the proofs to win.
    pub open spec fn wins(self) -> bool {
        self.participant.proof_days >= self.required()
    }

    /// Why the classification is refused, if it is.
    pub open spec fn refusal(self, challenge_id: Seq<char>) -> Option<ProvenError> {
        if self.challenge.challenge_id@ != challenge_id {
            Some(ProvenError::ChallengeIdMismatch)
        } else if self.challenge.status != ChallengeStatus::Ended {
            Some(ProvenError::InvalidChallengeStatus)
        } else if self.oracle != self.factory.oracle {
            Some(ProvenError::InvalidOracle)
        } else if self.participant.is_settled {
            Some(ProvenError::AlreadySettled)
        } else if self.wins() && self.challenge.winner_count == u32::MAX {
            Some(ProvenError::MathOverflow)
        } else if !self.wins() && self.challenge.loser_count == u32::MAX {
            Some(ProvenError::MathOverflow)
        } else {
            None
        }
    }

    /// The records after the classification: the participant is classified
    /// for good, and the challenge counts one more winner or one more loser.
    pub open spec fn settled(self) -> SettleParticipant {
        SettleParticipant {
            challenge: if self.wins() {
                ChallengeEscrow {
                    winner_count: (self.challenge.winner_count + 1) as u32,
                    ..self.challenge
                }
            } else {
                ChallengeEscrow {
                    loser_count: (self.challenge.loser_count + 1) as u32,
                    ..self.challenge
                }
            },
            participant: Participant {
                is_winner: self.wins(),
                is_settled: true,
                ..self.participant
            },
            ..self
        }
    }

    /// What the classification reports.
    pub open spec fn event(self) -> ParticipantSettled {
        ParticipantSettled {
            challenge_id: self.challenge_key,
            user: self.participant.user,
            is_winner: self.wins(),
            proof_days: self.participant.proof_days,
            required_days: self.required(),
        }
    }
}

/// Classifies one participant of an ended challenge: a winner with at least
/// the required number of proofs, a loser with fewer. No funds move.
///
/// Legal for the registry's oracle, while the challenge is in status `Ended`,
/// once for each participant.
pub fn settle_participant(ctx: &mut SettleParticipant, challenge_id: String) -> (result: Result<
    ParticipantSettled,
    ProvenError,
>)
    ensures
        match result {
            Ok(event) => {
                &&& old(ctx).refusal(challenge_id@) is None
                &&& *final(ctx) == old(ctx).settled()
                &&& final(ctx).challenge.winner_count + final(ctx).challenge.loser_count == old(
                    ctx,
                ).challenge.winner_count + old(ctx).challenge.loser_count + 1
                &&& event == old(ctx).event()
            },
            Err(error) => {
                &&& old(ctx).refusal(challenge_id@) == Some(error)
                &&& *final(ctx) == *old(ctx)
            },
        },
        old(ctx).challenge.status.may_become(final(ctx).challenge.status),
        old(ctx).challenge.wf() ==> final(ctx).challenge.wf(),
        old(ctx).participant.wf() ==> final(ctx).participant.wf(),
{
    if ctx.challenge.challenge_id != challenge_id {
        return Err(ProvenError::ChallengeIdMismatch);
    }
    if ctx.challenge.status != ChallengeStatus::Ended {
        return Err(ProvenError::InvalidChallengeStatus);
    }
    if ctx.oracle != ctx.factory.oracle {
        return Err(ProvenError::InvalidOracle);
    }
    if ctx.participant.is_settled {
        return Err(ProvenError::AlreadySettled);
    }
    let required: u32 = required_days(ctx.challenge.total_days, ctx.challenge.threshold_bps);
    let wins: bool = ctx.participant.proof_days >= required;
    if wins {
        ctx.challenge.winner_count = match ctx.challenge.winner_count.checked_add(1) {
            Some(count) => count,
            None => {
                return Err(ProvenError::MathOverflow);
            },
        };
    } else {
        ctx.challenge.loser_count = match ctx.challenge.loser_count.checked_add(1) {
            Some(count) => count,
            None => {
                return Err(ProvenError::MathOverflow);
            },
        };
    }
    ctx.participant.is_winner = wins;
    ctx.participant.is_settled = true;
    Ok(
        ParticipantSettled {
            challenge_id: ctx.challenge_key,
            user: ctx.participant.user,
            is_winner: wins,
            proof_days: ctx.participant.proof_days,
            required_days: required,
        },
    )
}

/// What the finalizing of settlement reads and changes.
#[derive(Clone, Debug, PartialEq, Eq)]
pub struct FinalizeSettlement {
    /// Who finalizes.
    pub oracle: Pubkey,
    /// The registry, which names the oracle.
    pub factory: EscrowFactory,
    /// Address of the challenge record.
    pub challenge_key: Pubkey,
    /// The challenge.
    pub challenge: ChallengeEscrow,
}

impl FinalizeSettlement {
    /// Whether every participant has been classified.
    pub open spec fn all_classified(self) -> bool {
        self.challenge.winner_count + self.challenge.loser_count
            == self.challenge.participant_count
    }

    /// Why finalizing is refused, if it is.
    pub open spec fn refusal(self, challenge_id: Seq<char>) -> Option<ProvenError> {
        if self.challenge.challenge_id@ != challenge_id {
            Some(ProvenError::ChallengeIdMismatch)
        } else if self.challenge.status != ChallengeStatus::Ended {
            Some(ProvenError::InvalidChallengeStatus)
        } else if self.oracle != self.factory.oracle {
            Some(ProvenError::InvalidOracle)
        } else if !self.all_classified() {
            Some(ProvenError::SettlementIncomplete)
        } else if self.challenge.losers_stakes() > u64::MAX {
            Some(ProvenError::MathOverflow)
        } else {
            None
        }
    }

    /// The records after finalizing: the split is written down, no claim has
    /// been made, and the challenge is settled.
    pub open spec fn finalized(self) -> FinalizeSettlement {
        let split = spec_split(
            self.challenge.winner_count,
            self.challenge.loser_count,
            self.challenge.stake_amount,
        );
        FinalizeSettlement {
            challenge: ChallengeEscrow {
                status: ChallengeStatus::Settled,
                bonus_per_winner: split.bonus_per_winner,
                remainder: split.remainder,
                forfeited_amount: split.forfeited_amount,
                payouts_claimed_count: 0,
                remainder_claimed: 0,
                ..self.challenge
            },
            ..self
        }
    }

    /// What finalizing reports when nobody won, and `None` when somebody did.
    pub open spec fn forfeiture(self) -> Option<NoWinnersForfeiture> {
        if self.challenge.winner_count == 0 {
            Some(
                NoWinnersForfeiture {
                    challenge_id: self.challenge_key,
                    forfeited_amount: self.finalized().challenge.forfeited_amount,
                    loser_count: self.challenge.loser_count,
                },
            )
        } else {
            None
        }
    }

    /// What finalizing reports in every case.
    pub open spec fn event(self) -> ChallengeSettled {
        ChallengeSettled {
            challenge_id: self.challenge_key,
            winner_count: self.challenge.winner_count,
            loser_count: self.challenge.loser_count,
            bonus_per_winner: self.finalized().challenge.bonus_per_winner,
            forfeited_amount: self.finalized().challenge.forfeited_amount,
        }
    }
}

/// Finalizes the settlement of a challenge: computes, once, what each winner
/// receives and what is forfeited, and moves the challenge to `Settled`.
///
/// Legal for the registry's oracle, while the challenge is in status `Ended`,
/// once every participant is classified. With no winner the whole pool is
/// forfeited; with no loser nothing is handed out; otherwise the losers'
/// stakes are divided evenly among the winners, and what the division leaves
/// is the remainder. In each case what was computed adds up to the losers'
/// stakes exactly.
pub fn finalize_settlement(ctx: &mut FinalizeSettlement, challenge_id: String) -> (result: Result<
    (Option<NoWinnersForfeiture>, ChallengeSettled),
    ProvenError,
>)
    ensures
        match result {
            Ok((forfeiture, event)) => {
                &&& old(ctx).refusal(challenge_id@) is None
                &&& old(ctx).all_classified()
                &&& *final(ctx) == old(ctx).finalized()
                &&& final(ctx).challenge.winner_count * final(ctx).challenge.bonus_per_winner
                    + final(ctx).challenge.remainder + final(ctx).challenge.forfeited_amount
                    == old(ctx).challenge.losers_stakes()
                &&& forfeiture == old(ctx).forfeiture()
                &&& event == old(ctx).event()
            },
            Err(error) => {
                &&& old(ctx).refusal(challenge_id@) == Some(error)
                &&& *final(ctx) == *old(ctx)
            },
        },
        old(ctx).challenge.status.may_become(final(ctx).challenge.status),
        old(ctx).challenge.wf() ==> final(ctx).challenge.wf(),
{
    if ctx.challenge.challenge_id != challenge_id {
        return Err(ProvenError::ChallengeIdMismatch);
    }
    if ctx.challenge.status != ChallengeStatus::Ended {
        return Err(ProvenError::InvalidChallengeStatus);
    }
    if ctx.oracle != ctx.factory.oracle {
        return Err(ProvenError::InvalidOracle);
    }
    if ctx.challenge.winner_count as u64 + ctx.challenge.loser_count as u64
        != ctx.challenge.participant_count as u64 {
        return Err(ProvenError::SettlementIncomplete);
    }
    let split = match split_pool(
        ctx.challenge.winner_count,
        ctx.challenge.loser_count,
        ctx.challenge.stake_amount,
    ) {
        Some(split) => split,
        None => {
            return Err(ProvenError::MathOverflow);
        },
    };
    proof {
        lemma_split_conserves(
            ctx.challenge.winner_count,
            ctx.challenge.loser_count,
            ctx.challenge.stake_amount,
        );
    }
    ctx.challenge.payouts_claimed_count = 0;
    ctx.challenge.remainder_claimed = 0;
    ctx.challenge.bonus_per_winner = split.bonus_per_winner;
    ctx.challenge.remainder = split.remainder;
    ctx.challenge.forfeited_amount = split.forfeited_amount;
    ctx.challenge.status = ChallengeStatus::Settled;
    let forfeiture = if ctx.challenge.winner_count == 0 {
        Some(
            NoWinnersForfeiture {
                challenge_id: ctx.challenge_key,
                forfeited_amount: ctx.challenge.forfeited_amount,
                loser_count: ctx.challenge.loser_count,
            },
        )
    } else {
        None
    };
    let event = ChallengeSettled {
        challenge_id: ctx.challenge_key,
        winner_count: ctx.challenge.winner_count,
        loser_count: ctx.challenge.loser_count,
        bonus_per_winner: ctx.challenge.bonus_per_winner,
        forfeited_amount: ctx.challenge.forfeited_amount,
    };
    Ok((forfeiture, event))
}

} // verus!

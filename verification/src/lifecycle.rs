//! The life of a challenge up to its end: creating it, joining it, recording
//! proofs, ending it, and calling it off.

use vstd::prelude::*;
use vstd::utf8::encode_utf8;
use crate::calculator::{required_days, spec_required_days};
use crate::errors::ProvenError;
use crate::events::{
    ChallengeCancelled,
    ChallengeCreated,
    ChallengeJoined,
    ChallengeSettlementStarted,
    ProofRecorded,
};
use crate::keys::Pubkey;
use crate::state::{
    ChallengeEscrow,
    ChallengeStatus,
    EscrowFactory,
    Participant,
    WIN_THRESHOLD_BPS,
};

verus! {

/// What the creation of a challenge reads and changes.
#[derive(Clone, Debug, PartialEq, Eq)]
pub struct CreateChallenge {
    /// Who creates the challenge.
    pub creator: Pubkey,
    /// Address of the registry.
    pub factory_key: Pubkey,
    /// The registry, which counts the challenges.
    pub factory: EscrowFactory,
    /// Address of the challenge record to be.
    pub challenge_key: Pubkey,
    /// The token in which stakes are paid.
    pub token_mint: Pubkey,
    /// The custody account that will hold the stakes.
    pub escrow_vault: Pubkey,
    /// Bump seed of the challenge record's address.
    pub bump: u8,
}

impl CreateChallenge {
    /// When a challenge of `total_days` days that starts at `start_ts` ends.
    pub open spec fn end_ts(self, total_days: u32, start_ts: i64) -> int {
        start_ts + total_days * self.factory.day_length_seconds
    }

    /// Why the creation is refused, if it is.
    pub open spec fn refusal(
        self,
        challenge_id: Seq<char>,
        stake_amount: u64,
        total_days: u32,
        start_ts: i64,
        now: i64,
    ) -> Option<ProvenError> {
        if stake_amount == 0 {
            Some(ProvenError::InvalidAmount)
        } else if total_days == 0 {
            Some(ProvenError::InvalidDuration)
        } else if start_ts <= now {
            Some(ProvenError::InvalidStartTime)
        } else if challenge_id.len() == 0 {
            Some(ProvenError::ChallengeIdEmpty)
        } else if encode_utf8(challenge_id).len() > ChallengeEscrow::MAX_ID_LENGTH {
            Some(ProvenError::ChallengeIdTooLong)
        } else if self.factory.day_length_seconds <= 0 {
            Some(ProvenError::InvalidDayLength)
        } else if self.end_ts(total_days, start_ts) > i64::MAX {
            Some(ProvenError::MathOverflow)
        } else if self.factory.challenge_count == u64::MAX {
            Some(ProvenError::MathOverflow)
        } else {
            None
        }
    }

    /// The new challenge: its terms as given, nobody in it, nothing computed.
    pub open spec fn created(
        self,
        challenge_id: String,
        stake_amount: u64,
        total_days: u32,
        start_ts: i64,
    ) -> ChallengeEscrow {
        ChallengeEscrow {
            challenge_id,
            factory: self.factory_key,
            creator: self.creator,
            token_mint: self.token_mint,
            escrow_vault: self.escrow_vault,
            stake_amount,
            total_days,
            threshold_bps: WIN_THRESHOLD_BPS,
            status: ChallengeStatus::Created,
            start_ts,
            end_ts: self.end_ts(total_days, start_ts) as i64,
            participant_count: 0,
            active_participants: 0,
            winner_count: 0,
            loser_count: 0,
            bonus_per_winner: 0,
            forfeited_amount: 0,
            remainder: 0,
            payouts_claimed_count: 0,
            remainder_claimed: 0,
            bump: self.bump,
        }
    }

    /// The records after the creation: the registry has counted one more.
    pub open spec fn counted(self) -> CreateChallenge {
        CreateChallenge {
            factory: EscrowFactory {
                challenge_count: (self.factory.challenge_count + 1) as u64,
                ..self.factory
            },
            ..self
        }
    }

    /// What the creation reports.
    pub open spec fn event(self, stake_amount: u64, total_days: u32, start_ts: i64)
        -> ChallengeCreated {
        ChallengeCreated {
            challenge_id: self.challenge_key,
            factory: self.factory_key,
            creator: self.creator,
            stake_amount,
            total_days,
            start_ts,
            threshold_bps: WIN_THRESHOLD_BPS,
        }
    }
}

/// Creates a challenge under the registry.
///
/// The stake and the number of days are positive, the start lies after `now`,
/// the identifier is not empty and takes at most
/// `ChallengeEscrow::MAX_ID_LENGTH` bytes, and the registry's day has a positive
/// length. The challenge ends `total_days` days after it starts; that moment
/// is fixed here for good.
pub fn create_challenge(
    ctx: &mut CreateChallenge,
    challenge_id: String,
    stake_amount: u64,
    total_days: u32,
    start_ts: i64,
    now: i64,
) -> (result: Result<(ChallengeEscrow, ChallengeCreated), ProvenError>)
    ensures
        match result {
            Ok((challenge, event)) => {
                &&& old(ctx).refusal(challenge_id@, stake_amount, total_days, start_ts, now)
                    is None
                &&& challenge == old(ctx).created(challenge_id, stake_amount, total_days, start_ts)
                &&& challenge.end_ts == start_ts + total_days * old(
                    ctx,
                ).factory.day_length_seconds
                &&& challenge.wf()
                &&& *final(ctx) == old(ctx).counted()
                &&& event == old(ctx).event(stake_amount, total_days, start_ts)
            },
            Err(error) => {
                &&& old(ctx).refusal(challenge_id@, stake_amount, total_days, start_ts, now)
                    == Some(error)
                &&& *final(ctx) == *old(ctx)
            },
        },
        old(ctx).factory.wf() ==> final(ctx).factory.wf(),
{
    if stake_amount == 0 {
        return Err(ProvenError::InvalidAmount);
    }
    if total_days == 0 {
        return Err(ProvenError::InvalidDuration);
    }
    if start_ts <= now {
        return Err(ProvenError::InvalidStartTime);
    }
    if challenge_id.as_str().is_empty() {
        return Err(ProvenError::ChallengeIdEmpty);
    }
    if challenge_id.as_str().as_bytes().len() > ChallengeEscrow::MAX_ID_LENGTH {
        return Err(ProvenError::ChallengeIdTooLong);
    }
    let day_length: i64 = ctx.factory.day_length_seconds;
    if day_length <= 0 {
        return Err(ProvenError::InvalidDayLength);
    }
    assert(0 < total_days * day_length <= 0xffff_ffff * 0x7fff_ffff_ffff_ffff)
        by (nonlinear_arith)
        requires
            0 < total_days <= 0xffff_ffff,
            0 < day_length <= 0x7fff_ffff_ffff_ffff,
    ;
    let duration: i128 = (total_days as i128) * (day_length as i128);
    let end: i128 = (start_ts as i128) + duration;
    if end > i64::MAX as i128 {
        return Err(ProvenError::MathOverflow);
    }
    let challenge_count: u64 = match ctx.factory.challenge_count.checked_add(1) {
        Some(count) => count,
        None => {
            return Err(ProvenError::MathOverflow);
        },
    };
    let challenge = ChallengeEscrow {
        challenge_id,
        factory: ctx.factory_key,
        creator: ctx.creator,
        token_mint: ctx.token_mint,
        escrow_vault: ctx.escrow_vault,
        stake_amount,
        total_days,
        threshold_bps: WIN_THRESHOLD_BPS,
        status: ChallengeStatus::Created,
        start_ts,
        end_ts: end as i64,
        participant_count: 0,
        active_participants: 0,
        winner_count: 0,
        loser_count: 0,
        bonus_per_winner: 0,
        forfeited_amount: 0,
        remainder: 0,
        payouts_claimed_count: 0,
        remainder_claimed: 0,
        bump: ctx.bump,
    };
    let event = ChallengeCreated {
        challenge_id: ctx.challenge_key,
        factory: ctx.factory_key,
        creator: ctx.creator,
        stake_amount,
        total_days,
        start_ts,
        threshold_bps: WIN_THRESHOLD_BPS,
    };
    ctx.factory.challenge_count = challenge_count;
    Ok((challenge, event))
}

/// What joining a challenge reads and changes.
#[derive(Clone, Debug, PartialEq, Eq)]
pub struct JoinChallenge {
    /// Who joins.
    pub user: Pubkey,
    /// Address of the challenge record.
    pub challenge_key: Pubkey,
    /// The challenge.
    pub challenge: ChallengeEscrow,
    /// Bump seed of the participant record's address.
    pub bump: u8,
}

impl JoinChallenge {
    /// Why joining is refused, if it is.
    pub open spec fn refusal(self, challenge_id: Seq<char>, now: i64) -> Option<ProvenError> {
        if self.challenge.challenge_id@ != challenge_id {
            Some(ProvenError::ChallengeIdMismatch)
        } else if self.challenge.status != ChallengeStatus::Created {
            Some(ProvenError::InvalidChallengeStatus)
        } else if now >= self.challenge.start_ts {
            Some(ProvenError::ChallengeStarted)
        } else if self.challenge.participant_count == u32::MAX {
            Some(ProvenError::MathOverflow)
        } else if self.challenge.active_participants == u32::MAX {
            Some(ProvenError::MathOverflow)
        } else {
            None
        }
    }

    /// The record of the one who joins: the challenge's stake deposited, no
    /// proof, not classified, nothing claimed.
    pub open spec fn participant(self) -> Participant {
        Participant {
            user: self.user,
            challenge: self.challenge_key,
            joined: true,
            stake_deposited: self.challenge.stake_amount,
            proof_days: 0,
            is_winner: false,
            is_settled: false,
            payout_claimed: false,
            refund_claimed: false,
            bump: self.bump,
        }
    }

    /// The records after joining: one more participant, one more record.
    pub open spec fn joined(self) -> JoinChallenge {
        JoinChallenge {
            challenge: ChallengeEscrow {
                participant_count: (self.challenge.participant_count + 1) as u32,
                active_participants: (self.challenge.active_participants + 1) as u32,
                ..self.challenge
            },
            ..self
        }
    }

    /// What joining reports.
    pub open spec fn event(self) -> ChallengeJoined {
        ChallengeJoined {
            challenge_id: self.challenge_key,
            user: self.user,
            stake_amount: self.challenge.stake_amount,
            participant_count: (self.challenge.participant_count + 1) as u32,
        }
    }
}

/// Joins a challenge that has not started.
///
/// Legal while the challenge is in status `Created` and `now` lies before its
/// start. The event gives the stake to move from the user into custody; the
/// new participant record has that stake as its deposit.
pub fn join_challenge(ctx: &mut JoinChallenge, challenge_id: String, now: i64) -> (result: Result<
    (Participant, ChallengeJoined),
    ProvenError,
>)
    ensures
        match result {
            Ok((participant, event)) => {
                &&& old(ctx).refusal(challenge_id@, now) is None
                &&& participant == old(ctx).participant()
                &&& participant.wf()
                &&& *final(ctx) == old(ctx).joined()
                &&& event == old(ctx).event()
            },
            Err(error) => {
                &&& old(ctx).refusal(challenge_id@, now) == Some(error)
                &&& *final(ctx) == *old(ctx)
            },
        },
        old(ctx).challenge.status.may_become(final(ctx).challenge.status),
        old(ctx).challenge.wf() ==> final(ctx).challenge.wf(),
{
    if ctx.challenge.challenge_id != challenge_id {
        return Err(ProvenError::ChallengeIdMismatch);
    }
    if ctx.challenge.status != ChallengeStatus::Created {
        return Err(ProvenError::InvalidChallengeStatus);
    }
    if now >= ctx.challenge.start_ts {
        return Err(ProvenError::ChallengeStarted);
    }
    let participant_count: u32 = match ctx.challenge.participant_count.checked_add(1) {
        Some(count) => count,
        None => {
            return Err(ProvenError::MathOverflow);
        },
    };
    let active_participants: u32 = match ctx.challenge.active_participants.checked_add(1) {
        Some(count) => count,
        None => {
            return Err(ProvenError::MathOverflow);
        },
    };
    let participant = Participant {
        user: ctx.user,
        challenge: ctx.challenge_key,
        joined: true,
        stake_deposited: ctx.challenge.stake_amount,
        proof_days: 0,
        is_winner: false,
        is_settled: false,
        payout_claimed: false,
        refund_claimed: false,
        bump: ctx.bump,
    };
    let event = ChallengeJoined {
        challenge_id: ctx.challenge_key,
        user: ctx.user,
        stake_amount: ctx.challenge.stake_amount,
        participant_count,
    };
    ctx.challenge.participant_count = participant_count;
    ctx.challenge.active_participants = active_participants;
    Ok((participant, event))
}

/// What the recording of a proof reads and changes.
#[derive(Clone, Debug, PartialEq, Eq)]
pub struct RecordProof {
    /// Who records the proof.
    pub oracle: Pubkey,
    /// The registry, which names the oracle.
    pub factory: EscrowFactory,
    /// Address of the challenge record.
    pub challenge_key: Pubkey,
    /// The challenge.
    pub challenge: ChallengeEscrow,
    /// The participant whose proof it is.
    pub participant: Participant,
}

impl RecordProof {
    /// Why the proof is refused, if it is.
    pub open spec fn refusal(self, challenge_id: Seq<char>, now: i64) -> Option<ProvenError> {
        if self.challenge.challenge_id@ != challenge_id {
            Some(ProvenError::ChallengeIdMismatch)
        } else if !(self.challenge.status is Created || self.challenge.status is Started) {
            Some(ProvenError::InvalidChallengeStatus)
        } else if now < self.challenge.start_ts {
            Some(ProvenError::ChallengeNotStarted)
        } else if now > self.challenge.end_ts {
            Some(ProvenError::ChallengeEnded)
        } else if !self.participant.joined {
            Some(ProvenError::NotJoined)
        } else if self.oracle != self.factory.oracle {
            Some(ProvenError::InvalidOracle)
        } else if self.participant.proof_days >= self.challenge.total_days {
            Some(ProvenError::MaxProofsReached)
        } else {
            None
        }
    }

    /// The records after the proof: the participant has one more, and the
    /// challenge has started.
    pub open spec fn recorded(self) -> RecordProof {
        RecordProof {
            challenge: ChallengeEscrow { status: ChallengeStatus::Started, ..self.challenge },
            participant: Participant {
                proof_days: (self.participant.proof_days + 1) as u32,
                ..self.participant
            },
            ..self
        }
    }

    /// What the recording reports.
    pub open spec fn event(self) -> ProofRecorded {
        ProofRecorded {
            challenge_id: self.challenge_key,
            user: self.participant.user,
            proof_days: (self.participant.proof_days + 1) as u32,
            total_required: spec_required_days(
                self.challenge.total_days,
                self.challenge.threshold_bps,
            ),
        }
    }
}

/// Records one daily proof of a participant.
///
/// Legal for the registry's oracle, while the challenge is in status `Created`
/// or `Started` and `now` lies between its start and its end, both included,
/// for someone who joined and has fewer proofs than the challenge has days.
/// The first proof recorded in a challenge moves it to `Started`.
pub fn record_proof(ctx: &mut RecordProof, challenge_id: String, now: i64) -> (result: Result<
    ProofRecorded,
    ProvenError,
>)
    ensures
        match result {
            Ok(event) => {
                &&& old(ctx).refusal(challenge_id@, now) is None
                &&& *final(ctx) == old(ctx).recorded()
                &&& final(ctx).participant.proof_days == old(ctx).participant.proof_days + 1
                &&& final(ctx).participant.proof_days <= old(ctx).challenge.total_days
                &&& event == old(ctx).event()
            },
            Err(error) => {
                &&& old(ctx).refusal(challenge_id@, now) == Some(error)
                &&& *final(ctx) == *old(ctx)
            },
        },
        old(ctx).challenge.status.may_become(final(ctx).challenge.status),
        old(ctx).challenge.wf() ==> final(ctx).challenge.wf(),
        old(ctx).participant.wf() ==> final(ctx).participant.wf(),
{
    if ctx.challenge.challenge_id != challenge_id {
        return Err(ProvenError::ChallengeIdMismatch);
    }
    if ctx.challenge.status != ChallengeStatus::Created && ctx.challenge.status
        != ChallengeStatus::Started {
        return Err(ProvenError::InvalidChallengeStatus);
    }
    if now < ctx.challenge.start_ts {
        return Err(ProvenError::ChallengeNotStarted);
    }
    if now > ctx.challenge.end_ts {
        return Err(ProvenError::ChallengeEnded);
    }
    if !ctx.participant.joined {
        return Err(ProvenError::NotJoined);
    }
    if ctx.oracle != ctx.factory.oracle {
        return Err(ProvenError::InvalidOracle);
    }
    if ctx.participant.proof_days >= ctx.challenge.total_days {
        return Err(ProvenError::MaxProofsReached);
    }
    ctx.challenge.status = ChallengeStatus::Started;
    ctx.participant.proof_days = ctx.participant.proof_days + 1;
    Ok(
        ProofRecorded {
            challenge_id: ctx.challenge_key,
            user: ctx.participant.user,
            proof_days: ctx.participant.proof_days,
            total_required: required_days(ctx.challenge.total_days, ctx.challenge.threshold_bps),
        },
    )
}

/// What the ending of a challenge reads and changes.
#[derive(Clone, Debug, PartialEq, Eq)]
pub struct SettleChallenge {
    /// Who ends the challenge.
    pub oracle: Pubkey,
    /// The registry, which names the oracle.
    pub factory: EscrowFactory,
    /// Address of the challenge record.
    pub challenge_key: Pubkey,
    /// The challenge.
    pub challenge: ChallengeEscrow,
}

impl SettleChallenge {
    /// Why the ending is refused, if it is.
    pub open spec fn refusal(self, challenge_id: Seq<char>, now: i64) -> Option<ProvenError> {
        if self.challenge.challenge_id@ != challenge_id {
            Some(ProvenError::ChallengeIdMismatch)
        } else if !(self.challenge.status is Created || self.challenge.status is Started) {
            Some(ProvenError::InvalidChallengeStatus)
        } else if now <= self.challenge.end_ts {
            Some(ProvenError::ChallengeNotEnded)
        } else if self.oracle != self.factory.oracle {
            Some(ProvenError::InvalidOracle)
        } else {
            None
        }
    }

    /// The records after the ending.
    pub open spec fn ended(self) -> SettleChallenge {
        SettleChallenge {
            challenge: ChallengeEscrow { status: ChallengeStatus::Ended, ..self.challenge },
            ..self
        }
    }

    /// What the ending reports.
    pub open spec fn event(self) -> ChallengeSettlementStarted {
        ChallengeSettlementStarted {
            challenge_id: self.challenge_key,
            required_days: spec_required_days(
                self.challenge.total_days,
                self.challenge.threshold_bps,
            ),
            participant_count: self.challenge.participant_count,
        }
    }
}

/// Ends a challenge, so that its participants can be classified.
///
/// Legal for the registry's oracle, while the challenge is in status `Created`
/// or `Started`, once `now` lies after its end.
pub fn settle_challenge(ctx: &mut SettleChallenge, challenge_id: String, now: i64) -> (result:
    Result<ChallengeSettlementStarted, ProvenError>)
    ensures
        match result {
            Ok(event) => {
                &&& old(ctx).refusal(challenge_id@, now) is None
                &&& *final(ctx) == old(ctx).ended()
                &&& event == old(ctx).event()
            },
            Err(error) => {
                &&& old(ctx).refusal(challenge_id@, now) == Some(error)
                &&& *final(ctx) == *old(ctx)
            },
        },
        old(ctx).challenge.status.may_become(final(ctx).challenge.status),
        old(ctx).challenge.wf() ==> final(ctx).challenge.wf(),
{
    if ctx.challenge.challenge_id != challenge_id {
        return Err(ProvenError::ChallengeIdMismatch);
    }
    if ctx.challenge.status != ChallengeStatus::Created && ctx.challenge.status
        != ChallengeStatus::Started {
        return Err(ProvenError::InvalidChallengeStatus);
    }
    if now <= ctx.challenge.end_ts {
        return Err(ProvenError::ChallengeNotEnded);
    }
    if ctx.oracle != ctx.factory.oracle {
        return Err(ProvenError::InvalidOracle);
    }
    ctx.challenge.status = ChallengeStatus::Ended;
    Ok(
        ChallengeSettlementStarted {
            challenge_id: ctx.challenge_key,
            required_days: required_days(ctx.challenge.total_days, ctx.challenge.threshold_bps),
            participant_count: ctx.challenge.participant_count,
        },
    )
}

/// What the cancelling of a challenge reads and changes.
#[derive(Clone, Debug, PartialEq, Eq)]
pub struct CancelChallenge {
    /// Who cancels.
    pub creator: Pubkey,
    /// Address of the challenge record.
    pub challenge_key: Pubkey,
    /// The challenge.
    pub challenge: ChallengeEscrow,
}

impl CancelChallenge {
    /// Why the cancelling is refused, if it is.
    pub open spec fn refusal(self, challenge_id: Seq<char>, now: i64) -> Option<ProvenError> {
        if self.challenge.challenge_id@ != challenge_id {
            Some(ProvenError::ChallengeIdMismatch)
        } else if self.challenge.creator != self.creator {
            Some(ProvenError::Unauthorized)
        } else if self.challenge.status != ChallengeStatus::Created {
            Some(ProvenError::InvalidChallengeStatus)
        } else if now >= self.challenge.start_ts {
            Some(ProvenError::ChallengeStarted)
        } else {
            None
        }
    }

    /// The records after the cancelling.
    pub open spec fn cancelled(self) -> CancelChallenge {
        CancelChallenge {
            challenge: ChallengeEscrow { status: ChallengeStatus::Cancelled, ..self.challenge },
            ..self
        }
    }

    /// What the cancelling reports.
    pub open spec fn event(self) -> ChallengeCancelled {
        ChallengeCancelled {
            challenge_id: self.challenge_key,
            creator: self.challenge.creator,
            participant_count: self.challenge.participant_count,
        }
    }
}

/// Calls a challenge off before it starts, so that stakes can be claimed back.
///
/// Legal for the challenge's creator, while the challenge is in status
/// `Created` and `now` lies before its start.
pub fn cancel_challenge(ctx: &mut CancelChallenge, challenge_id: String, now: i64) -> (result:
    Result<ChallengeCancelled, ProvenError>)
    ensures
        match result {
            Ok(event) => {
                &&& old(ctx).refusal(challenge_id@, now) is None
                &&& *final(ctx) == old(ctx).cancelled()
                &&& event == old(ctx).event()
            },
            Err(error) => {
                &&& old(ctx).refusal(challenge_id@, now) == Some(error)
                &&& *final(ctx) == *old(ctx)
            },
        },
        old(ctx).challenge.status.may_become(final(ctx).challenge.status),
        old(ctx).challenge.wf() ==> final(ctx).challenge.wf(),
{
    if ctx.challenge.challenge_id != challenge_id {
        return Err(ProvenError::ChallengeIdMismatch);
    }
    if ctx.challenge.creator != ctx.creator {
        return Err(ProvenError::Unauthorized);
    }
    if ctx.challenge.status != ChallengeStatus::Created {
        return Err(ProvenError::InvalidChallengeStatus);
    }
    if now >= ctx.challenge.start_ts {
        return Err(ProvenError::ChallengeStarted);
    }
    ctx.challenge.status = ChallengeStatus::Cancelled;
    Ok(
        ChallengeCancelled {
            challenge_id: ctx.challenge_key,
            creator: ctx.challenge.creator,
            participant_count: ctx.challenge.participant_count,
        },
    )
}

} // verus!

//! The reasons for which an operation is refused.

use vstd::prelude::*;

verus! {

/// Why an operation was refused. A refused operation changes nothing.
#[derive(Clone, Copy, Debug, PartialEq, Eq, Structural, Hash)]
pub enum ProvenError {
    /// A stake amount of zero.
    InvalidAmount,
    /// A duration of zero days.
    InvalidDuration,
    /// A start time that is not in the future.
    InvalidStartTime,
    /// A day length that is not positive.
    InvalidDayLength,
    /// An empty challenge identifier.
    ChallengeIdEmpty,
    /// A challenge identifier longer than the record has room for.
    ChallengeIdTooLong,
    /// The identifier given does not name the challenge record given.
    ChallengeIdMismatch,
    /// The challenge is not in a status in which the operation is legal.
    InvalidChallengeStatus,
    /// The start time has been reached.
    ChallengeStarted,
    /// The start time has not been reached.
    ChallengeNotStarted,
    /// The end time has passed.
    ChallengeEnded,
    /// The participant record is not that of someone who joined.
    NotJoined,
    /// The caller is not the registry's oracle.
    InvalidOracle,
    /// The end time has not passed.
    ChallengeNotEnded,
    /// The participant has been classified before.
    AlreadySettled,
    /// Not every participant has been classified.
    SettlementIncomplete,
    /// The challenge is not settled.
    ChallengeNotSettled,
    /// The participant lost.
    NotWinner,
    /// The participant has been paid.
    PayoutAlreadyClaimed,
    /// The caller is not the identity the operation is reserved for.
    Unauthorized,
    /// The challenge is not cancelled.
    NotCancelled,
    /// The participant has been refunded.
    AlreadyClaimed,
    /// The participant has not been classified.
    NotSettled,
    /// A count or an amount would leave its integer type.
    MathOverflow,
    /// The challenge is neither settled nor cancelled.
    ChallengeStillActive,
    /// Some winner has not been paid.
    PendingWinnerPayouts,
    /// As many payouts were made as there are winners.
    AllPayoutsClaimed,
    /// Some unit of the remainder has not been handed out.
    PendingRemainderDistribution,
    /// Some participant record has not been reclaimed.
    ParticipantsRemaining,
    /// The winner has not been paid.
    PayoutNotClaimed,
    /// The participant has not been refunded.
    RefundNotClaimed,
    /// There are winners, so nothing is forfeited.
    HasWinners,
    /// Nothing is forfeited, or it has been claimed.
    NoForfeitedStakes,
    /// The treasury has not claimed the forfeited stakes.
    ForfeitedStakesUnclaimed,
    /// The participant has one proof for every day.
    MaxProofsReached,
    /// The custody account still holds funds.
    EscrowNotEmpty,
}

impl ProvenError {
    /// The text that describes the error to a person.
    pub open spec fn spec_message(self) -> Seq<char> {
        match self {
            ProvenError::InvalidAmount => "Invalid amount"@,
            ProvenError::InvalidDuration => "Invalid duration"@,
            ProvenError::InvalidStartTime => "Invalid start time"@,
            ProvenError::InvalidDayLength => "Invalid day length"@,
            ProvenError::ChallengeIdEmpty => "Challenge ID cannot be empty"@,
            ProvenError::ChallengeIdTooLong => "Challenge ID too long"@,
            ProvenError::ChallengeIdMismatch => "Challenge ID mismatch"@,
            ProvenError::InvalidChallengeStatus => "Invalid challenge status"@,
            ProvenError::ChallengeStarted => "Challenge already started"@,
            ProvenError::ChallengeNotStarted => "Challenge not started yet"@,
            ProvenError::ChallengeEnded => "Challenge has ended"@,
            ProvenError::NotJoined => "User not joined"@,
            ProvenError::InvalidOracle => "Invalid oracle"@,
            ProvenError::ChallengeNotEnded => "Challenge not ended yet"@,
            ProvenError::AlreadySettled => "Participant already settled"@,
            ProvenError::SettlementIncomplete => "Settlement incomplete"@,
            ProvenError::ChallengeNotSettled => "Challenge not settled"@,
            ProvenError::NotWinner => "User is not a winner"@,
            ProvenError::PayoutAlreadyClaimed => "Payout already claimed"@,
            ProvenError::Unauthorized => "Unauthorized action"@,
            ProvenError::NotCancelled => "Challenge is not cancelled"@,
            ProvenError::AlreadyClaimed => "Already claimed refund"@,
            ProvenError::NotSettled => "Participant not settled yet"@,
            ProvenError::MathOverflow => "Math overflow"@,
            ProvenError::ChallengeStillActive => "Challenge still active"@,
            ProvenError::PendingWinnerPayouts => "Winner payouts still pending"@,
            ProvenError::AllPayoutsClaimed => "All winner payouts already claimed"@,
            ProvenError::PendingRemainderDistribution => "Remainder distribution pending"@,
            ProvenError::ParticipantsRemaining => "Active participants remain"@,
            ProvenError::PayoutNotClaimed => "Winner payout not claimed"@,
            ProvenError::RefundNotClaimed => "Refund not claimed"@,
            ProvenError::HasWinners => "Challenge has winners"@,
            ProvenError::NoForfeitedStakes => "No forfeited stakes to claim"@,
            ProvenError::ForfeitedStakesUnclaimed => "Forfeited stakes not yet claimed by treasury"@,
            ProvenError::MaxProofsReached => "Maximum proofs already recorded for this participant"@,
            ProvenError::EscrowNotEmpty => "Escrow vault still has tokens"@,
        }
    }

    /// The text that describes the error to a person.
    pub fn message(&self) -> (text: &'static str)
        ensures
            text@ == self.spec_message(),
    {
        match self {
            ProvenError::InvalidAmount => "Invalid amount",
            ProvenError::InvalidDuration => "Invalid duration",
            ProvenError::InvalidStartTime => "Invalid start time",
            ProvenError::InvalidDayLength => "Invalid day length",
            ProvenError::ChallengeIdEmpty => "Challenge ID cannot be empty",
            ProvenError::ChallengeIdTooLong => "Challenge ID too long",
            ProvenError::ChallengeIdMismatch => "Challenge ID mismatch",
            ProvenError::InvalidChallengeStatus => "Invalid challenge status",
            ProvenError::ChallengeStarted => "Challenge already started",
            ProvenError::ChallengeNotStarted => "Challenge not started yet",
            ProvenError::ChallengeEnded => "Challenge has ended",
            ProvenError::NotJoined => "User not joined",
            ProvenError::InvalidOracle => "Invalid oracle",
            ProvenError::ChallengeNotEnded => "Challenge not ended yet",
            ProvenError::AlreadySettled => "Participant already settled",
            ProvenError::SettlementIncomplete => "Settlement incomplete",
            ProvenError::ChallengeNotSettled => "Challenge not settled",
            ProvenError::NotWinner => "User is not a winner",
            ProvenError::PayoutAlreadyClaimed => "Payout already claimed",
            ProvenError::Unauthorized => "Unauthorized action",
            ProvenError::NotCancelled => "Challenge is not cancelled",
            ProvenError::AlreadyClaimed => "Already claimed refund",
            ProvenError::NotSettled => "Participant not settled yet",
            ProvenError::MathOverflow => "Math overflow",
            ProvenError::ChallengeStillActive => "Challenge still active",
            ProvenError::PendingWinnerPayouts => "Winner payouts still pending",
            ProvenError::AllPayoutsClaimed => "All winner payouts already claimed",
            ProvenError::PendingRemainderDistribution => "Remainder distribution pending",
            ProvenError::ParticipantsRemaining => "Active participants remain",
            ProvenError::PayoutNotClaimed => "Winner payout not claimed",
            ProvenError::RefundNotClaimed => "Refund not claimed",
            ProvenError::HasWinners => "Challenge has winners",
            ProvenError::NoForfeitedStakes => "No forfeited stakes to claim",
            ProvenError::ForfeitedStakesUnclaimed => "Forfeited stakes not yet claimed by treasury",
            ProvenError::MaxProofsReached => "Maximum proofs already recorded for this participant",
            ProvenError::EscrowNotEmpty => "Escrow vault still has tokens",
        }
    }
}

} // verus!

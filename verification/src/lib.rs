//! The settlement engine of a time-boxed accountability challenge.
//!
//! Participants lock a stake, prove their activity day by day, and are split
//! into winners and losers when the challenge ends. The losers' stakes are
//! shared out among the winners; where nobody wins, the pool is forfeited to
//! a treasury. All arithmetic is on integers, and every operation either
//! completes or changes nothing.
//!
//! The engine decides; it moves no funds and reads no clock. Each operation
//! takes the records it concerns and the time as plain values, and reports
//! what to move in the event it returns.

pub mod calculator;
pub mod claims;
pub mod errors;
pub mod events;
pub mod keys;
pub mod laws;
pub mod ledger;
pub mod lifecycle;
pub mod reclaim;
pub mod registry;
pub mod settlement;
pub mod state;

pub use calculator::{required_days, split_pool, Split};
pub use claims::{
    claim_forfeited_stakes, claim_payout, claim_refund, ClaimForfeitedStakes, ClaimPayout,
    ClaimRefund,
};
pub use errors::ProvenError;
pub use events::{
    ChallengeCancelled, ChallengeClosed, ChallengeCreated, ChallengeJoined, ChallengeSettled,
    ChallengeSettlementStarted, EscrowVaultClosed, FactoryInitialized, FactoryUpdated,
    ForfeitedStakesClaimed, NoWinnersForfeiture, ParticipantClosed, ParticipantSettled,
    PayoutClaimed, ProofRecorded, RefundClaimed,
};
pub use keys::Pubkey;
pub use lifecycle::{
    cancel_challenge, create_challenge, join_challenge, record_proof, settle_challenge,
    CancelChallenge, CreateChallenge, JoinChallenge, RecordProof, SettleChallenge,
};
pub use reclaim::{
    close_challenge, close_escrow_vault, close_participant, CloseChallenge, CloseEscrowVault,
    CloseParticipant,
};
pub use registry::{initialize_factory, update_factory, InitializeFactory, UpdateFactory};
pub use settlement::{
    finalize_settlement, settle_participant, FinalizeSettlement, SettleParticipant,
};
pub use state::{
    ChallengeEscrow, ChallengeStatus, EscrowFactory, Participant, DEFAULT_DAY_LENGTH_SECONDS,
    WIN_THRESHOLD_BPS,
};

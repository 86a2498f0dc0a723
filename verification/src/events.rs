//! What each operation reports when it succeeds.
//!
//! An event carries the identities concerned and the resulting figures. Where
//! funds are to move, the event gives the amount: the engine decides, the
//! caller moves the funds.

use vstd::prelude::*;
use crate::keys::Pubkey;

verus! {

/// The registry was set up.
#[derive(Clone, Copy, Debug, PartialEq, Eq)]
pub struct FactoryInitialized {
    /// Who may change the registry.
    pub authority: Pubkey,
    /// Who receives forfeited stakes.
    pub treasury: Pubkey,
    /// Who records proofs and drives settlement.
    pub oracle: Pubkey,
}

/// The registry was changed; the identities are those in force from now on.
#[derive(Clone, Copy, Debug, PartialEq, Eq)]
pub struct FactoryUpdated {
    /// Who may change the registry.
    pub authority: Pubkey,
    /// Who receives forfeited stakes.
    pub treasury: Pubkey,
    /// Who records proofs and drives settlement.
    pub oracle: Pubkey,
}

/// A challenge was created.
#[derive(Clone, Copy, Debug, PartialEq, Eq)]
pub struct ChallengeCreated {
    /// Address of the challenge record.
    pub challenge_id: Pubkey,
    /// Address of the registry.
    pub factory: Pubkey,
    /// Who created it.
    pub creator: Pubkey,
    /// What each participant stakes.
    pub stake_amount: u64,
    /// How many days it runs.
    pub total_days: u32,
    /// When it starts.
    pub start_ts: i64,
    /// Share of the days, in basis points, that wins.
    pub threshold_bps: u16,
}

/// Someone joined; the stake is to be moved into custody.
#[derive(Clone, Copy, Debug, PartialEq, Eq)]
pub struct ChallengeJoined {
    /// Address of the challenge record.
    pub challenge_id: Pubkey,
    /// Who joined.
    pub user: Pubkey,
    /// The stake to move from the user into custody.
    pub stake_amount: u64,
    /// How many have joined, this one included.
    pub participant_count: u32,
}

/// A daily proof was recorded.
#[derive(Clone, Copy, Debug, PartialEq, Eq)]
pub struct ProofRecorded {
    /// Address of the challenge record.
    pub challenge_id: Pubkey,
    /// Whose proof it is.
    pub user: Pubkey,
    /// How many proofs the participant now has.
    pub proof_days: u32,
    /// How many proofs win.
    pub total_required: u32,
}

/// The challenge was ended; classification can begin.
#[derive(Clone, Copy, Debug, PartialEq, Eq)]
pub struct ChallengeSettlementStarted {
    /// Address of the challenge record.
    pub challenge_id: Pubkey,
    /// How many proofs win.
    pub required_days: u32,
    /// How many are to be classified.
    pub participant_count: u32,
}

/// A participant was classified.
#[derive(Clone, Copy, Debug, PartialEq, Eq)]
pub struct ParticipantSettled {
    /// Address of the challenge record.
    pub challenge_id: Pubkey,
    /// Who was classified.
    pub user: Pubkey,
    /// Whether as a winner.
    pub is_winner: bool,
    /// How many proofs the participant has.
    pub proof_days: u32,
    /// How many proofs win.
    pub required_days: u32,
}

/// Nobody won: the whole pool is forfeited.
#[derive(Clone, Copy, Debug, PartialEq, Eq)]
pub struct NoWinnersForfeiture {
    /// Address of the challenge record.
    pub challenge_id: Pubkey,
    /// The pool.
    pub forfeited_amount: u64,
    /// How many lost.
    pub loser_count: u32,
}

/// Settlement is final.
#[derive(Clone, Copy, Debug, PartialEq, Eq)]
pub struct ChallengeSettled {
    /// Address of the challenge record.
    pub challenge_id: Pubkey,
    /// How many won.
    pub winner_count: u32,
    /// How many lost.
    pub loser_count: u32,
    /// What each winner receives on top of the own stake.
    pub bonus_per_winner: u64,
    /// What the treasury may claim.
    pub forfeited_amount: u64,
}

/// A winner is to be paid out of custody.
#[derive(Clone, Copy, Debug, PartialEq, Eq)]
pub struct PayoutClaimed {
    /// Address of the challenge record.
    pub challenge_id: Pubkey,
    /// The winner.
    pub user: Pubkey,
    /// The winner's own stake.
    pub stake_returned: u64,
    /// The bonus, with the unit of the remainder if one was granted.
    pub bonus_received: u64,
    /// The amount to move out of custody to the winner.
    pub total_amount: u64,
}

/// The forfeited pool is to be paid out of custody to the treasury.
#[derive(Clone, Copy, Debug, PartialEq, Eq)]
pub struct ForfeitedStakesClaimed {
    /// Address of the challenge record.
    pub challenge_id: Pubkey,
    /// The treasury.
    pub treasury: Pubkey,
    /// The amount to move out of custody to the treasury.
    pub amount: u64,
}

/// The challenge was called off.
#[derive(Clone, Copy, Debug, PartialEq, Eq)]
pub struct ChallengeCancelled {
    /// Address of the challenge record.
    pub challenge_id: Pubkey,
    /// Who called it off.
    pub creator: Pubkey,
    /// How many had joined.
    pub participant_count: u32,
}

/// A stake is to be paid back out of custody.
#[derive(Clone, Copy, Debug, PartialEq, Eq)]
pub struct RefundClaimed {
    /// Address of the challenge record.
    pub challenge_id: Pubkey,
    /// Who is paid back.
    pub user: Pubkey,
    /// The amount to move out of custody to the user.
    pub amount: u64,
}

/// A participant record may be discarded.
#[derive(Clone, Copy, Debug, PartialEq, Eq)]
pub struct ParticipantClosed {
    /// Address of the challenge record.
    pub challenge_id: Pubkey,
    /// Whose record it is.
    pub user: Pubkey,
    /// Who asked.
    pub closed_by: Pubkey,
}

/// The challenge record may be discarded.
#[derive(Clone, Copy, Debug, PartialEq, Eq)]
pub struct ChallengeClosed {
    /// Address of the challenge record.
    pub challenge_id: Pubkey,
    /// Who created it.
    pub creator: Pubkey,
}

/// The empty custody account may be closed.
#[derive(Clone, Copy, Debug, PartialEq, Eq)]
pub struct EscrowVaultClosed {
    /// Address of the challenge record.
    pub challenge_id: Pubkey,
    /// Who created the challenge.
    pub creator: Pubkey,
}

} // verus!

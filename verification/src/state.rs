//! The three kinds of record the engine keeps, and what is true of each at
//! every moment of its life.

use vstd::prelude::*;
use vstd::string::StrSliceExecFns;
use vstd::utf8::encode_utf8;
use crate::keys::Pubkey;

verus! {

/// Share of the days, in basis points, that a participant has to prove to win.
pub const WIN_THRESHOLD_BPS: u16 = 8000;

/// Length of a day in seconds, as a new registry has it.
pub const DEFAULT_DAY_LENGTH_SECONDS: i64 = 86400;

/// Where a challenge stands in its life.
///
/// The only moves are `Created -> Started -> Ended -> Settled`, with
/// `Created -> Ended` for a challenge nobody proved anything in, and
/// `Created -> Cancelled`.
#[derive(Clone, Copy, Debug, PartialEq, Eq, Structural, Hash)]
pub enum ChallengeStatus {
    /// Accepting participants.
    Created,
    /// A first proof has been recorded.
    Started,
    /// Over; participants are being classified.
    Ended,
    /// Classified and computed; payouts can be claimed.
    Settled,
    /// Called off before it started; stakes can be claimed back.
    Cancelled,
}

impl ChallengeStatus {
    /// No status follows a terminal one.
    pub open spec fn is_terminal(self) -> bool {
        self is Settled || self is Cancelled
    }

    /// How far along its life a status is. Every move goes to a higher rank.
    pub open spec fn rank(self) -> nat {
        match self {
            ChallengeStatus::Created => 0,
            ChallengeStatus::Started => 1,
            ChallengeStatus::Ended => 2,
            ChallengeStatus::Settled => 3,
            ChallengeStatus::Cancelled => 3,
        }
    }

    /// Whether a challenge in status `self` may be in status `next` after one
    /// operation: either nothing moved, or one of the five legal moves was made.
    pub open spec fn may_become(self, next: ChallengeStatus) -> bool {
        ||| next == self
        ||| (self is Created && next is Started)
        ||| (self is Created && next is Ended)
        ||| (self is Started && next is Ended)
        ||| (self is Ended && next is Settled)
        ||| (self is Created && next is Cancelled)
    }
}

/// The registry: the one record that names who may do what.
#[derive(Clone, Copy, Debug, PartialEq, Eq)]
pub struct EscrowFactory {
    /// Who may change the registry.
    pub authority: Pubkey,
    /// Who receives forfeited stakes.
    pub treasury: Pubkey,
    /// Who records proofs and drives settlement.
    pub oracle: Pubkey,
    /// How many challenges were created under this registry.
    pub challenge_count: u64,
    /// Length of a day in seconds, used to compute when a challenge ends.
    pub day_length_seconds: i64,
    /// Bump seed of the record's address.
    pub bump: u8,
}

impl EscrowFactory {
    /// Bytes that a stored registry takes.
    pub const LEN: usize = 32 + 32 + 32 + 8 + 8 + 1;

    /// A registry is well formed when its day has a positive length.
    pub open spec fn wf(self) -> bool {
        self.day_length_seconds > 0
    }
}

/// One challenge: its terms, its status, its counters and what settlement
/// computed.
#[derive(Clone, Debug, PartialEq, Eq)]
pub struct ChallengeEscrow {
    /// Identifier, unique under its registry.
    pub challenge_id: String,
    /// Address of the registry it was created under.
    pub factory: Pubkey,
    /// Who created it, and may cancel it.
    pub creator: Pubkey,
    /// The token in which stakes are paid.
    pub token_mint: Pubkey,
    /// The custody account that holds the stakes.
    pub escrow_vault: Pubkey,
    /// What each participant stakes.
    pub stake_amount: u64,
    /// How many days it runs.
    pub total_days: u32,
    /// Share of the days, in basis points, that wins.
    pub threshold_bps: u16,
    /// Where it stands.
    pub status: ChallengeStatus,
    /// When it starts.
    pub start_ts: i64,
    /// When it ends.
    pub end_ts: i64,
    /// How many joined.
    pub participant_count: u32,
    /// How many participant records have not been reclaimed.
    pub active_participants: u32,
    /// How many were classified as winners.
    pub winner_count: u32,
    /// How many were classified as losers.
    pub loser_count: u32,
    /// What each winner receives on top of the own stake.
    pub bonus_per_winner: u64,
    /// What the treasury may claim when nobody won.
    pub forfeited_amount: u64,
    /// What is left of the losers' stakes after the even split.
    pub remainder: u64,
    /// How many winners were paid.
    pub payouts_claimed_count: u32,
    /// How many units of the remainder were handed out.
    pub remainder_claimed: u64,
    /// Bump seed of the record's address.
    pub bump: u8,
}

impl ChallengeEscrow {
    /// Most bytes that a challenge identifier may take.
    pub const MAX_ID_LENGTH: usize = 32;

    /// Bytes that a stored challenge takes, with the longest identifier.
    pub const LEN: usize = 4 + 32 + 32 + 32 + 32 + 32 + 8 + 4 + 2 + 1 + 8 + 8 + 4 + 4 + 4 + 4 + 8
        + 8 + 8 + 4 + 8 + 1;

    /// Bytes that the record takes when stored: four for the length of the
    /// identifier, the identifier, and the fields of fixed size.
    pub open spec fn stored_len(self) -> nat {
        (4 + encode_utf8(self.challenge_id@).len() + 32 + 32 + 32 + 32 + 8 + 4 + 2 + 1 + 8 + 8 + 4
            + 4 + 4 + 4 + 8 + 8 + 8 + 4 + 8 + 1) as nat
    }

    /// A well-formed record fits the room that `LEN` reserves for it.
    pub proof fn lemma_fits_its_room(self)
        requires
            self.wf(),
        ensures
            self.stored_len() <= Self::LEN,
    {
    }

    /// The seeds from which the authority over the custody account is
    /// derived: a fixed tag (the bytes of the word `challenge`), the identifier,
    /// the registry's address and the bump seed. They depend on nothing but the identity of the challenge.
    pub open spec fn spec_signer_seeds(self) -> Seq<Seq<u8>> {
        seq![
            seq![99u8, 104u8, 97u8, 108u8, 108u8, 101u8, 110u8, 103u8, 101u8],
            encode_utf8(self.challenge_id@),
            self.factory@,
            seq![self.bump],
        ]
    }

    /// The seeds from which the authority over the custody account is
    /// derived. Whoever releases funds from custody signs with these; no key
    /// is kept anywhere.
    pub fn signer_seeds(&self) -> (seeds: Vec<Vec<u8>>)
        ensures
            seeds.deep_view() == self.spec_signer_seeds(),
    {
        let tag: Vec<u8> = vec![99u8, 104u8, 97u8, 108u8, 108u8, 101u8, 110u8, 103u8, 101u8];
        let id: Vec<u8> = self.challenge_id.as_str().as_bytes_vec();
        let mut factory: Vec<u8> = Vec::new();
        let mut i: usize = 0;
        while i < 32
            invariant
                i <= 32,
                factory@ == self.factory@.subrange(0, i as int),
            decreases 32 - i,
        {
            factory.push(self.factory.bytes[i]);
            i += 1;
            assert(factory@ =~= self.factory@.subrange(0, i as int));
        }
        assert(factory@ =~= self.factory@);
        let bump: Vec<u8> = vec![self.bump];
        let seeds: Vec<Vec<u8>> = vec![tag, id, factory, bump];
        assert(seeds.deep_view() =~~= self.spec_signer_seeds());
        seeds
    }

    /// The stakes of all who joined.
    pub open spec fn pool(self) -> int {
        self.participant_count * self.stake_amount
    }

    /// The stakes of those who lost.
    pub open spec fn losers_stakes(self) -> int {
        self.loser_count * self.stake_amount
    }

    /// Whether two records have the same terms: what is fixed when a
    /// challenge is created, its end among it.
    pub open spec fn same_terms(self, other: ChallengeEscrow) -> bool {
        &&& self.challenge_id == other.challenge_id
        &&& self.factory == other.factory
        &&& self.creator == other.creator
        &&& self.token_mint == other.token_mint
        &&& self.escrow_vault == other.escrow_vault
        &&& self.stake_amount == other.stake_amount
        &&& self.total_days == other.total_days
        &&& self.threshold_bps == other.threshold_bps
        &&& self.start_ts == other.start_ts
        &&& self.end_ts == other.end_ts
        &&& self.bump == other.bump
    }

    /// The terms, fixed when the challenge is created.
    pub open spec fn terms_wf(self) -> bool {
        &&& self.stake_amount > 0
        &&& self.total_days > 0
        &&& self.threshold_bps == WIN_THRESHOLD_BPS
        &&& self.challenge_id@.len() > 0
        &&& encode_utf8(self.challenge_id@).len() <= Self::MAX_ID_LENGTH
        &&& self.start_ts < self.end_ts
    }

    /// Nothing has been computed or paid: so it is until settlement is final.
    pub open spec fn nothing_computed(self) -> bool {
        &&& self.bonus_per_winner == 0
        &&& self.forfeited_amount == 0
        &&& self.remainder == 0
        &&& self.payouts_claimed_count == 0
        &&& self.remainder_claimed == 0
    }

    /// What settlement has computed is an exact account of the pool: the
    /// classes cover everyone, the bonus and the remainder together are the
    /// losers' stakes, and the remainder went to the first claims.
    pub open spec fn settled_wf(self) -> bool {
        &&& self.winner_count + self.loser_count == self.participant_count
        &&& self.payouts_claimed_count <= self.winner_count
        &&& self.remainder_claimed == if self.payouts_claimed_count <= self.remainder {
            self.payouts_claimed_count as int
        } else {
            self.remainder as int
        }
        &&& if self.winner_count == 0 {
            &&& self.bonus_per_winner == 0
            &&& self.remainder == 0
            &&& (self.forfeited_amount == 0 || self.forfeited_amount == self.pool())
        } else {
            &&& self.forfeited_amount == 0
            &&& self.remainder < self.winner_count
            &&& self.winner_count * self.bonus_per_winner + self.remainder
                == self.losers_stakes()
        }
    }

    /// What holds of a challenge record at every moment of its life.
    pub open spec fn wf(self) -> bool {
        &&& self.terms_wf()
        &&& self.active_participants <= self.participant_count
        &&& match self.status {
            ChallengeStatus::Created | ChallengeStatus::Started | ChallengeStatus::Cancelled => {
                &&& self.winner_count == 0
                &&& self.loser_count == 0
                &&& self.nothing_computed()
            },
            ChallengeStatus::Ended => self.nothing_computed(),
            ChallengeStatus::Settled => self.settled_wf(),
        }
    }

    /// What the custody account still owes once the challenge is settled: the
    /// payouts of the winners not yet paid, and what is forfeited.
    pub open spec fn owed(self) -> int {
        (self.winner_count - self.payouts_claimed_count) * (self.stake_amount
            + self.bonus_per_winner) + (self.remainder - self.remainder_claimed)
            + self.forfeited_amount
    }
}

/// One participant of one challenge.
#[derive(Clone, Copy, Debug, PartialEq, Eq)]
pub struct Participant {
    /// Who it is.
    pub user: Pubkey,
    /// Address of the challenge joined.
    pub challenge: Pubkey,
    /// Set when the record is made by joining.
    pub joined: bool,
    /// The stake paid in.
    pub stake_deposited: u64,
    /// How many daily proofs were recorded.
    pub proof_days: u32,
    /// Whether the participant was classified as a winner.
    pub is_winner: bool,
    /// Whether the participant was classified.
    pub is_settled: bool,
    /// Whether the payout was made.
    pub payout_claimed: bool,
    /// Whether the stake was paid back after a cancellation.
    pub refund_claimed: bool,
    /// Bump seed of the record's address.
    pub bump: u8,
}

impl Participant {
    /// Bytes that a stored participant takes.
    pub const LEN: usize = 32 + 32 + 1 + 8 + 4 + 1 + 1 + 1 + 1 + 1;

    /// Whether a record in state `self` may be in state `later` after any
    /// number of operations: who it is and what was deposited stay, proofs
    /// are only added, and what was classified, paid or refunded stays so.
    pub open spec fn may_become(self, later: Participant) -> bool {
        &&& later.user == self.user
        &&& later.challenge == self.challenge
        &&& later.joined == self.joined
        &&& later.stake_deposited == self.stake_deposited
        &&& later.bump == self.bump
        &&& later.proof_days >= self.proof_days
        &&& self.is_settled ==> later.is_settled && later.is_winner == self.is_winner
        &&& self.payout_claimed ==> later.payout_claimed
        &&& self.refund_claimed ==> later.refund_claimed
    }

    /// What holds of a participant record at every moment of its life: it was
    /// made by joining, only a classified participant is a winner, and only a
    /// winner is paid.
    pub open spec fn wf(self) -> bool {
        &&& self.joined
        &&& self.is_winner ==> self.is_settled
        &&& self.payout_claimed ==> self.is_winner
    }
}

} // verus!

//! The books of one challenge: its record, the records of all who joined,
//! and what its custody account holds.
//!
//! The operations work on single records. Here they are put together: each
//! operation is a step of the ledger, every step keeps the ledger
//! consistent, and in a consistent ledger the custody account holds exactly
//! what is owed.

use vstd::prelude::*;
use crate::calculator::lemma_split_conserves;
use crate::claims::{ClaimForfeitedStakes, ClaimPayout, ClaimRefund};
use crate::laws::{
    lemma_forfeiture_draws_down,
    lemma_payout_draws_down,
    lemma_settlement_owes_the_pool,
};
use crate::lifecycle::{CancelChallenge, JoinChallenge, RecordProof, SettleChallenge};
use crate::reclaim::{CloseChallenge, CloseParticipant};
use crate::settlement::{FinalizeSettlement, SettleParticipant};
use crate::state::{ChallengeEscrow, ChallengeStatus, Participant};

verus! {

/// The record of one who joined, and whether it has been discarded since.
pub struct Entry {
    /// The participant record, as it was last written.
    pub record: Participant,
    /// Whether the record has been discarded.
    pub discarded: bool,
}

/// The books of one challenge.
pub struct Ledger {
    /// The challenge record.
    pub challenge: ChallengeEscrow,
    /// Everyone who joined, in the order of joining.
    pub entries: Seq<Entry>,
    /// What the custody account holds.
    pub vault: int,
}

/// The classes of entries that the challenge record keeps a count of.
pub enum Tally {
    /// Classified as winners.
    Winners,
    /// Classified as losers.
    Losers,
    /// Classified, either way.
    Classified,
    /// Paid out.
    Paid,
    /// Not refunded.
    Unrefunded,
    /// Not discarded.
    Kept,
}

impl Tally {
    /// Whether an entry belongs to the class.
    pub open spec fn holds(self, entry: Entry) -> bool {
        match self {
            Tally::Winners => entry.record.is_settled && entry.record.is_winner,
            Tally::Losers => entry.record.is_settled && !entry.record.is_winner,
            Tally::Classified => entry.record.is_settled,
            Tally::Paid => entry.record.payout_claimed,
            Tally::Unrefunded => !entry.record.refund_claimed,
            Tally::Kept => !entry.discarded,
        }
    }

    /// One for an entry of the class, zero for another.
    pub open spec fn one(self, entry: Entry) -> nat {
        if self.holds(entry) {
            1
        } else {
            0
        }
    }
}

/// How many of the entries belong to a class.
pub open spec fn count(entries: Seq<Entry>, tally: Tally) -> nat
    decreases entries.len(),
{
    if entries.len() == 0 {
        0
    } else {
        count(entries.drop_last(), tally) + tally.one(entries.last())
    }
}

/// Whether an entry fits the challenge it belongs to.
pub open spec fn entry_fits(challenge: ChallengeEscrow, entry: Entry) -> bool {
    let record = entry.record;
    &&& record.wf()
    &&& record.stake_deposited == challenge.stake_amount
    &&& record.proof_days <= challenge.total_days
    &&& match challenge.status {
        ChallengeStatus::Created | ChallengeStatus::Started => {
            &&& !record.is_settled
            &&& !record.payout_claimed
            &&& !record.refund_claimed
            &&& !entry.discarded
        },
        ChallengeStatus::Ended => {
            &&& !record.payout_claimed
            &&& !record.refund_claimed
            &&& !entry.discarded
        },
        ChallengeStatus::Settled => {
            &&& record.is_settled
            &&& !record.refund_claimed
            &&& entry.discarded && record.is_winner ==> record.payout_claimed
        },
        ChallengeStatus::Cancelled => {
            &&& !record.is_settled
            &&& !record.payout_claimed
            &&& entry.discarded ==> record.refund_claimed
        },
    }
}

impl Ledger {
    /// What the custody account owes: the pool until the challenge is
    /// settled or cancelled; after settlement the payouts not yet made and
    /// what is forfeited; after a cancellation the stakes not yet refunded.
    pub open spec fn owed(self) -> int {
        match self.challenge.status {
            ChallengeStatus::Settled => self.challenge.owed(),
            ChallengeStatus::Cancelled => self.challenge.stake_amount * count(
                self.entries,
                Tally::Unrefunded,
            ),
            _ => self.challenge.pool(),
        }
    }

    /// The books agree: the challenge record is well formed, there is one
    /// entry for each who joined and each fits the challenge, the counters of
    /// the challenge record are the numbers of entries in their classes, and
    /// the custody account holds exactly what it owes.
    pub open spec fn consistent(self) -> bool {
        &&& self.challenge.wf()
        &&& self.entries.len() == self.challenge.participant_count
        &&& forall|i: int|
            0 <= i < self.entries.len() ==> entry_fits(self.challenge, #[trigger] self.entries[i])
        &&& count(self.entries, Tally::Kept) == self.challenge.active_participants
        &&& count(self.entries, Tally::Winners) == self.challenge.winner_count
        &&& count(self.entries, Tally::Losers) == self.challenge.loser_count
        &&& self.challenge.status is Settled ==> count(self.entries, Tally::Paid)
            == self.challenge.payouts_claimed_count
        &&& self.vault == self.owed()
    }

    /// The books of a challenge that was just created: nobody in it, nothing
    /// in custody.
    pub open spec fn open(challenge: ChallengeEscrow) -> Ledger {
        Ledger { challenge, entries: Seq::empty(), vault: 0 }
    }

    /// Whether `record` is the record of the entry at `index`, and has not
    /// been discarded.
    pub open spec fn holds_record(self, index: int, record: Participant) -> bool {
        &&& 0 <= index < self.entries.len()
        &&& self.entries[index].record == record
        &&& !self.entries[index].discarded
    }

    /// The books with the record of the entry at `index` replaced.
    pub open spec fn with_record(self, index: int, record: Participant) -> Seq<Entry> {
        self.entries.update(index, Entry { record, discarded: self.entries[index].discarded })
    }

    /// The books after someone joined: a new entry, and the stake in custody.
    pub open spec fn join(self, ctx: JoinChallenge) -> Ledger {
        Ledger {
            challenge: ctx.joined().challenge,
            entries: self.entries.push(Entry { record: ctx.participant(), discarded: false }),
            vault: self.vault + ctx.event().stake_amount,
        }
    }

    /// The books after a proof of the entry at `index` was recorded.
    pub open spec fn record_proof(self, index: int, ctx: RecordProof) -> Ledger {
        Ledger {
            challenge: ctx.recorded().challenge,
            entries: self.with_record(index, ctx.recorded().participant),
            vault: self.vault,
        }
    }

    /// The books after the challenge was ended.
    pub open spec fn end(self, ctx: SettleChallenge) -> Ledger {
        Ledger { challenge: ctx.ended().challenge, ..self }
    }

    /// The books after the challenge was cancelled.
    pub open spec fn cancel(self, ctx: CancelChallenge) -> Ledger {
        Ledger { challenge: ctx.cancelled().challenge, ..self }
    }

    /// The books after the entry at `index` was classified.
    pub open spec fn settle_participant(self, index: int, ctx: SettleParticipant) -> Ledger {
        Ledger {
            challenge: ctx.settled().challenge,
            entries: self.with_record(index, ctx.settled().participant),
            vault: self.vault,
        }
    }

    /// The books after settlement was finalized.
    pub open spec fn finalize(self, ctx: FinalizeSettlement) -> Ledger {
        Ledger { challenge: ctx.finalized().challenge, ..self }
    }

    /// The books after the entry at `index` was paid: the payout has left
    /// custody.
    pub open spec fn pay(self, index: int, ctx: ClaimPayout) -> Ledger {
        Ledger {
            challenge: ctx.paid().challenge,
            entries: self.with_record(index, ctx.paid().participant),
            vault: self.vault - ctx.event().total_amount,
        }
    }

    /// The books after the forfeited pool was claimed: it has left custody.
    pub open spec fn forfeit(self, ctx: ClaimForfeitedStakes) -> Ledger {
        Ledger {
            challenge: ctx.paid().challenge,
            entries: self.entries,
            vault: self.vault - ctx.event().amount,
        }
    }

    /// The books after the entry at `index` was refunded: the stake has left
    /// custody.
    pub open spec fn refund(self, index: int, ctx: ClaimRefund) -> Ledger {
        Ledger {
            challenge: self.challenge,
            entries: self.with_record(index, ctx.paid().participant),
            vault: self.vault - ctx.event().amount,
        }
    }

    /// The books after the record of the entry at `index` was discarded.
    pub open spec fn discard(self, index: int, ctx: CloseParticipant) -> Ledger {
        Ledger {
            challenge: ctx.closed().challenge,
            entries: self.entries.update(
                index,
                Entry { record: self.entries[index].record, discarded: true },
            ),
            vault: self.vault,
        }
    }
}

/// Counting one entry more.
pub proof fn lemma_count_push(entries: Seq<Entry>, entry: Entry, tally: Tally)
    ensures
        count(entries.push(entry), tally) == count(entries, tally) + tally.one(entry),
{
    assert(entries.push(entry).drop_last() =~= entries);
}

/// Counting after one entry was replaced.
pub proof fn lemma_count_update(entries: Seq<Entry>, index: int, entry: Entry, tally: Tally)
    requires
        0 <= index < entries.len(),
    ensures
        count(entries.update(index, entry), tally) == count(entries, tally) - tally.one(
            entries[index],
        ) + tally.one(entry),
    decreases entries.len(),
{
    let updated = entries.update(index, entry);
    if index == entries.len() - 1 {
        assert(updated.drop_last() =~= entries.drop_last());
    } else {
        assert(updated.drop_last() =~= entries.drop_last().update(index, entry));
        lemma_count_update(entries.drop_last(), index, entry, tally);
    }
}

/// A class has at most as many entries as there are; none exactly when no
/// entry belongs to it, and all exactly when every entry does.
pub proof fn lemma_count_bounds(entries: Seq<Entry>, tally: Tally)
    ensures
        count(entries, tally) <= entries.len(),
        count(entries, tally) == 0 <==> forall|i: int|
            0 <= i < entries.len() ==> !tally.holds(#[trigger] entries[i]),
        count(entries, tally) == entries.len() <==> forall|i: int|
            0 <= i < entries.len() ==> tally.holds(#[trigger] entries[i]),
    decreases entries.len(),
{
    if entries.len() > 0 {
        let front = entries.drop_last();
        lemma_count_bounds(front, tally);
        assert forall|i: int| 0 <= i < front.len() implies front[i] == entries[i] by {}
        if count(entries, tally) == 0 {
            assert forall|i: int| 0 <= i < entries.len() implies !tally.holds(
                #[trigger] entries[i],
            ) by {
                if i < front.len() {
                    assert(front[i] == entries[i]);
                }
            }
        }
        if count(entries, tally) == entries.len() {
            assert forall|i: int| 0 <= i < entries.len() implies tally.holds(
                #[trigger] entries[i],
            ) by {
                if i < front.len() {
                    assert(front[i] == entries[i]);
                }
            }
        }
        if forall|i: int| 0 <= i < entries.len() ==> !tally.holds(#[trigger] entries[i]) {
            assert forall|i: int| 0 <= i < front.len() implies !tally.holds(
                #[trigger] front[i],
            ) by {
                assert(front[i] == entries[i]);
            }
            assert(!tally.holds(entries[entries.len() - 1]));
        }
        if forall|i: int| 0 <= i < entries.len() ==> tally.holds(#[trigger] entries[i]) {
            assert forall|i: int| 0 <= i < front.len() implies tally.holds(
                #[trigger] front[i],
            ) by {
                assert(front[i] == entries[i]);
            }
            assert(tally.holds(entries[entries.len() - 1]));
        }
    }
}

/// Winners and losers together are the classified.
pub proof fn lemma_count_classes(entries: Seq<Entry>)
    ensures
        count(entries, Tally::Winners) + count(entries, Tally::Losers) == count(
            entries,
            Tally::Classified,
        ),
    decreases entries.len(),
{
    if entries.len() > 0 {
        lemma_count_classes(entries.drop_last());
    }
}

/// A class that lies within another, and misses one of its entries, has fewer
/// entries.
pub proof fn lemma_count_subclass(entries: Seq<Entry>, inner: Tally, outer: Tally, index: int)
    requires
        forall|i: int|
            0 <= i < entries.len() && inner.holds(#[trigger] entries[i]) ==> outer.holds(
                entries[i],
            ),
        0 <= index < entries.len(),
        outer.holds(entries[index]),
        !inner.holds(entries[index]),
    ensures
        count(entries, inner) < count(entries, outer),
    decreases entries.len(),
{
    let front = entries.drop_last();
    assert forall|i: int| 0 <= i < front.len() && inner.holds(#[trigger] front[i]) implies outer.holds(
        front[i],
    ) by {
        assert(front[i] == entries[i]);
    }
    assert(inner.holds(entries[entries.len() - 1]) ==> outer.holds(entries[entries.len() - 1]));
    if index == entries.len() - 1 {
        lemma_count_within(front, inner, outer);
    } else {
        assert(front[index] == entries[index]);
        lemma_count_subclass(front, inner, outer, index);
    }
}

/// A class that lies within another has at most as many entries.
pub proof fn lemma_count_within(entries: Seq<Entry>, inner: Tally, outer: Tally)
    requires
        forall|i: int|
            0 <= i < entries.len() && inner.holds(#[trigger] entries[i]) ==> outer.holds(
                entries[i],
            ),
    ensures
        count(entries, inner) <= count(entries, outer),
    decreases entries.len(),
{
    if entries.len() > 0 {
        let front = entries.drop_last();
        assert forall|i: int| 0 <= i < front.len() && inner.holds(
            #[trigger] front[i],
        ) implies outer.holds(front[i]) by {
            assert(front[i] == entries[i]);
        }
        assert(inner.holds(entries[entries.len() - 1]) ==> outer.holds(
            entries[entries.len() - 1],
        ));
        lemma_count_within(front, inner, outer);
    }
}

/// Replacing an entry by one that belongs to the same classes changes no
/// count.
proof fn lemma_counts_kept(entries: Seq<Entry>, index: int, entry: Entry)
    requires
        0 <= index < entries.len(),
    ensures
        forall|tally: Tally|
            tally.holds(entry) == tally.holds(entries[index]) ==> #[trigger] count(
                entries.update(index, entry),
                tally,
            ) == count(entries, tally),
{
    assert forall|tally: Tally|
        tally.holds(entry) == tally.holds(entries[index]) implies #[trigger] count(
        entries.update(index, entry),
        tally,
    ) == count(entries, tally) by {
        lemma_count_update(entries, index, entry, tally);
    }
}

/// In consistent books no more participants are classified than joined, and
/// once the challenge is settled all of them are.
pub proof fn lemma_classified_are_participants(ledger: Ledger)
    requires
        ledger.consistent(),
    ensures
        ledger.challenge.winner_count + ledger.challenge.loser_count
            <= ledger.challenge.participant_count,
        ledger.challenge.status is Settled ==> ledger.challenge.winner_count
            + ledger.challenge.loser_count == ledger.challenge.participant_count,
{
    lemma_count_classes(ledger.entries);
    lemma_count_bounds(ledger.entries, Tally::Classified);
}

/// In consistent books the custody account holds what it owes, and that is
/// never less than nothing.
pub proof fn lemma_custody_holds_what_is_owed(ledger: Ledger)
    requires
        ledger.consistent(),
    ensures
        ledger.vault == ledger.owed(),
        ledger.vault >= 0,
{
    let c = ledger.challenge;
    match c.status {
        ChallengeStatus::Settled => {
            assert((c.winner_count - c.payouts_claimed_count) * (c.stake_amount
                + c.bonus_per_winner) >= 0) by (nonlinear_arith)
                requires
                    c.winner_count - c.payouts_claimed_count >= 0,
                    c.stake_amount + c.bonus_per_winner >= 0,
            ;
        },
        ChallengeStatus::Cancelled => {
            assert(c.stake_amount * count(ledger.entries, Tally::Unrefunded) >= 0)
                by (nonlinear_arith);
        },
        _ => {
            assert(c.participant_count * c.stake_amount >= 0) by (nonlinear_arith);
        },
    }
}

/// The books of a new challenge are consistent.
pub proof fn lemma_new_books_are_consistent(challenge: ChallengeEscrow)
    requires
        challenge.wf(),
        challenge.status is Created,
        challenge.participant_count == 0,
        challenge.active_participants == 0,
    ensures
        Ledger::open(challenge).consistent(),
{
    assert(challenge.participant_count * challenge.stake_amount == 0) by (nonlinear_arith)
        requires
            challenge.participant_count == 0,
    ;
}

/// Joining keeps the books consistent.
pub proof fn lemma_join_keeps_books(
    ledger: Ledger,
    ctx: JoinChallenge,
    challenge_id: Seq<char>,
    now: i64,
)
    requires
        ledger.consistent(),
        ctx.challenge == ledger.challenge,
        ctx.refusal(challenge_id, now) is None,
    ensures
        ledger.join(ctx).consistent(),
{
    let after = ledger.join(ctx);
    let entry = Entry { record: ctx.participant(), discarded: false };
    lemma_count_push(ledger.entries, entry, Tally::Kept);
    lemma_count_push(ledger.entries, entry, Tally::Winners);
    lemma_count_push(ledger.entries, entry, Tally::Losers);
    assert forall|i: int| 0 <= i < after.entries.len() implies entry_fits(
        after.challenge,
        #[trigger] after.entries[i],
    ) by {
        if i < ledger.entries.len() {
            assert(after.entries[i] == ledger.entries[i]);
        }
    }
    let n = ledger.challenge.participant_count as int;
    let s = ledger.challenge.stake_amount as int;
    assert((n + 1) * s == n * s + s) by (nonlinear_arith);
}

/// Recording a proof keeps the books consistent.
pub proof fn lemma_record_proof_keeps_books(
    ledger: Ledger,
    index: int,
    ctx: RecordProof,
    challenge_id: Seq<char>,
    now: i64,
)
    requires
        ledger.consistent(),
        ctx.challenge == ledger.challenge,
        ledger.holds_record(index, ctx.participant),
        ctx.refusal(challenge_id, now) is None,
    ensures
        ledger.record_proof(index, ctx).consistent(),
{
    let after = ledger.record_proof(index, ctx);
    lemma_counts_kept(ledger.entries, index, after.entries[index]);
    assert(entry_fits(ledger.challenge, ledger.entries[index]));
    assert forall|i: int| 0 <= i < after.entries.len() implies entry_fits(
        after.challenge,
        #[trigger] after.entries[i],
    ) by {
        if i != index {
            assert(after.entries[i] == ledger.entries[i]);
        }
    }
}

/// Ending the challenge keeps the books consistent.
pub proof fn lemma_end_keeps_books(
    ledger: Ledger,
    ctx: SettleChallenge,
    challenge_id: Seq<char>,
    now: i64,
)
    requires
        ledger.consistent(),
        ctx.challenge == ledger.challenge,
        ctx.refusal(challenge_id, now) is None,
    ensures
        ledger.end(ctx).consistent(),
{
    let after = ledger.end(ctx);
    assert forall|i: int| 0 <= i < after.entries.len() implies entry_fits(
        after.challenge,
        #[trigger] after.entries[i],
    ) by {
        assert(entry_fits(ledger.challenge, ledger.entries[i]));
    }
}

/// Cancelling the challenge keeps the books consistent: every stake in
/// custody is now owed back to the one who paid it.
pub proof fn lemma_cancel_keeps_books(
    ledger: Ledger,
    ctx: CancelChallenge,
    challenge_id: Seq<char>,
    now: i64,
)
    requires
        ledger.consistent(),
        ctx.challenge == ledger.challenge,
        ctx.refusal(challenge_id, now) is None,
    ensures
        ledger.cancel(ctx).consistent(),
{
    let after = ledger.cancel(ctx);
    assert forall|i: int| 0 <= i < after.entries.len() implies entry_fits(
        after.challenge,
        #[trigger] after.entries[i],
    ) && Tally::Unrefunded.holds(after.entries[i]) by {
        assert(entry_fits(ledger.challenge, ledger.entries[i]));
    }
    lemma_count_bounds(after.entries, Tally::Unrefunded);
    let n = ledger.challenge.participant_count as int;
    let s = ledger.challenge.stake_amount as int;
    assert(n * s == s * n) by (nonlinear_arith);
}

/// Classifying a participant keeps the books consistent.
pub proof fn lemma_settle_participant_keeps_books(
    ledger: Ledger,
    index: int,
    ctx: SettleParticipant,
    challenge_id: Seq<char>,
)
    requires
        ledger.consistent(),
        ctx.challenge == ledger.challenge,
        ledger.holds_record(index, ctx.participant),
        ctx.refusal(challenge_id) is None,
    ensures
        ledger.settle_participant(index, ctx).consistent(),
{
    let after = ledger.settle_participant(index, ctx);
    let entry = after.entries[index];
    lemma_counts_kept(ledger.entries, index, entry);
    lemma_count_update(ledger.entries, index, entry, Tally::Winners);
    lemma_count_update(ledger.entries, index, entry, Tally::Losers);
    assert(entry_fits(ledger.challenge, ledger.entries[index]));
    assert forall|i: int| 0 <= i < after.entries.len() implies entry_fits(
        after.challenge,
        #[trigger] after.entries[i],
    ) by {
        if i != index {
            assert(after.entries[i] == ledger.entries[i]);
            assert(entry_fits(ledger.challenge, ledger.entries[i]));
        }
    }
}

/// Finalizing settlement keeps the books consistent: what is owed after it
/// is the pool that custody holds.
pub proof fn lemma_finalize_keeps_books(
    ledger: Ledger,
    ctx: FinalizeSettlement,
    challenge_id: Seq<char>,
)
    requires
        ledger.consistent(),
        ctx.challenge == ledger.challenge,
        ctx.refusal(challenge_id) is None,
    ensures
        ledger.finalize(ctx).consistent(),
{
    let after = ledger.finalize(ctx);
    lemma_settlement_owes_the_pool(ctx, challenge_id);
    lemma_count_classes(ledger.entries);
    lemma_count_bounds(ledger.entries, Tally::Classified);
    assert forall|i: int| 0 <= i < after.entries.len() implies entry_fits(
        after.challenge,
        #[trigger] after.entries[i],
    ) && !Tally::Paid.holds(after.entries[i]) by {
        assert(entry_fits(ledger.challenge, ledger.entries[i]));
        assert(Tally::Classified.holds(ledger.entries[i]));
    }
    lemma_count_bounds(after.entries, Tally::Paid);
    lemma_split_conserves(
        ctx.challenge.winner_count,
        ctx.challenge.loser_count,
        ctx.challenge.stake_amount,
    );
}

/// Paying a winner keeps the books consistent: custody holds the payout, and
/// after it what is left is what is still owed.
pub proof fn lemma_pay_keeps_books(
    ledger: Ledger,
    index: int,
    ctx: ClaimPayout,
    challenge_id: Seq<char>,
)
    requires
        ledger.consistent(),
        ctx.challenge == ledger.challenge,
        ledger.holds_record(index, ctx.participant),
        ctx.refusal(challenge_id) is None,
    ensures
        ctx.event().total_amount <= ledger.vault,
        ledger.pay(index, ctx).consistent(),
{
    let after = ledger.pay(index, ctx);
    let entry = after.entries[index];
    lemma_payout_draws_down(ctx, challenge_id);
    lemma_counts_kept(ledger.entries, index, entry);
    lemma_count_update(ledger.entries, index, entry, Tally::Paid);
    assert(entry_fits(ledger.challenge, ledger.entries[index]));
    assert forall|i: int| 0 <= i < after.entries.len() implies entry_fits(
        after.challenge,
        #[trigger] after.entries[i],
    ) by {
        if i != index {
            assert(after.entries[i] == ledger.entries[i]);
            assert(entry_fits(ledger.challenge, ledger.entries[i]));
        }
    }
}

/// The claim of the forfeited pool keeps the books consistent: it takes all
/// that custody holds.
pub proof fn lemma_forfeit_keeps_books(
    ledger: Ledger,
    ctx: ClaimForfeitedStakes,
    challenge_id: Seq<char>,
)
    requires
        ledger.consistent(),
        ctx.challenge == ledger.challenge,
        ctx.refusal(challenge_id) is None,
    ensures
        ctx.event().amount == ledger.vault,
        ledger.forfeit(ctx).vault == 0,
        ledger.forfeit(ctx).consistent(),
{
    let after = ledger.forfeit(ctx);
    lemma_forfeiture_draws_down(ctx, challenge_id);
    assert forall|i: int| 0 <= i < after.entries.len() implies entry_fits(
        after.challenge,
        #[trigger] after.entries[i],
    ) by {
        assert(entry_fits(ledger.challenge, ledger.entries[i]));
    }
}

/// A refund keeps the books consistent: custody holds the stake, and after it
/// what is left are the stakes of those not yet refunded.
pub proof fn lemma_refund_keeps_books(
    ledger: Ledger,
    index: int,
    ctx: ClaimRefund,
    challenge_id: Seq<char>,
)
    requires
        ledger.consistent(),
        ctx.challenge == ledger.challenge,
        ledger.holds_record(index, ctx.participant),
        ctx.refusal(challenge_id) is None,
    ensures
        ctx.event().amount == ledger.challenge.stake_amount,
        ctx.event().amount <= ledger.vault,
        ledger.refund(index, ctx).consistent(),
{
    let after = ledger.refund(index, ctx);
    let entry = after.entries[index];
    lemma_counts_kept(ledger.entries, index, entry);
    lemma_count_update(ledger.entries, index, entry, Tally::Unrefunded);
    assert(entry_fits(ledger.challenge, ledger.entries[index]));
    assert forall|i: int| 0 <= i < after.entries.len() implies entry_fits(
        after.challenge,
        #[trigger] after.entries[i],
    ) by {
        if i != index {
            assert(after.entries[i] == ledger.entries[i]);
            assert(entry_fits(ledger.challenge, ledger.entries[i]));
        }
    }
    let s = ledger.challenge.stake_amount as int;
    let n = count(ledger.entries, Tally::Unrefunded) as int;
    assert(n >= 1);
    assert(s * (n - 1) == s * n - s) by (nonlinear_arith);
    assert(s * (n - 1) >= 0) by (nonlinear_arith)
        requires
            s >= 0,
            n >= 1,
    ;
}

/// Discarding a participant record keeps the books consistent.
pub proof fn lemma_discard_keeps_books(
    ledger: Ledger,
    index: int,
    ctx: CloseParticipant,
    challenge_id: Seq<char>,
)
    requires
        ledger.consistent(),
        ctx.challenge == ledger.challenge,
        ledger.holds_record(index, ctx.participant),
        ctx.refusal(challenge_id) is None,
    ensures
        ledger.discard(index, ctx).consistent(),
{
    let after = ledger.discard(index, ctx);
    let entry = after.entries[index];
    lemma_counts_kept(ledger.entries, index, entry);
    lemma_count_update(ledger.entries, index, entry, Tally::Kept);
    assert(entry_fits(ledger.challenge, ledger.entries[index]));
    assert forall|i: int| 0 <= i < after.entries.len() implies entry_fits(
        after.challenge,
        #[trigger] after.entries[i],
    ) by {
        if i != index {
            assert(after.entries[i] == ledger.entries[i]);
            assert(entry_fits(ledger.challenge, ledger.entries[i]));
        }
    }
}

/// A challenge record is discarded only once its custody account is drained:
/// where the books are consistent and the discarding is allowed, custody
/// holds nothing.
pub proof fn lemma_discarded_challenge_is_drained(
    ledger: Ledger,
    ctx: CloseChallenge,
    challenge_id: Seq<char>,
)
    requires
        ledger.consistent(),
        ctx.challenge == ledger.challenge,
        ctx.refusal(challenge_id) is None,
    ensures
        ledger.vault == 0,
{
    let c = ledger.challenge;
    if c.status is Settled {
        assert((c.winner_count - c.payouts_claimed_count) * (c.stake_amount
            + c.bonus_per_winner) == 0) by (nonlinear_arith)
            requires
                c.winner_count - c.payouts_claimed_count == 0,
        ;
    } else {
        lemma_count_bounds(ledger.entries, Tally::Kept);
        assert forall|i: int| 0 <= i < ledger.entries.len() implies !Tally::Unrefunded.holds(
            #[trigger] ledger.entries[i],
        ) by {
            assert(entry_fits(c, ledger.entries[i]));
            assert(!Tally::Kept.holds(ledger.entries[i]));
        }
        lemma_count_bounds(ledger.entries, Tally::Unrefunded);
        assert(c.stake_amount * 0 == 0);
    }
}

/// No winner is turned away: in consistent books of a settled challenge,
/// whose custody account holds no more than 64 bits can say, the claim of a
/// winner who has not been paid is accepted. The count of payouts never
/// stands in the way of one who is owed a payout, and the sum paid never
/// leaves 64 bits.
pub proof fn lemma_unpaid_winner_is_paid(ledger: Ledger, index: int, ctx: ClaimPayout)
    requires
        ledger.consistent(),
        ledger.vault <= u64::MAX,
        ledger.challenge.status is Settled,
        ctx.challenge == ledger.challenge,
        ledger.holds_record(index, ctx.participant),
        ctx.participant.is_winner,
        !ctx.participant.payout_claimed,
    ensures
        ctx.refusal(ledger.challenge.challenge_id@) is None,
{
    let c = ledger.challenge;
    assert(entry_fits(c, ledger.entries[index]));
    assert forall|i: int|
        0 <= i < ledger.entries.len() && Tally::Paid.holds(
            #[trigger] ledger.entries[i],
        ) implies Tally::Winners.holds(ledger.entries[i]) by {
        assert(entry_fits(c, ledger.entries[i]));
    }
    lemma_count_subclass(ledger.entries, Tally::Paid, Tally::Winners, index);
    let open = c.winner_count - c.payouts_claimed_count;
    let each = c.stake_amount + c.bonus_per_winner;
    assert(open * each >= each) by (nonlinear_arith)
        requires
            open >= 1,
            each >= 0,
    ;
}

/// Nobody who joined a cancelled challenge is turned away: in consistent
/// books the claim of a participant who has not been refunded is accepted.
pub proof fn lemma_unrefunded_participant_is_refunded(
    ledger: Ledger,
    index: int,
    ctx: ClaimRefund,
)
    requires
        ledger.consistent(),
        ledger.challenge.status is Cancelled,
        ctx.challenge == ledger.challenge,
        ledger.holds_record(index, ctx.participant),
        !ctx.participant.refund_claimed,
    ensures
        ctx.refusal(ledger.challenge.challenge_id@) is None,
{
    assert(entry_fits(ledger.challenge, ledger.entries[index]));
}

} // verus!

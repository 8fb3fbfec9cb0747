//! The laws of the ledger: properties that hold across whole sequences of
//! operations, stated over the same spec functions the operations' own
//! contracts use, and proved once and for all.

use vstd::prelude::*;

use crate::campaign::Campaign;
use crate::engine::{donated_tiers, DonationKind, FundingEngine};
use crate::errors::ErrorCode;
use crate::nullifier::NullifierStore;
use crate::registry::Address;

verus! {

/// *Nullifier single-use.* A donation whose nullifier hash is already spent
/// never passes the checks, so it never succeeds and never changes anything
/// (`donate` leaves both the engine and the campaign untouched on any error).
/// When the checks that run earlier — compliance and proof shape — pass, the
/// failure is exactly `NullifierReused`.
pub proof fn lemma_nullifier_single_use(
    engine: FundingEngine,
    c: Campaign,
    backer: Address,
    amount: u64,
    proof_len: int,
    hash: Seq<u8>,
    kind: DonationKind,
)
    requires
        engine.nullifiers.contains_hash(hash),
    ensures
        engine.donate_error(c, backer, amount, proof_len, hash, kind) is Some,
        !engine.registry@.contains(backer) && proof_len > 64 && hash.len() == 32
            ==> engine.donate_error(c, backer, amount, proof_len, hash, kind) == Some(
            ErrorCode::NullifierReused,
        ),
{
}

/// *Spending is permanent.* A successful donation appends its hash to the
/// nullifier store (`donate`'s postcondition is exactly this push), after
/// which the store contains it, and everything it contained before. No
/// operation ever removes an entry, so with `lemma_nullifier_single_use` no
/// two successful donations ever carry the same hash.
pub proof fn lemma_spend_recorded(pre: NullifierStore, post: NullifierStore, h: Seq<u8>, id: u64)
    requires
        post@ == pre@.push((h, id)),
    ensures
        post.contains_hash(h),
        forall|x: Seq<u8>| pre.contains_hash(x) ==> post.contains_hash(x),
{
    assert(post@[pre@.len() as int].0 == h);
    assert forall|x: Seq<u8>| pre.contains_hash(x) implies post.contains_hash(x) by {
        let i = choose|i: int| 0 <= i < pre@.len() && pre@[i].0 == x;
        assert(post@[i].0 == x);
    }
}

/// One successful funds-moving operation, reduced to its effect on a
/// campaign's pledged amount. These are exactly the effects `donate`,
/// `withdraw` and `refund` ensure of `current_amount` on success.
pub enum LedgerEvent {
    /// A successful `donate` of this amount: the pledged amount grows by it.
    Donated(u64),
    /// A successful `withdraw`: the whole pledged amount is disbursed (the
    /// fee and the owner's share sum exactly to it, by `withdraw_request`'s
    /// postcondition) and the pledged amount resets to zero.
    Withdrawn,
    /// A successful `refund` of this receipt amount: the pledged amount
    /// shrinks by it.
    Refunded(u64),
}

/// The pledged amount after one event.
pub open spec fn apply_event(cur: int, ev: LedgerEvent) -> int {
    match ev {
        LedgerEvent::Donated(a) => cur + a,
        LedgerEvent::Withdrawn => 0,
        LedgerEvent::Refunded(a) => cur - a,
    }
}

/// The pledged amount after a sequence of events.
pub open spec fn run_events(cur: int, evs: Seq<LedgerEvent>) -> int
    decreases evs.len(),
{
    if evs.len() == 0 {
        cur
    } else {
        run_events(apply_event(cur, evs[0]), evs.drop_first())
    }
}

/// Everything donated over the sequence.
pub open spec fn donated_total(evs: Seq<LedgerEvent>) -> int
    decreases evs.len(),
{
    if evs.len() == 0 {
        0
    } else {
        (match evs[0] {
            LedgerEvent::Donated(a) => a as int,
            _ => 0,
        }) + donated_total(evs.drop_first())
    }
}

/// Everything withdrawn over the sequence: each withdraw disburses the whole
/// pledged amount standing at that moment.
pub open spec fn withdrawn_total(cur: int, evs: Seq<LedgerEvent>) -> int
    decreases evs.len(),
{
    if evs.len() == 0 {
        0
    } else {
        (match evs[0] {
            LedgerEvent::Withdrawn => cur,
            _ => 0,
        }) + withdrawn_total(apply_event(cur, evs[0]), evs.drop_first())
    }
}

/// Everything refunded over the sequence.
pub open spec fn refunded_total(evs: Seq<LedgerEvent>) -> int
    decreases evs.len(),
{
    if evs.len() == 0 {
        0
    } else {
        (match evs[0] {
            LedgerEvent::Refunded(a) => a as int,
            _ => 0,
        }) + refunded_total(evs.drop_first())
    }
}

/// *Histories follow the event model.* Take any sequence of campaign states
/// where `amounts[k]` is the pledged amount before the `k`-th successful
/// operation and each step changes it as `apply_event` says — which is
/// exactly what `donate`, `withdraw` and `refund` ensure of `current_amount`.
/// Then the final pledged amount is `run_events` of the initial one, and
/// `lemma_conservation` applies to the real history.
pub proof fn lemma_history_runs_events(amounts: Seq<u64>, evs: Seq<LedgerEvent>)
    requires
        amounts.len() == evs.len() + 1,
        forall|k: int|
            0 <= k < evs.len() ==> amounts[k + 1] == apply_event(amounts[k] as int, #[trigger] evs[k]),
    ensures
        amounts[evs.len() as int] == run_events(amounts[0] as int, evs),
    decreases evs.len(),
{
    if evs.len() != 0 {
        let amounts2 = amounts.drop_first();
        let evs2 = evs.drop_first();
        assert(amounts[1] == apply_event(amounts[0] as int, evs[0]));
        assert forall|k: int|
            0 <= k < evs2.len() implies amounts2[k + 1] == apply_event(
            amounts2[k] as int,
            #[trigger] evs2[k],
        ) by {
            assert(evs2[k] == evs[k + 1]);
            assert(amounts2[k] == amounts[k + 1]);
            assert(amounts2[k + 1] == amounts[k + 2]);
            assert(amounts[k + 2] == apply_event(amounts[k + 1] as int, evs[k + 1]));
        }
        lemma_history_runs_events(amounts2, evs2);
        assert(amounts2[evs2.len() as int] == amounts[evs.len() as int]);
    }
}

/// *Conservation.* After any sequence of successful donate / withdraw /
/// refund operations, the pledged amount equals the starting amount plus
/// everything donated, minus everything withdrawn and refunded — exactly,
/// with no drift. A fresh campaign starts at zero, so its pledged amount is
/// always donations minus disbursements.
pub proof fn lemma_conservation(cur: int, evs: Seq<LedgerEvent>)
    ensures
        run_events(cur, evs) == cur + donated_total(evs) - withdrawn_total(cur, evs)
            - refunded_total(evs),
    decreases evs.len(),
{
    if evs.len() != 0 {
        lemma_conservation(apply_event(cur, evs[0]), evs.drop_first());
    }
}

/// *Tier cap.* A well-formed tier with a finite limit never has more claims
/// than the limit — every operation preserves well-formedness — and a
/// donation claiming an exhausted tier never passes the checks; once the
/// checks that run earlier pass, it fails with exactly `TierSoldOut`, and
/// `donate` then changes nothing. A successful claim raises the count by
/// exactly one and nothing ever lowers it, so a tier with limit `L` is
/// claimed by at most `L` successful donations.
pub proof fn lemma_tier_cap(
    engine: FundingEngine,
    c: Campaign,
    backer: Address,
    amount: u64,
    proof_len: int,
    hash: Seq<u8>,
    idx: u8,
)
    requires
        c.wf(),
        idx < c.tiers@.len(),
        c.tiers@[idx as int].limit > 0,
    ensures
        c.tiers@[idx as int].claimed <= c.tiers@[idx as int].limit,
        c.tiers@[idx as int].claimed == c.tiers@[idx as int].limit ==> engine.donate_error(
            c,
            backer,
            amount,
            proof_len,
            hash,
            DonationKind::Tiered(idx),
        ) is Some,
        c.tiers@[idx as int].claimed == c.tiers@[idx as int].limit && !engine.registry@.contains(
            backer,
        ) && proof_len > 64 && hash.len() == 32 && !engine.nullifiers.contains_hash(hash) && amount
            >= c.tiers@[idx as int].amount ==> engine.donate_error(
            c,
            backer,
            amount,
            proof_len,
            hash,
            DonationKind::Tiered(idx),
        ) == Some(ErrorCode::TierSoldOut),
        engine.donate_error(c, backer, amount, proof_len, hash, DonationKind::Tiered(idx))
            is None ==> c.tiers@[idx as int].claimed < c.tiers@[idx as int].limit && donated_tiers(
            c,
            DonationKind::Tiered(idx),
        )[idx as int].claimed == c.tiers@[idx as int].claimed + 1,
{
    assert(crate::campaign::tier_wf(c.tiers@[idx as int]));
}

/// How many of a sequence of outcomes succeeded.
pub open spec fn count_true(s: Seq<bool>) -> int
    decreases s.len(),
{
    if s.len() == 0 {
        0
    } else {
        (if s[0] {
            1int
        } else {
            0int
        }) + count_true(s.drop_first())
    }
}

/// *Tier cap over a whole history.* Follow one tier with finite limit through
/// any sequence of donations: `counts[k]` is its claim count before the
/// `k`-th donation, `claims[k]` whether that donation successfully claimed
/// it. `donate` ensures exactly the step relation required here: a successful
/// claim needs `claimed < limit` beforehand and raises the count by one, and
/// every other outcome — a failed donation, an untiered or differently-tiered
/// one — leaves it unchanged. So the number of successful claims equals the
/// count's total growth, and a tier created with no claims is claimed by at
/// most `limit` successful donations, ever.
pub proof fn lemma_tier_claims_bounded(counts: Seq<u32>, limit: u32, claims: Seq<bool>)
    requires
        limit > 0,
        counts.len() == claims.len() + 1,
        counts[0] <= limit,
        forall|k: int|
            0 <= k < claims.len() ==> (if claims[k] {
                counts[k] < limit && counts[k + 1] == counts[k] + 1
            } else {
                counts[k + 1] == counts[k]
            }),
    ensures
        count_true(claims) == counts[claims.len() as int] - counts[0],
        counts[claims.len() as int] <= limit,
        count_true(claims) <= limit - counts[0],
    decreases claims.len(),
{
    if claims.len() != 0 {
        let counts2 = counts.drop_first();
        let claims2 = claims.drop_first();
        assert(if claims[0] {
            counts[0] < limit && counts[1] == counts[0] + 1
        } else {
            counts[1] == counts[0]
        });
        assert(counts2[0] <= limit);
        assert forall|k: int|
            0 <= k < claims2.len() implies (if claims2[k] {
            counts2[k] < limit && counts2[k + 1] == counts2[k] + 1
        } else {
            counts2[k + 1] == counts2[k]
        }) by {
            assert(claims2[k] == claims[k + 1]);
            assert(counts2[k] == counts[k + 1]);
            assert(counts2[k + 1] == counts[k + 2]);
            assert(if claims[k + 1] {
                counts[k + 1] < limit && counts[k + 2] == counts[k + 1] + 1
            } else {
                counts[k + 2] == counts[k + 1]
            });
        }
        lemma_tier_claims_bounded(counts2, limit, claims2);
        assert(counts2[claims2.len() as int] == counts[claims.len() as int]);
    }
}

/// *Mutual exclusivity of settlement.* On any one campaign state, `withdraw`
/// and `refund` can never both pass their checks: withdraw demands the target
/// met, refund demands it missed and the deadline passed. The same
/// contributed funds are therefore settled at most one way.
pub proof fn lemma_settlement_exclusive(
    engine: FundingEngine,
    c: Campaign,
    caller: Address,
    treasury: Address,
    backer: Address,
    now: i64,
)
    ensures
        !(engine.withdraw_error(c, caller, treasury) is None && engine.refund_error(
            c,
            backer,
            now,
        ) is None),
        engine.withdraw_error(c, caller, treasury) is None ==> c.current_amount
            >= c.target_amount,
        engine.refund_error(c, backer, now) is None ==> c.current_amount < c.target_amount && now
            > c.deadline,
{
}

/// *Sanction gate.* While an address stands in the registry, every donation
/// from it fails with exactly `SanctionedAddress`, whatever else it carries,
/// and `donate` changes nothing; the moment a matching unsanction removes the
/// address (`unsanction_address`'s postcondition), no donation from it fails
/// that way any more — eligibility is restored.
pub proof fn lemma_sanction_gate(
    engine: FundingEngine,
    c: Campaign,
    backer: Address,
    amount: u64,
    proof_len: int,
    hash: Seq<u8>,
    kind: DonationKind,
)
    ensures
        engine.registry@.contains(backer) ==> engine.donate_error(
            c,
            backer,
            amount,
            proof_len,
            hash,
            kind,
        ) == Some(ErrorCode::SanctionedAddress),
        !engine.registry@.contains(backer) ==> engine.donate_error(
            c,
            backer,
            amount,
            proof_len,
            hash,
            kind,
        ) != Some(ErrorCode::SanctionedAddress),
{
}

} // verus!

//! The campaign state machine: pledge target, deadline, accumulated amount,
//! ordered reward tiers, and the per-backer receipts that gate refunds.

use vstd::prelude::*;
use vstd::string::StrSliceExecFns;

use crate::errors::ErrorCode;
use crate::registry::Address;

verus! {

/// A pledge-amount bracket granting a capped, countable perk. `amount` is the
/// minimum pledge to claim it, `limit` the number of claims (0 = unlimited),
/// `claimed` how many donations have claimed it so far.
pub struct RewardTier {
    pub name: String,
    pub description: String,
    pub amount: u64,
    pub limit: u32,
    pub claimed: u32,
}

/// The receipt of a backer's tiered donations to one campaign. Its existence
/// gates exactly one refund per backer: the refund destroys it.
pub struct Backer {
    pub campaign: u64,
    pub backer: Address,
    pub tier_index: u8,
    pub amount_paid: u64,
}

/// One fundraising campaign. Tiers are appended in order and never reordered
/// or removed, since donations reference them by index.
pub struct Campaign {
    pub id: u64,
    pub owner: Address,
    pub name: String,
    pub description: String,
    pub target_amount: u64,
    pub current_amount: u64,
    pub deadline: i64,
    pub tiers: Vec<RewardTier>,
    pub receipts: Vec<Backer>,
}

/// Within its limits: names and descriptions bounded, and a finite limit is
/// never exceeded by the claim count.
pub open spec fn tier_wf(t: RewardTier) -> bool {
    &&& t.name@.len() <= 50
    &&& t.description@.len() <= 200
    &&& t.limit > 0 ==> t.claimed <= t.limit
}

impl Campaign {
    /// Well-formedness: the bounds of every field, every tier within its
    /// limits, and at most one receipt per backer, all belonging to this
    /// campaign.
    pub open spec fn wf(self) -> bool {
        &&& self.target_amount > 0
        &&& self.name@.len() <= 50
        &&& self.description@.len() <= 280
        &&& self.tiers@.len() <= 10
        &&& forall|i: int| 0 <= i < self.tiers@.len() ==> tier_wf(#[trigger] self.tiers@[i])
        &&& forall|i: int|
            0 <= i < self.receipts@.len() ==> (#[trigger] self.receipts@[i]).campaign == self.id
        &&& forall|i: int, j: int|
            0 <= i < j < self.receipts@.len() ==> self.receipts@[i].backer
                != self.receipts@[j].backer
    }

    /// This backer holds a receipt.
    pub open spec fn has_receipt(self, b: Address) -> bool {
        exists|i: int| 0 <= i < self.receipts@.len() && self.receipts@[i].backer == b
    }

    /// The position of this backer's receipt (meaningful when `has_receipt`;
    /// unique under `wf`).
    pub open spec fn receipt_idx(self, b: Address) -> int {
        choose|i: int| 0 <= i < self.receipts@.len() && self.receipts@[i].backer == b
    }

    /// This backer's receipt (meaningful when `has_receipt`).
    pub open spec fn receipt_of(self, b: Address) -> Backer {
        self.receipts@[self.receipt_idx(b)]
    }

    /// Under `wf`, any position holding a receipt of backer `b` is the
    /// position `receipt_idx` names.
    pub proof fn lemma_receipt_at(self, b: Address, i: int)
        requires
            self.wf(),
            0 <= i < self.receipts@.len(),
            self.receipts@[i].backer == b,
        ensures
            self.has_receipt(b),
            self.receipt_idx(b) == i,
            self.receipt_of(b) == self.receipts@[i],
    {
        assert(self.has_receipt(b));
        let j = self.receipt_idx(b);
        if i < j {
            assert(self.receipts@[i].backer != self.receipts@[j].backer);
        } else if j < i {
            assert(self.receipts@[j].backer != self.receipts@[i].backer);
        }
    }

    /// The position of this backer's receipt in the receipt vector, if any.
    pub fn find_receipt(&self, b: Address) -> (r: Option<usize>)
        ensures
            r is Some <==> self.has_receipt(b),
            r matches Some(i) ==> 0 <= i < self.receipts@.len() && self.receipts@[i as int].backer
                == b,
    {
        let n = self.receipts.len();
        let mut i: usize = 0;
        while i < n
            invariant
                n == self.receipts@.len(),
                0 <= i <= n,
                forall|k: int| 0 <= k < i ==> self.receipts@[k].backer != b,
            decreases n - i,
        {
            if self.receipts[i].backer == b {
                return Some(i);
            }
            i += 1;
        }
        None
    }
}

/// Which check `initialize_campaign` fails on, if any, in the order the
/// checks run: zero target, non-future deadline, then the length bounds.
pub open spec fn initialize_campaign_error(
    name: Seq<char>,
    description: Seq<char>,
    target_amount: u64,
    deadline: i64,
    now: i64,
) -> Option<ErrorCode> {
    if target_amount == 0 {
        Some(ErrorCode::InvalidTarget)
    } else if deadline <= now {
        Some(ErrorCode::InvalidDeadline)
    } else if name.len() > 50 {
        Some(ErrorCode::NameTooLong)
    } else if description.len() > 280 {
        Some(ErrorCode::DescriptionTooLong)
    } else {
        None
    }
}

/// Creates a campaign with nothing pledged yet. `now` is the clock reading at
/// creation; the deadline must lie strictly after it.
pub fn initialize_campaign(
    owner: Address,
    campaign_id: u64,
    name: String,
    description: String,
    target_amount: u64,
    deadline: i64,
    now: i64,
) -> (r: Result<Campaign, ErrorCode>)
    ensures
        match initialize_campaign_error(name@, description@, target_amount, deadline, now) {
            Some(e) => r == Err::<Campaign, ErrorCode>(e),
            None => {
                &&& r is Ok
                &&& r matches Ok(c) ==> {
                    &&& c.id == campaign_id
                    &&& c.owner == owner
                    &&& c.name == name
                    &&& c.description == description
                    &&& c.target_amount == target_amount
                    &&& c.current_amount == 0
                    &&& c.deadline == deadline
                    &&& c.tiers@ == Seq::<RewardTier>::empty()
                    &&& c.receipts@ == Seq::<Backer>::empty()
                    &&& c.wf()
                }
            },
        },
{
    if target_amount == 0 {
        return Err(ErrorCode::InvalidTarget);
    }
    if deadline <= now {
        return Err(ErrorCode::InvalidDeadline);
    }
    if name.as_str().unicode_len() > 50 {
        return Err(ErrorCode::NameTooLong);
    }
    if description.as_str().unicode_len() > 280 {
        return Err(ErrorCode::DescriptionTooLong);
    }
    Ok(
        Campaign {
            id: campaign_id,
            owner,
            name,
            description,
            target_amount,
            current_amount: 0,
            deadline,
            tiers: Vec::new(),
            receipts: Vec::new(),
        },
    )
}

/// Which check `add_reward_tier` fails on, if any: the caller must own the
/// campaign, the tier's texts must fit, and at most 10 tiers may exist.
pub open spec fn add_reward_tier_error(
    c: Campaign,
    caller: Address,
    name: Seq<char>,
    description: Seq<char>,
) -> Option<ErrorCode> {
    if caller != c.owner {
        Some(ErrorCode::Unauthorized)
    } else if name.len() > 50 {
        Some(ErrorCode::NameTooLong)
    } else if description.len() > 200 {
        Some(ErrorCode::DescriptionTooLong)
    } else if c.tiers@.len() >= 10 {
        Some(ErrorCode::TooManyTiers)
    } else {
        None
    }
}

/// Appends a reward tier with no claims yet. The tier's index is its
/// insertion order; later donations reference it by that index, so tiers are
/// never reordered or removed.
pub fn add_reward_tier(
    campaign: &mut Campaign,
    caller: Address,
    name: String,
    description: String,
    amount: u64,
    limit: u32,
) -> (r: Result<(), ErrorCode>)
    requires
        old(campaign).wf(),
    ensures
        final(campaign).wf(),
        match add_reward_tier_error(*old(campaign), caller, name@, description@) {
            Some(e) => r == Err::<(), ErrorCode>(e) && *final(campaign) == *old(campaign),
            None => {
                &&& r is Ok
                &&& final(campaign).tiers@ == old(campaign).tiers@.push(
                    RewardTier { name, description, amount, limit, claimed: 0 },
                )
                &&& final(campaign).receipts@ == old(campaign).receipts@
                &&& final(campaign).id == old(campaign).id
                &&& final(campaign).owner == old(campaign).owner
                &&& final(campaign).name == old(campaign).name
                &&& final(campaign).description == old(campaign).description
                &&& final(campaign).target_amount == old(campaign).target_amount
                &&& final(campaign).current_amount == old(campaign).current_amount
                &&& final(campaign).deadline == old(campaign).deadline
            },
        },
{
    if caller != campaign.owner {
        return Err(ErrorCode::Unauthorized);
    }
    if name.as_str().unicode_len() > 50 {
        return Err(ErrorCode::NameTooLong);
    }
    if description.as_str().unicode_len() > 200 {
        return Err(ErrorCode::DescriptionTooLong);
    }
    if campaign.tiers.len() >= 10 {
        return Err(ErrorCode::TooManyTiers);
    }
    campaign.tiers.push(RewardTier { name, description, amount, limit, claimed: 0 });
    Ok(())
}

} // verus!

//! The funding engine: the orchestrator that composes the compliance
//! registry, the nullifier store, the campaign state machine and the external
//! value-transfer substrate.
//!
//! The substrate itself is out of scope: every operation that needs a
//! transfer first hands back, through its `..._request` companion, the exact
//! movement to perform, and then takes the outcome as an argument. All checks
//! — including the arithmetic limits — run before any transfer is requested
//! and before any mutation, so each operation commits all of its effects or
//! none of them, whatever the substrate does.
//!
//! The engine is the single entry point for mutating operations: the caller
//! admits one at a time per campaign and per nullifier namespace, which is the
//! whole concurrency model.

use vstd::prelude::*;

use crate::campaign::{Backer, Campaign, RewardTier};
use crate::errors::ErrorCode;
use crate::nullifier::NullifierStore;
use crate::registry::{Address, ComplianceRegistry};

verus! {

/// The two disbursements of one settlement: the platform's fee share and the
/// remainder owed to the campaign owner. The two always sum exactly to the
/// amount pledged when the settlement was requested.
#[derive(Clone, Copy, Debug, PartialEq, Eq, Structural)]
pub struct WithdrawPlan {
    pub fee_to_treasury: u64,
    pub to_owner: u64,
}

/// The platform's fee share of `total`: floor division, computed over a wide
/// intermediate so the multiply cannot overflow.
pub open spec fn fee_amount(total: u64, bps: u16) -> int {
    (total * bps) / 10000
}

/// With a fee of at most 10000 basis points, the fee share never exceeds the
/// whole, so the remainder to the owner never underflows.
pub proof fn lemma_fee_bounds(total: u64, bps: u16)
    requires
        bps <= 10000,
    ensures
        0 <= fee_amount(total, bps) <= total,
{
    assert(total * bps >= 0) by (nonlinear_arith);
    vstd::arithmetic::div_mod::lemma_div_is_ordered(0, total as int * bps as int, 10000);
    vstd::arithmetic::mul::lemma_mul_inequality(bps as int, 10000, total as int);
    assert(total as int * bps as int == bps as int * total as int) by (nonlinear_arith);
    vstd::arithmetic::div_mod::lemma_div_is_ordered(
        total as int * bps as int,
        total as int * 10000,
        10000,
    );
    vstd::arithmetic::div_mod::lemma_div_by_multiple(total as int, 10000);
}

/// How a donation relates to the campaign's reward tiers: either it claims
/// none, or it claims the tier at the given index.
#[derive(Clone, Copy, Debug, PartialEq, Eq, Structural)]
pub enum DonationKind {
    Untiered,
    Tiered(u8),
}

/// The movement a donation asks of the external substrate: `amount` from the
/// backer into the escrow of the campaign named by `to_campaign`.
#[derive(Clone, Copy, Debug, PartialEq, Eq, Structural)]
pub struct TransferAction {
    pub from: Address,
    pub to_campaign: u64,
    pub amount: u64,
}

/// Which tier-accounting check a donation fails, if any: the index must name
/// an existing tier, the pledge must reach the tier's minimum, a finite limit
/// must not be exhausted, and neither the claim count nor the backer's
/// cumulative receipt may exceed its numeric range.
pub open spec fn donate_tier_error(
    c: Campaign,
    backer: Address,
    amount: u64,
    kind: DonationKind,
) -> Option<ErrorCode> {
    match kind {
        DonationKind::Untiered => None,
        DonationKind::Tiered(idx) => {
            if idx as int >= c.tiers@.len() {
                Some(ErrorCode::InvalidTierIndex)
            } else {
                let t = c.tiers@[idx as int];
                if amount < t.amount {
                    Some(ErrorCode::InsufficientAmountForTier)
                } else if t.limit > 0 && t.claimed >= t.limit {
                    Some(ErrorCode::TierSoldOut)
                } else if t.claimed == u32::MAX {
                    Some(ErrorCode::ArithmeticOverflow)
                } else if c.has_receipt(backer) && c.receipt_of(backer).amount_paid + amount
                    > u64::MAX {
                    Some(ErrorCode::ArithmeticOverflow)
                } else {
                    None
                }
            }
        },
    }
}

/// The tier sequence after a successful donation: unchanged for an untiered
/// donation, otherwise the claimed tier's count grows by one.
pub open spec fn donated_tiers(c: Campaign, kind: DonationKind) -> Seq<RewardTier> {
    match kind {
        DonationKind::Untiered => c.tiers@,
        DonationKind::Tiered(idx) => c.tiers@.update(
            idx as int,
            RewardTier { claimed: (c.tiers@[idx as int].claimed + 1) as u32, ..c.tiers@[idx as int] },
        ),
    }
}

/// The receipt sequence after a successful donation: unchanged for an
/// untiered donation — untiered donations leave no receipt and are therefore
/// non-refundable — otherwise the backer's receipt accumulates the amount and
/// records the claimed tier, created on the backer's first tiered donation.
pub open spec fn donated_receipts(
    c: Campaign,
    backer: Address,
    amount: u64,
    kind: DonationKind,
) -> Seq<Backer> {
    match kind {
        DonationKind::Untiered => c.receipts@,
        DonationKind::Tiered(idx) => if c.has_receipt(backer) {
            c.receipts@.update(
                c.receipt_idx(backer),
                Backer {
                    tier_index: idx,
                    amount_paid: (c.receipt_of(backer).amount_paid + amount) as u64,
                    ..c.receipt_of(backer)
                },
            )
        } else {
            c.receipts@.push(
                Backer { campaign: c.id, backer, tier_index: idx, amount_paid: amount },
            )
        },
    }
}

/// The platform's singleton configuration, created once by the admin.
/// The fee is in basis points, 1/100 of a percent; 10000 is the whole amount.
pub struct PlatformConfig {
    pub treasury: Address,
    pub admin: Address,
    pub fee_basis_points: u16,
}

impl PlatformConfig {
    /// The fee can never exceed the whole amount.
    pub open spec fn wf(self) -> bool {
        self.fee_basis_points <= 10000
    }
}

/// The orchestrator: platform configuration, sanction registry and nullifier
/// store. Campaigns are passed to its operations individually, one mutating
/// operation at a time per campaign.
pub struct FundingEngine {
    pub config: PlatformConfig,
    pub registry: ComplianceRegistry,
    pub nullifiers: NullifierStore,
}

impl FundingEngine {
    /// All three components are well-formed.
    pub open spec fn wf(self) -> bool {
        &&& self.config.wf()
        &&& self.registry.wf()
        &&& self.nullifiers.wf()
    }

    /// Creates the platform: the caller becomes the admin, nobody is
    /// sanctioned and no nullifier is spent.
    pub fn initialize_config(authority: Address, treasury: Address, fee_basis_points: u16) -> (r:
        FundingEngine)
        requires
            fee_basis_points <= 10000,
        ensures
            r.wf(),
            r.config.admin == authority,
            r.config.treasury == treasury,
            r.config.fee_basis_points == fee_basis_points,
            r.registry@ == Set::<Address>::empty(),
            r.nullifiers@ == Seq::<(Seq<u8>, u64)>::empty(),
    {
        FundingEngine {
            config: PlatformConfig { treasury, admin: authority, fee_basis_points },
            registry: ComplianceRegistry::new(),
            nullifiers: NullifierStore::new(),
        }
    }

    /// Which check `sanction_address` fails on, if any: only the admin may
    /// sanction, and a double entry is an operator error, not a merge.
    pub open spec fn sanction_error(self, caller: Address, address: Address) -> Option<ErrorCode> {
        if caller != self.config.admin {
            Some(ErrorCode::Unauthorized)
        } else if self.registry@.contains(address) {
            Some(ErrorCode::DuplicateSanction)
        } else {
            None
        }
    }

    /// Adds `address` to the sanction registry.
    pub fn sanction_address(&mut self, caller: Address, address: Address) -> (r: Result<
        (),
        ErrorCode,
    >)
        requires
            old(self).wf(),
        ensures
            final(self).wf(),
            final(self).config == old(self).config,
            final(self).nullifiers == old(self).nullifiers,
            match old(self).sanction_error(caller, address) {
                Some(e) => r == Err::<(), ErrorCode>(e) && *final(self) == *old(self),
                None => r is Ok && final(self).registry@ == old(self).registry@.insert(address),
            },
    {
        if caller != self.config.admin {
            return Err(ErrorCode::Unauthorized);
        }
        self.registry.insert(address)
    }

    /// Which check `unsanction_address` fails on, if any.
    pub open spec fn unsanction_error(self, caller: Address, address: Address) -> Option<
        ErrorCode,
    > {
        if caller != self.config.admin {
            Some(ErrorCode::Unauthorized)
        } else if !self.registry@.contains(address) {
            Some(ErrorCode::SanctionNotFound)
        } else {
            None
        }
    }

    /// Removes `address` from the sanction registry, restoring its
    /// eligibility to donate.
    pub fn unsanction_address(&mut self, caller: Address, address: Address) -> (r: Result<
        (),
        ErrorCode,
    >)
        requires
            old(self).wf(),
        ensures
            final(self).wf(),
            final(self).config == old(self).config,
            final(self).nullifiers == old(self).nullifiers,
            match old(self).unsanction_error(caller, address) {
                Some(e) => r == Err::<(), ErrorCode>(e) && *final(self) == *old(self),
                None => r is Ok && final(self).registry@ == old(self).registry@.remove(address),
            },
    {
        if caller != self.config.admin {
            return Err(ErrorCode::Unauthorized);
        }
        self.registry.remove(address)
    }

    /// Which check `donate` fails on, if any, in the order the checks run:
    /// compliance first, then proof shape, then nullifier single-use, then
    /// tier accounting, then the numeric range of the pledged total. Every
    /// check runs before any transfer is requested and before any mutation,
    /// so a failed donation — including one the substrate refuses — commits
    /// nothing.
    pub open spec fn donate_error(
        self,
        c: Campaign,
        backer: Address,
        amount: u64,
        proof_len: int,
        hash: Seq<u8>,
        kind: DonationKind,
    ) -> Option<ErrorCode> {
        if self.registry@.contains(backer) {
            Some(ErrorCode::SanctionedAddress)
        } else if proof_len <= 64 {
            Some(ErrorCode::InvalidProof)
        } else if hash.len() != 32 {
            Some(ErrorCode::InvalidNullifier)
        } else if self.nullifiers.contains_hash(hash) {
            Some(ErrorCode::NullifierReused)
        } else if donate_tier_error(c, backer, amount, kind) is Some {
            donate_tier_error(c, backer, amount, kind)
        } else if c.current_amount + amount > u64::MAX {
            Some(ErrorCode::ArithmeticOverflow)
        } else {
            None
        }
    }

    /// Runs every check of `donate` without mutating anything.
    fn donate_validate(
        &self,
        campaign: &Campaign,
        backer: Address,
        amount: u64,
        proof_bytes: &Vec<u8>,
        nullifier_hash: &Vec<u8>,
        kind: DonationKind,
    ) -> (r: Option<ErrorCode>)
        requires
            self.wf(),
            campaign.wf(),
        ensures
            r == self.donate_error(
                *campaign,
                backer,
                amount,
                proof_bytes@.len() as int,
                nullifier_hash@,
                kind,
            ),
    {
        if self.registry.is_sanctioned(backer) {
            return Some(ErrorCode::SanctionedAddress);
        }
        if proof_bytes.len() <= 64 {
            return Some(ErrorCode::InvalidProof);
        }
        if nullifier_hash.len() != 32 {
            return Some(ErrorCode::InvalidNullifier);
        }
        if self.nullifiers.contains(nullifier_hash) {
            return Some(ErrorCode::NullifierReused);
        }
        match kind {
            DonationKind::Tiered(idx) => {
                let i = idx as usize;
                if i >= campaign.tiers.len() {
                    return Some(ErrorCode::InvalidTierIndex);
                }
                if amount < campaign.tiers[i].amount {
                    return Some(ErrorCode::InsufficientAmountForTier);
                }
                if campaign.tiers[i].limit > 0 && campaign.tiers[i].claimed
                    >= campaign.tiers[i].limit {
                    return Some(ErrorCode::TierSoldOut);
                }
                if campaign.tiers[i].claimed == u32::MAX {
                    return Some(ErrorCode::ArithmeticOverflow);
                }
                match campaign.find_receipt(backer) {
                    Some(j) => {
                        proof {
                            campaign.lemma_receipt_at(backer, j as int);
                        }
                        if campaign.receipts[j].amount_paid > u64::MAX - amount {
                            return Some(ErrorCode::ArithmeticOverflow);
                        }
                    },
                    None => {},
                }
            },
            DonationKind::Untiered => {},
        }
        if campaign.current_amount > u64::MAX - amount {
            return Some(ErrorCode::ArithmeticOverflow);
        }
        None
    }

    /// The movement a donation would ask of the substrate, after every check
    /// of `donate` has passed: the pledged amount from the backer into the
    /// campaign's escrow.
    pub fn donate_request(
        &self,
        campaign: &Campaign,
        backer: Address,
        amount: u64,
        proof_bytes: &Vec<u8>,
        nullifier_hash: &Vec<u8>,
        kind: DonationKind,
    ) -> (r: Result<TransferAction, ErrorCode>)
        requires
            self.wf(),
            campaign.wf(),
        ensures
            match self.donate_error(
                *campaign,
                backer,
                amount,
                proof_bytes@.len() as int,
                nullifier_hash@,
                kind,
            ) {
                Some(e) => r == Err::<TransferAction, ErrorCode>(e),
                None => r == Ok::<TransferAction, ErrorCode>(
                    TransferAction { from: backer, to_campaign: campaign.id, amount },
                ),
            },
    {
        match self.donate_validate(campaign, backer, amount, proof_bytes, nullifier_hash, kind) {
            Some(e) => Err(e),
            None => Ok(TransferAction { from: backer, to_campaign: campaign.id, amount }),
        }
    }

    /// Records a donation. `transfer_done` is the substrate's verdict on the
    /// movement handed back by `donate_request`: only when the full amount
    /// moved does anything commit, and then the nullifier is spent, the
    /// claimed tier's count grows by one, the backer's receipt accumulates
    /// the amount, and the pledged total grows by exactly the amount — all
    /// together, or not at all.
    pub fn donate(
        &mut self,
        campaign: &mut Campaign,
        backer: Address,
        amount: u64,
        proof_bytes: &Vec<u8>,
        nullifier_hash: Vec<u8>,
        kind: DonationKind,
        transfer_done: bool,
    ) -> (r: Result<(), ErrorCode>)
        requires
            old(self).wf(),
            old(campaign).wf(),
        ensures
            final(self).wf(),
            final(campaign).wf(),
            final(self).config == old(self).config,
            final(self).registry == old(self).registry,
            match old(self).donate_error(
                *old(campaign),
                backer,
                amount,
                proof_bytes@.len() as int,
                nullifier_hash@,
                kind,
            ) {
                Some(e) => r == Err::<(), ErrorCode>(e) && *final(self) == *old(self)
                    && *final(campaign) == *old(campaign),
                None => if transfer_done {
                    &&& r is Ok
                    &&& final(self).nullifiers@ == old(self).nullifiers@.push(
                        (nullifier_hash@, old(campaign).id),
                    )
                    &&& final(campaign).current_amount == old(campaign).current_amount + amount
                    &&& final(campaign).tiers@ == donated_tiers(*old(campaign), kind)
                    &&& final(campaign).receipts@ == donated_receipts(
                        *old(campaign),
                        backer,
                        amount,
                        kind,
                    )
                    &&& final(campaign).id == old(campaign).id
                    &&& final(campaign).owner == old(campaign).owner
                    &&& final(campaign).name == old(campaign).name
                    &&& final(campaign).description == old(campaign).description
                    &&& final(campaign).target_amount == old(campaign).target_amount
                    &&& final(campaign).deadline == old(campaign).deadline
                } else {
                    &&& r == Err::<(), ErrorCode>(ErrorCode::TransferFailed)
                    &&& *final(self) == *old(self)
                    &&& *final(campaign) == *old(campaign)
                },
            },
    {
        match self.donate_validate(campaign, backer, amount, proof_bytes, &nullifier_hash, kind) {
            Some(e) => {
                return Err(e);
            },
            None => {},
        }
        if !transfer_done {
            return Err(ErrorCode::TransferFailed);
        }
        let ghost pre_c = *campaign;
        self.nullifiers.spend(nullifier_hash, campaign.id).unwrap();
        match kind {
            DonationKind::Tiered(idx) => {
                let i = idx as usize;
                let claimed = campaign.tiers[i].claimed;
                campaign.tiers[i].claimed = claimed + 1;
                proof {
                    assert(campaign.tiers@ =~= donated_tiers(pre_c, kind));
                    assert forall|k: int|
                        0 <= k < campaign.tiers@.len() implies crate::campaign::tier_wf(
                        #[trigger] campaign.tiers@[k],
                    ) by {
                        if k != i {
                            assert(campaign.tiers@[k] == pre_c.tiers@[k]);
                        }
                    }
                }
                match campaign.find_receipt(backer) {
                    Some(j) => {
                        proof {
                            pre_c.lemma_receipt_at(backer, j as int);
                        }
                        let paid = campaign.receipts[j].amount_paid;
                        campaign.receipts[j].amount_paid = paid + amount;
                        campaign.receipts[j].tier_index = idx;
                        proof {
                            assert(campaign.receipts@ =~= donated_receipts(
                                pre_c,
                                backer,
                                amount,
                                kind,
                            ));
                            assert forall|p: int, q: int|
                                0 <= p < q < campaign.receipts@.len() implies campaign.receipts@[p].backer
                                != campaign.receipts@[q].backer by {
                                assert(campaign.receipts@[p].backer == pre_c.receipts@[p].backer);
                                assert(campaign.receipts@[q].backer == pre_c.receipts@[q].backer);
                            }
                        }
                    },
                    None => {
                        let id = campaign.id;
                        campaign.receipts.push(
                            Backer { campaign: id, backer, tier_index: idx, amount_paid: amount },
                        );
                        proof {
                            assert forall|p: int, q: int|
                                0 <= p < q < campaign.receipts@.len() implies campaign.receipts@[p].backer
                                != campaign.receipts@[q].backer by {
                                if q < pre_c.receipts@.len() {
                                    assert(campaign.receipts@[p] == pre_c.receipts@[p]);
                                    assert(campaign.receipts@[q] == pre_c.receipts@[q]);
                                } else {
                                    assert(campaign.receipts@[p] == pre_c.receipts@[p]);
                                    assert(!pre_c.has_receipt(backer));
                                }
                            }
                        }
                    },
                }
            },
            DonationKind::Untiered => {},
        }
        campaign.current_amount = campaign.current_amount + amount;
        Ok(())
    }

    /// Which check `withdraw` fails on, if any: only the owner may settle,
    /// only into the configured treasury, and only once the target is met.
    pub open spec fn withdraw_error(self, c: Campaign, caller: Address, treasury: Address) -> Option<
        ErrorCode,
    > {
        if caller != c.owner {
            Some(ErrorCode::Unauthorized)
        } else if treasury != self.config.treasury {
            Some(ErrorCode::InvalidTreasury)
        } else if c.current_amount < c.target_amount {
            Some(ErrorCode::TargetNotMet)
        } else {
            None
        }
    }

    /// The two movements of a successful settlement: the fee share of the
    /// whole pledged amount to the treasury, the exact remainder to the owner.
    pub fn withdraw_request(&self, campaign: &Campaign, caller: Address, treasury: Address) -> (r:
        Result<WithdrawPlan, ErrorCode>)
        requires
            self.wf(),
        ensures
            match self.withdraw_error(*campaign, caller, treasury) {
                Some(e) => r == Err::<WithdrawPlan, ErrorCode>(e),
                None => {
                    &&& r is Ok
                    &&& r matches Ok(p) ==> {
                        &&& p.fee_to_treasury == fee_amount(
                            campaign.current_amount,
                            self.config.fee_basis_points,
                        )
                        &&& p.fee_to_treasury + p.to_owner == campaign.current_amount
                    }
                },
            },
    {
        if caller != campaign.owner {
            return Err(ErrorCode::Unauthorized);
        }
        if treasury != self.config.treasury {
            return Err(ErrorCode::InvalidTreasury);
        }
        if campaign.current_amount < campaign.target_amount {
            return Err(ErrorCode::TargetNotMet);
        }
        let total = campaign.current_amount;
        proof {
            lemma_fee_bounds(total, self.config.fee_basis_points);
        }
        let fee = (total as u128 * self.config.fee_basis_points as u128 / 10000) as u64;
        Ok(WithdrawPlan { fee_to_treasury: fee, to_owner: total - fee })
    }

    /// Settles a successful campaign: both movements of the plan handed back
    /// by `withdraw_request` are applied by the substrate as one logical
    /// settlement, and only when both went through (`transfers_done`) is the
    /// pledged amount reset to zero. Once it is zero, a positive target can
    /// never be met again, so the settlement is naturally one-shot.
    pub fn withdraw(
        &self,
        campaign: &mut Campaign,
        caller: Address,
        treasury: Address,
        transfers_done: bool,
    ) -> (r: Result<(), ErrorCode>)
        requires
            self.wf(),
            old(campaign).wf(),
        ensures
            final(campaign).wf(),
            match self.withdraw_error(*old(campaign), caller, treasury) {
                Some(e) => r == Err::<(), ErrorCode>(e) && *final(campaign) == *old(campaign),
                None => if transfers_done {
                    &&& r is Ok
                    &&& final(campaign).current_amount == 0
                    &&& *final(campaign) == Campaign {
                        current_amount: 0u64,
                        ..*old(campaign)
                    }
                } else {
                    r == Err::<(), ErrorCode>(ErrorCode::TransferFailed) && *final(campaign)
                        == *old(campaign)
                },
            },
    {
        if caller != campaign.owner {
            return Err(ErrorCode::Unauthorized);
        }
        if treasury != self.config.treasury {
            return Err(ErrorCode::InvalidTreasury);
        }
        if campaign.current_amount < campaign.target_amount {
            return Err(ErrorCode::TargetNotMet);
        }
        if !transfers_done {
            return Err(ErrorCode::TransferFailed);
        }
        campaign.current_amount = 0;
        Ok(())
    }

    /// Which check `refund` fails on, if any: the campaign must have run past
    /// its deadline and missed its target, and the backer must hold a receipt
    /// over a positive amount. A refund larger than what is still pledged
    /// would underflow the ledger and is refused as an arithmetic error.
    pub open spec fn refund_error(self, c: Campaign, backer: Address, now: i64) -> Option<
        ErrorCode,
    > {
        if now <= c.deadline {
            Some(ErrorCode::CampaignActive)
        } else if c.current_amount >= c.target_amount {
            Some(ErrorCode::TargetMet)
        } else if !c.has_receipt(backer) || c.receipt_of(backer).amount_paid == 0 {
            Some(ErrorCode::NoFundsToRefund)
        } else if c.receipt_of(backer).amount_paid > c.current_amount {
            Some(ErrorCode::ArithmeticOverflow)
        } else {
            None
        }
    }

    /// The movement a refund would perform: the backer's whole receipt amount
    /// back from the campaign to the backer.
    pub fn refund_request(&self, campaign: &Campaign, backer: Address, now: i64) -> (r: Result<
        u64,
        ErrorCode,
    >)
        requires
            campaign.wf(),
        ensures
            match self.refund_error(*campaign, backer, now) {
                Some(e) => r == Err::<u64, ErrorCode>(e),
                None => r == Ok::<u64, ErrorCode>(campaign.receipt_of(backer).amount_paid),
            },
    {
        if now <= campaign.deadline {
            return Err(ErrorCode::CampaignActive);
        }
        if campaign.current_amount >= campaign.target_amount {
            return Err(ErrorCode::TargetMet);
        }
        let found = campaign.find_receipt(backer);
        match found {
            None => Err(ErrorCode::NoFundsToRefund),
            Some(j) => {
                proof {
                    campaign.lemma_receipt_at(backer, j as int);
                }
                let amt = campaign.receipts[j].amount_paid;
                if amt == 0 {
                    Err(ErrorCode::NoFundsToRefund)
                } else if amt > campaign.current_amount {
                    Err(ErrorCode::ArithmeticOverflow)
                } else {
                    Ok(amt)
                }
            },
        }
    }

    /// Refunds a backer of a failed campaign: once the substrate has moved the
    /// receipt amount back (`transfer_done`), the receipt is destroyed — a
    /// second refund then fails for lack of a receipt — and the pledged amount
    /// drops by exactly the refunded amount.
    pub fn refund(&self, campaign: &mut Campaign, backer: Address, now: i64, transfer_done: bool) -> (r:
        Result<(), ErrorCode>)
        requires
            old(campaign).wf(),
        ensures
            final(campaign).wf(),
            match self.refund_error(*old(campaign), backer, now) {
                Some(e) => r == Err::<(), ErrorCode>(e) && *final(campaign) == *old(campaign),
                None => if transfer_done {
                    &&& r is Ok
                    &&& final(campaign).current_amount == old(campaign).current_amount - old(
                        campaign,
                    ).receipt_of(backer).amount_paid
                    &&& final(campaign).receipts@ == old(campaign).receipts@.remove(
                        old(campaign).receipt_idx(backer),
                    )
                    &&& !final(campaign).has_receipt(backer)
                    &&& final(campaign).tiers@ == old(campaign).tiers@
                    &&& final(campaign).id == old(campaign).id
                    &&& final(campaign).owner == old(campaign).owner
                    &&& final(campaign).name == old(campaign).name
                    &&& final(campaign).description == old(campaign).description
                    &&& final(campaign).target_amount == old(campaign).target_amount
                    &&& final(campaign).deadline == old(campaign).deadline
                } else {
                    r == Err::<(), ErrorCode>(ErrorCode::TransferFailed) && *final(campaign)
                        == *old(campaign)
                },
            },
    {
        if now <= campaign.deadline {
            return Err(ErrorCode::CampaignActive);
        }
        if campaign.current_amount >= campaign.target_amount {
            return Err(ErrorCode::TargetMet);
        }
        let found = campaign.find_receipt(backer);
        match found {
            None => Err(ErrorCode::NoFundsToRefund),
            Some(j) => {
                proof {
                    campaign.lemma_receipt_at(backer, j as int);
                }
                let amt = campaign.receipts[j].amount_paid;
                if amt == 0 {
                    return Err(ErrorCode::NoFundsToRefund);
                }
                if amt > campaign.current_amount {
                    return Err(ErrorCode::ArithmeticOverflow);
                }
                if !transfer_done {
                    return Err(ErrorCode::TransferFailed);
                }
                campaign.receipts.remove(j);
                campaign.current_amount = campaign.current_amount - amt;
                proof {
                    let pre = old(campaign).receipts@;
                    let post = campaign.receipts@;
                    pre.remove_ensures(j as int);
                    assert forall|i: int|
                        0 <= i < post.len() implies (#[trigger] post[i]).campaign == campaign.id
                        && post[i].backer != backer by {
                        if i < j {
                            assert(post[i] == pre[i]);
                        } else {
                            assert(post[i] == pre[i + 1]);
                        }
                    }
                    assert forall|p: int, q: int|
                        0 <= p < q < post.len() implies post[p].backer != post[q].backer by {
                        let p2: int = if p < j { p } else { p + 1 };
                        let q2: int = if q < j { q } else { q + 1 };
                        assert(post[p] == pre[p2]);
                        assert(post[q] == pre[q2]);
                        assert(pre[p2].backer != pre[q2].backer);
                    }
                    assert(campaign.wf());
                    assert(!campaign.has_receipt(backer));
                }
                Ok(())
            },
        }
    }

    /// Which check `cancel_campaign` fails on, if any: only the owner may
    /// close a campaign, and only once nothing is pledged.
    pub open spec fn cancel_error(self, c: Campaign, caller: Address) -> Option<ErrorCode> {
        if caller != c.owner {
            Some(ErrorCode::Unauthorized)
        } else if c.current_amount != 0 {
            Some(ErrorCode::CampaignNotEmpty)
        } else {
            None
        }
    }

    /// Decides whether the campaign may be closed and its resources released
    /// to the owner. Pure cleanup: no value moves, so `Ok` is the caller's
    /// licence to drop the campaign.
    pub fn cancel_campaign(&self, campaign: &Campaign, caller: Address) -> (r: Result<
        (),
        ErrorCode,
    >)
        ensures
            match self.cancel_error(*campaign, caller) {
                Some(e) => r == Err::<(), ErrorCode>(e),
                None => r is Ok,
            },
    {
        if caller != campaign.owner {
            return Err(ErrorCode::Unauthorized);
        }
        if campaign.current_amount != 0 {
            return Err(ErrorCode::CampaignNotEmpty);
        }
        Ok(())
    }
}

} // verus!

//! One campaign's budget: what it may spend, what it has spent, and the bid
//! that follows from both.

use vstd::prelude::*;
use vstd::math::{max, min};
use crate::bid::{bid_amount, bid_target, next_bid};

verus! {

/// A campaign's budget state as mathematical values, in micro-units.
pub struct CampaignModel {
    pub budget: nat,
    pub spent: nat,
    pub roas: int,
    pub acquire_cost: nat,
}

impl CampaignModel {
    /// A campaign never spends more than its budget.
    pub open spec fn inv(self) -> bool {
        self.spent <= self.budget
    }

    /// What is left of the budget.
    pub open spec fn remaining(self) -> nat {
        (self.budget - self.spent) as nat
    }

    /// The bid that the campaign makes next.
    pub open spec fn next_bid(self) -> int {
        bid_amount(self.remaining() as int, self.roas, self.acquire_cost as int)
    }

    /// The part of `amount` that a commit applies: all of it where the budget
    /// allows, else what remains.
    pub open spec fn clamped(self, amount: nat) -> nat {
        min(amount as int, self.remaining() as int) as nat
    }

    /// The campaign after a commit of `amount`.
    pub open spec fn after_commit(self, amount: nat) -> CampaignModel {
        CampaignModel { spent: self.spent + self.clamped(amount), ..self }
    }

    /// The campaign after it has made its next bid and committed it.
    pub open spec fn after_bid(self) -> CampaignModel {
        self.after_commit(self.next_bid() as nat)
    }

    /// The campaign after `count` bids, each committed as it is made.
    pub open spec fn after_bids(self, count: nat) -> CampaignModel
        decreases count,
    {
        if count == 0 {
            self
        } else {
            self.after_bids((count - 1) as nat).after_bid()
        }
    }

    /// The campaign after a sequence of commits, applied in order.
    pub open spec fn after_commits(self, amounts: Seq<nat>) -> CampaignModel
        decreases amounts.len(),
    {
        if amounts.len() == 0 {
            self
        } else {
            self.after_commits(amounts.drop_last()).after_commit(amounts.last())
        }
    }
}

/// The sum of a sequence of amounts.
pub open spec fn total(amounts: Seq<nat>) -> nat
    decreases amounts.len(),
{
    if amounts.len() == 0 {
        0
    } else {
        total(amounts.drop_last()) + amounts.last()
    }
}

/// A commit keeps the spending within the budget, never lowers it, and
/// leaves budget, ratio and cost as they were.
pub proof fn lemma_commit_inv(campaign: CampaignModel, amount: nat)
    requires
        campaign.inv(),
    ensures
        campaign.after_commit(amount).inv(),
        campaign.after_commit(amount).spent >= campaign.spent,
        campaign.after_commit(amount).remaining() <= campaign.remaining(),
        campaign.after_commit(amount).budget == campaign.budget,
        campaign.after_commit(amount).roas == campaign.roas,
        campaign.after_commit(amount).acquire_cost == campaign.acquire_cost,
{
}

/// After any sequence of commits the spending is within the budget. It is
/// the lesser of the budget and of what was spent before plus all that was
/// committed: the order of the commits does not matter.
pub proof fn lemma_commits_inv(campaign: CampaignModel, amounts: Seq<nat>)
    requires
        campaign.inv(),
    ensures
        campaign.after_commits(amounts).inv(),
        campaign.after_commits(amounts).budget == campaign.budget,
        campaign.after_commits(amounts).spent == min(
            campaign.budget as int,
            (campaign.spent + total(amounts)) as int,
        ),
    decreases amounts.len(),
{
    if amounts.len() > 0 {
        lemma_commits_inv(campaign, amounts.drop_last());
    }
}

/// After any number of bids, each committed as it is made, the spending is
/// within the budget: it is the lesser of the budget and of what was spent
/// before plus so many times the target.
pub proof fn lemma_bids_inv(campaign: CampaignModel, count: nat)
    requires
        campaign.inv(),
    ensures
        campaign.after_bids(count).inv(),
        campaign.after_bids(count).budget == campaign.budget,
        campaign.after_bids(count).roas == campaign.roas,
        campaign.after_bids(count).acquire_cost == campaign.acquire_cost,
        campaign.after_bids(count).spent == min(
            campaign.budget as int,
            campaign.spent + count * max(
                bid_target(campaign.roas, campaign.acquire_cost as int),
                0,
            ),
        ),
    decreases count,
{
    let target = max(bid_target(campaign.roas, campaign.acquire_cost as int), 0);
    if count > 0 {
        let earlier = (count - 1) as nat;
        lemma_bids_inv(campaign, earlier);
        assert(count * target == earlier * target + target) by (nonlinear_arith)
            requires
                count == earlier + 1,
        ;
        assert(earlier * target >= 0) by (nonlinear_arith)
            requires
                earlier >= 0,
                target >= 0,
        ;
    } else {
        assert(count * target == 0) by (nonlinear_arith)
            requires
                count == 0,
        ;
    }
}

/// A commit of the campaign's own next bid is applied in full.
pub proof fn lemma_bid_is_committed_whole(campaign: CampaignModel)
    requires
        campaign.inv(),
    ensures
        0 <= campaign.next_bid() <= campaign.remaining(),
        campaign.clamped(campaign.next_bid() as nat) == campaign.next_bid(),
{
}

/// What a campaign is set up with.
#[derive(Debug)]
pub struct ShopCampaign {
    pub id: String,
    pub budget: u64,
    pub roas: i64,
    pub acquire_cost: u64,
}

/// A campaign's budget state at one moment, in micro-units.
#[derive(Clone, Copy, Debug, PartialEq, Eq, Structural)]
pub struct CampaignSnapshot {
    pub budget: u64,
    pub spent: u64,
    pub roas: i64,
    pub acquire_cost: u64,
}

impl View for CampaignSnapshot {
    type V = CampaignModel;

    open spec fn view(&self) -> CampaignModel {
        CampaignModel {
            budget: self.budget as nat,
            spent: self.spent as nat,
            roas: self.roas as int,
            acquire_cost: self.acquire_cost as nat,
        }
    }
}

/// A campaign with the amount that it has spent.
#[derive(Debug)]
pub struct CampaignAccount {
    settings: ShopCampaign,
    spent: u64,
}

impl View for CampaignAccount {
    type V = CampaignModel;

    closed spec fn view(&self) -> CampaignModel {
        CampaignModel {
            budget: self.settings.budget as nat,
            spent: self.spent as nat,
            roas: self.settings.roas as int,
            acquire_cost: self.settings.acquire_cost as nat,
        }
    }
}

impl CampaignAccount {
    /// The campaign's identifier.
    pub closed spec fn spec_id(&self) -> Seq<char> {
        self.settings.id@
    }

    /// Whether the account is well formed: its spending is within its budget,
    /// and its amounts are within the range of the machine's integers.
    pub open spec fn wf(&self) -> bool {
        &&& self@.inv()
        &&& self@.budget <= u64::MAX
        &&& self@.acquire_cost <= u64::MAX
        &&& i64::MIN <= self@.roas <= i64::MAX
    }

    /// A campaign that has spent nothing yet.
    pub fn new(settings: ShopCampaign) -> (account: CampaignAccount)
        ensures
            account.wf(),
            account.spec_id() == settings.id@,
            account@ == (CampaignModel {
                budget: settings.budget as nat,
                spent: 0,
                roas: settings.roas as int,
                acquire_cost: settings.acquire_cost as nat,
            }),
    {
        CampaignAccount { settings, spent: 0 }
    }

    pub fn id(&self) -> (id: &String)
        ensures
            id@ == self.spec_id(),
    {
        &self.settings.id
    }

    /// The campaign's state at this moment.
    pub fn snapshot(&self) -> (snapshot: CampaignSnapshot)
        ensures
            snapshot@ == self@,
    {
        CampaignSnapshot {
            budget: self.settings.budget,
            spent: self.spent,
            roas: self.settings.roas,
            acquire_cost: self.settings.acquire_cost,
        }
    }

    /// What is left of the budget.
    pub fn remaining_budget(&self) -> (remaining: u64)
        requires
            self.wf(),
        ensures
            remaining == self@.remaining(),
    {
        self.settings.budget - self.spent
    }

    /// The bid that the campaign makes next.
    pub fn next_bid(&self) -> (bid: u64)
        requires
            self.wf(),
        ensures
            bid == self@.next_bid(),
            bid <= self@.remaining(),
    {
        next_bid(self.remaining_budget(), self.settings.roas, self.settings.acquire_cost)
    }

    /// Commits `amount` to the campaign's spending, or what remains of the
    /// budget where `amount` is more. Returns what remains afterwards.
    pub fn record_bid(&mut self, amount: u64) -> (remaining: u64)
        requires
            old(self).wf(),
        ensures
            final(self).wf(),
            final(self).spec_id() == old(self).spec_id(),
            final(self)@ == old(self)@.after_commit(amount as nat),
            remaining == final(self)@.remaining(),
    {
        let remaining = self.settings.budget - self.spent;
        let applied = if amount <= remaining {
            amount
        } else {
            remaining
        };
        self.spent = self.spent + applied;
        remaining - applied
    }
}

} // verus!

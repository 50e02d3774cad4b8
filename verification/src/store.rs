//! The campaign store: the one place that holds the budgets of all
//! campaigns, found by their identifiers.

use vstd::prelude::*;
use crate::account::{
    lemma_bids_inv, CampaignAccount, CampaignModel, CampaignSnapshot, ShopCampaign,
};

verus! {

/// Why the store could not serve a request.
#[derive(Clone, Copy, Debug, PartialEq, Eq, Structural)]
pub enum StoreError {
    /// The store knows no campaign of that identifier.
    NotFound,
}

/// The campaigns after one request for a bid of the campaign `id`: that
/// campaign has made its next bid and committed it. A request for an unknown
/// campaign changes nothing.
pub open spec fn after_request(
    campaigns: Map<Seq<char>, CampaignModel>,
    id: Seq<char>,
) -> Map<Seq<char>, CampaignModel> {
    if campaigns.contains_key(id) {
        campaigns.insert(id, campaigns[id].after_bid())
    } else {
        campaigns
    }
}

/// The campaigns after a sequence of requests, served one after another.
pub open spec fn after_requests(
    campaigns: Map<Seq<char>, CampaignModel>,
    ids: Seq<Seq<char>>,
) -> Map<Seq<char>, CampaignModel>
    decreases ids.len(),
{
    if ids.len() == 0 {
        campaigns
    } else {
        after_request(after_requests(campaigns, ids.drop_last()), ids.last())
    }
}

/// Number of requests for the campaign `id` in a sequence of requests.
pub open spec fn requests_for(ids: Seq<Seq<char>>, id: Seq<char>) -> nat
    decreases ids.len(),
{
    if ids.len() == 0 {
        0
    } else {
        requests_for(ids.drop_last(), id) + if ids.last() == id {
            1nat
        } else {
            0nat
        }
    }
}

/// Requests that are served one after another, in whatever order they come,
/// leave each campaign as its own requests alone would: a campaign's state
/// depends on the number of requests for it and on nothing else. No request
/// adds or removes a campaign, and no campaign spends more than its budget.
pub proof fn lemma_requests_in_any_order(
    campaigns: Map<Seq<char>, CampaignModel>,
    ids: Seq<Seq<char>>,
    id: Seq<char>,
)
    requires
        campaigns.contains_key(id),
        campaigns[id].inv(),
    ensures
        after_requests(campaigns, ids).dom() == campaigns.dom(),
        after_requests(campaigns, ids)[id] == campaigns[id].after_bids(requests_for(ids, id)),
        after_requests(campaigns, ids)[id].spent <= campaigns[id].budget,
        after_requests(campaigns, ids)[id].budget == campaigns[id].budget,
    decreases ids.len(),
{
    lemma_bids_inv(campaigns[id], requests_for(ids, id));
    if ids.len() > 0 {
        let earlier = after_requests(campaigns, ids.drop_last());
        lemma_requests_in_any_order(campaigns, ids.drop_last(), id);
        assert(after_request(earlier, ids.last()).dom() =~= earlier.dom());
    }
}

/// The budgets of all campaigns.
#[derive(Debug)]
pub struct CampaignStore {
    accounts: Vec<CampaignAccount>,
}

impl View for CampaignStore {
    type V = Map<Seq<char>, CampaignModel>;

    /// The store as a map from identifiers to budget states.
    closed spec fn view(&self) -> Map<Seq<char>, CampaignModel> {
        Map::new(
            |id: Seq<char>| exists|i: int| self.holds_at(id, i),
            |id: Seq<char>| self.accounts@[self.index_of(id)]@,
        )
    }
}

impl CampaignStore {
    /// Whether the campaign `id` stands at the place `i`.
    closed spec fn holds_at(&self, id: Seq<char>, i: int) -> bool {
        0 <= i < self.accounts@.len() && self.accounts@[i].spec_id() == id
    }

    /// The place of the campaign `id`.
    closed spec fn index_of(&self, id: Seq<char>) -> int {
        choose|i: int| self.holds_at(id, i)
    }

    /// Whether the store is well formed: every account is, and no identifier
    /// occurs twice.
    pub closed spec fn wf(&self) -> bool {
        &&& forall|i: int| 0 <= i < self.accounts@.len() ==> (#[trigger] self.accounts@[i]).wf()
        &&& forall|i: int, j: int|
            0 <= i < j < self.accounts@.len() ==> (#[trigger] self.accounts@[i]).spec_id() != (
            #[trigger] self.accounts@[j]).spec_id()
    }

    /// The campaign that stands at a place is the one that the map holds
    /// under its identifier.
    proof fn lemma_place(&self, id: Seq<char>, i: int)
        requires
            self.wf(),
            self.holds_at(id, i),
        ensures
            self@.contains_key(id),
            self.index_of(id) == i,
            self@[id] == self.accounts@[i]@,
    {
        let j = self.index_of(id);
        assert(self.holds_at(id, j));
        if i < j {
            assert(self.accounts@[i].spec_id() != self.accounts@[j].spec_id());
        } else if j < i {
            assert(self.accounts@[j].spec_id() != self.accounts@[i].spec_id());
        }
    }

    /// Every campaign in a well-formed store has spent no more than its
    /// budget.
    pub proof fn lemma_spent_within_budget(&self, id: Seq<char>)
        requires
            self.wf(),
            self@.contains_key(id),
        ensures
            self@[id].inv(),
            0 <= self@[id].spent <= self@[id].budget,
    {
        let i = self.index_of(id);
        assert(self.holds_at(id, i));
        assert(self.accounts@[i].wf());
    }

    /// A store without campaigns.
    pub fn new() -> (store: CampaignStore)
        ensures
            store.wf(),
            store@ == Map::<Seq<char>, CampaignModel>::empty(),
    {
        let store = CampaignStore { accounts: Vec::new() };
        assert(store@ =~= Map::<Seq<char>, CampaignModel>::empty());
        store
    }

    /// The place of the campaign `id`, if the store knows it.
    fn position(&self, id: &String) -> (place: Option<usize>)
        requires
            self.wf(),
        ensures
            match place {
                Some(i) => self.holds_at(id@, i as int),
                None => !self@.contains_key(id@),
            },
    {
        let mut i: usize = 0;
        while i < self.accounts.len()
            invariant
                0 <= i <= self.accounts@.len(),
                forall|j: int| 0 <= j < i ==> !self.holds_at(id@, j),
            decreases self.accounts@.len() - i,
        {
            if *self.accounts[i].id() == *id {
                return Some(i);
            }
            i = i + 1;
        }
        None
    }

    /// Whether the store knows the campaign `id`.
    pub fn contains(&self, id: &String) -> (known: bool)
        requires
            self.wf(),
        ensures
            known == self@.contains_key(id@),
    {
        match self.position(id) {
            Some(i) => {
                proof {
                    self.lemma_place(id@, i as int);
                }
                true
            },
            None => false,
        }
    }

    /// Adds a campaign that has spent nothing yet. Where the store already
    /// knows its identifier, the store stays as it is and `false` is
    /// returned.
    pub fn add(&mut self, settings: ShopCampaign) -> (added: bool)
        requires
            old(self).wf(),
        ensures
            final(self).wf(),
            added == !old(self)@.contains_key(settings.id@),
            added ==> final(self)@ == old(self)@.insert(
                settings.id@,
                CampaignModel {
                    budget: settings.budget as nat,
                    spent: 0,
                    roas: settings.roas as int,
                    acquire_cost: settings.acquire_cost as nat,
                },
            ),
            !added ==> *final(self) == *old(self),
    {
        match self.position(&settings.id) {
            Some(i) => {
                proof {
                    self.lemma_place(settings.id@, i as int);
                }
                false
            },
            None => {
                let ghost before = *self;
                let ghost id = settings.id@;
                let account = CampaignAccount::new(settings);
                self.accounts.push(account);
                proof {
                    let n = before.accounts@.len() as int;
                    assert(self.accounts@[n] == account);
                    assert forall|i: int| 0 <= i < n implies self.accounts@[i].spec_id() != id by {
                        assert(self.accounts@[i] == before.accounts@[i]);
                        assert(!before.holds_at(id, i));
                    }
                    assert(self.wf());
                    assert(self.holds_at(id, n));
                    self.lemma_place(id, n);
                    let expected = before@.insert(id, account@);
                    assert forall|other: Seq<char>| #[trigger]
                        self@.dom().contains(other) <==> expected.dom().contains(other) by {
                        if other != id && before@.dom().contains(other) {
                            let i = before.index_of(other);
                            assert(before.holds_at(other, i));
                            assert(self.accounts@[i] == before.accounts@[i]);
                            assert(self.holds_at(other, i));
                        }
                        if other != id && self@.dom().contains(other) {
                            let i = self.index_of(other);
                            assert(self.holds_at(other, i));
                            assert(self.accounts@[i] == before.accounts@[i]);
                            assert(before.holds_at(other, i));
                        }
                    }
                    assert forall|other: Seq<char>| #[trigger]
                        self@.dom().contains(other) implies self@[other] == expected[other] by {
                        if other != id {
                            let i = before.index_of(other);
                            assert(before.holds_at(other, i));
                            assert(self.accounts@[i] == before.accounts@[i]);
                            assert(self.holds_at(other, i));
                            self.lemma_place(other, i);
                            before.lemma_place(other, i);
                        }
                    }
                    assert(self@ =~= before@.insert(id, account@));
                }
                true
            },
        }
    }

    /// The state of the campaign `id` at this moment.
    pub fn lookup(&self, id: &String) -> (found: Result<CampaignSnapshot, StoreError>)
        requires
            self.wf(),
        ensures
            match found {
                Ok(snapshot) => self@.contains_key(id@) && snapshot@ == self@[id@]
                    && snapshot@.inv(),
                Err(error) => !self@.contains_key(id@) && error == StoreError::NotFound,
            },
    {
        match self.position(id) {
            Some(i) => {
                proof {
                    self.lemma_place(id@, i as int);
                }
                Ok(self.accounts[i].snapshot())
            },
            None => Err(StoreError::NotFound),
        }
    }

    /// Where two stores differ in one account alone, which has kept its
    /// identifier, their maps differ in that campaign alone.
    proof fn lemma_one_changed(&self, before: &CampaignStore, i: int)
        requires
            before.wf(),
            0 <= i < before.accounts@.len(),
            self.accounts@.len() == before.accounts@.len(),
            self.accounts@[i].wf(),
            self.accounts@[i].spec_id() == before.accounts@[i].spec_id(),
            forall|j: int|
                0 <= j < before.accounts@.len() && j != i ==> #[trigger] self.accounts@[j]
                    == before.accounts@[j],
        ensures
            self.wf(),
            self@ == before@.insert(before.accounts@[i].spec_id(), self.accounts@[i]@),
    {
        let id = before.accounts@[i].spec_id();
        let expected = before@.insert(id, self.accounts@[i]@);
        assert forall|j: int| 0 <= j < self.accounts@.len() implies #[trigger] self.accounts@[j].spec_id()
            == before.accounts@[j].spec_id() && self.accounts@[j].wf() by {
            if j != i {
                assert(self.accounts@[j] == before.accounts@[j]);
                assert(before.accounts@[j].wf());
            }
        }
        assert(self.wf()) by {
            assert forall|j: int, k: int| 0 <= j < k < self.accounts@.len() implies (
            #[trigger] self.accounts@[j]).spec_id() != (#[trigger] self.accounts@[k]).spec_id() by {
                assert(before.accounts@[j].spec_id() != before.accounts@[k].spec_id());
            }
        }
        assert forall|other: Seq<char>, j: int| #[trigger]
            self.holds_at(other, j) <==> before.holds_at(other, j) by {}
        assert(before.holds_at(id, i));
        before.lemma_place(id, i);
        self.lemma_place(id, i);
        assert forall|other: Seq<char>| #[trigger]
            self@.dom().contains(other) <==> expected.dom().contains(other) by {
            if before@.dom().contains(other) {
                let j = before.index_of(other);
                assert(before.holds_at(other, j));
                assert(self.holds_at(other, j));
            }
            if self@.dom().contains(other) {
                let j = self.index_of(other);
                assert(self.holds_at(other, j));
                assert(before.holds_at(other, j));
            }
        }
        assert forall|other: Seq<char>| #[trigger]
            self@.dom().contains(other) implies self@[other] == expected[other] by {
            if other != id {
                let j = self.index_of(other);
                assert(self.holds_at(other, j));
                assert(before.holds_at(other, j));
                self.lemma_place(other, j);
                before.lemma_place(other, j);
                assert(j != i);
                assert(self.accounts@[j] == before.accounts@[j]);
            }
        }
        assert(self@ =~= expected);
    }

    /// Commits `amount` to the spending of the campaign `id`, or what remains
    /// of its budget where `amount` is more. Returns what remains afterwards.
    /// No other campaign changes.
    pub fn commit_bid(&mut self, id: &String, amount: u64) -> (committed: Result<u64, StoreError>)
        requires
            old(self).wf(),
        ensures
            final(self).wf(),
            match committed {
                Ok(remaining) => {
                    &&& old(self)@.contains_key(id@)
                    &&& final(self)@ == old(self)@.insert(
                        id@,
                        old(self)@[id@].after_commit(amount as nat),
                    )
                    &&& remaining == final(self)@[id@].remaining()
                    &&& final(self)@[id@].inv()
                },
                Err(error) => {
                    &&& !old(self)@.contains_key(id@)
                    &&& error == StoreError::NotFound
                    &&& *final(self) == *old(self)
                },
            },
    {
        match self.position(id) {
            Some(i) => {
                let ghost before = *self;
                proof {
                    before.lemma_place(id@, i as int);
                }
                let remaining = self.accounts[i].record_bid(amount);
                proof {
                    self.lemma_one_changed(&before, i as int);
                }
                Ok(remaining)
            },
            None => Err(StoreError::NotFound),
        }
    }

    /// Serves one bid of the campaign `id`: computes its next bid and commits
    /// it, in one step. Returns the bid.
    pub fn get_bid(&mut self, id: &String) -> (served: Result<u64, StoreError>)
        requires
            old(self).wf(),
        ensures
            final(self).wf(),
            final(self)@ == after_request(old(self)@, id@),
            match served {
                Ok(bid) => {
                    &&& old(self)@.contains_key(id@)
                    &&& bid == old(self)@[id@].next_bid()
                    &&& bid <= old(self)@[id@].remaining()
                    &&& final(self)@ == old(self)@.insert(id@, old(self)@[id@].after_bid())
                    &&& final(self)@[id@].spent == old(self)@[id@].spent + bid
                },
                Err(error) => {
                    &&& !old(self)@.contains_key(id@)
                    &&& error == StoreError::NotFound
                    &&& *final(self) == *old(self)
                },
            },
    {
        match self.position(id) {
            Some(i) => {
                let ghost before = *self;
                proof {
                    before.lemma_place(id@, i as int);
                }
                let bid = self.accounts[i].next_bid();
                self.accounts[i].record_bid(bid);
                proof {
                    self.lemma_one_changed(&before, i as int);
                }
                Ok(bid)
            },
            None => Err(StoreError::NotFound),
        }
    }
}

} // verus!

//! The ad service: serving an ad commits the campaign's next bid.

use vstd::prelude::*;
use vstd::string::*;
use crate::account::CampaignModel;
use crate::store::{after_request, CampaignStore, StoreError};

verus! {

/// What the ad service answers.
#[derive(Debug)]
pub struct AdReply {
    pub ad_text: String,
    /// The bid that was committed, in micro-units.
    pub bid: u64,
}

/// The text of the ad for a campaign.
pub open spec fn ad_text_for(id: Seq<char>) -> Seq<char> {
    "Ad for campaign "@ + id + " on Shop"@
}

/// What a caller is told of an error.
pub fn error_message(error: StoreError) -> (message: &'static str)
    ensures
        message@ == "campaign not found"@,
{
    match error {
        StoreError::NotFound => "campaign not found",
    }
}

/// The ad service with the campaigns that it serves.
#[derive(Debug)]
pub struct AdsServer {
    state: CampaignStore,
}

impl View for AdsServer {
    type V = Map<Seq<char>, CampaignModel>;

    closed spec fn view(&self) -> Map<Seq<char>, CampaignModel> {
        self.state@
    }
}

impl AdsServer {
    pub closed spec fn wf(&self) -> bool {
        self.state.wf()
    }

    /// A service for the campaigns of `state`.
    pub fn new(state: CampaignStore) -> (server: AdsServer)
        requires
            state.wf(),
        ensures
            server.wf(),
            server@ == state@,
    {
        AdsServer { state }
    }

    /// The campaigns of the service.
    pub fn state(&self) -> (state: &CampaignStore)
        requires
            self.wf(),
        ensures
            state.wf(),
            state@ == self@,
    {
        &self.state
    }

    /// Every campaign of a well-formed service has spent no more than its
    /// budget.
    pub proof fn lemma_spent_within_budget(&self, id: Seq<char>)
        requires
            self.wf(),
            self@.contains_key(id),
        ensures
            0 <= self@[id].spent <= self@[id].budget,
    {
        self.state.lemma_spent_within_budget(id);
    }

    /// Serves an ad for the campaign `campaign_id`: computes the campaign's
    /// next bid, commits it to the campaign's spending and answers with the
    /// bid. No other campaign changes. An unknown campaign is an error, and
    /// nothing changes.
    pub fn serve_ad(&mut self, campaign_id: &String) -> (served: Result<AdReply, StoreError>)
        requires
            old(self).wf(),
        ensures
            final(self).wf(),
            final(self)@ == after_request(old(self)@, campaign_id@),
            match served {
                Ok(reply) => {
                    &&& old(self)@.contains_key(campaign_id@)
                    &&& reply.bid == old(self)@[campaign_id@].next_bid()
                    &&& reply.bid <= old(self)@[campaign_id@].remaining()
                    &&& reply.ad_text@ == ad_text_for(campaign_id@)
                    &&& final(self)@ == old(self)@.insert(campaign_id@, old(self)@[campaign_id@].after_bid())
                    &&& final(self)@[campaign_id@].spent == old(self)@[campaign_id@].spent + reply.bid
                },
                Err(error) => {
                    &&& !old(self)@.contains_key(campaign_id@)
                    &&& error == StoreError::NotFound
                    &&& *final(self) == *old(self)
                },
            },
    {
        match self.state.get_bid(campaign_id) {
            Ok(bid) => {
                let mut ad_text = String::new();
                ad_text.append("Ad for campaign ");
                ad_text.append(campaign_id.as_str());
                ad_text.append(" on Shop");
                assert(ad_text@ =~= ad_text_for(campaign_id@));
                Ok(AdReply { ad_text, bid })
            },
            Err(error) => Err(error),
        }
    }
}

} // verus!

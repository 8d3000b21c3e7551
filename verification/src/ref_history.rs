//! Referral history: the paginated view over a user's utility-token
//! events, keeping only referral mints.
//!
//! The backend serves a window of token events for `[start, end)`; the
//! engine keeps the referral mints in order and ends the stream exactly
//! when the backend returned fewer events than requested. A failed
//! listing is a hard error for the page — the end flag must never be true
//! spuriously, or pagination silently truncates.

use vstd::prelude::*;

use crate::cursored_data::{KeyedData, PageEntry};
use crate::error::Error;
use crate::store::DupValue;

verus! {

/// One referral reward: when it happened, who was referred, and the
/// amount minted.
#[derive(Clone, Debug)]
pub struct HistoryDetails {
    pub epoch_secs: u64,
    /// The referred user's principal, in text form.
    pub referee: String,
    pub amount: u64,
}

impl KeyedData for HistoryDetails {
    type Key = String;

    open spec fn spec_key(&self) -> String {
        self.referee
    }

    fn key(&self) -> (r: String) {
        self.referee.clone()
    }
}

impl DupValue for HistoryDetails {
    fn dup(&self) -> (r: Self) {
        HistoryDetails {
            epoch_secs: self.epoch_secs,
            referee: self.referee.clone(),
            amount: self.amount,
        }
    }
}

/// A utility-token event as the backend serves it: a referral mint, or
/// anything else (an airdrop mint, a burn, a transfer), which the history
/// skips.
#[derive(Clone, Debug)]
pub enum TokenEvent {
    ReferralMint { timestamp_secs: u64, referee: String, amount: u64 },
    Other,
}

/// The referral rewards of a fetched window of events, in order.
pub open spec fn referral_details_seq(events: Seq<TokenEvent>) -> Seq<HistoryDetails>
    decreases events.len(),
{
    if events.len() == 0 {
        Seq::empty()
    } else {
        (match events[0] {
            TokenEvent::ReferralMint { timestamp_secs, referee, amount } => seq![
                HistoryDetails { epoch_secs: timestamp_secs, referee, amount },
            ],
            TokenEvent::Other => Seq::empty(),
        }) + referral_details_seq(events.drop_first())
    }
}

/// The referral history of the authenticated user.
#[derive(Clone, Debug)]
pub struct ReferralHistory {
    /// The authenticated user's principal, in text form.
    pub user_principal: String,
}

impl ReferralHistory {
    /// Assembles the page for `[start, end)` from the events the backend
    /// returned: referral mints survive in order, everything else is
    /// skipped, and the stream ends exactly when fewer events than
    /// requested came back.
    pub fn page_from_events(&self, events: Vec<TokenEvent>, start: usize, end: usize) -> (r:
        PageEntry<HistoryDetails>)
        requires
            start <= end,
        ensures
            r.data@ == referral_details_seq(events@),
            r.end == (events@.len() < end - start),
    {
        let list_end = events.len() < end - start;
        let ghost orig = events@;
        let mut rest = events;
        let mut data: Vec<HistoryDetails> = Vec::new();
        while rest.len() > 0
            invariant
                referral_details_seq(orig) == data@ + referral_details_seq(rest@),
            decreases rest.len(),
        {
            let ghost before = rest@;
            let ev = rest.remove(0);
            proof {
                assert(rest@ =~= before.drop_first());
            }
            match ev {
                TokenEvent::ReferralMint { timestamp_secs, referee, amount } => {
                    data.push(HistoryDetails { epoch_secs: timestamp_secs, referee, amount });
                },
                TokenEvent::Other => {},
            }
            proof {
                assert(referral_details_seq(orig) =~= data@ + referral_details_seq(rest@));
            }
        }
        proof {
            assert(data@ =~= referral_details_seq(orig));
        }
        PageEntry { data, end: list_end }
    }

    /// Turns a backend listing outcome into the page result: a successful
    /// listing is assembled by [`Self::page_from_events`], and a failed
    /// listing propagates as a hard error, never as an empty page.
    pub fn page_from_listing(
        &self,
        listing: Result<Vec<TokenEvent>, String>,
        start: usize,
        end: usize,
    ) -> (r: Result<PageEntry<HistoryDetails>, Error>)
        requires
            start <= end,
        ensures
            listing matches Ok(events) ==> (r matches Ok(p) && p.data@ == referral_details_seq(
                events@,
            ) && p.end == (events@.len() < end - start)),
            listing matches Err(msg) ==> r == Err::<PageEntry<HistoryDetails>, Error>(
                Error::YralCanister(msg),
            ),
    {
        match listing {
            Ok(events) => Ok(self.page_from_events(events, start, end)),
            Err(msg) => Err(Error::YralCanister(msg)),
        }
    }
}

} // verus!

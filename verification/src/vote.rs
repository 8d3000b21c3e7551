//! Vote history: the vote record type and the three paginated sources that
//! serve it — two fixed-page-size backends and one remote cursor-token
//! source.
//!
//! The cursor source only moves forward: it ignores the caller-supplied
//! indices except for the page size, asks the backend with the token the
//! previous response handed back, and ends the stream exactly when a
//! response carries no next token. Its cursor is a single-writer mutable
//! field; callers must not overlap page reads on one instance.

use vstd::prelude::*;

use crate::cursored_data::{KeyedData, PageEntry};
use crate::error::Error;
use crate::hon_worker::{GameRes, PaginatedGamesReq, PaginatedGamesRes};
use crate::store::DupValue;

verus! {

/// How a finished vote paid out, in the caller's units.
#[derive(Clone, Copy, Debug)]
pub enum VoteOutcome {
    Won(u64),
    Draw(u64),
    Lost,
    AwaitingResult,
}

/// The two sides of a vote.
#[derive(Clone, Copy, Debug, PartialEq, Eq, Structural)]
pub enum VoteKind {
    Hot,
    Not,
}

/// One vote a user placed, with its outcome and timing.
#[derive(Clone, Debug)]
pub struct VoteDetails {
    pub outcome: VoteOutcome,
    pub post_id: u64,
    pub canister_id: String,
    pub vote_kind: VoteKind,
    pub vote_amount: u64,
    /// Seconds since the epoch at which the vote was placed.
    pub placed_at_secs: u64,
    /// Sub-second part of the placement time.
    pub placed_at_nanos: u32,
    /// The hour slot the vote ran in.
    pub slot_id: u8,
}

impl KeyedData for VoteDetails {
    type Key = (String, u64);

    open spec fn spec_key(&self) -> (String, u64) {
        (self.canister_id, self.post_id)
    }

    fn key(&self) -> (r: (String, u64)) {
        (self.canister_id.clone(), self.post_id)
    }
}

impl DupValue for VoteDetails {
    fn dup(&self) -> (r: Self) {
        VoteDetails {
            outcome: self.outcome,
            post_id: self.post_id,
            canister_id: self.canister_id.clone(),
            vote_kind: self.vote_kind,
            vote_amount: self.vote_amount,
            placed_at_secs: self.placed_at_secs,
            placed_at_nanos: self.placed_at_nanos,
            slot_id: self.slot_id,
        }
    }
}

impl VoteDetails {
    /// What the vote paid out: the amount for a win or a draw, nothing
    /// while the result is pending or lost.
    pub fn reward(&self) -> (r: Option<u64>)
        ensures
            r == (match self.outcome {
                VoteOutcome::Won(w) => Some(w),
                VoteOutcome::Draw(w) => Some(w),
                VoteOutcome::Lost => None::<u64>,
                VoteOutcome::AwaitingResult => None::<u64>,
            }),
    {
        match self.outcome {
            VoteOutcome::Won(w) => Some(w),
            VoteOutcome::Draw(w) => Some(w),
            VoteOutcome::Lost => None,
            VoteOutcome::AwaitingResult => None,
        }
    }

    /// How long the vote runs, in seconds: its hour slot plus a five
    /// minute overhead.
    pub fn vote_duration_secs(&self) -> (r: u64)
        ensures
            r == self.slot_id * 3600 + 300,
    {
        (self.slot_id as u64) * 60 * 60 + 5 * 60
    }

    /// When the vote ends, given the post's creation time in seconds.
    pub fn end_time_secs(&self, post_creation_secs: u64) -> (r: u64)
        requires
            post_creation_secs + self.slot_id * 3600 + 300 <= u64::MAX,
        ensures
            r == post_creation_secs + self.slot_id * 3600 + 300,
    {
        post_creation_secs + self.vote_duration_secs()
    }

    /// How long the vote still runs at `now_secs`, zero once it ended.
    pub fn time_remaining_secs(&self, post_creation_secs: u64, now_secs: u64) -> (r: u64)
        requires
            post_creation_secs + self.slot_id * 3600 + 300 <= u64::MAX,
        ensures
            r == if post_creation_secs + self.slot_id * 3600 + 300 > now_secs {
                post_creation_secs + self.slot_id * 3600 + 300 - now_secs
            } else {
                0int
            },
    {
        let end = self.end_time_secs(post_creation_secs);
        if end > now_secs {
            end - now_secs
        } else {
            0
        }
    }
}

/// A vote's outcome as the backend reports it to the vote maker.
#[derive(Clone, Copy, Debug)]
pub enum BetOutcomeForBetMaker {
    Lost,
    Draw(u64),
    Won(u64),
    AwaitingResult,
}

/// A vote's side as the backend reports it.
#[derive(Clone, Copy, Debug)]
pub enum BetDirection {
    Hot,
    Not,
}

/// One placed vote as the backend serves it.
#[derive(Clone, Debug)]
pub struct PlacedBetDetail {
    pub canister_id: String,
    pub post_id: u64,
    pub outcome_received: BetOutcomeForBetMaker,
    pub bet_direction: BetDirection,
    pub amount_bet: u64,
    pub bet_placed_at_secs: u64,
    pub bet_placed_at_nanos: u32,
    pub slot_id: u8,
}

/// The vote record a backend vote converts to.
pub open spec fn spec_vote_details_of(bet: PlacedBetDetail) -> VoteDetails {
    VoteDetails {
        outcome: match bet.outcome_received {
            BetOutcomeForBetMaker::Lost => VoteOutcome::Lost,
            BetOutcomeForBetMaker::Draw(w) => VoteOutcome::Draw(w),
            BetOutcomeForBetMaker::Won(w) => VoteOutcome::Won(w),
            BetOutcomeForBetMaker::AwaitingResult => VoteOutcome::AwaitingResult,
        },
        post_id: bet.post_id,
        canister_id: bet.canister_id,
        vote_kind: match bet.bet_direction {
            BetDirection::Hot => VoteKind::Hot,
            BetDirection::Not => VoteKind::Not,
        },
        vote_amount: bet.amount_bet,
        placed_at_secs: bet.bet_placed_at_secs,
        placed_at_nanos: bet.bet_placed_at_nanos,
        slot_id: bet.slot_id,
    }
}

impl From<PlacedBetDetail> for VoteDetails {
    fn from(bet: PlacedBetDetail) -> (r: VoteDetails) {
        let outcome = match bet.outcome_received {
            BetOutcomeForBetMaker::Lost => VoteOutcome::Lost,
            BetOutcomeForBetMaker::Draw(w) => VoteOutcome::Draw(w),
            BetOutcomeForBetMaker::Won(w) => VoteOutcome::Won(w),
            BetOutcomeForBetMaker::AwaitingResult => VoteOutcome::AwaitingResult,
        };
        let vote_kind = match bet.bet_direction {
            BetDirection::Hot => VoteKind::Hot,
            BetDirection::Not => VoteKind::Not,
        };
        VoteDetails {
            outcome,
            post_id: bet.post_id,
            canister_id: bet.canister_id,
            vote_kind,
            vote_amount: bet.amount_bet,
            placed_at_secs: bet.bet_placed_at_secs,
            placed_at_nanos: bet.bet_placed_at_nanos,
            slot_id: bet.slot_id,
        }
    }
}

impl vstd::std_specs::convert::FromSpecImpl<PlacedBetDetail> for VoteDetails {
    open spec fn obeys_from_spec() -> bool {
        true
    }

    open spec fn from_spec(bet: PlacedBetDetail) -> VoteDetails {
        spec_vote_details_of(bet)
    }
}

/// The vote records of a fetched batch, in order.
pub open spec fn vote_details_seq(bets: Seq<PlacedBetDetail>) -> Seq<VoteDetails> {
    bets.map_values(|b: PlacedBetDetail| spec_vote_details_of(b))
}

/// The number of votes the fixed-page backends serve per page: any other
/// requested size is a caller error.
pub const VOTES_PAGE_SIZE: usize = 10;

/// Assembles a vote page from the batch a backend returned for
/// `[start, end)`. The backends serve exactly [`VOTES_PAGE_SIZE`] votes per
/// request, so any other requested size is rejected as an invalid page
/// size; otherwise every fetched vote is converted in order and the stream
/// ends exactly when the backend returned fewer votes than requested.
/// Paging a backend of `n` votes under this per-page rule covers all `n`
/// exactly (see `cursored_data::lemma_end_of_stream`); the remote backend
/// itself lives behind a transport and is not modelled here.
pub fn votes_page_from_bets(bets: Vec<PlacedBetDetail>, start: usize, end: usize) -> (r: Result<
    PageEntry<VoteDetails>,
    Error,
>)
    requires
        start <= end,
    ensures
        end - start != VOTES_PAGE_SIZE ==> (r matches Err(e) && e is InvalidPageSize),
        end - start == VOTES_PAGE_SIZE ==> (r matches Ok(p) && p.data@ == vote_details_seq(bets@)
            && p.end == (bets@.len() < VOTES_PAGE_SIZE)),
{
    if end - start != VOTES_PAGE_SIZE {
        return Err(Error::InvalidPageSize);
    }
    let list_end = bets.len() < VOTES_PAGE_SIZE;
    let ghost orig = bets@;
    let mut rest = bets;
    let mut data: Vec<VoteDetails> = Vec::new();
    while rest.len() > 0
        invariant
            data@.len() + rest@.len() == orig.len(),
            rest@ == orig.subrange(data@.len() as int, orig.len() as int),
            forall|j: int| 0 <= j < data@.len() ==> data@[j] == spec_vote_details_of(orig[j]),
        decreases rest.len(),
    {
        let ghost k = data@.len() as int;
        let b = rest.remove(0);
        proof {
            assert(b == orig[k]);
            assert(rest@ =~= orig.subrange(k + 1, orig.len() as int));
        }
        data.push(VoteDetails::from(b));
    }
    proof {
        assert(data@ =~= vote_details_seq(orig));
    }
    Ok(PageEntry { data, end: list_end })
}

/// The vote history of one user, served by the plain votes backend in
/// fixed pages of [`VOTES_PAGE_SIZE`].
#[derive(Clone, Debug)]
pub struct VotesProvider {
    user: String,
}

impl VotesProvider {
    /// A vote history source for `user`.
    pub fn new(user: String) -> (r: Self)
        ensures
            r.spec_user() == user,
    {
        VotesProvider { user }
    }

    /// The user whose votes this source serves.
    pub closed spec fn spec_user(&self) -> String {
        self.user
    }

    /// Assembles the page for `[start, end)` from the fetched batch.
    pub fn page_from_bets(&self, bets: Vec<PlacedBetDetail>, start: usize, end: usize) -> (r:
        Result<PageEntry<VoteDetails>, Error>)
        requires
            start <= end,
        ensures
            end - start != VOTES_PAGE_SIZE ==> (r matches Err(e) && e is InvalidPageSize),
            end - start == VOTES_PAGE_SIZE ==> (r matches Ok(p) && p.data@ == vote_details_seq(
                bets@,
            ) && p.end == (bets@.len() < VOTES_PAGE_SIZE)),
    {
        votes_page_from_bets(bets, start, end)
    }
}

/// The vote history of one user, served by the cents votes backend in
/// fixed pages of [`VOTES_PAGE_SIZE`].
#[derive(Clone, Debug)]
pub struct VotesWithCentsProvider {
    user: String,
}

impl VotesWithCentsProvider {
    /// A vote history source for `user`.
    pub fn new(user: String) -> (r: Self)
        ensures
            r.spec_user() == user,
    {
        VotesWithCentsProvider { user }
    }

    /// The user whose votes this source serves.
    pub closed spec fn spec_user(&self) -> String {
        self.user
    }

    /// Assembles the page for `[start, end)` from the fetched batch.
    pub fn page_from_bets(&self, bets: Vec<PlacedBetDetail>, start: usize, end: usize) -> (r:
        Result<PageEntry<VoteDetails>, Error>)
        requires
            start <= end,
        ensures
            end - start != VOTES_PAGE_SIZE ==> (r matches Err(e) && e is InvalidPageSize),
            end - start == VOTES_PAGE_SIZE ==> (r matches Ok(p) && p.data@ == vote_details_seq(
                bets@,
            ) && p.end == (bets@.len() < VOTES_PAGE_SIZE)),
    {
        votes_page_from_bets(bets, start, end)
    }
}

/// The game history of one user, served by the worker through an opaque
/// cursor token. The source only moves forward and ignores the caller's
/// indices except for the page size; reads on one instance must not
/// overlap.
#[derive(Clone, Debug)]
pub struct VotesWithSatsProvider {
    /// The token the next fetch resumes from; `None` before the first
    /// fetch, and again once a response ends the stream.
    next: Option<String>,
    user_principal: String,
}

impl VotesWithSatsProvider {
    /// A game history source for `user_principal`, positioned at the
    /// start of the stream.
    pub fn new(user_principal: String) -> (r: Self)
        ensures
            r.spec_cursor() is None,
            r.spec_user() == user_principal,
    {
        VotesWithSatsProvider { next: None, user_principal }
    }

    /// The cursor the next fetch resumes from.
    pub closed spec fn spec_cursor(&self) -> Option<String> {
        self.next
    }

    /// The user whose games this source serves.
    pub closed spec fn spec_user(&self) -> String {
        self.user_principal
    }

    /// The stored cursor token.
    pub fn get_cursor(&self) -> (r: Option<String>)
        ensures
            r == self.spec_cursor(),
    {
        match &self.next {
            Some(c) => Some(c.clone()),
            None => None,
        }
    }

    /// The request for the next page: the caller's indices contribute only
    /// the page size, and the stored cursor token picks the position.
    pub fn next_page_req(&self, start: usize, end: usize) -> (r: PaginatedGamesReq)
        requires
            start <= end,
        ensures
            r.page_size == end - start,
            r.cursor == self.spec_cursor(),
    {
        PaginatedGamesReq { page_size: end - start, cursor: self.get_cursor() }
    }

    /// Applies the worker's response: the page holds exactly the games
    /// returned, the stream ends exactly when the response carries no next
    /// token, and the token is stored for the following request.
    pub fn apply_response(&mut self, res: PaginatedGamesRes) -> (r: PageEntry<GameRes>)
        ensures
            final(self).spec_cursor() == res.next,
            final(self).spec_user() == old(self).spec_user(),
            r.data@ == res.games@,
            r.end == (res.next is None),
    {
        let is_end = res.next.is_none();
        self.next = res.next;
        PageEntry { data: res.games, end: is_end }
    }
}

} // verus!

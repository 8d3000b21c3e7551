//! Request and response types of the hot-or-not game worker, including the
//! cursor-token pagination wire types.
//!
//! Amounts the worker serves as unbounded naturals are held as 128-bit
//! integers, and principals as their text form.

use vstd::prelude::*;

use crate::cursored_data::KeyedData;
use crate::store::DupValue;

verus! {

pub const WORKER_URL: &'static str = "https://yral-hot-or-not.go-bazzinga.workers.dev/";

/// The errors the game worker reports.
#[derive(Clone, Debug)]
pub enum WorkerError {
    InvalidSignature,
    Internal(String),
    AlreadyVotedOnPost,
    PostNotFound,
    InsufficientFunds,
    TreasuryOutOfFunds,
    TreasuryLimitReached,
}

impl WorkerError {
    /// Stable text for each error kind.
    pub fn as_text(&self) -> (r: &'static str)
        ensures
            r@ == self.spec_text(),
    {
        match self {
            WorkerError::InvalidSignature => "Invalid Signature",
            WorkerError::Internal(_) => "internal error",
            WorkerError::AlreadyVotedOnPost => "user has already voted on this post",
            WorkerError::PostNotFound => "post not found",
            WorkerError::InsufficientFunds => "user does not have sufficient balance",
            WorkerError::TreasuryOutOfFunds => "treasury is out of funds",
            WorkerError::TreasuryLimitReached => "treasury limit reached, try again tomorrow",
        }
    }

    /// The text `as_text` returns for each variant.
    pub open spec fn spec_text(&self) -> Seq<char> {
        match self {
            WorkerError::InvalidSignature => "Invalid Signature"@,
            WorkerError::Internal(_) => "internal error"@,
            WorkerError::AlreadyVotedOnPost => "user has already voted on this post"@,
            WorkerError::PostNotFound => "post not found"@,
            WorkerError::InsufficientFunds => "user does not have sufficient balance"@,
            WorkerError::TreasuryOutOfFunds => "treasury is out of funds"@,
            WorkerError::TreasuryLimitReached => "treasury limit reached, try again tomorrow"@,
        }
    }
}

/// The errors an airdrop claim can end in.
#[derive(Clone, Copy, Debug)]
pub enum AirdropClaimError {
    InvalidSignature,
    AlreadyClaimed,
}

/// A user's satoshi balance and how much of it was airdropped.
#[derive(Clone, Copy, Debug)]
pub struct SatsBalanceInfo {
    pub balance: u128,
    pub airdropped: u128,
}

/// The two sides of a hot-or-not vote.
#[derive(Clone, Copy, Debug, PartialEq, Eq, Structural)]
pub enum HotOrNot {
    Hot,
    Not,
}

/// How a finished game paid out.
#[derive(Clone, Copy, Debug)]
pub enum GameResult {
    Win { win_amt: u128 },
    Loss { lose_amt: u128 },
}

/// What a game was about, from the worker's records.
#[derive(Clone, Copy, Debug)]
pub enum GameInfo {
    CreatorReward(u128),
    Vote { vote_amount: u128, game_result: GameResult },
}

/// The worker's answer to a vote.
#[derive(Clone, Copy, Debug)]
pub struct VoteRes {
    pub game_result: GameResult,
}

/// A vote to place on a post.
#[derive(Clone, Debug)]
pub struct VoteRequest {
    pub post_canister: String,
    pub post_id: u64,
    pub vote_amount: u128,
    pub direction: HotOrNot,
}

/// One game of the paginated game history, keyed by the post it was
/// played on.
#[derive(Clone, Debug)]
pub struct GameRes {
    pub post_canister: String,
    pub post_id: u64,
    pub game_info: GameInfo,
}

impl KeyedData for GameRes {
    type Key = (String, u64);

    open spec fn spec_key(&self) -> (String, u64) {
        (self.post_canister, self.post_id)
    }

    fn key(&self) -> (r: (String, u64)) {
        (self.post_canister.clone(), self.post_id)
    }
}

impl DupValue for GameRes {
    fn dup(&self) -> (r: Self) {
        GameRes {
            post_canister: self.post_canister.clone(),
            post_id: self.post_id,
            game_info: self.game_info,
        }
    }
}

/// A request for one page of game history: the page size, and the cursor
/// token the previous response handed back (`None` for the first page).
#[derive(Clone, Debug)]
pub struct PaginatedGamesReq {
    pub page_size: usize,
    pub cursor: Option<String>,
}

/// One page of game history, with the cursor token for the next page;
/// `None` means the stream is exhausted.
#[derive(Clone, Debug)]
pub struct PaginatedGamesRes {
    pub games: Vec<GameRes>,
    pub next: Option<String>,
}

/// A request for the state of one game, keyed like [`GameRes`].
#[derive(Clone, Debug)]
pub struct GameInfoReq {
    pub post_canister: String,
    pub post_id: u64,
}

impl From<(String, u64)> for GameInfoReq {
    fn from(key: (String, u64)) -> (r: GameInfoReq) {
        GameInfoReq { post_canister: key.0, post_id: key.1 }
    }
}

impl vstd::std_specs::convert::FromSpecImpl<(String, u64)> for GameInfoReq {
    open spec fn obeys_from_spec() -> bool {
        true
    }

    open spec fn from_spec(key: (String, u64)) -> GameInfoReq {
        GameInfoReq { post_canister: key.0, post_id: key.1 }
    }
}

/// A withdrawal order for game winnings.
#[derive(Clone, Debug)]
pub struct WithdrawRequest {
    pub receiver: String,
    pub amount: u128,
}

} // verus!

//! Types of the pump-and-dump game worker: game directions, withdrawal
//! state, game records, and the websocket request/response surface.
//!
//! Amounts the worker serves as unbounded naturals are held as 128-bit
//! integers, request identifiers as their 128-bit value, and principals as
//! their text form.

use vstd::prelude::*;

verus! {

/// The two sides of a pump-and-dump game.
#[derive(Clone, Copy, Debug, PartialEq, Eq, Structural)]
pub enum GameDirection {
    Pump,
    Dump,
}

/// Whether winnings can be withdrawn yet, or more earnings are needed.
#[derive(Clone, Copy, Debug)]
pub enum WithdrawalState {
    Value(u128),
    NeedMoreEarnings(u128),
}

/// A user's bets in one game.
#[derive(Clone, Copy, Debug)]
pub struct UserBetsResponse {
    pub pumps: u64,
    pub dumps: u64,
}

/// A user's game balances.
#[derive(Clone, Copy, Debug)]
pub struct BalanceInfoResponse {
    pub net_airdrop_reward: u128,
    pub balance: u128,
    pub withdrawable: u128,
}

/// A finished game's record.
#[derive(Clone, Debug)]
pub struct CompletedGameInfo {
    pub pumps: u64,
    pub dumps: u64,
    pub reward: u128,
    pub token_root: String,
    pub outcome: GameDirection,
}

/// A game not yet committed upstream: finished, or still pending.
#[derive(Clone, Debug)]
pub enum UncommittedGameInfo {
    Completed(CompletedGameInfo),
    Pending { token_root: String },
}

/// The uncommitted games of one user.
pub type UncommittedGamesRes = Vec<UncommittedGameInfo>;

impl UncommittedGameInfo {
    /// The game's token root, regardless of state.
    pub fn token_root(&self) -> (r: String)
        ensures
            r@ == (match self {
                UncommittedGameInfo::Completed(info) => info.token_root@,
                UncommittedGameInfo::Pending { token_root } => token_root@,
            }),
    {
        match self {
            UncommittedGameInfo::Completed(info) => info.token_root.clone(),
            UncommittedGameInfo::Pending { token_root } => token_root.clone(),
        }
    }
}

/// The requests the game worker handles.
#[derive(Clone, Copy, Debug)]
pub enum WsMessage {
    Bet { direction: GameDirection, round: u64 },
}

/// A complete worker request; the response to it carries the same
/// request id.
#[derive(Clone, Copy, Debug)]
pub struct WsRequest {
    pub request_id: u128,
    pub msg: WsMessage,
}

/// The result of one game round.
#[derive(Clone, Debug)]
pub struct GameResult {
    pub direction: GameDirection,
    pub reward_pool: u128,
    pub bet_count: u64,
    pub new_round: u64,
}

/// The errors the worker reports over the websocket.
#[derive(Clone, Debug)]
pub enum WsError {
    Generic(String),
    BetFailure { message: String, direction: GameDirection },
}

/// The responses and events the worker sends.
#[derive(Clone, Debug)]
pub enum WsResp {
    BetSuccesful { round: u64 },
    Error(WsError),
    GameResultEvent(GameResult),
    WinningPoolEvent { new_pool: u64, round: u64 },
    WelcomeEvent { round: u64, pool: u64, player_count: u64, user_bets: UserBetsResponse },
}

/// The request id the worker uses for unsolicited events.
pub const EVENT_REQUEST_ID: u128 = 0xffffffff_ffffffff_ffffffff_ffffffff;

impl WsResp {
    /// A generic error response.
    pub fn error(e: String) -> (r: Self)
        ensures
            r == WsResp::Error(WsError::Generic(e)),
    {
        WsResp::Error(WsError::Generic(e))
    }

    /// A failed-bet response.
    pub fn bet_failure(e: String, direction: GameDirection) -> (r: Self)
        ensures
            r == WsResp::Error(WsError::BetFailure { message: e, direction }),
    {
        WsResp::Error(WsError::BetFailure { message: e, direction })
    }
}

/// A complete worker response: an answer to some request, or an event.
#[derive(Clone, Debug)]
pub struct WsResponse {
    pub request_id: u128,
    pub response: WsResp,
}

impl WsResponse {
    /// Whether this is an unsolicited event rather than an answer: events
    /// carry the reserved all-ones request id.
    pub fn is_event(&self) -> (r: bool)
        ensures
            r == (self.request_id == EVENT_REQUEST_ID),
    {
        self.request_id == EVENT_REQUEST_ID
    }
}

} // verus!

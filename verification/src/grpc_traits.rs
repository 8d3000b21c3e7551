//! Capabilities the listing flows consume: a token-info lookup and the
//! airdrop configuration. Both are served by remote backends; callers
//! implement these interfaces around their transport.

use vstd::prelude::*;

verus! {

/// What the token-info backend knows about one token.
#[derive(Clone, Debug)]
pub struct TokenListItemFS {
    pub user_id: String,
    pub name: String,
    pub token_name: String,
    pub token_symbol: String,
    pub logo: String,
    pub description: String,
    pub created_at: String,
    pub link: String,
    pub is_nsfw: bool,
}

/// A token-info lookup by token id.
pub trait TokenInfoProvider {
    type Error;

    /// Looks one token up by its id.
    fn get_token_by_id(&self, token_id: String) -> Result<TokenListItemFS, Self::Error>;
}

/// How an airdrop runs: its cycle length and per-cycle claim limit.
#[derive(Clone, Copy, Debug)]
pub struct AirdropConfig {
    pub cycle_duration: u64,
    pub claim_limit: usize,
}

/// The airdrop configuration source.
pub trait AirdropConfigProvider {
    /// The airdrop configuration for one token symbol.
    fn get_airdrop_config(&self, symbol: String) -> AirdropConfig;
}

} // verus!

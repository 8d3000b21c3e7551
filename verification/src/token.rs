//! Token identities and metadata: which ledger a token lives on, and what
//! a metadata lookup returns about it.

use vstd::prelude::*;

use crate::balance::{TokenBalance, TokenBalanceOrClaiming};
use crate::consts::{CKBTC_INDEX, CKBTC_LEDGER, CKUSDC_INDEX, CKUSDC_LEDGER};
use crate::cursored_data::KeyedData;
use crate::pump_n_dump::WithdrawalState;
use crate::store::DupValue;

verus! {

/// Which root a token hangs off: the two wrapped chain tokens with their
/// well-known ledger and index canisters, the two built-in currencies, or
/// any other token root canister by its text id.
#[derive(Clone, Debug)]
pub enum RootType {
    BTC { ledger: String, index: String },
    USDC { ledger: String, index: String },
    COYNS,
    CENTS,
    Other(String),
}

/// A root's identity: its kind, and the canister ids that pin it down.
pub open spec fn root_skey(rt: RootType) -> (int, Seq<char>, Seq<char>) {
    match rt {
        RootType::BTC { ledger, index } => (0int, ledger@, index@),
        RootType::USDC { ledger, index } => (1int, ledger@, index@),
        RootType::COYNS => (2int, Seq::empty(), Seq::empty()),
        RootType::CENTS => (3int, Seq::empty(), Seq::empty()),
        RootType::Other(p) => (4int, p@, Seq::empty()),
    }
}

impl RootType {
    /// Parses a well-known token name, or takes any other text as a root
    /// canister id.
    pub fn from_text(s: &str) -> (r: RootType)
        ensures
            s@ == "btc"@ ==> (r matches RootType::BTC { ledger, index } && ledger@ == CKBTC_LEDGER@
                && index@ == CKBTC_INDEX@),
            s@ == "usdc"@ ==> (r matches RootType::USDC { ledger, index } && ledger@
                == CKUSDC_LEDGER@ && index@ == CKUSDC_INDEX@),
            s@ == "coyns"@ ==> r is COYNS,
            s@ == "cents"@ ==> r is CENTS,
            s@ != "btc"@ && s@ != "usdc"@ && s@ != "coyns"@ && s@ != "cents"@ ==> (
            r matches RootType::Other(p) && p@ == s@),
    {
        proof {
            reveal_strlit("btc");
            reveal_strlit("usdc");
            reveal_strlit("coyns");
            reveal_strlit("cents");
            assert("btc"@.len() == 3 && "usdc"@.len() == 4 && "coyns"@.len() == 5 && "cents"@.len()
                == 5);
            assert("coyns"@[1] == 'o' && "cents"@[1] == 'e');
            assert("btc"@ != "usdc"@ && "btc"@ != "coyns"@ && "btc"@ != "cents"@);
            assert("usdc"@ != "coyns"@ && "usdc"@ != "cents"@ && "coyns"@ != "cents"@);
        }
        let owned = String::from_str(s);
        if owned == String::from_str("btc") {
            RootType::BTC {
                ledger: String::from_str(CKBTC_LEDGER),
                index: String::from_str(CKBTC_INDEX),
            }
        } else if owned == String::from_str("usdc") {
            RootType::USDC {
                ledger: String::from_str(CKUSDC_LEDGER),
                index: String::from_str(CKUSDC_INDEX),
            }
        } else if owned == String::from_str("coyns") {
            RootType::COYNS
        } else if owned == String::from_str("cents") {
            RootType::CENTS
        } else {
            RootType::Other(owned)
        }
    }

    /// The text each root renders as.
    pub open spec fn spec_text(&self) -> Seq<char> {
        match self {
            RootType::BTC { .. } => "btc"@,
            RootType::USDC { .. } => "usdc"@,
            RootType::COYNS => "coyns"@,
            RootType::CENTS => "cents"@,
            RootType::Other(p) => p@,
        }
    }

    /// Renders the root.
    pub fn to_text(&self) -> (r: String)
        ensures
            r@ == self.spec_text(),
    {
        match self {
            RootType::BTC { .. } => String::from_str("btc"),
            RootType::USDC { .. } => String::from_str("usdc"),
            RootType::COYNS => String::from_str("coyns"),
            RootType::CENTS => String::from_str("cents"),
            RootType::Other(p) => p.clone(),
        }
    }

    /// Decides whether two roots share one identity.
    pub fn same_root(&self, other: &RootType) -> (r: bool)
        ensures
            r == (root_skey(*self) == root_skey(*other)),
    {
        match (self, other) {
            (RootType::BTC { ledger: l1, index: i1 }, RootType::BTC { ledger: l2, index: i2 }) => {
                *l1 == *l2 && *i1 == *i2
            },
            (
                RootType::USDC { ledger: l1, index: i1 },
                RootType::USDC { ledger: l2, index: i2 },
            ) => { *l1 == *l2 && *i1 == *i2 },
            (RootType::COYNS, RootType::COYNS) => true,
            (RootType::CENTS, RootType::CENTS) => true,
            (RootType::Other(p1), RootType::Other(p2)) => *p1 == *p2,
            _ => false,
        }
    }
}

impl KeyedData for RootType {
    type Key = RootType;

    open spec fn spec_key(&self) -> RootType {
        *self
    }

    fn key(&self) -> (r: RootType) {
        self.dup()
    }
}

impl DupValue for RootType {
    fn dup(&self) -> (r: Self) {
        match self {
            RootType::BTC { ledger, index } => RootType::BTC {
                ledger: ledger.clone(),
                index: index.clone(),
            },
            RootType::USDC { ledger, index } => RootType::USDC {
                ledger: ledger.clone(),
                index: index.clone(),
            },
            RootType::COYNS => RootType::COYNS,
            RootType::CENTS => RootType::CENTS,
            RootType::Other(p) => RootType::Other(p.clone()),
        }
    }
}

/// Who deployed a token.
#[derive(Clone, Debug)]
pub struct TokenOwner {
    pub principal_id: String,
    pub canister_id: String,
}

/// What a metadata lookup returns about one token.
#[derive(Clone, Debug)]
pub struct TokenMetadata {
    pub logo_b64: String,
    pub name: String,
    pub description: String,
    pub symbol: String,
    pub balance: Option<TokenBalanceOrClaiming>,
    /// Applicable for the cents currency only.
    pub withdrawable_state: Option<WithdrawalState>,
    pub fees: TokenBalance,
    pub root: Option<String>,
    pub ledger: String,
    pub index: String,
    pub decimals: u8,
    pub is_nsfw: bool,
    pub token_owner: Option<TokenOwner>,
}

/// Whether a metadata lookup shows a settled, non-zero balance: the
/// eligibility test for pinning a non-platform token onto the first page.
pub open spec fn has_positive_balance(m: TokenMetadata) -> bool {
    m.balance matches Some(b) && b.0 matches Some(tb) && tb.e8s > 0
}

/// Whether a metadata lookup shows a balance settled at exactly zero: the
/// one state that keeps a wrapped chain token off the pinned head (a
/// missing or still-claiming balance keeps it pinned).
pub open spec fn settled_zero_balance(m: TokenMetadata) -> bool {
    m.balance matches Some(b) && b.0 matches Some(tb) && tb.e8s == 0
}

impl TokenMetadata {
    /// Decides [`has_positive_balance`].
    pub fn balance_is_positive(&self) -> (r: bool)
        ensures
            r == has_positive_balance(*self),
    {
        match &self.balance {
            Some(b) => {
                match &b.0 {
                    Some(tb) => tb.e8s > 0,
                    None => false,
                }
            },
            None => false,
        }
    }

    /// Decides [`settled_zero_balance`].
    pub fn balance_is_settled_zero(&self) -> (r: bool)
        ensures
            r == settled_zero_balance(*self),
    {
        match &self.balance {
            Some(b) => {
                match &b.0 {
                    Some(tb) => tb.e8s == 0,
                    None => false,
                }
            },
            None => false,
        }
    }
}

} // verus!

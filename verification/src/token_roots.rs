//! The token-roots listing: a paginated view over a user's tokens, with
//! eligible pinned tokens spliced ahead of the natural items on the first
//! page.
//!
//! Candidate resolution runs outside the engine (one balance or metadata
//! lookup per candidate, concurrently); the engine takes the per-candidate
//! outcomes in canonical candidate order, drops failed or ineligible
//! candidates silently, filters out excluded roots, and splices the
//! survivors ahead of the natural page. Pinned items never influence the
//! end-of-stream flag: that comes from the natural fetch alone.

use vstd::prelude::*;

use crate::cursored_data::{KeyedData, PageEntry};
use crate::error::Error;
use crate::store::DupValue;
use crate::token::{has_positive_balance, root_skey, settled_zero_balance, RootType, TokenMetadata};

verus! {

/// One entry of the token listing: a root, whether its airdrop was
/// claimed, and its metadata.
#[derive(Clone, Debug)]
pub struct TokenListResponse {
    pub root: RootType,
    pub airdrop_claimed: bool,
    pub token_metadata: TokenMetadata,
}

impl KeyedData for TokenListResponse {
    type Key = RootType;

    open spec fn spec_key(&self) -> RootType {
        self.root
    }

    fn key(&self) -> (r: RootType) {
        self.root.dup()
    }
}

/// The root canisters of supported tokens that are not the platform's own;
/// they are pinned onto the first page when the viewer holds a balance.
pub fn supported_non_yral_tokens_root() -> (r: Vec<&'static str>)
    ensures
        r@.len() == 1,
        r@[0]@ == "67bll-riaaa-aaaaq-aaauq-cai"@,
{
    let mut v: Vec<&'static str> = Vec::new();
    v.push("67bll-riaaa-aaaaq-aaauq-cai");
    v
}

/// The canonical pinned-candidate order of the first page: the two
/// built-in currencies, then the two wrapped chain tokens on their
/// well-known ledger and index canisters, then the supported non-platform
/// roots. Candidates are resolved in this order, and the splice keeps it.
pub fn pinned_candidates() -> (r: Vec<RootType>)
    ensures
        r@.len() == 5,
        r@[0] is COYNS,
        r@[1] is CENTS,
        r@[2] matches RootType::BTC { ledger, index } && ledger@
            == crate::consts::CKBTC_LEDGER@ && index@ == crate::consts::CKBTC_INDEX@,
        r@[3] matches RootType::USDC { ledger, index } && ledger@
            == crate::consts::CKUSDC_LEDGER@ && index@ == crate::consts::CKUSDC_INDEX@,
        r@[4] matches RootType::Other(p) && p@ == "67bll-riaaa-aaaaq-aaauq-cai"@,
{
    let mut v: Vec<RootType> = Vec::new();
    v.push(RootType::COYNS);
    v.push(RootType::CENTS);
    v.push(
        RootType::BTC {
            ledger: String::from_str(crate::consts::CKBTC_LEDGER),
            index: String::from_str(crate::consts::CKBTC_INDEX),
        },
    );
    v.push(
        RootType::USDC {
            ledger: String::from_str(crate::consts::CKUSDC_LEDGER),
            index: String::from_str(crate::consts::CKUSDC_INDEX),
        },
    );
    let mut supported = supported_non_yral_tokens_root();
    while supported.len() > 0
        invariant
            v@.len() == 4 + (1 - supported@.len()),
            supported@.len() <= 1,
            supported@.len() == 1 ==> supported@[0]@ == "67bll-riaaa-aaaaq-aaauq-cai"@,
            v@.len() >= 4 ==> v@[0] is COYNS && v@[1] is CENTS,
            v@.len() >= 4 ==> (v@[2] matches RootType::BTC { ledger, index } && ledger@
                == crate::consts::CKBTC_LEDGER@ && index@ == crate::consts::CKBTC_INDEX@),
            v@.len() >= 4 ==> (v@[3] matches RootType::USDC { ledger, index } && ledger@
                == crate::consts::CKUSDC_LEDGER@ && index@ == crate::consts::CKUSDC_INDEX@),
            v@.len() == 5 ==> (v@[4] matches RootType::Other(p) && p@
                == "67bll-riaaa-aaaaq-aaauq-cai"@),
        decreases supported.len(),
    {
        let root = supported.remove(0);
        v.push(RootType::Other(String::from_str(root)));
    }
    v
}

/// The supported non-platform tokens a batch of metadata lookups makes
/// eligible: the lookups that succeeded with a settled, non-zero balance,
/// in canonical order.
pub open spec fn eligible_tokens_spec(lookups: Seq<(String, Option<TokenMetadata>)>) -> Seq<
    TokenListResponse,
>
    decreases lookups.len(),
{
    if lookups.len() == 0 {
        Seq::empty()
    } else {
        (if lookups[0].1 matches Some(m) && has_positive_balance(m) {
            seq![
                TokenListResponse {
                    root: RootType::Other(lookups[0].0),
                    airdrop_claimed: true,
                    token_metadata: lookups[0].1->Some_0,
                },
            ]
        } else {
            Seq::empty()
        }) + eligible_tokens_spec(lookups.drop_first())
    }
}

/// Resolves the supported non-platform tokens against their metadata
/// lookups: a candidate stays only when its lookup succeeded and shows a
/// settled, non-zero balance, and the canonical order is kept. A failed
/// candidate is dropped silently, never an error.
pub fn eligible_non_yral_supported_tokens(lookups: Vec<(String, Option<TokenMetadata>)>) -> (r:
    Vec<TokenListResponse>)
    ensures
        r@ == eligible_tokens_spec(lookups@),
{
    let ghost orig = lookups@;
    let mut rest = lookups;
    let mut out: Vec<TokenListResponse> = Vec::new();
    while rest.len() > 0
        invariant
            eligible_tokens_spec(orig) == out@ + eligible_tokens_spec(rest@),
        decreases rest.len(),
    {
        let ghost before = rest@;
        let (root, lookup) = rest.remove(0);
        proof {
            assert(rest@ =~= before.drop_first());
        }
        match lookup {
            Some(m) => {
                if m.balance_is_positive() {
                    out.push(
                        TokenListResponse {
                            root: RootType::Other(root),
                            airdrop_claimed: true,
                            token_metadata: m,
                        },
                    );
                }
            },
            None => {},
        }
        proof {
            assert(eligible_tokens_spec(orig) =~= out@ + eligible_tokens_spec(rest@));
        }
    }
    proof {
        assert(out@ =~= eligible_tokens_spec(orig));
    }
    out
}

/// Decides a wrapped chain token's pinned listing from its metadata: the
/// candidate stays unless its balance is settled at exactly zero (a
/// missing or still-claiming balance keeps it), and a listed wrapped
/// token always counts its airdrop as claimed.
pub fn ck_pinned_listing(root: RootType, metadata: TokenMetadata) -> (r: Option<TokenListResponse>)
    ensures
        !settled_zero_balance(metadata) ==> r == Some(
            TokenListResponse { root, airdrop_claimed: true, token_metadata: metadata },
        ),
        settled_zero_balance(metadata) ==> r is None,
{
    if metadata.balance_is_settled_zero() {
        None
    } else {
        Some(TokenListResponse { root, airdrop_claimed: true, token_metadata: metadata })
    }
}

/// The pinned candidates that resolved, in canonical candidate order:
/// resolution runs concurrently per candidate, but the spliced order is
/// the candidate list's, and failed candidates are dropped silently.
pub open spec fn resolved_spec(lookups: Seq<Option<TokenListResponse>>) -> Seq<TokenListResponse>
    decreases lookups.len(),
{
    if lookups.len() == 0 {
        Seq::empty()
    } else {
        (match lookups[0] {
            Some(t) => seq![t],
            None => Seq::empty(),
        }) + resolved_spec(lookups.drop_first())
    }
}

/// Keeps the resolved candidates in canonical order, dropping the ones
/// whose resolution failed or came back ineligible.
pub fn resolve_pinned(lookups: Vec<Option<TokenListResponse>>) -> (r: Vec<TokenListResponse>)
    ensures
        r@ == resolved_spec(lookups@),
{
    let ghost orig = lookups@;
    let mut rest = lookups;
    let mut out: Vec<TokenListResponse> = Vec::new();
    while rest.len() > 0
        invariant
            resolved_spec(orig) == out@ + resolved_spec(rest@),
        decreases rest.len(),
    {
        let ghost before = rest@;
        let lookup = rest.remove(0);
        proof {
            assert(rest@ =~= before.drop_first());
        }
        match lookup {
            Some(t) => {
                out.push(t);
            },
            None => {},
        }
        proof {
            assert(resolved_spec(orig) =~= out@ + resolved_spec(rest@));
        }
    }
    proof {
        assert(out@ =~= resolved_spec(orig));
    }
    out
}

/// Whether `root` is one of the excluded roots.
pub open spec fn root_excluded(root: RootType, exclude: Seq<RootType>) -> bool {
    exists|i: int| 0 <= i < exclude.len() && root_skey(#[trigger] exclude[i]) == root_skey(root)
}

/// The pinned entries that survive the caller's exclusion set, in order.
pub open spec fn filter_excluded(
    pinned: Seq<TokenListResponse>,
    exclude: Seq<RootType>,
) -> Seq<TokenListResponse>
    decreases pinned.len(),
{
    if pinned.len() == 0 {
        Seq::empty()
    } else {
        (if root_excluded(pinned[0].root, exclude) {
            Seq::empty()
        } else {
            seq![pinned[0]]
        }) + filter_excluded(pinned.drop_first(), exclude)
    }
}

/// The token listing of one user: the viewer, the user's canister and
/// principal, and the roots the caller wants excluded from the pinned
/// head.
#[derive(Clone, Debug)]
pub struct TokenRootList {
    pub viewer_principal: String,
    pub user_canister: String,
    pub user_principal: String,
    pub exclude: Vec<RootType>,
}

impl TokenRootList {
    /// Turns the user canister's listing outcome into the natural roots
    /// or a hard error: the natural page fetch is the primary fetch, so a
    /// backend-side error propagates, never an empty ended page.
    pub fn natural_roots_from_listing(&self, listing: Result<Vec<String>, String>) -> (r: Result<
        Vec<String>,
        Error,
    >)
        ensures
            listing matches Ok(roots) ==> r == Ok::<Vec<String>, Error>(roots),
            listing matches Err(msg) ==> r == Err::<Vec<String>, Error>(Error::YralCanister(msg)),
    {
        match listing {
            Ok(roots) => Ok(roots),
            Err(msg) => Err(Error::YralCanister(msg)),
        }
    }

    /// Whether `root` is in the exclusion set.
    fn is_excluded(&self, root: &RootType) -> (r: bool)
        ensures
            r == root_excluded(*root, self.exclude@),
    {
        let mut i: usize = 0;
        while i < self.exclude.len()
            invariant
                i <= self.exclude@.len(),
                forall|j: int|
                    0 <= j < i ==> root_skey(#[trigger] self.exclude@[j]) != root_skey(*root),
            decreases self.exclude@.len() - i,
        {
            let ent = &self.exclude[i];
            if ent.same_root(root) {
                return true;
            }
            i += 1;
        }
        false
    }

    /// Assembles one page of the listing. On the first page (`start == 0`)
    /// the resolved pinned entries — minus the excluded roots — are placed
    /// ahead of the natural items in canonical order; on any other page
    /// the natural items stand alone. The end-of-stream flag compares the
    /// natural fetch against what was requested, so pinned entries never
    /// influence it.
    pub fn splice_page(
        &self,
        start: usize,
        pinned: Vec<TokenListResponse>,
        natural: Vec<TokenListResponse>,
        fetched_count: usize,
        requested: usize,
    ) -> (r: PageEntry<TokenListResponse>)
        ensures
            r.end == (fetched_count < requested),
            start == 0 ==> r.data@ == filter_excluded(pinned@, self.exclude@) + natural@,
            start != 0 ==> r.data@ == natural@,
    {
        let list_end = fetched_count < requested;
        if start != 0 {
            return PageEntry { data: natural, end: list_end };
        }
        let ghost orig = pinned@;
        let mut rest = pinned;
        let mut data: Vec<TokenListResponse> = Vec::new();
        while rest.len() > 0
            invariant
                filter_excluded(orig, self.exclude@) == data@ + filter_excluded(
                    rest@,
                    self.exclude@,
                ),
            decreases rest.len(),
        {
            let ghost before = rest@;
            let t = rest.remove(0);
            proof {
                assert(rest@ =~= before.drop_first());
            }
            if !self.is_excluded(&t.root) {
                data.push(t);
            }
            proof {
                assert(filter_excluded(orig, self.exclude@) =~= data@ + filter_excluded(
                    rest@,
                    self.exclude@,
                ));
            }
        }
        let mut tail = natural;
        let ghost head = data@;
        data.append(&mut tail);
        proof {
            assert(head =~= filter_excluded(orig, self.exclude@));
        }
        PageEntry { data, end: list_end }
    }
}

} // verus!

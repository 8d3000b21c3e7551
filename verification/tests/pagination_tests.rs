//! Cursored pagination: end-of-stream detection, ledger offset
//! translation, the cursor-token source, fixed-size vote pages, and the
//! pinned-item splice.

use feed_core::cursored_data::{CursoredDataProvider, VecDataProvider};
use feed_core::error::Error;
use feed_core::hon_worker::{GameInfo, GameRes, PaginatedGamesRes};
use feed_core::token::{RootType, TokenMetadata, TokenOwner};
use feed_core::token_roots::{
    ck_pinned_listing, eligible_non_yral_supported_tokens, resolve_pinned,
    supported_non_yral_tokens_root, TokenListResponse, TokenRootList,
};
use feed_core::balance::{TokenBalance, TokenBalanceOrClaiming};
use feed_core::transaction::{
    last_block_index_from_bytes, BurnOp, IndexedTransaction, LedgerTransaction, MintOp,
    TransferOp, TxnHistory, TxnInfoType,
};
use feed_core::vote::{
    votes_page_from_bets, BetDirection, BetOutcomeForBetMaker, PlacedBetDetail, VoteKind,
    VoteOutcome, VotesWithSatsProvider,
};
use feed_core::ref_history::{ReferralHistory, TokenEvent};
use feed_core::types::PlainPostItem;

fn plain(id: u64) -> PlainPostItem {
    PlainPostItem {
        canister_id: "c".to_string(),
        post_id: id,
    }
}

#[test]
fn vec_source_pages_cover_the_stream() {
    // a source with exactly 23 items, requested in pages of 10
    let src = VecDataProvider::from_items((0..23u64).map(plain).collect());
    let p0 = src.get_by_cursor(0, 10).unwrap();
    assert_eq!(p0.data.len(), 10);
    assert!(!p0.end);
    let p1 = src.get_by_cursor(10, 20).unwrap();
    assert_eq!(p1.data.len(), 10);
    assert!(!p1.end);
    let p2 = src.get_by_cursor(20, 30).unwrap();
    assert_eq!(p2.data.len(), 3);
    assert!(p2.end);
    // the pages cover the source exactly, in order
    let total: Vec<u64> = p0
        .data
        .iter()
        .chain(p1.data.iter())
        .chain(p2.data.iter())
        .map(|p| p.post_id)
        .collect();
    assert_eq!(total, (0..23u64).collect::<Vec<_>>());
}

#[test]
fn vec_source_exact_multiple_needs_one_empty_page() {
    let src = VecDataProvider::from_items((0..20u64).map(plain).collect());
    let p1 = src.get_by_cursor(10, 20).unwrap();
    assert_eq!(p1.data.len(), 10);
    // a full page never ends the stream, even when nothing follows
    assert!(!p1.end);
    let p2 = src.get_by_cursor(20, 30).unwrap();
    assert_eq!(p2.data.len(), 0);
    assert!(p2.end);
}

#[test]
fn ledger_plan_translates_most_recent_first() {
    // 23 transactions, page [0, 10) most-recent-first
    let (start_index, length, is_end) = TxnHistory::ledger_page_plan(23, 0, 10);
    assert_eq!(start_index, 13);
    assert_eq!(length, 10);
    assert!(!is_end);

    // page [20, 30) reaches the oldest transactions
    let (start_index, length, is_end) = TxnHistory::ledger_page_plan(23, 20, 30);
    assert_eq!(start_index, 0);
    assert_eq!(length, 3);
    assert!(is_end);
}

fn mint_txn(ts: u64, to: &str, amount: u128) -> LedgerTransaction {
    LedgerTransaction {
        timestamp: ts,
        mint: Some(MintOp {
            to: to.to_string(),
            amount,
        }),
        burn: None,
        transfer: None,
    }
}

#[test]
fn ledger_page_parses_and_reverses() {
    let txns = vec![
        mint_txn(1, "alice", 10),
        LedgerTransaction {
            timestamp: 2,
            mint: None,
            burn: None,
            transfer: None,
        },
        LedgerTransaction {
            timestamp: 3,
            mint: None,
            burn: Some(BurnOp {
                from: "bob".to_string(),
                amount: 7,
            }),
            transfer: None,
        },
    ];
    let page = TxnHistory::parse_ledger_page(txns, 100, 8, false);
    // the unparseable record is dropped, the rest come most-recent-first
    assert_eq!(page.data.len(), 2);
    assert!(!page.end);
    assert_eq!(page.data[0].id, 102);
    assert!(matches!(page.data[0].tag, TxnInfoType::Burn { .. }));
    assert_eq!(page.data[1].id, 100);
    assert!(matches!(page.data[1].tag, TxnInfoType::Mint { .. }));
    assert_eq!(page.data[1].timestamp, 1);
    assert_eq!(page.data[1].amount.e8s, 10);
    assert_eq!(page.data[1].amount.decimals, 8);
}

#[test]
fn index_page_classifies_transfers_for_the_account() {
    let me = "me".to_string();
    let transfer = |from: &str, to: &str, id: u64| IndexedTransaction {
        id,
        transaction: LedgerTransaction {
            timestamp: id,
            mint: None,
            burn: None,
            transfer: Some(TransferOp {
                from: from.to_string(),
                to: to.to_string(),
                amount: 5,
            }),
        },
    };
    let txns = vec![
        transfer("me", "alice", 0),
        transfer("bob", "me", 1),
        transfer("bob", "alice", 2),
        transfer("me", "carol", 3),
    ];
    // requested [1, 3): skip 1, take 2; 4 fetched >= 3 requested end
    let page = TxnHistory::parse_index_page(txns, &me, 1, 3, 8);
    assert_eq!(page.data.len(), 1);
    assert!(!page.end);
    assert!(matches!(page.data[0].tag, TxnInfoType::Received { .. }));
    assert_eq!(page.data[0].id, 1);
}

#[test]
fn index_page_end_when_backend_short() {
    let txns: Vec<IndexedTransaction> = Vec::new();
    let page = TxnHistory::parse_index_page(txns, &"me".to_string(), 0, 10, 8);
    assert_eq!(page.data.len(), 0);
    assert!(page.end);
}

#[test]
fn tip_certificate_reads_big_endian_index() {
    let bytes = vec![0, 0, 0, 0, 0, 0, 1, 2];
    assert_eq!(last_block_index_from_bytes(&bytes).unwrap(), 258);
    let bytes = vec![0xff; 8];
    assert_eq!(last_block_index_from_bytes(&bytes).unwrap(), u64::MAX);
    let short = vec![1, 2, 3];
    assert!(matches!(
        last_block_index_from_bytes(&short),
        Err(Error::TipCertificate)
    ));
}

fn game(id: u64) -> GameRes {
    GameRes {
        post_canister: "post_canister".to_string(),
        post_id: id,
        game_info: GameInfo::CreatorReward(1),
    }
}

#[test]
fn cursor_source_ends_on_missing_next_token() {
    let mut src = VotesWithSatsProvider::new("user".to_string());
    let req = src.next_page_req(0, 10);
    assert_eq!(req.page_size, 10);
    assert_eq!(req.cursor, None);

    // first response carries no next token
    let page = src.apply_response(PaginatedGamesRes {
        games: vec![game(1), game(2)],
        next: None,
    });
    assert_eq!(page.data.len(), 2);
    assert!(page.end);

    // the second call on the same instance sees the stored cursor, and a
    // response without a token again ends the stream with its items
    let req = src.next_page_req(10, 20);
    assert_eq!(req.cursor, None);
    let page = src.apply_response(PaginatedGamesRes {
        games: vec![game(1), game(2)],
        next: None,
    });
    assert!(page.end);
    assert_eq!(page.data.len(), 2);
}

#[test]
fn cursor_source_resumes_from_the_token() {
    let mut src = VotesWithSatsProvider::new("user".to_string());
    let page = src.apply_response(PaginatedGamesRes {
        games: vec![game(1)],
        next: Some("token-a".to_string()),
    });
    assert!(!page.end);
    let req = src.next_page_req(0, 10);
    assert_eq!(req.cursor, Some("token-a".to_string()));
}

fn bet(id: u64) -> PlacedBetDetail {
    PlacedBetDetail {
        canister_id: "c".to_string(),
        post_id: id,
        outcome_received: BetOutcomeForBetMaker::Won(3),
        bet_direction: BetDirection::Hot,
        amount_bet: 2,
        bet_placed_at_secs: 11,
        bet_placed_at_nanos: 0,
        slot_id: 1,
    }
}

#[test]
fn votes_pages_are_exactly_ten() {
    let bets: Vec<PlacedBetDetail> = (0..10u64).map(bet).collect();
    let page = votes_page_from_bets(bets, 0, 10).unwrap();
    assert_eq!(page.data.len(), 10);
    assert!(!page.end);
    assert!(matches!(page.data[0].outcome, VoteOutcome::Won(3)));
    assert!(matches!(page.data[0].vote_kind, VoteKind::Hot));

    let short: Vec<PlacedBetDetail> = (0..4u64).map(bet).collect();
    let page = votes_page_from_bets(short, 10, 20).unwrap();
    assert_eq!(page.data.len(), 4);
    assert!(page.end);

    // a page of any other size is a programming-contract violation
    let bets: Vec<PlacedBetDetail> = (0..10u64).map(bet).collect();
    assert!(matches!(
        votes_page_from_bets(bets, 0, 9),
        Err(Error::InvalidPageSize)
    ));
}

fn metadata(balance_e8s: Option<u128>) -> TokenMetadata {
    TokenMetadata {
        logo_b64: String::new(),
        name: "tok".to_string(),
        description: String::new(),
        symbol: "TOK".to_string(),
        balance: balance_e8s.map(|e| TokenBalanceOrClaiming::new(TokenBalance::new_cdao(e))),
        withdrawable_state: None,
        fees: TokenBalance::new_cdao(0),
        root: None,
        ledger: "ledger".to_string(),
        index: "index".to_string(),
        decimals: 8,
        is_nsfw: false,
        token_owner: Some(TokenOwner {
            principal_id: "owner".to_string(),
            canister_id: "owner_canister".to_string(),
        }),
    }
}

fn listing(root: RootType) -> TokenListResponse {
    TokenListResponse {
        root,
        airdrop_claimed: true,
        token_metadata: metadata(Some(1)),
    }
}

#[test]
fn pinned_splice_orders_and_excludes() {
    let list = TokenRootList {
        viewer_principal: "viewer".to_string(),
        user_canister: "canister".to_string(),
        user_principal: "user".to_string(),
        exclude: vec![RootType::CENTS],
    };
    // candidate resolution keeps canonical order and drops failures
    let pinned = resolve_pinned(vec![
        Some(listing(RootType::COYNS)),
        Some(listing(RootType::CENTS)),
        None,
        Some(listing(RootType::Other("tok-root".to_string()))),
    ]);
    assert_eq!(pinned.len(), 3);

    let natural = vec![
        listing(RootType::Other("nat-1".to_string())),
        listing(RootType::Other("nat-2".to_string())),
    ];
    let page = list.splice_page(0, pinned, natural, 2, 10);
    // eligible pinned items come first, in canonical order, minus the
    // excluded root; the end flag reflects the natural fetch alone
    assert!(page.end);
    let roots: Vec<String> = page.data.iter().map(|t| t.root.to_text()).collect();
    assert_eq!(roots, vec!["coyns", "tok-root", "nat-1", "nat-2"]);
}

#[test]
fn pinned_splice_only_on_first_page() {
    let list = TokenRootList {
        viewer_principal: "viewer".to_string(),
        user_canister: "canister".to_string(),
        user_principal: "user".to_string(),
        exclude: Vec::new(),
    };
    let pinned = vec![listing(RootType::COYNS)];
    let natural: Vec<TokenListResponse> = (0..10u64)
        .map(|i| listing(RootType::Other(format!("nat-{i}"))))
        .collect();
    let page = list.splice_page(10, pinned, natural, 10, 10);
    assert_eq!(page.data.len(), 10);
    assert!(!page.end);
    assert_eq!(page.data[0].root.to_text(), "nat-0");
}

#[test]
fn ck_tokens_stay_pinned_unless_settled_at_zero() {
    let btc = || RootType::from_text("btc");
    // a settled non-zero balance keeps the candidate
    let kept = ck_pinned_listing(btc(), metadata(Some(7)));
    assert_eq!(kept.as_ref().map(|t| t.root.to_text()), Some("btc".to_string()));
    assert!(kept.unwrap().airdrop_claimed);
    // a balance settled at exactly zero drops it
    assert!(ck_pinned_listing(btc(), metadata(Some(0))).is_none());
    // a missing or still-claiming balance keeps it
    assert!(ck_pinned_listing(btc(), metadata(None)).is_some());
    let claiming = TokenMetadata {
        balance: Some(TokenBalanceOrClaiming::claiming()),
        ..metadata(None)
    };
    assert!(ck_pinned_listing(btc(), claiming).is_some());
}

#[test]
fn token_roots_listing_failure_is_a_hard_error() {
    let list = TokenRootList {
        viewer_principal: "viewer".to_string(),
        user_canister: "canister".to_string(),
        user_principal: "user".to_string(),
        exclude: Vec::new(),
    };
    let ok = list.natural_roots_from_listing(Ok(vec!["root-a".to_string()]));
    assert_eq!(ok.unwrap(), vec!["root-a".to_string()]);
    let failed = list.natural_roots_from_listing(Err("canister rejected the call".to_string()));
    assert!(matches!(failed, Err(Error::YralCanister(_))));
}

#[test]
fn eligible_tokens_need_a_settled_positive_balance() {
    let roots = supported_non_yral_tokens_root();
    assert_eq!(roots.len(), 1);
    let lookups = vec![
        (roots[0].to_string(), Some(metadata(Some(5)))),
        ("zero-balance".to_string(), Some(metadata(Some(0)))),
        ("no-balance".to_string(), Some(metadata(None))),
        ("failed".to_string(), None),
        (
            "claiming".to_string(),
            Some(TokenMetadata {
                balance: Some(TokenBalanceOrClaiming::claiming()),
                ..metadata(None)
            }),
        ),
    ];
    let eligible = eligible_non_yral_supported_tokens(lookups);
    assert_eq!(eligible.len(), 1);
    assert_eq!(eligible[0].root.to_text(), roots[0]);
    assert!(eligible[0].airdrop_claimed);
}

#[test]
fn referral_history_keeps_referral_mints() {
    let history = ReferralHistory {
        user_principal: "me".to_string(),
    };
    let events = vec![
        TokenEvent::ReferralMint {
            timestamp_secs: 10,
            referee: "alice".to_string(),
            amount: 500,
        },
        TokenEvent::Other,
        TokenEvent::ReferralMint {
            timestamp_secs: 20,
            referee: "bob".to_string(),
            amount: 500,
        },
    ];
    let page = history.page_from_events(events, 0, 10);
    assert_eq!(page.data.len(), 2);
    assert!(page.end);
    assert_eq!(page.data[0].referee, "alice");
    assert_eq!(page.data[0].epoch_secs, 10);
    assert_eq!(page.data[1].referee, "bob");
}

#[test]
fn referral_history_listing_failure_is_a_hard_error() {
    let history = ReferralHistory {
        user_principal: "me".to_string(),
    };
    // a successful listing assembles the page
    let ok = history.page_from_listing(
        Ok(vec![TokenEvent::ReferralMint {
            timestamp_secs: 10,
            referee: "alice".to_string(),
            amount: 500,
        }]),
        0,
        10,
    );
    let page = ok.unwrap();
    assert_eq!(page.data.len(), 1);
    assert!(page.end);

    // a backend listing error propagates; it never becomes an empty,
    // ended page that would silently truncate the stream
    let failed = history.page_from_listing(Err("failed to get posts".to_string()), 0, 10);
    assert!(matches!(failed, Err(Error::YralCanister(_))));
}

#[test]
fn pinned_candidates_are_canonical() {
    let candidates = feed_core::token_roots::pinned_candidates();
    let texts: Vec<String> = candidates.iter().map(|c| c.to_text()).collect();
    assert_eq!(
        texts,
        vec!["coyns", "cents", "btc", "usdc", "67bll-riaaa-aaaaq-aaauq-cai"]
    );
    match &candidates[2] {
        RootType::BTC { ledger, index } => {
            assert_eq!(ledger, "mxzaz-hqaaa-aaaar-qaada-cai");
            assert_eq!(index, "n5wcd-faaaa-aaaar-qaaea-cai");
        }
        _ => panic!("the third candidate must be the wrapped btc root"),
    }
}

#[test]
fn index_burn_is_labelled_with_the_account() {
    let me = "me".to_string();
    let txn = IndexedTransaction {
        id: 9,
        transaction: LedgerTransaction {
            timestamp: 9,
            mint: None,
            burn: Some(BurnOp {
                from: "ledger-side-subaccount".to_string(),
                amount: 4,
            }),
            transfer: None,
        },
    };
    let w = TxnHistory::parse_transactions_index(txn, &me, 8).unwrap();
    // the index serves one account's records: the burner is the account
    match &w.tag {
        TxnInfoType::Burn { from } => assert_eq!(from, "me"),
        _ => panic!("a burn record must parse to a burn"),
    }
}

//! Balances, decimal text, profile fallbacks, proposal parameters, metric
//! envelopes, worker types, and the error taxonomy.

use feed_core::balance::{TokenBalance, TokenBalanceOrClaiming};
use feed_core::digits::u128_to_dec_string;
use feed_core::error::Error;
use feed_core::hon_worker::{GameInfoReq, WorkerError};
use feed_core::metrics::{
    CentsWithdrawal, EventSource, LocalMetricTx, MaybeMockLocalMetricEventTx,
    MaybeMockMetricEventTx, MetricEvent, MetricEventList, MetricTx, MockMetricEventTx,
};
use feed_core::profile::{propic_from_principal, ProfileDetails};
use feed_core::pump_n_dump::{
    CompletedGameInfo, GameDirection, UncommittedGameInfo, WsError, WsResp, WsResponse,
    EVENT_REQUEST_ID,
};
use feed_core::sns::{
    divide_perfectly, CreateServiceNervousSystem, GlobalTimeOfDay, GovernanceParameters,
    InitialTokenDistribution, LedgerParameters, SwapDistribution, TimeSpan, Tokens,
    ONE_DAY_SECONDS,
};
use feed_core::token::RootType;
use feed_core::transaction::{TxnDirection, TxnHistory, LedgerTransaction, TxnInfoType};
use feed_core::vote::{VoteDetails, VoteKind, VoteOutcome};

#[test]
fn decimal_text() {
    assert_eq!(u128_to_dec_string(0), "0");
    assert_eq!(u128_to_dec_string(7), "7");
    assert_eq!(u128_to_dec_string(100), "100");
    assert_eq!(u128_to_dec_string(98765), "98765");
    assert_eq!(
        u128_to_dec_string(u128::MAX),
        "340282366920938463463374607431768211455"
    );
}

#[test]
fn balance_humanizes_whole_tokens() {
    let b = TokenBalance::new(12_345_678_900, 8);
    assert_eq!(b.humanize(), "123");
    assert_eq!(b.to_tokens(), "123");
    let b = TokenBalance::new_cdao(99_999_999);
    assert_eq!(b.humanize(), "0");
    // humanize groups thousands; to_tokens stays plain
    let big = TokenBalance::new(123_456_789_000_000_000, 8);
    assert_eq!(big.humanize(), "1,234,567,890");
    assert_eq!(big.to_tokens(), "1234567890");
    let exact = TokenBalance::new(100_000_000_000, 8);
    assert_eq!(exact.humanize(), "1,000");
    // balances compare by amount alone
    assert_eq!(TokenBalance::new(5, 8), TokenBalance::new(5, 12));
    assert!(TokenBalance::new(5, 8) != TokenBalance::new(6, 8));
}

#[test]
fn claiming_balance_renders_placeholder() {
    let b = TokenBalanceOrClaiming::new(TokenBalance::new(200_000_000, 8));
    assert!(!b.is_claiming());
    assert_eq!(b.humanize(), "2");
    let c = TokenBalanceOrClaiming::claiming();
    assert!(c.is_claiming());
    assert_eq!(c.humanize(), "Processing");
}

#[test]
fn propic_is_checksum_of_principal() {
    // the CRC-32 of the empty text is 0, picking avatar 1
    assert_eq!(
        propic_from_principal(""),
        "https://imagedelivery.net/abXI9nS4DYYtyR1yFFtziA/gob.1/public"
    );
    // a checksum different from the input's bytes picks a different avatar
    assert_eq!(
        propic_from_principal("2vxsx-fae"),
        "https://imagedelivery.net/abXI9nS4DYYtyR1yFFtziA/gob.18231/public"
    );
    assert_eq!(
        propic_from_principal("test-user"),
        "https://imagedelivery.net/abXI9nS4DYYtyR1yFFtziA/gob.17273/public"
    );
}

#[test]
fn profile_fallbacks() {
    let mut p = ProfileDetails {
        username: None,
        lifetime_earnings: 0,
        followers_cnt: 0,
        following_cnt: 0,
        profile_pic: None,
        display_name: None,
        principal: "2vxsx-fae".to_string(),
        hots: 0,
        nots: 0,
    };
    assert_eq!(p.username_or_principal(), "2vxsx-fae");
    assert_eq!(p.display_name_or_fallback(), "2vxsx-fae");
    assert_eq!(
        p.profile_pic_or_random(),
        "https://imagedelivery.net/abXI9nS4DYYtyR1yFFtziA/gob.18231/public"
    );
    p.username = Some("alice".to_string());
    assert_eq!(p.username_or_principal(), "alice");
    p.display_name = Some("Alice".to_string());
    assert_eq!(p.display_name_or_fallback(), "Alice");
    p.profile_pic = Some(String::new());
    assert_eq!(
        p.profile_pic_or_random(),
        "https://imagedelivery.net/abXI9nS4DYYtyR1yFFtziA/gob.18231/public"
    );
    p.profile_pic = Some("https://example.invalid/pic".to_string());
    assert_eq!(p.profile_pic_or_random(), "https://example.invalid/pic");
}

#[test]
fn root_type_round_trip() {
    assert_eq!(RootType::from_text("coyns").to_text(), "coyns");
    assert_eq!(RootType::from_text("cents").to_text(), "cents");
    assert_eq!(RootType::from_text("btc").to_text(), "btc");
    assert_eq!(RootType::from_text("usdc").to_text(), "usdc");
    let other = RootType::from_text("67bll-riaaa-aaaaq-aaauq-cai");
    assert_eq!(other.to_text(), "67bll-riaaa-aaaaq-aaauq-cai");
    match RootType::from_text("btc") {
        RootType::BTC { ledger, index } => {
            assert_eq!(ledger, "mxzaz-hqaaa-aaaar-qaada-cai");
            assert_eq!(index, "n5wcd-faaaa-aaaar-qaaea-cai");
        }
        _ => panic!("btc must parse to the wrapped-chain root"),
    }
    assert!(RootType::CENTS.same_root(&RootType::CENTS));
    assert!(!RootType::CENTS.same_root(&RootType::COYNS));
}

#[test]
fn txn_kind_text_and_direction() {
    let mint = TxnInfoType::Mint {
        to: "alice".to_string(),
    };
    assert_eq!(mint.to_text(), "Minted");
    assert!(matches!(TxnDirection::from(mint), TxnDirection::Added));
    let sent = TxnInfoType::Sent {
        to: "bob".to_string(),
    };
    assert_eq!(sent.to_text(), "Sent");
    assert!(matches!(TxnDirection::from(sent), TxnDirection::Deducted));
    let transfer = TxnInfoType::Transfer {
        from: "a".to_string(),
        to: "b".to_string(),
    };
    assert_eq!(transfer.to_text(), "Transferred");
    assert!(matches!(
        TxnDirection::from(transfer),
        TxnDirection::Transaction
    ));
}

#[test]
fn unparseable_transaction_is_an_error() {
    let empty = LedgerTransaction {
        timestamp: 1,
        mint: None,
        burn: None,
        transfer: None,
    };
    assert!(matches!(
        TxnHistory::parse_transactions_ledger(empty, 0, 8),
        Err(Error::ParseTransaction)
    ));
}

#[test]
fn error_texts_cover_the_taxonomy() {
    assert_eq!(Error::StoreUnavailable.as_text(), "store unavailable");
    assert_eq!(Error::SourceFetchFailed.as_text(), "source fetch failed");
    assert_eq!(Error::Deserialize.as_text(), "malformed payload");
    assert_eq!(
        Error::YralCanister("x".to_string()).as_text(),
        "error from yral canister"
    );
    assert_eq!(
        Error::GetTransactions("x".to_string()).as_text(),
        "failed to get transactions"
    );
    assert_eq!(
        Error::ParseTransaction.as_text(),
        "failed to parse transaction"
    );
    assert_eq!(
        Error::TipCertificate.as_text(),
        "invalid tip certificate in ledger"
    );
    assert_eq!(Error::InvalidPageSize.as_text(), "invalid page size");
}

#[test]
fn vote_timing() {
    let v = VoteDetails {
        outcome: VoteOutcome::Won(12),
        post_id: 1,
        canister_id: "c".to_string(),
        vote_kind: VoteKind::Hot,
        vote_amount: 3,
        placed_at_secs: 100,
        placed_at_nanos: 0,
        slot_id: 3,
    };
    assert_eq!(v.reward(), Some(12));
    // three hour slots plus the five minute overhead
    assert_eq!(v.vote_duration_secs(), 3 * 3600 + 300);
    assert_eq!(v.end_time_secs(1000), 1000 + 3 * 3600 + 300);
    assert_eq!(v.time_remaining_secs(1000, 1000), 3 * 3600 + 300);
    assert_eq!(v.time_remaining_secs(1000, 1000 + 3 * 3600 + 300), 0);
    assert_eq!(v.time_remaining_secs(1000, u64::MAX), 0);
    let lost = VoteDetails {
        outcome: VoteOutcome::Lost,
        ..v
    };
    assert_eq!(lost.reward(), None);
}

#[test]
fn sns_parameter_getters() {
    let proposal = CreateServiceNervousSystem {
        name: Some("sns".to_string()),
        description: None,
        url: None,
        initial_token_distribution: Some(InitialTokenDistribution {
            swap_distribution: Some(SwapDistribution {
                total: Some(Tokens { e8s: Some(1000) }),
            }),
        }),
        ledger_parameters: Some(LedgerParameters {
            transaction_fee: Some(Tokens { e8s: Some(10) }),
            token_name: Some("Token".to_string()),
            token_symbol: Some("TOK".to_string()),
        }),
        governance_parameters: Some(GovernanceParameters {
            neuron_minimum_stake: None,
        }),
    };
    assert_eq!(proposal.sns_token_e8s(), Some(1000));
    assert_eq!(proposal.transaction_fee_e8s(), Some(10));
    assert_eq!(proposal.neuron_minimum_stake_e8s(), None);
}

#[test]
fn swap_schedule() {
    // approved at noon; the 6am slot the next day is more than 24h away
    // only on the day after, so the swap starts two midnights out
    let noon = 12 * 3600;
    let six_am = 6 * 3600;
    let (swap_start, swap_due) = CreateServiceNervousSystem::swap_start_and_due_timestamps(
        GlobalTimeOfDay {
            seconds_after_utc_midnight: Some(six_am),
        },
        TimeSpan {
            seconds: Some(1000),
        },
        noon,
    )
    .unwrap();
    assert_eq!(swap_start, 2 * ONE_DAY_SECONDS + six_am);
    assert_eq!(swap_due, swap_start + 1000);

    // an early-morning approval reaches the next day's 6pm slot directly
    let six_pm = 18 * 3600;
    let (swap_start, _) = CreateServiceNervousSystem::swap_start_and_due_timestamps(
        GlobalTimeOfDay {
            seconds_after_utc_midnight: Some(six_pm),
        },
        TimeSpan { seconds: Some(1) },
        3600,
    )
    .unwrap();
    assert_eq!(swap_start, ONE_DAY_SECONDS + six_pm);

    // a missing time of day is an error
    assert!(CreateServiceNervousSystem::swap_start_and_due_timestamps(
        GlobalTimeOfDay {
            seconds_after_utc_midnight: None,
        },
        TimeSpan { seconds: Some(1) },
        noon,
    )
    .is_err());
}

#[test]
fn divide_perfectly_rejects_remainders() {
    assert_eq!(divide_perfectly("basis_points", 400, 100), Ok(4));
    // each error message names the validated field
    let remainder = divide_perfectly("basis_points", 401, 100).unwrap_err();
    assert_eq!(
        remainder,
        "basis_points is supposed to contain a value that is evenly divisible, but it is not"
    );
    let by_zero = divide_perfectly("basis_points", 400, 0).unwrap_err();
    assert_eq!(
        by_zero,
        "attempted to divide by zero while validating basis_points"
    );
}

fn withdrawal() -> CentsWithdrawal {
    CentsWithdrawal {
        user_canister: "user-canister-1".to_string(),
        amount: 5,
    }
}

#[test]
fn metric_envelopes() {
    let ev = MetricEvent::new(EventSource::Yral, withdrawal(), 42);
    assert_eq!(ev.unix_timestamp_secs, 42);
    assert_eq!(ev.page_location, "https://yral.com/");
    assert_eq!(ev.host, "yral.com");
    // the envelope carries the metric's own tag and user id
    assert_eq!(ev.tag, "cents_withdrawal");
    assert_eq!(ev.user_id, Some("user-canister-1".to_string()));
    assert_eq!(ev.metric.amount, 5);

    let ev2 = MetricEvent::new(EventSource::PumpNDumpWorker, withdrawal(), 43);
    assert_eq!(ev2.page_location, "https://pumpdump.wtf/");
    assert_eq!(ev2.host, "pumpdump.wtf");

    let list = MetricEventList::new(EventSource::Yral, "batch".to_string(), vec![ev, ev2], 44);
    assert_eq!(list.metric.len(), 2);
    assert_eq!(list.user_id, None);
    assert_eq!(list.unix_timestamp_secs, 44);

    assert_eq!(EventSource::Yral.page_location(), "https://yral.com/");
    assert_eq!(
        EventSource::PumpNDumpWorker.page_location(),
        "https://pumpdump.wtf/"
    );

    let local = LocalMetricTx::new(EventSource::Yral, MockMetricEventTx);
    assert!(matches!(local.source, EventSource::Yral));
    let tx = MetricTx::new(EventSource::PumpNDumpWorker, MockMetricEventTx);
    assert!(matches!(tx.source, EventSource::PumpNDumpWorker));

    let mock: MaybeMockMetricEventTx<MockMetricEventTx> = Default::default();
    assert!(matches!(mock, MaybeMockMetricEventTx::Mock(_)));
    let mock_local: MaybeMockLocalMetricEventTx<MockMetricEventTx> = Default::default();
    assert!(matches!(mock_local, MaybeMockLocalMetricEventTx::Mock(_)));
}

#[test]
fn worker_types() {
    assert_eq!(WorkerError::InvalidSignature.as_text(), "Invalid Signature");
    assert_eq!(
        WorkerError::TreasuryLimitReached.as_text(),
        "treasury limit reached, try again tomorrow"
    );
    let req = GameInfoReq::from(("canister".to_string(), 7u64));
    assert_eq!(req.post_canister, "canister");
    assert_eq!(req.post_id, 7);
}

#[test]
fn pump_n_dump_types() {
    let completed = UncommittedGameInfo::Completed(CompletedGameInfo {
        pumps: 1,
        dumps: 2,
        reward: 3,
        token_root: "root-a".to_string(),
        outcome: GameDirection::Pump,
    });
    assert_eq!(completed.token_root(), "root-a");
    let pending = UncommittedGameInfo::Pending {
        token_root: "root-b".to_string(),
    };
    assert_eq!(pending.token_root(), "root-b");

    let resp = WsResp::error("boom".to_string());
    assert!(matches!(resp, WsResp::Error(WsError::Generic(_))));
    let resp = WsResp::bet_failure("no".to_string(), GameDirection::Dump);
    assert!(matches!(
        resp,
        WsResp::Error(WsError::BetFailure {
            direction: GameDirection::Dump,
            ..
        })
    ));

    let event = WsResponse {
        request_id: EVENT_REQUEST_ID,
        response: WsResp::WinningPoolEvent {
            new_pool: 1,
            round: 2,
        },
    };
    assert!(event.is_event());
    let answer = WsResponse {
        request_id: 7,
        response: WsResp::BetSuccesful { round: 2 },
    };
    assert!(!answer.is_event());
}

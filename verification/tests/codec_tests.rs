use mmmbacktest::bet_table::{bet_to_row, rusqlite_row_to_bet};
use mmmbacktest::cells::CellValue;
use mmmbacktest::data_types::{Bet, Fees, Fill, FullMarket, LimitProps, LiteMarket, MarketMechanism,
    MarketOutcome, MarketOutcomeType, PoolEntry, ProfitEntry, TimePeriod, User, Visibility};
use mmmbacktest::errors::RowParsingError;
use mmmbacktest::market_table::{market_to_row, rusqlite_row_to_litemarket};
use mmmbacktest::queries::effective_limit;
use mmmbacktest::user_table::{rusqlite_row_to_user, user_to_row};

fn full_market() -> LiteMarket {
    LiteMarket {
        id: "mkt-1".to_string(),
        creator_id: "crea-9".to_string(),
        creator_username: "alice".to_string(),
        creator_name: "Alice".to_string(),
        creator_avatar_url: Some("https://pics.example/alice.png".to_string()),
        close_time: Some(-12345),
        created_time: 1_700_000_000_000,
        question: "Will it rain tomorrow?".to_string(),
        url: "https://markets.example/alice/will-it-rain-tomorrow".to_string(),
        outcome_type: MarketOutcomeType::MultipleChoice,
        mechanism: MarketMechanism::CpmmMulti,
        probability: Some(0.62_f64.to_bits() as i64),
        pool: Some(vec![
            PoolEntry { outcome: "YES".to_string(), shares: 120.5_f64.to_bits() as i64 },
            PoolEntry { outcome: "NO".to_string(), shares: 80.25_f64.to_bits() as i64 },
            PoolEntry { outcome: "3".to_string(), shares: 7.75_f64.to_bits() as i64 },
        ]),
        p: Some(0.5_f64.to_bits() as i64),
        total_liquidity: Some(1000.0_f64.to_bits() as i64),
        value: Some(42.0_f64.to_bits() as i64),
        min: Some(0.0_f64.to_bits() as i64),
        max: Some(100.0_f64.to_bits() as i64),
        is_log_scale: Some(false),
        volume: 555.5_f64.to_bits() as i64,
        volume_24_hours: 44.25_f64.to_bits() as i64,
        is_resolved: true,
        resolution_time: Some(1_700_000_400_000),
        resolution: Some("YES".to_string()),
        resolution_probability: Some(0.99_f64.to_bits() as i64),
        last_updated_time: Some(1_700_000_300_000),
        last_bet_time: Some(1_700_000_200_000),
    }
}

fn minimal_market() -> LiteMarket {
    LiteMarket {
        id: "mkt-min".to_string(),
        creator_id: "crea".to_string(),
        creator_username: "bob".to_string(),
        creator_name: "Bob".to_string(),
        creator_avatar_url: None,
        close_time: None,
        created_time: 1,
        question: String::new(),
        url: "u".to_string(),
        outcome_type: MarketOutcomeType::Binary,
        mechanism: MarketMechanism::NoMechanism,
        probability: None,
        pool: None,
        p: None,
        total_liquidity: None,
        value: None,
        min: None,
        max: None,
        is_log_scale: None,
        volume: 0,
        volume_24_hours: 0,
        is_resolved: false,
        resolution_time: None,
        resolution: None,
        resolution_probability: None,
        last_updated_time: None,
        last_bet_time: None,
    }
}

fn full_bet() -> Bet {
    Bet {
        id: "bet-1".to_string(),
        user_id: "user-7".to_string(),
        user_avatar_url: Some("https://pics.example/u.png".to_string()),
        user_name: Some("Carol".to_string()),
        user_username: Some("carol".to_string()),
        contract_id: "mkt-1".to_string(),
        answer_id: Some("ans-3".to_string()),
        created_time: 1_700_000_100_000,
        amount: (-25.5_f64).to_bits() as i64,
        loan_amount: Some(1.25_f64.to_bits() as i64),
        outcome: "3".to_string(),
        shares: (-12.0_f64).to_bits() as i64,
        shares_by_outcome: None,
        prob_before: 0.4_f64.to_bits() as i64,
        prob_after: 0.35_f64.to_bits() as i64,
        fees: Some(Fees {
            creator_fee: 0.1_f64.to_bits() as i64,
            platform_fee: 0.2_f64.to_bits() as i64,
            liquidity_fee: 0.0_f64.to_bits() as i64,
        }),
        is_api: Some(true),
        is_ante: false,
        is_redemption: true,
        is_challenge: false,
        visibility: Visibility::Unlisted,
        challenge_slug: Some("challenge;with:odd,chars".to_string()),
        reply_to_comment_id: Some("cmt-5".to_string()),
        limit_props: Some(LimitProps {
            order_amount: 100.0_f64.to_bits() as i64,
            limit_prob: 0.65_f64.to_bits() as i64,
            is_filled: false,
            is_cancelled: true,
            fills: vec![
                Fill {
                    timestamp: 1_700_000_100_500,
                    matched_bet_id: Some("bet-0".to_string()),
                    amount: 10.0_f64.to_bits() as i64,
                    shares: 15.0_f64.to_bits() as i64,
                },
                Fill {
                    timestamp: 1_700_000_100_700,
                    matched_bet_id: None,
                    amount: (-1.0_f64).to_bits() as i64,
                    shares: i64::MIN,
                },
            ],
            expires_at: Some(1_800_000_000_000),
        }),
    }
}

fn minimal_bet(id: &str, contract: &str, created: u64) -> Bet {
    Bet {
        id: id.to_string(),
        user_id: "u".to_string(),
        user_avatar_url: None,
        user_name: None,
        user_username: None,
        contract_id: contract.to_string(),
        answer_id: None,
        created_time: created,
        amount: 0,
        loan_amount: None,
        outcome: "YES".to_string(),
        shares: 0,
        shares_by_outcome: None,
        prob_before: 0,
        prob_after: 0,
        fees: None,
        is_api: None,
        is_ante: false,
        is_redemption: false,
        is_challenge: false,
        visibility: Visibility::Public,
        challenge_slug: None,
        reply_to_comment_id: None,
        limit_props: None,
    }
}

fn full_user() -> User {
    User {
        id: "user-7".to_string(),
        created_time: 1_600_000_000_000,
        name: "Carol".to_string(),
        username: "carol".to_string(),
        url: Some("https://markets.example/carol".to_string()),
        avatar_url: "https://pics.example/u.png".to_string(),
        bio: Some("bets on rain".to_string()),
        banner_url: None,
        website: Some("https://carol.example".to_string()),
        twitter_handle: None,
        discord_handle: Some("carol#1".to_string()),
        is_bot: Some(false),
        is_admin: None,
        is_trustworthy: Some(true),
        is_banned_from_posting: Some(false),
        user_deleted: None,
        balance: 987.5_f64.to_bits() as i64,
        total_deposits: (-3.0_f64).to_bits() as i64,
        last_bet_time: Some(1_700_000_100_000),
        current_betting_streak: Some(4),
        profit_cached: vec![
            ProfitEntry { period: TimePeriod::Daily, profit: 1.5_f64.to_bits() as i64 },
            ProfitEntry { period: TimePeriod::Weekly, profit: (-2.5_f64).to_bits() as i64 },
            ProfitEntry { period: TimePeriod::Monthly, profit: 0.0_f64.to_bits() as i64 },
            ProfitEntry { period: TimePeriod::AllTime, profit: 100.0_f64.to_bits() as i64 },
        ],
    }
}

#[test]
fn market_row_round_trip_full() {
    let m = full_market();
    let row = market_to_row(&m);
    let back = rusqlite_row_to_litemarket(&row).unwrap();
    assert_eq!(back, m);
}

#[test]
fn market_row_round_trip_minimal() {
    let m = minimal_market();
    let row = market_to_row(&m);
    let back = rusqlite_row_to_litemarket(&row).unwrap();
    assert_eq!(back, m);
}

#[test]
fn pool_label_three_survives_the_codec() {
    let m = full_market();
    let row = market_to_row(&m);
    let back = rusqlite_row_to_litemarket(&row).unwrap();
    let pool = back.pool.unwrap();
    assert_eq!(pool[2].outcome, "3");
    assert_eq!(pool[2].shares, 7.75_f64.to_bits() as i64);
}

#[test]
fn bet_row_round_trip_full() {
    let b = full_bet();
    let row = bet_to_row(&b);
    let back = rusqlite_row_to_bet(&row).unwrap();
    assert_eq!(back, b);
}

#[test]
fn bet_row_round_trip_minimal() {
    let b = minimal_bet("b1", "m1", 5);
    let row = bet_to_row(&b);
    let back = rusqlite_row_to_bet(&row).unwrap();
    assert_eq!(back, b);
}

#[test]
fn user_row_round_trip() {
    let u = full_user();
    let row = user_to_row(&u);
    let back = rusqlite_row_to_user(&row).unwrap();
    assert_eq!(back, u);
}

#[test]
fn user_row_round_trip_empty_profit_map() {
    let mut u = full_user();
    u.profit_cached = vec![];
    u.bio = None;
    u.url = None;
    u.website = None;
    u.discord_handle = None;
    u.is_bot = None;
    u.is_trustworthy = None;
    u.is_banned_from_posting = None;
    u.last_bet_time = None;
    u.current_betting_streak = None;
    let row = user_to_row(&u);
    let back = rusqlite_row_to_user(&row).unwrap();
    assert_eq!(back, u);
}

#[test]
fn unknown_enum_tag_is_a_serialization_failure_not_a_default() {
    let m = minimal_market();
    let mut row = market_to_row(&m);
    row[9] = CellValue::Text("SOMETHING_ELSE".to_string());
    let err = rusqlite_row_to_litemarket(&row).unwrap_err();
    assert!(matches!(err, RowParsingError::Serialization { .. }));
}

#[test]
fn wrong_cell_type_is_a_serialization_failure() {
    let m = minimal_market();
    let mut row = market_to_row(&m);
    row[0] = CellValue::Int(7);
    let err = rusqlite_row_to_litemarket(&row).unwrap_err();
    assert!(matches!(err, RowParsingError::Serialization { .. }));
}

#[test]
fn corrupt_nested_text_is_a_serialization_failure() {
    let m = full_market();
    let mut row = market_to_row(&m);
    row[12] = CellValue::Text("3;nonsense".to_string());
    let err = rusqlite_row_to_litemarket(&row).unwrap_err();
    assert!(matches!(err, RowParsingError::Serialization { .. }));
    // Trailing text after a well-formed encoding is rejected too.
    let good = match &market_to_row(&m)[12] {
        CellValue::Text(s) => s.clone(),
        _ => unreachable!(),
    };
    row[12] = CellValue::Text(format!("{}x", good));
    let err2 = rusqlite_row_to_litemarket(&row).unwrap_err();
    assert!(matches!(err2, RowParsingError::Serialization { .. }));
}

#[test]
fn null_token_means_absent_not_empty() {
    let mut m = full_market();
    m.pool = Some(vec![]);
    let row = market_to_row(&m);
    // An empty pool encodes as an empty map, not as the null token.
    match &row[12] {
        CellValue::Text(s) => assert_eq!(s, "0;"),
        _ => panic!("pool column must be text"),
    }
    let back = rusqlite_row_to_litemarket(&row).unwrap();
    assert_eq!(back.pool, Some(vec![]));

    m.pool = None;
    let row2 = market_to_row(&m);
    match &row2[12] {
        CellValue::Text(s) => assert_eq!(s, "null"),
        _ => panic!("pool column must be text"),
    }
    let back2 = rusqlite_row_to_litemarket(&row2).unwrap();
    assert_eq!(back2.pool, None);
}

#[test]
fn shares_by_outcome_is_never_persisted() {
    let mut b = full_bet();
    b.shares_by_outcome = None;
    let row = bet_to_row(&b);
    let back = rusqlite_row_to_bet(&row).unwrap();
    assert_eq!(back.shares_by_outcome, None);
}

#[test]
fn encoded_forms_are_exact() {
    // Fees: three signed numbers, each closed by its delimiter.
    let mut b = minimal_bet("b1", "m1", 5);
    b.fees = Some(Fees { creator_fee: 1, platform_fee: -2, liquidity_fee: 3 });
    let row = bet_to_row(&b);
    match &row[14] {
        CellValue::Text(s) => assert_eq!(s, "1;-2;3;"),
        _ => panic!("fees column must be text"),
    }
    // A pool map: entry count, then each label as a counted string followed
    // by its quantity. The label "3" is data, not a number.
    let mut m = minimal_market();
    m.pool = Some(vec![PoolEntry { outcome: "3".to_string(), shares: 7 }]);
    let mrow = market_to_row(&m);
    match &mrow[12] {
        CellValue::Text(s) => assert_eq!(s, "1;1;37;"),
        _ => panic!("pool column must be text"),
    }
    // A profit map entry: the period tag as a counted string, then the
    // amount.
    let mut u = full_user();
    u.profit_cached = vec![ProfitEntry { period: TimePeriod::Daily, profit: 5 }];
    let urow = user_to_row(&u);
    match &urow[20] {
        CellValue::Text(s) => assert_eq!(s, "1;5;daily5;"),
        _ => panic!("profit column must be text"),
    }
}

#[test]
fn effective_limit_clamps_and_defaults() {
    assert_eq!(effective_limit(None), 500);
    assert_eq!(effective_limit(Some(0)), 500);
    assert_eq!(effective_limit(Some(-3)), 500);
    assert_eq!(effective_limit(Some(5000)), 1000);
    assert_eq!(effective_limit(Some(1000)), 1000);
    assert_eq!(effective_limit(Some(7)), 7);
}

#[test]
fn outcome_labels_round_trip() {
    let yes = MarketOutcome::from_label(&"YES".to_string());
    assert!(matches!(yes, MarketOutcome::Yes));
    assert_eq!(yes.label(), "YES");
    let no = MarketOutcome::from_label(&"NO".to_string());
    assert!(matches!(no, MarketOutcome::No));
    let other = MarketOutcome::from_label(&"3".to_string());
    assert!(matches!(&other, MarketOutcome::Other(s) if s == "3"));
    assert_eq!(other.label(), "3");
}

#[test]
fn extreme_bit_patterns_round_trip() {
    let mut b = minimal_bet("b-extreme", "m1", u64::MAX >> 1);
    b.amount = i64::MIN;
    b.shares = i64::MAX;
    b.prob_before = -1;
    b.prob_after = 1;
    let row = bet_to_row(&b);
    let back = rusqlite_row_to_bet(&row).unwrap();
    assert_eq!(back, b);
}

#[test]
fn lite_projection_keeps_every_persisted_field() {
    let fm = FullMarket {
        lite_market: full_market(),
        answers: None,
        description: None,
        text_description: Some("plain text".to_string()),
        group_slugs: Some(vec!["weather".to_string()]),
    };
    assert_eq!(fm.lite(), full_market());
}

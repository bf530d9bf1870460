use mmmbacktest::bet_table::{bulk_insert_bets, init_bet_table};
use mmmbacktest::data_types::{Bet, FullMarket, LiteMarket, MarketMechanism, MarketOutcomeType,
    PoolEntry, ProfitEntry, TimePeriod, User, Visibility};
use mmmbacktest::db_common::{count_rows, get_db_connection, get_db_connection_pool, pooled_conn,
    setup_db, table_exists};
use mmmbacktest::errors::RowParsingError;
use mmmbacktest::market_table::{bulk_insert_markets, init_market_table};
use mmmbacktest::queries::{get_bets, get_bets_by_params, get_market_by_slug, get_markets_by_id,
    get_markets_by_params, get_me};
use mmmbacktest::user_table::init_user_table;

fn market(id: &str, created: u64, url: &str) -> LiteMarket {
    LiteMarket {
        id: id.to_string(),
        creator_id: "crea".to_string(),
        creator_username: "alice".to_string(),
        creator_name: "Alice".to_string(),
        creator_avatar_url: None,
        close_time: Some(-5),
        created_time: created,
        question: "q".to_string(),
        url: url.to_string(),
        outcome_type: MarketOutcomeType::Binary,
        mechanism: MarketMechanism::Cpmm,
        probability: Some(0.5_f64.to_bits() as i64),
        pool: Some(vec![
            PoolEntry { outcome: "YES".to_string(), shares: 1.0_f64.to_bits() as i64 },
            PoolEntry { outcome: "3".to_string(), shares: 9.5_f64.to_bits() as i64 },
        ]),
        p: None,
        total_liquidity: None,
        value: None,
        min: None,
        max: None,
        is_log_scale: None,
        volume: 0,
        volume_24_hours: 0,
        is_resolved: false,
        resolution_time: None,
        resolution: None,
        resolution_probability: None,
        last_updated_time: Some(created + 10),
        last_bet_time: None,
    }
}

fn full(m: LiteMarket) -> FullMarket {
    FullMarket {
        lite_market: m,
        answers: None,
        description: None,
        text_description: None,
        group_slugs: None,
    }
}

fn bet(id: &str, contract: &str, created: u64) -> Bet {
    Bet {
        id: id.to_string(),
        user_id: "u1".to_string(),
        user_avatar_url: None,
        user_name: Some("Carol".to_string()),
        user_username: Some("carol".to_string()),
        contract_id: contract.to_string(),
        answer_id: None,
        created_time: created,
        amount: 1.5_f64.to_bits() as i64,
        loan_amount: None,
        outcome: "3".to_string(),
        shares: 0,
        shares_by_outcome: None,
        prob_before: 0,
        prob_after: 0,
        fees: None,
        is_api: None,
        is_ante: false,
        is_redemption: false,
        is_challenge: false,
        visibility: Visibility::Public,
        challenge_slug: None,
        reply_to_comment_id: None,
        limit_props: None,
    }
}

fn default_user(id: &str) -> User {
    User {
        id: id.to_string(),
        created_time: 1_700_000_000_000,
        name: "axel".to_string(),
        username: "axel".to_string(),
        url: None,
        avatar_url: "https://pics.example/axel.png".to_string(),
        bio: None,
        banner_url: None,
        website: None,
        twitter_handle: None,
        discord_handle: None,
        is_bot: Some(true),
        is_admin: Some(false),
        is_trustworthy: None,
        is_banned_from_posting: None,
        user_deleted: None,
        balance: 1000.0_f64.to_bits() as i64,
        total_deposits: 0.0_f64.to_bits() as i64,
        last_bet_time: None,
        current_betting_streak: Some(0),
        profit_cached: vec![ProfitEntry { period: TimePeriod::Daily, profit: 0 }],
    }
}

/// A private shared in-memory store per test, so tests are isolated and
/// leave nothing on disk.
fn mem_path(name: &str) -> String {
    format!("file:{}?mode=memory&cache=shared", name)
}

#[test]
fn setup_then_me_returns_the_configured_user() {
    let path = mem_path("t_setup_me");
    let markets = vec![full(market("m1", 100, "https://m.example/alice/rainy-day"))];
    let bets = vec![bet("b1", "m1", 100)];
    let me = default_user("backtest-user");
    let pool = setup_db(&path, &markets, &bets, &me).unwrap();
    let pc = get_db_connection(&pool).unwrap();
    let conn = pooled_conn(&pc);
    let got = get_me(conn, "backtest-user").unwrap();
    assert_eq!(got, me);
}

#[test]
fn me_missing_is_a_typed_error() {
    let path = mem_path("t_me_missing");
    let pool = get_db_connection_pool(&path).unwrap();
    let pc = get_db_connection(&pool).unwrap();
    let conn = pooled_conn(&pc);
    init_user_table(conn, &default_user("someone")).unwrap();
    let err = get_me(conn, "nobody").unwrap_err();
    assert!(matches!(err, RowParsingError::QueryConstruction(_)));
}

#[test]
fn ingestion_is_idempotent() {
    let path = mem_path("t_idem");
    let pool = get_db_connection_pool(&path).unwrap();
    let pc = get_db_connection(&pool).unwrap();
    let conn = pooled_conn(&pc);
    let markets = vec![
        full(market("m1", 100, "https://m.example/a/one")),
        full(market("m2", 200, "https://m.example/a/two")),
    ];
    let first = init_market_table(conn, &markets).unwrap();
    assert_eq!(first, 2);
    assert_eq!(count_rows(conn, "markets").unwrap(), 2);
    let second = init_market_table(conn, &markets).unwrap();
    assert_eq!(second, 0);
    assert_eq!(count_rows(conn, "markets").unwrap(), 2);
    // The same holds for bets.
    let bets = vec![bet("b1", "m1", 100), bet("b2", "m1", 101)];
    assert_eq!(init_bet_table(conn, &bets).unwrap(), 2);
    assert_eq!(init_bet_table(conn, &bets).unwrap(), 0);
    assert_eq!(count_rows(conn, "bets").unwrap(), 2);
}

#[test]
fn schema_setup_is_repeatable() {
    let path = mem_path("t_schema");
    let pool = get_db_connection_pool(&path).unwrap();
    let pc = get_db_connection(&pool).unwrap();
    let conn = pooled_conn(&pc);
    assert!(!table_exists(conn, "markets").unwrap());
    init_market_table(conn, &vec![]).unwrap();
    assert!(table_exists(conn, "markets").unwrap());
    // A second pass over an existing (even empty) schema succeeds.
    init_market_table(conn, &vec![]).unwrap();
    assert!(table_exists(conn, "markets").unwrap());
}

#[test]
fn markets_round_trip_through_the_store() {
    let path = mem_path("t_mkt_rt");
    let pool = get_db_connection_pool(&path).unwrap();
    let pc = get_db_connection(&pool).unwrap();
    let conn = pooled_conn(&pc);
    let m = market("m1", 100, "https://m.example/alice/rainy-day");
    init_market_table(conn, &vec![full(m.clone())]).unwrap();
    let got = get_markets_by_id(conn, Some("m1")).unwrap();
    assert_eq!(got, vec![m]);
}

#[test]
fn pool_label_three_survives_ingestion_and_query() {
    let path = mem_path("t_label3");
    let pool = get_db_connection_pool(&path).unwrap();
    let pc = get_db_connection(&pool).unwrap();
    let conn = pooled_conn(&pc);
    init_market_table(conn, &vec![full(market("m1", 100, "https://m.example/a/x"))]).unwrap();
    let got = get_markets_by_id(conn, Some("m1")).unwrap();
    let pool_map = got[0].pool.clone().unwrap();
    assert_eq!(pool_map[1].outcome, "3");
    assert_eq!(pool_map[1].shares, 9.5_f64.to_bits() as i64);
}

#[test]
fn limit_is_clamped_and_defaulted() {
    let path = mem_path("t_clamp");
    let pool = get_db_connection_pool(&path).unwrap();
    let pc = get_db_connection(&pool).unwrap();
    let conn = pooled_conn(&pc);
    let mut bets: Vec<Bet> = Vec::new();
    for i in 0..1200u64 {
        bets.push(bet(&format!("b{:05}", i), "m1", 1000 + i));
    }
    init_bet_table(conn, &bets).unwrap();
    let served = get_bets_by_params(conn, None, None, None, None, Some(5000), None, None, None)
        .unwrap();
    assert_eq!(served.len(), 1000);
    let defaulted = get_bets_by_params(conn, None, None, None, None, None, None, None, None)
        .unwrap();
    assert_eq!(defaulted.len(), 500);
    let zero = get_bets_by_params(conn, None, None, None, None, Some(0), None, None, None)
        .unwrap();
    assert_eq!(zero.len(), 500);
}

#[test]
fn pages_are_disjoint_contiguous_and_reassemble_the_result() {
    let path = mem_path("t_pages");
    let pool = get_db_connection_pool(&path).unwrap();
    let pc = get_db_connection(&pool).unwrap();
    let conn = pooled_conn(&pc);
    // Two rows share a creation time, so the id tie-break is exercised.
    let bets = vec![
        bet("b1", "m1", 100),
        bet("b2", "m1", 100),
        bet("b3", "m1", 200),
        bet("b4", "m1", 300),
        bet("b5", "m1", 300),
        bet("b6", "m1", 400),
    ];
    init_bet_table(conn, &bets).unwrap();
    let unbounded = get_bets(conn, None, None, None, None, None, None, None, None).unwrap();
    let ids: Vec<&str> = unbounded.iter().map(|b| b.id.as_str()).collect();
    assert_eq!(ids, vec!["b1", "b2", "b3", "b4", "b5", "b6"]);

    let page1 = get_bets(conn, None, None, None, None, Some(2), None, None, None).unwrap();
    let last1 = page1.last().unwrap().id.clone();
    let page2 = get_bets(conn, None, None, None, None, Some(2), None, Some(&last1), None).unwrap();
    let last2 = page2.last().unwrap().id.clone();
    let page3 = get_bets(conn, None, None, None, None, Some(2), None, Some(&last2), None).unwrap();

    let mut walked: Vec<Bet> = Vec::new();
    walked.extend(page1);
    walked.extend(page2);
    walked.extend(page3);
    assert_eq!(walked, unbounded);
}

#[test]
fn before_cursor_bounds_by_creation_time_with_id_tie_break() {
    let path = mem_path("t_before");
    let pool = get_db_connection_pool(&path).unwrap();
    let pc = get_db_connection(&pool).unwrap();
    let conn = pooled_conn(&pc);
    let bets = vec![
        bet("b1", "m1", 100),
        bet("b2", "m1", 300),
        bet("b3", "m1", 300),
        bet("b4", "m1", 400),
    ];
    init_bet_table(conn, &bets).unwrap();
    // Everything strictly before b3's position: earlier times, and the same
    // time with a smaller id.
    let before = get_bets(conn, None, None, None, None, None, Some("b3"), None, None).unwrap();
    let ids: Vec<&str> = before.iter().map(|b| b.id.as_str()).collect();
    assert_eq!(ids, vec!["b1", "b2"]);
    // A cursor id that is not in the table bounds nothing through the
    // correlated sub-lookup, so the result is empty rather than arbitrary.
    let missing = get_bets(conn, None, None, None, None, None, Some("zz"), None, None).unwrap();
    assert!(missing.is_empty());
}

#[test]
fn slug_matching_one_market_equals_querying_by_its_id() {
    let path = mem_path("t_slug_one");
    let pool = get_db_connection_pool(&path).unwrap();
    let pc = get_db_connection(&pool).unwrap();
    let conn = pooled_conn(&pc);
    let markets = vec![
        full(market("mA", 100, "https://m.example/alice/rainy-day")),
        full(market("mB", 200, "https://m.example/alice/snowy-night")),
    ];
    init_market_table(conn, &markets).unwrap();
    let bets = vec![
        bet("b1", "mA", 100),
        bet("b2", "mB", 200),
        bet("b3", "mA", 300),
    ];
    init_bet_table(conn, &bets).unwrap();

    let by_slug = get_bets(conn, None, None, None, Some("rainy-day"), None, None, None, None)
        .unwrap();
    let by_id = get_bets(conn, None, None, Some("mA"), None, None, None, None, None).unwrap();
    assert_eq!(by_slug, by_id);
    assert_eq!(by_slug.len(), 2);
}

#[test]
fn slug_matching_no_market_is_an_error_not_an_empty_result() {
    let path = mem_path("t_slug_zero");
    let pool = get_db_connection_pool(&path).unwrap();
    let pc = get_db_connection(&pool).unwrap();
    let conn = pooled_conn(&pc);
    init_market_table(conn, &vec![full(market("mA", 100, "https://m.example/alice/rainy-day"))])
        .unwrap();
    init_bet_table(conn, &vec![bet("b1", "mA", 100)]).unwrap();
    let err = get_bets(conn, None, None, None, Some("no-such-slug"), None, None, None, None)
        .unwrap_err();
    assert!(matches!(err, RowParsingError::QueryConstruction(_)));
}

#[test]
fn slug_matching_two_markets_is_an_error_not_an_arbitrary_pick() {
    let path = mem_path("t_slug_two");
    let pool = get_db_connection_pool(&path).unwrap();
    let pc = get_db_connection(&pool).unwrap();
    let conn = pooled_conn(&pc);
    let markets = vec![
        full(market("mA", 100, "https://m.example/alice/rainy-day")),
        full(market("mB", 200, "https://m.example/alice/rainy-day-again")),
    ];
    init_market_table(conn, &markets).unwrap();
    init_bet_table(conn, &vec![bet("b1", "mA", 100)]).unwrap();
    let err = get_bets(conn, None, None, None, Some("rainy-day"), None, None, None, None)
        .unwrap_err();
    assert!(matches!(err, RowParsingError::QueryConstruction(_)));
}

#[test]
fn conflicting_contract_id_and_slug_fail() {
    let path = mem_path("t_conflict");
    let pool = get_db_connection_pool(&path).unwrap();
    let pc = get_db_connection(&pool).unwrap();
    let conn = pooled_conn(&pc);
    let markets = vec![
        full(market("mA", 100, "https://m.example/alice/rainy-day")),
        full(market("mB", 200, "https://m.example/alice/snowy-night")),
    ];
    init_market_table(conn, &markets).unwrap();
    init_bet_table(conn, &vec![bet("b1", "mA", 100), bet("b2", "mB", 200)]).unwrap();
    // The slug resolves to mB, the explicit id names mA: the query fails
    // rather than silently preferring either.
    let err = get_bets(conn, None, None, Some("mA"), Some("snowy-night"), None, None, None, None)
        .unwrap_err();
    assert!(matches!(err, RowParsingError::QueryConstruction(_)));
    // When the two agree, the query runs.
    let ok = get_bets(conn, None, None, Some("mB"), Some("snowy-night"), None, None, None, None)
        .unwrap();
    assert_eq!(ok.len(), 1);
    assert_eq!(ok[0].id, "b2");
}

#[test]
fn market_listing_filters_and_orders() {
    let path = mem_path("t_listing");
    let pool = get_db_connection_pool(&path).unwrap();
    let pc = get_db_connection(&pool).unwrap();
    let conn = pooled_conn(&pc);
    let mut m2 = market("m2", 200, "https://m.example/a/two");
    m2.creator_id = "other".to_string();
    let markets = vec![
        full(market("m1", 100, "https://m.example/a/one")),
        full(m2),
        full(market("m3", 300, "https://m.example/a/three")),
    ];
    init_market_table(conn, &markets).unwrap();
    let all = get_markets_by_params(conn, None, None, None, None, None).unwrap();
    let ids: Vec<&str> = all.iter().map(|m| m.id.as_str()).collect();
    assert_eq!(ids, vec!["m1", "m2", "m3"]);
    let desc = get_markets_by_params(conn, None, Some("created-time"), Some("desc"), None, None)
        .unwrap();
    let ids_desc: Vec<&str> = desc.iter().map(|m| m.id.as_str()).collect();
    assert_eq!(ids_desc, vec!["m3", "m2", "m1"]);
    let by_creator = get_markets_by_params(conn, None, None, None, None, Some("crea")).unwrap();
    assert_eq!(by_creator.len(), 2);
    let sliced = get_market_by_slug(conn, "two").unwrap();
    assert_eq!(sliced.len(), 1);
    assert_eq!(sliced[0].id, "m2");
}

#[test]
fn market_before_cursor_bounds_by_sort_position() {
    let path = mem_path("t_mkt_before");
    let pool = get_db_connection_pool(&path).unwrap();
    let pc = get_db_connection(&pool).unwrap();
    let conn = pooled_conn(&pc);
    let mut m1 = market("m1", 100, "https://m.example/a/one");
    m1.last_updated_time = Some(110);
    let mut m2 = market("m2", 100, "https://m.example/a/two");
    m2.last_updated_time = None;
    let mut m3 = market("m3", 200, "https://m.example/a/three");
    m3.last_updated_time = Some(90);
    let mut m4 = market("m4", 300, "https://m.example/a/four");
    m4.last_updated_time = Some(110);
    init_market_table(conn, &vec![full(m1), full(m2), full(m3), full(m4)]).unwrap();

    // Creation order breaks the m1/m2 tie by id; the cursor honours it.
    let below_m3 = get_markets_by_params(conn, None, None, None, Some("m3"), None).unwrap();
    let ids: Vec<&str> = below_m3.iter().map(|m| m.id.as_str()).collect();
    assert_eq!(ids, vec!["m1", "m2"]);
    let below_m2 = get_markets_by_params(conn, None, None, None, Some("m2"), None).unwrap();
    let ids2: Vec<&str> = below_m2.iter().map(|m| m.id.as_str()).collect();
    assert_eq!(ids2, vec!["m1"]);

    // Under the updated-time sort an absent column value sorts first, and
    // the m1/m4 tie on the column breaks by id.
    let upd = get_markets_by_params(conn, None, Some("updated-time"), None, None, None).unwrap();
    let ids3: Vec<&str> = upd.iter().map(|m| m.id.as_str()).collect();
    assert_eq!(ids3, vec!["m2", "m3", "m1", "m4"]);
    let below_m1 = get_markets_by_params(conn, None, Some("updated-time"), None, Some("m1"), None)
        .unwrap();
    let ids4: Vec<&str> = below_m1.iter().map(|m| m.id.as_str()).collect();
    assert_eq!(ids4, vec!["m2", "m3"]);
    let below_m2_upd = get_markets_by_params(
        conn,
        None,
        Some("updated-time"),
        None,
        Some("m2"),
        None,
    )
    .unwrap();
    assert!(below_m2_upd.is_empty());

    // A cursor id that is not in the table bounds nothing through the
    // correlated sub-lookup, so the result is empty rather than arbitrary.
    let missing = get_markets_by_params(conn, None, None, None, Some("zz"), None).unwrap();
    assert!(missing.is_empty());
}

#[test]
fn a_corrupt_stored_row_aborts_the_query_with_a_typed_error() {
    let path = mem_path("t_corrupt");
    let pool = get_db_connection_pool(&path).unwrap();
    let pc = get_db_connection(&pool).unwrap();
    let conn = pooled_conn(&pc);
    init_market_table(conn, &vec![full(market("m1", 100, "https://m.example/a/x"))]).unwrap();
    // Write an unrecognizable outcome-type tag straight into the shared
    // store, bypassing the codec.
    let raw = rusqlite::Connection::open(&path).unwrap();
    raw.execute("UPDATE markets SET outcome_type = 'MYSTERY' WHERE id = 'm1'", []).unwrap();
    let err = get_markets_by_id(conn, Some("m1")).unwrap_err();
    assert!(matches!(err, RowParsingError::Serialization { .. }));
}

#[test]
fn bulk_insert_reports_the_loaded_count() {
    let path = mem_path("t_counts");
    let pool = get_db_connection_pool(&path).unwrap();
    let pc = get_db_connection(&pool).unwrap();
    let conn = pooled_conn(&pc);
    init_market_table(conn, &vec![]).unwrap();
    let lite: Vec<LiteMarket> = (0..5u64)
        .map(|i| market(&format!("m{}", i), 100 + i, "https://m.example/a/x"))
        .collect();
    assert_eq!(bulk_insert_markets(conn, &lite).unwrap(), 5);
    init_bet_table(conn, &vec![]).unwrap();
    let bs: Vec<Bet> = (0..7u64).map(|i| bet(&format!("b{}", i), "m0", 100 + i)).collect();
    assert_eq!(bulk_insert_bets(conn, &bs).unwrap(), 7);
    assert_eq!(count_rows(conn, "bets").unwrap(), 7);
}

#[test]
fn creating_a_table_that_exists_is_a_schema_failure() {
    let path = mem_path("t_schema_err");
    let pool = get_db_connection_pool(&path).unwrap();
    let pc = get_db_connection(&pool).unwrap();
    let conn = pooled_conn(&pc);
    mmmbacktest::market_table::create_market_table(conn).unwrap();
    let err = mmmbacktest::market_table::create_market_table(conn).unwrap_err();
    assert!(matches!(err, RowParsingError::Schema(_)));
}

#[test]
fn querying_a_missing_table_is_a_connectivity_failure() {
    let path = mem_path("t_conn_err");
    let pool = get_db_connection_pool(&path).unwrap();
    let pc = get_db_connection(&pool).unwrap();
    let conn = pooled_conn(&pc);
    let err = count_rows(conn, "bets").unwrap_err();
    assert!(matches!(err, RowParsingError::Connectivity(_)));
}

#[test]
fn counting_an_unknown_table_is_a_construction_error() {
    let path = mem_path("t_unknown_table");
    let pool = get_db_connection_pool(&path).unwrap();
    let pc = get_db_connection(&pool).unwrap();
    let conn = pooled_conn(&pc);
    let err = count_rows(conn, "somewhere_else").unwrap_err();
    assert!(matches!(err, RowParsingError::QueryConstruction(_)));
}

#[test]
fn a_record_the_store_cannot_hold_is_a_source_failure() {
    let path = mem_path("t_unfit");
    let pool = get_db_connection_pool(&path).unwrap();
    let pc = get_db_connection(&pool).unwrap();
    let conn = pooled_conn(&pc);
    init_bet_table(conn, &vec![]).unwrap();
    let mut b = bet("b1", "m1", 100);
    b.created_time = u64::MAX;
    let err = bulk_insert_bets(conn, &vec![b]).unwrap_err();
    assert!(matches!(err, RowParsingError::IngestionSource(_)));
}

//! The query surface: one operation per entity kind, each compiling an
//! enumerated, all-optional parameter set into a single fixed-shape
//! parameterized statement. Absent filters are neutralized inside the
//! statement, never spliced into its text; the page size is clamped; and
//! every returned row is decoded through the verified codec, with a failure
//! on any single row aborting the whole query.
//!
//! What the store is asked to compute is stated by `query_model`: for bets,
//! rows matching the filters in creation order; for markets, rows matching
//! the filters in the chosen sort column's order; both with the primary key
//! as the tie-break, bounded by the cursors and the clamped limit.

use vstd::prelude::*;

use crate::bet_table::{dec_bet_row, rusqlite_row_to_bet};
use crate::cells::{CellV, CellValue};
use crate::data_types::{Bet, LiteMarket, User};
use crate::db_common::{query_cells, rusqlite_error_text};
use crate::errors::RowParsingError;
use crate::market_table::{dec_market_row, rusqlite_row_to_litemarket};
use crate::text_codec::string_eq_lit;
use crate::user_table::rusqlite_row_to_user;

verus! {

// ---------------------------------------------------------------------------
// Parameter normalization
// ---------------------------------------------------------------------------

/// The page size a request is served with: absent or non-positive requests
/// get the default, oversized requests are clamped.
pub open spec fn spec_effective_limit(l: Option<i64>) -> i64 {
    match l {
        Option::None => 500,
        Option::Some(v) => if v <= 0 {
            500
        } else if v > 1000 {
            1000
        } else {
            v
        },
    }
}

/// Clamps a requested page size: a requested limit of zero or none at all
/// defaults to five hundred rows, and no request is served more than one
/// thousand.
pub fn effective_limit(limit: Option<i64>) -> (r: i64)
    ensures
        r == spec_effective_limit(limit),
        0 < r <= 1000,
{
    match limit {
        Option::None => 500,
        Option::Some(v) => {
            if v <= 0 {
                500
            } else if v > 1000 {
                1000
            } else {
                v
            }
        },
    }
}

/// The sort keys a market query accepts.
#[derive(Clone, Copy, Debug, PartialEq, Eq, Structural)]
pub enum MarketSort {
    CreatedTime,
    UpdatedTime,
    LastBetTime,
}

impl MarketSort {
    /// The tag this sort key is requested by, and the tag the statement
    /// selects its column with.
    pub open spec fn tag(self) -> Seq<char> {
        match self {
            MarketSort::CreatedTime => "created-time"@,
            MarketSort::UpdatedTime => "updated-time"@,
            MarketSort::LastBetTime => "last-bet-time"@,
        }
    }
}

/// The sort key a request names; anything unrecognized or absent is sorted
/// by creation time.
pub open spec fn spec_market_sort(s: Option<Seq<char>>) -> MarketSort {
    match s {
        Option::Some(sv) => if sv == "updated-time"@ {
            MarketSort::UpdatedTime
        } else if sv == "last-bet-time"@ {
            MarketSort::LastBetTime
        } else {
            MarketSort::CreatedTime
        },
        Option::None => MarketSort::CreatedTime,
    }
}

fn parse_market_sort(s: Option<&str>) -> (r: MarketSort)
    ensures
        r == spec_market_sort(
            match s {
                Option::Some(v) => Option::Some(v@),
                Option::None => Option::None,
            },
        ),
{
    match s {
        Option::Some(v) => {
            let sv = String::from_str(v);
            if string_eq_lit(&sv, "updated-time") {
                MarketSort::UpdatedTime
            } else if string_eq_lit(&sv, "last-bet-time") {
                MarketSort::LastBetTime
            } else {
                MarketSort::CreatedTime
            }
        },
        Option::None => MarketSort::CreatedTime,
    }
}

fn market_sort_tag(s: MarketSort) -> (r: String)
    ensures
        r@ == s.tag(),
{
    match s {
        MarketSort::CreatedTime => String::from_str("created-time"),
        MarketSort::UpdatedTime => String::from_str("updated-time"),
        MarketSort::LastBetTime => String::from_str("last-bet-time"),
    }
}

/// The direction of a result sequence.
#[derive(Clone, Copy, Debug, PartialEq, Eq, Structural)]
pub enum SortOrder {
    Asc,
    Desc,
}

/// The direction a request names; anything but `desc` is ascending.
pub open spec fn spec_sort_order(s: Option<Seq<char>>) -> SortOrder {
    match s {
        Option::Some(sv) => if sv == "desc"@ {
            SortOrder::Desc
        } else {
            SortOrder::Asc
        },
        Option::None => SortOrder::Asc,
    }
}

fn parse_sort_order(s: Option<&str>) -> (r: SortOrder)
    ensures
        r == spec_sort_order(
            match s {
                Option::Some(v) => Option::Some(v@),
                Option::None => Option::None,
            },
        ),
{
    match s {
        Option::Some(v) => {
            let sv = String::from_str(v);
            if string_eq_lit(&sv, "desc") {
                SortOrder::Desc
            } else {
                SortOrder::Asc
            }
        },
        Option::None => SortOrder::Asc,
    }
}

// ---------------------------------------------------------------------------
// Row-set decoding
// ---------------------------------------------------------------------------

pub open spec fn market_rows_all_ok(rs: Seq<Seq<CellV>>) -> bool {
    forall|j: int| 0 <= j < rs.len() ==> dec_market_row(#[trigger] rs[j]) is Some
}

/// What a returned market row set decodes to: every row through the codec,
/// or nothing if any row is undecodable.
pub open spec fn dec_market_rows(rs: Seq<Seq<CellV>>) -> Option<Seq<crate::data_types::LiteMarketV>> {
    if market_rows_all_ok(rs) {
        Option::Some(Seq::new(rs.len(), |j: int| dec_market_row(rs[j])->Some_0))
    } else {
        Option::None
    }
}

/// Decodes every returned market row; a failure on any single row aborts
/// the whole query with that row's serialization error.
pub fn decode_market_rows(rows: &Vec<Vec<CellValue>>) -> (r: Result<
    Vec<LiteMarket>,
    RowParsingError,
>)
    ensures
        match r {
            Result::Ok(v) => dec_market_rows(rows.deep_view()) == Option::Some(v.deep_view()),
            Result::Err(e) => dec_market_rows(rows.deep_view()) is None && e.is_serialization(),
        },
{
    let mut out: Vec<LiteMarket> = Vec::new();
    let mut i: usize = 0;
    while i < rows.len()
        invariant
            0 <= i <= rows@.len(),
            out@.len() == i,
            forall|j: int|
                0 <= j < i ==> dec_market_row(#[trigger] rows.deep_view()[j]) is Some,
            forall|j: int|
                0 <= j < i ==> out.deep_view()[j] == dec_market_row(
                    #[trigger] rows.deep_view()[j],
                )->Some_0,
        decreases rows@.len() - i,
    {
        match rusqlite_row_to_litemarket(&rows[i]) {
            Result::Ok(m) => {
                out.push(m);
            },
            Result::Err(e) => {
                assert(dec_market_row(rows.deep_view()[i as int]) is None);
                return Result::Err(e);
            },
        }
        i = i + 1;
    }
    assert(out.deep_view() =~= Seq::new(
        rows.deep_view().len(),
        |j: int| dec_market_row(rows.deep_view()[j])->Some_0,
    ));
    Result::Ok(out)
}

pub open spec fn bet_rows_all_ok(rs: Seq<Seq<CellV>>) -> bool {
    forall|j: int| 0 <= j < rs.len() ==> dec_bet_row(#[trigger] rs[j]) is Some
}

/// What a returned bet row set decodes to: every row through the codec, or
/// nothing if any row is undecodable.
pub open spec fn dec_bet_rows(rs: Seq<Seq<CellV>>) -> Option<Seq<crate::data_types::BetV>> {
    if bet_rows_all_ok(rs) {
        Option::Some(Seq::new(rs.len(), |j: int| dec_bet_row(rs[j])->Some_0))
    } else {
        Option::None
    }
}

/// Decodes every returned bet row; a failure on any single row aborts the
/// whole query with that row's serialization error.
pub fn decode_bet_rows(rows: &Vec<Vec<CellValue>>) -> (r: Result<Vec<Bet>, RowParsingError>)
    ensures
        match r {
            Result::Ok(v) => dec_bet_rows(rows.deep_view()) == Option::Some(v.deep_view()),
            Result::Err(e) => dec_bet_rows(rows.deep_view()) is None && e.is_serialization(),
        },
{
    let mut out: Vec<Bet> = Vec::new();
    let mut i: usize = 0;
    while i < rows.len()
        invariant
            0 <= i <= rows@.len(),
            out@.len() == i,
            forall|j: int| 0 <= j < i ==> dec_bet_row(#[trigger] rows.deep_view()[j]) is Some,
            forall|j: int|
                0 <= j < i ==> out.deep_view()[j] == dec_bet_row(
                    #[trigger] rows.deep_view()[j],
                )->Some_0,
        decreases rows@.len() - i,
    {
        match rusqlite_row_to_bet(&rows[i]) {
            Result::Ok(b) => {
                out.push(b);
            },
            Result::Err(e) => {
                assert(dec_bet_row(rows.deep_view()[i as int]) is None);
                return Result::Err(e);
            },
        }
        i = i + 1;
    }
    assert(out.deep_view() =~= Seq::new(
        rows.deep_view().len(),
        |j: int| dec_bet_row(rows.deep_view()[j])->Some_0,
    ));
    Result::Ok(out)
}

// ---------------------------------------------------------------------------
// Markets
// ---------------------------------------------------------------------------

fn market_query_sql(order: SortOrder) -> &'static str {
    match order {
        SortOrder::Asc =>
            "SELECT * FROM markets
            WHERE
              (?1 IS NULL OR markets.id = ?1) AND
              (?2 IS NULL OR markets.creator_id = ?2) AND
              (?3 IS NULL OR EXISTS (SELECT 1 FROM markets c WHERE c.id = ?3 AND (
                ((CASE WHEN ?4 = 'created-time' THEN markets.created_time
                       WHEN ?4 = 'updated-time' THEN markets.last_updated_time
                       WHEN ?4 = 'last-bet-time' THEN markets.last_bet_time END) IS NULL
                  AND (CASE WHEN ?4 = 'created-time' THEN c.created_time
                            WHEN ?4 = 'updated-time' THEN c.last_updated_time
                            WHEN ?4 = 'last-bet-time' THEN c.last_bet_time END) IS NOT NULL)
                OR (CASE WHEN ?4 = 'created-time' THEN markets.created_time
                         WHEN ?4 = 'updated-time' THEN markets.last_updated_time
                         WHEN ?4 = 'last-bet-time' THEN markets.last_bet_time END)
                   < (CASE WHEN ?4 = 'created-time' THEN c.created_time
                           WHEN ?4 = 'updated-time' THEN c.last_updated_time
                           WHEN ?4 = 'last-bet-time' THEN c.last_bet_time END)
                OR ((CASE WHEN ?4 = 'created-time' THEN markets.created_time
                          WHEN ?4 = 'updated-time' THEN markets.last_updated_time
                          WHEN ?4 = 'last-bet-time' THEN markets.last_bet_time END)
                    IS (CASE WHEN ?4 = 'created-time' THEN c.created_time
                             WHEN ?4 = 'updated-time' THEN c.last_updated_time
                             WHEN ?4 = 'last-bet-time' THEN c.last_bet_time END)
                    AND markets.id < ?3))))
            ORDER BY
              CASE
                WHEN ?4 = 'created-time' THEN created_time
                WHEN ?4 = 'updated-time' THEN last_updated_time
                WHEN ?4 = 'last-bet-time' THEN last_bet_time
              END ASC, id ASC
            LIMIT ?5;",
        SortOrder::Desc =>
            "SELECT * FROM markets
            WHERE
              (?1 IS NULL OR markets.id = ?1) AND
              (?2 IS NULL OR markets.creator_id = ?2) AND
              (?3 IS NULL OR EXISTS (SELECT 1 FROM markets c WHERE c.id = ?3 AND (
                ((CASE WHEN ?4 = 'created-time' THEN markets.created_time
                       WHEN ?4 = 'updated-time' THEN markets.last_updated_time
                       WHEN ?4 = 'last-bet-time' THEN markets.last_bet_time END) IS NULL
                  AND (CASE WHEN ?4 = 'created-time' THEN c.created_time
                            WHEN ?4 = 'updated-time' THEN c.last_updated_time
                            WHEN ?4 = 'last-bet-time' THEN c.last_bet_time END) IS NOT NULL)
                OR (CASE WHEN ?4 = 'created-time' THEN markets.created_time
                         WHEN ?4 = 'updated-time' THEN markets.last_updated_time
                         WHEN ?4 = 'last-bet-time' THEN markets.last_bet_time END)
                   < (CASE WHEN ?4 = 'created-time' THEN c.created_time
                           WHEN ?4 = 'updated-time' THEN c.last_updated_time
                           WHEN ?4 = 'last-bet-time' THEN c.last_bet_time END)
                OR ((CASE WHEN ?4 = 'created-time' THEN markets.created_time
                          WHEN ?4 = 'updated-time' THEN markets.last_updated_time
                          WHEN ?4 = 'last-bet-time' THEN markets.last_bet_time END)
                    IS (CASE WHEN ?4 = 'created-time' THEN c.created_time
                             WHEN ?4 = 'updated-time' THEN c.last_updated_time
                             WHEN ?4 = 'last-bet-time' THEN c.last_bet_time END)
                    AND markets.id < ?3))))
            ORDER BY
              CASE
                WHEN ?4 = 'created-time' THEN created_time
                WHEN ?4 = 'updated-time' THEN last_updated_time
                WHEN ?4 = 'last-bet-time' THEN last_bet_time
              END DESC, id ASC
            LIMIT ?5;",
    }
}

fn opt_str_cell(o: Option<&str>) -> (r: CellValue)
    ensures
        r@ == match o {
            Option::Some(s) => CellV::Text(s@),
            Option::None => CellV::Null,
        },
{
    match o {
        Option::Some(s) => CellValue::Text(String::from_str(s)),
        Option::None => CellValue::Null,
    }
}

/// Runs one market query: optional id, creator and cursor filters are
/// neutralized inside the fixed statement when absent, the sort column is
/// selected by tag, the before cursor bounds the listing to the rows
/// strictly below its row's position in the chosen sort order (absent
/// column values first, primary key ascending as the tie-break, resolved by
/// a correlated sub-lookup), the page size is clamped, and every returned
/// row is decoded through the verified codec. `query_model` states the
/// listing this asks for.
fn get_markets(
    conn: &rusqlite::Connection,
    id: Option<&str>,
    limit: Option<i64>,
    sort: Option<&str>,
    order: Option<&str>,
    before: Option<&str>,
    user_id: Option<&str>,
) -> (r: Result<Vec<LiteMarket>, RowParsingError>)
    ensures
        r matches Result::Err(e) ==> e.is_connectivity() || e.is_serialization(),
{
    let lim = effective_limit(limit);
    let sort_key = parse_market_sort(sort);
    let ord = parse_sort_order(order);
    let mut params: Vec<CellValue> = Vec::new();
    params.push(opt_str_cell(id));
    params.push(opt_str_cell(user_id));
    params.push(opt_str_cell(before));
    params.push(CellValue::Text(market_sort_tag(sort_key)));
    params.push(CellValue::Int(lim));
    match query_cells(conn, market_query_sql(ord), &params) {
        Result::Ok(rows) => decode_market_rows(&rows),
        Result::Err(e) => Result::Err(RowParsingError::Connectivity(rusqlite_error_text(&e))),
    }
}

/// The market listing: all optional filters, sort key, direction, cursor
/// and clamped page size.
pub fn get_markets_by_params(
    conn: &rusqlite::Connection,
    limit: Option<i64>,
    sort: Option<&str>,
    order: Option<&str>,
    before: Option<&str>,
    user_id: Option<&str>,
) -> (r: Result<Vec<LiteMarket>, RowParsingError>)
    ensures
        r matches Result::Err(e) ==> e.is_connectivity() || e.is_serialization(),
{
    get_markets(conn, Option::None, limit, sort, order, before, user_id)
}

/// The market lookup by id.
pub fn get_markets_by_id(conn: &rusqlite::Connection, id: Option<&str>) -> (r: Result<
    Vec<LiteMarket>,
    RowParsingError,
>)
    ensures
        r matches Result::Err(e) ==> e.is_connectivity() || e.is_serialization(),
{
    get_markets(conn, id, Option::None, Option::None, Option::None, Option::None, Option::None)
}

/// The market lookup by slug: a substring match on the canonical URL
/// column, parameterized, never spliced into the statement text.
pub fn get_market_by_slug(conn: &rusqlite::Connection, slug: &str) -> (r: Result<
    Vec<LiteMarket>,
    RowParsingError,
>)
    ensures
        r matches Result::Err(e) ==> e.is_connectivity() || e.is_serialization(),
{
    let sql = "SELECT * FROM markets WHERE url LIKE '%' || ?1 || '%';";
    let mut params: Vec<CellValue> = Vec::new();
    params.push(CellValue::Text(String::from_str(slug)));
    match query_cells(conn, sql, &params) {
        Result::Ok(rows) => decode_market_rows(&rows),
        Result::Err(e) => Result::Err(RowParsingError::Connectivity(rusqlite_error_text(&e))),
    }
}

// ---------------------------------------------------------------------------
// Bets
// ---------------------------------------------------------------------------

/// Which contract a bets query is bound to once a slug is involved: the slug
/// must match exactly one market, and an explicitly supplied contract id
/// must agree with it; anything else is a construction error, never an
/// empty or arbitrary result.
pub fn resolve_contract_filter(contract_id: Option<&str>, matched: &Vec<LiteMarket>) -> (r: Result<
    String,
    RowParsingError,
>)
    ensures
        match r {
            Result::Ok(cid) => {
                &&& matched@.len() == 1
                &&& cid@ == matched@[0].id@
                &&& match contract_id {
                    Option::Some(c) => c@ == matched@[0].id@,
                    Option::None => true,
                }
            },
            Result::Err(e) => {
                &&& e.is_query_construction()
                &&& (matched@.len() != 1 || (contract_id matches Option::Some(c) && c@
                    != matched@[0].id@))
            },
        },
{
    if matched.len() == 0 {
        return Result::Err(
            RowParsingError::QueryConstruction(
                String::from_str("no market matches the contract slug"),
            ),
        );
    }
    if matched.len() > 1 {
        return Result::Err(
            RowParsingError::QueryConstruction(
                String::from_str("several markets match the contract slug"),
            ),
        );
    }
    let found = &matched[0].id;
    match contract_id {
        Option::Some(c) => {
            let cs = String::from_str(c);
            if cs == *found {
                Result::Ok(found.clone())
            } else {
                Result::Err(
                    RowParsingError::QueryConstruction(
                        String::from_str("the contract id does not match the contract slug"),
                    ),
                )
            }
        },
        Option::None => Result::Ok(found.clone()),
    }
}

fn bet_query_sql(order: SortOrder) -> &'static str {
    match order {
        SortOrder::Asc =>
            "SELECT * FROM bets
            WHERE
              (?1 IS NULL OR user_id = ?1) AND
              (?2 IS NULL OR user_name = ?2) AND
              (?3 IS NULL OR contract_id = ?3) AND
              (?4 IS NULL OR created_time < (SELECT created_time FROM bets WHERE id = ?4)
                OR (created_time = (SELECT created_time FROM bets WHERE id = ?4) AND id < ?4)) AND
              (?5 IS NULL OR created_time > (SELECT created_time FROM bets WHERE id = ?5)
                OR (created_time = (SELECT created_time FROM bets WHERE id = ?5) AND id > ?5))
            ORDER BY created_time ASC, id ASC
            LIMIT ?6;",
        SortOrder::Desc =>
            "SELECT * FROM bets
            WHERE
              (?1 IS NULL OR user_id = ?1) AND
              (?2 IS NULL OR user_name = ?2) AND
              (?3 IS NULL OR contract_id = ?3) AND
              (?4 IS NULL OR created_time < (SELECT created_time FROM bets WHERE id = ?4)
                OR (created_time = (SELECT created_time FROM bets WHERE id = ?4) AND id < ?4)) AND
              (?5 IS NULL OR created_time > (SELECT created_time FROM bets WHERE id = ?5)
                OR (created_time = (SELECT created_time FROM bets WHERE id = ?5) AND id > ?5))
            ORDER BY created_time DESC, id ASC
            LIMIT ?6;",
    }
}

fn run_bet_query(
    conn: &rusqlite::Connection,
    user_id: Option<&str>,
    username: Option<&str>,
    contract_id: Option<&CellValue>,
    limit: Option<i64>,
    before: Option<&str>,
    after: Option<&str>,
    order: Option<&str>,
) -> (r: Result<Vec<Bet>, RowParsingError>)
    ensures
        r matches Result::Err(e) ==> e.is_connectivity() || e.is_serialization(),
{
    let lim = effective_limit(limit);
    let ord = parse_sort_order(order);
    let mut params: Vec<CellValue> = Vec::new();
    params.push(opt_str_cell(user_id));
    params.push(opt_str_cell(username));
    match contract_id {
        Option::Some(c) => {
            params.push(
                match c {
                    CellValue::Text(s) => CellValue::Text(s.clone()),
                    _ => CellValue::Null,
                },
            );
        },
        Option::None => {
            params.push(CellValue::Null);
        },
    }
    params.push(opt_str_cell(before));
    params.push(opt_str_cell(after));
    params.push(CellValue::Int(lim));
    match query_cells(conn, bet_query_sql(ord), &params) {
        Result::Ok(rows) => decode_bet_rows(&rows),
        Result::Err(e) => Result::Err(RowParsingError::Connectivity(rusqlite_error_text(&e))),
    }
}

/// The bet listing. A contract slug, when supplied, must resolve to exactly
/// one market, and a conflicting explicit contract id fails the query
/// rather than silently preferring either; the cursors bound the result by
/// the cursor row's creation time with the primary key as the tie-break,
/// resolved by a correlated sub-lookup, never a raw id comparison.
pub fn get_bets(
    conn: &rusqlite::Connection,
    user_id: Option<&str>,
    username: Option<&str>,
    contract_id: Option<&str>,
    contract_slug: Option<&str>,
    limit: Option<i64>,
    before: Option<&str>,
    after: Option<&str>,
    order: Option<&str>,
) -> (r: Result<Vec<Bet>, RowParsingError>)
    ensures
        r matches Result::Err(e) ==> e.is_connectivity() || e.is_serialization()
            || e.is_query_construction(),
{
    match contract_slug {
        Option::Some(slug) => {
            let matched = match get_market_by_slug(conn, slug) {
                Result::Ok(v) => v,
                Result::Err(e) => {
                    return Result::Err(e);
                },
            };
            let cid = match resolve_contract_filter(contract_id, &matched) {
                Result::Ok(c) => c,
                Result::Err(e) => {
                    return Result::Err(e);
                },
            };
            let cell = CellValue::Text(cid);
            run_bet_query(conn, user_id, username, Option::Some(&cell), limit, before, after, order)
        },
        Option::None => {
            match contract_id {
                Option::Some(c) => {
                    let cell = CellValue::Text(String::from_str(c));
                    run_bet_query(
                        conn,
                        user_id,
                        username,
                        Option::Some(&cell),
                        limit,
                        before,
                        after,
                        order,
                    )
                },
                Option::None => run_bet_query(
                    conn,
                    user_id,
                    username,
                    Option::None,
                    limit,
                    before,
                    after,
                    order,
                ),
            }
        },
    }
}

/// The bet listing under its parameter-set name.
pub fn get_bets_by_params(
    conn: &rusqlite::Connection,
    user_id: Option<&str>,
    username: Option<&str>,
    contract_id: Option<&str>,
    contract_slug: Option<&str>,
    limit: Option<i64>,
    before: Option<&str>,
    after: Option<&str>,
    order: Option<&str>,
) -> (r: Result<Vec<Bet>, RowParsingError>)
    ensures
        r matches Result::Err(e) ==> e.is_connectivity() || e.is_serialization()
            || e.is_query_construction(),
{
    get_bets(conn, user_id, username, contract_id, contract_slug, limit, before, after, order)
}

// ---------------------------------------------------------------------------
// The backtesting user
// ---------------------------------------------------------------------------

/// Reads the user lookup's returned row set: an empty set is the missing
/// configured user, a construction error; otherwise the first row is
/// decoded through the verified codec, with its serialization error
/// surfaced. Never a silent default and never a panic.
pub fn user_from_rows(rows: &Vec<Vec<CellValue>>) -> (r: Result<User, RowParsingError>)
    ensures
        rows@.len() == 0 ==> (r matches Result::Err(e) && e.is_query_construction()),
        rows@.len() > 0 ==> match r {
            Result::Ok(u) => crate::user_table::dec_user_row(rows.deep_view()[0])
                == Option::Some(u.deep_view()),
            Result::Err(e) => crate::user_table::dec_user_row(rows.deep_view()[0]) is None
                && e.is_serialization(),
        },
{
    if rows.len() == 0 {
        return Result::Err(
            RowParsingError::QueryConstruction(
                String::from_str("the backtesting user is not in the store"),
            ),
        );
    }
    rusqlite_row_to_user(&rows[0])
}

/// The fixed lookup of the configured backtesting user: exactly one row by
/// id, read through `user_from_rows`.
pub fn get_me(conn: &rusqlite::Connection, default_user_id: &str) -> (r: Result<
    User,
    RowParsingError,
>)
    ensures
        r matches Result::Err(e) ==> e.is_connectivity() || e.is_serialization()
            || e.is_query_construction(),
{
    let sql = "SELECT * FROM users WHERE id = ?1 LIMIT 1;";
    let mut params: Vec<CellValue> = Vec::new();
    params.push(CellValue::Text(String::from_str(default_user_id)));
    match query_cells(conn, sql, &params) {
        Result::Ok(rows) => user_from_rows(&rows),
        Result::Err(e) => Result::Err(RowParsingError::Connectivity(rusqlite_error_text(&e))),
    }
}

} // verus!

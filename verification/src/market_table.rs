//! The `markets` table: its row codec.
//!
//! A market row has 27 columns. Monetary, probability and volume quantities
//! are stored in integer columns as the opaque 64-bit patterns the domain
//! type carries; the pool map is folded into a single text column, with the
//! `null` token standing for an absent pool.

use vstd::prelude::*;

use crate::cells::{cell_bool, cell_i64, cell_of_bool, cell_of_i64, cell_of_opt_bool,
    cell_of_opt_i64, cell_of_opt_text, cell_of_opt_u64, cell_of_text, cell_of_u64, cell_opt_bool,
    cell_opt_i64, cell_opt_text, cell_opt_u64, cell_text, cell_u64, cellv_bool, cellv_i64,
    cellv_opt_bool, cellv_opt_i64, cellv_opt_text, cellv_opt_u64, cellv_text, cellv_u64, enc_bool,
    enc_i64, enc_opt_bool, enc_opt_i64, enc_opt_text, enc_opt_u64, enc_text, enc_u64, CellV,
    CellValue};
use crate::data_types::{lemma_mechanism_tag_round_trip, lemma_outcome_type_tag_round_trip,
    mechanism_from_tag, outcome_type_from_tag, LiteMarket, LiteMarketV, MarketMechanism,
    MarketOutcomeType, PoolEntry, PoolEntryV};
use crate::errors::RowParsingError;
use crate::obj_codec::{dec_pool, lemma_dec_pool, parse_pool, push_pool, spec_pool};
use crate::text_codec::{chars_string, lemma_digits_shape, spec_num, str_chars, string_eq_lit};

verus! {

/// A decoding failure, naming the entity and the column.
pub fn serr(entity: &str, column: &str) -> (r: RowParsingError)
    ensures
        r.is_serialization(),
{
    RowParsingError::Serialization {
        entity: String::from_str(entity),
        column: String::from_str(column),
    }
}

// ---------------------------------------------------------------------------
// The pool column
// ---------------------------------------------------------------------------

/// The stored form of the pool column: the `null` token when absent, the
/// encoded map otherwise.
pub open spec fn market_pool_cell(o: Option<Seq<PoolEntryV>>) -> CellV {
    match o {
        Option::None => CellV::Text("null"@),
        Option::Some(es) => CellV::Text(spec_pool(es)),
    }
}

/// What a stored pool column decodes to. The whole text must be consumed.
pub open spec fn dec_market_pool_cell(c: CellV) -> Option<Option<Seq<PoolEntryV>>> {
    match c {
        CellV::Text(s) => if s == "null"@ {
            Option::Some(Option::None)
        } else {
            match dec_pool(s, 0) {
                Option::Some(p) => if p.1 == s.len() {
                    Option::Some(Option::Some(p.0))
                } else {
                    Option::None
                },
                Option::None => Option::None,
            }
        },
        _ => Option::None,
    }
}

/// A stored pool column reads back as the pool it was written from.
pub proof fn lemma_pool_cell_round_trip(o: Option<Seq<PoolEntryV>>)
    requires
        match o {
            Option::Some(es) => es.len() <= u64::MAX as nat,
            Option::None => true,
        },
    ensures
        dec_market_pool_cell(market_pool_cell(o)) == Option::Some(o),
{
    broadcast use vstd::string::group_string_axioms;

    reveal_strlit("null");
    match o {
        Option::None => {
        },
        Option::Some(es) => {
            let s = spec_pool(es);
            lemma_digits_shape(es.len());
            assert(s[0] == spec_num(es.len())[0]);
            assert(crate::text_codec::is_digit(s[0]));
            assert(s != "null"@) by {
                assert("null"@[0] == 'n');
            }
            assert(Seq::<char>::empty() + s + Seq::<char>::empty() =~= s);
            lemma_dec_pool(Seq::<char>::empty(), es, Seq::<char>::empty());
        },
    }
}

fn pool_to_cell(o: &Option<Vec<PoolEntry>>) -> (r: CellValue)
    ensures
        r@ == market_pool_cell(
            match o {
                Option::Some(v) => Option::Some(v.deep_view()),
                Option::None => Option::None,
            },
        ),
{
    match o {
        Option::None => CellValue::Text(String::from_str("null")),
        Option::Some(v) => {
            let mut buf: Vec<char> = Vec::new();
            push_pool(&mut buf, v);
            CellValue::Text(chars_string(&buf))
        },
    }
}

fn pool_of_cell(c: &CellValue) -> (r: Option<Option<Vec<PoolEntry>>>)
    ensures
        match r {
            Option::Some(o) => dec_market_pool_cell(c@) == Option::Some(
                match o {
                    Option::Some(v) => Option::Some(v.deep_view()),
                    Option::None => Option::None,
                },
            ),
            Option::None => dec_market_pool_cell(c@) is None,
        },
{
    match c {
        CellValue::Text(s) => {
            if string_eq_lit(s, "null") {
                Option::Some(Option::None)
            } else {
                let chars = str_chars(s.as_str());
                match parse_pool(&chars, 0) {
                    Option::Some((v, j)) => {
                        if j == chars.len() {
                            Option::Some(Option::Some(v))
                        } else {
                            Option::None
                        }
                    },
                    Option::None => Option::None,
                }
            }
        },
        _ => Option::None,
    }
}

// ---------------------------------------------------------------------------
// The row codec
// ---------------------------------------------------------------------------

/// The stored row of a market, cell by cell, in column order.
pub open spec fn enc_market_row(m: LiteMarketV) -> Seq<CellV> {
    seq![
        enc_text(m.id),
        enc_text(m.creator_id),
        enc_text(m.creator_username),
        enc_text(m.creator_name),
        enc_opt_text(m.creator_avatar_url),
        enc_opt_i64(m.close_time),
        enc_u64(m.created_time),
        enc_text(m.question),
        enc_text(m.url),
        enc_text(m.outcome_type.tag()),
        enc_text(m.mechanism.tag()),
        enc_opt_i64(m.probability),
        market_pool_cell(m.pool),
        enc_opt_i64(m.p),
        enc_opt_i64(m.total_liquidity),
        enc_opt_i64(m.value),
        enc_opt_i64(m.min),
        enc_opt_i64(m.max),
        enc_opt_bool(m.is_log_scale),
        enc_i64(m.volume),
        enc_i64(m.volume_24_hours),
        enc_bool(m.is_resolved),
        enc_opt_u64(m.resolution_time),
        enc_opt_text(m.resolution),
        enc_opt_i64(m.resolution_probability),
        enc_opt_u64(m.last_updated_time),
        enc_opt_u64(m.last_bet_time),
    ]
}

/// Whether every cell of a market row is readable as its column's type.
pub open spec fn market_row_ok(r: Seq<CellV>) -> bool {
    &&& cellv_text(r[0]) is Some
    &&& cellv_text(r[1]) is Some
    &&& cellv_text(r[2]) is Some
    &&& cellv_text(r[3]) is Some
    &&& cellv_opt_text(r[4]) is Some
    &&& cellv_opt_i64(r[5]) is Some
    &&& cellv_u64(r[6]) is Some
    &&& cellv_text(r[7]) is Some
    &&& cellv_text(r[8]) is Some
    &&& cellv_text(r[9]) is Some
    &&& outcome_type_from_tag(cellv_text(r[9])->Some_0) is Some
    &&& cellv_text(r[10]) is Some
    &&& mechanism_from_tag(cellv_text(r[10])->Some_0) is Some
    &&& cellv_opt_i64(r[11]) is Some
    &&& dec_market_pool_cell(r[12]) is Some
    &&& cellv_opt_i64(r[13]) is Some
    &&& cellv_opt_i64(r[14]) is Some
    &&& cellv_opt_i64(r[15]) is Some
    &&& cellv_opt_i64(r[16]) is Some
    &&& cellv_opt_i64(r[17]) is Some
    &&& cellv_opt_bool(r[18]) is Some
    &&& cellv_i64(r[19]) is Some
    &&& cellv_i64(r[20]) is Some
    &&& cellv_bool(r[21]) is Some
    &&& cellv_opt_u64(r[22]) is Some
    &&& cellv_opt_text(r[23]) is Some
    &&& cellv_opt_i64(r[24]) is Some
    &&& cellv_opt_u64(r[25]) is Some
    &&& cellv_opt_u64(r[26]) is Some
}

/// What a stored market row decodes to: every cell read as its column's
/// type, or nothing if any cell is unreadable.
pub open spec fn dec_market_row(r: Seq<CellV>) -> Option<LiteMarketV> {
    if r.len() == 27 && market_row_ok(r) {
        Option::Some(
            LiteMarketV {
                id: cellv_text(r[0])->Some_0,
                creator_id: cellv_text(r[1])->Some_0,
                creator_username: cellv_text(r[2])->Some_0,
                creator_name: cellv_text(r[3])->Some_0,
                creator_avatar_url: cellv_opt_text(r[4])->Some_0,
                close_time: cellv_opt_i64(r[5])->Some_0,
                created_time: cellv_u64(r[6])->Some_0,
                question: cellv_text(r[7])->Some_0,
                url: cellv_text(r[8])->Some_0,
                outcome_type: outcome_type_from_tag(cellv_text(r[9])->Some_0)->Some_0,
                mechanism: mechanism_from_tag(cellv_text(r[10])->Some_0)->Some_0,
                probability: cellv_opt_i64(r[11])->Some_0,
                pool: dec_market_pool_cell(r[12])->Some_0,
                p: cellv_opt_i64(r[13])->Some_0,
                total_liquidity: cellv_opt_i64(r[14])->Some_0,
                value: cellv_opt_i64(r[15])->Some_0,
                min: cellv_opt_i64(r[16])->Some_0,
                max: cellv_opt_i64(r[17])->Some_0,
                is_log_scale: cellv_opt_bool(r[18])->Some_0,
                volume: cellv_i64(r[19])->Some_0,
                volume_24_hours: cellv_i64(r[20])->Some_0,
                is_resolved: cellv_bool(r[21])->Some_0,
                resolution_time: cellv_opt_u64(r[22])->Some_0,
                resolution: cellv_opt_text(r[23])->Some_0,
                resolution_probability: cellv_opt_i64(r[24])->Some_0,
                last_updated_time: cellv_opt_u64(r[25])->Some_0,
                last_bet_time: cellv_opt_u64(r[26])->Some_0,
            },
        )
    } else {
        Option::None
    }
}

/// A market row reads back as the market it was written from.
#[verifier::rlimit(100)]
pub proof fn lemma_market_row_round_trip(m: LiteMarketV)
    requires
        m.wf(),
    ensures
        dec_market_row(enc_market_row(m)) == Option::Some(m),
{
    let r = enc_market_row(m);
    lemma_outcome_type_tag_round_trip(m.outcome_type);
    lemma_mechanism_tag_round_trip(m.mechanism);
    lemma_pool_cell_round_trip(m.pool);
    assert(dec_market_row(r) is Some);
}

/// Whether the store can hold this market; what `wf` demands of the value,
/// decided at run time.
pub fn market_fits(m: &LiteMarket) -> (r: bool)
    ensures
        r == m.deep_view().wf(),
{
    let t_ok = m.created_time <= i64::MAX as u64 && (match m.resolution_time {
        Option::Some(v) => v <= i64::MAX as u64,
        Option::None => true,
    }) && (match m.last_updated_time {
        Option::Some(v) => v <= i64::MAX as u64,
        Option::None => true,
    }) && (match m.last_bet_time {
        Option::Some(v) => v <= i64::MAX as u64,
        Option::None => true,
    });
    match &m.pool {
        Option::Some(v) => {
            let n = v.len();
            assert(v.deep_view().len() == n);
        },
        Option::None => {},
    }
    t_ok
}

/// Encodes a market into its stored row.
pub fn market_to_row(m: &LiteMarket) -> (r: Vec<CellValue>)
    requires
        m.deep_view().wf(),
    ensures
        r.deep_view() == enc_market_row(m.deep_view()),
        r@.len() == 27,
{
    let mut out: Vec<CellValue> = Vec::new();
    out.push(cell_of_text(&m.id));
    out.push(cell_of_text(&m.creator_id));
    out.push(cell_of_text(&m.creator_username));
    out.push(cell_of_text(&m.creator_name));
    out.push(cell_of_opt_text(&m.creator_avatar_url));
    out.push(cell_of_opt_i64(&m.close_time));
    out.push(cell_of_u64(m.created_time));
    out.push(cell_of_text(&m.question));
    out.push(cell_of_text(&m.url));
    out.push(cell_of_text(&m.outcome_type.to_tag()));
    out.push(cell_of_text(&m.mechanism.to_tag()));
    out.push(cell_of_opt_i64(&m.probability));
    out.push(pool_to_cell(&m.pool));
    out.push(cell_of_opt_i64(&m.p));
    out.push(cell_of_opt_i64(&m.total_liquidity));
    out.push(cell_of_opt_i64(&m.value));
    out.push(cell_of_opt_i64(&m.min));
    out.push(cell_of_opt_i64(&m.max));
    out.push(cell_of_opt_bool(&m.is_log_scale));
    out.push(cell_of_i64(m.volume));
    out.push(cell_of_i64(m.volume_24_hours));
    out.push(cell_of_bool(m.is_resolved));
    out.push(cell_of_opt_u64(&m.resolution_time));
    out.push(cell_of_opt_text(&m.resolution));
    out.push(cell_of_opt_i64(&m.resolution_probability));
    out.push(cell_of_opt_u64(&m.last_updated_time));
    out.push(cell_of_opt_u64(&m.last_bet_time));
    assert(out.deep_view() =~= enc_market_row(m.deep_view()));
    out
}

/// Decodes a stored row into a market. Any cell whose stored form is not
/// readable as its column's type is a serialization failure naming that
/// column; nothing is silently defaulted.
#[verifier::rlimit(100)]
pub fn rusqlite_row_to_litemarket(row: &Vec<CellValue>) -> (r: Result<LiteMarket, RowParsingError>)
    ensures
        match r {
            Result::Ok(m) => dec_market_row(row.deep_view()) == Option::Some(m.deep_view()),
            Result::Err(e) => dec_market_row(row.deep_view()) is None && e.is_serialization(),
        },
{
    let e = "markets";
    if row.len() != 27 {
        return Result::Err(serr(e, "row"));
    }
    let id = match cell_text(&row[0]) {
        Option::Some(v) => v,
        Option::None => {
            return Result::Err(serr(e, "id"));
        },
    };
    let creator_id = match cell_text(&row[1]) {
        Option::Some(v) => v,
        Option::None => {
            return Result::Err(serr(e, "creator_id"));
        },
    };
    let creator_username = match cell_text(&row[2]) {
        Option::Some(v) => v,
        Option::None => {
            return Result::Err(serr(e, "creator_username"));
        },
    };
    let creator_name = match cell_text(&row[3]) {
        Option::Some(v) => v,
        Option::None => {
            return Result::Err(serr(e, "creator_name"));
        },
    };
    let creator_avatar_url = match cell_opt_text(&row[4]) {
        Option::Some(v) => v,
        Option::None => {
            return Result::Err(serr(e, "creator_avatar_url"));
        },
    };
    let close_time = match cell_opt_i64(&row[5]) {
        Option::Some(v) => v,
        Option::None => {
            return Result::Err(serr(e, "close_time"));
        },
    };
    let created_time = match cell_u64(&row[6]) {
        Option::Some(v) => v,
        Option::None => {
            return Result::Err(serr(e, "created_time"));
        },
    };
    let question = match cell_text(&row[7]) {
        Option::Some(v) => v,
        Option::None => {
            return Result::Err(serr(e, "question"));
        },
    };
    let url = match cell_text(&row[8]) {
        Option::Some(v) => v,
        Option::None => {
            return Result::Err(serr(e, "url"));
        },
    };
    let outcome_type = match cell_text(&row[9]) {
        Option::Some(tag) => match MarketOutcomeType::of_tag(&tag) {
            Option::Some(v) => v,
            Option::None => {
                return Result::Err(serr(e, "outcome_type"));
            },
        },
        Option::None => {
            return Result::Err(serr(e, "outcome_type"));
        },
    };
    let mechanism = match cell_text(&row[10]) {
        Option::Some(tag) => match MarketMechanism::of_tag(&tag) {
            Option::Some(v) => v,
            Option::None => {
                return Result::Err(serr(e, "mechanism"));
            },
        },
        Option::None => {
            return Result::Err(serr(e, "mechanism"));
        },
    };
    let probability = match cell_opt_i64(&row[11]) {
        Option::Some(v) => v,
        Option::None => {
            return Result::Err(serr(e, "probability"));
        },
    };
    let pool = match pool_of_cell(&row[12]) {
        Option::Some(v) => v,
        Option::None => {
            return Result::Err(serr(e, "pool"));
        },
    };
    let p = match cell_opt_i64(&row[13]) {
        Option::Some(v) => v,
        Option::None => {
            return Result::Err(serr(e, "p"));
        },
    };
    let total_liquidity = match cell_opt_i64(&row[14]) {
        Option::Some(v) => v,
        Option::None => {
            return Result::Err(serr(e, "total_liquidity"));
        },
    };
    let value = match cell_opt_i64(&row[15]) {
        Option::Some(v) => v,
        Option::None => {
            return Result::Err(serr(e, "value"));
        },
    };
    let min = match cell_opt_i64(&row[16]) {
        Option::Some(v) => v,
        Option::None => {
            return Result::Err(serr(e, "min"));
        },
    };
    let max = match cell_opt_i64(&row[17]) {
        Option::Some(v) => v,
        Option::None => {
            return Result::Err(serr(e, "max"));
        },
    };
    let is_log_scale = match cell_opt_bool(&row[18]) {
        Option::Some(v) => v,
        Option::None => {
            return Result::Err(serr(e, "is_log_scale"));
        },
    };
    let volume = match cell_i64(&row[19]) {
        Option::Some(v) => v,
        Option::None => {
            return Result::Err(serr(e, "volume"));
        },
    };
    let volume_24_hours = match cell_i64(&row[20]) {
        Option::Some(v) => v,
        Option::None => {
            return Result::Err(serr(e, "volume_24_hours"));
        },
    };
    let is_resolved = match cell_bool(&row[21]) {
        Option::Some(v) => v,
        Option::None => {
            return Result::Err(serr(e, "is_resolved"));
        },
    };
    let resolution_time = match cell_opt_u64(&row[22]) {
        Option::Some(v) => v,
        Option::None => {
            return Result::Err(serr(e, "resolution_time"));
        },
    };
    let resolution = match cell_opt_text(&row[23]) {
        Option::Some(v) => v,
        Option::None => {
            return Result::Err(serr(e, "resolution"));
        },
    };
    let resolution_probability = match cell_opt_i64(&row[24]) {
        Option::Some(v) => v,
        Option::None => {
            return Result::Err(serr(e, "resolution_probability"));
        },
    };
    let last_updated_time = match cell_opt_u64(&row[25]) {
        Option::Some(v) => v,
        Option::None => {
            return Result::Err(serr(e, "last_updated_time"));
        },
    };
    let last_bet_time = match cell_opt_u64(&row[26]) {
        Option::Some(v) => v,
        Option::None => {
            return Result::Err(serr(e, "last_bet_time"));
        },
    };
    Result::Ok(
        LiteMarket {
            id,
            creator_id,
            creator_username,
            creator_name,
            creator_avatar_url,
            close_time,
            created_time,
            question,
            url,
            outcome_type,
            mechanism,
            probability,
            pool,
            p,
            total_liquidity,
            value,
            min,
            max,
            is_log_scale,
            volume,
            volume_24_hours,
            is_resolved,
            resolution_time,
            resolution,
            resolution_probability,
            last_updated_time,
            last_bet_time,
        },
    )
}

// ---------------------------------------------------------------------------
// Schema, ingestion
// ---------------------------------------------------------------------------

/// Creates the `markets` table. Former floating-point columns hold the
/// opaque 64-bit patterns in integer columns.
pub fn create_market_table(conn: &rusqlite::Connection) -> (r: Result<(), RowParsingError>)
    ensures
        r matches Result::Err(e) ==> e.is_schema(),
{
    let ddl = "CREATE TABLE markets (
            id TEXT PRIMARY KEY,
            creator_id TEXT NOT NULL,
            creator_username TEXT NOT NULL,
            creator_name TEXT NOT NULL,
            creator_avatar_url TEXT,
            close_time BIGINT,
            created_time BIGINT NOT NULL,
            question TEXT NOT NULL,
            url TEXT NOT NULL,
            outcome_type TEXT NOT NULL,
            mechanism TEXT NOT NULL,
            probability BIGINT,
            pool TEXT,
            p BIGINT,
            total_liquidity BIGINT,
            value BIGINT,
            min BIGINT,
            max BIGINT,
            is_log_scale INTEGER,
            volume BIGINT NOT NULL,
            volume_24_hours BIGINT NOT NULL,
            is_resolved INTEGER NOT NULL,
            resolution_time BIGINT,
            resolution TEXT,
            resolution_probability BIGINT,
            last_updated_time BIGINT,
            last_bet_time BIGINT
        );";
    match crate::db_common::execute_batch(conn, ddl) {
        Result::Ok(_) => Result::Ok(()),
        Result::Err(e) => Result::Err(
            RowParsingError::Schema(crate::db_common::rusqlite_error_text(&e)),
        ),
    }
}

fn market_insert_sql() -> &'static str {
    "INSERT INTO markets (
        id, creator_id, creator_username, creator_name, creator_avatar_url, close_time,
        created_time, question, url, outcome_type, mechanism, probability,
        pool, p, total_liquidity, value, min, max, is_log_scale, volume,
        volume_24_hours, is_resolved, resolution_time, resolution,
        resolution_probability, last_updated_time, last_bet_time
    ) VALUES (
        ?1, ?2, ?3, ?4, ?5, ?6, ?7, ?8, ?9, ?10, ?11,
        ?12, ?13, ?14, ?15, ?16, ?17, ?18, ?19,
        ?20, ?21, ?22, ?23, ?24, ?25, ?26, ?27
    );"
}

/// Bulk-loads markets in chunks of one thousand rows, each chunk inside its
/// own committed transaction; each row is written through the verified
/// codec. A record the store cannot hold aborts the pass as a source
/// failure; a store failure rolls the open chunk back, leaving earlier
/// committed chunks in place.
pub fn bulk_insert_markets(conn: &rusqlite::Connection, markets: &Vec<LiteMarket>) -> (r: Result<
    usize,
    RowParsingError,
>)
    ensures
        r matches Result::Ok(n) ==> n == markets@.len() && forall|k: int|
            0 <= k < markets@.len() ==> (#[trigger] markets@[k].deep_view()).wf(),
        r matches Result::Err(e) ==> e.is_ingestion_source() || e.is_connectivity(),
        r matches Result::Err(e) && e.is_ingestion_source() ==> exists|k: int|
            0 <= k < markets@.len() && !(#[trigger] markets@[k].deep_view()).wf(),
{
    let mut i: usize = 0;
    while i < markets.len()
        invariant
            0 <= i <= markets@.len(),
            forall|k: int| 0 <= k < i ==> (#[trigger] markets@[k].deep_view()).wf(),
        decreases markets@.len() - i,
    {
        match crate::db_common::execute_batch(conn, "BEGIN;") {
            Result::Ok(_) => {},
            Result::Err(e) => {
                return Result::Err(
                    RowParsingError::Connectivity(crate::db_common::rusqlite_error_text(&e)),
                );
            },
        }
        let end: usize = if markets.len() - i > 1000 {
            i + 1000
        } else {
            markets.len()
        };
        while i < end
            invariant
                0 <= i <= end <= markets@.len(),
                forall|k: int| 0 <= k < i ==> (#[trigger] markets@[k].deep_view()).wf(),
            decreases end - i,
        {
            let m = &markets[i];
            if !market_fits(m) {
                let _ = crate::db_common::execute_batch(conn, "ROLLBACK;");
                assert(!markets@[i as int].deep_view().wf());
                return Result::Err(
                    RowParsingError::IngestionSource(
                        String::from_str("market record does not fit the store"),
                    ),
                );
            }
            let row = market_to_row(m);
            match crate::db_common::execute_cells(conn, market_insert_sql(), &row) {
                Result::Ok(_) => {},
                Result::Err(e) => {
                    let msg = crate::db_common::rusqlite_error_text(&e);
                    let _ = crate::db_common::execute_batch(conn, "ROLLBACK;");
                    return Result::Err(RowParsingError::Connectivity(msg));
                },
            }
            i = i + 1;
        }
        match crate::db_common::execute_batch(conn, "COMMIT;") {
            Result::Ok(_) => {},
            Result::Err(e) => {
                return Result::Err(
                    RowParsingError::Connectivity(crate::db_common::rusqlite_error_text(&e)),
                );
            },
        }
    }
    Result::Ok(markets.len())
}

/// Ensures the `markets` table and its creation-time index exist, and
/// populates the table from the given dump exactly when it is empty: a
/// non-empty table skips ingestion entirely. Returns how many rows were
/// inserted: all of them on a fresh store, none on a populated one. A
/// source failure comes only of a record the store cannot hold; the known
/// table name never raises a construction error.
pub fn init_market_table(conn: &rusqlite::Connection, markets: &Vec<crate::data_types::FullMarket>)
    -> (r: Result<usize, RowParsingError>)
    ensures
        r matches Result::Ok(n) ==> n == markets@.len() || n == 0,
        r matches Result::Err(e) ==> !e.is_query_construction(),
        r matches Result::Err(e) && e.is_ingestion_source() ==> exists|k: int|
            0 <= k < markets@.len() && !(#[trigger] markets@[k].lite_market.deep_view()).wf(),
{
    match crate::db_common::table_exists(conn, "markets") {
        Result::Ok(true) => {},
        Result::Ok(false) => {
            match create_market_table(conn) {
                Result::Ok(_) => {},
                Result::Err(e) => {
                    return Result::Err(e);
                },
            }
        },
        Result::Err(e) => {
            return Result::Err(e);
        },
    }
    let num_rows = match crate::db_common::count_rows(conn, "markets") {
        Result::Ok(n) => n,
        Result::Err(e) => {
            return Result::Err(e);
        },
    };
    let mut count: usize = 0;
    if num_rows == 0 {
        let mut lite: Vec<LiteMarket> = Vec::new();
        let mut k: usize = 0;
        while k < markets.len()
            invariant
                0 <= k <= markets@.len(),
                lite@.len() == k,
                forall|j: int|
                    0 <= j < k ==> (#[trigger] lite@[j]).deep_view()
                        == markets@[j].lite_market.deep_view(),
            decreases markets@.len() - k,
        {
            lite.push(markets[k].lite());
            k = k + 1;
        }
        count = match bulk_insert_markets(conn, &lite) {
            Result::Ok(n) => n,
            Result::Err(e) => {
                proof {
                    if e.is_ingestion_source() {
                        let w = choose|w: int|
                            0 <= w < lite@.len() && !(#[trigger] lite@[w].deep_view()).wf();
                        assert(!markets@[w].lite_market.deep_view().wf());
                    }
                }
                return Result::Err(e);
            },
        };
    }
    let idx = "CREATE INDEX IF NOT EXISTS markets_index ON markets (created_time);";
    match crate::db_common::execute_batch(conn, idx) {
        Result::Ok(_) => Result::Ok(count),
        Result::Err(e) => Result::Err(
            RowParsingError::Schema(crate::db_common::rusqlite_error_text(&e)),
        ),
    }
}

} // verus!

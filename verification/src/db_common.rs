//! The connection pool and the narrow trusted boundary to the embedded
//! SQLite store.
//!
//! Everything the store does is reached through the wrappers here: they
//! convert between this crate's `CellValue` rows and the driver's values and
//! make exactly one driver call each. What comes back from the store is never
//! assumed; the verified callers decode and check every returned row.

use vstd::prelude::*;

use crate::cells::CellValue;
use crate::errors::RowParsingError;

verus! {

// ---------------------------------------------------------------------------
// Declarations of the driver's types
// ---------------------------------------------------------------------------

#[verifier::external_type_specification]
#[verifier::external_body]
pub struct ExConnection(rusqlite::Connection);

#[verifier::external_type_specification]
#[verifier::external_body]
pub struct ExRusqliteError(rusqlite::Error);

#[verifier::external_type_specification]
#[verifier::external_body]
pub struct ExValue(rusqlite::types::Value);

#[verifier::external_type_specification]
#[verifier::external_body]
pub struct ExSqliteConnectionManager(r2d2_sqlite::SqliteConnectionManager);

#[verifier::external_type_specification]
#[verifier::external_body]
pub struct ExR2d2Error(r2d2::Error);

/// The pool of store connections. The driver's pool type is generic over a
/// connection-manager trait that cannot be declared here, so the pool is
/// held opaquely behind this struct and reached only through the trusted
/// wrappers below.
#[verifier::external_body]
pub struct DbPool {
    inner: r2d2::Pool<r2d2_sqlite::SqliteConnectionManager>,
}

/// One checked-out pooled connection, held opaquely for the same reason as
/// `DbPool`.
#[verifier::external_body]
pub struct DbConnection {
    inner: r2d2::PooledConnection<r2d2_sqlite::SqliteConnectionManager>,
}

// ---------------------------------------------------------------------------
// Trusted wrappers, one driver call each
// ---------------------------------------------------------------------------

/// Relies on r2d2_sqlite::SqliteConnectionManager::file: a manager that
/// opens connections to the single-file store at this path.
#[verifier::external_body]
fn manager_file(path: &str) -> r2d2_sqlite::SqliteConnectionManager {
    r2d2_sqlite::SqliteConnectionManager::file(path)
}

/// Relies on r2d2::Pool::new: a pool of connections made by the manager,
/// or an error when no first connection can be opened.
#[verifier::external_body]
fn pool_new(m: r2d2_sqlite::SqliteConnectionManager) -> Result<DbPool, r2d2::Error> {
    Ok(DbPool { inner: r2d2::Pool::new(m)? })
}

/// Relies on r2d2::Pool::get: a pooled connection, or an error after the
/// pool's checkout timeout.
#[verifier::external_body]
fn pool_checkout(pool: &DbPool) -> Result<DbConnection, r2d2::Error> {
    Ok(DbConnection { inner: pool.inner.get()? })
}

/// Relies on the Deref impl of r2d2::PooledConnection: the borrowed
/// connection this checkout wraps.
#[verifier::external_body]
pub fn pooled_conn(pc: &DbConnection) -> (r: &rusqlite::Connection) {
    &pc.inner
}

/// Relies on rusqlite::Connection::execute_batch: runs each statement of the
/// batch in order, stopping at the first error.
#[verifier::external_body]
pub fn execute_batch(conn: &rusqlite::Connection, sql: &str) -> Result<(), rusqlite::Error> {
    conn.execute_batch(sql)
}

/// Relies on rusqlite::types::Value: builds the driver's value carrying the
/// same integer or the same text; an empty cell is the store's NULL.
#[verifier::external_body]
fn cell_to_value(c: &CellValue) -> rusqlite::types::Value {
    match c {
        CellValue::Null => rusqlite::types::Value::Null,
        CellValue::Int(i) => rusqlite::types::Value::Integer(*i),
        CellValue::Text(s) => rusqlite::types::Value::Text(s.clone()),
        CellValue::Other => rusqlite::types::Value::Null,
    }
}

/// Relies on rusqlite::types::Value: reads the driver's value back as the
/// cell carrying the same integer or the same text; value types this layer
/// never writes are kept, marked unreadable, so that decoding rejects them.
#[verifier::external_body]
fn value_to_cell(v: rusqlite::types::Value) -> CellValue {
    match v {
        rusqlite::types::Value::Null => CellValue::Null,
        rusqlite::types::Value::Integer(i) => CellValue::Int(i),
        rusqlite::types::Value::Text(s) => CellValue::Text(s),
        rusqlite::types::Value::Real(_) => CellValue::Other,
        rusqlite::types::Value::Blob(_) => CellValue::Other,
    }
}

/// Relies on rusqlite::Connection::execute: runs one parameterized
/// statement, with the cells bound in order, and reports how many rows it
/// changed.
#[verifier::external_body]
pub fn execute_cells(conn: &rusqlite::Connection, sql: &str, params: &Vec<CellValue>) -> Result<
    usize,
    rusqlite::Error,
> {
    conn.execute(sql, rusqlite::params_from_iter(params.iter().map(cell_to_value)))
}

/// Relies on rusqlite's prepare and query_map: runs one parameterized
/// query, with the cells bound in order, and hands every returned row back
/// cell by cell. Nothing is assumed about the rows; the caller decodes them.
#[verifier::external_body]
pub fn query_cells(conn: &rusqlite::Connection, sql: &str, params: &Vec<CellValue>) -> Result<
    Vec<Vec<CellValue>>,
    rusqlite::Error,
> {
    let mut stmt = conn.prepare(sql)?;
    let rows = stmt.query_map(
        rusqlite::params_from_iter(params.iter().map(cell_to_value)),
        |row| {
            let mut cells = Vec::new();
            for i in 0..row.as_ref().column_count() {
                cells.push(value_to_cell(row.get::<usize, rusqlite::types::Value>(i)?));
            }
            Ok(cells)
        },
    )?;
    rows.collect()
}

/// Relies on the Display impl of rusqlite::Error: its message.
#[verifier::external_body]
pub fn rusqlite_error_text(e: &rusqlite::Error) -> String {
    e.to_string()
}

/// Relies on the Display impl of r2d2::Error: its message.
#[verifier::external_body]
fn r2d2_error_text(e: &r2d2::Error) -> String {
    e.to_string()
}

// ---------------------------------------------------------------------------
// The pool, verified around the wrappers
// ---------------------------------------------------------------------------

/// The per-checkout tuning applied to every connection: write-ahead
/// journaling, relaxed commit durability, in-memory temporary objects and a
/// large memory-map ceiling. Each pragma is idempotent.
fn pragma_sql() -> &'static str {
    "pragma journal_mode = WAL;\npragma synchronous = normal;\npragma temp_store = memory;\npragma mmap_size = 30000000000;"
}

/// Opens the connection pool over the single-file store at `path`.
pub fn get_db_connection_pool(path: &str) -> (r: Result<DbPool, RowParsingError>)
    ensures
        r matches Result::Err(e) ==> e.is_connectivity(),
{
    let manager = manager_file(path);
    match pool_new(manager) {
        Result::Ok(pool) => Result::Ok(pool),
        Result::Err(e) => Result::Err(RowParsingError::Connectivity(r2d2_error_text(&e))),
    }
}

/// Checks a connection out of the pool and applies the performance pragmas.
/// A pragma failure is best-effort tuning and does not fail the checkout.
pub fn get_db_connection(pool: &DbPool) -> (r: Result<DbConnection, RowParsingError>)
    ensures
        r matches Result::Err(e) ==> e.is_connectivity(),
{
    match pool_checkout(pool) {
        Result::Ok(pc) => {
            let res = execute_batch(pooled_conn(&pc), pragma_sql());
            match res {
                Result::Ok(_) => {},
                Result::Err(_) => {},
            }
            Result::Ok(pc)
        },
        Result::Err(e) => Result::Err(RowParsingError::Connectivity(r2d2_error_text(&e))),
    }
}

/// Startup: opens the pool over the store at `path`, ensures each entity
/// table and the market creation-time index exist, and populates each table
/// from its source exactly when it is empty. Safe to run on every process
/// start regardless of prior state; startup never raises a client-input
/// error.
pub fn setup_db(
    path: &str,
    markets: &Vec<crate::data_types::FullMarket>,
    bets: &Vec<crate::data_types::Bet>,
    default_user: &crate::data_types::User,
) -> (r: Result<DbPool, RowParsingError>)
    ensures
        r matches Result::Err(e) ==> !e.is_query_construction(),
{
    let pool = match get_db_connection_pool(path) {
        Result::Ok(p) => p,
        Result::Err(e) => {
            return Result::Err(e);
        },
    };
    let pc = match get_db_connection(&pool) {
        Result::Ok(c) => c,
        Result::Err(e) => {
            return Result::Err(e);
        },
    };
    let conn = pooled_conn(&pc);
    match crate::market_table::init_market_table(conn, markets) {
        Result::Ok(_) => {},
        Result::Err(e) => {
            return Result::Err(e);
        },
    }
    match crate::bet_table::init_bet_table(conn, bets) {
        Result::Ok(_) => {},
        Result::Err(e) => {
            return Result::Err(e);
        },
    }
    match crate::user_table::init_user_table(conn, default_user) {
        Result::Ok(_) => {},
        Result::Err(e) => {
            return Result::Err(e);
        },
    }
    Result::Ok(pool)
}

// ---------------------------------------------------------------------------
// The system catalog, verified around the wrappers
// ---------------------------------------------------------------------------

/// What a returned catalog row set means: the table exists exactly when at
/// least one row came back.
pub fn catalog_nonempty(rows: &Vec<Vec<CellValue>>) -> (b: bool)
    ensures
        b == (rows@.len() > 0),
{
    rows.len() > 0
}

/// Whether a table of this name exists, by the store's system catalog: the
/// answer is exactly whether the catalog query returned any row.
pub fn table_exists(conn: &rusqlite::Connection, table_name: &str) -> (r: Result<
    bool,
    RowParsingError,
>)
    ensures
        r matches Result::Err(e) ==> e.is_schema(),
{
    let mut params: Vec<CellValue> = Vec::new();
    params.push(CellValue::Text(String::from_str(table_name)));
    match query_cells(conn, "SELECT name FROM sqlite_master WHERE type='table' AND name=?1", &params) {
        Result::Ok(rows) => Result::Ok(catalog_nonempty(&rows)),
        Result::Err(e) => Result::Err(RowParsingError::Schema(rusqlite_error_text(&e))),
    }
}

/// A table name this layer will count: one of the three entity tables.
pub open spec fn known_count_table(sv: Seq<char>) -> bool {
    sv == "markets"@ || sv == "bets"@ || sv == "users"@
}

/// What a returned count row set decodes to: exactly one row of one
/// non-negative integer cell that fits the machine, or nothing.
pub open spec fn dec_count_rows(rs: Seq<Seq<crate::cells::CellV>>) -> Option<usize> {
    if rs.len() == 1 && rs[0].len() == 1 {
        match crate::cells::cellv_u64(rs[0][0]) {
            Option::Some(n) => if n <= usize::MAX as u64 {
                Option::Some(n as usize)
            } else {
                Option::None
            },
            Option::None => Option::None,
        }
    } else {
        Option::None
    }
}

/// Reads a returned count row set: the single cell of the single row, as a
/// machine count; anything else is a serialization failure, never a silent
/// default.
pub fn count_from_rows(rows: &Vec<Vec<CellValue>>) -> (r: Result<usize, RowParsingError>)
    ensures
        match r {
            Result::Ok(n) => dec_count_rows(rows.deep_view()) == Option::Some(n),
            Result::Err(e) => dec_count_rows(rows.deep_view()) is None && e.is_serialization(),
        },
{
    if rows.len() != 1 {
        return Result::Err(crate::market_table::serr("catalog", "count"));
    }
    let row = &rows[0];
    if row.len() != 1 {
        return Result::Err(crate::market_table::serr("catalog", "count"));
    }
    match crate::cells::cell_u64(&row[0]) {
        Option::Some(n) => {
            if n <= usize::MAX as u64 {
                Result::Ok(n as usize)
            } else {
                Result::Err(crate::market_table::serr("catalog", "count"))
            }
        },
        Option::None => Result::Err(crate::market_table::serr("catalog", "count")),
    }
}

/// How many rows one of the three entity tables holds. Only the three known
/// tables can be counted — a construction error names any other, if and only
/// if, and the name is never spliced into the statement text; the count read
/// back goes through `count_from_rows`.
pub fn count_rows(conn: &rusqlite::Connection, table_name: &str) -> (r: Result<
    usize,
    RowParsingError,
>)
    ensures
        (r matches Result::Err(e) && e.is_query_construction()) <==> !known_count_table(
            table_name@,
        ),
        r matches Result::Err(e) ==> e.is_connectivity() || e.is_serialization()
            || e.is_query_construction(),
{
    let name = String::from_str(table_name);
    let sql: &str = if crate::text_codec::string_eq_lit(&name, "markets") {
        "SELECT COUNT(*) FROM markets"
    } else if crate::text_codec::string_eq_lit(&name, "bets") {
        "SELECT COUNT(*) FROM bets"
    } else if crate::text_codec::string_eq_lit(&name, "users") {
        "SELECT COUNT(*) FROM users"
    } else {
        return Result::Err(
            RowParsingError::QueryConstruction(String::from_str("unknown table")),
        );
    };
    let params: Vec<CellValue> = Vec::new();
    match query_cells(conn, sql, &params) {
        Result::Ok(rows) => count_from_rows(&rows),
        Result::Err(e) => Result::Err(RowParsingError::Connectivity(rusqlite_error_text(&e))),
    }
}

} // verus!

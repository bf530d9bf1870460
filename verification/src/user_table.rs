//! The `users` table: its row codec.
//!
//! A user row has 21 columns. Balance and deposits are stored in integer
//! columns as the opaque 64-bit patterns the domain type carries; the
//! cached-profit map is folded into a single text column. The map column is
//! always present, so it needs no `null` token.

use vstd::prelude::*;

use crate::cells::{cell_i64, cell_of_i64, cell_of_opt_bool, cell_of_opt_text, cell_of_opt_u64,
    cell_of_text, cell_of_u64, cell_opt_bool, cell_opt_text, cell_opt_u64, cell_text, cell_u64,
    cellv_i64, cellv_opt_bool, cellv_opt_text, cellv_opt_u64, cellv_text, cellv_u64, enc_i64,
    enc_opt_bool, enc_opt_text, enc_opt_u64, enc_text, enc_u64, CellV, CellValue};
use crate::data_types::{ProfitEntry, ProfitEntryV, User, UserV};
use crate::errors::RowParsingError;
use crate::market_table::serr;
use crate::obj_codec::{dec_profit, lemma_dec_profit, parse_profit, push_profit, spec_profit};
use crate::text_codec::{chars_string, str_chars};

verus! {

// ---------------------------------------------------------------------------
// The cached-profit column
// ---------------------------------------------------------------------------

/// The stored form of the cached-profit column.
pub open spec fn user_profit_cell(es: Seq<ProfitEntryV>) -> CellV {
    CellV::Text(spec_profit(es))
}

/// What a stored cached-profit column decodes to. The whole text must be
/// consumed.
pub open spec fn dec_user_profit_cell(c: CellV) -> Option<Seq<ProfitEntryV>> {
    match c {
        CellV::Text(s) => match dec_profit(s, 0) {
            Option::Some(p) => if p.1 == s.len() {
                Option::Some(p.0)
            } else {
                Option::None
            },
            Option::None => Option::None,
        },
        _ => Option::None,
    }
}

/// A stored cached-profit column reads back as the map it was written from.
pub proof fn lemma_profit_cell_round_trip(es: Seq<ProfitEntryV>)
    requires
        es.len() <= u64::MAX as nat,
    ensures
        dec_user_profit_cell(user_profit_cell(es)) == Option::Some(es),
{
    let s = spec_profit(es);
    assert(Seq::<char>::empty() + s + Seq::<char>::empty() =~= s);
    lemma_dec_profit(Seq::<char>::empty(), es, Seq::<char>::empty());
}

fn profit_to_cell(es: &Vec<ProfitEntry>) -> (r: CellValue)
    ensures
        r@ == user_profit_cell(es.deep_view()),
{
    let mut buf: Vec<char> = Vec::new();
    push_profit(&mut buf, es);
    CellValue::Text(chars_string(&buf))
}

fn profit_of_cell(c: &CellValue) -> (r: Option<Vec<ProfitEntry>>)
    ensures
        match r {
            Option::Some(v) => dec_user_profit_cell(c@) == Option::Some(v.deep_view()),
            Option::None => dec_user_profit_cell(c@) is None,
        },
{
    match c {
        CellValue::Text(s) => {
            let chars = str_chars(s.as_str());
            match parse_profit(&chars, 0) {
                Option::Some((v, j)) => {
                    if j == chars.len() {
                        Option::Some(v)
                    } else {
                        Option::None
                    }
                },
                Option::None => Option::None,
            }
        },
        _ => Option::None,
    }
}

// ---------------------------------------------------------------------------
// The row codec
// ---------------------------------------------------------------------------

/// The stored row of a user, cell by cell, in column order.
pub open spec fn enc_user_row(u: UserV) -> Seq<CellV> {
    seq![
        enc_text(u.id),
        enc_u64(u.created_time),
        enc_text(u.name),
        enc_text(u.username),
        enc_opt_text(u.url),
        enc_text(u.avatar_url),
        enc_opt_text(u.bio),
        enc_opt_text(u.banner_url),
        enc_opt_text(u.website),
        enc_opt_text(u.twitter_handle),
        enc_opt_text(u.discord_handle),
        enc_opt_bool(u.is_bot),
        enc_opt_bool(u.is_admin),
        enc_opt_bool(u.is_trustworthy),
        enc_opt_bool(u.is_banned_from_posting),
        enc_opt_bool(u.user_deleted),
        enc_i64(u.balance),
        enc_i64(u.total_deposits),
        enc_opt_u64(u.last_bet_time),
        enc_opt_u64(u.current_betting_streak),
        user_profit_cell(u.profit_cached),
    ]
}

/// Whether every cell of a user row is readable as its column's type.
pub open spec fn user_row_ok(r: Seq<CellV>) -> bool {
    &&& cellv_text(r[0]) is Some
    &&& cellv_u64(r[1]) is Some
    &&& cellv_text(r[2]) is Some
    &&& cellv_text(r[3]) is Some
    &&& cellv_opt_text(r[4]) is Some
    &&& cellv_text(r[5]) is Some
    &&& cellv_opt_text(r[6]) is Some
    &&& cellv_opt_text(r[7]) is Some
    &&& cellv_opt_text(r[8]) is Some
    &&& cellv_opt_text(r[9]) is Some
    &&& cellv_opt_text(r[10]) is Some
    &&& cellv_opt_bool(r[11]) is Some
    &&& cellv_opt_bool(r[12]) is Some
    &&& cellv_opt_bool(r[13]) is Some
    &&& cellv_opt_bool(r[14]) is Some
    &&& cellv_opt_bool(r[15]) is Some
    &&& cellv_i64(r[16]) is Some
    &&& cellv_i64(r[17]) is Some
    &&& cellv_opt_u64(r[18]) is Some
    &&& cellv_opt_u64(r[19]) is Some
    &&& dec_user_profit_cell(r[20]) is Some
}

/// What a stored user row decodes to: every cell read as its column's type,
/// or nothing if any cell is unreadable.
pub open spec fn dec_user_row(r: Seq<CellV>) -> Option<UserV> {
    if r.len() == 21 && user_row_ok(r) {
        Option::Some(
            UserV {
                id: cellv_text(r[0])->Some_0,
                created_time: cellv_u64(r[1])->Some_0,
                name: cellv_text(r[2])->Some_0,
                username: cellv_text(r[3])->Some_0,
                url: cellv_opt_text(r[4])->Some_0,
                avatar_url: cellv_text(r[5])->Some_0,
                bio: cellv_opt_text(r[6])->Some_0,
                banner_url: cellv_opt_text(r[7])->Some_0,
                website: cellv_opt_text(r[8])->Some_0,
                twitter_handle: cellv_opt_text(r[9])->Some_0,
                discord_handle: cellv_opt_text(r[10])->Some_0,
                is_bot: cellv_opt_bool(r[11])->Some_0,
                is_admin: cellv_opt_bool(r[12])->Some_0,
                is_trustworthy: cellv_opt_bool(r[13])->Some_0,
                is_banned_from_posting: cellv_opt_bool(r[14])->Some_0,
                user_deleted: cellv_opt_bool(r[15])->Some_0,
                balance: cellv_i64(r[16])->Some_0,
                total_deposits: cellv_i64(r[17])->Some_0,
                last_bet_time: cellv_opt_u64(r[18])->Some_0,
                current_betting_streak: cellv_opt_u64(r[19])->Some_0,
                profit_cached: dec_user_profit_cell(r[20])->Some_0,
            },
        )
    } else {
        Option::None
    }
}

/// A user row reads back as the user it was written from.
#[verifier::rlimit(100)]
pub proof fn lemma_user_row_round_trip(u: UserV)
    requires
        u.wf(),
    ensures
        dec_user_row(enc_user_row(u)) == Option::Some(u),
{
    let r = enc_user_row(u);
    lemma_profit_cell_round_trip(u.profit_cached);
    assert(dec_user_row(r) is Some);
}

/// Whether the store can hold this user; what `wf` demands of the value,
/// decided at run time.
pub fn user_fits(u: &User) -> (r: bool)
    ensures
        r == u.deep_view().wf(),
{
    let n = u.profit_cached.len();
    assert(u.deep_view().profit_cached.len() == n);
    u.created_time <= i64::MAX as u64 && (match u.last_bet_time {
        Option::Some(v) => v <= i64::MAX as u64,
        Option::None => true,
    }) && (match u.current_betting_streak {
        Option::Some(v) => v <= i64::MAX as u64,
        Option::None => true,
    })
}

/// Encodes a user into its stored row.
pub fn user_to_row(u: &User) -> (r: Vec<CellValue>)
    requires
        u.deep_view().wf(),
    ensures
        r.deep_view() == enc_user_row(u.deep_view()),
        r@.len() == 21,
{
    let mut out: Vec<CellValue> = Vec::new();
    out.push(cell_of_text(&u.id));
    out.push(cell_of_u64(u.created_time));
    out.push(cell_of_text(&u.name));
    out.push(cell_of_text(&u.username));
    out.push(cell_of_opt_text(&u.url));
    out.push(cell_of_text(&u.avatar_url));
    out.push(cell_of_opt_text(&u.bio));
    out.push(cell_of_opt_text(&u.banner_url));
    out.push(cell_of_opt_text(&u.website));
    out.push(cell_of_opt_text(&u.twitter_handle));
    out.push(cell_of_opt_text(&u.discord_handle));
    out.push(cell_of_opt_bool(&u.is_bot));
    out.push(cell_of_opt_bool(&u.is_admin));
    out.push(cell_of_opt_bool(&u.is_trustworthy));
    out.push(cell_of_opt_bool(&u.is_banned_from_posting));
    out.push(cell_of_opt_bool(&u.user_deleted));
    out.push(cell_of_i64(u.balance));
    out.push(cell_of_i64(u.total_deposits));
    out.push(cell_of_opt_u64(&u.last_bet_time));
    out.push(cell_of_opt_u64(&u.current_betting_streak));
    out.push(profit_to_cell(&u.profit_cached));
    assert(out.deep_view() =~= enc_user_row(u.deep_view()));
    out
}

/// Decodes a stored row into a user. Any cell whose stored form is not
/// readable as its column's type is a serialization failure naming that
/// column; nothing is silently defaulted.
#[verifier::rlimit(100)]
pub fn rusqlite_row_to_user(row: &Vec<CellValue>) -> (r: Result<User, RowParsingError>)
    ensures
        match r {
            Result::Ok(u) => dec_user_row(row.deep_view()) == Option::Some(u.deep_view()),
            Result::Err(e) => dec_user_row(row.deep_view()) is None && e.is_serialization(),
        },
{
    let e = "users";
    if row.len() != 21 {
        return Result::Err(serr(e, "row"));
    }
    let id = match cell_text(&row[0]) {
        Option::Some(v) => v,
        Option::None => {
            return Result::Err(serr(e, "id"));
        },
    };
    let created_time = match cell_u64(&row[1]) {
        Option::Some(v) => v,
        Option::None => {
            return Result::Err(serr(e, "created_time"));
        },
    };
    let name = match cell_text(&row[2]) {
        Option::Some(v) => v,
        Option::None => {
            return Result::Err(serr(e, "name"));
        },
    };
    let username = match cell_text(&row[3]) {
        Option::Some(v) => v,
        Option::None => {
            return Result::Err(serr(e, "username"));
        },
    };
    let url = match cell_opt_text(&row[4]) {
        Option::Some(v) => v,
        Option::None => {
            return Result::Err(serr(e, "url"));
        },
    };
    let avatar_url = match cell_text(&row[5]) {
        Option::Some(v) => v,
        Option::None => {
            return Result::Err(serr(e, "avatar_url"));
        },
    };
    let bio = match cell_opt_text(&row[6]) {
        Option::Some(v) => v,
        Option::None => {
            return Result::Err(serr(e, "bio"));
        },
    };
    let banner_url = match cell_opt_text(&row[7]) {
        Option::Some(v) => v,
        Option::None => {
            return Result::Err(serr(e, "banner_url"));
        },
    };
    let website = match cell_opt_text(&row[8]) {
        Option::Some(v) => v,
        Option::None => {
            return Result::Err(serr(e, "website"));
        },
    };
    let twitter_handle = match cell_opt_text(&row[9]) {
        Option::Some(v) => v,
        Option::None => {
            return Result::Err(serr(e, "twitter_handle"));
        },
    };
    let discord_handle = match cell_opt_text(&row[10]) {
        Option::Some(v) => v,
        Option::None => {
            return Result::Err(serr(e, "discord_handle"));
        },
    };
    let is_bot = match cell_opt_bool(&row[11]) {
        Option::Some(v) => v,
        Option::None => {
            return Result::Err(serr(e, "is_bot"));
        },
    };
    let is_admin = match cell_opt_bool(&row[12]) {
        Option::Some(v) => v,
        Option::None => {
            return Result::Err(serr(e, "is_admin"));
        },
    };
    let is_trustworthy = match cell_opt_bool(&row[13]) {
        Option::Some(v) => v,
        Option::None => {
            return Result::Err(serr(e, "is_trustworthy"));
        },
    };
    let is_banned_from_posting = match cell_opt_bool(&row[14]) {
        Option::Some(v) => v,
        Option::None => {
            return Result::Err(serr(e, "is_banned_from_posting"));
        },
    };
    let user_deleted = match cell_opt_bool(&row[15]) {
        Option::Some(v) => v,
        Option::None => {
            return Result::Err(serr(e, "user_deleted"));
        },
    };
    let balance = match cell_i64(&row[16]) {
        Option::Some(v) => v,
        Option::None => {
            return Result::Err(serr(e, "balance"));
        },
    };
    let total_deposits = match cell_i64(&row[17]) {
        Option::Some(v) => v,
        Option::None => {
            return Result::Err(serr(e, "total_deposits"));
        },
    };
    let last_bet_time = match cell_opt_u64(&row[18]) {
        Option::Some(v) => v,
        Option::None => {
            return Result::Err(serr(e, "last_bet_time"));
        },
    };
    let current_betting_streak = match cell_opt_u64(&row[19]) {
        Option::Some(v) => v,
        Option::None => {
            return Result::Err(serr(e, "current_betting_streak"));
        },
    };
    let profit_cached = match profit_of_cell(&row[20]) {
        Option::Some(v) => v,
        Option::None => {
            return Result::Err(serr(e, "profit_cached"));
        },
    };
    Result::Ok(
        User {
            id,
            created_time,
            name,
            username,
            url,
            avatar_url,
            bio,
            banner_url,
            website,
            twitter_handle,
            discord_handle,
            is_bot,
            is_admin,
            is_trustworthy,
            is_banned_from_posting,
            user_deleted,
            balance,
            total_deposits,
            last_bet_time,
            current_betting_streak,
            profit_cached,
        },
    )
}

// ---------------------------------------------------------------------------
// Schema, ingestion
// ---------------------------------------------------------------------------

/// Creates the `users` table. Former floating-point columns hold the opaque
/// 64-bit patterns in integer columns.
pub fn create_users_table(conn: &rusqlite::Connection) -> (r: Result<(), RowParsingError>)
    ensures
        r matches Result::Err(e) ==> e.is_schema(),
{
    let ddl = "CREATE TABLE users (
            id TEXT PRIMARY KEY,
            created_time BIGINT,
            name TEXT NOT NULL,
            username TEXT NOT NULL,
            url TEXT,
            avatar_url TEXT NOT NULL,
            bio TEXT,
            banner_url TEXT,
            website TEXT,
            twitter_handle TEXT,
            discord_handle TEXT,
            is_bot INTEGER,
            is_admin INTEGER,
            is_trustworthy INTEGER,
            is_banned_from_posting INTEGER,
            user_deleted INTEGER,
            balance BIGINT NOT NULL,
            total_deposits BIGINT NOT NULL,
            last_bet_time BIGINT,
            current_betting_streak BIGINT,
            profit_cached TEXT
        );";
    match crate::db_common::execute_batch(conn, ddl) {
        Result::Ok(_) => Result::Ok(()),
        Result::Err(e) => Result::Err(
            RowParsingError::Schema(crate::db_common::rusqlite_error_text(&e)),
        ),
    }
}

fn user_insert_sql() -> &'static str {
    "INSERT INTO users (
            id, created_time, name, username, url, avatar_url, bio, banner_url, website,
            twitter_handle, discord_handle, is_bot, is_admin, is_trustworthy,
            is_banned_from_posting, user_deleted, balance, total_deposits,
            last_bet_time, current_betting_streak, profit_cached
        ) VALUES (
            ?1, ?2, ?3, ?4, ?5, ?6, ?7, ?8, ?9,
            ?10, ?11, ?12, ?13, ?14, ?15, ?16, ?17, ?18,
            ?19, ?20, ?21
        );"
}

/// Inserts one user through the verified codec. A record the store cannot
/// hold is a source failure, if and only if it cannot be held or the store
/// refused the write.
pub fn insert_user(conn: &rusqlite::Connection, user: &User) -> (r: Result<
    usize,
    RowParsingError,
>)
    ensures
        r matches Result::Ok(n) ==> n == 1 && user.deep_view().wf(),
        r matches Result::Err(e) ==> e.is_ingestion_source() || e.is_connectivity(),
        r matches Result::Err(e) && e.is_ingestion_source() ==> !user.deep_view().wf(),
        !user.deep_view().wf() ==> (r matches Result::Err(e) && e.is_ingestion_source()),
{
    if !user_fits(user) {
        return Result::Err(
            RowParsingError::IngestionSource(
                String::from_str("user record does not fit the store"),
            ),
        );
    }
    let row = user_to_row(user);
    match crate::db_common::execute_cells(conn, user_insert_sql(), &row) {
        Result::Ok(_) => Result::Ok(1),
        Result::Err(e) => Result::Err(
            RowParsingError::Connectivity(crate::db_common::rusqlite_error_text(&e)),
        ),
    }
}

/// Ensures the `users` table exists, and inserts the configured backtesting
/// user exactly when the table is empty: a non-empty table skips insertion
/// entirely. Returns how many rows the table is known to hold afterwards,
/// which is always at least the one configured user.
pub fn init_user_table(conn: &rusqlite::Connection, default_user: &User) -> (r: Result<
    usize,
    RowParsingError,
>)
    ensures
        r matches Result::Ok(n) ==> n >= 1,
        r matches Result::Err(e) ==> !e.is_query_construction(),
        r matches Result::Err(e) && e.is_ingestion_source() ==> !default_user.deep_view().wf(),
{
    match crate::db_common::table_exists(conn, "users") {
        Result::Ok(true) => {},
        Result::Ok(false) => {
            match create_users_table(conn) {
                Result::Ok(_) => {},
                Result::Err(e) => {
                    return Result::Err(e);
                },
            }
        },
        Result::Err(e) => {
            return Result::Err(e);
        },
    }
    let num_rows = match crate::db_common::count_rows(conn, "users") {
        Result::Ok(n) => n,
        Result::Err(e) => {
            return Result::Err(e);
        },
    };
    if num_rows == 0 {
        match insert_user(conn, default_user) {
            Result::Ok(n) => Result::Ok(n),
            Result::Err(e) => Result::Err(e),
        }
    } else {
        Result::Ok(num_rows)
    }
}

} // verus!

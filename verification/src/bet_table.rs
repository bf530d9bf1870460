//! The `bets` table: its row codec.
//!
//! A bet row has 23 columns. Amounts, shares and probabilities are stored in
//! integer columns as the opaque 64-bit patterns the domain type carries; the
//! fee breakdown and the limit-order properties are each folded into a single
//! text column, with the `null` token standing for an absent field. The
//! superseded shares-by-outcome wire field is never stored and always reads
//! back as absent.

use vstd::prelude::*;

use crate::cells::{cell_bool, cell_i64, cell_of_bool, cell_of_i64, cell_of_opt_bool,
    cell_of_opt_i64, cell_of_opt_text, cell_of_text, cell_of_u64, cell_opt_bool, cell_opt_i64,
    cell_opt_text, cell_text, cell_u64, cellv_bool, cellv_i64, cellv_opt_bool, cellv_opt_i64,
    cellv_opt_text, cellv_text, cellv_u64, enc_bool, enc_i64, enc_opt_bool, enc_opt_i64,
    enc_opt_text, enc_text, enc_u64, CellV, CellValue};
use crate::data_types::{lemma_visibility_tag_round_trip, view_opt_str, visibility_from_tag, Bet,
    BetV, Fees, FeesV, LimitProps, LimitPropsV, Visibility};
use crate::errors::RowParsingError;
use crate::market_table::serr;
use crate::obj_codec::{dec_fees, dec_limit_props, lemma_dec_fees, lemma_dec_limit_props,
    parse_fees, parse_limit_props, push_fees, push_limit_props, spec_fees, spec_limit_props,
    wf_limit_props};
use crate::text_codec::{chars_string, spec_int, str_chars, string_eq_lit};

verus! {

// ---------------------------------------------------------------------------
// The fees column
// ---------------------------------------------------------------------------

/// The stored form of the fees column: the `null` token when absent, the
/// encoded breakdown otherwise.
pub open spec fn bet_fees_cell(o: Option<FeesV>) -> CellV {
    match o {
        Option::None => CellV::Text("null"@),
        Option::Some(f) => CellV::Text(spec_fees(f)),
    }
}

/// What a stored fees column decodes to. The whole text must be consumed.
pub open spec fn dec_bet_fees_cell(c: CellV) -> Option<Option<FeesV>> {
    match c {
        CellV::Text(s) => if s == "null"@ {
            Option::Some(Option::None)
        } else {
            match dec_fees(s, 0) {
                Option::Some(p) => if p.1 == s.len() {
                    Option::Some(Option::Some(p.0))
                } else {
                    Option::None
                },
                Option::None => Option::None,
            }
        },
        _ => Option::None,
    }
}

/// The first character of an encoded signed number is a digit or the minus
/// sign, never a letter.
proof fn lemma_spec_int_head(v: int)
    ensures
        spec_int(v).len() >= 1,
        crate::text_codec::is_digit(spec_int(v)[0]) || spec_int(v)[0] == '-',
{
    if v >= 0 {
        crate::text_codec::lemma_digits_shape(v as nat);
        assert(spec_int(v)[0] == crate::text_codec::spec_digits(v as nat)[0]);
    } else {
        crate::text_codec::lemma_digits_shape((-v) as nat);
    }
}

/// A stored fees column reads back as the breakdown it was written from.
pub proof fn lemma_fees_cell_round_trip(o: Option<FeesV>)
    ensures
        dec_bet_fees_cell(bet_fees_cell(o)) == Option::Some(o),
{
    broadcast use vstd::string::group_string_axioms;

    reveal_strlit("null");
    match o {
        Option::None => {
        },
        Option::Some(f) => {
            let s = spec_fees(f);
            lemma_spec_int_head(f.creator_fee as int);
            assert(s[0] == spec_int(f.creator_fee as int)[0]);
            assert(s != "null"@) by {
                assert("null"@[0] == 'n');
            }
            assert(Seq::<char>::empty() + s + Seq::<char>::empty() =~= s);
            lemma_dec_fees(Seq::<char>::empty(), f, Seq::<char>::empty());
        },
    }
}

fn fees_to_cell(o: &Option<Fees>) -> (r: CellValue)
    ensures
        r@ == bet_fees_cell(
            match o {
                Option::Some(f) => Option::Some(f.deep_view()),
                Option::None => Option::None,
            },
        ),
{
    match o {
        Option::None => CellValue::Text(String::from_str("null")),
        Option::Some(f) => {
            let mut buf: Vec<char> = Vec::new();
            push_fees(&mut buf, f);
            CellValue::Text(chars_string(&buf))
        },
    }
}

fn fees_of_cell(c: &CellValue) -> (r: Option<Option<Fees>>)
    ensures
        match r {
            Option::Some(o) => dec_bet_fees_cell(c@) == Option::Some(
                match o {
                    Option::Some(f) => Option::Some(f.deep_view()),
                    Option::None => Option::None,
                },
            ),
            Option::None => dec_bet_fees_cell(c@) is None,
        },
{
    match c {
        CellValue::Text(s) => {
            if string_eq_lit(s, "null") {
                Option::Some(Option::None)
            } else {
                let chars = str_chars(s.as_str());
                match parse_fees(&chars, 0) {
                    Option::Some((f, j)) => {
                        if j == chars.len() {
                            Option::Some(Option::Some(f))
                        } else {
                            Option::None
                        }
                    },
                    Option::None => Option::None,
                }
            }
        },
        _ => Option::None,
    }
}

// ---------------------------------------------------------------------------
// The limit-order column
// ---------------------------------------------------------------------------

/// The stored form of the limit-order column: the `null` token when absent,
/// the encoded properties otherwise.
pub open spec fn bet_limit_cell(o: Option<LimitPropsV>) -> CellV {
    match o {
        Option::None => CellV::Text("null"@),
        Option::Some(l) => CellV::Text(spec_limit_props(l)),
    }
}

/// What a stored limit-order column decodes to. The whole text must be
/// consumed.
pub open spec fn dec_bet_limit_cell(c: CellV) -> Option<Option<LimitPropsV>> {
    match c {
        CellV::Text(s) => if s == "null"@ {
            Option::Some(Option::None)
        } else {
            match dec_limit_props(s, 0) {
                Option::Some(p) => if p.1 == s.len() {
                    Option::Some(Option::Some(p.0))
                } else {
                    Option::None
                },
                Option::None => Option::None,
            }
        },
        _ => Option::None,
    }
}

/// A stored limit-order column reads back as the properties it was written
/// from.
pub proof fn lemma_limit_cell_round_trip(o: Option<LimitPropsV>)
    requires
        match o {
            Option::Some(l) => wf_limit_props(l),
            Option::None => true,
        },
    ensures
        dec_bet_limit_cell(bet_limit_cell(o)) == Option::Some(o),
{
    broadcast use vstd::string::group_string_axioms;

    reveal_strlit("null");
    match o {
        Option::None => {
        },
        Option::Some(l) => {
            let s = spec_limit_props(l);
            lemma_spec_int_head(l.order_amount as int);
            assert(s[0] == spec_int(l.order_amount as int)[0]);
            assert(s != "null"@) by {
                assert("null"@[0] == 'n');
            }
            assert(Seq::<char>::empty() + s + Seq::<char>::empty() =~= s);
            lemma_dec_limit_props(Seq::<char>::empty(), l, Seq::<char>::empty());
        },
    }
}

fn limit_to_cell(o: &Option<LimitProps>) -> (r: CellValue)
    ensures
        r@ == bet_limit_cell(
            match o {
                Option::Some(l) => Option::Some(l.deep_view()),
                Option::None => Option::None,
            },
        ),
{
    match o {
        Option::None => CellValue::Text(String::from_str("null")),
        Option::Some(l) => {
            let mut buf: Vec<char> = Vec::new();
            push_limit_props(&mut buf, l);
            CellValue::Text(chars_string(&buf))
        },
    }
}

fn limit_of_cell(c: &CellValue) -> (r: Option<Option<LimitProps>>)
    ensures
        match r {
            Option::Some(o) => dec_bet_limit_cell(c@) == Option::Some(
                match o {
                    Option::Some(l) => Option::Some(l.deep_view()),
                    Option::None => Option::None,
                },
            ),
            Option::None => dec_bet_limit_cell(c@) is None,
        },
{
    match c {
        CellValue::Text(s) => {
            if string_eq_lit(s, "null") {
                Option::Some(Option::None)
            } else {
                let chars = str_chars(s.as_str());
                match parse_limit_props(&chars, 0) {
                    Option::Some((l, j)) => {
                        if j == chars.len() {
                            Option::Some(Option::Some(l))
                        } else {
                            Option::None
                        }
                    },
                    Option::None => Option::None,
                }
            }
        },
        _ => Option::None,
    }
}

// ---------------------------------------------------------------------------
// The row codec
// ---------------------------------------------------------------------------

/// The stored row of a bet, cell by cell, in column order. The superseded
/// shares-by-outcome wire field is not stored.
pub open spec fn enc_bet_row(b: BetV) -> Seq<CellV> {
    seq![
        enc_text(b.id),
        enc_text(b.user_id),
        enc_opt_text(b.user_avatar_url),
        enc_opt_text(b.user_name),
        enc_opt_text(b.user_username),
        enc_text(b.contract_id),
        enc_opt_text(b.answer_id),
        enc_u64(b.created_time),
        enc_i64(b.amount),
        enc_opt_i64(b.loan_amount),
        enc_text(b.outcome),
        enc_i64(b.shares),
        enc_i64(b.prob_before),
        enc_i64(b.prob_after),
        bet_fees_cell(b.fees),
        enc_opt_bool(b.is_api),
        enc_bool(b.is_ante),
        enc_bool(b.is_redemption),
        enc_bool(b.is_challenge),
        enc_text(b.visibility.tag()),
        enc_opt_text(b.challenge_slug),
        enc_opt_text(b.reply_to_comment_id),
        bet_limit_cell(b.limit_props),
    ]
}

/// Whether every cell of a bet row is readable as its column's type.
pub open spec fn bet_row_ok(r: Seq<CellV>) -> bool {
    &&& cellv_text(r[0]) is Some
    &&& cellv_text(r[1]) is Some
    &&& cellv_opt_text(r[2]) is Some
    &&& cellv_opt_text(r[3]) is Some
    &&& cellv_opt_text(r[4]) is Some
    &&& cellv_text(r[5]) is Some
    &&& cellv_opt_text(r[6]) is Some
    &&& cellv_u64(r[7]) is Some
    &&& cellv_i64(r[8]) is Some
    &&& cellv_opt_i64(r[9]) is Some
    &&& cellv_text(r[10]) is Some
    &&& cellv_i64(r[11]) is Some
    &&& cellv_i64(r[12]) is Some
    &&& cellv_i64(r[13]) is Some
    &&& dec_bet_fees_cell(r[14]) is Some
    &&& cellv_opt_bool(r[15]) is Some
    &&& cellv_bool(r[16]) is Some
    &&& cellv_bool(r[17]) is Some
    &&& cellv_bool(r[18]) is Some
    &&& cellv_text(r[19]) is Some
    &&& visibility_from_tag(cellv_text(r[19])->Some_0) is Some
    &&& cellv_opt_text(r[20]) is Some
    &&& cellv_opt_text(r[21]) is Some
    &&& dec_bet_limit_cell(r[22]) is Some
}

/// What a stored bet row decodes to: every cell read as its column's type,
/// or nothing if any cell is unreadable.
pub open spec fn dec_bet_row(r: Seq<CellV>) -> Option<BetV> {
    if r.len() == 23 && bet_row_ok(r) {
        Option::Some(
            BetV {
                id: cellv_text(r[0])->Some_0,
                user_id: cellv_text(r[1])->Some_0,
                user_avatar_url: cellv_opt_text(r[2])->Some_0,
                user_name: cellv_opt_text(r[3])->Some_0,
                user_username: cellv_opt_text(r[4])->Some_0,
                contract_id: cellv_text(r[5])->Some_0,
                answer_id: cellv_opt_text(r[6])->Some_0,
                created_time: cellv_u64(r[7])->Some_0,
                amount: cellv_i64(r[8])->Some_0,
                loan_amount: cellv_opt_i64(r[9])->Some_0,
                outcome: cellv_text(r[10])->Some_0,
                shares: cellv_i64(r[11])->Some_0,
                shares_by_outcome: Option::None,
                prob_before: cellv_i64(r[12])->Some_0,
                prob_after: cellv_i64(r[13])->Some_0,
                fees: dec_bet_fees_cell(r[14])->Some_0,
                is_api: cellv_opt_bool(r[15])->Some_0,
                is_ante: cellv_bool(r[16])->Some_0,
                is_redemption: cellv_bool(r[17])->Some_0,
                is_challenge: cellv_bool(r[18])->Some_0,
                visibility: visibility_from_tag(cellv_text(r[19])->Some_0)->Some_0,
                challenge_slug: cellv_opt_text(r[20])->Some_0,
                reply_to_comment_id: cellv_opt_text(r[21])->Some_0,
                limit_props: dec_bet_limit_cell(r[22])->Some_0,
            },
        )
    } else {
        Option::None
    }
}

/// A bet row reads back as the bet it was written from.
#[verifier::rlimit(100)]
pub proof fn lemma_bet_row_round_trip(b: BetV)
    requires
        b.wf(),
    ensures
        dec_bet_row(enc_bet_row(b)) == Option::Some(b),
{
    let r = enc_bet_row(b);
    lemma_visibility_tag_round_trip(b.visibility);
    lemma_fees_cell_round_trip(b.fees);
    lemma_limit_cell_round_trip(b.limit_props);
    assert(dec_bet_row(r) is Some);
}

/// Whether the store can hold this bet; what `wf` demands of the value,
/// decided at run time.
pub fn bet_fits(b: &Bet) -> (r: bool)
    ensures
        r == b.deep_view().wf(),
{
    match &b.limit_props {
        Option::Some(l) => {
            let n = l.fills.len();
            assert(l.deep_view().fills.len() == n);
        },
        Option::None => {},
    }
    b.created_time <= i64::MAX as u64 && b.shares_by_outcome.is_none()
}

/// Encodes a bet into its stored row.
pub fn bet_to_row(b: &Bet) -> (r: Vec<CellValue>)
    requires
        b.deep_view().wf(),
    ensures
        r.deep_view() == enc_bet_row(b.deep_view()),
        r@.len() == 23,
{
    let mut out: Vec<CellValue> = Vec::new();
    out.push(cell_of_text(&b.id));
    out.push(cell_of_text(&b.user_id));
    out.push(cell_of_opt_text(&b.user_avatar_url));
    out.push(cell_of_opt_text(&b.user_name));
    out.push(cell_of_opt_text(&b.user_username));
    out.push(cell_of_text(&b.contract_id));
    out.push(cell_of_opt_text(&b.answer_id));
    out.push(cell_of_u64(b.created_time));
    out.push(cell_of_i64(b.amount));
    out.push(cell_of_opt_i64(&b.loan_amount));
    out.push(cell_of_text(&b.outcome));
    out.push(cell_of_i64(b.shares));
    out.push(cell_of_i64(b.prob_before));
    out.push(cell_of_i64(b.prob_after));
    out.push(fees_to_cell(&b.fees));
    out.push(cell_of_opt_bool(&b.is_api));
    out.push(cell_of_bool(b.is_ante));
    out.push(cell_of_bool(b.is_redemption));
    out.push(cell_of_bool(b.is_challenge));
    out.push(cell_of_text(&b.visibility.to_tag()));
    out.push(cell_of_opt_text(&b.challenge_slug));
    out.push(cell_of_opt_text(&b.reply_to_comment_id));
    out.push(limit_to_cell(&b.limit_props));
    assert(out.deep_view() =~= enc_bet_row(b.deep_view()));
    out
}

/// Decodes a stored row into a bet. Any cell whose stored form is not
/// readable as its column's type is a serialization failure naming that
/// column; nothing is silently defaulted.
#[verifier::rlimit(100)]
pub fn rusqlite_row_to_bet(row: &Vec<CellValue>) -> (r: Result<Bet, RowParsingError>)
    ensures
        match r {
            Result::Ok(b) => dec_bet_row(row.deep_view()) == Option::Some(b.deep_view()),
            Result::Err(e) => dec_bet_row(row.deep_view()) is None && e.is_serialization(),
        },
{
    let e = "bets";
    if row.len() != 23 {
        return Result::Err(serr(e, "row"));
    }
    let id = match cell_text(&row[0]) {
        Option::Some(v) => v,
        Option::None => {
            return Result::Err(serr(e, "id"));
        },
    };
    let user_id = match cell_text(&row[1]) {
        Option::Some(v) => v,
        Option::None => {
            return Result::Err(serr(e, "user_id"));
        },
    };
    let user_avatar_url = match cell_opt_text(&row[2]) {
        Option::Some(v) => v,
        Option::None => {
            return Result::Err(serr(e, "user_avatar_url"));
        },
    };
    let user_name = match cell_opt_text(&row[3]) {
        Option::Some(v) => v,
        Option::None => {
            return Result::Err(serr(e, "user_name"));
        },
    };
    let user_username = match cell_opt_text(&row[4]) {
        Option::Some(v) => v,
        Option::None => {
            return Result::Err(serr(e, "user_username"));
        },
    };
    let contract_id = match cell_text(&row[5]) {
        Option::Some(v) => v,
        Option::None => {
            return Result::Err(serr(e, "contract_id"));
        },
    };
    let answer_id = match cell_opt_text(&row[6]) {
        Option::Some(v) => v,
        Option::None => {
            return Result::Err(serr(e, "answer_id"));
        },
    };
    let created_time = match cell_u64(&row[7]) {
        Option::Some(v) => v,
        Option::None => {
            return Result::Err(serr(e, "created_time"));
        },
    };
    let amount = match cell_i64(&row[8]) {
        Option::Some(v) => v,
        Option::None => {
            return Result::Err(serr(e, "amount"));
        },
    };
    let loan_amount = match cell_opt_i64(&row[9]) {
        Option::Some(v) => v,
        Option::None => {
            return Result::Err(serr(e, "loan_amount"));
        },
    };
    let outcome = match cell_text(&row[10]) {
        Option::Some(v) => v,
        Option::None => {
            return Result::Err(serr(e, "outcome"));
        },
    };
    let shares = match cell_i64(&row[11]) {
        Option::Some(v) => v,
        Option::None => {
            return Result::Err(serr(e, "shares"));
        },
    };
    let prob_before = match cell_i64(&row[12]) {
        Option::Some(v) => v,
        Option::None => {
            return Result::Err(serr(e, "prob_before"));
        },
    };
    let prob_after = match cell_i64(&row[13]) {
        Option::Some(v) => v,
        Option::None => {
            return Result::Err(serr(e, "prob_after"));
        },
    };
    let fees = match fees_of_cell(&row[14]) {
        Option::Some(v) => v,
        Option::None => {
            return Result::Err(serr(e, "fees"));
        },
    };
    let is_api = match cell_opt_bool(&row[15]) {
        Option::Some(v) => v,
        Option::None => {
            return Result::Err(serr(e, "is_api"));
        },
    };
    let is_ante = match cell_bool(&row[16]) {
        Option::Some(v) => v,
        Option::None => {
            return Result::Err(serr(e, "is_ante"));
        },
    };
    let is_redemption = match cell_bool(&row[17]) {
        Option::Some(v) => v,
        Option::None => {
            return Result::Err(serr(e, "is_redemption"));
        },
    };
    let is_challenge = match cell_bool(&row[18]) {
        Option::Some(v) => v,
        Option::None => {
            return Result::Err(serr(e, "is_challenge"));
        },
    };
    let visibility = match cell_text(&row[19]) {
        Option::Some(tag) => match Visibility::of_tag(&tag) {
            Option::Some(v) => v,
            Option::None => {
                return Result::Err(serr(e, "visibility"));
            },
        },
        Option::None => {
            return Result::Err(serr(e, "visibility"));
        },
    };
    let challenge_slug = match cell_opt_text(&row[20]) {
        Option::Some(v) => v,
        Option::None => {
            return Result::Err(serr(e, "challenge_slug"));
        },
    };
    let reply_to_comment_id = match cell_opt_text(&row[21]) {
        Option::Some(v) => v,
        Option::None => {
            return Result::Err(serr(e, "reply_to_comment_id"));
        },
    };
    let limit_props = match limit_of_cell(&row[22]) {
        Option::Some(v) => v,
        Option::None => {
            return Result::Err(serr(e, "limit_props"));
        },
    };
    Result::Ok(
        Bet {
            id,
            user_id,
            user_avatar_url,
            user_name,
            user_username,
            contract_id,
            answer_id,
            created_time,
            amount,
            loan_amount,
            outcome,
            shares,
            shares_by_outcome: Option::None,
            prob_before,
            prob_after,
            fees,
            is_api,
            is_ante,
            is_redemption,
            is_challenge,
            visibility,
            challenge_slug,
            reply_to_comment_id,
            limit_props,
        },
    )
}

// ---------------------------------------------------------------------------
// Schema, ingestion
// ---------------------------------------------------------------------------

/// Creates the `bets` table. Former floating-point columns hold the opaque
/// 64-bit patterns in integer columns.
pub fn create_bet_table(conn: &rusqlite::Connection) -> (r: Result<(), RowParsingError>)
    ensures
        r matches Result::Err(e) ==> e.is_schema(),
{
    let ddl = "CREATE TABLE bets (
            id TEXT PRIMARY KEY,
            user_id TEXT NOT NULL,
            user_avatar_url TEXT,
            user_name TEXT,
            user_username TEXT,
            contract_id TEXT NOT NULL,
            answer_id TEXT,
            created_time BIGINT NOT NULL,
            amount BIGINT NOT NULL,
            loan_amount BIGINT,
            outcome TEXT NOT NULL,
            shares BIGINT NOT NULL,
            prob_before BIGINT NOT NULL,
            prob_after BIGINT NOT NULL,
            fees TEXT,
            is_api INTEGER,
            is_ante INTEGER NOT NULL,
            is_redemption INTEGER NOT NULL,
            is_challenge INTEGER NOT NULL,
            visibility TEXT,
            challenge_slug TEXT,
            reply_to_comment_id TEXT,
            limit_props TEXT
        );";
    match crate::db_common::execute_batch(conn, ddl) {
        Result::Ok(_) => Result::Ok(()),
        Result::Err(e) => Result::Err(
            RowParsingError::Schema(crate::db_common::rusqlite_error_text(&e)),
        ),
    }
}

fn bet_insert_sql() -> &'static str {
    "INSERT INTO bets (
            id, user_id, user_avatar_url, user_name, user_username, contract_id, answer_id,
            created_time, amount, loan_amount, outcome, shares,
            prob_before, prob_after, fees, is_api, is_ante, is_redemption, is_challenge,
            visibility, challenge_slug, reply_to_comment_id, limit_props
        ) VALUES (
            ?1, ?2, ?3, ?4, ?5, ?6, ?7,
            ?8, ?9, ?10, ?11, ?12,
            ?13, ?14, ?15, ?16, ?17, ?18, ?19,
            ?20, ?21, ?22, ?23
        );"
}

/// Bulk-loads bets in chunks of one thousand rows, each chunk inside its own
/// committed transaction; each row is written through the verified codec. A
/// record the store cannot hold aborts the pass as a source failure; a store
/// failure rolls the open chunk back, leaving earlier committed chunks in
/// place.
pub fn bulk_insert_bets(conn: &rusqlite::Connection, bets: &Vec<Bet>) -> (r: Result<
    usize,
    RowParsingError,
>)
    ensures
        r matches Result::Ok(n) ==> n == bets@.len() && forall|k: int|
            0 <= k < bets@.len() ==> (#[trigger] bets@[k].deep_view()).wf(),
        r matches Result::Err(e) ==> e.is_ingestion_source() || e.is_connectivity(),
        r matches Result::Err(e) && e.is_ingestion_source() ==> exists|k: int|
            0 <= k < bets@.len() && !(#[trigger] bets@[k].deep_view()).wf(),
{
    let mut i: usize = 0;
    while i < bets.len()
        invariant
            0 <= i <= bets@.len(),
            forall|k: int| 0 <= k < i ==> (#[trigger] bets@[k].deep_view()).wf(),
        decreases bets@.len() - i,
    {
        match crate::db_common::execute_batch(conn, "BEGIN;") {
            Result::Ok(_) => {},
            Result::Err(e) => {
                return Result::Err(
                    RowParsingError::Connectivity(crate::db_common::rusqlite_error_text(&e)),
                );
            },
        }
        let end: usize = if bets.len() - i > 1000 {
            i + 1000
        } else {
            bets.len()
        };
        while i < end
            invariant
                0 <= i <= end <= bets@.len(),
                forall|k: int| 0 <= k < i ==> (#[trigger] bets@[k].deep_view()).wf(),
            decreases end - i,
        {
            let b = &bets[i];
            if !bet_fits(b) {
                let _ = crate::db_common::execute_batch(conn, "ROLLBACK;");
                assert(!bets@[i as int].deep_view().wf());
                return Result::Err(
                    RowParsingError::IngestionSource(
                        String::from_str("bet record does not fit the store"),
                    ),
                );
            }
            let row = bet_to_row(b);
            match crate::db_common::execute_cells(conn, bet_insert_sql(), &row) {
                Result::Ok(_) => {},
                Result::Err(e) => {
                    let msg = crate::db_common::rusqlite_error_text(&e);
                    let _ = crate::db_common::execute_batch(conn, "ROLLBACK;");
                    return Result::Err(RowParsingError::Connectivity(msg));
                },
            }
            i = i + 1;
        }
        match crate::db_common::execute_batch(conn, "COMMIT;") {
            Result::Ok(_) => {},
            Result::Err(e) => {
                return Result::Err(
                    RowParsingError::Connectivity(crate::db_common::rusqlite_error_text(&e)),
                );
            },
        }
    }
    Result::Ok(bets.len())
}

/// Ensures the `bets` table exists, and populates it from the given records
/// exactly when it is empty: a non-empty table skips ingestion entirely.
/// Returns how many rows were inserted: all of them on a fresh store, none
/// on a populated one. A source failure comes only of a record the store
/// cannot hold; the known table name never raises a construction error.
pub fn init_bet_table(conn: &rusqlite::Connection, bets: &Vec<Bet>) -> (r: Result<
    usize,
    RowParsingError,
>)
    ensures
        r matches Result::Ok(n) ==> n == bets@.len() || n == 0,
        r matches Result::Err(e) ==> !e.is_query_construction(),
        r matches Result::Err(e) && e.is_ingestion_source() ==> exists|k: int|
            0 <= k < bets@.len() && !(#[trigger] bets@[k].deep_view()).wf(),
{
    match crate::db_common::table_exists(conn, "bets") {
        Result::Ok(true) => {},
        Result::Ok(false) => {
            match create_bet_table(conn) {
                Result::Ok(_) => {},
                Result::Err(e) => {
                    return Result::Err(e);
                },
            }
        },
        Result::Err(e) => {
            return Result::Err(e);
        },
    }
    let num_rows = match crate::db_common::count_rows(conn, "bets") {
        Result::Ok(n) => n,
        Result::Err(e) => {
            return Result::Err(e);
        },
    };
    if num_rows == 0 {
        bulk_insert_bets(conn, bets)
    } else {
        Result::Ok(0)
    }
}

} // verus!

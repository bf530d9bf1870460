//! What the queries ask the store to compute, as mathematics: rows matching
//! the optional filters, in ascending order of the sort key — creation time
//! for bets, the chosen sort column for markets — with the primary key as
//! the tie-break, bounded below or above by a cursor row and cut to the
//! clamped page size. The lemmas here are the pagination laws: the result of
//! a filter set is unique, a cursor bounds it to an exact prefix or suffix,
//! and a limited page is an exact contiguous subrange of the unbounded
//! result, so that walking pages by cursor neither skips nor repeats a row
//! and concatenating them reassembles the unbounded result.
//!
//! The laws are stated over the ascending presentation, the default. The
//! descending presentation keeps the same cursor bounds and the same
//! primary-key-ascending tie-break; on rows tied on creation time its
//! presentation order then no longer agrees with the cursor bound, so the
//! page laws are stated for the ascending order only.
//!
//! The ingestion model is here too: loading populates only an empty table,
//! so a second pass over the same source changes nothing.

use vstd::prelude::*;

use crate::data_types::{BetV, LiteMarketV};
use crate::queries::MarketSort;

verus! {

// ---------------------------------------------------------------------------
// Ingestion
// ---------------------------------------------------------------------------

/// How many rows a table holds after an ingestion pass: a populated table is
/// left exactly as it was, an empty one receives the whole source.
pub open spec fn ingest_row_count(existing: nat, incoming: nat) -> nat {
    if existing == 0 {
        incoming
    } else {
        existing
    }
}

/// Running ingestion twice against the same source never changes row counts
/// after the first run.
pub proof fn lemma_ingest_idempotent(existing: nat, incoming: nat)
    ensures
        ingest_row_count(ingest_row_count(existing, incoming), incoming) == ingest_row_count(
            existing,
            incoming,
        ),
{
}

// ---------------------------------------------------------------------------
// Selections under a strict order, generically
// ---------------------------------------------------------------------------

/// A sequence strictly ascending under `lt`.
pub open spec fn strictly_sorted_by<A>(s: Seq<A>, lt: spec_fn(A, A) -> bool) -> bool {
    forall|i: int, j: int| 0 <= i < j < s.len() ==> lt(#[trigger] s[i], #[trigger] s[j])
}

/// A relation that never holds both ways; asymmetry also gives
/// irreflexivity. Every result order here is asymmetric.
pub open spec fn asymmetric_by<A>(lt: spec_fn(A, A) -> bool) -> bool {
    forall|a: A, b: A| !(#[trigger] lt(a, b) && lt(b, a))
}

/// `out` is the unbounded result of selecting `p` from the table under
/// `lt`: sorted ascending, holding exactly the table rows that pass `p`.
pub open spec fn is_sorted_selection_by<A>(
    table: Seq<A>,
    p: spec_fn(A) -> bool,
    lt: spec_fn(A, A) -> bool,
    out: Seq<A>,
) -> bool {
    &&& strictly_sorted_by(out, lt)
    &&& forall|b: A| #[trigger] out.contains(b) <==> table.contains(b) && p(b)
}

/// `out` is one page of selecting `p` from the table under `lt`: sorted
/// ascending, within the limit, drawn from the rows that pass `p`, complete
/// whenever it is shorter than the limit, and cut from the low end: every
/// passing row left out lies above everything in the page.
pub open spec fn is_limited_selection_by<A>(
    table: Seq<A>,
    p: spec_fn(A) -> bool,
    lt: spec_fn(A, A) -> bool,
    n: int,
    out: Seq<A>,
) -> bool {
    &&& strictly_sorted_by(out, lt)
    &&& forall|b: A| #[trigger] out.contains(b) ==> table.contains(b) && p(b)
    &&& out.len() <= n
    &&& out.len() < n ==> forall|b: A| table.contains(b) && p(b) ==> #[trigger] out.contains(b)
    &&& forall|b: A, i: int|
        #![trigger out[i], table.contains(b)]
        table.contains(b) && p(b) && !out.contains(b) && 0 <= i < out.len() ==> lt(out[i], b)
}

/// Two sequences strictly sorted by the same asymmetric order with the same
/// members are the same sequence.
proof fn lemma_sorted_same_members_by<A>(x: Seq<A>, y: Seq<A>, lt: spec_fn(A, A) -> bool)
    requires
        asymmetric_by(lt),
        strictly_sorted_by(x, lt),
        strictly_sorted_by(y, lt),
        forall|b: A| #[trigger] x.contains(b) <==> y.contains(b),
    ensures
        x == y,
    decreases x.len(),
{
    if x.len() == 0 {
        if y.len() > 0 {
            assert(y.contains(y[0]));
            assert(x.contains(y[0]));
        }
        assert(x =~= y);
    } else {
        assert(x.contains(x[0]));
        assert(y.contains(x[0]));
        let k = choose|k: int| 0 <= k < y.len() && y[k] == x[0];
        assert(y.contains(y[0]));
        assert(x.contains(y[0]));
        let m = choose|m: int| 0 <= m < x.len() && x[m] == y[0];
        if k > 0 && m > 0 {
            assert(lt(y[0], y[k]));
            assert(lt(x[0], x[m]));
            assert(!(lt(x[0], y[0]) && lt(y[0], x[0])));
            assert(false);
        }
        assert(x[0] == y[0]);
        let xt = x.drop_first();
        let yt = y.drop_first();
        assert forall|b: A| #[trigger] xt.contains(b) implies yt.contains(b) by {
            let i = choose|i: int| 0 <= i < xt.len() && xt[i] == b;
            assert(x[i + 1] == b);
            assert(lt(x[0], b));
            assert(!(lt(b, b) && lt(b, b)));
            assert(x.contains(b));
            assert(y.contains(b));
            let j = choose|j: int| 0 <= j < y.len() && y[j] == b;
            assert(b != y[0]);
            assert(yt[j - 1] == b);
            assert(yt.contains(b));
        }
        assert forall|b: A| #[trigger] yt.contains(b) implies xt.contains(b) by {
            let i = choose|i: int| 0 <= i < yt.len() && yt[i] == b;
            assert(y[i + 1] == b);
            assert(lt(y[0], b));
            assert(!(lt(b, b) && lt(b, b)));
            assert(y.contains(b));
            assert(x.contains(b));
            let j = choose|j: int| 0 <= j < x.len() && x[j] == b;
            assert(b != x[0]);
            assert(xt[j - 1] == b);
            assert(xt.contains(b));
        }
        lemma_sorted_same_members_by(xt, yt, lt);
        assert forall|i: int| 0 <= i < x.len() implies x[i] == y[i] by {
            if i > 0 {
                assert(x[i] == xt[i - 1]);
                assert(y[i] == yt[i - 1]);
            }
        }
        assert(x =~= y);
    }
}

/// A page is the lowest stretch of the unbounded selection: exactly its
/// first `n` rows, or all of it when fewer pass.
proof fn lemma_limited_is_prefix_by<A>(
    table: Seq<A>,
    p: spec_fn(A) -> bool,
    lt: spec_fn(A, A) -> bool,
    n: int,
    out: Seq<A>,
    full: Seq<A>,
)
    requires
        n >= 0,
        asymmetric_by(lt),
        is_limited_selection_by(table, p, lt, n, out),
        is_sorted_selection_by(table, p, lt, full),
    ensures
        out == full.take(
            if n <= full.len() {
                n
            } else {
                full.len() as int
            },
        ),
    decreases out.len(),
{
    let m = if n <= full.len() {
        n
    } else {
        full.len() as int
    };
    if out.len() == 0 {
        if n == 0 {
            assert(out =~= full.take(0));
        } else {
            if full.len() > 0 {
                assert(full.contains(full[0]));
                assert(out.contains(full[0]));
                assert(false);
            }
            assert(out =~= full.take(m));
        }
    } else {
        assert(out.contains(out[0]));
        assert(full.contains(out[0]));
        let fm = choose|j: int| 0 <= j < full.len() && full[j] == out[0];
        if !out.contains(full[0]) {
            assert(full.contains(full[0]));
            assert(lt(out[0], full[0]));
            if fm == 0 {
                assert(!(lt(out[0], out[0]) && lt(out[0], out[0])));
            } else {
                assert(lt(full[0], full[fm]));
                assert(!(lt(out[0], full[0]) && lt(full[0], out[0])));
            }
            assert(false);
        }
        let k = choose|k: int| 0 <= k < out.len() && out[k] == full[0];
        if k > 0 {
            assert(lt(out[0], out[k]));
            if fm == 0 {
                assert(!(lt(out[0], out[0]) && lt(out[0], out[0])));
            } else {
                assert(lt(full[0], full[fm]));
                assert(!(lt(out[0], full[0]) && lt(full[0], out[0])));
            }
            assert(false);
        }
        assert(out[0] == full[0]);
        let head = out[0];
        let ot = out.drop_first();
        let ft = full.drop_first();
        let q = (|b: A| p(b) && b != head);
        assert forall|b: A| #[trigger] ot.contains(b) implies table.contains(b) && q(b) by {
            let i = choose|i: int| 0 <= i < ot.len() && ot[i] == b;
            assert(out[i + 1] == b);
            assert(lt(out[0], b));
            assert(!(lt(b, b) && lt(b, b)));
            assert(out.contains(b));
        }
        assert forall|b: A| #[trigger] ft.contains(b) implies table.contains(b) && q(b) by {
            let i = choose|i: int| 0 <= i < ft.len() && ft[i] == b;
            assert(full[i + 1] == b);
            assert(lt(full[0], b));
            assert(!(lt(b, b) && lt(b, b)));
            assert(full.contains(b));
        }
        assert forall|b: A| table.contains(b) && q(b) implies #[trigger] ft.contains(b) by {
            assert(full.contains(b));
            let j = choose|j: int| 0 <= j < full.len() && full[j] == b;
            assert(b != head);
            assert(ft[j - 1] == b);
            assert(ft.contains(b));
        }
        assert(is_sorted_selection_by(table, q, lt, ft)) by {
            assert forall|b: A| #[trigger] ft.contains(b) implies table.contains(b) && q(b) by {}
        }
        assert(is_limited_selection_by(table, q, lt, n - 1, ot)) by {
            assert(ot.len() <= n - 1);
            if ot.len() < n - 1 {
                assert forall|b: A| table.contains(b) && q(b) implies #[trigger] ot.contains(
                    b,
                ) by {
                    assert(out.len() < n);
                    assert(out.contains(b));
                    let j = choose|j: int| 0 <= j < out.len() && out[j] == b;
                    assert(b != head);
                    assert(ot[j - 1] == b);
                    assert(ot.contains(b));
                }
            }
            assert forall|b: A, i: int|
                #![trigger ot[i], table.contains(b)]
                table.contains(b) && q(b) && !ot.contains(b) && 0 <= i < ot.len() implies lt(
                ot[i],
                b,
            ) by {
                if out.contains(b) {
                    let j = choose|j: int| 0 <= j < out.len() && out[j] == b;
                    assert(b != head);
                    assert(ot[j - 1] == b);
                    assert(ot.contains(b));
                    assert(false);
                } else {
                    assert(lt(out[i + 1], b));
                }
            }
        }
        lemma_limited_is_prefix_by(table, q, lt, n - 1, ot, ft);
        let mp = if n - 1 <= ft.len() {
            n - 1
        } else {
            ft.len() as int
        };
        assert(ot == ft.take(mp));
        assert(out.len() == m);
        assert forall|i: int| 0 <= i < out.len() implies out[i] == full.take(m)[i] by {
            if i > 0 {
                assert(out[i] == ot[i - 1]);
                assert(ot[i - 1] == ft.take(mp)[i - 1]);
                assert(ft[i - 1] == full[i]);
            }
        }
        assert(out =~= full.take(m));
    }
}

/// The rows of an unbounded selection strictly below one of its own rows
/// are exactly the prefix that ends right before it.
proof fn lemma_below_cursor_is_prefix_by<A>(
    table: Seq<A>,
    p: spec_fn(A) -> bool,
    lt: spec_fn(A, A) -> bool,
    full: Seq<A>,
    i: int,
)
    requires
        asymmetric_by(lt),
        is_sorted_selection_by(table, p, lt, full),
        0 <= i < full.len(),
    ensures
        is_sorted_selection_by(table, |b: A| p(b) && lt(b, full[i]), lt, full.take(i)),
{
    let b0 = full[i];
    let pre = full.take(i);
    let q = (|b: A| p(b) && lt(b, b0));
    assert forall|b: A| #[trigger] pre.contains(b) implies table.contains(b) && q(b) by {
        let j = choose|j: int| 0 <= j < pre.len() && pre[j] == b;
        assert(full[j] == b);
        assert(lt(b, full[i]));
        assert(full.contains(b));
    }
    assert forall|b: A| table.contains(b) && q(b) implies #[trigger] pre.contains(b) by {
        assert(full.contains(b));
        let j = choose|j: int| 0 <= j < full.len() && full[j] == b;
        if j >= i {
            if j == i {
                assert(!(lt(b, b) && lt(b, b)));
            } else {
                assert(lt(full[i], full[j]));
                assert(!(lt(b, b0) && lt(b0, b)));
            }
            assert(false);
        }
        assert(pre[j] == b);
        assert(pre.contains(b));
    }
}

// ---------------------------------------------------------------------------
// The order of a bet result: creation time, then primary key
// ---------------------------------------------------------------------------

/// Strict lexicographic order on identifier strings, by code point.
pub open spec fn seq_char_lt(a: Seq<char>, b: Seq<char>) -> bool
    decreases a.len(),
{
    if b.len() == 0 {
        false
    } else if a.len() == 0 {
        true
    } else if (a[0] as int) < (b[0] as int) {
        true
    } else if a[0] == b[0] {
        seq_char_lt(a.drop_first(), b.drop_first())
    } else {
        false
    }
}

pub proof fn lemma_seq_char_lt_asym(a: Seq<char>, b: Seq<char>)
    ensures
        !(seq_char_lt(a, b) && seq_char_lt(b, a)),
    decreases a.len(),
{
    if a.len() > 0 && b.len() > 0 && a[0] == b[0] {
        lemma_seq_char_lt_asym(a.drop_first(), b.drop_first());
    }
}

pub proof fn lemma_seq_char_lt_trans(a: Seq<char>, b: Seq<char>, c: Seq<char>)
    requires
        seq_char_lt(a, b),
        seq_char_lt(b, c),
    ensures
        seq_char_lt(a, c),
    decreases a.len(),
{
    if a.len() > 0 && b.len() > 0 && c.len() > 0 && a[0] == b[0] && b[0] == c[0] {
        lemma_seq_char_lt_trans(a.drop_first(), b.drop_first(), c.drop_first());
    }
}

pub proof fn lemma_seq_char_lt_trichotomy(a: Seq<char>, b: Seq<char>)
    ensures
        seq_char_lt(a, b) || seq_char_lt(b, a) || a == b,
    decreases a.len(),
{
    if a.len() == 0 && b.len() == 0 {
        assert(a =~= b);
    } else if a.len() > 0 && b.len() > 0 && a[0] == b[0] {
        lemma_seq_char_lt_trichotomy(a.drop_first(), b.drop_first());
        if a.drop_first() == b.drop_first() {
            assert(a.drop_first().len() == a.len() - 1);
            assert(b.drop_first().len() == b.len() - 1);
            assert(a.len() == b.len());
            assert forall|i: int| 0 <= i < a.len() implies a[i] == b[i] by {
                if i > 0 {
                    assert(a[i] == a.drop_first()[i - 1]);
                    assert(b[i] == b.drop_first()[i - 1]);
                }
            }
            assert(a =~= b);
        }
    }
}

/// The order of an ascending bet result: strictly by creation time, with
/// the primary key ascending as the documented deterministic tie-break.
pub open spec fn bet_lt(a: BetV, b: BetV) -> bool {
    a.created_time < b.created_time || (a.created_time == b.created_time && seq_char_lt(
        a.id,
        b.id,
    ))
}

pub proof fn lemma_bet_lt_asym(a: BetV, b: BetV)
    ensures
        !(bet_lt(a, b) && bet_lt(b, a)),
{
    lemma_seq_char_lt_asym(a.id, b.id);
}

pub proof fn lemma_bet_lt_irrefl(a: BetV)
    ensures
        !bet_lt(a, a),
{
    lemma_seq_char_lt_asym(a.id, a.id);
}

pub proof fn lemma_bet_lt_trans(a: BetV, b: BetV, c: BetV)
    requires
        bet_lt(a, b),
        bet_lt(b, c),
    ensures
        bet_lt(a, c),
{
    if a.created_time == b.created_time && b.created_time == c.created_time {
        lemma_seq_char_lt_trans(a.id, b.id, c.id);
    }
}

/// Rows with distinct ids are always ordered one way or the other.
pub proof fn lemma_bet_lt_connected(a: BetV, b: BetV)
    requires
        a.id != b.id,
    ensures
        bet_lt(a, b) || bet_lt(b, a),
{
    lemma_seq_char_lt_trichotomy(a.id, b.id);
}

/// The bet result order, as a relation value.
pub open spec fn bet_order() -> spec_fn(BetV, BetV) -> bool {
    |a: BetV, b: BetV| bet_lt(a, b)
}

proof fn lemma_bet_order_asymmetric()
    ensures
        asymmetric_by(bet_order()),
{
    let f = bet_order();
    assert forall|a: BetV, b: BetV| !(#[trigger] f(a, b) && f(b, a)) by {
        lemma_bet_lt_asym(a, b);
    }
}

// ---------------------------------------------------------------------------
// Results and pages
// ---------------------------------------------------------------------------

/// A bet sequence in strictly ascending result order.
pub open spec fn strictly_sorted(s: Seq<BetV>) -> bool {
    strictly_sorted_by(s, bet_order())
}

/// The optional filters of a bet query; an absent filter is neutral.
pub struct BetFilter {
    pub user_id: Option<Seq<char>>,
    pub username: Option<Seq<char>>,
    pub contract_id: Option<Seq<char>>,
}

/// Whether a row passes the filters. The username filter compares against
/// the stored display-name column, as the statement does.
pub open spec fn bet_matches(f: BetFilter, b: BetV) -> bool {
    &&& match f.user_id {
        Option::Some(u) => b.user_id == u,
        Option::None => true,
    }
    &&& match f.username {
        Option::Some(u) => b.user_name == Option::Some(u),
        Option::None => true,
    }
    &&& match f.contract_id {
        Option::Some(c) => b.contract_id == c,
        Option::None => true,
    }
}

/// `out` is the unbounded result of selecting `p` from the bet table.
pub open spec fn is_sorted_selection(
    table: Seq<BetV>,
    p: spec_fn(BetV) -> bool,
    out: Seq<BetV>,
) -> bool {
    is_sorted_selection_by(table, p, bet_order(), out)
}

/// `out` is one page of selecting `p` from the bet table: its lowest `n`
/// rows.
pub open spec fn is_limited_selection(
    table: Seq<BetV>,
    p: spec_fn(BetV) -> bool,
    n: int,
    out: Seq<BetV>,
) -> bool {
    is_limited_selection_by(table, p, bet_order(), n, out)
}

/// The unbounded result of the given filters.
pub open spec fn is_bets_result(table: Seq<BetV>, f: BetFilter, out: Seq<BetV>) -> bool {
    is_sorted_selection(table, |b: BetV| bet_matches(f, b), out)
}

/// One page of the given filters after the cursor row `b0`.
pub open spec fn is_bets_page_after(
    table: Seq<BetV>,
    f: BetFilter,
    b0: BetV,
    n: int,
    out: Seq<BetV>,
) -> bool {
    is_limited_selection(table, |b: BetV| bet_matches(f, b) && bet_lt(b0, b), n, out)
}

// ---------------------------------------------------------------------------
// The pagination laws
// ---------------------------------------------------------------------------

/// Two strictly sorted bet sequences with the same members are the same
/// sequence.
proof fn lemma_sorted_same_members(x: Seq<BetV>, y: Seq<BetV>)
    requires
        strictly_sorted(x),
        strictly_sorted(y),
        forall|b: BetV| #[trigger] x.contains(b) <==> y.contains(b),
    ensures
        x == y,
{
    lemma_bet_order_asymmetric();
    lemma_sorted_same_members_by(x, y, bet_order());
}

/// Pagination determinism, unbounded form: for a fixed table and filter set
/// there is exactly one result sequence, so repeating a query can neither
/// skip nor repeat a row.
pub proof fn lemma_bets_result_unique(
    table: Seq<BetV>,
    f: BetFilter,
    out1: Seq<BetV>,
    out2: Seq<BetV>,
)
    requires
        is_bets_result(table, f, out1),
        is_bets_result(table, f, out2),
    ensures
        out1 == out2,
{
    lemma_sorted_same_members(out1, out2);
}

/// A page is the lowest stretch of the unbounded bet selection: exactly its
/// first `n` rows, or all of it when fewer pass.
proof fn lemma_limited_is_prefix(
    table: Seq<BetV>,
    p: spec_fn(BetV) -> bool,
    n: int,
    out: Seq<BetV>,
    full: Seq<BetV>,
)
    requires
        n >= 0,
        is_limited_selection(table, p, n, out),
        is_sorted_selection(table, p, full),
    ensures
        out == full.take(
            if n <= full.len() {
                n
            } else {
                full.len() as int
            },
        ),
{
    lemma_bet_order_asymmetric();
    lemma_limited_is_prefix_by(table, p, bet_order(), n, out, full);
}

/// The rows of the unbounded result past the cursor row are exactly the
/// suffix that begins right after it.
proof fn lemma_after_cursor_is_suffix(
    table: Seq<BetV>,
    p: spec_fn(BetV) -> bool,
    full: Seq<BetV>,
    i: int,
)
    requires
        is_sorted_selection(table, p, full),
        0 <= i < full.len(),
    ensures
        is_sorted_selection(
            table,
            |b: BetV| p(b) && bet_lt(full[i], b),
            full.subrange(i + 1, full.len() as int),
        ),
{
    let b0 = full[i];
    let suf = full.subrange(i + 1, full.len() as int);
    let q = (|b: BetV| p(b) && bet_lt(b0, b));
    assert forall|b: BetV| #[trigger] suf.contains(b) implies table.contains(b) && q(b) by {
        let j = choose|j: int| 0 <= j < suf.len() && suf[j] == b;
        assert(full[i + 1 + j] == b);
        assert(bet_lt(full[i], b));
        assert(full.contains(b));
    }
    assert forall|b: BetV| table.contains(b) && q(b) implies #[trigger] suf.contains(b) by {
        assert(full.contains(b));
        let j = choose|j: int| 0 <= j < full.len() && full[j] == b;
        if j <= i {
            if j == i {
                lemma_bet_lt_irrefl(b);
            } else {
                assert(bet_lt(full[j], full[i]));
                lemma_bet_lt_asym(b0, b);
            }
            assert(false);
        }
        assert(suf[j - i - 1] == b);
        assert(suf.contains(b));
    }
}

/// The pagination law: against a fixed table and filter set, the page of
/// size `n` after the cursor row `u[i]` is exactly the stretch of the
/// unbounded result `u` that follows position `i`, and gluing it onto what
/// came before reassembles an exact prefix of `u`. Pages walked by cursor
/// are therefore disjoint, contiguous, and concatenate to the unbounded
/// result.
pub proof fn lemma_bets_pagination(
    table: Seq<BetV>,
    f: BetFilter,
    u: Seq<BetV>,
    i: int,
    n: int,
    page: Seq<BetV>,
)
    requires
        n >= 0,
        is_bets_result(table, f, u),
        0 <= i < u.len(),
        is_bets_page_after(table, f, u[i], n, page),
    ensures
        page == u.subrange(
            i + 1,
            if i + 1 + n <= u.len() {
                i + 1 + n
            } else {
                u.len() as int
            },
        ),
        u.take(i + 1) + page == u.take(
            if i + 1 + n <= u.len() {
                i + 1 + n
            } else {
                u.len() as int
            },
        ),
{
    let p = (|b: BetV| bet_matches(f, b));
    let q = (|b: BetV| bet_matches(f, b) && bet_lt(u[i], b));
    let suf = u.subrange(i + 1, u.len() as int);
    lemma_after_cursor_is_suffix(table, p, u, i);
    assert(is_sorted_selection(table, q, suf)) by {
        assert forall|b: BetV| #[trigger] suf.contains(b) <==> table.contains(b) && q(b) by {
            assert(suf.contains(b) <==> table.contains(b) && p(b) && bet_lt(u[i], b));
        }
    }
    assert(is_limited_selection(table, q, n, page));
    lemma_limited_is_prefix(table, q, n, page, suf);
    let hi = if i + 1 + n <= u.len() {
        i + 1 + n
    } else {
        u.len() as int
    };
    assert(page =~= u.subrange(i + 1, hi));
    assert(u.take(i + 1) + page =~= u.take(hi));
}

/// One page of the given filters before the cursor row `b0`: rows created
/// strictly earlier, or at the same instant with a smaller primary key.
pub open spec fn is_bets_page_before(
    table: Seq<BetV>,
    f: BetFilter,
    b0: BetV,
    n: int,
    out: Seq<BetV>,
) -> bool {
    is_limited_selection(table, |b: BetV| bet_matches(f, b) && bet_lt(b, b0), n, out)
}

/// The bet rows bounded by the cursor row are exactly the prefix that ends
/// right before it.
proof fn lemma_before_cursor_is_prefix(
    table: Seq<BetV>,
    p: spec_fn(BetV) -> bool,
    full: Seq<BetV>,
    i: int,
)
    requires
        is_sorted_selection(table, p, full),
        0 <= i < full.len(),
    ensures
        is_sorted_selection(table, |b: BetV| p(b) && bet_lt(b, full[i]), full.take(i)),
{
    lemma_bet_order_asymmetric();
    lemma_below_cursor_is_prefix_by(table, p, bet_order(), full, i);
    let q1 = (|b: BetV| p(b) && (bet_order())(b, full[i]));
    let q2 = (|b: BetV| p(b) && bet_lt(b, full[i]));
    let pre = full.take(i);
    assert(is_sorted_selection_by(table, q1, bet_order(), pre));
    assert forall|b: BetV| #[trigger] pre.contains(b) <==> table.contains(b) && q2(b) by {
        assert(pre.contains(b) <==> table.contains(b) && q1(b));
    }
}

/// The pagination law for the `before` cursor: the page of size `n` before
/// the cursor row `u[i]` is exactly the first rows of the stretch of the
/// unbounded result `u` that precedes position `i`, so a bounded page never
/// skips, repeats or reorders a row of it.
pub proof fn lemma_bets_pagination_before(
    table: Seq<BetV>,
    f: BetFilter,
    u: Seq<BetV>,
    i: int,
    n: int,
    page: Seq<BetV>,
)
    requires
        n >= 0,
        is_bets_result(table, f, u),
        0 <= i < u.len(),
        is_bets_page_before(table, f, u[i], n, page),
    ensures
        page == u.take(
            if n <= i {
                n
            } else {
                i
            },
        ),
{
    let p = (|b: BetV| bet_matches(f, b));
    let q = (|b: BetV| bet_matches(f, b) && bet_lt(b, u[i]));
    let pre = u.take(i);
    lemma_before_cursor_is_prefix(table, p, u, i);
    assert(is_sorted_selection(table, q, pre)) by {
        assert forall|b: BetV| #[trigger] pre.contains(b) <==> table.contains(b) && q(b) by {
            assert(pre.contains(b) <==> table.contains(b) && p(b) && bet_lt(b, u[i]));
        }
    }
    assert(is_limited_selection(table, q, n, page));
    lemma_limited_is_prefix(table, q, n, page, pre);
    let hi = if n <= i {
        n
    } else {
        i
    };
    assert(page =~= u.take(hi));
}

/// Pagination determinism, page form: for a fixed filter set, cursor and
/// limit, two queries return the same page.
pub proof fn lemma_bets_page_unique(
    table: Seq<BetV>,
    f: BetFilter,
    u: Seq<BetV>,
    i: int,
    n: int,
    page1: Seq<BetV>,
    page2: Seq<BetV>,
)
    requires
        n >= 0,
        is_bets_result(table, f, u),
        0 <= i < u.len(),
        is_bets_page_after(table, f, u[i], n, page1),
        is_bets_page_after(table, f, u[i], n, page2),
    ensures
        page1 == page2,
{
    lemma_bets_pagination(table, f, u, i, n, page1);
    lemma_bets_pagination(table, f, u, i, n, page2);
}

// ---------------------------------------------------------------------------
// The order of a market listing: the chosen sort column, then primary key
// ---------------------------------------------------------------------------

/// Order on an optional sort-column value: an absent value sorts before
/// every present one, as the store orders its empty cells ascending.
pub open spec fn opt_u64_lt(a: Option<u64>, b: Option<u64>) -> bool {
    match a {
        Option::None => b is Some,
        Option::Some(x) => match b {
            Option::Some(y) => x < y,
            Option::None => false,
        },
    }
}

/// The sort-column value of a market under the chosen sort key.
pub open spec fn market_key(sort: MarketSort, m: LiteMarketV) -> Option<u64> {
    match sort {
        MarketSort::CreatedTime => Option::Some(m.created_time),
        MarketSort::UpdatedTime => m.last_updated_time,
        MarketSort::LastBetTime => m.last_bet_time,
    }
}

/// The order of an ascending market listing: strictly by the chosen sort
/// column, with the primary key ascending as the documented deterministic
/// tie-break.
pub open spec fn market_lt(sort: MarketSort, a: LiteMarketV, b: LiteMarketV) -> bool {
    opt_u64_lt(market_key(sort, a), market_key(sort, b)) || (market_key(sort, a) == market_key(
        sort,
        b,
    ) && seq_char_lt(a.id, b.id))
}

pub proof fn lemma_market_lt_asym(sort: MarketSort, a: LiteMarketV, b: LiteMarketV)
    ensures
        !(market_lt(sort, a, b) && market_lt(sort, b, a)),
{
    lemma_seq_char_lt_asym(a.id, b.id);
}

/// Markets with distinct ids are always ordered one way or the other.
pub proof fn lemma_market_lt_connected(sort: MarketSort, a: LiteMarketV, b: LiteMarketV)
    requires
        a.id != b.id,
    ensures
        market_lt(sort, a, b) || market_lt(sort, b, a),
{
    lemma_seq_char_lt_trichotomy(a.id, b.id);
}

/// The market listing order under the chosen sort key, as a relation value.
pub open spec fn market_order(sort: MarketSort) -> spec_fn(LiteMarketV, LiteMarketV) -> bool {
    |a: LiteMarketV, b: LiteMarketV| market_lt(sort, a, b)
}

proof fn lemma_market_order_asymmetric(sort: MarketSort)
    ensures
        asymmetric_by(market_order(sort)),
{
    let f = market_order(sort);
    assert forall|a: LiteMarketV, b: LiteMarketV| !(#[trigger] f(a, b) && f(b, a)) by {
        lemma_market_lt_asym(sort, a, b);
    }
}

/// The optional filters of a market listing; an absent filter is neutral.
/// The before cursor stands apart: it names a row, and bounds the listing to
/// the rows strictly below that row's position in the chosen sort order.
pub struct MarketFilter {
    pub id: Option<Seq<char>>,
    pub creator_id: Option<Seq<char>>,
}

/// Whether a market passes the filters.
pub open spec fn market_matches(f: MarketFilter, m: LiteMarketV) -> bool {
    &&& match f.id {
        Option::Some(v) => m.id == v,
        Option::None => true,
    }
    &&& match f.creator_id {
        Option::Some(v) => m.creator_id == v,
        Option::None => true,
    }
}

/// The unbounded market listing of the given filters under the chosen sort
/// key.
pub open spec fn is_markets_result(
    table: Seq<LiteMarketV>,
    f: MarketFilter,
    sort: MarketSort,
    out: Seq<LiteMarketV>,
) -> bool {
    is_sorted_selection_by(table, |m: LiteMarketV| market_matches(f, m), market_order(sort), out)
}

/// One page of the market listing: its lowest `n` rows.
pub open spec fn is_markets_page(
    table: Seq<LiteMarketV>,
    f: MarketFilter,
    sort: MarketSort,
    n: int,
    out: Seq<LiteMarketV>,
) -> bool {
    is_limited_selection_by(
        table,
        |m: LiteMarketV| market_matches(f, m),
        market_order(sort),
        n,
        out,
    )
}

/// Listing determinism: for a fixed table, filter set and sort key there is
/// exactly one market listing, so repeating a query can neither skip,
/// repeat nor reorder a row.
pub proof fn lemma_markets_result_unique(
    table: Seq<LiteMarketV>,
    f: MarketFilter,
    sort: MarketSort,
    out1: Seq<LiteMarketV>,
    out2: Seq<LiteMarketV>,
)
    requires
        is_markets_result(table, f, sort, out1),
        is_markets_result(table, f, sort, out2),
    ensures
        out1 == out2,
{
    lemma_market_order_asymmetric(sort);
    lemma_sorted_same_members_by(out1, out2, market_order(sort));
}

/// The market listing's page law: the page of size `n` is exactly the first
/// `n` rows of the unbounded listing, in sort-column order with the
/// primary-key tie-break, or all of it when fewer match.
pub proof fn lemma_markets_page_prefix(
    table: Seq<LiteMarketV>,
    f: MarketFilter,
    sort: MarketSort,
    n: int,
    page: Seq<LiteMarketV>,
    full: Seq<LiteMarketV>,
)
    requires
        n >= 0,
        is_markets_result(table, f, sort, full),
        is_markets_page(table, f, sort, n, page),
    ensures
        page == full.take(
            if n <= full.len() {
                n
            } else {
                full.len() as int
            },
        ),
{
    lemma_market_order_asymmetric(sort);
    lemma_limited_is_prefix_by(
        table,
        |m: LiteMarketV| market_matches(f, m),
        market_order(sort),
        n,
        page,
        full,
    );
}

/// One page of the market listing before the cursor row `b0`: markets
/// strictly below it in the chosen sort order, with the primary key as the
/// tie-break.
pub open spec fn is_markets_page_before(
    table: Seq<LiteMarketV>,
    f: MarketFilter,
    sort: MarketSort,
    b0: LiteMarketV,
    n: int,
    out: Seq<LiteMarketV>,
) -> bool {
    is_limited_selection_by(
        table,
        |m: LiteMarketV| market_matches(f, m) && market_lt(sort, m, b0),
        market_order(sort),
        n,
        out,
    )
}

/// The market pagination law for the `before` cursor: the page of size `n`
/// before the cursor row `u[i]` is exactly the first rows of the stretch of
/// the unbounded listing that precedes position `i`, so a bounded page never
/// skips, repeats or reorders a row of it.
pub proof fn lemma_markets_pagination_before(
    table: Seq<LiteMarketV>,
    f: MarketFilter,
    sort: MarketSort,
    u: Seq<LiteMarketV>,
    i: int,
    n: int,
    page: Seq<LiteMarketV>,
)
    requires
        n >= 0,
        is_markets_result(table, f, sort, u),
        0 <= i < u.len(),
        is_markets_page_before(table, f, sort, u[i], n, page),
    ensures
        page == u.take(
            if n <= i {
                n
            } else {
                i
            },
        ),
{
    lemma_market_order_asymmetric(sort);
    let p = (|m: LiteMarketV| market_matches(f, m));
    let q = (|m: LiteMarketV| market_matches(f, m) && market_lt(sort, m, u[i]));
    let pre = u.take(i);
    lemma_below_cursor_is_prefix_by(table, p, market_order(sort), u, i);
    assert(is_sorted_selection_by(table, q, market_order(sort), pre)) by {
        assert forall|m: LiteMarketV| #[trigger] pre.contains(m) <==> table.contains(m) && q(
            m,
        ) by {
            assert(pre.contains(m) <==> table.contains(m) && p(m) && (market_order(sort))(
                m,
                u[i],
            ));
        }
    }
    assert(is_limited_selection_by(table, q, market_order(sort), n, page));
    lemma_limited_is_prefix_by(table, q, market_order(sort), n, page, pre);
    let hi = if n <= i {
        n
    } else {
        i
    };
    assert(page =~= u.take(hi));
}

} // verus!

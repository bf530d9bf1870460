//! Codecs for the nested sub-objects that are folded into single text
//! columns: fee breakdowns, limit-order properties with their fill history,
//! liquidity-pool maps and cached-profit maps.
//!
//! Each sub-object has a canonical encoded form built from the primitives of
//! `text_codec`, a decoder, and a round-trip lemma. An optional column
//! additionally distinguishes the absent field by the `null` token, which no
//! encoded value can spell.

use vstd::prelude::*;

use crate::data_types::{Fees, FeesV, Fill, FillV, LimitProps, LimitPropsV, PoolEntry, PoolEntryV,
    ProfitEntry, ProfitEntryV, TimePeriod};
use crate::text_codec::{string_eq_lit, dec_bool, dec_int_i64, dec_num_u64, dec_str, lemma_dec_bool,
    lemma_dec_int, lemma_dec_num, lemma_dec_str, parse_bool, parse_int, parse_num, parse_string,
    push_bool, push_int, push_num, push_str, spec_bool, spec_int, spec_num, spec_str};

verus! {

// ---------------------------------------------------------------------------
// Optional primitives
// ---------------------------------------------------------------------------

/// An optional string: `N`, or `S` followed by the string.
pub open spec fn spec_opt_str(o: Option<Seq<char>>) -> Seq<char> {
    match o {
        Option::None => seq!['N'],
        Option::Some(sv) => seq!['S'] + spec_str(sv),
    }
}

pub open spec fn dec_opt_str(s: Seq<char>, i: int) -> Option<(Option<Seq<char>>, int)> {
    if 0 <= i < s.len() && s[i] == 'N' {
        Option::Some((Option::None, i + 1))
    } else if 0 <= i < s.len() && s[i] == 'S' {
        match dec_str(s, i + 1) {
            Option::Some((sv, j)) => Option::Some((Option::Some(sv), j)),
            Option::None => Option::None,
        }
    } else {
        Option::None
    }
}

pub proof fn lemma_dec_opt_str(pre: Seq<char>, o: Option<Seq<char>>, tail: Seq<char>)
    ensures
        dec_opt_str(pre + spec_opt_str(o) + tail, pre.len() as int) == Option::Some(
            (o, pre.len() + spec_opt_str(o).len() as int),
        ),
{
    let s = pre + spec_opt_str(o) + tail;
    match o {
        Option::None => {
            assert(s[pre.len() as int] == 'N');
        },
        Option::Some(sv) => {
            assert(s[pre.len() as int] == 'S');
            let pre1 = pre + seq!['S'];
            assert(s =~= pre1 + spec_str(sv) + tail);
            lemma_dec_str(pre1, sv, tail);
        },
    }
}

fn push_opt_str(out: &mut Vec<char>, o: &Option<String>)
    ensures
        final(out)@ == old(out)@ + spec_opt_str(crate::data_types::view_opt_str(*o)),
{
    match o {
        Option::None => {
            out.push('N');
            assert(final(out)@ =~= old(out)@ + spec_opt_str(Option::None));
        },
        Option::Some(sv) => {
            out.push('S');
            push_str(out, sv.as_str());
            assert(final(out)@ =~= old(out)@ + spec_opt_str(Option::Some(sv@)));
        },
    }
}

fn parse_opt_str(s: &Vec<char>, pos: usize) -> (r: Option<(Option<String>, usize)>)
    ensures
        match r {
            Option::Some((v, j)) => dec_opt_str(s@, pos as int) == Option::Some(
                (crate::data_types::view_opt_str(v), j as int),
            ) && pos < j <= s.len(),
            Option::None => dec_opt_str(s@, pos as int) is None,
        },
{
    if pos >= s.len() {
        return Option::None;
    }
    let c = s[pos];
    if c == 'N' {
        Option::Some((Option::None, pos + 1))
    } else if c == 'S' {
        match parse_string(s, pos + 1) {
            Option::Some((sv, j)) => Option::Some((Option::Some(sv), j)),
            Option::None => Option::None,
        }
    } else {
        Option::None
    }
}

/// An optional number: `N`, or `S` followed by the number.
pub open spec fn spec_opt_num(o: Option<u64>) -> Seq<char> {
    match o {
        Option::None => seq!['N'],
        Option::Some(n) => seq!['S'] + spec_num(n as nat),
    }
}

pub open spec fn dec_opt_num(s: Seq<char>, i: int) -> Option<(Option<u64>, int)> {
    if 0 <= i < s.len() && s[i] == 'N' {
        Option::Some((Option::None, i + 1))
    } else if 0 <= i < s.len() && s[i] == 'S' {
        match dec_num_u64(s, i + 1) {
            Option::Some((n, j)) => Option::Some((Option::Some(n), j)),
            Option::None => Option::None,
        }
    } else {
        Option::None
    }
}

pub proof fn lemma_dec_opt_num(pre: Seq<char>, o: Option<u64>, tail: Seq<char>)
    ensures
        dec_opt_num(pre + spec_opt_num(o) + tail, pre.len() as int) == Option::Some(
            (o, pre.len() + spec_opt_num(o).len() as int),
        ),
{
    let s = pre + spec_opt_num(o) + tail;
    match o {
        Option::None => {
            assert(s[pre.len() as int] == 'N');
        },
        Option::Some(n) => {
            assert(s[pre.len() as int] == 'S');
            let pre1 = pre + seq!['S'];
            assert(s =~= pre1 + spec_num(n as nat) + tail);
            lemma_dec_num(pre1, n as nat, tail);
        },
    }
}

fn push_opt_num(out: &mut Vec<char>, o: &Option<u64>)
    ensures
        final(out)@ == old(out)@ + spec_opt_num(*o),
{
    match o {
        Option::None => {
            out.push('N');
            assert(final(out)@ =~= old(out)@ + spec_opt_num(Option::None));
        },
        Option::Some(n) => {
            out.push('S');
            push_num(out, *n);
            assert(final(out)@ =~= old(out)@ + spec_opt_num(Option::Some(*n)));
        },
    }
}

fn parse_opt_num(s: &Vec<char>, pos: usize) -> (r: Option<(Option<u64>, usize)>)
    ensures
        match r {
            Option::Some((v, j)) => dec_opt_num(s@, pos as int) == Option::Some((v, j as int))
                && pos < j <= s.len(),
            Option::None => dec_opt_num(s@, pos as int) is None,
        },
{
    if pos >= s.len() {
        return Option::None;
    }
    let c = s[pos];
    if c == 'N' {
        Option::Some((Option::None, pos + 1))
    } else if c == 'S' {
        match parse_num(s, pos + 1) {
            Option::Some((n, j)) => Option::Some((Option::Some(n), j)),
            Option::None => Option::None,
        }
    } else {
        Option::None
    }
}

// ---------------------------------------------------------------------------
// Fee breakdowns
// ---------------------------------------------------------------------------

/// A fee breakdown: its three amounts.
pub open spec fn spec_fees(f: FeesV) -> Seq<char> {
    spec_int(f.creator_fee as int) + spec_int(f.platform_fee as int) + spec_int(
        f.liquidity_fee as int,
    )
}

pub open spec fn dec_fees(s: Seq<char>, i: int) -> Option<(FeesV, int)> {
    match dec_int_i64(s, i) {
        Option::Some((a, j1)) => match dec_int_i64(s, j1) {
            Option::Some((b, j2)) => match dec_int_i64(s, j2) {
                Option::Some((c, j3)) => Option::Some(
                    (FeesV { creator_fee: a, platform_fee: b, liquidity_fee: c }, j3),
                ),
                Option::None => Option::None,
            },
            Option::None => Option::None,
        },
        Option::None => Option::None,
    }
}

pub proof fn lemma_dec_fees(pre: Seq<char>, f: FeesV, tail: Seq<char>)
    ensures
        dec_fees(pre + spec_fees(f) + tail, pre.len() as int) == Option::Some(
            (f, pre.len() + spec_fees(f).len() as int),
        ),
{
    let s = pre + spec_fees(f) + tail;
    let ea = spec_int(f.creator_fee as int);
    let eb = spec_int(f.platform_fee as int);
    let ec = spec_int(f.liquidity_fee as int);
    assert(s =~= pre + ea + (eb + ec + tail));
    lemma_dec_int(pre, f.creator_fee as int, eb + ec + tail);
    let pre1 = pre + ea;
    assert(s =~= pre1 + eb + (ec + tail));
    lemma_dec_int(pre1, f.platform_fee as int, ec + tail);
    let pre2 = pre1 + eb;
    assert(s =~= pre2 + ec + tail);
    lemma_dec_int(pre2, f.liquidity_fee as int, tail);
}

pub fn push_fees(out: &mut Vec<char>, f: &Fees)
    ensures
        final(out)@ == old(out)@ + spec_fees(f.deep_view()),
{
    push_int(out, f.creator_fee);
    push_int(out, f.platform_fee);
    push_int(out, f.liquidity_fee);
    assert(final(out)@ =~= old(out)@ + spec_fees(f.deep_view()));
}

pub fn parse_fees(s: &Vec<char>, pos: usize) -> (r: Option<(Fees, usize)>)
    ensures
        match r {
            Option::Some((v, j)) => dec_fees(s@, pos as int) == Option::Some(
                (v.deep_view(), j as int),
            ) && pos < j <= s.len(),
            Option::None => dec_fees(s@, pos as int) is None,
        },
{
    match parse_int(s, pos) {
        Option::Some((a, j1)) => match parse_int(s, j1) {
            Option::Some((b, j2)) => match parse_int(s, j2) {
                Option::Some((c, j3)) => Option::Some(
                    (Fees { creator_fee: a, platform_fee: b, liquidity_fee: c }, j3),
                ),
                Option::None => Option::None,
            },
            Option::None => Option::None,
        },
        Option::None => Option::None,
    }
}

// ---------------------------------------------------------------------------
// Fills
// ---------------------------------------------------------------------------

/// One fill: its timestamp, matched bet, amount and shares.
pub open spec fn spec_fill(f: FillV) -> Seq<char> {
    spec_num(f.timestamp as nat) + spec_opt_str(f.matched_bet_id) + spec_int(f.amount as int)
        + spec_int(f.shares as int)
}

pub open spec fn dec_fill(s: Seq<char>, i: int) -> Option<(FillV, int)> {
    match dec_num_u64(s, i) {
        Option::Some((ts, j1)) => match dec_opt_str(s, j1) {
            Option::Some((m, j2)) => match dec_int_i64(s, j2) {
                Option::Some((a, j3)) => match dec_int_i64(s, j3) {
                    Option::Some((sh, j4)) => Option::Some(
                        (FillV { timestamp: ts, matched_bet_id: m, amount: a, shares: sh }, j4),
                    ),
                    Option::None => Option::None,
                },
                Option::None => Option::None,
            },
            Option::None => Option::None,
        },
        Option::None => Option::None,
    }
}

pub proof fn lemma_dec_fill(pre: Seq<char>, f: FillV, tail: Seq<char>)
    ensures
        dec_fill(pre + spec_fill(f) + tail, pre.len() as int) == Option::Some(
            (f, pre.len() + spec_fill(f).len() as int),
        ),
{
    let s = pre + spec_fill(f) + tail;
    let e1 = spec_num(f.timestamp as nat);
    let e2 = spec_opt_str(f.matched_bet_id);
    let e3 = spec_int(f.amount as int);
    let e4 = spec_int(f.shares as int);
    assert(s =~= pre + e1 + (e2 + e3 + e4 + tail));
    lemma_dec_num(pre, f.timestamp as nat, e2 + e3 + e4 + tail);
    let pre1 = pre + e1;
    assert(s =~= pre1 + e2 + (e3 + e4 + tail));
    lemma_dec_opt_str(pre1, f.matched_bet_id, e3 + e4 + tail);
    let pre2 = pre1 + e2;
    assert(s =~= pre2 + e3 + (e4 + tail));
    lemma_dec_int(pre2, f.amount as int, e4 + tail);
    let pre3 = pre2 + e3;
    assert(s =~= pre3 + e4 + tail);
    lemma_dec_int(pre3, f.shares as int, tail);
}

fn push_fill(out: &mut Vec<char>, f: &Fill)
    ensures
        final(out)@ == old(out)@ + spec_fill(f.deep_view()),
{
    push_num(out, f.timestamp);
    push_opt_str(out, &f.matched_bet_id);
    push_int(out, f.amount);
    push_int(out, f.shares);
    assert(final(out)@ =~= old(out)@ + spec_fill(f.deep_view()));
}

fn parse_fill(s: &Vec<char>, pos: usize) -> (r: Option<(Fill, usize)>)
    ensures
        match r {
            Option::Some((v, j)) => dec_fill(s@, pos as int) == Option::Some(
                (v.deep_view(), j as int),
            ) && pos < j <= s.len(),
            Option::None => dec_fill(s@, pos as int) is None,
        },
{
    match parse_num(s, pos) {
        Option::Some((ts, j1)) => match parse_opt_str(s, j1) {
            Option::Some((m, j2)) => match parse_int(s, j2) {
                Option::Some((a, j3)) => match parse_int(s, j3) {
                    Option::Some((sh, j4)) => Option::Some(
                        (Fill { timestamp: ts, matched_bet_id: m, amount: a, shares: sh }, j4),
                    ),
                    Option::None => Option::None,
                },
                Option::None => Option::None,
            },
            Option::None => Option::None,
        },
        Option::None => Option::None,
    }
}

/// A run of fills, one after the other.
pub open spec fn spec_fills(fs: Seq<FillV>) -> Seq<char>
    decreases fs.len(),
{
    if fs.len() == 0 {
        Seq::empty()
    } else {
        spec_fill(fs[0]) + spec_fills(fs.drop_first())
    }
}

pub open spec fn dec_fills(s: Seq<char>, i: int, k: nat) -> Option<(Seq<FillV>, int)>
    decreases k,
{
    if k == 0 {
        Option::Some((Seq::empty(), i))
    } else {
        match dec_fill(s, i) {
            Option::Some((f, j)) => match dec_fills(s, j, (k - 1) as nat) {
                Option::Some((rest, j2)) => Option::Some((seq![f] + rest, j2)),
                Option::None => Option::None,
            },
            Option::None => Option::None,
        }
    }
}

pub proof fn lemma_dec_fills(pre: Seq<char>, fs: Seq<FillV>, tail: Seq<char>)
    ensures
        dec_fills(pre + spec_fills(fs) + tail, pre.len() as int, fs.len()) == Option::Some(
            (fs, pre.len() + spec_fills(fs).len() as int),
        ),
    decreases fs.len(),
{
    let s = pre + spec_fills(fs) + tail;
    if fs.len() == 0 {
        assert(s =~= pre + tail);
        assert(fs =~= Seq::<FillV>::empty());
    } else {
        let hd = fs[0];
        let rest = fs.drop_first();
        assert(s =~= pre + spec_fill(hd) + (spec_fills(rest) + tail));
        lemma_dec_fill(pre, hd, spec_fills(rest) + tail);
        let pre1 = pre + spec_fill(hd);
        assert(s =~= pre1 + spec_fills(rest) + tail);
        lemma_dec_fills(pre1, rest, tail);
        assert(seq![hd] + rest =~= fs);
    }
}

fn parse_fills(s: &Vec<char>, pos: usize, k: u64) -> (r: Option<(Vec<Fill>, usize)>)
    ensures
        match r {
            Option::Some((v, j)) => dec_fills(s@, pos as int, k as nat) == Option::Some(
                (v.deep_view(), j as int),
            ) && pos <= j && (j <= s.len() || j == pos),
            Option::None => dec_fills(s@, pos as int, k as nat) is None,
        },
    decreases k,
{
    if k == 0 {
        let v: Vec<Fill> = Vec::new();
        assert(v.deep_view() =~= Seq::<FillV>::empty());
        return Option::Some((v, pos));
    }
    match parse_fill(s, pos) {
        Option::Some((f, j)) => match parse_fills(s, j, k - 1) {
            Option::Some((mut v, j2)) => {
                v.insert(0, f);
                assert(v.deep_view() =~= seq![f.deep_view()] + v.deep_view().drop_first());
                Option::Some((v, j2))
            },
            Option::None => Option::None,
        },
        Option::None => Option::None,
    }
}

// ---------------------------------------------------------------------------
// Limit-order properties
// ---------------------------------------------------------------------------

/// Limit-order properties: amounts, the two flags, the counted fill list,
/// and the optional expiry.
pub open spec fn spec_limit_props(l: LimitPropsV) -> Seq<char> {
    spec_int(l.order_amount as int) + spec_int(l.limit_prob as int) + spec_bool(l.is_filled)
        + spec_bool(l.is_cancelled) + spec_num(l.fills.len()) + spec_fills(l.fills) + spec_opt_num(
        l.expires_at,
    )
}

pub open spec fn dec_limit_props(s: Seq<char>, i: int) -> Option<(LimitPropsV, int)> {
    match dec_int_i64(s, i) {
        Option::Some((oa, j1)) => match dec_int_i64(s, j1) {
            Option::Some((lp, j2)) => match dec_bool(s, j2) {
                Option::Some((fi, j3)) => match dec_bool(s, j3) {
                    Option::Some((ca, j4)) => match dec_num_u64(s, j4) {
                        Option::Some((k, j5)) => match dec_fills(s, j5, k as nat) {
                            Option::Some((fs, j6)) => match dec_opt_num(s, j6) {
                                Option::Some((ex, j7)) => Option::Some(
                                    (
                                        LimitPropsV {
                                            order_amount: oa,
                                            limit_prob: lp,
                                            is_filled: fi,
                                            is_cancelled: ca,
                                            fills: fs,
                                            expires_at: ex,
                                        },
                                        j7,
                                    ),
                                ),
                                Option::None => Option::None,
                            },
                            Option::None => Option::None,
                        },
                        Option::None => Option::None,
                    },
                    Option::None => Option::None,
                },
                Option::None => Option::None,
            },
            Option::None => Option::None,
        },
        Option::None => Option::None,
    }
}

/// A limit-order value the codec can hold: its fill count fits the machine.
pub open spec fn wf_limit_props(l: LimitPropsV) -> bool {
    l.fills.len() <= u64::MAX as nat
}

/// The scalar prefix of an encoded limit order decodes to its fields.
#[verifier::rlimit(100)]
proof fn lemma_dec_lp_scalars(pre: Seq<char>, l: LimitPropsV, tail: Seq<char>)
    ensures
        ({
            let s = pre + spec_limit_props(l) + tail;
            let i0 = pre.len() as int;
            let i1 = i0 + spec_int(l.order_amount as int).len() as int;
            let i2 = i1 + spec_int(l.limit_prob as int).len() as int;
            let i3 = i2 + 1;
            let i4 = i3 + 1;
            &&& dec_int_i64(s, i0) == Option::Some((l.order_amount, i1))
            &&& dec_int_i64(s, i1) == Option::Some((l.limit_prob, i2))
            &&& dec_bool(s, i2) == Option::Some((l.is_filled, i3))
            &&& dec_bool(s, i3) == Option::Some((l.is_cancelled, i4))
        }),
{
    let s = pre + spec_limit_props(l) + tail;
    let e1 = spec_int(l.order_amount as int);
    let e2 = spec_int(l.limit_prob as int);
    let e3 = spec_bool(l.is_filled);
    let e4 = spec_bool(l.is_cancelled);
    let e5 = spec_num(l.fills.len());
    let e6 = spec_fills(l.fills);
    let e7 = spec_opt_num(l.expires_at);
    assert(s =~= pre + e1 + (e2 + e3 + e4 + e5 + e6 + e7 + tail));
    lemma_dec_int(pre, l.order_amount as int, e2 + e3 + e4 + e5 + e6 + e7 + tail);
    assert(s =~= (pre + e1) + e2 + (e3 + e4 + e5 + e6 + e7 + tail));
    lemma_dec_int(pre + e1, l.limit_prob as int, e3 + e4 + e5 + e6 + e7 + tail);
    assert(s =~= (pre + e1 + e2) + e3 + (e4 + e5 + e6 + e7 + tail));
    lemma_dec_bool(pre + e1 + e2, l.is_filled, e4 + e5 + e6 + e7 + tail);
    assert(s =~= (pre + e1 + e2 + e3) + e4 + (e5 + e6 + e7 + tail));
    lemma_dec_bool(pre + e1 + e2 + e3, l.is_cancelled, e5 + e6 + e7 + tail);
}

/// The fill run and expiry of an encoded limit order decode to its fields.
#[verifier::rlimit(100)]
proof fn lemma_dec_lp_fills(pre: Seq<char>, l: LimitPropsV, tail: Seq<char>)
    requires
        wf_limit_props(l),
    ensures
        ({
            let s = pre + spec_limit_props(l) + tail;
            let i4 = pre.len() + spec_int(l.order_amount as int).len() + spec_int(
                l.limit_prob as int,
            ).len() + 2 as int;
            let i5 = i4 + spec_num(l.fills.len()).len() as int;
            let i6 = i5 + spec_fills(l.fills).len() as int;
            let i7 = i6 + spec_opt_num(l.expires_at).len() as int;
            &&& dec_num_u64(s, i4) == Option::Some((l.fills.len() as u64, i5))
            &&& dec_fills(s, i5, l.fills.len()) == Option::Some((l.fills, i6))
            &&& dec_opt_num(s, i6) == Option::Some((l.expires_at, i7))
            &&& i7 == pre.len() + spec_limit_props(l).len() as int
        }),
{
    let s = pre + spec_limit_props(l) + tail;
    let e1 = spec_int(l.order_amount as int);
    let e2 = spec_int(l.limit_prob as int);
    let e3 = spec_bool(l.is_filled);
    let e4 = spec_bool(l.is_cancelled);
    let e5 = spec_num(l.fills.len());
    let e6 = spec_fills(l.fills);
    let e7 = spec_opt_num(l.expires_at);
    assert(s =~= (pre + e1 + e2 + e3 + e4) + e5 + (e6 + e7 + tail));
    lemma_dec_num(pre + e1 + e2 + e3 + e4, l.fills.len(), e6 + e7 + tail);
    assert(s =~= (pre + e1 + e2 + e3 + e4 + e5) + e6 + (e7 + tail));
    lemma_dec_fills(pre + e1 + e2 + e3 + e4 + e5, l.fills, e7 + tail);
    assert(s =~= (pre + e1 + e2 + e3 + e4 + e5 + e6) + e7 + tail);
    lemma_dec_opt_num(pre + e1 + e2 + e3 + e4 + e5 + e6, l.expires_at, tail);
}

#[verifier::rlimit(100)]
pub proof fn lemma_dec_limit_props(pre: Seq<char>, l: LimitPropsV, tail: Seq<char>)
    requires
        wf_limit_props(l),
    ensures
        dec_limit_props(pre + spec_limit_props(l) + tail, pre.len() as int) == Option::Some(
            (l, pre.len() + spec_limit_props(l).len() as int),
        ),
{
    lemma_dec_lp_scalars(pre, l, tail);
    lemma_dec_lp_fills(pre, l, tail);
}

pub fn push_limit_props(out: &mut Vec<char>, l: &LimitProps)
    ensures
        final(out)@ == old(out)@ + spec_limit_props(l.deep_view()),
{
    push_int(out, l.order_amount);
    push_int(out, l.limit_prob);
    push_bool(out, l.is_filled);
    push_bool(out, l.is_cancelled);
    push_num(out, l.fills.len() as u64);
    let ghost mid = out@;
    let mut k: usize = 0;
    while k < l.fills.len()
        invariant
            0 <= k <= l.fills.len(),
            out@ == mid + spec_fills(l.fills.deep_view().subrange(0, k as int)),
        decreases l.fills.len() - k,
    {
        proof {
            lemma_spec_fills_snoc(l.fills.deep_view(), k as int);
        }
        push_fill(out, &l.fills[k]);
        k = k + 1;
    }
    assert(l.fills.deep_view().subrange(0, l.fills@.len() as int) =~= l.fills.deep_view());
    push_opt_num(out, &l.expires_at);
    assert(final(out)@ =~= old(out)@ + spec_limit_props(l.deep_view()));
}

/// Encoding one more element extends the run by that element's encoding.
proof fn lemma_spec_fills_snoc(fs: Seq<FillV>, k: int)
    requires
        0 <= k < fs.len(),
    ensures
        spec_fills(fs.subrange(0, k + 1)) == spec_fills(fs.subrange(0, k)) + spec_fill(fs[k]),
    decreases k,
{
    if k == 0 {
        let s1 = fs.subrange(0, 1);
        assert(fs.subrange(0, 0) =~= Seq::<FillV>::empty());
        assert(spec_fills(Seq::<FillV>::empty()) == Seq::<char>::empty());
        assert(s1.len() == 1 && s1[0] == fs[0]);
        assert(s1.drop_first() =~= Seq::<FillV>::empty());
        assert(spec_fills(s1) == spec_fill(fs[0]) + spec_fills(s1.drop_first()));
        assert(spec_fills(s1) =~= spec_fills(fs.subrange(0, 0)) + spec_fill(fs[0]));
    } else {
        lemma_spec_fills_snoc(fs.drop_first(), k - 1);
        let a = fs.subrange(0, k + 1);
        let b = fs.subrange(0, k);
        assert(a.drop_first() =~= fs.drop_first().subrange(0, k));
        assert(b.drop_first() =~= fs.drop_first().subrange(0, k - 1));
        assert(a[0] == fs[0] && b[0] == fs[0]);
        assert(fs.drop_first()[k - 1] == fs[k]);
        assert(spec_fills(a) == spec_fill(fs[0]) + spec_fills(fs.drop_first().subrange(0, k)));
        assert(spec_fills(b) == spec_fill(fs[0]) + spec_fills(fs.drop_first().subrange(0, k - 1)));
        assert(spec_fills(a) =~= spec_fills(b) + spec_fill(fs[k]));
    }
}

pub fn parse_limit_props(s: &Vec<char>, pos: usize) -> (r: Option<(LimitProps, usize)>)
    ensures
        match r {
            Option::Some((v, j)) => dec_limit_props(s@, pos as int) == Option::Some(
                (v.deep_view(), j as int),
            ) && pos < j <= s.len(),
            Option::None => dec_limit_props(s@, pos as int) is None,
        },
{
    match parse_int(s, pos) {
        Option::Some((oa, j1)) => match parse_int(s, j1) {
            Option::Some((lp, j2)) => match parse_bool(s, j2) {
                Option::Some((fi, j3)) => match parse_bool(s, j3) {
                    Option::Some((ca, j4)) => match parse_num(s, j4) {
                        Option::Some((k, j5)) => match parse_fills(s, j5, k) {
                            Option::Some((fs, j6)) => match parse_opt_num(s, j6) {
                                Option::Some((ex, j7)) => Option::Some(
                                    (
                                        LimitProps {
                                            order_amount: oa,
                                            limit_prob: lp,
                                            is_filled: fi,
                                            is_cancelled: ca,
                                            fills: fs,
                                            expires_at: ex,
                                        },
                                        j7,
                                    ),
                                ),
                                Option::None => Option::None,
                            },
                            Option::None => Option::None,
                        },
                        Option::None => Option::None,
                    },
                    Option::None => Option::None,
                },
                Option::None => Option::None,
            },
            Option::None => Option::None,
        },
        Option::None => Option::None,
    }
}

// ---------------------------------------------------------------------------
// Liquidity-pool maps
// ---------------------------------------------------------------------------

/// One pool entry: its outcome label and its share quantity.
pub open spec fn spec_pool_entry(e: PoolEntryV) -> Seq<char> {
    spec_str(e.outcome) + spec_int(e.shares as int)
}

pub open spec fn dec_pool_entry(s: Seq<char>, i: int) -> Option<(PoolEntryV, int)> {
    match dec_str(s, i) {
        Option::Some((sv, j1)) => match dec_int_i64(s, j1) {
            Option::Some((sh, j2)) => Option::Some((PoolEntryV { outcome: sv, shares: sh }, j2)),
            Option::None => Option::None,
        },
        Option::None => Option::None,
    }
}

pub proof fn lemma_dec_pool_entry(pre: Seq<char>, e: PoolEntryV, tail: Seq<char>)
    ensures
        dec_pool_entry(pre + spec_pool_entry(e) + tail, pre.len() as int) == Option::Some(
            (e, pre.len() + spec_pool_entry(e).len() as int),
        ),
{
    let s = pre + spec_pool_entry(e) + tail;
    let e1 = spec_str(e.outcome);
    let e2 = spec_int(e.shares as int);
    assert(s =~= pre + e1 + (e2 + tail));
    lemma_dec_str(pre, e.outcome, e2 + tail);
    assert(s =~= (pre + e1) + e2 + tail);
    lemma_dec_int(pre + e1, e.shares as int, tail);
}

fn push_pool_entry(out: &mut Vec<char>, e: &PoolEntry)
    ensures
        final(out)@ == old(out)@ + spec_pool_entry(e.deep_view()),
{
    push_str(out, e.outcome.as_str());
    push_int(out, e.shares);
    assert(final(out)@ =~= old(out)@ + spec_pool_entry(e.deep_view()));
}

fn parse_pool_entry(s: &Vec<char>, pos: usize) -> (r: Option<(PoolEntry, usize)>)
    ensures
        match r {
            Option::Some((v, j)) => dec_pool_entry(s@, pos as int) == Option::Some(
                (v.deep_view(), j as int),
            ) && pos < j <= s.len(),
            Option::None => dec_pool_entry(s@, pos as int) is None,
        },
{
    match parse_string(s, pos) {
        Option::Some((sv, j1)) => match parse_int(s, j1) {
            Option::Some((sh, j2)) => Option::Some((PoolEntry { outcome: sv, shares: sh }, j2)),
            Option::None => Option::None,
        },
        Option::None => Option::None,
    }
}

/// A run of pool entries, one after the other.
pub open spec fn spec_pool_entries(es: Seq<PoolEntryV>) -> Seq<char>
    decreases es.len(),
{
    if es.len() == 0 {
        Seq::empty()
    } else {
        spec_pool_entry(es[0]) + spec_pool_entries(es.drop_first())
    }
}

pub open spec fn dec_pool_entries(s: Seq<char>, i: int, k: nat) -> Option<(Seq<PoolEntryV>, int)>
    decreases k,
{
    if k == 0 {
        Option::Some((Seq::empty(), i))
    } else {
        match dec_pool_entry(s, i) {
            Option::Some((e, j)) => match dec_pool_entries(s, j, (k - 1) as nat) {
                Option::Some((rest, j2)) => Option::Some((seq![e] + rest, j2)),
                Option::None => Option::None,
            },
            Option::None => Option::None,
        }
    }
}

pub proof fn lemma_dec_pool_entries(pre: Seq<char>, es: Seq<PoolEntryV>, tail: Seq<char>)
    ensures
        dec_pool_entries(pre + spec_pool_entries(es) + tail, pre.len() as int, es.len())
            == Option::Some((es, pre.len() + spec_pool_entries(es).len() as int)),
    decreases es.len(),
{
    let s = pre + spec_pool_entries(es) + tail;
    if es.len() == 0 {
        assert(s =~= pre + tail);
        assert(es =~= Seq::<PoolEntryV>::empty());
    } else {
        let hd = es[0];
        let rest = es.drop_first();
        assert(s =~= pre + spec_pool_entry(hd) + (spec_pool_entries(rest) + tail));
        lemma_dec_pool_entry(pre, hd, spec_pool_entries(rest) + tail);
        let pre1 = pre + spec_pool_entry(hd);
        assert(s =~= pre1 + spec_pool_entries(rest) + tail);
        lemma_dec_pool_entries(pre1, rest, tail);
        assert(seq![hd] + rest =~= es);
    }
}

/// Encoding one more entry extends the run by that entry's encoding.
proof fn lemma_spec_pool_entries_snoc(es: Seq<PoolEntryV>, k: int)
    requires
        0 <= k < es.len(),
    ensures
        spec_pool_entries(es.subrange(0, k + 1)) == spec_pool_entries(es.subrange(0, k))
            + spec_pool_entry(es[k]),
    decreases k,
{
    if k == 0 {
        let s1 = es.subrange(0, 1);
        assert(es.subrange(0, 0) =~= Seq::<PoolEntryV>::empty());
        assert(spec_pool_entries(Seq::<PoolEntryV>::empty()) == Seq::<char>::empty());
        assert(s1.len() == 1 && s1[0] == es[0]);
        assert(s1.drop_first() =~= Seq::<PoolEntryV>::empty());
        assert(spec_pool_entries(s1) == spec_pool_entry(es[0]) + spec_pool_entries(
            s1.drop_first(),
        ));
        assert(spec_pool_entries(s1) =~= spec_pool_entries(es.subrange(0, 0)) + spec_pool_entry(
            es[0],
        ));
    } else {
        lemma_spec_pool_entries_snoc(es.drop_first(), k - 1);
        let a = es.subrange(0, k + 1);
        let b = es.subrange(0, k);
        assert(a.drop_first() =~= es.drop_first().subrange(0, k));
        assert(b.drop_first() =~= es.drop_first().subrange(0, k - 1));
        assert(a[0] == es[0] && b[0] == es[0]);
        assert(es.drop_first()[k - 1] == es[k]);
        assert(spec_pool_entries(a) == spec_pool_entry(es[0]) + spec_pool_entries(
            es.drop_first().subrange(0, k),
        ));
        assert(spec_pool_entries(b) == spec_pool_entry(es[0]) + spec_pool_entries(
            es.drop_first().subrange(0, k - 1),
        ));
        assert(spec_pool_entries(a) =~= spec_pool_entries(b) + spec_pool_entry(es[k]));
    }
}

/// A pool map: its entry count, then its entries, in their stored order.
pub open spec fn spec_pool(es: Seq<PoolEntryV>) -> Seq<char> {
    spec_num(es.len()) + spec_pool_entries(es)
}

pub open spec fn dec_pool(s: Seq<char>, i: int) -> Option<(Seq<PoolEntryV>, int)> {
    match dec_num_u64(s, i) {
        Option::Some((k, j)) => dec_pool_entries(s, j, k as nat),
        Option::None => Option::None,
    }
}

pub proof fn lemma_dec_pool(pre: Seq<char>, es: Seq<PoolEntryV>, tail: Seq<char>)
    requires
        es.len() <= u64::MAX as nat,
    ensures
        dec_pool(pre + spec_pool(es) + tail, pre.len() as int) == Option::Some(
            (es, pre.len() + spec_pool(es).len() as int),
        ),
{
    let s = pre + spec_pool(es) + tail;
    let e1 = spec_num(es.len());
    let e2 = spec_pool_entries(es);
    assert(s =~= pre + e1 + (e2 + tail));
    lemma_dec_num(pre, es.len(), e2 + tail);
    assert(s =~= (pre + e1) + e2 + tail);
    lemma_dec_pool_entries(pre + e1, es, tail);
}

/// Encodes a pool map.
pub fn push_pool(out: &mut Vec<char>, es: &Vec<PoolEntry>)
    ensures
        final(out)@ == old(out)@ + spec_pool(es.deep_view()),
{
    push_num(out, es.len() as u64);
    let ghost mid = out@;
    let mut k: usize = 0;
    while k < es.len()
        invariant
            0 <= k <= es.len(),
            out@ == mid + spec_pool_entries(es.deep_view().subrange(0, k as int)),
        decreases es.len() - k,
    {
        proof {
            lemma_spec_pool_entries_snoc(es.deep_view(), k as int);
        }
        push_pool_entry(out, &es[k]);
        k = k + 1;
    }
    assert(es.deep_view().subrange(0, es@.len() as int) =~= es.deep_view());
    assert(final(out)@ =~= old(out)@ + spec_pool(es.deep_view()));
}

/// Decodes exactly `k` pool entries.
fn parse_pool_entries(s: &Vec<char>, pos: usize, k: u64) -> (r: Option<(Vec<PoolEntry>, usize)>)
    ensures
        match r {
            Option::Some((v, j)) => dec_pool_entries(s@, pos as int, k as nat) == Option::Some(
                (v.deep_view(), j as int),
            ) && pos <= j && (j <= s.len() || j == pos),
            Option::None => dec_pool_entries(s@, pos as int, k as nat) is None,
        },
    decreases k,
{
    if k == 0 {
        let v: Vec<PoolEntry> = Vec::new();
        assert(v.deep_view() =~= Seq::<PoolEntryV>::empty());
        return Option::Some((v, pos));
    }
    match parse_pool_entry(s, pos) {
        Option::Some((e, j)) => match parse_pool_entries(s, j, k - 1) {
            Option::Some((mut v, j2)) => {
                v.insert(0, e);
                assert(v.deep_view() =~= seq![e.deep_view()] + v.deep_view().drop_first());
                Option::Some((v, j2))
            },
            Option::None => Option::None,
        },
        Option::None => Option::None,
    }
}

/// Decodes a pool map.
pub fn parse_pool(s: &Vec<char>, pos: usize) -> (r: Option<(Vec<PoolEntry>, usize)>)
    ensures
        match r {
            Option::Some((v, j)) => dec_pool(s@, pos as int) == Option::Some(
                (v.deep_view(), j as int),
            ) && pos <= j && (j <= s.len() || j == pos),
            Option::None => dec_pool(s@, pos as int) is None,
        },
{
    match parse_num(s, pos) {
        Option::Some((k, j)) => parse_pool_entries(s, j, k),
        Option::None => Option::None,
    }
}

// ---------------------------------------------------------------------------
// Cached-profit maps
// ---------------------------------------------------------------------------

/// The period of a stored tag, if the tag is recognized.
pub open spec fn period_from_tag(sv: Seq<char>) -> Option<TimePeriod> {
    if sv == TimePeriod::Daily.tag() {
        Option::Some(TimePeriod::Daily)
    } else if sv == TimePeriod::Weekly.tag() {
        Option::Some(TimePeriod::Weekly)
    } else if sv == TimePeriod::Monthly.tag() {
        Option::Some(TimePeriod::Monthly)
    } else if sv == TimePeriod::AllTime.tag() {
        Option::Some(TimePeriod::AllTime)
    } else {
        Option::None
    }
}

/// Every period is recovered from its own tag.
pub proof fn lemma_period_tag_round_trip(p: TimePeriod)
    ensures
        period_from_tag(p.tag()) == Option::Some(p),
{
    broadcast use vstd::string::group_string_axioms;

    reveal_strlit("daily");
    reveal_strlit("weekly");
    reveal_strlit("monthly");
    reveal_strlit("allTime");
    assert("daily"@.len() == 5 && "weekly"@.len() == 6 && "monthly"@.len() == 7 && "allTime"@.len()
        == 7);
    match p {
        TimePeriod::Daily => {
            assert(period_from_tag("daily"@) == Option::Some(TimePeriod::Daily));
        },
        TimePeriod::Weekly => {
            assert("weekly"@ != "daily"@);
            assert(period_from_tag("weekly"@) == Option::Some(TimePeriod::Weekly));
        },
        TimePeriod::Monthly => {
            assert("monthly"@ != "daily"@ && "monthly"@ != "weekly"@);
            assert(period_from_tag("monthly"@) == Option::Some(TimePeriod::Monthly));
        },
        TimePeriod::AllTime => {
            assert("allTime"@ != "daily"@ && "allTime"@ != "weekly"@);
            assert("allTime"@[0] != "monthly"@[0]);
            assert(period_from_tag("allTime"@) == Option::Some(TimePeriod::AllTime));
        },
    }
}

fn period_to_tag(p: TimePeriod) -> (r: String)
    ensures
        r@ == p.tag(),
{
    match p {
        TimePeriod::Daily => String::from_str("daily"),
        TimePeriod::Weekly => String::from_str("weekly"),
        TimePeriod::Monthly => String::from_str("monthly"),
        TimePeriod::AllTime => String::from_str("allTime"),
    }
}

fn period_of_tag(s: &String) -> (r: Option<TimePeriod>)
    ensures
        r == period_from_tag(s@),
{
    if string_eq_lit(s, "daily") {
        Option::Some(TimePeriod::Daily)
    } else if string_eq_lit(s, "weekly") {
        Option::Some(TimePeriod::Weekly)
    } else if string_eq_lit(s, "monthly") {
        Option::Some(TimePeriod::Monthly)
    } else if string_eq_lit(s, "allTime") {
        Option::Some(TimePeriod::AllTime)
    } else {
        Option::None
    }
}

/// One profit entry: its period tag and its cached amount.
pub open spec fn spec_profit_entry(e: ProfitEntryV) -> Seq<char> {
    spec_str(e.period.tag()) + spec_int(e.profit as int)
}

pub open spec fn dec_profit_entry(s: Seq<char>, i: int) -> Option<(ProfitEntryV, int)> {
    match dec_str(s, i) {
        Option::Some((sv, j1)) => match period_from_tag(sv) {
            Option::Some(p) => match dec_int_i64(s, j1) {
                Option::Some((v, j2)) => Option::Some((ProfitEntryV { period: p, profit: v }, j2)),
                Option::None => Option::None,
            },
            Option::None => Option::None,
        },
        Option::None => Option::None,
    }
}

pub proof fn lemma_dec_profit_entry(pre: Seq<char>, e: ProfitEntryV, tail: Seq<char>)
    ensures
        dec_profit_entry(pre + spec_profit_entry(e) + tail, pre.len() as int) == Option::Some(
            (e, pre.len() + spec_profit_entry(e).len() as int),
        ),
{
    let s = pre + spec_profit_entry(e) + tail;
    let e1 = spec_str(e.period.tag());
    let e2 = spec_int(e.profit as int);
    assert(s =~= pre + e1 + (e2 + tail));
    lemma_dec_str(pre, e.period.tag(), e2 + tail);
    lemma_period_tag_round_trip(e.period);
    assert(s =~= (pre + e1) + e2 + tail);
    lemma_dec_int(pre + e1, e.profit as int, tail);
}

fn push_profit_entry(out: &mut Vec<char>, e: &ProfitEntry)
    ensures
        final(out)@ == old(out)@ + spec_profit_entry(e.deep_view()),
{
    let tag = period_to_tag(e.period);
    push_str(out, tag.as_str());
    push_int(out, e.profit);
    assert(final(out)@ =~= old(out)@ + spec_profit_entry(e.deep_view()));
}

fn parse_profit_entry(s: &Vec<char>, pos: usize) -> (r: Option<(ProfitEntry, usize)>)
    ensures
        match r {
            Option::Some((v, j)) => dec_profit_entry(s@, pos as int) == Option::Some(
                (v.deep_view(), j as int),
            ) && pos < j <= s.len(),
            Option::None => dec_profit_entry(s@, pos as int) is None,
        },
{
    match parse_string(s, pos) {
        Option::Some((sv, j1)) => match period_of_tag(&sv) {
            Option::Some(p) => match parse_int(s, j1) {
                Option::Some((v, j2)) => Option::Some((ProfitEntry { period: p, profit: v }, j2)),
                Option::None => Option::None,
            },
            Option::None => Option::None,
        },
        Option::None => Option::None,
    }
}

/// A run of profit entries, one after the other.
pub open spec fn spec_profit_entries(es: Seq<ProfitEntryV>) -> Seq<char>
    decreases es.len(),
{
    if es.len() == 0 {
        Seq::empty()
    } else {
        spec_profit_entry(es[0]) + spec_profit_entries(es.drop_first())
    }
}

pub open spec fn dec_profit_entries(s: Seq<char>, i: int, k: nat) -> Option<
    (Seq<ProfitEntryV>, int),
>
    decreases k,
{
    if k == 0 {
        Option::Some((Seq::empty(), i))
    } else {
        match dec_profit_entry(s, i) {
            Option::Some((e, j)) => match dec_profit_entries(s, j, (k - 1) as nat) {
                Option::Some((rest, j2)) => Option::Some((seq![e] + rest, j2)),
                Option::None => Option::None,
            },
            Option::None => Option::None,
        }
    }
}

pub proof fn lemma_dec_profit_entries(pre: Seq<char>, es: Seq<ProfitEntryV>, tail: Seq<char>)
    ensures
        dec_profit_entries(pre + spec_profit_entries(es) + tail, pre.len() as int, es.len())
            == Option::Some((es, pre.len() + spec_profit_entries(es).len() as int)),
    decreases es.len(),
{
    let s = pre + spec_profit_entries(es) + tail;
    if es.len() == 0 {
        assert(s =~= pre + tail);
        assert(es =~= Seq::<ProfitEntryV>::empty());
    } else {
        let hd = es[0];
        let rest = es.drop_first();
        assert(s =~= pre + spec_profit_entry(hd) + (spec_profit_entries(rest) + tail));
        lemma_dec_profit_entry(pre, hd, spec_profit_entries(rest) + tail);
        let pre1 = pre + spec_profit_entry(hd);
        assert(s =~= pre1 + spec_profit_entries(rest) + tail);
        lemma_dec_profit_entries(pre1, rest, tail);
        assert(seq![hd] + rest =~= es);
    }
}

/// Encoding one more entry extends the run by that entry's encoding.
proof fn lemma_spec_profit_entries_snoc(es: Seq<ProfitEntryV>, k: int)
    requires
        0 <= k < es.len(),
    ensures
        spec_profit_entries(es.subrange(0, k + 1)) == spec_profit_entries(es.subrange(0, k))
            + spec_profit_entry(es[k]),
    decreases k,
{
    if k == 0 {
        let s1 = es.subrange(0, 1);
        assert(es.subrange(0, 0) =~= Seq::<ProfitEntryV>::empty());
        assert(spec_profit_entries(Seq::<ProfitEntryV>::empty()) == Seq::<char>::empty());
        assert(s1.len() == 1 && s1[0] == es[0]);
        assert(s1.drop_first() =~= Seq::<ProfitEntryV>::empty());
        assert(spec_profit_entries(s1) == spec_profit_entry(es[0]) + spec_profit_entries(
            s1.drop_first(),
        ));
        assert(spec_profit_entries(s1) =~= spec_profit_entries(es.subrange(0, 0))
            + spec_profit_entry(es[0]));
    } else {
        lemma_spec_profit_entries_snoc(es.drop_first(), k - 1);
        let a = es.subrange(0, k + 1);
        let b = es.subrange(0, k);
        assert(a.drop_first() =~= es.drop_first().subrange(0, k));
        assert(b.drop_first() =~= es.drop_first().subrange(0, k - 1));
        assert(a[0] == es[0] && b[0] == es[0]);
        assert(es.drop_first()[k - 1] == es[k]);
        assert(spec_profit_entries(a) == spec_profit_entry(es[0]) + spec_profit_entries(
            es.drop_first().subrange(0, k),
        ));
        assert(spec_profit_entries(b) == spec_profit_entry(es[0]) + spec_profit_entries(
            es.drop_first().subrange(0, k - 1),
        ));
        assert(spec_profit_entries(a) =~= spec_profit_entries(b) + spec_profit_entry(es[k]));
    }
}

/// A cached-profit map: its entry count, then its entries, in their stored
/// order.
pub open spec fn spec_profit(es: Seq<ProfitEntryV>) -> Seq<char> {
    spec_num(es.len()) + spec_profit_entries(es)
}

pub open spec fn dec_profit(s: Seq<char>, i: int) -> Option<(Seq<ProfitEntryV>, int)> {
    match dec_num_u64(s, i) {
        Option::Some((k, j)) => dec_profit_entries(s, j, k as nat),
        Option::None => Option::None,
    }
}

pub proof fn lemma_dec_profit(pre: Seq<char>, es: Seq<ProfitEntryV>, tail: Seq<char>)
    requires
        es.len() <= u64::MAX as nat,
    ensures
        dec_profit(pre + spec_profit(es) + tail, pre.len() as int) == Option::Some(
            (es, pre.len() + spec_profit(es).len() as int),
        ),
{
    let s = pre + spec_profit(es) + tail;
    let e1 = spec_num(es.len());
    let e2 = spec_profit_entries(es);
    assert(s =~= pre + e1 + (e2 + tail));
    lemma_dec_num(pre, es.len(), e2 + tail);
    assert(s =~= (pre + e1) + e2 + tail);
    lemma_dec_profit_entries(pre + e1, es, tail);
}

/// Encodes a cached-profit map.
pub fn push_profit(out: &mut Vec<char>, es: &Vec<ProfitEntry>)
    ensures
        final(out)@ == old(out)@ + spec_profit(es.deep_view()),
{
    push_num(out, es.len() as u64);
    let ghost mid = out@;
    let mut k: usize = 0;
    while k < es.len()
        invariant
            0 <= k <= es.len(),
            out@ == mid + spec_profit_entries(es.deep_view().subrange(0, k as int)),
        decreases es.len() - k,
    {
        proof {
            lemma_spec_profit_entries_snoc(es.deep_view(), k as int);
        }
        push_profit_entry(out, &es[k]);
        k = k + 1;
    }
    assert(es.deep_view().subrange(0, es@.len() as int) =~= es.deep_view());
    assert(final(out)@ =~= old(out)@ + spec_profit(es.deep_view()));
}

/// Decodes exactly `k` profit entries.
fn parse_profit_entries(s: &Vec<char>, pos: usize, k: u64) -> (r: Option<
    (Vec<ProfitEntry>, usize),
>)
    ensures
        match r {
            Option::Some((v, j)) => dec_profit_entries(s@, pos as int, k as nat) == Option::Some(
                (v.deep_view(), j as int),
            ) && pos <= j && (j <= s.len() || j == pos),
            Option::None => dec_profit_entries(s@, pos as int, k as nat) is None,
        },
    decreases k,
{
    if k == 0 {
        let v: Vec<ProfitEntry> = Vec::new();
        assert(v.deep_view() =~= Seq::<ProfitEntryV>::empty());
        return Option::Some((v, pos));
    }
    match parse_profit_entry(s, pos) {
        Option::Some((e, j)) => match parse_profit_entries(s, j, k - 1) {
            Option::Some((mut v, j2)) => {
                v.insert(0, e);
                assert(v.deep_view() =~= seq![e.deep_view()] + v.deep_view().drop_first());
                Option::Some((v, j2))
            },
            Option::None => Option::None,
        },
        Option::None => Option::None,
    }
}

/// Decodes a cached-profit map.
pub fn parse_profit(s: &Vec<char>, pos: usize) -> (r: Option<(Vec<ProfitEntry>, usize)>)
    ensures
        match r {
            Option::Some((v, j)) => dec_profit(s@, pos as int) == Option::Some(
                (v.deep_view(), j as int),
            ) && pos <= j && (j <= s.len() || j == pos),
            Option::None => dec_profit(s@, pos as int) is None,
        },
{
    match parse_num(s, pos) {
        Option::Some((k, j)) => parse_profit_entries(s, j, k),
        Option::None => Option::None,
    }
}

} // verus!

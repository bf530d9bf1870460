//! The canonical textual form that nested sub-objects are folded into before
//! they are stored in a single text column, and its inverse.
//!
//! Every encoded value is self-delimiting: a number is its decimal digits
//! closed by `;`, a string is its length followed by its characters, an
//! optional value opens with `S` or is the single character `N`, and a list
//! opens with its length. Decoding consumes exactly what encoding produced,
//! which is what the round-trip lemmas state.

use vstd::prelude::*;

verus! {

// ---------------------------------------------------------------------------
// Digits
// ---------------------------------------------------------------------------

pub open spec fn is_digit(c: char) -> bool {
    c == '0' || c == '1' || c == '2' || c == '3' || c == '4' || c == '5' || c == '6' || c == '7'
        || c == '8' || c == '9'
}

pub open spec fn digit_char(d: int) -> char {
    if d == 0 {
        '0'
    } else if d == 1 {
        '1'
    } else if d == 2 {
        '2'
    } else if d == 3 {
        '3'
    } else if d == 4 {
        '4'
    } else if d == 5 {
        '5'
    } else if d == 6 {
        '6'
    } else if d == 7 {
        '7'
    } else if d == 8 {
        '8'
    } else {
        '9'
    }
}

pub open spec fn digit_val(c: char) -> int {
    if c == '0' {
        0
    } else if c == '1' {
        1
    } else if c == '2' {
        2
    } else if c == '3' {
        3
    } else if c == '4' {
        4
    } else if c == '5' {
        5
    } else if c == '6' {
        6
    } else if c == '7' {
        7
    } else if c == '8' {
        8
    } else {
        9
    }
}

/// The decimal digits of `n`, most significant first.
pub open spec fn spec_digits(n: nat) -> Seq<char>
    decreases n,
{
    if n < 10 {
        seq![digit_char(n as int)]
    } else {
        spec_digits(n / 10) + seq![digit_char((n % 10) as int)]
    }
}

/// A number in canonical form: its digits closed by `;`.
pub open spec fn spec_num(n: nat) -> Seq<char> {
    spec_digits(n) + seq![';']
}

/// Scans digits from position `i`, folding them onto `acc`, until the
/// closing `;`.
pub open spec fn dec_digits(s: Seq<char>, i: int, acc: nat) -> Option<(nat, int)>
    decreases s.len() - i,
{
    if i < 0 || i >= s.len() {
        Option::None
    } else if is_digit(s[i]) {
        dec_digits(s, i + 1, acc * 10 + digit_val(s[i]) as nat)
    } else if s[i] == ';' {
        Option::Some((acc, i + 1))
    } else {
        Option::None
    }
}

/// Decodes a number at position `i`: at least one digit, then `;`.
pub open spec fn dec_num(s: Seq<char>, i: int) -> Option<(nat, int)> {
    if 0 <= i < s.len() && is_digit(s[i]) {
        dec_digits(s, i, 0)
    } else {
        Option::None
    }
}

pub open spec fn pow10(k: nat) -> nat
    decreases k,
{
    if k == 0 {
        1
    } else {
        10 * pow10((k - 1) as nat)
    }
}

pub proof fn lemma_digits_shape(n: nat)
    ensures
        spec_digits(n).len() >= 1,
        forall|j: int| 0 <= j < spec_digits(n).len() ==> is_digit(#[trigger] spec_digits(n)[j]),
    decreases n,
{
    if n >= 10 {
        lemma_digits_shape(n / 10);
    }
}

/// Scanning past the digits of `n` multiplies the accumulator by the matching
/// power of ten and adds `n`.
proof fn lemma_dec_digits_scan(s: Seq<char>, i: int, acc: nat, n: nat)
    requires
        0 <= i,
        i + spec_digits(n).len() <= s.len(),
        s.subrange(i, i + spec_digits(n).len() as int) == spec_digits(n),
    ensures
        dec_digits(s, i, acc) == dec_digits(
            s,
            i + spec_digits(n).len() as int,
            acc * pow10(spec_digits(n).len() as nat) + n,
        ),
    decreases n,
{
    lemma_digits_shape(n);
    let ds = spec_digits(n);
    if n < 10 {
        assert(s[i] == ds[0]);
        assert(is_digit(s[i]) && digit_val(s[i]) == n);
        assert(acc * pow10(1) + n == acc * 10 + n) by {
            assert(pow10(0) == 1);
            assert(pow10(1) == 10);
        }
    } else {
        let hd = spec_digits(n / 10);
        let k = hd.len() as int;
        assert(ds == hd + seq![digit_char((n % 10) as int)]);
        assert(s.subrange(i, i + k) == hd) by {
            assert forall|j: int| 0 <= j < k implies s.subrange(i, i + k)[j] == hd[j] by {
                assert(s[i + j] == ds[j]);
            }
            assert(s.subrange(i, i + k) =~= hd);
        }
        lemma_dec_digits_scan(s, i, acc, n / 10);
        let acc1 = acc * pow10(hd.len() as nat) + n / 10;
        assert(s[i + k] == ds[k]);
        assert(is_digit(s[i + k]) && digit_val(s[i + k]) == n % 10);
        assert(dec_digits(s, i + k, acc1) == dec_digits(s, i + k + 1, acc1 * 10 + (n % 10)));
        assert(acc1 * 10 + (n % 10) == acc * pow10(ds.len() as nat) + n) by {
            assert(pow10(ds.len() as nat) == 10 * pow10(hd.len() as nat));
            assert((acc * pow10(hd.len() as nat) + n / 10) * 10 == acc * (10 * pow10(
                hd.len() as nat,
            )) + (n / 10) * 10) by (nonlinear_arith);
            assert((n / 10) * 10 + n % 10 == n) by (nonlinear_arith);
        }
    }
}

/// Round trip for numbers: decoding at the start of an encoded number yields
/// that number and stops right after its `;`.
pub proof fn lemma_dec_num(pre: Seq<char>, n: nat, tail: Seq<char>)
    ensures
        dec_num(pre + spec_num(n) + tail, pre.len() as int) == Option::Some(
            (n, pre.len() + spec_num(n).len() as int),
        ),
{
    let s = pre + spec_num(n) + tail;
    let i = pre.len() as int;
    let ds = spec_digits(n);
    lemma_digits_shape(n);
    assert(s.subrange(i, i + ds.len() as int) =~= ds);
    assert(is_digit(s[i])) by {
        assert(s[i] == ds[0]);
    }
    lemma_dec_digits_scan(s, i, 0, n);
    assert(0 * pow10(ds.len() as nat) + n == n);
    let j = i + ds.len() as int;
    assert(s[j] == ';');
    assert(dec_digits(s, j, n) == Option::Some((n, j + 1)));
}

/// The folded value only ever grows while scanning.
proof fn lemma_dec_digits_ge_acc(s: Seq<char>, i: int, acc: nat)
    ensures
        match dec_digits(s, i, acc) {
            Option::Some((v, _)) => v >= acc,
            Option::None => true,
        },
    decreases s.len() - i,
{
    if 0 <= i < s.len() && is_digit(s[i]) {
        let acc2 = acc * 10 + digit_val(s[i]) as nat;
        assert(acc2 >= acc);
        lemma_dec_digits_ge_acc(s, i + 1, acc2);
    }
}

/// A successful scan always lands past where it started and inside the text.
proof fn lemma_dec_digits_bounds(s: Seq<char>, i: int, acc: nat)
    ensures
        match dec_digits(s, i, acc) {
            Option::Some((_, j)) => i < j <= s.len(),
            Option::None => true,
        },
    decreases s.len() - i,
{
    if 0 <= i < s.len() && is_digit(s[i]) {
        lemma_dec_digits_bounds(s, i + 1, acc * 10 + digit_val(s[i]) as nat);
    }
}

// ---------------------------------------------------------------------------
// Executable digit primitives
// ---------------------------------------------------------------------------

fn digit_of(d: u64) -> (c: char)
    requires
        d < 10,
    ensures
        c == digit_char(d as int),
{
    if d == 0 {
        '0'
    } else if d == 1 {
        '1'
    } else if d == 2 {
        '2'
    } else if d == 3 {
        '3'
    } else if d == 4 {
        '4'
    } else if d == 5 {
        '5'
    } else if d == 6 {
        '6'
    } else if d == 7 {
        '7'
    } else if d == 8 {
        '8'
    } else {
        '9'
    }
}

fn digit_of_char(c: char) -> (r: Option<u64>)
    ensures
        match r {
            Option::Some(d) => is_digit(c) && d == digit_val(c) && d < 10,
            Option::None => !is_digit(c),
        },
{
    if c == '0' {
        Option::Some(0)
    } else if c == '1' {
        Option::Some(1)
    } else if c == '2' {
        Option::Some(2)
    } else if c == '3' {
        Option::Some(3)
    } else if c == '4' {
        Option::Some(4)
    } else if c == '5' {
        Option::Some(5)
    } else if c == '6' {
        Option::Some(6)
    } else if c == '7' {
        Option::Some(7)
    } else if c == '8' {
        Option::Some(8)
    } else if c == '9' {
        Option::Some(9)
    } else {
        Option::None
    }
}

/// Appends the decimal digits of `n`.
fn push_digits(out: &mut Vec<char>, n: u64)
    ensures
        final(out)@ == old(out)@ + spec_digits(n as nat),
    decreases n,
{
    if n < 10 {
        out.push(digit_of(n));
        assert(out@ =~= old(out)@ + spec_digits(n as nat));
    } else {
        push_digits(out, n / 10);
        out.push(digit_of(n % 10));
        assert(out@ =~= old(out)@ + spec_digits(n as nat));
    }
}

/// Appends a number in canonical form.
pub fn push_num(out: &mut Vec<char>, n: u64)
    ensures
        final(out)@ == old(out)@ + spec_num(n as nat),
{
    push_digits(out, n);
    out.push(';');
    assert(out@ =~= old(out)@ + spec_num(n as nat));
}

/// What the executable number parser returns: the decoded number when it
/// fits the machine, nothing otherwise.
pub open spec fn dec_num_u64(s: Seq<char>, i: int) -> Option<(u64, int)> {
    match dec_num(s, i) {
        Option::Some((v, j)) => if v <= u64::MAX as nat {
            Option::Some((v as u64, j))
        } else {
            Option::None
        },
        Option::None => Option::None,
    }
}

/// Parses a number at `pos`.
pub fn parse_num(s: &Vec<char>, pos: usize) -> (r: Option<(u64, usize)>)
    ensures
        match r {
            Option::Some((v, j)) => dec_num_u64(s@, pos as int) == Option::Some((v, j as int))
                && pos < j <= s.len(),
            Option::None => dec_num_u64(s@, pos as int) is None,
        },
{
    if pos >= s.len() {
        return Option::None;
    }
    let first = s[pos];
    if digit_of_char(first).is_none() {
        return Option::None;
    }
    let mut i: usize = pos;
    let mut acc: u64 = 0;
    loop
        invariant
            pos <= i <= s.len(),
            dec_digits(s@, pos as int, 0) == dec_digits(s@, i as int, acc as nat),
            0 <= pos < s.len(),
            is_digit(s@[pos as int]),
        decreases s.len() - i,
    {
        if i >= s.len() {
            return Option::None;
        }
        let c = s[i];
        match digit_of_char(c) {
            Option::Some(d) => {
                if acc > (u64::MAX - d) / 10 {
                    proof {
                        assert(acc * 10 + d > u64::MAX);
                        lemma_dec_digits_ge_acc(s@, i + 1, (acc * 10 + digit_val(c)) as nat);
                    }
                    return Option::None;
                }
                acc = acc * 10 + d;
                i = i + 1;
            },
            Option::None => {
                if c == ';' {
                    assert(dec_digits(s@, i as int, acc as nat) == Option::Some(
                        (acc as nat, i + 1),
                    ));
                    return Option::Some((acc, i + 1));
                } else {
                    assert(dec_digits(s@, i as int, acc as nat) is None);
                    return Option::None;
                }
            },
        }
    }
}

// ---------------------------------------------------------------------------
// Signed numbers
// ---------------------------------------------------------------------------

/// A signed number: a minus sign when negative, then the magnitude.
pub open spec fn spec_int(v: int) -> Seq<char> {
    if v >= 0 {
        spec_num(v as nat)
    } else {
        seq!['-'] + spec_num((-v) as nat)
    }
}

pub open spec fn dec_int(s: Seq<char>, i: int) -> Option<(int, int)> {
    if 0 <= i < s.len() && s[i] == '-' {
        match dec_num(s, i + 1) {
            Option::Some((n, j)) => Option::Some((-(n as int), j)),
            Option::None => Option::None,
        }
    } else {
        match dec_num(s, i) {
            Option::Some((n, j)) => Option::Some((n as int, j)),
            Option::None => Option::None,
        }
    }
}

pub proof fn lemma_dec_int(pre: Seq<char>, v: int, tail: Seq<char>)
    ensures
        dec_int(pre + spec_int(v) + tail, pre.len() as int) == Option::Some(
            (v, pre.len() + spec_int(v).len() as int),
        ),
{
    let s = pre + spec_int(v) + tail;
    let i = pre.len() as int;
    if v >= 0 {
        assert(s =~= pre + spec_num(v as nat) + tail);
        lemma_dec_num(pre, v as nat, tail);
        lemma_digits_shape(v as nat);
        assert(s[i] == spec_num(v as nat)[0]);
        assert(is_digit(s[i]));
        assert(s[i] != '-');
    } else {
        assert(s[i] == '-');
        let pre1 = pre + seq!['-'];
        assert(s =~= pre1 + spec_num((-v) as nat) + tail);
        lemma_dec_num(pre1, (-v) as nat, tail);
    }
}

/// What the executable signed parser returns: the decoded value when it fits
/// the machine, nothing otherwise.
pub open spec fn dec_int_i64(s: Seq<char>, i: int) -> Option<(i64, int)> {
    match dec_int(s, i) {
        Option::Some((v, j)) => if i64::MIN <= v <= i64::MAX {
            Option::Some((v as i64, j))
        } else {
            Option::None
        },
        Option::None => Option::None,
    }
}

/// Appends a signed number in canonical form.
pub fn push_int(out: &mut Vec<char>, v: i64)
    ensures
        final(out)@ == old(out)@ + spec_int(v as int),
{
    if v >= 0 {
        push_num(out, v as u64);
    } else {
        out.push('-');
        let mag: u64 = if v == i64::MIN {
            i64::MAX as u64 + 1
        } else {
            (-v) as u64
        };
        assert(mag as nat == (-(v as int)) as nat);
        push_num(out, mag);
        assert(final(out)@ =~= old(out)@ + spec_int(v as int));
    }
}

/// Parses a signed number at `pos`.
pub fn parse_int(s: &Vec<char>, pos: usize) -> (r: Option<(i64, usize)>)
    ensures
        match r {
            Option::Some((v, j)) => dec_int_i64(s@, pos as int) == Option::Some((v, j as int))
                && pos < j <= s.len(),
            Option::None => dec_int_i64(s@, pos as int) is None,
        },
{
    if pos < s.len() && s[pos] == '-' {
        if pos == usize::MAX {
            return Option::None;
        }
        match parse_num(s, pos + 1) {
            Option::Some((n, j)) => {
                if n <= i64::MAX as u64 {
                    Option::Some((-(n as i64), j))
                } else if n == i64::MAX as u64 + 1 {
                    Option::Some((i64::MIN, j))
                } else {
                    Option::None
                }
            },
            Option::None => {
                proof {
                    lemma_dec_digits_ge_acc(s@, pos + 1 + 1, 0);
                    if dec_num(s@, pos as int + 1) is Some {
                        let n = dec_num(s@, pos as int + 1)->Some_0.0;
                        assert(n > u64::MAX as nat);
                    }
                }
                Option::None
            },
        }
    } else {
        match parse_num(s, pos) {
            Option::Some((n, j)) => {
                if n <= i64::MAX as u64 {
                    Option::Some((n as i64, j))
                } else {
                    Option::None
                }
            },
            Option::None => Option::None,
        }
    }
}

// ---------------------------------------------------------------------------
// Booleans
// ---------------------------------------------------------------------------

pub open spec fn spec_bool(b: bool) -> Seq<char> {
    if b {
        seq!['T']
    } else {
        seq!['F']
    }
}

pub open spec fn dec_bool(s: Seq<char>, i: int) -> Option<(bool, int)> {
    if 0 <= i < s.len() && s[i] == 'T' {
        Option::Some((true, i + 1))
    } else if 0 <= i < s.len() && s[i] == 'F' {
        Option::Some((false, i + 1))
    } else {
        Option::None
    }
}

pub proof fn lemma_dec_bool(pre: Seq<char>, b: bool, tail: Seq<char>)
    ensures
        dec_bool(pre + spec_bool(b) + tail, pre.len() as int) == Option::Some(
            (b, pre.len() + 1 as int),
        ),
{
    let s = pre + spec_bool(b) + tail;
    assert(s[pre.len() as int] == spec_bool(b)[0]);
}

pub fn push_bool(out: &mut Vec<char>, b: bool)
    ensures
        final(out)@ == old(out)@ + spec_bool(b),
{
    if b {
        out.push('T');
    } else {
        out.push('F');
    }
    assert(final(out)@ =~= old(out)@ + spec_bool(b));
}

pub fn parse_bool(s: &Vec<char>, pos: usize) -> (r: Option<(bool, usize)>)
    ensures
        match r {
            Option::Some((v, j)) => dec_bool(s@, pos as int) == Option::Some((v, j as int)) && pos
                < j <= s.len(),
            Option::None => dec_bool(s@, pos as int) is None,
        },
{
    if pos >= s.len() {
        return Option::None;
    }
    let c = s[pos];
    if c == 'T' {
        Option::Some((true, pos + 1))
    } else if c == 'F' {
        Option::Some((false, pos + 1))
    } else {
        Option::None
    }
}

// ---------------------------------------------------------------------------
// Strings
// ---------------------------------------------------------------------------

/// A string: its character count, then its characters.
pub open spec fn spec_str(sv: Seq<char>) -> Seq<char> {
    spec_num(sv.len()) + sv
}

pub open spec fn dec_str(s: Seq<char>, i: int) -> Option<(Seq<char>, int)> {
    match dec_num(s, i) {
        Option::Some((n, j)) => if j + n <= s.len() {
            Option::Some((s.subrange(j, j + n as int), j + n as int))
        } else {
            Option::None
        },
        Option::None => Option::None,
    }
}

pub proof fn lemma_dec_str(pre: Seq<char>, sv: Seq<char>, tail: Seq<char>)
    ensures
        dec_str(pre + spec_str(sv) + tail, pre.len() as int) == Option::Some(
            (sv, pre.len() + spec_str(sv).len() as int),
        ),
{
    let s = pre + spec_str(sv) + tail;
    assert(s =~= pre + spec_num(sv.len()) + (sv + tail));
    lemma_dec_num(pre, sv.len(), sv + tail);
    let j = pre.len() + spec_num(sv.len()).len() as int;
    assert(s.subrange(j, j + sv.len() as int) =~= sv);
}

/// The characters of a string, in order.
///
/// Relies on str::chars: it yields exactly the characters of the string,
/// first to last.
#[verifier::external_body]
pub fn str_chars(s: &str) -> (r: Vec<char>)
    ensures
        r@ == s@,
{
    s.chars().collect()
}

/// A string built from characters, in order.
///
/// Relies on the FromIterator impl of String: collecting characters
/// concatenates exactly those characters, first to last.
#[verifier::external_body]
pub fn chars_string(v: &Vec<char>) -> (r: String)
    ensures
        r@ == v@,
{
    v.iter().collect()
}

/// Appends a string in canonical form.
pub fn push_str(out: &mut Vec<char>, s: &str)
    ensures
        final(out)@ == old(out)@ + spec_str(s@),
{
    let cv = str_chars(s);
    push_num(out, cv.len() as u64);
    let ghost mid = out@;
    let mut k: usize = 0;
    while k < cv.len()
        invariant
            0 <= k <= cv.len(),
            out@ == mid + cv@.subrange(0, k as int),
            mid == old(out)@ + spec_num(s@.len()),
            cv@ == s@,
        decreases cv.len() - k,
    {
        out.push(cv[k]);
        assert(out@ =~= mid + cv@.subrange(0, k + 1));
        k = k + 1;
    }
    assert(cv@.subrange(0, cv@.len() as int) =~= cv@);
    assert(final(out)@ =~= old(out)@ + spec_str(s@));
}

/// Parses a string at `pos`, returning its characters.
pub fn parse_chars(s: &Vec<char>, pos: usize) -> (r: Option<(Vec<char>, usize)>)
    ensures
        match r {
            Option::Some((v, j)) => dec_str(s@, pos as int) == Option::Some((v@, j as int)) && pos
                < j <= s.len(),
            Option::None => dec_str(s@, pos as int) is None,
        },
{
    match parse_num(s, pos) {
        Option::Some((n, j)) => {
            let rem: usize = s.len() - j;
            if n > rem as u64 {
                return Option::None;
            }
            let n_us: usize = n as usize;
            assert(n_us == n as nat);
            let k_end: usize = j + n_us;
            let mut v: Vec<char> = Vec::new();
            let mut k: usize = j;
            while k < k_end
                invariant
                    j <= k <= k_end <= s.len(),
                    v@ == s@.subrange(j as int, k as int),
                decreases k_end - k,
            {
                v.push(s[k]);
                assert(v@ =~= s@.subrange(j as int, k + 1));
                k = k + 1;
            }
            Option::Some((v, k_end))
        },
        Option::None => {
            let slen: usize = s.len();
            proof {
                if dec_num(s@, pos as int) is Some {
                    let n = dec_num(s@, pos as int)->Some_0.0;
                    let j = dec_num(s@, pos as int)->Some_0.1;
                    assert(n > u64::MAX as nat);
                    lemma_dec_digits_bounds(s@, pos as int, 0);
                    assert(j + n > slen as int);
                }
            }
            Option::None
        },
    }
}

/// Whether a string equals a literal, by characters.
pub fn string_eq_lit(s: &String, lit: &str) -> (r: bool)
    ensures
        r == (s@ == lit@),
{
    let l = String::from_str(lit);
    *s == l
}

/// Parses a string at `pos`, returning it as an owned string.
pub fn parse_string(s: &Vec<char>, pos: usize) -> (r: Option<(String, usize)>)
    ensures
        match r {
            Option::Some((v, j)) => dec_str(s@, pos as int) == Option::Some((v@, j as int)) && pos
                < j <= s.len(),
            Option::None => dec_str(s@, pos as int) is None,
        },
{
    match parse_chars(s, pos) {
        Option::Some((v, j)) => Option::Some((chars_string(&v), j)),
        Option::None => Option::None,
    }
}

} // verus!

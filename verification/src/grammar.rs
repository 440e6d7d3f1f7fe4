//! The tag grammar.
//!
//! A wallet message carries its fields in hashtag-style tags:
//!
//! - wallet tag: `#<name>` followed by whitespace and a `#<digits>月` tag;
//! - direction tag: one of `#出账`, `#入账`, `#收入`, `#支出`;
//! - amount token: `<digits>(.<digits>)?元`;
//! - period pair: `#<digits>月` whitespace `#<digits>年`;
//! - total annotation: `#总额` whitespace `<amount token>`.
//!
//! For each pattern this module defines when it matches at a position, which
//! position matches first, and what the match captures. Each run in these
//! patterns is maximal, so a match at a position is unambiguous.

use vstd::prelude::*;
use crate::text::{
    digit_of, digit_val, digits_val, is_digit_char, is_name_char, is_space_char,
    lemma_digits_val_prefix, lemma_run_end, run_end, scan_digits, scan_name, scan_spaces,
};

verus! {

/// The first position at or after `from` where `m` matches, if any.
pub open spec fn first_match(s: Seq<char>, from: int, m: spec_fn(Seq<char>, int) -> bool) -> Option<
    int,
>
    decreases s.len() - from,
{
    if from < 0 || from >= s.len() {
        None
    } else if m(s, from) {
        Some(from)
    } else {
        first_match(s, from + 1, m)
    }
}

/// `first_match` returns the least matching position at or after `from`.
pub proof fn lemma_first_match(s: Seq<char>, from: int, m: spec_fn(Seq<char>, int) -> bool)
    requires
        0 <= from,
    ensures
        match first_match(s, from, m) {
            Some(i) => from <= i < s.len() && m(s, i) && forall|k: int|
                from <= k < i ==> !#[trigger] m(s, k),
            None => forall|k: int| from <= k < s.len() ==> !#[trigger] m(s, k),
        },
    decreases s.len() - from,
{
    if from < s.len() && !m(s, from) {
        lemma_first_match(s, from + 1, m);
    }
}

/// If `i` matches and nothing before it does, `i` is the first match.
pub proof fn lemma_first_match_is(
    s: Seq<char>,
    from: int,
    i: int,
    m: spec_fn(Seq<char>, int) -> bool,
)
    requires
        0 <= from <= i < s.len(),
        m(s, i),
        forall|k: int| from <= k < i ==> !#[trigger] m(s, k),
    ensures
        first_match(s, from, m) == Some(i),
    decreases i - from,
{
    if from < i {
        lemma_first_match_is(s, from + 1, i, m);
    }
}

/// If nothing at or after `from` matches, there is no first match.
pub proof fn lemma_first_match_none(s: Seq<char>, from: int, m: spec_fn(Seq<char>, int) -> bool)
    requires
        0 <= from,
        forall|k: int| from <= k < s.len() ==> !#[trigger] m(s, k),
    ensures
        first_match(s, from, m) == None::<int>,
    decreases s.len() - from,
{
    if from < s.len() {
        lemma_first_match_none(s, from + 1, m);
    }
}

// ---------------------------------------------------------------------------
// Wallet tag: `#<name>` + whitespace + `#<digits>月`
// ---------------------------------------------------------------------------

/// Whether the wallet tag pattern matches at position `i`.
pub open spec fn wallet_match_at(s: Seq<char>, i: int) -> bool {
    let ne = run_end(s, i + 1, |c: char| is_name_char(c));
    let we = run_end(s, ne, |c: char| is_space_char(c));
    let de = run_end(s, we + 1, |c: char| is_digit_char(c));
    &&& 0 <= i < s.len()
    &&& s[i] == '#'
    &&& ne > i + 1
    &&& we > ne
    &&& we < s.len() && s[we] == '#'
    &&& de > we + 1
    &&& de < s.len() && s[de] == '月'
}

/// The wallet name captured by a wallet tag match at `i`.
pub open spec fn wallet_name_at(s: Seq<char>, i: int) -> Seq<char> {
    s.subrange(i + 1, run_end(s, i + 1, |c: char| is_name_char(c)))
}

/// The first wallet tag match of the text.
pub open spec fn spec_wallet_name(s: Seq<char>) -> Option<Seq<char>> {
    match first_match(s, 0, |t: Seq<char>, i: int| wallet_match_at(t, i)) {
        Some(i) => Some(wallet_name_at(s, i)),
        None => None,
    }
}

// ---------------------------------------------------------------------------
// Direction tag: `#出账`, `#入账`, `#收入` or `#支出`
// ---------------------------------------------------------------------------

/// Whether one of the four direction tags matches at position `i`.
pub open spec fn dir_match_at(s: Seq<char>, i: int) -> bool {
    &&& 0 <= i && i + 3 <= s.len()
    &&& s[i] == '#'
    &&& {
        ||| (s[i + 1] == '出' && s[i + 2] == '账')
        ||| (s[i + 1] == '入' && s[i + 2] == '账')
        ||| (s[i + 1] == '收' && s[i + 2] == '入')
        ||| (s[i + 1] == '支' && s[i + 2] == '出')
    }
}

/// The two-character direction captured by a direction tag match at `i`.
pub open spec fn dir_at(s: Seq<char>, i: int) -> Seq<char> {
    s.subrange(i + 1, i + 3)
}

/// The first direction tag of the text.
pub open spec fn spec_direction(s: Seq<char>) -> Option<Seq<char>> {
    match first_match(s, 0, |t: Seq<char>, i: int| dir_match_at(t, i)) {
        Some(i) => Some(dir_at(s, i)),
        None => None,
    }
}

// ---------------------------------------------------------------------------
// Amount token: `<digits>(.<digits>)?元`
// ---------------------------------------------------------------------------

/// Whether an amount token matches at position `i` (`i` is its first digit).
pub open spec fn amount_match_at(s: Seq<char>, i: int) -> bool {
    let de = run_end(s, i, |c: char| is_digit_char(c));
    let fe = run_end(s, de + 1, |c: char| is_digit_char(c));
    &&& 0 <= i
    &&& de > i
    &&& de < s.len()
    &&& {
        ||| s[de] == '元'
        ||| (s[de] == '.' && fe > de + 1 && fe < s.len() && s[fe] == '元')
    }
}

/// The position of the closing `元` of an amount token matching at `i`.
pub open spec fn amount_end(s: Seq<char>, i: int) -> int {
    let de = run_end(s, i, |c: char| is_digit_char(c));
    if s[de] == '元' {
        de
    } else {
        run_end(s, de + 1, |c: char| is_digit_char(c))
    }
}

/// The integer digits of an amount token matching at `i`.
pub open spec fn amount_int_digits(s: Seq<char>, i: int) -> Seq<char> {
    s.subrange(i, run_end(s, i, |c: char| is_digit_char(c)))
}

/// The fraction digits of an amount token matching at `i` (empty when the
/// token has no fraction).
pub open spec fn amount_frac_digits(s: Seq<char>, i: int) -> Seq<char> {
    let de = run_end(s, i, |c: char| is_digit_char(c));
    if s[de] == '元' {
        Seq::<char>::empty()
    } else {
        s.subrange(de + 1, run_end(s, de + 1, |c: char| is_digit_char(c)))
    }
}

/// The value in cents of a fraction: the first two fraction digits; digits
/// past the second, being below a cent, are dropped.
pub open spec fn frac_cents(f: Seq<char>) -> nat {
    if f.len() == 0 {
        0
    } else if f.len() == 1 {
        digit_of(f[0]) * 10
    } else {
        digit_of(f[0]) * 10 + digit_of(f[1])
    }
}

/// The value in cents of the amount token matching at `i`.
pub open spec fn amount_cents(s: Seq<char>, i: int) -> nat {
    digits_val(amount_int_digits(s, i)) * 100 + frac_cents(amount_frac_digits(s, i))
}

/// The largest representable amount, in cents: 999999999.99 units.
pub const MAX_AMOUNT_CENTS: u64 = 99_999_999_999;

/// The largest representable integer part of an amount.
pub const MAX_AMOUNT_UNITS: u64 = 999_999_999;

/// Whether the amount token matching at `i` is representable. A token whose
/// integer part exceeds the representable range is treated as malformed.
pub open spec fn amount_ok(s: Seq<char>, i: int) -> bool {
    digits_val(amount_int_digits(s, i)) <= MAX_AMOUNT_UNITS
}

// ---------------------------------------------------------------------------
// Total annotation: `#总额` + whitespace + amount token
// ---------------------------------------------------------------------------

/// Whether the total annotation matches at position `i`.
pub open spec fn total_match_at(s: Seq<char>, i: int) -> bool {
    let we = run_end(s, i + 3, |c: char| is_space_char(c));
    &&& 0 <= i && i + 3 <= s.len()
    &&& s[i] == '#' && s[i + 1] == '总' && s[i + 2] == '额'
    &&& we > i + 3
    &&& amount_match_at(s, we)
}

/// The position of the amount token inside a total annotation matching at `i`.
pub open spec fn total_amount_pos(s: Seq<char>, i: int) -> int {
    run_end(s, i + 3, |c: char| is_space_char(c))
}

/// Whether the text carries a complete total annotation anywhere.
pub open spec fn spec_has_total(s: Seq<char>) -> bool {
    first_match(s, 0, |t: Seq<char>, i: int| total_match_at(t, i)) is Some
}

/// The stated total of the text, in cents: the amount token of the first
/// total annotation, or nothing when there is no total annotation or its
/// amount is out of range.
pub open spec fn spec_total(s: Seq<char>) -> Option<u64> {
    match first_match(s, 0, |t: Seq<char>, i: int| total_match_at(t, i)) {
        Some(i) => {
            let p = total_amount_pos(s, i);
            if amount_ok(s, p) {
                Some(amount_cents(s, p) as u64)
            } else {
                None
            }
        },
        None => None,
    }
}

// ---------------------------------------------------------------------------
// The bare total tag, and the selected transaction amount
// ---------------------------------------------------------------------------

/// Whether the literal `#总额` occurs anywhere strictly before position
/// `end`. The transaction-amount scan excludes any candidate whose preceding
/// text contains this tag.
pub open spec fn total_tag_before(s: Seq<char>, end: int) -> bool {
    exists|k: int|
        0 <= k && k + 3 <= end && #[trigger] s[k] == '#' && s[k + 1] == '总' && s[k + 2] == '额'
}

/// The selected transaction amount at or after `pos`: the amount tokens are
/// scanned left to right, skipping over each whole token; the first token
/// that no total tag precedes and that is representable is selected. Returns
/// the token's position and its value in cents.
pub open spec fn select_amount_from(s: Seq<char>, pos: int) -> Option<(int, u64)>
    decreases s.len() - pos,
    via select_amount_from_decreases
{
    match first_match(s, pos, |t: Seq<char>, i: int| amount_match_at(t, i)) {
        Some(i) => {
            if !total_tag_before(s, i) && amount_ok(s, i) {
                Some((i, amount_cents(s, i) as u64))
            } else {
                select_amount_from(s, amount_end(s, i) + 1)
            }
        },
        None => None,
    }
}

#[via_fn]
proof fn select_amount_from_decreases(s: Seq<char>, pos: int) {
    let m = |t: Seq<char>, i: int| amount_match_at(t, i);
    if pos >= 0 {
        lemma_first_match(s, pos, m);
        match first_match(s, pos, m) {
            Some(i) => {
                lemma_amount_end(s, i);
            },
            None => {},
        }
    } else {
        assert(first_match(s, pos, m) is None);
    }
}

/// An amount token reaches past its first digit and ends inside the text.
pub proof fn lemma_amount_end(s: Seq<char>, i: int)
    requires
        amount_match_at(s, i),
    ensures
        i < amount_end(s, i) < s.len(),
        s[amount_end(s, i)] == '元',
    decreases 0int,
{
    lemma_run_end(s, i, |c: char| is_digit_char(c));
    let de = run_end(s, i, |c: char| is_digit_char(c));
    if s[de] != '元' {
        lemma_run_end(s, de + 1, |c: char| is_digit_char(c));
    }
}

/// The selected transaction amount of the whole text.
pub open spec fn spec_txn_amount(s: Seq<char>) -> Option<(int, u64)> {
    select_amount_from(s, 0)
}

/// Whether the text contains an amount token at all (qualifying or not).
pub open spec fn spec_has_amount(s: Seq<char>) -> bool {
    first_match(s, 0, |t: Seq<char>, i: int| amount_match_at(t, i)) is Some
}

// ---------------------------------------------------------------------------
// Period pair: `#<digits>月` + whitespace + `#<digits>年`
// ---------------------------------------------------------------------------

/// Whether the period pair matches at position `i`.
pub open spec fn time_match_at(s: Seq<char>, i: int) -> bool {
    let me = run_end(s, i + 1, |c: char| is_digit_char(c));
    let we = run_end(s, me + 1, |c: char| is_space_char(c));
    let ye = run_end(s, we + 1, |c: char| is_digit_char(c));
    &&& 0 <= i < s.len()
    &&& s[i] == '#'
    &&& me > i + 1
    &&& me < s.len() && s[me] == '月'
    &&& we > me + 1
    &&& we < s.len() && s[we] == '#'
    &&& ye > we + 1
    &&& ye < s.len() && s[ye] == '年'
}

/// The month digits captured by a period pair match at `i`.
pub open spec fn month_at(s: Seq<char>, i: int) -> Seq<char> {
    s.subrange(i + 1, run_end(s, i + 1, |c: char| is_digit_char(c)))
}

/// The year digits captured by a period pair match at `i`.
pub open spec fn year_at(s: Seq<char>, i: int) -> Seq<char> {
    let me = run_end(s, i + 1, |c: char| is_digit_char(c));
    let we = run_end(s, me + 1, |c: char| is_space_char(c));
    s.subrange(we + 1, run_end(s, we + 1, |c: char| is_digit_char(c)))
}

/// The first period pair of the text: its month and year digits.
pub open spec fn spec_period(s: Seq<char>) -> Option<(Seq<char>, Seq<char>)> {
    match first_match(s, 0, |t: Seq<char>, i: int| time_match_at(t, i)) {
        Some(i) => Some((month_at(s, i), year_at(s, i))),
        None => None,
    }
}

// ---------------------------------------------------------------------------
// Scanners: executable counterparts of the match predicates
// ---------------------------------------------------------------------------

/// Decides whether the wallet tag pattern matches at `i`.
#[verifier::loop_isolation(false)]
pub fn wallet_check_at(cs: &Vec<char>, i: usize) -> (r: bool)
    requires
        i < cs@.len(),
    ensures
        r == wallet_match_at(cs@, i as int),
{
    let n = cs.len();
    if cs[i] != '#' {
        return false;
    }
    let ne = scan_name(cs, i + 1);
    if ne == i + 1 {
        return false;
    }
    let we = scan_spaces(cs, ne);
    if we == ne || we == cs.len() || cs[we] != '#' {
        return false;
    }
    let de = scan_digits(cs, we + 1);
    de > we + 1 && de < cs.len() && cs[de] == '月'
}

/// Finds the first wallet tag match of the text.
#[verifier::loop_isolation(false)]
pub fn find_wallet(cs: &Vec<char>) -> (r: Option<usize>)
    ensures
        match r {
            Some(i) => first_match(cs@, 0, |t: Seq<char>, j: int| wallet_match_at(t, j)) == Some(
                i as int,
            ) && i < cs@.len(),
            None => first_match(cs@, 0, |t: Seq<char>, j: int| wallet_match_at(t, j)) is None,
        },
{
    let ghost m = |t: Seq<char>, j: int| wallet_match_at(t, j);
    let mut i: usize = 0;
    while i < cs.len()
        invariant
            i <= cs@.len(),
            forall|k: int| 0 <= k < i ==> !#[trigger] m(cs@, k),
        decreases cs@.len() - i,
    {
        if wallet_check_at(cs, i) {
            proof {
                lemma_first_match_is(cs@, 0, i as int, m);
            }
            return Some(i);
        }
        i = i + 1;
    }
    proof {
        lemma_first_match_none(cs@, 0, m);
    }
    None
}

/// Decides whether a direction tag matches at `i`.
pub fn dir_check_at(cs: &Vec<char>, i: usize) -> (r: bool)
    requires
        i < cs@.len(),
    ensures
        r == dir_match_at(cs@, i as int),
{
    let n = cs.len();
    if n - i < 3 || cs[i] != '#' {
        return false;
    }
    let a = cs[i + 1];
    let b = cs[i + 2];
    (a == '出' && b == '账') || (a == '入' && b == '账') || (a == '收' && b == '入') || (a == '支'
        && b == '出')
}

/// Finds the first direction tag of the text.
#[verifier::loop_isolation(false)]
pub fn find_dir(cs: &Vec<char>) -> (r: Option<usize>)
    ensures
        match r {
            Some(i) => first_match(cs@, 0, |t: Seq<char>, j: int| dir_match_at(t, j)) == Some(
                i as int,
            ) && i < cs@.len(),
            None => first_match(cs@, 0, |t: Seq<char>, j: int| dir_match_at(t, j)) is None,
        },
{
    let ghost m = |t: Seq<char>, j: int| dir_match_at(t, j);
    let mut i: usize = 0;
    while i < cs.len()
        invariant
            i <= cs@.len(),
            forall|k: int| 0 <= k < i ==> !#[trigger] m(cs@, k),
        decreases cs@.len() - i,
    {
        if dir_check_at(cs, i) {
            proof {
                lemma_first_match_is(cs@, 0, i as int, m);
            }
            return Some(i);
        }
        i = i + 1;
    }
    proof {
        lemma_first_match_none(cs@, 0, m);
    }
    None
}

/// Decides whether an amount token matches at `i`.
#[verifier::loop_isolation(false)]
pub fn amount_check_at(cs: &Vec<char>, i: usize) -> (r: bool)
    requires
        i < cs@.len(),
    ensures
        r == amount_match_at(cs@, i as int),
{
    let n = cs.len();
    let de = scan_digits(cs, i);
    if de == i || de == cs.len() {
        return false;
    }
    if cs[de] == '元' {
        return true;
    }
    if cs[de] != '.' {
        return false;
    }
    let fe = scan_digits(cs, de + 1);
    fe > de + 1 && fe < cs.len() && cs[fe] == '元'
}

/// Finds the first amount token at or after `from`.
#[verifier::loop_isolation(false)]
pub fn find_amount_from(cs: &Vec<char>, from: usize) -> (r: Option<usize>)
    requires
        from <= cs@.len(),
    ensures
        match r {
            Some(i) => first_match(cs@, from as int, |t: Seq<char>, j: int| amount_match_at(t, j))
                == Some(i as int) && from <= i < cs@.len(),
            None => first_match(
                cs@,
                from as int,
                |t: Seq<char>, j: int| amount_match_at(t, j),
            ) is None,
        },
{
    let ghost m = |t: Seq<char>, j: int| amount_match_at(t, j);
    let mut i: usize = from;
    while i < cs.len()
        invariant
            from <= i <= cs@.len(),
            forall|k: int| from <= k < i ==> !#[trigger] m(cs@, k),
        decreases cs@.len() - i,
    {
        if amount_check_at(cs, i) {
            proof {
                lemma_first_match_is(cs@, from as int, i as int, m);
            }
            return Some(i);
        }
        i = i + 1;
    }
    proof {
        lemma_first_match_none(cs@, from as int, m);
    }
    None
}

/// Decides whether the period pair matches at `i`.
#[verifier::loop_isolation(false)]
pub fn time_check_at(cs: &Vec<char>, i: usize) -> (r: bool)
    requires
        i < cs@.len(),
    ensures
        r == time_match_at(cs@, i as int),
{
    let n = cs.len();
    if cs[i] != '#' {
        return false;
    }
    let me = scan_digits(cs, i + 1);
    if me == i + 1 || me == cs.len() || cs[me] != '月' {
        return false;
    }
    let we = scan_spaces(cs, me + 1);
    if we == me + 1 || we == cs.len() || cs[we] != '#' {
        return false;
    }
    let ye = scan_digits(cs, we + 1);
    ye > we + 1 && ye < cs.len() && cs[ye] == '年'
}

/// Finds the first period pair of the text.
#[verifier::loop_isolation(false)]
pub fn find_time(cs: &Vec<char>) -> (r: Option<usize>)
    ensures
        match r {
            Some(i) => first_match(cs@, 0, |t: Seq<char>, j: int| time_match_at(t, j)) == Some(
                i as int,
            ) && i < cs@.len(),
            None => first_match(cs@, 0, |t: Seq<char>, j: int| time_match_at(t, j)) is None,
        },
{
    let ghost m = |t: Seq<char>, j: int| time_match_at(t, j);
    let mut i: usize = 0;
    while i < cs.len()
        invariant
            i <= cs@.len(),
            forall|k: int| 0 <= k < i ==> !#[trigger] m(cs@, k),
        decreases cs@.len() - i,
    {
        if time_check_at(cs, i) {
            proof {
                lemma_first_match_is(cs@, 0, i as int, m);
            }
            return Some(i);
        }
        i = i + 1;
    }
    proof {
        lemma_first_match_none(cs@, 0, m);
    }
    None
}

/// Decides whether the total annotation matches at `i`.
#[verifier::loop_isolation(false)]
pub fn total_check_at(cs: &Vec<char>, i: usize) -> (r: bool)
    requires
        i < cs@.len(),
    ensures
        r == total_match_at(cs@, i as int),
{
    let n = cs.len();
    if n - i < 3 || cs[i] != '#' || cs[i + 1] != '总' || cs[i + 2] != '额' {
        return false;
    }
    let we = scan_spaces(cs, i + 3);
    if we == i + 3 || we == cs.len() {
        return false;
    }
    amount_check_at(cs, we)
}

/// Finds the first total annotation of the text.
#[verifier::loop_isolation(false)]
pub fn find_total(cs: &Vec<char>) -> (r: Option<usize>)
    ensures
        match r {
            Some(i) => first_match(cs@, 0, |t: Seq<char>, j: int| total_match_at(t, j)) == Some(
                i as int,
            ) && i < cs@.len(),
            None => first_match(cs@, 0, |t: Seq<char>, j: int| total_match_at(t, j)) is None,
        },
{
    let ghost m = |t: Seq<char>, j: int| total_match_at(t, j);
    let mut i: usize = 0;
    while i < cs.len()
        invariant
            i <= cs@.len(),
            forall|k: int| 0 <= k < i ==> !#[trigger] m(cs@, k),
        decreases cs@.len() - i,
    {
        if total_check_at(cs, i) {
            proof {
                lemma_first_match_is(cs@, 0, i as int, m);
            }
            return Some(i);
        }
        i = i + 1;
    }
    proof {
        lemma_first_match_none(cs@, 0, m);
    }
    None
}

/// A representable amount token is worth at most [`MAX_AMOUNT_CENTS`].
pub proof fn lemma_amount_cents_bound(s: Seq<char>, i: int)
    requires
        amount_match_at(s, i),
        amount_ok(s, i),
    ensures
        amount_cents(s, i) <= MAX_AMOUNT_CENTS,
{
    let de = run_end(s, i, |c: char| is_digit_char(c));
    lemma_run_end(s, i, |c: char| is_digit_char(c));
    let f = amount_frac_digits(s, i);
    if s[de] != '元' {
        lemma_run_end(s, de + 1, |c: char| is_digit_char(c));
    }
    assert(forall|k: int| 0 <= k < f.len() ==> is_digit_char(#[trigger] f[k]));
    assert(frac_cents(f) <= 99);
}

/// A stated total, when present, is at most [`MAX_AMOUNT_CENTS`].
pub proof fn lemma_total_bound(s: Seq<char>)
    ensures
        spec_total(s) matches Some(v) ==> v <= MAX_AMOUNT_CENTS,
{
    let m = |t: Seq<char>, j: int| total_match_at(t, j);
    lemma_first_match(s, 0, m);
    match first_match(s, 0, m) {
        Some(i) => {
            let p = total_amount_pos(s, i);
            if amount_ok(s, p) {
                lemma_amount_cents_bound(s, p);
            }
        },
        None => {},
    }
}

/// Reads the value of the digit run `[from, to)`, refusing values beyond
/// the representable integer part.
#[verifier::loop_isolation(false)]
pub fn digits_value(cs: &Vec<char>, from: usize, to: usize) -> (r: Option<u64>)
    requires
        from <= to <= cs@.len(),
        forall|k: int| from <= k < to ==> is_digit_char(#[trigger] cs@[k]),
    ensures
        match r {
            Some(v) => v == digits_val(cs@.subrange(from as int, to as int)) && v
                <= MAX_AMOUNT_UNITS,
            None => digits_val(cs@.subrange(from as int, to as int)) > MAX_AMOUNT_UNITS,
        },
{
    let mut acc: u64 = 0;
    let mut i: usize = from;
    while i < to
        invariant
            from <= i <= to,
            acc == digits_val(cs@.subrange(from as int, i as int)),
            acc <= MAX_AMOUNT_UNITS,
        decreases to - i,
    {
        let d = digit_val(cs[i]);
        proof {
            assert(cs@.subrange(from as int, i + 1).drop_last() =~= cs@.subrange(
                from as int,
                i as int,
            ));
        }
        let acc2 = acc * 10 + d;
        if acc2 > MAX_AMOUNT_UNITS {
            proof {
                let t = cs@.subrange(from as int, to as int);
                lemma_digits_val_prefix(t, i + 1 - from);
                assert(t.subrange(0, i + 1 - from) =~= cs@.subrange(from as int, i + 1));
            }
            return None;
        }
        acc = acc2;
        i = i + 1;
    }
    Some(acc)
}

/// Reads the value in cents of the amount token matching at `i`, or nothing
/// when the token is out of range.
pub fn amount_value_at(cs: &Vec<char>, i: usize) -> (r: Option<u64>)
    requires
        amount_match_at(cs@, i as int),
        i < cs@.len(),
    ensures
        match r {
            Some(v) => amount_ok(cs@, i as int) && v == amount_cents(cs@, i as int) && v
                <= MAX_AMOUNT_CENTS,
            None => !amount_ok(cs@, i as int),
        },
{
    let n = cs.len();
    let de = scan_digits(cs, i);
    proof {
        lemma_run_end(cs@, i as int, |c: char| is_digit_char(c));
    }
    let units = match digits_value(cs, i, de) {
        Some(u) => u,
        None => {
            return None;
        },
    };
    let fc: u64 = if cs[de] == '元' {
        0
    } else {
        let fe = scan_digits(cs, de + 1);
        proof {
            lemma_run_end(cs@, de + 1, |c: char| is_digit_char(c));
        }
        let d0 = digit_val(cs[de + 1]);
        if fe - (de + 1) == 1 {
            d0 * 10
        } else {
            let d1 = digit_val(cs[de + 2]);
            d0 * 10 + d1
        }
    };
    assert(fc == frac_cents(amount_frac_digits(cs@, i as int)));
    Some(units * 100 + fc)
}

/// Finds the selected transaction amount of the text: its token position
/// and its value in cents.
#[verifier::loop_isolation(false)]
pub fn find_txn_amount(cs: &Vec<char>) -> (r: Option<(usize, u64)>)
    ensures
        match r {
            Some(p) => spec_txn_amount(cs@) == Some((p.0 as int, p.1)) && p.0 < cs@.len() && p.1
                <= MAX_AMOUNT_CENTS,
            None => spec_txn_amount(cs@) is None,
        },
{
    let ghost m = |t: Seq<char>, j: int| amount_match_at(t, j);
    let n = cs.len();
    let mut pos: usize = 0;
    loop
        invariant
            pos <= cs@.len(),
            select_amount_from(cs@, 0) == select_amount_from(cs@, pos as int),
        decreases cs@.len() - pos,
    {
        match find_amount_from(cs, pos) {
            None => {
                return None;
            },
            Some(i) => {
                proof {
                    lemma_first_match(cs@, pos as int, m);
                    lemma_amount_end(cs@, i as int);
                }
                let excluded = total_tag_before_check(cs, i);
                let value = amount_value_at(cs, i);
                if !excluded {
                    if let Some(v) = value {
                        return Some((i, v));
                    }
                }
                let de = scan_digits(cs, i);
                let e = if cs[de] == '元' {
                    de
                } else {
                    scan_digits(cs, de + 1)
                };
                assert(e == amount_end(cs@, i as int));
                pos = e + 1;
            },
        }
    }
}

/// Reads the stated total of the text, in cents.
pub fn total_value(cs: &Vec<char>) -> (r: Option<u64>)
    ensures
        r == spec_total(cs@),
        r is Some ==> r.unwrap() <= MAX_AMOUNT_CENTS,
{
    let ghost m = |t: Seq<char>, j: int| total_match_at(t, j);
    let n = cs.len();
    match find_total(cs) {
        None => None,
        Some(i) => {
            proof {
                lemma_first_match(cs@, 0, m);
            }
            let p = scan_spaces(cs, i + 3);
            assert(p == total_amount_pos(cs@, i as int));
            amount_value_at(cs, p)
        },
    }
}

/// Decides whether the literal `#总额` occurs anywhere before `end`.
#[verifier::loop_isolation(false)]
pub fn total_tag_before_check(cs: &Vec<char>, end: usize) -> (r: bool)
    requires
        end <= cs@.len(),
    ensures
        r == total_tag_before(cs@, end as int),
{
    if end < 3 {
        return false;
    }
    let mut k: usize = 0;
    while k <= end - 3
        invariant
            3 <= end <= cs@.len(),
            k <= end,
            forall|j: int|
                0 <= j < k ==> !(j + 3 <= end && #[trigger] cs@[j] == '#' && cs@[j + 1] == '总'
                    && cs@[j + 2] == '额'),
        decreases end - k,
    {
        if cs[k] == '#' && cs[k + 1] == '总' && cs[k + 2] == '额' {
            assert(total_tag_before(cs@, end as int));
            return true;
        }
        k = k + 1;
    }
    assert(!total_tag_before(cs@, end as int));
    false
}

} // verus!

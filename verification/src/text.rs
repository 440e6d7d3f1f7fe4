//! Character classes and maximal-run scanning over character sequences.
//!
//! The tag grammar is defined over characters: a tag is `#` followed by a run
//! of name characters, amounts are digit runs with an optional fraction, and
//! tags are separated by whitespace runs. Everything here is phrased over
//! `Seq<char>`, the view of `&str` and `String`.

use vstd::prelude::*;

verus! {

/// A decimal digit `0`..`9`.
pub open spec fn is_digit_char(c: char) -> bool {
    48 <= c as u32 <= 57
}

/// The numeric value of a decimal digit.
pub open spec fn digit_of(c: char) -> nat {
    (c as u32 - 48) as nat
}

/// Whitespace as the grammar understands it: the ASCII whitespace
/// characters that appear between tags.
pub open spec fn is_space_char(c: char) -> bool {
    c == ' ' || c == '\t' || c == '\n' || c == '\r' || c == '\u{000B}' || c == '\u{000C}'
}

/// A character that may appear in a wallet name: anything but whitespace
/// and the tag marker `#`.
pub open spec fn is_name_char(c: char) -> bool {
    !is_space_char(c) && c != '#'
}

/// The end of the maximal run of characters satisfying `p` that starts at
/// `i`: the least index `e >= i` such that `s[e]` fails `p` or `e` is the
/// end of the sequence. Out-of-range starts are returned unchanged.
pub open spec fn run_end(s: Seq<char>, i: int, p: spec_fn(char) -> bool) -> int
    decreases s.len() - i,
{
    if i < 0 || i >= s.len() {
        i
    } else if p(s[i]) {
        run_end(s, i + 1, p)
    } else {
        i
    }
}

/// What `run_end` returns: the run covers `[i, e)`, every character in it
/// satisfies `p`, and the run cannot be extended.
pub proof fn lemma_run_end(s: Seq<char>, i: int, p: spec_fn(char) -> bool)
    requires
        0 <= i <= s.len(),
    ensures
        i <= run_end(s, i, p) <= s.len(),
        forall|k: int| i <= k < run_end(s, i, p) ==> p(s[k]),
        run_end(s, i, p) < s.len() ==> !p(s[run_end(s, i, p)]),
    decreases s.len() - i,
{
    if i < s.len() && p(s[i]) {
        lemma_run_end(s, i + 1, p);
    }
}

/// A run extends over any character that satisfies `p`.
pub proof fn lemma_run_end_step(s: Seq<char>, i: int, p: spec_fn(char) -> bool)
    requires
        0 <= i < s.len(),
        p(s[i]),
    ensures
        run_end(s, i, p) == run_end(s, i + 1, p),
{
}

/// A run stops at the end of the sequence or at a character failing `p`.
pub proof fn lemma_run_end_stop(s: Seq<char>, i: int, p: spec_fn(char) -> bool)
    requires
        0 <= i <= s.len(),
        i == s.len() || !p(s[i]),
    ensures
        run_end(s, i, p) == i,
{
}

/// The numeric value of a digit string, most significant digit first.
pub open spec fn digits_val(s: Seq<char>) -> nat
    decreases s.len(),
{
    if s.len() == 0 {
        0
    } else {
        digits_val(s.drop_last()) * 10 + digit_of(s.last())
    }
}

/// A digit string is worth at least as much as any of its prefixes.
pub proof fn lemma_digits_val_prefix(s: Seq<char>, k: int)
    requires
        0 <= k <= s.len(),
    ensures
        digits_val(s.subrange(0, k)) <= digits_val(s),
    decreases s.len(),
{
    if k < s.len() {
        assert(s.drop_last() =~= s.subrange(0, s.len() - 1));
        lemma_digits_val_prefix(s.drop_last(), k);
        assert(s.drop_last().subrange(0, k) =~= s.subrange(0, k));
    } else {
        assert(s.subrange(0, k) =~= s);
    }
}

/// The numeric value of a digit character.
pub fn digit_val(c: char) -> (d: u64)
    requires
        is_digit_char(c),
    ensures
        d == digit_of(c),
{
    (c as u32 - 48) as u64
}

/// Collects the characters of a string slice into a vector.
pub fn chars_vec(text: &str) -> (r: Vec<char>)
    ensures
        r@ == text@,
{
    let n: usize = text.unicode_len();
    let mut r: Vec<char> = Vec::new();
    let mut i: usize = 0;
    while i < n
        invariant
            i <= n,
            n == text@.len(),
            r@ == text@.subrange(0, i as int),
        decreases n - i,
    {
        r.push(text.get_char(i));
        i = i + 1;
    }
    assert(r@ =~= text@);
    r
}

/// The whitespace-separated tokens of `s` from position `i` on: each
/// token is a maximal run of non-whitespace characters.
pub open spec fn tokens_from(s: Seq<char>, i: int) -> Seq<Seq<char>>
    decreases s.len() - i,
    via tokens_from_decreases
{
    if i < 0 {
        Seq::<Seq<char>>::empty()
    } else {
        let st = run_end(s, i, |c: char| is_space_char(c));
        if st >= s.len() {
            Seq::<Seq<char>>::empty()
        } else {
            let e = run_end(s, st, |c: char| !is_space_char(c));
            seq![s.subrange(st, e)] + tokens_from(s, e)
        }
    }
}

#[via_fn]
proof fn tokens_from_decreases(s: Seq<char>, i: int) {
    if 0 <= i && i <= s.len() {
        lemma_run_end(s, i, |c: char| is_space_char(c));
        let st = run_end(s, i, |c: char| is_space_char(c));
        if st < s.len() {
            lemma_run_end(s, st, |c: char| !is_space_char(c));
            assert(!is_space_char(s[st]));
            lemma_run_end_step(s, st, |c: char| !is_space_char(c));
        }
    }
}

/// The whitespace-separated tokens of `s`.
pub open spec fn spec_tokens(s: Seq<char>) -> Seq<Seq<char>> {
    tokens_from(s, 0)
}

/// The tokens joined back together with single spaces.
pub open spec fn join_spaces(ts: Seq<Seq<char>>) -> Seq<char>
    decreases ts.len(),
{
    if ts.len() == 0 {
        Seq::<char>::empty()
    } else if ts.len() == 1 {
        ts[0]
    } else {
        ts[0] + seq![' '] + join_spaces(ts.drop_first())
    }
}

/// Joining one more token appends a space and the token.
pub proof fn lemma_join_spaces_push(ts: Seq<Seq<char>>, t: Seq<char>)
    ensures
        join_spaces(ts.push(t)) == if ts.len() == 0 {
            t
        } else {
            join_spaces(ts) + seq![' '] + t
        },
    decreases ts.len(),
{
    if ts.len() == 0 {
        assert(ts.push(t)[0] =~= t);
    } else {
        lemma_join_spaces_push(ts.drop_first(), t);
        assert(ts.push(t).drop_first() =~= ts.drop_first().push(t));
        if ts.len() == 1 {
            assert(join_spaces(ts.drop_first().push(t)) == t);
            assert(join_spaces(ts.push(t)) =~= ts[0] + seq![' '] + t);
            assert(join_spaces(ts) == ts[0]);
        } else {
            assert(join_spaces(ts.push(t)) =~= ts[0] + seq![' '] + join_spaces(
                ts.drop_first().push(t),
            ));
            assert(join_spaces(ts) + seq![' '] + t =~= ts[0] + seq![' '] + (join_spaces(
                ts.drop_first(),
            ) + seq![' '] + t));
        }
    }
}

/// Collects the whitespace-separated tokens of a string slice.
#[verifier::loop_isolation(false)]
pub fn split_tokens(text: &str) -> (r: Vec<String>)
    ensures
        r@.map_values(|t: String| t@) == spec_tokens(text@),
{
    let cs = chars_vec(text);
    let n = cs.len();
    let mut out: Vec<String> = Vec::new();
    let mut pos: usize = 0;
    loop
        invariant
            pos <= n,
            spec_tokens(text@) == out@.map_values(|t: String| t@) + tokens_from(
                text@,
                pos as int,
            ),
        decreases n - pos,
    {
        let st = scan_spaces(&cs, pos);
        if st == n {
            proof {
                assert(tokens_from(text@, pos as int) =~= Seq::<Seq<char>>::empty());
                assert(out@.map_values(|t: String| t@) + tokens_from(text@, pos as int)
                    =~= out@.map_values(|t: String| t@));
            }
            return out;
        }
        let e = scan_nonspaces(&cs, st);
        proof {
            lemma_run_end(cs@, pos as int, |c: char| is_space_char(c));
            lemma_run_end(cs@, st as int, |c: char| !is_space_char(c));
            assert(!is_space_char(cs@[st as int]));
        }
        let tok = text.substring_char(st, e).to_owned();
        let ghost before = out@.map_values(|t: String| t@);
        out.push(tok);
        proof {
            assert(out@.map_values(|t: String| t@) =~= before.push(text@.subrange(
                st as int,
                e as int,
            )));
            assert(tokens_from(text@, pos as int) =~= seq![text@.subrange(st as int, e as int)]
                + tokens_from(text@, e as int));
            assert(spec_tokens(text@) =~= out@.map_values(|t: String| t@) + tokens_from(
                text@,
                e as int,
            ));
        }
        pos = e;
    }
}

/// The end of the maximal non-whitespace run starting at `from`.
#[verifier::loop_isolation(false)]
pub fn scan_nonspaces(cs: &Vec<char>, from: usize) -> (r: usize)
    requires
        from <= cs@.len(),
    ensures
        r == run_end(cs@, from as int, |c: char| !is_space_char(c)),
        from <= r <= cs@.len(),
{
    let ghost p = |c: char| !is_space_char(c);
    let mut i: usize = from;
    while i < cs.len() && !check_space(cs[i])
        invariant
            from <= i <= cs@.len(),
            run_end(cs@, from as int, p) == run_end(cs@, i as int, p),
        decreases cs@.len() - i,
    {
        proof {
            lemma_run_end_step(cs@, i as int, p);
        }
        i = i + 1;
    }
    proof {
        lemma_run_end_stop(cs@, i as int, p);
    }
    i
}

/// Whether two string slices hold the same characters.
pub fn str_eq(a: &str, b: &str) -> (r: bool)
    ensures
        r == (a@ == b@),
{
    let sa = String::from_str(a);
    let sb = String::from_str(b);
    sa == sb
}

/// Whether `c` is a decimal digit.
pub fn check_digit(c: char) -> (b: bool)
    ensures
        b == is_digit_char(c),
{
    let u: u32 = c as u32;
    48 <= u && u <= 57
}

/// Whether `c` is grammar whitespace.
pub fn check_space(c: char) -> (b: bool)
    ensures
        b == is_space_char(c),
{
    c == ' ' || c == '\t' || c == '\n' || c == '\r' || c == '\u{000B}' || c == '\u{000C}'
}

/// Whether `c` may appear in a wallet name.
pub fn check_name(c: char) -> (b: bool)
    ensures
        b == is_name_char(c),
{
    !check_space(c) && c != '#'
}

/// The end of the maximal digit run starting at `from`.
#[verifier::loop_isolation(false)]
pub fn scan_digits(cs: &Vec<char>, from: usize) -> (r: usize)
    requires
        from <= cs@.len(),
    ensures
        r == run_end(cs@, from as int, |c: char| is_digit_char(c)),
        from <= r <= cs@.len(),
{
    let ghost p = |c: char| is_digit_char(c);
    let mut i: usize = from;
    while i < cs.len() && check_digit(cs[i])
        invariant
            from <= i <= cs@.len(),
            run_end(cs@, from as int, p) == run_end(cs@, i as int, p),
        decreases cs@.len() - i,
    {
        proof {
            lemma_run_end_step(cs@, i as int, p);
        }
        i = i + 1;
    }
    proof {
        lemma_run_end_stop(cs@, i as int, p);
    }
    i
}

/// The end of the maximal whitespace run starting at `from`.
#[verifier::loop_isolation(false)]
pub fn scan_spaces(cs: &Vec<char>, from: usize) -> (r: usize)
    requires
        from <= cs@.len(),
    ensures
        r == run_end(cs@, from as int, |c: char| is_space_char(c)),
        from <= r <= cs@.len(),
{
    let ghost p = |c: char| is_space_char(c);
    let mut i: usize = from;
    while i < cs.len() && check_space(cs[i])
        invariant
            from <= i <= cs@.len(),
            run_end(cs@, from as int, p) == run_end(cs@, i as int, p),
        decreases cs@.len() - i,
    {
        proof {
            lemma_run_end_step(cs@, i as int, p);
        }
        i = i + 1;
    }
    proof {
        lemma_run_end_stop(cs@, i as int, p);
    }
    i
}

/// The end of the maximal name-character run starting at `from`.
#[verifier::loop_isolation(false)]
pub fn scan_name(cs: &Vec<char>, from: usize) -> (r: usize)
    requires
        from <= cs@.len(),
    ensures
        r == run_end(cs@, from as int, |c: char| is_name_char(c)),
        from <= r <= cs@.len(),
{
    let ghost p = |c: char| is_name_char(c);
    let mut i: usize = from;
    while i < cs.len() && check_name(cs[i])
        invariant
            from <= i <= cs@.len(),
            run_end(cs@, from as int, p) == run_end(cs@, i as int, p),
        decreases cs@.len() - i,
    {
        proof {
            lemma_run_end_step(cs@, i as int, p);
        }
        i = i + 1;
    }
    proof {
        lemma_run_end_stop(cs@, i as int, p);
    }
    i
}

} // verus!

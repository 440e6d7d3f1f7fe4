//! Validation and display helpers.

use vstd::prelude::*;
use vstd::string::StringSliceAdditionalSpecFns;
use crate::grammar::MAX_AMOUNT_CENTS;
use crate::numfmt::{cents_string, cents_text, dec_nat, digit_char, digit_str, u128_text};
use crate::text::{chars_vec, check_digit, digits_val, is_digit_char};

verus! {

/// Input validation.
pub struct Validator;

/// Whether every character of `s` is a decimal digit.
pub open spec fn all_digits(s: Seq<char>) -> bool {
    forall|k: int| 0 <= k < s.len() ==> is_digit_char(#[trigger] s[k])
}

/// Whether a string is a plain decimal numeral with a value in
/// `[lo, hi]`.
pub open spec fn spec_numeral_in(s: Seq<char>, lo: nat, hi: nat) -> bool {
    s.len() > 0 && all_digits(s) && lo <= digits_val(s) <= hi
}

impl Validator {
    /// Whether a wallet name is acceptable: non-empty, at most one
    /// hundred bytes, and on a single line.
    pub fn is_valid_wallet_name(name: &str) -> (r: bool)
        ensures
            r == (name@.len() > 0 && name.spec_bytes().len() <= 100 && !name@.contains('\n')),
    {
        let nbytes: &[u8] = name.as_bytes();
        if name.is_empty() || nbytes.len() > 100 {
            return false;
        }
        let cs = chars_vec(name);
        let mut i: usize = 0;
        while i < cs.len()
            invariant
                i <= cs@.len(),
                cs@ == name@,
                forall|j: int| 0 <= j < i ==> #[trigger] name@[j] != '\n',
            decreases cs@.len() - i,
        {
            if cs[i] == '\n' {
                return false;
            }
            i = i + 1;
        }
        proof {
            assert(forall|j: int| 0 <= j < name@.len() ==> #[trigger] name@[j] != '\n');
            assert(!name@.contains('\n'));
        }
        true
    }

    /// Whether an amount in cents lies in the supported range.
    pub fn is_valid_amount(cents: i64) -> (r: bool)
        ensures
            r == (0 <= cents <= MAX_AMOUNT_CENTS),
    {
        0 <= cents && cents <= MAX_AMOUNT_CENTS as i64
    }

    /// Whether a month string is a numeral worth 1 through 12.
    pub fn is_valid_month(month: &str) -> (r: bool)
        ensures
            r == spec_numeral_in(month@, 1, 12),
    {
        Self::numeral_in(month, 1, 12)
    }

    /// Whether a year string is a numeral worth 2000 through 2100.
    pub fn is_valid_year(year: &str) -> (r: bool)
        ensures
            r == spec_numeral_in(year@, 2000, 2100),
    {
        Self::numeral_in(year, 2000, 2100)
    }

    /// Whether a string is a plain decimal numeral in `[lo, hi]`.
    #[verifier::loop_isolation(false)]
    fn numeral_in(s: &str, lo: u64, hi: u64) -> (r: bool)
        requires
            hi <= crate::grammar::MAX_AMOUNT_UNITS,
        ensures
            r == spec_numeral_in(s@, lo as nat, hi as nat),
    {
        let cs = chars_vec(s);
        if cs.len() == 0 {
            return false;
        }
        let mut i: usize = 0;
        while i < cs.len()
            invariant
                i <= cs@.len(),
                forall|j: int| 0 <= j < i ==> is_digit_char(#[trigger] cs@[j]),
            decreases cs@.len() - i,
        {
            if !check_digit(cs[i]) {
                return false;
            }
            i = i + 1;
        }
        match crate::grammar::digits_value(&cs, 0, cs.len()) {
            Some(v) => {
                proof {
                    assert(cs@.subrange(0, cs@.len() as int) =~= cs@);
                }
                lo <= v && v <= hi
            },
            None => {
                proof {
                    assert(cs@.subrange(0, cs@.len() as int) =~= cs@);
                }
                false
            },
        }
    }
}

/// Display formatting for amounts and balance changes.
pub struct Formatter;

/// The rendering of a balance change: the label for a first setting, or
/// the signed change with its rounded per-cent move.
pub open spec fn balance_change_text(old_balance: int, new_balance: int) -> Seq<char> {
    if old_balance == 0 {
        "初始设置"@
    } else {
        let change = new_balance - old_balance;
        let t = pct_tenths(change, old_balance);
        let plus: Seq<char> = if change > 0 {
            seq!['+']
        } else {
            Seq::<char>::empty()
        };
        let pct_sign: Seq<char> = if change > 0 {
            seq!['+']
        } else if change < 0 {
            seq!['-']
        } else {
            Seq::<char>::empty()
        };
        plus + cents_text(change) + "元 ("@ + pct_sign + dec_nat((t / 10) as nat) + seq!['.']
            + seq![digit_char((t % 10) as nat)] + "%)"@
    }
}

/// The magnitude of the change as tenths of a percent of the old balance,
/// rounded half up.
pub open spec fn pct_tenths(change: int, old_balance: int) -> int {
    let c = if change < 0 {
        -change
    } else {
        change
    };
    let o = if old_balance < 0 {
        -old_balance
    } else {
        old_balance
    };
    (2000 * c + o) / (2 * o)
}

impl Formatter {
    /// Renders an amount of cents as units with two decimals and the
    /// currency marker, such as `1000.00元`.
    pub fn format_amount(cents: i64) -> (r: String)
        ensures
            r@ == cents_text(cents as int) + "元"@,
    {
        let mut out = cents_string(cents as i128);
        out.append("元");
        out
    }

    /// Renders the move from one balance to another, such as
    /// `+100.00元 (+10.0%)`, or the first-setting label when there was no
    /// balance to move from.
    pub fn format_balance_change(old_balance: i64, new_balance: i64) -> (r: String)
        ensures
            r@ == balance_change_text(old_balance as int, new_balance as int),
    {
        if old_balance == 0 {
            return String::from_str("初始设置");
        }
        let change: i128 = new_balance as i128 - old_balance as i128;
        let c: u128 = if change < 0 {
            (-change) as u128
        } else {
            change as u128
        };
        let o: u128 = if old_balance < 0 {
            (-(old_balance as i128)) as u128
        } else {
            old_balance as u128
        };
        let t: u128 = (2000 * c + o) / (2 * o);
        let mut out = String::new();
        if change > 0 {
            out.append("+");
        }
        let body = cents_string(change);
        out.append(body.as_str());
        out.append("元 (");
        if change > 0 {
            out.append("+");
        } else if change < 0 {
            out.append("-");
        }
        let whole = u128_text(t / 10);
        out.append(whole.as_str());
        out.append(".");
        out.append(digit_str((t % 10) as u64));
        out.append("%)");
        proof {
            reveal_strlit("+");
            reveal_strlit("-");
            reveal_strlit(".");
            assert(out@ =~= balance_change_text(old_balance as int, new_balance as int));
        }
        out
    }
}

} // verus!

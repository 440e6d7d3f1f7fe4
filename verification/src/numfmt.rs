//! Decimal rendering of fixed-point amounts.
//!
//! Balances and amounts are counted in cents; they are shown with exactly
//! two decimal places (`15000` cents as `150.00`), with a leading `-` for
//! negative values.

use vstd::prelude::*;

verus! {

/// The character of a decimal digit value.
pub open spec fn digit_char(d: nat) -> char {
    if d == 0 {
        '0'
    } else if d == 1 {
        '1'
    } else if d == 2 {
        '2'
    } else if d == 3 {
        '3'
    } else if d == 4 {
        '4'
    } else if d == 5 {
        '5'
    } else if d == 6 {
        '6'
    } else if d == 7 {
        '7'
    } else if d == 8 {
        '8'
    } else {
        '9'
    }
}

/// The decimal digits of `n`, most significant first, with no leading
/// zeros; empty for zero.
pub open spec fn dec_digits(n: nat) -> Seq<char>
    decreases n,
{
    if n == 0 {
        Seq::<char>::empty()
    } else {
        dec_digits(n / 10).push(digit_char(n % 10))
    }
}

/// The usual decimal rendering of `n`: `"0"` for zero, no leading zeros
/// otherwise.
pub open spec fn dec_nat(n: nat) -> Seq<char> {
    if n == 0 {
        seq!['0']
    } else {
        dec_digits(n)
    }
}

/// The rendering of `c` cents with two decimal places and a leading `-`
/// for negative values.
pub open spec fn cents_text(c: int) -> Seq<char> {
    let a = if c < 0 {
        -c
    } else {
        c
    };
    let sign: Seq<char> = if c < 0 {
        seq!['-']
    } else {
        Seq::<char>::empty()
    };
    sign + dec_nat((a / 100) as nat) + seq!['.'] + seq![
        digit_char(((a % 100) / 10) as nat),
        digit_char((a % 10) as nat),
    ]
}

/// The one-character string of a decimal digit value.
pub fn digit_str(d: u64) -> (r: &'static str)
    requires
        d < 10,
    ensures
        r@ == seq![digit_char(d as nat)],
{
    let r: &'static str = if d == 0 {
        "0"
    } else if d == 1 {
        "1"
    } else if d == 2 {
        "2"
    } else if d == 3 {
        "3"
    } else if d == 4 {
        "4"
    } else if d == 5 {
        "5"
    } else if d == 6 {
        "6"
    } else if d == 7 {
        "7"
    } else if d == 8 {
        "8"
    } else {
        "9"
    };
    proof {
        reveal_strlit("0");
        reveal_strlit("1");
        reveal_strlit("2");
        reveal_strlit("3");
        reveal_strlit("4");
        reveal_strlit("5");
        reveal_strlit("6");
        reveal_strlit("7");
        reveal_strlit("8");
        reveal_strlit("9");
        assert(r@ =~= seq![digit_char(d as nat)]);
    }
    r
}

/// The decimal rendering of a wide machine integer.
#[verifier::loop_isolation(false)]
pub fn u128_text(v: u128) -> (r: String)
    ensures
        r@ == dec_nat(v as nat),
{
    if v == 0 {
        let r = String::from_str("0");
        proof {
            reveal_strlit("0");
            assert(r@ =~= dec_nat(0));
        }
        return r;
    }
    let mut ds: Vec<u64> = Vec::new();
    let mut tmp: u128 = v;
    while tmp > 0
        invariant
            forall|j: int| 0 <= j < ds@.len() ==> #[trigger] ds@[j] < 10,
            dec_digits(v as nat) == dec_digits(tmp as nat) + Seq::new(
                ds@.len(),
                |i: int| digit_char(ds@[ds@.len() - 1 - i] as nat),
            ),
        decreases tmp,
    {
        let d: u64 = (tmp % 10) as u64;
        proof {
            let olds = ds@;
            let news = olds.push((tmp % 10) as u64);
            assert(Seq::new(news.len(), |i: int| digit_char(news[news.len() - 1 - i] as nat))
                =~= seq![digit_char((tmp % 10) as nat)] + Seq::new(
                olds.len(),
                |i: int| digit_char(olds[olds.len() - 1 - i] as nat),
            ));
            assert(dec_digits(tmp as nat) == dec_digits((tmp / 10) as nat).push(
                digit_char((tmp % 10) as nat),
            ));
            assert(dec_digits((tmp / 10) as nat).push(digit_char((tmp % 10) as nat)) =~= dec_digits(
                (tmp / 10) as nat,
            ) + seq![digit_char((tmp % 10) as nat)]);
        }
        ds.push(d);
        tmp = tmp / 10;
    }
    let mut out = String::new();
    let mut k: usize = ds.len();
    while k > 0
        invariant
            k <= ds@.len(),
            forall|j: int| 0 <= j < ds@.len() ==> #[trigger] ds@[j] < 10,
            out@ == Seq::new(
                (ds@.len() - k) as nat,
                |i: int| digit_char(ds@[ds@.len() - 1 - i] as nat),
            ),
        decreases k,
    {
        k = k - 1;
        let piece = digit_str(ds[k]);
        out.append(piece);
        proof {
            assert(out@ =~= Seq::new(
                (ds@.len() - k) as nat,
                |i: int| digit_char(ds@[ds@.len() - 1 - i] as nat),
            ));
        }
    }
    proof {
        assert(out@ =~= dec_digits(v as nat));
    }
    out
}

/// The decimal rendering of a machine integer.
pub fn u64_text(v: u64) -> (r: String)
    ensures
        r@ == dec_nat(v as nat),
{
    u128_text(v as u128)
}

/// The fixed-point rendering of `c` cents, such as `-150.00`.
pub fn cents_string(c: i128) -> (r: String)
    ensures
        r@ == cents_text(c as int),
{
    let a: u128 = if c >= 0 {
        c as u128
    } else {
        ((-(c + 1)) as u128) + 1
    };
    let mut out = String::new();
    if c < 0 {
        out.append("-");
    }
    let units = u128_text(a / 100);
    out.append(units.as_str());
    out.append(".");
    out.append(digit_str(((a % 100) / 10) as u64));
    out.append(digit_str((a % 10) as u64));
    proof {
        reveal_strlit("-");
        reveal_strlit(".");
        assert(out@ =~= cents_text(c as int));
    }
    out
}

} // verus!

//! The field extractor: turns raw message text into a [`ParsedMessage`].

use vstd::prelude::*;
use crate::grammar::{
    amount_match_at, dir_match_at, find_amount_from, find_dir, find_time, find_total,
    find_txn_amount, find_wallet, first_match, lemma_first_match, spec_direction, spec_has_total,
    spec_period, spec_total, spec_txn_amount, spec_wallet_name, time_match_at, wallet_match_at,
};
use crate::error::{ErrV, WalletBotError};
use crate::models::{ParsedMessage, ParsedMessageV};
use crate::text::{
    chars_vec, is_digit_char, run_end, scan_digits, scan_name, scan_spaces, str_eq,
};

verus! {

/// Whether the text looks like a wallet message: it carries a wallet tag,
/// a direction tag and at least one amount token. This is the cheap
/// pre-filter; it does not require the fields to assemble into a full parse.
pub open spec fn spec_is_wallet_message(s: Seq<char>) -> bool {
    &&& spec_wallet_name(s) is Some
    &&& spec_direction(s) is Some
    &&& first_match(s, 0, |t: Seq<char>, i: int| amount_match_at(t, i)) is Some
}

/// The full parse of a message text: all four required fields, or nothing
/// when the wallet tag, the direction tag, the period pair or a qualifying
/// transaction amount is missing.
pub open spec fn spec_parse(s: Seq<char>) -> Option<ParsedMessageV> {
    match (spec_wallet_name(s), spec_direction(s), spec_txn_amount(s), spec_period(s)) {
        (Some(w), Some(d), Some(a), Some(p)) => Some(
            ParsedMessageV {
                wallet_name: w,
                transaction_type: d,
                amount: a.1,
                month: p.0,
                year: p.1,
                total_amount: spec_total(s),
                original_text: s,
            },
        ),
        _ => None,
    }
}

/// The field extractor. A pure function of the text: no state.
#[derive(Debug, Clone)]
pub struct MessageParser {
}

impl MessageParser {
    /// Creates a parser.
    pub fn new() -> (r: Self) {
        MessageParser {  }
    }

    /// Parses a message into its transaction fields, or returns nothing
    /// when a required field is absent or malformed.
    pub fn parse(&self, text: &str) -> (r: Option<ParsedMessage>)
        ensures
            match r {
                Some(p) => spec_parse(text@) == Some(p@),
                None => spec_parse(text@) is None,
            },
    {
        let cs = chars_vec(text);

        let wi = match find_wallet(&cs) {
            Some(i) => i,
            None => {
                return None;
            },
        };
        let di = match find_dir(&cs) {
            Some(i) => i,
            None => {
                return None;
            },
        };
        let amount = match find_txn_amount(&cs) {
            Some(p) => p.1,
            None => {
                return None;
            },
        };
        let ti = match find_time(&cs) {
            Some(i) => i,
            None => {
                return None;
            },
        };

        proof {
            lemma_first_match(cs@, 0, |t: Seq<char>, j: int| wallet_match_at(t, j));
            lemma_first_match(cs@, 0, |t: Seq<char>, j: int| dir_match_at(t, j));
            lemma_first_match(cs@, 0, |t: Seq<char>, j: int| time_match_at(t, j));
        }

        let ne = scan_name(&cs, wi + 1);
        let wallet_name = text.substring_char(wi + 1, ne).to_owned();

        let transaction_type = text.substring_char(di + 1, di + 3).to_owned();

        let me = scan_digits(&cs, ti + 1);
        let month = text.substring_char(ti + 1, me).to_owned();
        let we = scan_spaces(&cs, me + 1);
        let ye = scan_digits(&cs, we + 1);
        let year = text.substring_char(we + 1, ye).to_owned();

        let total_amount = crate::grammar::total_value(&cs);

        let p = ParsedMessage {
            wallet_name,
            transaction_type,
            amount,
            month,
            year,
            total_amount,
            original_text: text.to_owned(),
        };
        assert(spec_parse(text@) == Some(p@)) by {
            assert(spec_parse(text@).unwrap() =~= p@);
        }
        Some(p)
    }

    /// Whether the text carries a complete total annotation.
    pub fn has_total(&self, text: &str) -> (r: bool)
        ensures
            r == spec_has_total(text@),
    {
        let cs = chars_vec(text);
        find_total(&cs).is_some()
    }

    /// The stated total of the text, in cents, when one is present and
    /// representable.
    pub fn extract_total_amount(&self, text: &str) -> (r: Option<u64>)
        ensures
            r == spec_total(text@),
    {
        let cs = chars_vec(text);
        crate::grammar::total_value(&cs)
    }

    /// The cheap pre-filter: whether the text looks like a wallet message.
    pub fn is_wallet_message(&self, text: &str) -> (r: bool)
        ensures
            r == spec_is_wallet_message(text@),
    {
        let cs = chars_vec(text);
        find_wallet(&cs).is_some() && find_dir(&cs).is_some() && find_amount_from(&cs, 0).is_some()
    }
}

/// A transaction in the simple space-separated form, such as
/// `收入 100 工资`. `amount` is in cents.
#[derive(Debug, Clone)]
pub struct Transaction {
    pub transaction_type: String,
    pub amount: u64,
    pub description: String,
}

/// The mathematical value of a simple-form [`Transaction`].
#[verifier::ext_equal]
pub struct SimpleTransactionV {
    pub transaction_type: Seq<char>,
    pub amount: u64,
    pub description: Seq<char>,
}

impl View for Transaction {
    type V = SimpleTransactionV;

    open spec fn view(&self) -> SimpleTransactionV {
        SimpleTransactionV {
            transaction_type: self.transaction_type@,
            amount: self.amount,
            description: self.description@,
        }
    }
}

/// The value in cents of a whole token of the shape
/// `<digits>(.<digits>)?`, or nothing when the token has another shape or
/// its integer part is beyond the representable range.
pub open spec fn token_cents(t: Seq<char>) -> Option<u64> {
    let de = run_end(t, 0, |c: char| is_digit_char(c));
    let fe = run_end(t, de + 1, |c: char| is_digit_char(c));
    if de == 0 {
        None
    } else if crate::text::digits_val(t.subrange(0, de)) > crate::grammar::MAX_AMOUNT_UNITS {
        None
    } else if de == t.len() {
        Some(
            (crate::text::digits_val(t.subrange(0, de)) * 100) as u64,
        )
    } else if t[de] == '.' && fe > de + 1 && fe == t.len() {
        Some(
            (crate::text::digits_val(t.subrange(0, de)) * 100 + crate::grammar::frac_cents(
                t.subrange(de + 1, fe),
            )) as u64,
        )
    } else {
        None
    }
}

/// The parse of the simple space-separated transaction form: a direction
/// word, an amount, and a description of the remaining words.
pub open spec fn spec_parse_transaction(s: Seq<char>) -> Result<SimpleTransactionV, ErrV> {
    let ts = crate::text::spec_tokens(s);
    if ts.len() < 3 {
        Err(ErrV::Parser("Invalid transaction format"@))
    } else {
        match token_cents(ts[1]) {
            None => Err(ErrV::Parser("Invalid amount"@)),
            Some(a) => {
                if ts[0] == "收入"@ || ts[0] == "支出"@ {
                    Ok(
                        SimpleTransactionV {
                            transaction_type: ts[0],
                            amount: a,
                            description: crate::text::join_spaces(ts.subrange(2, ts.len() as int)),
                        },
                    )
                } else {
                    Err(ErrV::Parser("Invalid transaction type"@))
                }
            },
        }
    }
}

/// Reads the value in cents of a whole simple-form amount token.
pub fn read_token_cents(t: &str) -> (r: Option<u64>)
    ensures
        r == token_cents(t@),
{
    let cs = chars_vec(t);
    let n = cs.len();
    let de = scan_digits(&cs, 0);
    if de == 0 {
        return None;
    }
    proof {
        crate::text::lemma_run_end(cs@, 0, |c: char| is_digit_char(c));
    }
    let units = match crate::grammar::digits_value(&cs, 0, de) {
        None => {
            return None;
        },
        Some(u) => u,
    };
    if de == n {
        return Some(units * 100);
    }
    if cs[de] != '.' {
        return None;
    }
    let fe = scan_digits(&cs, de + 1);
    if fe == de + 1 || fe != n {
        return None;
    }
    proof {
        crate::text::lemma_run_end(cs@, de + 1, |c: char| is_digit_char(c));
    }
    let d0 = crate::text::digit_val(cs[de + 1]);
    let fc: u64 = if fe - (de + 1) == 1 {
        d0 * 10
    } else {
        d0 * 10 + crate::text::digit_val(cs[de + 2])
    };
    assert(fc == crate::grammar::frac_cents(cs@.subrange(de + 1, fe as int)));
    Some(units * 100 + fc)
}

impl MessageParser {
    /// Parses the simple space-separated transaction form, such as
    /// `收入 100 工资`: a direction word (income or expense), an amount,
    /// and a description of the remaining words.
    #[verifier::loop_isolation(false)]
    pub fn parse_transaction(&self, text: &str) -> (r: Result<Transaction, WalletBotError>)
        ensures
            match r {
                Ok(t) => spec_parse_transaction(text@) == Ok::<SimpleTransactionV, ErrV>(t@),
                Err(e) => spec_parse_transaction(text@) == Err::<SimpleTransactionV, ErrV>(e@),
            },
    {
        let parts = crate::text::split_tokens(text);
        let ghost ts = crate::text::spec_tokens(text@);

        if parts.len() < 3 {
            return Err(WalletBotError::parser_error("Invalid transaction format"));
        }

        let amount = match read_token_cents(parts[1].as_str()) {
            None => {
                return Err(WalletBotError::parser_error("Invalid amount"));
            },
            Some(a) => a,
        };

        if !(str_eq(parts[0].as_str(), "收入") || str_eq(parts[0].as_str(), "支出")) {
            return Err(WalletBotError::parser_error("Invalid transaction type"));
        }

        let mut description = String::new();
        let mut k: usize = 2;
        while k < parts.len()
            invariant
                2 <= k <= parts@.len(),
                description@ == crate::text::join_spaces(
                    ts.subrange(2, k as int),
                ),
            decreases parts@.len() - k,
        {
            proof {
                crate::text::lemma_join_spaces_push(ts.subrange(2, k as int), ts[k as int]);
                assert(ts.subrange(2, k as int).push(ts[k as int]) =~= ts.subrange(
                    2,
                    k as int + 1,
                ));
            }
            if k > 2 {
                description.append(" ");
                proof {
                    reveal_strlit(" ");
                }
            }
            description.append(parts[k].as_str());
            k = k + 1;
        }

        let t = Transaction {
            transaction_type: parts[0].clone(),
            amount: amount,
            description: description,
        };
        proof {
            assert(t@ =~= spec_parse_transaction(text@)->Ok_0);
        }
        Ok(t)
    }
}

impl Default for MessageParser {
    /// A parser, as [`MessageParser::new`] builds it.
    fn default() -> (r: Self) {
        MessageParser::new()
    }
}

} // verus!

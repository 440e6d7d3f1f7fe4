//! The balance calculator: turns the current balance, a direction and an
//! amount — or an explicitly stated total — into the next balance, and
//! writes it back to the store.

use vstd::prelude::*;
use crate::error::{ErrV, WalletBotError};
use crate::ledger::{
    find_wallet, lemma_find_wallet_from, lemma_find_wallet_is, spec_balance_of,
    spec_get_or_create, spec_update_balance, wallet_key_match, wf, DatabaseOperations, LedgerView,
};
use crate::models::{BalanceUpdate, BalanceUpdateSource, BalanceUpdateV};
use crate::text::str_eq;

verus! {

/// Whether a direction tag takes money out of the wallet.
pub open spec fn is_outgoing(d: Seq<char>) -> bool {
    d == "出账"@ || d == "支出"@
}

/// Whether a direction tag puts money into the wallet.
pub open spec fn is_incoming(d: Seq<char>) -> bool {
    d == "入账"@ || d == "收入"@
}

/// The balance after applying a transaction: the amount is subtracted for
/// outgoing directions, added for incoming ones; an unrecognized direction
/// leaves the balance untouched.
pub open spec fn next_balance(current: int, direction: Seq<char>, amount: int) -> int {
    if is_outgoing(direction) {
        current - amount
    } else if is_incoming(direction) {
        current + amount
    } else {
        current
    }
}

/// The message text of a balance that left the representable range.
pub open spec fn overflow_text() -> Seq<char> {
    "balance out of range"@
}

/// The smart balance step: the wallet is fetched or created; a stated
/// total overrides the balance outright (the manual-edit path), else the
/// transaction delta is applied; the new balance is written back.
pub open spec fn spec_smart_calculate(
    lv: LedgerView,
    chat_id: i64,
    wallet_name: Seq<char>,
    transaction_type: Seq<char>,
    amount: u64,
    total_amount: Option<i64>,
    message_id: Option<i64>,
    now: i64,
) -> (LedgerView, Result<BalanceUpdateV, ErrV>) {
    match spec_get_or_create(lv, chat_id, wallet_name, now).1 {
        Err(e) => (lv, Err(e)),
        Ok(w) => {
            let s1 = spec_get_or_create(lv, chat_id, wallet_name, now).0;
            match total_amount {
                Some(t) => (
                    spec_update_balance(s1, chat_id, wallet_name, t, now),
                    Ok(
                        BalanceUpdateV {
                            wallet_name: wallet_name,
                            old_balance: w.current_balance,
                            new_balance: t,
                            source: BalanceUpdateSource::ManualEdit,
                            message_id: message_id,
                            chat_id: Some(chat_id),
                        },
                    ),
                ),
                None => {
                    let nb = next_balance(
                        w.current_balance as int,
                        transaction_type,
                        amount as int,
                    );
                    if i64::MIN <= nb <= i64::MAX {
                        (
                            spec_update_balance(s1, chat_id, wallet_name, nb as i64, now),
                            Ok(
                                BalanceUpdateV {
                                    wallet_name: wallet_name,
                                    old_balance: w.current_balance,
                                    new_balance: nb as i64,
                                    source: BalanceUpdateSource::Transaction,
                                    message_id: message_id,
                                    chat_id: Some(chat_id),
                                },
                            ),
                        )
                    } else {
                        (s1, Err(ErrV::BalanceCalculation(overflow_text())))
                    }
                },
            }
        },
    }
}

/// After a fetch-or-create, the wallet is present and findable.
pub proof fn lemma_wallet_after_create(lv: LedgerView, chat_id: i64, name: Seq<char>, now: i64)
    requires
        spec_get_or_create(lv, chat_id, name, now).1 is Ok,
    ensures
        ({
            let s1 = spec_get_or_create(lv, chat_id, name, now).0;
            let w = spec_get_or_create(lv, chat_id, name, now).1->Ok_0;
            match find_wallet(s1.wallets, chat_id, name) {
                Some(i) => s1.wallets[i] == w,
                None => false,
            }
        }),
{
    let s1 = spec_get_or_create(lv, chat_id, name, now).0;
    let w = spec_get_or_create(lv, chat_id, name, now).1->Ok_0;
    lemma_find_wallet_from(lv.wallets, chat_id, name, 0);
    match find_wallet(lv.wallets, chat_id, name) {
        Some(i) => {},
        None => {
            let n = lv.wallets.len() as int;
            assert(s1.wallets[n] == w);
            assert(wallet_key_match(s1.wallets[n], chat_id, name));
            lemma_find_wallet_is(s1.wallets, chat_id, name, 0, n);
        },
    }
}

/// The balance calculator, holding the Ledger store it reads and writes.
#[derive(Debug)]
pub struct BalanceCalculator {
    pub db: DatabaseOperations,
}

impl BalanceCalculator {
    /// A calculator over the given store.
    pub fn new(db: DatabaseOperations) -> (r: Self)
        ensures
            r.db == db,
    {
        BalanceCalculator { db }
    }

    /// Computes the balance the wallet would reach after the transaction,
    /// creating the wallet with balance zero when it is new. The balance
    /// is not written back. The period arguments name the statement
    /// period; the result does not depend on them.
    pub fn calculate_transaction_balance(
        &mut self,
        chat_id: i64,
        wallet_name: &str,
        transaction_type: &str,
        amount: u64,
        _month: &str,
        _year: &str,
        now: i64,
    ) -> (r: Result<i64, WalletBotError>)
        requires
            wf(old(self).db@),
        ensures
            wf(final(self).db@),
            final(self).db@ == spec_get_or_create(old(self).db@, chat_id, wallet_name@, now).0,
            match spec_get_or_create(old(self).db@, chat_id, wallet_name@, now).1 {
                Ok(w) => {
                    let nb = next_balance(
                        w.current_balance as int,
                        transaction_type@,
                        amount as int,
                    );
                    if i64::MIN <= nb <= i64::MAX {
                        r matches Ok(v) && v == nb
                    } else {
                        r matches Err(e) && e@ == ErrV::BalanceCalculation(overflow_text())
                    }
                },
                Err(e2) => r matches Err(e) && e@ == e2,
            },
    {
        let w = match self.db.get_or_create_wallet(chat_id, wallet_name, now) {
            Ok(w) => w,
            Err(e) => {
                return Err(e);
            },
        };
        let cur = w.current_balance;
        let nb: i128 = if str_eq(transaction_type, "出账") || str_eq(transaction_type, "支出") {
            cur as i128 - amount as i128
        } else if str_eq(transaction_type, "入账") || str_eq(transaction_type, "收入") {
            cur as i128 + amount as i128
        } else {
            cur as i128
        };
        if nb < i64::MIN as i128 || nb > i64::MAX as i128 {
            Err(WalletBotError::balance_calculation_error("balance out of range"))
        } else {
            Ok(nb as i64)
        }
    }

    /// Overrides the wallet's balance with an explicitly stated total: the
    /// manual-edit path. The wallet is created first when it is new.
    pub fn update_from_manual_total(
        &mut self,
        chat_id: i64,
        wallet_name: &str,
        total_amount: i64,
        message_id: Option<i64>,
        now: i64,
    ) -> (r: Result<BalanceUpdate, WalletBotError>)
        requires
            wf(old(self).db@),
        ensures
            wf(final(self).db@),
            final(self).db@ == spec_smart_calculate(
                old(self).db@,
                chat_id,
                wallet_name@,
                Seq::<char>::empty(),
                0,
                Some(total_amount),
                message_id,
                now,
            ).0,
            match spec_smart_calculate(
                old(self).db@,
                chat_id,
                wallet_name@,
                Seq::<char>::empty(),
                0,
                Some(total_amount),
                message_id,
                now,
            ).1 {
                Ok(u) => r matches Ok(b) && b@ == u,
                Err(e2) => r matches Err(e) && e@ == e2,
            },
    {
        let w = match self.db.get_or_create_wallet(chat_id, wallet_name, now) {
            Ok(w) => w,
            Err(e) => {
                return Err(e);
            },
        };
        match self.db.update_wallet_balance(chat_id, wallet_name, total_amount, now) {
            Ok(u) => u,
            Err(e) => {
                return Err(e);
            },
        };
        Ok(
            BalanceUpdate {
                wallet_name: String::from_str(wallet_name),
                old_balance: w.current_balance,
                new_balance: total_amount,
                source: BalanceUpdateSource::ManualEdit,
                message_id: message_id,
                chat_id: Some(chat_id),
            },
        )
    }

    /// The smart balance step: a stated total overrides the balance (the
    /// manual-edit path); otherwise the transaction delta is applied. The
    /// new balance is written back to the store.
    pub fn smart_calculate_balance(
        &mut self,
        chat_id: i64,
        wallet_name: &str,
        transaction_type: &str,
        amount: u64,
        month: &str,
        year: &str,
        total_amount: Option<i64>,
        message_id: Option<i64>,
        now: i64,
    ) -> (r: Result<BalanceUpdate, WalletBotError>)
        requires
            wf(old(self).db@),
        ensures
            wf(final(self).db@),
            final(self).db@ == spec_smart_calculate(
                old(self).db@,
                chat_id,
                wallet_name@,
                transaction_type@,
                amount,
                total_amount,
                message_id,
                now,
            ).0,
            match spec_smart_calculate(
                old(self).db@,
                chat_id,
                wallet_name@,
                transaction_type@,
                amount,
                total_amount,
                message_id,
                now,
            ).1 {
                Ok(u) => r matches Ok(b) && b@ == u,
                Err(e2) => r matches Err(e) && e@ == e2,
            },
    {
        match total_amount {
            Some(t) => {
                let r = self.update_from_manual_total(chat_id, wallet_name, t, message_id, now);
                proof {
                    assert(spec_smart_calculate(
                        old(self).db@,
                        chat_id,
                        wallet_name@,
                        transaction_type@,
                        amount,
                        total_amount,
                        message_id,
                        now,
                    ) =~= spec_smart_calculate(
                        old(self).db@,
                        chat_id,
                        wallet_name@,
                        Seq::<char>::empty(),
                        0,
                        Some(t),
                        message_id,
                        now,
                    ));
                }
                r
            },
            None => {
                let ghost pre = self.db@;
                let w = match self.db.get_or_create_wallet(chat_id, wallet_name, now) {
                    Ok(w) => w,
                    Err(e) => {
                        return Err(e);
                    },
                };
                let old_balance = w.current_balance;
                proof {
                    lemma_wallet_after_create(pre, chat_id, wallet_name@, now);
                }
                let new_balance = match self.calculate_transaction_balance(
                    chat_id,
                    wallet_name,
                    transaction_type,
                    amount,
                    month,
                    year,
                    now,
                ) {
                    Ok(v) => v,
                    Err(e) => {
                        return Err(e);
                    },
                };
                match self.db.update_wallet_balance(chat_id, wallet_name, new_balance, now) {
                    Ok(u) => u,
                    Err(e) => {
                        return Err(e);
                    },
                };
                Ok(
                    BalanceUpdate {
                        wallet_name: String::from_str(wallet_name),
                        old_balance: old_balance,
                        new_balance: new_balance,
                        source: BalanceUpdateSource::Transaction,
                        message_id: message_id,
                        chat_id: Some(chat_id),
                    },
                )
            },
        }
    }

    /// The balance the wallet most recently reached.
    pub fn get_latest_balance(
        &self,
        chat_id: i64,
        wallet_name: &str,
        month: &str,
        year: &str,
    ) -> (r: Result<i64, WalletBotError>)
        ensures
            match spec_balance_of(self.db@, chat_id, wallet_name@) {
                Some(b) => r matches Ok(v) && v == b,
                None => r matches Err(e) && e@ == ErrV::WalletNotFound(wallet_name@),
            },
    {
        self.db.get_latest_balance(chat_id, wallet_name, month, year)
    }

    /// Whether a recomputed total differs from the stored one by more than
    /// the tolerance of one cent.
    pub fn should_adjust_balance(
        &self,
        _wallet_name: &str,
        current_total: i64,
        calculated_total: i64,
    ) -> (r: bool)
        ensures
            r == (current_total - calculated_total > 1 || calculated_total - current_total > 1),
    {
        let diff: i128 = current_total as i128 - calculated_total as i128;
        diff > 1 || diff < -1
    }

    /// Notes a balance adjustment. The audit trail of adjustments is kept
    /// by the surrounding program; the core records nothing for them.
    pub fn create_balance_adjustment(
        &self,
        _wallet_name: &str,
        _old_balance: i64,
        _new_balance: i64,
        _reason: &str,
        _message_id: Option<i64>,
        _chat_id: Option<i64>,
    ) -> (r: Result<(), WalletBotError>)
        ensures
            r is Ok,
    {
        Ok(())
    }
}

} // verus!

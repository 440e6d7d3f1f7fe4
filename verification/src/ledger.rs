//! The Ledger store: wallets, the append-only transaction log, and the
//! processed-message records of the idempotency guard.
//!
//! The store is the in-memory model of the conceptual schema: wallets are
//! unique per (`chat_id`, `name`), processed-message records are unique per
//! (`message_id`, `chat_id`), and every row is keyed one past its index.
//! Each operation's contract is one of the `spec_*` transition functions,
//! so callers compose whole flows mathematically.

use vstd::prelude::*;
use vstd::pervasive::VecAdditionalExecFns;
use crate::error::{ErrV, WalletBotError};
use crate::models::{Message, MessageV, Transaction, TransactionV, Wallet, WalletV};
use crate::text::str_eq;

verus! {

/// The highest row id the store hands out; a store this large refuses
/// further inserts.
pub const MAX_ROW_ID: u64 = 9_223_372_036_854_775_807;

/// The message text of an insert refused for want of row ids.
pub open spec fn store_full_text() -> Seq<char> {
    "row ids exhausted"@
}

/// The whole state of the store.
#[verifier::ext_equal]
pub struct LedgerView {
    pub wallets: Seq<WalletV>,
    pub transactions: Seq<TransactionV>,
    pub messages: Seq<MessageV>,
}

/// Whether a wallet row carries the given key.
pub open spec fn wallet_key_match(w: WalletV, chat_id: i64, name: Seq<char>) -> bool {
    w.chat_id == chat_id && w.name == name
}

/// The first index at or after `i` of a wallet with the given key.
pub open spec fn find_wallet_from(ws: Seq<WalletV>, chat_id: i64, name: Seq<char>, i: int) -> Option<
    int,
>
    decreases ws.len() - i,
{
    if i < 0 || i >= ws.len() {
        None
    } else if wallet_key_match(ws[i], chat_id, name) {
        Some(i)
    } else {
        find_wallet_from(ws, chat_id, name, i + 1)
    }
}

/// The index of the wallet with the given key, if any.
pub open spec fn find_wallet(ws: Seq<WalletV>, chat_id: i64, name: Seq<char>) -> Option<int> {
    find_wallet_from(ws, chat_id, name, 0)
}

/// What `find_wallet_from` returns: the least matching index, if any.
pub proof fn lemma_find_wallet_from(ws: Seq<WalletV>, chat_id: i64, name: Seq<char>, i: int)
    requires
        0 <= i,
    ensures
        match find_wallet_from(ws, chat_id, name, i) {
            Some(j) => i <= j < ws.len() && wallet_key_match(ws[j], chat_id, name) && forall|k: int|
                i <= k < j ==> !wallet_key_match(#[trigger] ws[k], chat_id, name),
            None => forall|k: int|
                i <= k < ws.len() ==> !wallet_key_match(#[trigger] ws[k], chat_id, name),
        },
    decreases ws.len() - i,
{
    if i < ws.len() && !wallet_key_match(ws[i], chat_id, name) {
        lemma_find_wallet_from(ws, chat_id, name, i + 1);
    }
}

/// If `j` carries the key and nothing before it does, `j` is found.
pub proof fn lemma_find_wallet_is(ws: Seq<WalletV>, chat_id: i64, name: Seq<char>, i: int, j: int)
    requires
        0 <= i <= j < ws.len(),
        wallet_key_match(ws[j], chat_id, name),
        forall|k: int| i <= k < j ==> !wallet_key_match(#[trigger] ws[k], chat_id, name),
    ensures
        find_wallet_from(ws, chat_id, name, i) == Some(j),
    decreases j - i,
{
    if i < j {
        lemma_find_wallet_is(ws, chat_id, name, i + 1, j);
    }
}

/// If no row carries the key, nothing is found.
pub proof fn lemma_find_wallet_none(ws: Seq<WalletV>, chat_id: i64, name: Seq<char>, i: int)
    requires
        0 <= i,
        forall|k: int| i <= k < ws.len() ==> !wallet_key_match(#[trigger] ws[k], chat_id, name),
    ensures
        find_wallet_from(ws, chat_id, name, i) == None::<int>,
    decreases ws.len() - i,
{
    if i < ws.len() {
        lemma_find_wallet_none(ws, chat_id, name, i + 1);
    }
}

/// Whether a processed-message record carries the given key.
pub open spec fn message_key_match(m: MessageV, message_id: i64, chat_id: i64) -> bool {
    m.message_id == message_id && m.chat_id == chat_id
}

/// The first index at or after `i` of a record with the given key.
pub open spec fn find_message_from(
    ms: Seq<MessageV>,
    message_id: i64,
    chat_id: i64,
    i: int,
) -> Option<int>
    decreases ms.len() - i,
{
    if i < 0 || i >= ms.len() {
        None
    } else if message_key_match(ms[i], message_id, chat_id) {
        Some(i)
    } else {
        find_message_from(ms, message_id, chat_id, i + 1)
    }
}

/// The index of the record with the given key, if any.
pub open spec fn find_message(ms: Seq<MessageV>, message_id: i64, chat_id: i64) -> Option<int> {
    find_message_from(ms, message_id, chat_id, 0)
}

/// What `find_message_from` returns: the least matching index, if any.
pub proof fn lemma_find_message_from(ms: Seq<MessageV>, message_id: i64, chat_id: i64, i: int)
    requires
        0 <= i,
    ensures
        match find_message_from(ms, message_id, chat_id, i) {
            Some(j) => i <= j < ms.len() && message_key_match(ms[j], message_id, chat_id) && forall|
                k: int,
            | i <= k < j ==> !message_key_match(#[trigger] ms[k], message_id, chat_id),
            None => forall|k: int|
                i <= k < ms.len() ==> !message_key_match(#[trigger] ms[k], message_id, chat_id),
        },
    decreases ms.len() - i,
{
    if i < ms.len() && !message_key_match(ms[i], message_id, chat_id) {
        lemma_find_message_from(ms, message_id, chat_id, i + 1);
    }
}

/// If `j` carries the key and nothing before it does, `j` is found.
pub proof fn lemma_find_message_is(
    ms: Seq<MessageV>,
    message_id: i64,
    chat_id: i64,
    i: int,
    j: int,
)
    requires
        0 <= i <= j < ms.len(),
        message_key_match(ms[j], message_id, chat_id),
        forall|k: int| i <= k < j ==> !message_key_match(#[trigger] ms[k], message_id, chat_id),
    ensures
        find_message_from(ms, message_id, chat_id, i) == Some(j),
    decreases j - i,
{
    if i < j {
        lemma_find_message_is(ms, message_id, chat_id, i + 1, j);
    }
}

/// If no record carries the key, nothing is found.
pub proof fn lemma_find_message_none(ms: Seq<MessageV>, message_id: i64, chat_id: i64, i: int)
    requires
        0 <= i,
        forall|k: int| i <= k < ms.len() ==> !message_key_match(#[trigger] ms[k], message_id, chat_id),
    ensures
        find_message_from(ms, message_id, chat_id, i) == None::<int>,
    decreases ms.len() - i,
{
    if i < ms.len() {
        lemma_find_message_none(ms, message_id, chat_id, i + 1);
    }
}

/// The store's invariant: row ids are one past the index, wallet keys are
/// unique, and processed-message keys are unique.
pub open spec fn wf(lv: LedgerView) -> bool {
    &&& lv.wallets.len() <= MAX_ROW_ID
    &&& lv.transactions.len() <= MAX_ROW_ID
    &&& lv.messages.len() <= MAX_ROW_ID
    &&& forall|i: int|
        0 <= i < lv.wallets.len() ==> (#[trigger] lv.wallets[i]).id == Some((i + 1) as i64)
    &&& forall|i: int|
        0 <= i < lv.transactions.len() ==> (#[trigger] lv.transactions[i]).id == Some(
            (i + 1) as i64,
        )
    &&& forall|i: int|
        0 <= i < lv.messages.len() ==> (#[trigger] lv.messages[i]).id == Some((i + 1) as i64)
    &&& forall|i: int, j: int|
        0 <= i < j < lv.wallets.len() ==> !wallet_key_match(
            #[trigger] lv.wallets[j],
            (#[trigger] lv.wallets[i]).chat_id,
            lv.wallets[i].name,
        )
    &&& forall|i: int, j: int|
        0 <= i < j < lv.messages.len() ==> !message_key_match(
            #[trigger] lv.messages[j],
            (#[trigger] lv.messages[i]).message_id,
            lv.messages[i].chat_id,
        )
}

// ---------------------------------------------------------------------------
// Transition functions: what each operation does to the state
// ---------------------------------------------------------------------------

/// A fresh wallet row with balance zero.
pub open spec fn spec_new_wallet(chat_id: i64, name: Seq<char>, id: int, now: i64) -> WalletV {
    WalletV {
        id: Some(id as i64),
        chat_id: chat_id,
        name: name,
        current_balance: 0,
        created_at: Some(now),
        updated_at: Some(now),
    }
}

/// Fetching a wallet, creating it with balance zero when absent.
pub open spec fn spec_get_or_create(
    lv: LedgerView,
    chat_id: i64,
    name: Seq<char>,
    now: i64,
) -> (LedgerView, Result<WalletV, ErrV>) {
    match find_wallet(lv.wallets, chat_id, name) {
        Some(i) => (lv, Ok(lv.wallets[i])),
        None => {
            if lv.wallets.len() < MAX_ROW_ID {
                let w = spec_new_wallet(chat_id, name, (lv.wallets.len() + 1) as int, now);
                (LedgerView { wallets: lv.wallets.push(w), ..lv }, Ok(w))
            } else {
                (lv, Err(ErrV::Database(store_full_text())))
            }
        },
    }
}

/// Setting a wallet's balance; a write to an absent wallet changes nothing.
pub open spec fn spec_update_balance(
    lv: LedgerView,
    chat_id: i64,
    name: Seq<char>,
    balance: i64,
    now: i64,
) -> LedgerView {
    match find_wallet(lv.wallets, chat_id, name) {
        Some(i) => LedgerView {
            wallets: lv.wallets.update(
                i,
                WalletV { current_balance: balance, updated_at: Some(now), ..lv.wallets[i] },
            ),
            ..lv
        },
        None => lv,
    }
}

/// Appending one row to the transaction log of an existing wallet.
pub open spec fn spec_record_transaction(
    lv: LedgerView,
    chat_id: i64,
    wallet_name: Seq<char>,
    transaction_type: Seq<char>,
    amount: u64,
    month: Seq<char>,
    year: Seq<char>,
    message_id: Option<i64>,
    now: i64,
) -> (LedgerView, Result<(), ErrV>) {
    match find_wallet(lv.wallets, chat_id, wallet_name) {
        None => (lv, Err(ErrV::WalletNotFound(wallet_name))),
        Some(i) => {
            if lv.transactions.len() < MAX_ROW_ID {
                let t = TransactionV {
                    id: Some((lv.transactions.len() + 1) as i64),
                    wallet_id: (i + 1) as i64,
                    transaction_type: transaction_type,
                    amount: amount,
                    month: month,
                    year: year,
                    message_id: message_id,
                    chat_id: Some(chat_id),
                    created_at: Some(now),
                };
                (LedgerView { transactions: lv.transactions.push(t), ..lv }, Ok(()))
            } else {
                (lv, Err(ErrV::Database(store_full_text())))
            }
        },
    }
}

/// Writing the processed-message record of an existing wallet: a record
/// with the same (`message_id`, `chat_id`) key is replaced in place, else
/// one is appended.
pub open spec fn spec_record_message(
    lv: LedgerView,
    message_id: i64,
    chat_id: i64,
    wallet_name: Seq<char>,
    has_total: bool,
    original_balance: Option<i64>,
    new_balance: Option<i64>,
    now: i64,
) -> (LedgerView, Result<(), ErrV>) {
    match find_wallet(lv.wallets, chat_id, wallet_name) {
        None => (lv, Err(ErrV::WalletNotFound(wallet_name))),
        Some(i) => {
            let wid = (i + 1) as i64;
            match find_message(lv.messages, message_id, chat_id) {
                Some(j) => {
                    let m = MessageV {
                        id: lv.messages[j].id,
                        message_id: message_id,
                        chat_id: chat_id,
                        wallet_id: wid,
                        has_total: has_total,
                        processed: true,
                        original_balance: original_balance,
                        new_balance: new_balance,
                        created_at: Some(now),
                    };
                    (LedgerView { messages: lv.messages.update(j, m), ..lv }, Ok(()))
                },
                None => {
                    if lv.messages.len() < MAX_ROW_ID {
                        let m = MessageV {
                            id: Some((lv.messages.len() + 1) as i64),
                            message_id: message_id,
                            chat_id: chat_id,
                            wallet_id: wid,
                            has_total: has_total,
                            processed: true,
                            original_balance: original_balance,
                            new_balance: new_balance,
                            created_at: Some(now),
                        };
                        (LedgerView { messages: lv.messages.push(m), ..lv }, Ok(()))
                    } else {
                        (lv, Err(ErrV::Database(store_full_text())))
                    }
                },
            }
        },
    }
}

/// The balance after a directly added transaction: the income directions
/// add, every other direction subtracts.
pub open spec fn add_next_balance(current: int, direction: Seq<char>, amount: int) -> int {
    if direction == "收入"@ || direction == "入账"@ {
        current + amount
    } else {
        current - amount
    }
}

/// Directly adding a transaction: the wallet is fetched or created, the
/// row is logged for the given period, and the balance moves by the
/// amount.
pub open spec fn spec_add_transaction(
    lv: LedgerView,
    chat_id: i64,
    name: Seq<char>,
    transaction_type: Seq<char>,
    amount: u64,
    month: Seq<char>,
    year: Seq<char>,
    now: i64,
) -> (LedgerView, Result<(), ErrV>) {
    match spec_get_or_create(lv, chat_id, name, now).1 {
        Err(e) => (lv, Err(e)),
        Ok(w) => {
            let s1 = spec_get_or_create(lv, chat_id, name, now).0;
            let rec = spec_record_transaction(
                s1,
                chat_id,
                name,
                transaction_type,
                amount,
                month,
                year,
                None,
                now,
            );
            match rec.1 {
                Err(e) => (rec.0, Err(e)),
                Ok(u) => {
                    let nb = add_next_balance(
                        w.current_balance as int,
                        transaction_type,
                        amount as int,
                    );
                    if i64::MIN <= nb <= i64::MAX {
                        (spec_update_balance(rec.0, chat_id, name, nb as i64, now), Ok(()))
                    } else {
                        (rec.0, Err(ErrV::BalanceCalculation("balance out of range"@)))
                    }
                },
            }
        },
    }
}

/// Whether the (`message_id`, `chat_id`) pair has been applied.
pub open spec fn spec_is_processed(lv: LedgerView, message_id: i64, chat_id: i64) -> bool {
    find_message(lv.messages, message_id, chat_id) is Some
}

/// The balance of the wallet with the given key, if it exists.
pub open spec fn spec_balance_of(lv: LedgerView, chat_id: i64, name: Seq<char>) -> Option<i64> {
    match find_wallet(lv.wallets, chat_id, name) {
        Some(i) => Some(lv.wallets[i].current_balance),
        None => None,
    }
}

/// The log rows of the wallet with row id `wid`, latest first.
pub open spec fn spec_wallet_txns(lv: LedgerView, wid: i64) -> Seq<TransactionV> {
    lv.transactions.filter(|t: TransactionV| t.wallet_id == wid).reverse()
}

// ---------------------------------------------------------------------------
// The store
// ---------------------------------------------------------------------------

/// The Ledger store.
#[derive(Debug)]
pub struct DatabaseOperations {
    wallets: Vec<Wallet>,
    transactions: Vec<Transaction>,
    messages: Vec<Message>,
}

impl View for DatabaseOperations {
    type V = LedgerView;

    closed spec fn view(&self) -> LedgerView {
        LedgerView {
            wallets: self.wallets@.map_values(|w: Wallet| w@),
            transactions: self.transactions@.map_values(|t: Transaction| t@),
            messages: self.messages@.map_values(|m: Message| m@),
        }
    }
}

impl DatabaseOperations {
    /// An empty store.
    pub fn new() -> (r: Self)
        ensures
            r@.wallets == Seq::<WalletV>::empty(),
            r@.transactions == Seq::<TransactionV>::empty(),
            r@.messages == Seq::<MessageV>::empty(),
            wf(r@),
    {
        let r = DatabaseOperations { wallets: Vec::new(), transactions: Vec::new(), messages: Vec::new() };
        proof {
            assert(r@.wallets =~= Seq::<WalletV>::empty());
            assert(r@.transactions =~= Seq::<TransactionV>::empty());
            assert(r@.messages =~= Seq::<MessageV>::empty());
        }
        r
    }

    /// The index of the wallet with the given key.
    #[verifier::loop_isolation(false)]
    fn wallet_index(&self, chat_id: i64, name: &str) -> (r: Option<usize>)
        ensures
            match r {
                Some(i) => find_wallet(self@.wallets, chat_id, name@) == Some(i as int) && i
                    < self@.wallets.len(),
                None => find_wallet(self@.wallets, chat_id, name@) is None,
            },
    {
        let mut i: usize = 0;
        while i < self.wallets.len()
            invariant
                i <= self@.wallets.len(),
                forall|k: int|
                    0 <= k < i ==> !wallet_key_match(
                        #[trigger] self@.wallets[k],
                        chat_id,
                        name@,
                    ),
            decreases self@.wallets.len() - i,
        {
            let w = &self.wallets[i];
            if w.chat_id == chat_id && str_eq(w.name.as_str(), name) {
                proof {
                    lemma_find_wallet_is(self@.wallets, chat_id, name@, 0, i as int);
                }
                return Some(i);
            }
            i = i + 1;
        }
        proof {
            lemma_find_wallet_none(self@.wallets, chat_id, name@, 0);
        }
        None
    }

    /// The index of the processed-message record with the given key.
    #[verifier::loop_isolation(false)]
    fn message_index(&self, message_id: i64, chat_id: i64) -> (r: Option<usize>)
        ensures
            match r {
                Some(i) => find_message(self@.messages, message_id, chat_id) == Some(i as int) && i
                    < self@.messages.len(),
                None => find_message(self@.messages, message_id, chat_id) is None,
            },
    {
        let mut i: usize = 0;
        while i < self.messages.len()
            invariant
                i <= self@.messages.len(),
                forall|k: int|
                    0 <= k < i ==> !message_key_match(
                        #[trigger] self@.messages[k],
                        message_id,
                        chat_id,
                    ),
            decreases self@.messages.len() - i,
        {
            let m = &self.messages[i];
            if m.message_id == message_id && m.chat_id == chat_id {
                proof {
                    lemma_find_message_is(self@.messages, message_id, chat_id, 0, i as int);
                }
                return Some(i);
            }
            i = i + 1;
        }
        proof {
            lemma_find_message_none(self@.messages, message_id, chat_id, 0);
        }
        None
    }

    /// Fetches the wallet with the given key, creating it with balance
    /// zero when it does not exist yet.
    pub fn get_or_create_wallet(&mut self, chat_id: i64, name: &str, now: i64) -> (r: Result<
        Wallet,
        WalletBotError,
    >)
        requires
            wf(old(self)@),
        ensures
            wf(final(self)@),
            final(self)@ == spec_get_or_create(old(self)@, chat_id, name@, now).0,
            (match r {
                Ok(w) => spec_get_or_create(old(self)@, chat_id, name@, now).1 == Ok::<
                    WalletV,
                    ErrV,
                >(w@),
                Err(e) => spec_get_or_create(old(self)@, chat_id, name@, now).1 == Err::<
                    WalletV,
                    ErrV,
                >(e@),
            }),
    {
        let ghost pre = self@;
        match self.wallet_index(chat_id, name) {
            Some(i) => {
                let w = self.wallets[i].clone();
                Ok(w)
            },
            None => {
                if (self.wallets.len() as u64) < MAX_ROW_ID {
                    let id = (self.wallets.len() as u64 + 1) as i64;
                    let w = Wallet {
                        id: Some(id),
                        chat_id: chat_id,
                        name: String::from_str(name),
                        current_balance: 0,
                        created_at: Some(now),
                        updated_at: Some(now),
                    };
                    let ret = w.clone();
                    self.wallets.push(w);
                    proof {
                        assert(self@.wallets =~= pre.wallets.push(
                            spec_new_wallet(chat_id, name@, (pre.wallets.len() + 1) as int, now),
                        ));
                        assert(self@ =~= spec_get_or_create(pre, chat_id, name@, now).0);
                        lemma_find_wallet_from(pre.wallets, chat_id, name@, 0);
                        assert(wf(self@));
                    }
                    Ok(ret)
                } else {
                    Err(WalletBotError::Database(String::from_str("row ids exhausted")))
                }
            },
        }
    }

    /// Creates the wallet if it is absent, then returns it.
    pub fn create_wallet(&mut self, chat_id: i64, name: &str, now: i64) -> (r: Result<
        Wallet,
        WalletBotError,
    >)
        requires
            wf(old(self)@),
        ensures
            wf(final(self)@),
            final(self)@ == spec_get_or_create(old(self)@, chat_id, name@, now).0,
            (match r {
                Ok(w) => spec_get_or_create(old(self)@, chat_id, name@, now).1 == Ok::<
                    WalletV,
                    ErrV,
                >(w@),
                Err(e) => spec_get_or_create(old(self)@, chat_id, name@, now).1 == Err::<
                    WalletV,
                    ErrV,
                >(e@),
            }),
    {
        self.get_or_create_wallet(chat_id, name, now)
    }

    /// Whether a wallet with the given key exists.
    pub fn wallet_exists(&self, chat_id: i64, name: &str) -> (r: bool)
        ensures
            r == (find_wallet(self@.wallets, chat_id, name@) is Some),
    {
        self.wallet_index(chat_id, name).is_some()
    }

    /// The balance of the wallet with the given key.
    pub fn get_balance(&self, chat_id: i64, wallet_name: &str) -> (r: Result<i64, WalletBotError>)
        ensures
            match spec_balance_of(self@, chat_id, wallet_name@) {
                Some(b) => r matches Ok(v) && v == b,
                None => r matches Err(e) && e@ == ErrV::WalletNotFound(wallet_name@),
            },
    {
        match self.wallet_index(chat_id, wallet_name) {
            Some(i) => Ok(self.wallets[i].current_balance),
            None => Err(WalletBotError::wallet_not_found(wallet_name)),
        }
    }

    /// The balance the wallet most recently reached. The period arguments
    /// name the statement period; the current balance does not depend on
    /// them.
    pub fn get_latest_balance(
        &self,
        chat_id: i64,
        wallet_name: &str,
        _month: &str,
        _year: &str,
    ) -> (r: Result<i64, WalletBotError>)
        ensures
            match spec_balance_of(self@, chat_id, wallet_name@) {
                Some(b) => r matches Ok(v) && v == b,
                None => r matches Err(e) && e@ == ErrV::WalletNotFound(wallet_name@),
            },
    {
        self.get_balance(chat_id, wallet_name)
    }

    /// Whether the (`message_id`, `chat_id`) pair has already been applied.
    pub fn is_message_processed(&self, message_id: i64, chat_id: i64) -> (r: bool)
        ensures
            r == spec_is_processed(self@, message_id, chat_id),
    {
        self.message_index(message_id, chat_id).is_some()
    }

    /// Sets the balance of the wallet with the given key; a write to an
    /// absent wallet changes nothing.
    pub fn update_wallet_balance(&mut self, chat_id: i64, name: &str, balance: i64, now: i64) -> (r:
        Result<(), WalletBotError>)
        requires
            wf(old(self)@),
        ensures
            wf(final(self)@),
            final(self)@ == spec_update_balance(old(self)@, chat_id, name@, balance, now),
            r is Ok,
    {
        let ghost pre = self@;
        match self.wallet_index(chat_id, name) {
            Some(i) => {
                let old_row = &self.wallets[i];
                let neww = Wallet {
                    id: old_row.id,
                    chat_id: old_row.chat_id,
                    name: old_row.name.clone(),
                    current_balance: balance,
                    created_at: old_row.created_at,
                    updated_at: Some(now),
                };
                self.wallets.set(i, neww);
                proof {
                    assert(self@.wallets =~= spec_update_balance(
                        pre,
                        chat_id,
                        name@,
                        balance,
                        now,
                    ).wallets);
                    assert(self@ =~= spec_update_balance(pre, chat_id, name@, balance, now));
                    lemma_find_wallet_from(pre.wallets, chat_id, name@, 0);
                    assert(wf(self@));
                }
                Ok(())
            },
            None => Ok(()),
        }
    }

    /// Appends one row to the transaction log of an existing wallet.
    pub fn record_transaction(
        &mut self,
        chat_id: i64,
        wallet_name: &str,
        transaction_type: &str,
        amount: u64,
        month: &str,
        year: &str,
        message_id: Option<i64>,
        now: i64,
    ) -> (r: Result<(), WalletBotError>)
        requires
            wf(old(self)@),
        ensures
            wf(final(self)@),
            final(self)@ == spec_record_transaction(
                old(self)@,
                chat_id,
                wallet_name@,
                transaction_type@,
                amount,
                month@,
                year@,
                message_id,
                now,
            ).0,
            (match r {
                Ok(u) => spec_record_transaction(
                    old(self)@,
                    chat_id,
                    wallet_name@,
                    transaction_type@,
                    amount,
                    month@,
                    year@,
                    message_id,
                    now,
                ).1 is Ok,
                Err(e) => spec_record_transaction(
                    old(self)@,
                    chat_id,
                    wallet_name@,
                    transaction_type@,
                    amount,
                    month@,
                    year@,
                    message_id,
                    now,
                ).1 == Err::<(), ErrV>(e@),
            }),
    {
        let ghost pre = self@;
        match self.wallet_index(chat_id, wallet_name) {
            None => Err(WalletBotError::wallet_not_found(wallet_name)),
            Some(i) => {
                if (self.transactions.len() as u64) < MAX_ROW_ID {
                    let tid = (self.transactions.len() as u64 + 1) as i64;
                    let wid = (i as u64 + 1) as i64;
                    let t = Transaction {
                        id: Some(tid),
                        wallet_id: wid,
                        transaction_type: String::from_str(transaction_type),
                        amount: amount,
                        month: String::from_str(month),
                        year: String::from_str(year),
                        message_id: message_id,
                        chat_id: Some(chat_id),
                        created_at: Some(now),
                    };
                    self.transactions.push(t);
                    proof {
                        assert(self@.transactions =~= spec_record_transaction(
                            pre,
                            chat_id,
                            wallet_name@,
                            transaction_type@,
                            amount,
                            month@,
                            year@,
                            message_id,
                            now,
                        ).0.transactions);
                        assert(self@ =~= spec_record_transaction(
                            pre,
                            chat_id,
                            wallet_name@,
                            transaction_type@,
                            amount,
                            month@,
                            year@,
                            message_id,
                            now,
                        ).0);
                        assert(wf(self@));
                    }
                    Ok(())
                } else {
                    Err(WalletBotError::Database(String::from_str("row ids exhausted")))
                }
            },
        }
    }

    /// Writes the processed-message record of an existing wallet, replacing
    /// any record with the same (`message_id`, `chat_id`) key.
    pub fn record_message(
        &mut self,
        message_id: i64,
        chat_id: i64,
        wallet_name: &str,
        has_total: bool,
        original_balance: Option<i64>,
        new_balance: Option<i64>,
        now: i64,
    ) -> (r: Result<(), WalletBotError>)
        requires
            wf(old(self)@),
        ensures
            wf(final(self)@),
            final(self)@ == spec_record_message(
                old(self)@,
                message_id,
                chat_id,
                wallet_name@,
                has_total,
                original_balance,
                new_balance,
                now,
            ).0,
            (match r {
                Ok(u) => spec_record_message(
                    old(self)@,
                    message_id,
                    chat_id,
                    wallet_name@,
                    has_total,
                    original_balance,
                    new_balance,
                    now,
                ).1 is Ok,
                Err(e) => spec_record_message(
                    old(self)@,
                    message_id,
                    chat_id,
                    wallet_name@,
                    has_total,
                    original_balance,
                    new_balance,
                    now,
                ).1 == Err::<(), ErrV>(e@),
            }),
            r is Ok ==> spec_is_processed(final(self)@, message_id, chat_id),
    {
        let ghost pre = self@;
        let widx = match self.wallet_index(chat_id, wallet_name) {
            None => {
                return Err(WalletBotError::wallet_not_found(wallet_name));
            },
            Some(i) => i,
        };
        let wid = (widx as u64 + 1) as i64;
        match self.message_index(message_id, chat_id) {
            Some(j) => {
                let old_id = self.messages[j].id;
                let m = Message {
                    id: old_id,
                    message_id: message_id,
                    chat_id: chat_id,
                    wallet_id: wid,
                    has_total: has_total,
                    processed: true,
                    original_balance: original_balance,
                    new_balance: new_balance,
                    created_at: Some(now),
                };
                self.messages.set(j, m);
                proof {
                    let post = spec_record_message(
                        pre,
                        message_id,
                        chat_id,
                        wallet_name@,
                        has_total,
                        original_balance,
                        new_balance,
                        now,
                    ).0;
                    assert(self@.messages =~= post.messages);
                    assert(self@ =~= post);
                    lemma_find_message_from(pre.messages, message_id, chat_id, 0);
                    assert(wf(self@));
                    lemma_find_message_is(self@.messages, message_id, chat_id, 0, j as int);
                }
                Ok(())
            },
            None => {
                if (self.messages.len() as u64) < MAX_ROW_ID {
                    let mid = (self.messages.len() as u64 + 1) as i64;
                    let m = Message {
                        id: Some(mid),
                        message_id: message_id,
                        chat_id: chat_id,
                        wallet_id: wid,
                        has_total: has_total,
                        processed: true,
                        original_balance: original_balance,
                        new_balance: new_balance,
                        created_at: Some(now),
                    };
                    let ghost j = pre.messages.len() as int;
                    self.messages.push(m);
                    proof {
                        let post = spec_record_message(
                            pre,
                            message_id,
                            chat_id,
                            wallet_name@,
                            has_total,
                            original_balance,
                            new_balance,
                            now,
                        ).0;
                        assert(self@.messages =~= post.messages);
                        assert(self@ =~= post);
                        lemma_find_message_from(pre.messages, message_id, chat_id, 0);
                        assert(wf(self@));
                        lemma_find_message_is(self@.messages, message_id, chat_id, 0, j);
                    }
                    Ok(())
                } else {
                    Err(WalletBotError::Database(String::from_str("row ids exhausted")))
                }
            },
        }
    }

    /// Records a transaction dated to the present period and moves the
    /// wallet's balance by its amount, creating the wallet first when it
    /// is new. The income directions add; every other direction —
    /// including an unrecognized one — is treated as an expense and
    /// subtracts.
    pub fn add_transaction(
        &mut self,
        chat_id: i64,
        wallet_name: &str,
        transaction_type: &str,
        amount: u64,
        _description: &str,
        _transaction_id: &str,
    ) -> (r: Result<(), WalletBotError>)
        requires
            wf(old(self)@),
        ensures
            wf(final(self)@),
            exists|now: i64, mo: Seq<char>, yr: Seq<char>|
                {
                    let step = #[trigger] spec_add_transaction(
                        old(self)@,
                        chat_id,
                        wallet_name@,
                        transaction_type@,
                        amount,
                        mo,
                        yr,
                        now,
                    );
                    &&& mo.len() == 2
                    &&& crate::utils::all_digits(mo)
                    &&& 1 <= crate::text::digits_val(mo) <= 12
                    &&& final(self)@ == step.0
                    &&& (match r {
                        Ok(u) => step.1 is Ok,
                        Err(e) => step.1 == Err::<(), ErrV>(e@),
                    })
                },
    {
        let now = crate::clock::now_unix();
        let period = crate::clock::current_period();
        let ghost pre = self@;
        let ghost mo = period.0@;
        let ghost yr = period.1@;
        let w = match self.get_or_create_wallet(chat_id, wallet_name, now) {
            Ok(w) => w,
            Err(e) => {
                proof {
                    assert(spec_add_transaction(
                        pre,
                        chat_id,
                        wallet_name@,
                        transaction_type@,
                        amount,
                        mo,
                        yr,
                        now,
                    ).0 == pre);
                }
                return Err(e);
            },
        };
        match self.record_transaction(
            chat_id,
            wallet_name,
            transaction_type,
            amount,
            period.0.as_str(),
            period.1.as_str(),
            None,
            now,
        ) {
            Ok(u) => u,
            Err(e) => {
                return Err(e);
            },
        };
        let cur = w.current_balance;
        let nb: i128 = if str_eq(transaction_type, "收入") || str_eq(transaction_type, "入账") {
            cur as i128 + amount as i128
        } else {
            cur as i128 - amount as i128
        };
        if nb < i64::MIN as i128 || nb > i64::MAX as i128 {
            return Err(WalletBotError::balance_calculation_error("balance out of range"));
        }
        proof {
            crate::calculator::lemma_wallet_after_create(pre, chat_id, wallet_name@, now);
        }
        match self.update_wallet_balance(chat_id, wallet_name, nb as i64, now) {
            Ok(u) => u,
            Err(e) => {
                return Err(e);
            },
        };
        Ok(())
    }

    /// The log rows of the wallet with the given key, latest first.
    #[verifier::loop_isolation(false)]
    pub fn get_transactions(&self, chat_id: i64, wallet_name: &str) -> (r: Result<
        Vec<Transaction>,
        WalletBotError,
    >)
        requires
            wf(self@),
        ensures
            match find_wallet(self@.wallets, chat_id, wallet_name@) {
                Some(i) => r matches Ok(ts) && ts@.map_values(|t: Transaction| t@)
                    == spec_wallet_txns(self@, (i + 1) as i64),
                None => r matches Err(e) && e@ == ErrV::WalletNotFound(wallet_name@),
            },
    {
        let widx = match self.wallet_index(chat_id, wallet_name) {
            None => {
                return Err(WalletBotError::wallet_not_found(wallet_name));
            },
            Some(i) => i,
        };
        let wid = (widx as u64 + 1) as i64;
        let ghost f = |t: TransactionV| t.wallet_id == wid;
        let mut out: Vec<Transaction> = Vec::new();
        let mut k: usize = self.transactions.len();
        proof {
            reveal(Seq::filter);
            let empty_tail = self@.transactions.subrange(
                k as int,
                self@.transactions.len() as int,
            );
            assert(empty_tail =~= Seq::<TransactionV>::empty());
            assert(out@.map_values(|t: Transaction| t@) =~= empty_tail.filter(f).reverse());
        }
        while k > 0
            invariant
                k <= self@.transactions.len(),
                out@.map_values(|t: Transaction| t@) == self@.transactions.subrange(
                    k as int,
                    self@.transactions.len() as int,
                ).filter(f).reverse(),
            decreases k,
        {
            k = k - 1;
            let ghost before = out@.map_values(|t: Transaction| t@);
            let ghost tail = self@.transactions.subrange(
                k as int + 1,
                self@.transactions.len() as int,
            );
            if self.transactions[k].wallet_id == wid {
                out.push(self.transactions[k].clone());
            }
            proof {
                let whole = self@.transactions.subrange(k as int, self@.transactions.len() as int);
                assert(whole =~= seq![self@.transactions[k as int]] + tail);
                lemma_filter_head(self@.transactions[k as int], tail, f);
                if f(self@.transactions[k as int]) {
                    assert(out@.map_values(|t: Transaction| t@) =~= before.push(
                        self@.transactions[k as int],
                    ));
                    assert(whole.filter(f).reverse() =~= before.push(
                        self@.transactions[k as int],
                    ));
                } else {
                    assert(whole.filter(f).reverse() =~= before);
                }
            }
        }
        proof {
            assert(self@.transactions.subrange(0, self@.transactions.len() as int)
                =~= self@.transactions);
        }
        Ok(out)
    }
}

/// Filtering a sequence with a known head: the head is kept exactly when
/// it satisfies the predicate.
pub proof fn lemma_filter_head(
    h: TransactionV,
    tail: Seq<TransactionV>,
    f: spec_fn(TransactionV) -> bool,
)
    ensures
        (seq![h] + tail).filter(f) == if f(h) {
            seq![h] + tail.filter(f)
        } else {
            tail.filter(f)
        },
    decreases tail.len(),
{
    reveal(Seq::filter);
    let whole = seq![h] + tail;
    if tail.len() == 0 {
        assert(whole =~= seq![h]);
        assert(tail =~= Seq::<TransactionV>::empty());
        assert(whole.drop_last() =~= tail);
        if f(h) {
            assert(whole.filter(f) =~= seq![h] + tail.filter(f));
        } else {
            assert(whole.filter(f) =~= tail.filter(f));
        }
    } else {
        let h2 = tail.last();
        let tail2 = tail.drop_last();
        lemma_filter_head(h, tail2, f);
        assert(whole.drop_last() =~= seq![h] + tail2);
        assert(whole.last() == h2);
        if f(h2) {
            assert(whole.filter(f) == whole.drop_last().filter(f).push(h2));
            assert(tail.filter(f) == tail2.filter(f).push(h2));
        } else {
            assert(whole.filter(f) == whole.drop_last().filter(f));
            assert(tail.filter(f) == tail2.filter(f));
        }
        if f(h) {
            assert(whole.filter(f) =~= seq![h] + tail.filter(f));
        } else {
            assert(whole.filter(f) =~= tail.filter(f));
        }
    }
}

} // verus!

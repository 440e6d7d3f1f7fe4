//! Shared data types.
//!
//! Monetary values are fixed-point: an `i64` or `u64` counts cents, so
//! `15000` stands for `150.00` units. Timestamps are passed around as plain
//! integers (seconds); the store records them without interpreting them.

use vstd::prelude::*;

verus! {

/// A named balance accumulator scoped to a chat. Identity is the pair
/// (`chat_id`, `name`); `current_balance` is in cents.
#[derive(Debug)]
pub struct Wallet {
    pub id: Option<i64>,
    pub chat_id: i64,
    pub name: String,
    pub current_balance: i64,
    pub created_at: Option<i64>,
    pub updated_at: Option<i64>,
}

/// The mathematical value of a [`Wallet`].
#[verifier::ext_equal]
pub struct WalletV {
    pub id: Option<i64>,
    pub chat_id: i64,
    pub name: Seq<char>,
    pub current_balance: i64,
    pub created_at: Option<i64>,
    pub updated_at: Option<i64>,
}

impl View for Wallet {
    type V = WalletV;

    open spec fn view(&self) -> WalletV {
        WalletV {
            id: self.id,
            chat_id: self.chat_id,
            name: self.name@,
            current_balance: self.current_balance,
            created_at: self.created_at,
            updated_at: self.updated_at,
        }
    }
}

/// One row of the append-only transaction log. `amount` is in cents.
#[derive(Debug)]
pub struct Transaction {
    pub id: Option<i64>,
    pub wallet_id: i64,
    pub transaction_type: String,
    pub amount: u64,
    pub month: String,
    pub year: String,
    pub message_id: Option<i64>,
    pub chat_id: Option<i64>,
    pub created_at: Option<i64>,
}

/// The mathematical value of a [`Transaction`].
#[verifier::ext_equal]
pub struct TransactionV {
    pub id: Option<i64>,
    pub wallet_id: i64,
    pub transaction_type: Seq<char>,
    pub amount: u64,
    pub month: Seq<char>,
    pub year: Seq<char>,
    pub message_id: Option<i64>,
    pub chat_id: Option<i64>,
    pub created_at: Option<i64>,
}

impl View for Transaction {
    type V = TransactionV;

    open spec fn view(&self) -> TransactionV {
        TransactionV {
            id: self.id,
            wallet_id: self.wallet_id,
            transaction_type: self.transaction_type@,
            amount: self.amount,
            month: self.month@,
            year: self.year@,
            message_id: self.message_id,
            chat_id: self.chat_id,
            created_at: self.created_at,
        }
    }
}

/// The processed-message record: its presence for a given
/// (`message_id`, `chat_id`) pair means that message has been fully applied.
#[derive(Debug)]
pub struct Message {
    pub id: Option<i64>,
    pub message_id: i64,
    pub chat_id: i64,
    pub wallet_id: i64,
    pub has_total: bool,
    pub processed: bool,
    pub original_balance: Option<i64>,
    pub new_balance: Option<i64>,
    pub created_at: Option<i64>,
}

/// The mathematical value of a [`Message`].
#[verifier::ext_equal]
pub struct MessageV {
    pub id: Option<i64>,
    pub message_id: i64,
    pub chat_id: i64,
    pub wallet_id: i64,
    pub has_total: bool,
    pub processed: bool,
    pub original_balance: Option<i64>,
    pub new_balance: Option<i64>,
    pub created_at: Option<i64>,
}

impl View for Message {
    type V = MessageV;

    open spec fn view(&self) -> MessageV {
        MessageV {
            id: self.id,
            message_id: self.message_id,
            chat_id: self.chat_id,
            wallet_id: self.wallet_id,
            has_total: self.has_total,
            processed: self.processed,
            original_balance: self.original_balance,
            new_balance: self.new_balance,
            created_at: self.created_at,
        }
    }
}

/// The fields extracted from one wallet message. `amount` and
/// `total_amount` are in cents; `month` and `year` are the raw digit
/// strings of the period pair.
#[derive(Debug, Clone)]
pub struct ParsedMessage {
    pub wallet_name: String,
    pub transaction_type: String,
    pub amount: u64,
    pub month: String,
    pub year: String,
    pub total_amount: Option<u64>,
    pub original_text: String,
}

/// The mathematical value of a [`ParsedMessage`].
#[verifier::ext_equal]
pub struct ParsedMessageV {
    pub wallet_name: Seq<char>,
    pub transaction_type: Seq<char>,
    pub amount: u64,
    pub month: Seq<char>,
    pub year: Seq<char>,
    pub total_amount: Option<u64>,
    pub original_text: Seq<char>,
}

impl View for ParsedMessage {
    type V = ParsedMessageV;

    open spec fn view(&self) -> ParsedMessageV {
        ParsedMessageV {
            wallet_name: self.wallet_name@,
            transaction_type: self.transaction_type@,
            amount: self.amount,
            month: self.month@,
            year: self.year@,
            total_amount: self.total_amount,
            original_text: self.original_text@,
        }
    }
}

/// Why a balance changed.
#[derive(Debug, Clone, Copy, PartialEq, Eq, Structural)]
pub enum BalanceUpdateSource {
    /// Computed as a delta from a transaction.
    Transaction,
    /// Forced by an explicitly stated total.
    ManualEdit,
    /// First creation of the wallet.
    Initial,
}

/// The outcome of one balance computation. Balances are in cents.
#[derive(Debug, Clone)]
pub struct BalanceUpdate {
    pub wallet_name: String,
    pub old_balance: i64,
    pub new_balance: i64,
    pub source: BalanceUpdateSource,
    pub message_id: Option<i64>,
    pub chat_id: Option<i64>,
}

/// The mathematical value of a [`BalanceUpdate`].
#[verifier::ext_equal]
pub struct BalanceUpdateV {
    pub wallet_name: Seq<char>,
    pub old_balance: i64,
    pub new_balance: i64,
    pub source: BalanceUpdateSource,
    pub message_id: Option<i64>,
    pub chat_id: Option<i64>,
}

impl View for BalanceUpdate {
    type V = BalanceUpdateV;

    open spec fn view(&self) -> BalanceUpdateV {
        BalanceUpdateV {
            wallet_name: self.wallet_name@,
            old_balance: self.old_balance,
            new_balance: self.new_balance,
            source: self.source,
            message_id: self.message_id,
            chat_id: self.chat_id,
        }
    }
}

impl Clone for Wallet {
    /// An identical wallet row.
    fn clone(&self) -> (r: Self)
        ensures
            r == *self,
    {
        Wallet {
            id: self.id,
            chat_id: self.chat_id,
            name: self.name.clone(),
            current_balance: self.current_balance,
            created_at: self.created_at,
            updated_at: self.updated_at,
        }
    }
}

impl Clone for Transaction {
    /// An identical log row.
    fn clone(&self) -> (r: Self)
        ensures
            r == *self,
    {
        Transaction {
            id: self.id,
            wallet_id: self.wallet_id,
            transaction_type: self.transaction_type.clone(),
            amount: self.amount,
            month: self.month.clone(),
            year: self.year.clone(),
            message_id: self.message_id,
            chat_id: self.chat_id,
            created_at: self.created_at,
        }
    }
}

impl Clone for Message {
    /// An identical processed-message record.
    fn clone(&self) -> (r: Self)
        ensures
            r == *self,
    {
        Message {
            id: self.id,
            message_id: self.message_id,
            chat_id: self.chat_id,
            wallet_id: self.wallet_id,
            has_total: self.has_total,
            processed: self.processed,
            original_balance: self.original_balance,
            new_balance: self.new_balance,
            created_at: self.created_at,
        }
    }
}

} // verus!

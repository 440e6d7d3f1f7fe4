//! The per-message state machine.
//!
//! One call of [`MessageHandler::handle_message`] takes a message from
//! received to terminal: filtered out, rejected as a duplicate, rejected
//! for its format, or applied — balance moved, transaction logged,
//! processed-message record written, in that order. The caller performs
//! the announced transport actions (editing the message, sending the
//! reply) after the call; no state is kept across calls.

use vstd::prelude::*;
use crate::calculator::{spec_smart_calculate, BalanceCalculator};
use crate::error::{ErrV, WalletBotError};
use crate::grammar::{lemma_total_bound, spec_has_total};
use crate::ledger::{
    spec_is_processed, spec_record_message, spec_record_transaction, wf, DatabaseOperations,
    LedgerView,
};
use crate::models::{BalanceUpdate, BalanceUpdateV, ParsedMessageV};
use crate::numfmt::{cents_string, cents_text};
use crate::parser::{spec_is_wallet_message, spec_parse, MessageParser};

verus! {

/// Where one message ended up, and what the transport should do about it.
#[derive(Debug)]
pub enum MessageOutcome {
    /// Not a wallet message: no state change, nothing to send.
    Ignored,
    /// Already applied: no state change; the duplicate warning is sent.
    Duplicate,
    /// A required field is absent or malformed: no state change; the
    /// format help is sent.
    ParseFailed,
    /// Applied as a transaction delta: the message is edited to carry
    /// `new_text`, and `confirmation` is sent.
    Applied { update: BalanceUpdate, new_text: String, confirmation: String },
    /// Applied as a manual total override: `confirmation` is sent.
    AppliedTotal { update: BalanceUpdate, confirmation: String },
    /// Carried a total annotation but no usable fields: silently skipped.
    Skipped,
    /// The balance step failed; `notify` says whether the generic failure
    /// reply is sent.
    Failed { error: WalletBotError, notify: bool },
}

/// The mathematical value of a [`MessageOutcome`].
#[verifier::ext_equal]
pub enum MessageOutcomeV {
    Ignored,
    Duplicate,
    ParseFailed,
    Applied { update: BalanceUpdateV, new_text: Seq<char>, confirmation: Seq<char> },
    AppliedTotal { update: BalanceUpdateV, confirmation: Seq<char> },
    Skipped,
    Failed { error: ErrV, notify: bool },
}

impl View for MessageOutcome {
    type V = MessageOutcomeV;

    open spec fn view(&self) -> MessageOutcomeV {
        match self {
            MessageOutcome::Ignored => MessageOutcomeV::Ignored,
            MessageOutcome::Duplicate => MessageOutcomeV::Duplicate,
            MessageOutcome::ParseFailed => MessageOutcomeV::ParseFailed,
            MessageOutcome::Applied { update, new_text, confirmation } => MessageOutcomeV::Applied {
                update: update@,
                new_text: new_text@,
                confirmation: confirmation@,
            },
            MessageOutcome::AppliedTotal { update, confirmation } => MessageOutcomeV::AppliedTotal {
                update: update@,
                confirmation: confirmation@,
            },
            MessageOutcome::Skipped => MessageOutcomeV::Skipped,
            MessageOutcome::Failed { error, notify } => MessageOutcomeV::Failed {
                error: error@,
                notify: *notify,
            },
        }
    }
}

/// The total annotation appended to an applied message.
pub open spec fn total_suffix(new_balance: i64) -> Seq<char> {
    "\n#总额 "@ + cents_text(new_balance as int) + "元"@
}

/// The reply confirming an applied transaction.
pub open spec fn txn_confirmation(wallet_name: Seq<char>, new_balance: i64) -> Seq<char> {
    "✅ 交易已记录\n📊 钱包："@ + wallet_name + "\n💰 当前余额："@ + cents_text(
        new_balance as int,
    ) + "元"@
}

/// The reply confirming a manual total override.
pub open spec fn manual_confirmation(wallet_name: Seq<char>, new_balance: i64) -> Seq<char> {
    "✅ 余额已更新（手动总额）\n📊 钱包："@ + wallet_name + "\n💰 当前余额："@
        + cents_text(new_balance as int) + "元"@
}

/// What one message does to the Ledger, and where it ends up.
pub open spec fn spec_handle(
    lv: LedgerView,
    message_id: i64,
    chat_id: i64,
    s: Seq<char>,
    now: i64,
) -> (LedgerView, MessageOutcomeV) {
    if !spec_is_wallet_message(s) {
        (lv, MessageOutcomeV::Ignored)
    } else if spec_is_processed(lv, message_id, chat_id) {
        (lv, MessageOutcomeV::Duplicate)
    } else if spec_has_total(s) {
        match spec_parse(s) {
            None => (lv, MessageOutcomeV::Skipped),
            Some(p) => match p.total_amount {
                None => (lv, MessageOutcomeV::Skipped),
                Some(t) => spec_apply(lv, message_id, chat_id, s, p, Some(t as i64), now),
            },
        }
    } else {
        match spec_parse(s) {
            None => (lv, MessageOutcomeV::ParseFailed),
            Some(p) => spec_apply(lv, message_id, chat_id, s, p, None, now),
        }
    }
}

/// The apply step shared by both paths: the smart balance step, then the
/// transaction row, then the processed-message record.
pub open spec fn spec_apply(
    lv: LedgerView,
    message_id: i64,
    chat_id: i64,
    s: Seq<char>,
    p: ParsedMessageV,
    total: Option<i64>,
    now: i64,
) -> (LedgerView, MessageOutcomeV) {
    let sm = spec_smart_calculate(
        lv,
        chat_id,
        p.wallet_name,
        p.transaction_type,
        p.amount,
        total,
        Some(message_id),
        now,
    );
    match sm.1 {
        Err(e) => (sm.0, MessageOutcomeV::Failed { error: e, notify: total is None }),
        Ok(u) => {
            let s2 = spec_record_transaction(
                sm.0,
                chat_id,
                p.wallet_name,
                p.transaction_type,
                p.amount,
                p.month,
                p.year,
                Some(message_id),
                now,
            ).0;
            let s3 = spec_record_message(
                s2,
                message_id,
                chat_id,
                p.wallet_name,
                true,
                Some(u.old_balance),
                Some(u.new_balance),
                now,
            ).0;
            if total is Some {
                (
                    s3,
                    MessageOutcomeV::AppliedTotal {
                        update: u,
                        confirmation: manual_confirmation(p.wallet_name, u.new_balance),
                    },
                )
            } else {
                (
                    s3,
                    MessageOutcomeV::Applied {
                        update: u,
                        new_text: s + total_suffix(u.new_balance),
                        confirmation: txn_confirmation(p.wallet_name, u.new_balance),
                    },
                )
            }
        },
    }
}

/// The warning sent for a message that was already applied.
pub fn duplicate_warning() -> (r: String)
    ensures
        r@ == "⚠️ 这条消息已经被处理过了，不会重复记录交易。"@,
{
    String::from_str("⚠️ 这条消息已经被处理过了，不会重复记录交易。")
}

/// The format help sent for a wallet message that does not parse.
pub fn format_help() -> (r: String)
    ensures
        r@
            == "❌ 消息格式不正确\n\n📋 正确格式：\n#钱包名称 #月份 #年份\n#出账/入账 金额元\n\n💡 示例：\n#支付宝 #12月 #2024年\n#出账 150.00元\n\n或者：\n#微信 #01月 #2024年\n#入账 200.00元\n\n❓ 需要帮助请输入 /help"@,
{
    String::from_str(
        "❌ 消息格式不正确\n\n📋 正确格式：\n#钱包名称 #月份 #年份\n#出账/入账 金额元\n\n💡 示例：\n#支付宝 #12月 #2024年\n#出账 150.00元\n\n或者：\n#微信 #01月 #2024年\n#入账 200.00元\n\n❓ 需要帮助请输入 /help",
    )
}

/// The generic failure reply for a balance step that failed.
pub fn failure_notice() -> (r: String)
    ensures
        r@ == "❌ 处理交易时出现错误，请稍后重试或联系管理员。"@,
{
    String::from_str("❌ 处理交易时出现错误，请稍后重试或联系管理员。")
}

/// The per-message state machine over a parser and a calculator.
#[derive(Debug)]
pub struct MessageHandler {
    pub parser: MessageParser,
    pub calculator: BalanceCalculator,
}

impl MessageHandler {
    /// A handler over the given store.
    pub fn new(db: DatabaseOperations) -> (r: Self)
        ensures
            r.calculator.db == db,
    {
        MessageHandler { parser: MessageParser::new(), calculator: BalanceCalculator::new(db) }
    }

    /// Takes one message from received to terminal, with the clock reading
    /// passed in: the whole decision and mutation, with the transport
    /// actions announced in the outcome.
    pub fn handle_message_at(
        &mut self,
        message_id: i64,
        chat_id: i64,
        text: &str,
        now: i64,
    ) -> (r: MessageOutcome)
        requires
            wf(old(self).calculator.db@),
        ensures
            wf(final(self).calculator.db@),
            final(self).calculator.db@ == spec_handle(
                old(self).calculator.db@,
                message_id,
                chat_id,
                text@,
                now,
            ).0,
            r@ == spec_handle(old(self).calculator.db@, message_id, chat_id, text@, now).1,
    {
        let ghost pre = self.calculator.db@;
        if !self.parser.is_wallet_message(text) {
            return MessageOutcome::Ignored;
        }
        if self.calculator.db.is_message_processed(message_id, chat_id) {
            return MessageOutcome::Duplicate;
        }
        if self.parser.has_total(text) {
            let p = match self.parser.parse(text) {
                None => {
                    return MessageOutcome::Skipped;
                },
                Some(p) => p,
            };
            let t = match p.total_amount {
                None => {
                    return MessageOutcome::Skipped;
                },
                Some(t) => t,
            };
            proof {
                lemma_total_bound(text@);
            }
            self.apply_parsed(message_id, chat_id, text, &p, Some(t as i64), now)
        } else {
            let p = match self.parser.parse(text) {
                None => {
                    return MessageOutcome::ParseFailed;
                },
                Some(p) => p,
            };
            self.apply_parsed(message_id, chat_id, text, &p, None, now)
        }
    }

    /// The apply step: moves the balance, logs the transaction, writes the
    /// processed-message record, and phrases the transport actions.
    fn apply_parsed(
        &mut self,
        message_id: i64,
        chat_id: i64,
        text: &str,
        p: &crate::models::ParsedMessage,
        total: Option<i64>,
        now: i64,
    ) -> (r: MessageOutcome)
        requires
            wf(old(self).calculator.db@),
        ensures
            wf(final(self).calculator.db@),
            final(self).calculator.db@ == spec_apply(
                old(self).calculator.db@,
                message_id,
                chat_id,
                text@,
                p@,
                total,
                now,
            ).0,
            r@ == spec_apply(old(self).calculator.db@, message_id, chat_id, text@, p@, total, now).1,
    {
        let notify = total.is_none();
        let u = match self.calculator.smart_calculate_balance(
            chat_id,
            p.wallet_name.as_str(),
            p.transaction_type.as_str(),
            p.amount,
            p.month.as_str(),
            p.year.as_str(),
            total,
            Some(message_id),
            now,
        ) {
            Err(e) => {
                return MessageOutcome::Failed { error: e, notify };
            },
            Ok(u) => u,
        };
        let _ = self.calculator.db.record_transaction(
            chat_id,
            p.wallet_name.as_str(),
            p.transaction_type.as_str(),
            p.amount,
            p.month.as_str(),
            p.year.as_str(),
            Some(message_id),
            now,
        );
        let _ = self.calculator.db.record_message(
            message_id,
            chat_id,
            p.wallet_name.as_str(),
            true,
            Some(u.old_balance),
            Some(u.new_balance),
            now,
        );
        let balance_text = cents_string(u.new_balance as i128);
        if total.is_some() {
            let mut confirmation = String::from_str("✅ 余额已更新（手动总额）\n📊 钱包：");
            confirmation.append(p.wallet_name.as_str());
            confirmation.append("\n💰 当前余额：");
            confirmation.append(balance_text.as_str());
            confirmation.append("元");
            proof {
                assert(confirmation@ =~= manual_confirmation(p.wallet_name@, u.new_balance));
            }
            let r = MessageOutcome::AppliedTotal { update: u, confirmation };
            proof {
                assert(r@ =~= spec_apply(
                    old(self).calculator.db@,
                    message_id,
                    chat_id,
                    text@,
                    p@,
                    total,
                    now,
                ).1);
            }
            r
        } else {
            let mut new_text = text.to_owned();
            new_text.append("\n#总额 ");
            new_text.append(balance_text.as_str());
            new_text.append("元");
            let mut confirmation = String::from_str("✅ 交易已记录\n📊 钱包：");
            confirmation.append(p.wallet_name.as_str());
            confirmation.append("\n💰 当前余额：");
            confirmation.append(balance_text.as_str());
            confirmation.append("元");
            proof {
                assert(new_text@ =~= text@ + total_suffix(u.new_balance));
                assert(confirmation@ =~= txn_confirmation(p.wallet_name@, u.new_balance));
            }
            let r = MessageOutcome::Applied { update: u, new_text, confirmation };
            proof {
                assert(r@ =~= spec_apply(
                    old(self).calculator.db@,
                    message_id,
                    chat_id,
                    text@,
                    p@,
                    total,
                    now,
                ).1);
            }
            r
        }
    }

    /// Takes one message from received to terminal at the present moment.
    pub fn handle_message(&mut self, message_id: i64, chat_id: i64, text: &str) -> (r:
        MessageOutcome)
        requires
            wf(old(self).calculator.db@),
        ensures
            wf(final(self).calculator.db@),
            exists|now: i64|
                {
                    let step = #[trigger] spec_handle(
                        old(self).calculator.db@,
                        message_id,
                        chat_id,
                        text@,
                        now,
                    );
                    final(self).calculator.db@ == step.0 && r@ == step.1
                },
    {
        let now = crate::clock::now_unix();
        let r = self.handle_message_at(message_id, chat_id, text, now);
        proof {
            let step = spec_handle(old(self).calculator.db@, message_id, chat_id, text@, now);
            assert(self.calculator.db@ == step.0 && r@ == step.1);
        }
        r
    }

    /// Runs a message through the state machine again, as the reprocess
    /// command asks. The idempotency guard still applies: an applied
    /// message is rejected as a duplicate.
    pub fn reprocess_message(&mut self, message_id: i64, chat_id: i64, text: &str) -> (r:
        MessageOutcome)
        requires
            wf(old(self).calculator.db@),
        ensures
            wf(final(self).calculator.db@),
            exists|now: i64|
                {
                    let step = #[trigger] spec_handle(
                        old(self).calculator.db@,
                        message_id,
                        chat_id,
                        text@,
                        now,
                    );
                    final(self).calculator.db@ == step.0 && r@ == step.1
                },
    {
        self.handle_message(message_id, chat_id, text)
    }
}

} // verus!

//! The per-message state machine, run end to end in memory.

use walletbot::calculator::BalanceCalculator;
use walletbot::handler::{MessageHandler, MessageOutcome};
use walletbot::ledger::DatabaseOperations;
use walletbot::models::BalanceUpdateSource;
use walletbot::parser::MessageParser;

fn handler_with_balance(chat_id: i64, wallet: &str, balance: i64) -> MessageHandler {
    let mut db = DatabaseOperations::new();
    db.get_or_create_wallet(chat_id, wallet, 0).unwrap();
    db.update_wallet_balance(chat_id, wallet, balance, 0).unwrap();
    MessageHandler::new(db)
}

#[test]
fn test_transaction_message_flow() {
    let mut handler = handler_with_balance(456, "支付宝", 100000);
    let outcome = handler.handle_message_at(1, 456, "#支付宝 #12月 #2024年\n#出账 150.00元", 5);
    match outcome {
        MessageOutcome::Applied { update, new_text, confirmation } => {
            assert_eq!(update.old_balance, 100000);
            assert_eq!(update.new_balance, 85000);
            assert!(matches!(update.source, BalanceUpdateSource::Transaction));
            assert_eq!(new_text, "#支付宝 #12月 #2024年\n#出账 150.00元\n#总额 850.00元");
            assert_eq!(confirmation, "✅ 交易已记录\n📊 钱包：支付宝\n💰 当前余额：850.00元");
        }
        other => panic!("unexpected outcome: {:?}", other),
    }
    assert_eq!(handler.calculator.db.get_balance(456, "支付宝").unwrap(), 85000);
    assert_eq!(handler.calculator.db.get_transactions(456, "支付宝").unwrap().len(), 1);
    assert!(handler.calculator.db.is_message_processed(1, 456));
}

#[test]
fn test_manual_total_flow() {
    let mut handler = handler_with_balance(456, "支付宝", 12345);
    let text = "#支付宝 #12月 #2024年\n#出账 150.00元\n#总额 1000.00元";
    let outcome = handler.handle_message_at(2, 456, text, 5);
    match outcome {
        MessageOutcome::AppliedTotal { update, confirmation } => {
            assert_eq!(update.old_balance, 12345);
            assert_eq!(update.new_balance, 100000);
            assert!(matches!(update.source, BalanceUpdateSource::ManualEdit));
            assert_eq!(
                confirmation,
                "✅ 余额已更新（手动总额）\n📊 钱包：支付宝\n💰 当前余额：1000.00元"
            );
        }
        other => panic!("unexpected outcome: {:?}", other),
    }
    assert_eq!(handler.calculator.db.get_balance(456, "支付宝").unwrap(), 100000);
    // The stated transaction amount is still logged for the audit trail.
    let ts = handler.calculator.db.get_transactions(456, "支付宝").unwrap();
    assert_eq!(ts.len(), 1);
    assert_eq!(ts[0].amount, 15000);
}

#[test]
fn test_duplicate_submission_changes_nothing() {
    let mut handler = handler_with_balance(456, "支付宝", 100000);
    let text = "#支付宝 #12月 #2024年\n#出账 150.00元";
    let first = handler.handle_message_at(123, 456, text, 5);
    assert!(matches!(first, MessageOutcome::Applied { .. }));
    assert_eq!(handler.calculator.db.get_balance(456, "支付宝").unwrap(), 85000);

    let second = handler.handle_message_at(123, 456, text, 6);
    assert!(matches!(second, MessageOutcome::Duplicate));
    assert_eq!(handler.calculator.db.get_balance(456, "支付宝").unwrap(), 85000);
    assert_eq!(handler.calculator.db.get_transactions(456, "支付宝").unwrap().len(), 1);

    // A different message id is applied normally.
    let third = handler.handle_message_at(124, 456, text, 7);
    assert!(matches!(third, MessageOutcome::Applied { .. }));
    assert_eq!(handler.calculator.db.get_balance(456, "支付宝").unwrap(), 70000);
}

#[test]
fn test_plain_message_is_ignored() {
    let mut handler = MessageHandler::new(DatabaseOperations::new());
    let outcome = handler.handle_message_at(9, 1, "普通消息", 0);
    assert!(matches!(outcome, MessageOutcome::Ignored));
    assert!(!handler.calculator.db.wallet_exists(1, "普通消息"));
    assert!(!handler.calculator.db.is_message_processed(9, 1));
}

#[test]
fn test_malformed_amount_mutates_nothing() {
    let parser = MessageParser::new();
    let text = "#钱包 #01月 #2025年\n#入账 abc元";
    assert!(parser.parse(text).is_none());
    let mut handler = MessageHandler::new(DatabaseOperations::new());
    let outcome = handler.handle_message_at(9, 1, text, 0);
    // Without an amount token the pre-filter already rejects the text.
    assert!(matches!(outcome, MessageOutcome::Ignored));
    assert!(!handler.calculator.db.wallet_exists(1, "钱包"));
    assert!(!handler.calculator.db.is_message_processed(9, 1));
}

#[test]
fn test_parse_failure_asks_for_format_help() {
    // The text passes the pre-filter (all three tags occur) but the
    // period pair never assembles, so the parse fails.
    let text = "#钱包 #01月 abc\n#入账 10.00元";
    let parser = MessageParser::new();
    assert!(parser.is_wallet_message(text));
    assert!(parser.parse(text).is_none());
    let mut handler = MessageHandler::new(DatabaseOperations::new());
    let outcome = handler.handle_message_at(9, 1, text, 0);
    assert!(matches!(outcome, MessageOutcome::ParseFailed));
    assert!(!handler.calculator.db.wallet_exists(1, "钱包"));
}

#[test]
fn test_incoming_direction_adds() {
    let mut handler = handler_with_balance(7, "微信", 5000);
    let outcome = handler.handle_message_at(3, 7, "#微信 #01月 #2025年\n#入账 200.00元", 0);
    match outcome {
        MessageOutcome::Applied { update, .. } => {
            assert_eq!(update.old_balance, 5000);
            assert_eq!(update.new_balance, 25000);
        }
        other => panic!("unexpected outcome: {:?}", other),
    }
}

#[test]
fn test_balance_overflow_is_reported() {
    let mut calc = BalanceCalculator::new(DatabaseOperations::new());
    calc.db.get_or_create_wallet(1, "钱包", 0).unwrap();
    calc.db.update_wallet_balance(1, "钱包", i64::MAX - 10, 0).unwrap();
    let r = calc.calculate_transaction_balance(1, "钱包", "入账", 200, "01", "2025", 0);
    assert!(matches!(
        r,
        Err(walletbot::error::WalletBotError::BalanceCalculation { .. })
    ));

    // Through the state machine the failure surfaces as a notified
    // failure outcome and changes no balance.
    let mut handler = MessageHandler::new(DatabaseOperations::new());
    handler.calculator.db.get_or_create_wallet(7, "钱包", 0).unwrap();
    handler.calculator.db.update_wallet_balance(7, "钱包", i64::MAX - 10, 0).unwrap();
    let outcome = handler.handle_message_at(1, 7, "#钱包 #01月 #2025年\n#入账 2.00元", 0);
    match outcome {
        MessageOutcome::Failed { notify, .. } => assert!(notify),
        other => panic!("unexpected outcome: {:?}", other),
    }
    assert_eq!(handler.calculator.db.get_balance(7, "钱包").unwrap(), i64::MAX - 10);
    assert!(!handler.calculator.db.is_message_processed(1, 7));
}

#[test]
fn test_get_latest_balance_matches_current() {
    let mut calc = BalanceCalculator::new(DatabaseOperations::new());
    calc.db.get_or_create_wallet(2, "钱包", 0).unwrap();
    calc.db.update_wallet_balance(2, "钱包", 4200, 0).unwrap();
    assert_eq!(calc.get_latest_balance(2, "钱包", "01", "2025").unwrap(), 4200);
    assert_eq!(calc.db.get_latest_balance(2, "钱包", "01", "2025").unwrap(), 4200);
    assert!(calc.get_latest_balance(2, "别的钱包", "01", "2025").is_err());
}

#[test]
fn test_complete_message_flow() {
    let mut db = DatabaseOperations::new();
    let _handler = MessageHandler::new(DatabaseOperations::new());

    let test_scenarios = vec![
        ("#支付宝 #12月 #2024年\n#出账 150.00元", "支付宝", "出账", 15000u64),
        ("#微信 #12月 #2024年\n#入账 200.00元", "微信", "入账", 20000u64),
        ("#支付宝 #12月 #2024年\n#入账 50.00元", "支付宝", "入账", 5000u64),
    ];

    for (message_text, wallet_name, transaction_type, amount) in test_scenarios {
        let parser = MessageParser::new();
        let parsed = parser.parse(message_text);
        assert!(parsed.is_some());

        let parsed = parsed.unwrap();
        assert_eq!(parsed.wallet_name, wallet_name);
        assert_eq!(parsed.transaction_type, transaction_type);
        assert_eq!(parsed.amount, amount);

        let wallet = db.get_or_create_wallet(456, wallet_name, 0).unwrap();
        assert_eq!(wallet.name, wallet_name);
    }
}

#[test]
fn test_calculator_paths() {
    let mut calc = BalanceCalculator::new(DatabaseOperations::new());
    // A new wallet starts at zero; an outgoing amount goes negative.
    let nb = calc
        .calculate_transaction_balance(1, "钱包", "出账", 2500, "01", "2025", 0)
        .unwrap();
    assert_eq!(nb, -2500);
    // The calculation alone does not write the balance back.
    assert_eq!(calc.db.get_balance(1, "钱包").unwrap(), 0);
    // The synonym directions move the balance the same way.
    let nb2 = calc
        .calculate_transaction_balance(1, "钱包", "支出", 2500, "01", "2025", 0)
        .unwrap();
    assert_eq!(nb2, -2500);
    let nb3 = calc
        .calculate_transaction_balance(1, "钱包", "收入", 2500, "01", "2025", 0)
        .unwrap();
    assert_eq!(nb3, 2500);
    // An unrecognized direction leaves the balance untouched.
    let nb4 = calc
        .calculate_transaction_balance(1, "钱包", "转账", 2500, "01", "2025", 0)
        .unwrap();
    assert_eq!(nb4, 0);

    let update = calc.update_from_manual_total(1, "钱包", 31400, Some(5), 0).unwrap();
    assert_eq!(update.old_balance, 0);
    assert_eq!(update.new_balance, 31400);
    assert!(matches!(update.source, BalanceUpdateSource::ManualEdit));
    assert_eq!(calc.db.get_balance(1, "钱包").unwrap(), 31400);

    let smart = calc
        .smart_calculate_balance(1, "钱包", "出账", 400, "01", "2025", None, Some(6), 0)
        .unwrap();
    assert_eq!(smart.old_balance, 31400);
    assert_eq!(smart.new_balance, 31000);
    assert!(matches!(smart.source, BalanceUpdateSource::Transaction));
    assert_eq!(calc.db.get_balance(1, "钱包").unwrap(), 31000);

    assert!(calc.should_adjust_balance("钱包", 31000, 31002));
    assert!(!calc.should_adjust_balance("钱包", 31000, 31001));
    assert!(calc.create_balance_adjustment("钱包", 31000, 31002, "audit", None, None).is_ok());
}

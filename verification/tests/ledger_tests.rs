//! The Ledger store, exercised row by row.

use walletbot::ledger::DatabaseOperations;

#[test]
fn test_database_operations() {
    let mut db = DatabaseOperations::new();
    let now: i64 = 1_700_000_000;

    let wallet = db.get_or_create_wallet(456, "测试钱包", now).unwrap();
    assert_eq!(wallet.name, "测试钱包");
    assert_eq!(wallet.current_balance, 0);

    db.update_wallet_balance(456, "测试钱包", 100000, now).unwrap();
    let updated_wallet = db.get_or_create_wallet(456, "测试钱包", now).unwrap();
    assert_eq!(updated_wallet.current_balance, 100000);

    db.record_transaction(456, "测试钱包", "出账", 15000, "12", "2024", Some(123), now)
        .unwrap();

    db.record_message(123, 456, "测试钱包", true, Some(100000), Some(85000), now)
        .unwrap();

    let is_processed = db.is_message_processed(123, 456);
    assert!(is_processed);
}

#[test]
fn test_duplicate_message_handling() {
    let mut db = DatabaseOperations::new();
    let now: i64 = 1_700_000_000;

    let _wallet = db.get_or_create_wallet(456, "支付宝", now).unwrap();

    db.record_message(123, 456, "支付宝", true, Some(100000), Some(85000), now)
        .unwrap();

    let is_processed = db.is_message_processed(123, 456);
    assert!(is_processed);

    let is_processed_different = db.is_message_processed(124, 456);
    assert!(!is_processed_different);
}

#[test]
fn test_wallets_are_scoped_per_chat() {
    let mut db = DatabaseOperations::new();
    let now: i64 = 10;
    db.get_or_create_wallet(1, "钱包", now).unwrap();
    db.update_wallet_balance(1, "钱包", 5000, now).unwrap();
    db.get_or_create_wallet(2, "钱包", now).unwrap();
    assert_eq!(db.get_balance(1, "钱包").unwrap(), 5000);
    assert_eq!(db.get_balance(2, "钱包").unwrap(), 0);
    assert!(db.wallet_exists(1, "钱包"));
    assert!(!db.wallet_exists(3, "钱包"));
}

#[test]
fn test_get_balance_unknown_wallet_fails() {
    let db = DatabaseOperations::new();
    let r = db.get_balance(1, "没有的钱包");
    assert!(r.is_err());
}

#[test]
fn test_record_transaction_requires_wallet() {
    let mut db = DatabaseOperations::new();
    let r = db.record_transaction(1, "没有的钱包", "出账", 100, "01", "2025", None, 0);
    assert!(r.is_err());
}

#[test]
fn test_get_transactions_latest_first() {
    let mut db = DatabaseOperations::new();
    let now: i64 = 20;
    db.get_or_create_wallet(9, "钱包", now).unwrap();
    db.get_or_create_wallet(9, "别的钱包", now).unwrap();
    db.record_transaction(9, "钱包", "出账", 100, "01", "2025", Some(1), now).unwrap();
    db.record_transaction(9, "别的钱包", "入账", 999, "01", "2025", Some(2), now).unwrap();
    db.record_transaction(9, "钱包", "入账", 200, "02", "2025", Some(3), now).unwrap();
    let ts = db.get_transactions(9, "钱包").unwrap();
    assert_eq!(ts.len(), 2);
    assert_eq!(ts[0].amount, 200);
    assert_eq!(ts[0].transaction_type, "入账");
    assert_eq!(ts[1].amount, 100);
    assert_eq!(ts[1].transaction_type, "出账");
}

#[test]
fn test_record_message_replaces_same_key() {
    let mut db = DatabaseOperations::new();
    let now: i64 = 30;
    db.get_or_create_wallet(5, "钱包", now).unwrap();
    db.record_message(77, 5, "钱包", false, Some(0), Some(100), now).unwrap();
    db.record_message(77, 5, "钱包", true, Some(100), Some(200), now).unwrap();
    assert!(db.is_message_processed(77, 5));
    // A second record for the same key replaces the first; a different
    // message id is a fresh key.
    assert!(!db.is_message_processed(78, 5));
}

#[test]
fn test_add_transaction_moves_balance() {
    let mut db = DatabaseOperations::new();
    db.add_transaction(3, "钱包", "收入", 10000, "工资", "t1").unwrap();
    assert_eq!(db.get_balance(3, "钱包").unwrap(), 10000);
    db.add_transaction(3, "钱包", "支出", 2500, "餐饮", "t2").unwrap();
    assert_eq!(db.get_balance(3, "钱包").unwrap(), 7500);
    // An unrecognized direction is treated as an expense here.
    db.add_transaction(3, "钱包", "其他", 500, "杂项", "t3").unwrap();
    assert_eq!(db.get_balance(3, "钱包").unwrap(), 7000);
    let ts = db.get_transactions(3, "钱包").unwrap();
    assert_eq!(ts.len(), 3);
}

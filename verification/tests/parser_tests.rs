//! The field extractor, exercised on concrete message texts.

use walletbot::parser::MessageParser;

#[test]
fn test_message_parser() {
    let parser = MessageParser::new();

    let test_message = "#支付宝 #12月 #2024年\n#出账 150.00元";
    let parsed = parser.parse(test_message);

    assert!(parsed.is_some());
    let parsed = parsed.unwrap();
    assert_eq!(parsed.wallet_name, "支付宝");
    assert_eq!(parsed.transaction_type, "出账");
    assert_eq!(parsed.amount, 15000);
    assert_eq!(parsed.month, "12");
    assert_eq!(parsed.year, "2024");

    let non_wallet_message = "这是一个普通消息";
    assert!(!parser.is_wallet_message(non_wallet_message));

    let message_with_total = "#支付宝 #12月 #2024年\n#出账 150.00元\n#总额 1000.00元";
    assert!(parser.has_total(message_with_total));
    assert_eq!(parser.extract_total_amount(message_with_total), Some(100000));
}

#[test]
fn test_error_handling() {
    let parser = MessageParser::new();

    let invalid_messages = vec![
        "普通消息",
        "#支付宝 #出账 150.00元",
        "#支付宝 #12月 #2024年",
        "#支付宝 #12月 #2024年\n#出账",
        "#支付宝 #12月 #2024年\n#出账 abc元",
    ];

    for message in invalid_messages {
        let parsed = parser.parse(message);
        assert!(parsed.is_none() || !parser.is_wallet_message(message));
    }
}

#[test]
fn test_parse_with_total_keeps_transaction_amount() {
    let parser = MessageParser::new();
    let text = "#支付宝 #12月 #2024年\n#出账 150.00元\n#总额 1000.00元";
    let parsed = parser.parse(text).unwrap();
    assert_eq!(parsed.amount, 15000);
    assert_eq!(parsed.total_amount, Some(100000));
}

#[test]
fn test_total_exclusion_on_selected_amount() {
    let parser = MessageParser::new();
    // The only amount token stands after the total tag: no transaction
    // amount qualifies, so the parse fails.
    let text = "#钱包 #01月 #2025年 #入账\n#总额 500.00元";
    assert!(parser.parse(text).is_none());
    // A token before the total tag still qualifies.
    let text2 = "#钱包 #01月 #2025年\n#出账 100.00元\n#总额 500.00元";
    let parsed = parser.parse(text2).unwrap();
    assert_eq!(parsed.amount, 10000);
    assert_eq!(parsed.total_amount, Some(50000));
}

#[test]
fn test_amount_out_of_range_is_skipped() {
    let parser = MessageParser::new();
    // The first token's integer part is beyond the supported range, so
    // the next token is selected instead.
    let text = "#钱包 #01月 #2025年\n#出账 99999999999999元 20.00元";
    let parsed = parser.parse(text).unwrap();
    assert_eq!(parsed.amount, 2000);
    // When the oversized token is the only candidate, the parse fails.
    let text2 = "#钱包 #01月 #2025年\n#出账 99999999999999元";
    assert!(parser.parse(text2).is_none());
}

#[test]
fn test_amount_fraction_shapes() {
    let parser = MessageParser::new();
    let one_digit = parser.parse("#钱包 #01月 #2025年\n#入账 3.5元").unwrap();
    assert_eq!(one_digit.amount, 350);
    let no_fraction = parser.parse("#钱包 #01月 #2025年\n#入账 7元").unwrap();
    assert_eq!(no_fraction.amount, 700);
    let long_fraction = parser.parse("#钱包 #01月 #2025年\n#入账 1.999元").unwrap();
    assert_eq!(long_fraction.amount, 199);
}

#[test]
fn test_direction_synonyms() {
    let parser = MessageParser::new();
    let income = parser.parse("#钱包 #01月 #2025年\n#收入 10.00元").unwrap();
    assert_eq!(income.transaction_type, "收入");
    let expense = parser.parse("#钱包 #01月 #2025年\n#支出 10.00元").unwrap();
    assert_eq!(expense.transaction_type, "支出");
}

#[test]
fn test_parse_transaction_simple_form() {
    let parser = MessageParser::new();
    let t = parser.parse_transaction("收入 100 工作收入").unwrap();
    assert_eq!(t.transaction_type, "收入");
    assert_eq!(t.amount, 10000);
    assert_eq!(t.description, "工作收入");

    let t2 = parser.parse_transaction("支出 59.99 晚饭  和  朋友").unwrap();
    assert_eq!(t2.transaction_type, "支出");
    assert_eq!(t2.amount, 5999);
    assert_eq!(t2.description, "晚饭 和 朋友");

    assert!(parser.parse_transaction("收入 100").is_err());
    assert!(parser.parse_transaction("收入 abc 工资").is_err());
    assert!(parser.parse_transaction("转账 100 工资").is_err());
}

#[test]
fn test_is_wallet_message_requires_all_three_tags() {
    let parser = MessageParser::new();
    assert!(parser.is_wallet_message("#支付宝 #12月 #2024年\n#出账 150.00元"));
    // No amount token anywhere: the pre-filter rejects the text.
    assert!(!parser.is_wallet_message("#钱包 #01月 #2025年\n#入账 abc元"));
    // No direction tag.
    assert!(!parser.is_wallet_message("#钱包 #01月 #2025年\n150.00元"));
    // No wallet tag (the name tag must be followed by a month tag).
    assert!(!parser.is_wallet_message("#入账 150.00元"));
}

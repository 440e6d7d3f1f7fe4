//! Formatting, validation, errors, configuration and the clock wrappers.

use walletbot::clock;
use walletbot::error::{ErrorSeverity, WalletBotError};
use walletbot::settings::Settings;
use walletbot::utils::{Formatter, Validator};

#[test]
fn test_format_amount() {
    assert_eq!(Formatter::format_amount(100000), "1000.00元");
    assert_eq!(Formatter::format_amount(100050), "1000.50元");
}

#[test]
fn test_format_balance_change() {
    assert_eq!(Formatter::format_balance_change(0, 100000), "初始设置");
    assert_eq!(Formatter::format_balance_change(100000, 110000), "+100.00元 (+10.0%)");
    assert_eq!(Formatter::format_balance_change(100000, 90000), "-100.00元 (-10.0%)");
}

#[test]
fn test_validators() {
    // Wallet names.
    assert!(Validator::is_valid_wallet_name("测试钱包"));
    assert!(!Validator::is_valid_wallet_name(""));
    assert!(!Validator::is_valid_wallet_name("钱包\n名称"));

    // Amounts, in cents.
    assert!(Validator::is_valid_amount(100000));
    assert!(Validator::is_valid_amount(0));
    assert!(!Validator::is_valid_amount(-10000));

    // Months.
    assert!(Validator::is_valid_month("7"));
    assert!(Validator::is_valid_month("12"));
    assert!(!Validator::is_valid_month("0"));
    assert!(!Validator::is_valid_month("13"));
    assert!(!Validator::is_valid_month("abc"));

    // Years.
    assert!(Validator::is_valid_year("2025"));
    assert!(!Validator::is_valid_year("1999"));
    assert!(!Validator::is_valid_year("2101"));
    assert!(!Validator::is_valid_year("abc"));
}

#[test]
fn test_format_amount_edges() {
    assert_eq!(Formatter::format_amount(0), "0.00元");
    assert_eq!(Formatter::format_amount(5), "0.05元");
    assert_eq!(Formatter::format_amount(-15000), "-150.00元");
}

#[test]
fn test_error_taxonomy() {
    let parser_err = WalletBotError::parser_error("bad field");
    assert!(!parser_err.is_retryable());
    assert_eq!(parser_err.severity(), ErrorSeverity::Low);

    let db_err = WalletBotError::Database("disk gone".to_string());
    assert!(db_err.is_retryable());
    assert_eq!(db_err.severity(), ErrorSeverity::High);

    let tg_err = WalletBotError::Telegram("api down".to_string());
    assert!(tg_err.is_retryable());
    assert_eq!(tg_err.severity(), ErrorSeverity::Medium);

    let io_err = WalletBotError::Io("pipe closed".to_string());
    assert!(io_err.is_retryable());
    assert_eq!(io_err.severity(), ErrorSeverity::Medium);

    let cfg_err = WalletBotError::Config("no token".to_string());
    assert!(!cfg_err.is_retryable());
    assert_eq!(cfg_err.severity(), ErrorSeverity::Critical);

    let calc_err = WalletBotError::balance_calculation_error("overflow");
    assert_eq!(calc_err.severity(), ErrorSeverity::High);

    let missing = WalletBotError::wallet_not_found("钱包");
    assert_eq!(missing.severity(), ErrorSeverity::Medium);

    let format_err = WalletBotError::invalid_message_format("no tags");
    assert_eq!(format_err.severity(), ErrorSeverity::Low);

    assert_eq!(ErrorSeverity::Low.label(), "LOW");
    assert_eq!(ErrorSeverity::Medium.label(), "MEDIUM");
    assert_eq!(ErrorSeverity::High.label(), "HIGH");
    assert_eq!(ErrorSeverity::Critical.label(), "CRITICAL");
}

#[test]
fn test_settings_validation() {
    let mut settings = Settings::default();
    // The stock configuration has no token yet.
    assert!(settings.validate().is_err());

    settings.telegram_bot_token = "SECRET-REDACTED".to_string();
    assert!(settings.validate().is_ok());

    settings.database_url = String::new();
    assert!(matches!(settings.validate(), Err(WalletBotError::Config(_))));

    settings.database_url = "wallet_bot.db".to_string();
    settings.max_retry_attempts = 0;
    assert!(settings.validate().is_err());

    settings.max_retry_attempts = 3;
    settings.processing_timeout = 0;
    assert!(settings.validate().is_err());

    settings.processing_timeout = 30;
    assert!(settings.validate().is_ok());
}

#[test]
fn test_settings_default_values() {
    let settings = Settings::default();
    assert_eq!(settings.database_url, "wallet_bot.db");
    assert_eq!(settings.bot_name, "WalletBot");
    assert_eq!(settings.target_channel_id, None);
    assert_eq!(settings.max_retry_attempts, 3);
    assert_eq!(settings.processing_timeout, 30);
    assert_eq!(settings.backup_interval, 3600);
    assert_eq!(settings.backup_retention_days, 7);
    assert_eq!(settings.log_level, "info");
}

#[test]
fn test_current_period_is_a_plausible_month() {
    let (month, year) = clock::current_period();
    assert_eq!(month.len(), 2);
    assert!(month.chars().all(|c| c.is_ascii_digit()));
    let m: u32 = month.parse().unwrap();
    assert!((1..=12).contains(&m));
    assert!(!year.is_empty());
}

//! Runtime configuration. The surrounding program fills a [`Settings`]
//! value from its environment; [`Settings::validate`] decides whether it
//! is usable.

use vstd::prelude::*;
use crate::error::WalletBotError;

verus! {

/// The configuration the bot runs with.
#[derive(Debug, Clone)]
pub struct Settings {
    pub telegram_bot_token: String,
    pub database_url: String,
    pub bot_name: String,
    pub target_channel_id: Option<i64>,
    pub max_retry_attempts: u32,
    pub processing_timeout: u64,
    pub backup_interval: u64,
    pub backup_retention_days: u32,
    pub log_level: String,
}

/// Whether a configuration is usable: token and database location present,
/// retry and timeout budgets positive.
pub open spec fn spec_settings_valid(s: &Settings) -> bool {
    &&& s.telegram_bot_token@.len() > 0
    &&& s.database_url@.len() > 0
    &&& s.max_retry_attempts > 0
    &&& s.processing_timeout > 0
}

impl Settings {
    /// Checks the configuration, naming the first unusable field.
    pub fn validate(&self) -> (r: Result<(), WalletBotError>)
        ensures
            r is Ok <==> spec_settings_valid(self),
            self.telegram_bot_token@.len() == 0 ==> (r matches Err(WalletBotError::Config(m))
                && m@ == "Telegram bot token cannot be empty"@),
            self.telegram_bot_token@.len() > 0 && self.database_url@.len() == 0 ==> (r matches
                Err(WalletBotError::Config(m)) && m@ == "Database URL cannot be empty"@),
            self.telegram_bot_token@.len() > 0 && self.database_url@.len() > 0
                && self.max_retry_attempts == 0 ==> (r matches Err(WalletBotError::Config(m)) && m@
                == "Max retry attempts must be greater than 0"@),
            self.telegram_bot_token@.len() > 0 && self.database_url@.len() > 0
                && self.max_retry_attempts > 0 && self.processing_timeout == 0 ==> (r matches Err(
                WalletBotError::Config(m),
            ) && m@ == "Processing timeout must be greater than 0"@),
    {
        if self.telegram_bot_token.as_str().is_empty() {
            return Err(WalletBotError::Config(String::from_str(
                "Telegram bot token cannot be empty",
            )));
        }
        if self.database_url.as_str().is_empty() {
            return Err(WalletBotError::Config(String::from_str("Database URL cannot be empty")));
        }
        if self.max_retry_attempts == 0 {
            return Err(WalletBotError::Config(String::from_str(
                "Max retry attempts must be greater than 0",
            )));
        }
        if self.processing_timeout == 0 {
            return Err(WalletBotError::Config(String::from_str(
                "Processing timeout must be greater than 0",
            )));
        }
        Ok(())
    }
}

impl Default for Settings {
    /// The stock configuration: no token, the bundled database location,
    /// three retries, a thirty-second timeout, hourly backups kept a week.
    fn default() -> (r: Self)
        ensures
            r.telegram_bot_token@ == Seq::<char>::empty(),
            r.database_url@ == "wallet_bot.db"@,
            r.bot_name@ == "WalletBot"@,
            r.target_channel_id is None,
            r.max_retry_attempts == 3,
            r.processing_timeout == 30,
            r.backup_interval == 3600,
            r.backup_retention_days == 7,
            r.log_level@ == "info"@,
    {
        Settings {
            telegram_bot_token: String::new(),
            database_url: String::from_str("wallet_bot.db"),
            bot_name: String::from_str("WalletBot"),
            target_channel_id: None,
            max_retry_attempts: 3,
            processing_timeout: 30,
            backup_interval: 3600,
            backup_retention_days: 7,
            log_level: String::from_str("info"),
        }
    }
}

} // verus!

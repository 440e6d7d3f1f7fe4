//! The error taxonomy, and how severe each kind of failure is.

use vstd::prelude::*;

verus! {

/// Everything that can go wrong while handling wallet messages. Failures
/// of outside collaborators (storage, transport, configuration sources)
/// are carried as their message text.
#[derive(Debug, Clone)]
pub enum WalletBotError {
    /// The storage collaborator failed.
    Database(String),
    /// The configuration is unusable.
    Config(String),
    /// The chat transport failed.
    Telegram(String),
    /// The text could not be parsed.
    Parser { message: String },
    /// A balance could not be computed.
    BalanceCalculation { message: String },
    /// The wallet addressed by an operation does not exist.
    WalletNotFound { name: String },
    /// The message does not follow the expected format.
    InvalidMessageFormat { message: String },
    /// An input/output operation failed.
    Io(String),
    /// A required environment variable is missing or malformed.
    Env(String),
}

/// The mathematical value of a [`WalletBotError`]: the same taxonomy over
/// character sequences.
pub enum ErrV {
    Database(Seq<char>),
    Config(Seq<char>),
    Telegram(Seq<char>),
    Parser(Seq<char>),
    BalanceCalculation(Seq<char>),
    WalletNotFound(Seq<char>),
    InvalidMessageFormat(Seq<char>),
    Io(Seq<char>),
    Env(Seq<char>),
}

impl View for WalletBotError {
    type V = ErrV;

    open spec fn view(&self) -> ErrV {
        match self {
            WalletBotError::Database(m) => ErrV::Database(m@),
            WalletBotError::Config(m) => ErrV::Config(m@),
            WalletBotError::Telegram(m) => ErrV::Telegram(m@),
            WalletBotError::Parser { message } => ErrV::Parser(message@),
            WalletBotError::BalanceCalculation { message } => ErrV::BalanceCalculation(message@),
            WalletBotError::WalletNotFound { name } => ErrV::WalletNotFound(name@),
            WalletBotError::InvalidMessageFormat { message } => ErrV::InvalidMessageFormat(
                message@,
            ),
            WalletBotError::Io(m) => ErrV::Io(m@),
            WalletBotError::Env(m) => ErrV::Env(m@),
        }
    }
}

/// How severe an error is.
#[derive(Debug, Clone, Copy, PartialEq, Eq, Structural)]
pub enum ErrorSeverity {
    Low,
    Medium,
    High,
    Critical,
}

/// The severity of each error kind.
pub open spec fn spec_severity(e: &WalletBotError) -> ErrorSeverity {
    match e {
        WalletBotError::Config(_) => ErrorSeverity::Critical,
        WalletBotError::Database(_) => ErrorSeverity::High,
        WalletBotError::Telegram(_) => ErrorSeverity::Medium,
        WalletBotError::Parser { .. } => ErrorSeverity::Low,
        WalletBotError::BalanceCalculation { .. } => ErrorSeverity::High,
        WalletBotError::WalletNotFound { .. } => ErrorSeverity::Medium,
        WalletBotError::InvalidMessageFormat { .. } => ErrorSeverity::Low,
        WalletBotError::Io(_) => ErrorSeverity::Medium,
        WalletBotError::Env(_) => ErrorSeverity::Critical,
    }
}

impl WalletBotError {
    /// A parser failure with the given message.
    pub fn parser_error(message: &str) -> (r: Self)
        ensures
            r matches WalletBotError::Parser { message: m } && m@ == message@,
    {
        WalletBotError::Parser { message: message.to_owned() }
    }

    /// A balance-calculation failure with the given message.
    pub fn balance_calculation_error(message: &str) -> (r: Self)
        ensures
            r matches WalletBotError::BalanceCalculation { message: m } && m@ == message@,
    {
        WalletBotError::BalanceCalculation { message: message.to_owned() }
    }

    /// A missing-wallet failure naming the wallet.
    pub fn wallet_not_found(name: &str) -> (r: Self)
        ensures
            r matches WalletBotError::WalletNotFound { name: n } && n@ == name@,
    {
        WalletBotError::WalletNotFound { name: name.to_owned() }
    }

    /// A malformed-message failure with the given message.
    pub fn invalid_message_format(message: &str) -> (r: Self)
        ensures
            r matches WalletBotError::InvalidMessageFormat { message: m } && m@ == message@,
    {
        WalletBotError::InvalidMessageFormat { message: message.to_owned() }
    }

    /// Whether retrying the failed operation could help: true exactly for
    /// storage, transport and input/output failures.
    pub fn is_retryable(&self) -> (r: bool)
        ensures
            r == (self is Database || self is Telegram || self is Io),
    {
        match self {
            WalletBotError::Database(_) => true,
            WalletBotError::Telegram(_) => true,
            WalletBotError::Io(_) => true,
            _ => false,
        }
    }

    /// How severe this error is.
    pub fn severity(&self) -> (r: ErrorSeverity)
        ensures
            r == spec_severity(self),
    {
        match self {
            WalletBotError::Config(_) => ErrorSeverity::Critical,
            WalletBotError::Database(_) => ErrorSeverity::High,
            WalletBotError::Telegram(_) => ErrorSeverity::Medium,
            WalletBotError::Parser { .. } => ErrorSeverity::Low,
            WalletBotError::BalanceCalculation { .. } => ErrorSeverity::High,
            WalletBotError::WalletNotFound { .. } => ErrorSeverity::Medium,
            WalletBotError::InvalidMessageFormat { .. } => ErrorSeverity::Low,
            WalletBotError::Io(_) => ErrorSeverity::Medium,
            WalletBotError::Env(_) => ErrorSeverity::Critical,
        }
    }
}

impl ErrorSeverity {
    /// The label of this severity, as logs show it.
    pub fn label(&self) -> (r: &'static str)
        ensures
            self is Low ==> r@ == "LOW"@,
            self is Medium ==> r@ == "MEDIUM"@,
            self is High ==> r@ == "HIGH"@,
            self is Critical ==> r@ == "CRITICAL"@,
    {
        match self {
            ErrorSeverity::Low => "LOW",
            ErrorSeverity::Medium => "MEDIUM",
            ErrorSeverity::High => "HIGH",
            ErrorSeverity::Critical => "CRITICAL",
        }
    }
}

} // verus!

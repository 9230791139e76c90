//! Message types for view status and feedback.

use vstd::prelude::*;

verus! {

/// Severity level for status messages.
#[derive(Debug, Clone, Copy, PartialEq, Eq, Structural)]
pub enum MessageLevel {
    /// Informational message (neutral)
    Info,
    /// Success message (positive outcome)
    Success,
    /// Warning message (attention needed)
    Warning,
    /// Error message (something went wrong)
    Error,
}

/// The lowercase word a level is written as (`info`, `success`, ...).
pub open spec fn level_word(level: MessageLevel) -> Seq<char> {
    match level {
        MessageLevel::Info => "info"@,
        MessageLevel::Success => "success"@,
        MessageLevel::Warning => "warning"@,
        MessageLevel::Error => "error"@,
    }
}

/// The framework style a level is rendered with: `standout-` and the level's word.
pub open spec fn level_style(level: MessageLevel) -> Seq<char> {
    "standout-"@ + level_word(level)
}

impl MessageLevel {
    /// The lowercase word the level is written as: `info`, `success`,
    /// `warning` or `error`.
    pub fn as_str(&self) -> (word: &'static str)
        ensures
            word@ == level_word(*self),
    {
        proof {
            reveal_strlit("info");
            reveal_strlit("success");
            reveal_strlit("warning");
            reveal_strlit("error");
        }
        match self {
            MessageLevel::Info => "info",
            MessageLevel::Success => "success",
            MessageLevel::Warning => "warning",
            MessageLevel::Error => "error",
        }
    }

    /// Returns the style name used for this level in templates.
    pub fn style_name(&self) -> (name: &'static str)
        ensures
            name@ == level_style(*self),
    {
        proof {
            reveal_strlit("standout-");
            reveal_strlit("info");
            reveal_strlit("success");
            reveal_strlit("warning");
            reveal_strlit("error");
            reveal_strlit("standout-info");
            reveal_strlit("standout-success");
            reveal_strlit("standout-warning");
            reveal_strlit("standout-error");
        }
        match self {
            MessageLevel::Info => "standout-info",
            MessageLevel::Success => "standout-success",
            MessageLevel::Warning => "standout-warning",
            MessageLevel::Error => "standout-error",
        }
    }
}

/// A status message with severity level.
#[derive(Debug, Clone, PartialEq, Eq)]
pub struct Message {
    /// The severity level
    pub level: MessageLevel,
    /// The message text
    pub text: String,
}

impl Message {
    /// Create a new message.
    pub fn new(level: MessageLevel, text: &str) -> (m: Self)
        ensures
            m.level == level,
            m.text@ == text@,
    {
        Message { level, text: text.to_string() }
    }

    /// Create an info message.
    pub fn info(text: &str) -> (m: Self)
        ensures
            m.level == MessageLevel::Info,
            m.text@ == text@,
    {
        Self::new(MessageLevel::Info, text)
    }

    /// Create a success message.
    pub fn success(text: &str) -> (m: Self)
        ensures
            m.level == MessageLevel::Success,
            m.text@ == text@,
    {
        Self::new(MessageLevel::Success, text)
    }

    /// Create a warning message.
    pub fn warning(text: &str) -> (m: Self)
        ensures
            m.level == MessageLevel::Warning,
            m.text@ == text@,
    {
        Self::new(MessageLevel::Warning, text)
    }

    /// Create an error message.
    pub fn error(text: &str) -> (m: Self)
        ensures
            m.level == MessageLevel::Error,
            m.text@ == text@,
    {
        Self::new(MessageLevel::Error, text)
    }
}

/// `after` is `before` with one more message at its end, of `level` and reading `text`.
pub open spec fn appends_message(
    before: Seq<Message>,
    after: Seq<Message>,
    level: MessageLevel,
    text: Seq<char>,
) -> bool {
    &&& after.len() == before.len() + 1
    &&& after.take(before.len() as int) == before
    &&& after.last().level == level
    &&& after.last().text@ == text
}

} // verus!

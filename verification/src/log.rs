//! In-game log messages, tagged with a severity for display.

use vstd::prelude::*;

verus! {

#[derive(Debug, Clone, Copy, PartialEq, Eq, Structural)]
pub enum LogLevel {
    Info,
    Error,
    Success,
}

#[derive(Debug, Clone)]
pub struct LogMessage {
    pub level: LogLevel,
    pub text: String,
}

impl LogMessage {
    pub fn info(text: &str) -> (m: Self)
        ensures
            m.level == LogLevel::Info,
            m.text@ == text@,
    {
        Self { level: LogLevel::Info, text: text.to_owned() }
    }

    pub fn error(text: &str) -> (m: Self)
        ensures
            m.level == LogLevel::Error,
            m.text@ == text@,
    {
        Self { level: LogLevel::Error, text: text.to_owned() }
    }

    pub fn success(text: &str) -> (m: Self)
        ensures
            m.level == LogLevel::Success,
            m.text@ == text@,
    {
        Self { level: LogLevel::Success, text: text.to_owned() }
    }
}

} // verus!

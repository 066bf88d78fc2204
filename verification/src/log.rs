//! Which messages a logger lets through.

use vstd::prelude::*;

verus! {

/// Log levels, from the most talkative to the most severe.
#[derive(Clone, Copy, Debug, PartialEq, Eq, Structural)]
pub enum LogLevel {
    Debug,
    Info,
    Warn,
    Error,
    Fatal,
}

impl LogLevel {
    /// The place of the level in the order of severity.
    pub open spec fn spec_rank(self) -> u8 {
        match self {
            LogLevel::Debug => 0,
            LogLevel::Info => 1,
            LogLevel::Warn => 2,
            LogLevel::Error => 3,
            LogLevel::Fatal => 4,
        }
    }

    /// The place of the level in the order of severity.
    pub fn rank(self) -> (r: u8)
        ensures
            r == self.spec_rank(),
    {
        match self {
            LogLevel::Debug => 0,
            LogLevel::Info => 1,
            LogLevel::Warn => 2,
            LogLevel::Error => 3,
            LogLevel::Fatal => 4,
        }
    }

    /// Whether a message of this level goes to the error stream.
    pub fn is_error(self) -> (e: bool)
        ensures
            e == (self.spec_rank() >= LogLevel::Error.spec_rank()),
    {
        match self {
            LogLevel::Error | LogLevel::Fatal => true,
            _ => false,
        }
    }

    /// The tag that marks a message of this level.
    pub fn tag(self) -> (t: &'static str)
        ensures
            t@ == self.spec_tag(),
    {
        match self {
            LogLevel::Debug => "[DEBUG]",
            LogLevel::Info => "[INFO]",
            LogLevel::Warn => "[WARN]",
            LogLevel::Error => "[ERROR]",
            LogLevel::Fatal => "[FATAL]",
        }
    }

    /// The tag that marks a message of this level.
    pub open spec fn spec_tag(self) -> Seq<char> {
        match self {
            LogLevel::Debug => "[DEBUG]"@,
            LogLevel::Info => "[INFO]"@,
            LogLevel::Warn => "[WARN]"@,
            LogLevel::Error => "[ERROR]"@,
            LogLevel::Fatal => "[FATAL]"@,
        }
    }
}

/// Whether a logger set to `threshold` writes a message of `level`: it
/// does unless the message is less severe than the threshold.
pub fn should_log(threshold: LogLevel, level: LogLevel) -> (write: bool)
    ensures
        write == (threshold.spec_rank() <= level.spec_rank()),
{
    threshold.rank() <= level.rank()
}

} // verus!

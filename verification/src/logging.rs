//! What the logger of the tool decides of a message: whether it is
//! written, under which label, and to which stream.

use vstd::prelude::*;

verus! {

/// The format in which the tool emits its messages.
#[derive(Debug, Clone, Copy, PartialEq, Eq, Structural)]
pub enum MessagingFormat {
    /// Every message is emitted as JSON.
    Json,
    /// Messages are emitted as text for a reader.
    Normal,
}

impl Default for MessagingFormat {
    fn default() -> (format: MessagingFormat)
        ensures
            format == MessagingFormat::Normal,
    {
        MessagingFormat::Normal
    }
}

impl MessagingFormat {
    /// The name of the format, as it is written on the command line.
    pub fn to_string(&self) -> (name: String)
        ensures
            name@ == (match *self {
                MessagingFormat::Json => "json"@,
                MessagingFormat::Normal => "normal"@,
            }),
    {
        match self {
            MessagingFormat::Json => "json".to_owned(),
            MessagingFormat::Normal => "normal".to_owned(),
        }
    }
}

/// The level of a log message, from the gravest to the most verbose.
#[derive(Debug, Clone, Copy, PartialEq, Eq, Structural)]
pub enum LogLevel {
    Error,
    Warn,
    Info,
    Debug,
    Trace,
}

/// The stream that a log message is written to.
#[derive(Debug, Clone, Copy, PartialEq, Eq, Structural)]
pub enum LogStream {
    Output,
    Error,
}

impl LogLevel {
    /// Whether messages of this level are written: all are, but those of
    /// the level `Trace`.
    pub fn enabled(self) -> (written: bool)
        ensures
            written == (self != LogLevel::Trace),
    {
        match self {
            LogLevel::Trace => false,
            _ => true,
        }
    }

    /// The label that a message of this level is written under.
    pub fn label(self) -> (label: &'static str)
        ensures
            label@ == (match self {
                LogLevel::Error => "error"@,
                LogLevel::Warn => "warn"@,
                LogLevel::Info => "info"@,
                LogLevel::Debug => "debug"@,
                LogLevel::Trace => "trace"@,
            }),
    {
        match self {
            LogLevel::Error => "error",
            LogLevel::Warn => "warn",
            LogLevel::Info => "info",
            LogLevel::Debug => "debug",
            LogLevel::Trace => "trace",
        }
    }

    /// The stream that a message of this level is written to: the error
    /// stream for errors, the output stream for all else.
    pub fn stream(self) -> (stream: LogStream)
        ensures
            stream == (if self == LogLevel::Error {
                LogStream::Error
            } else {
                LogStream::Output
            }),
    {
        match self {
            LogLevel::Error => LogStream::Error,
            _ => LogStream::Output,
        }
    }
}

} // verus!

//! How the service logs.

use vstd::prelude::*;

verus! {

/// The shape of a log line.
#[derive(Debug, Clone, Copy, PartialEq, Eq, Structural)]
pub enum LogFormat {
    Json,
    Compact,
}

/// What a log line holds besides its message.
#[derive(Debug, Clone, Copy, PartialEq, Eq, Structural)]
pub struct LogLayout {
    /// The module that logged.
    pub target: bool,
    /// The line of the source that logged.
    pub line_number: bool,
    /// The file of the source that logged.
    pub file: bool,
    /// The thread that logged.
    pub thread_ids: bool,
    /// How grave the event is.
    pub level: bool,
    /// The span in which the event happened. Only JSON lines can hold it.
    pub current_span: bool,
}

/// The shape of the log lines and the filter that picks them.
#[derive(Debug)]
pub struct LogConfig {
    pub format: LogFormat,
    pub filter: String,
}

/// A [`LogConfig`] with its filter as a sequence of characters.
pub struct LogConfigView {
    pub format: LogFormat,
    pub filter: Seq<char>,
}

impl View for LogConfig {
    type V = LogConfigView;

    open spec fn view(&self) -> LogConfigView {
        LogConfigView { format: self.format, filter: self.filter@ }
    }
}

} // verus!

//! Verbosity-gated log-line rendering.
//!
//! A [`Logger`] decides, from its verbosity, whether a message is emitted at
//! a level, and renders the exact line; the application only prints what it
//! gets back. `None` means the message is suppressed. [`GlobalLogger`] is
//! the process-wide handle the application threads through explicitly in
//! place of process-wide mutable state.

use vstd::prelude::*;
use vstd::string::StringExecFns;

verus! {

/// A verbosity level, `Error` lowest.
#[derive(Clone, Copy, Debug, PartialEq, Eq, Structural)]
pub enum LogLevel {
    Error,
    Warn,
    Info,
    Debug,
    Trace,
}

/// How much a level lets through; higher ranks include lower ones.
pub open spec fn spec_level_rank(l: LogLevel) -> nat {
    match l {
        LogLevel::Error => 0,
        LogLevel::Warn => 1,
        LogLevel::Info => 2,
        LogLevel::Debug => 3,
        LogLevel::Trace => 4,
    }
}

impl LogLevel {
    /// The numeric rank of this level.
    pub fn rank(&self) -> (r: u8)
        ensures
            r as nat == spec_level_rank(*self),
    {
        match self {
            LogLevel::Error => 0,
            LogLevel::Warn => 1,
            LogLevel::Info => 2,
            LogLevel::Debug => 3,
            LogLevel::Trace => 4,
        }
    }

    /// This level admits messages of `other`'s severity.
    pub fn at_least(&self, other: LogLevel) -> (r: bool)
        ensures
            r == (spec_level_rank(*self) >= spec_level_rank(other)),
    {
        self.rank() >= other.rank()
    }
}

/// The default log-line prefix.
pub open spec fn spec_default_prefix() -> Seq<char> {
    ">> ntfy"@
}

/// A log-line renderer with an optional prefix and an optional verbosity;
/// no verbosity (quiet) suppresses everything.
#[derive(Debug, Clone)]
pub struct Logger {
    pub prefix: Option<String>,
    pub verbosity: Option<LogLevel>,
}

impl Logger {
    /// Anything at all is emitted (the caller did not ask for quiet).
    pub open spec fn spec_enabled(self) -> bool {
        self.verbosity is Some
    }

    /// Messages gated at `min` are emitted.
    pub open spec fn spec_enabled_at(self, min: LogLevel) -> bool {
        match self.verbosity {
            Some(v) => spec_level_rank(v) >= spec_level_rank(min),
            None => false,
        }
    }

    /// `body`, prefixed when this logger has a prefix.
    pub open spec fn spec_prefixed(self, body: Seq<char>) -> Seq<char> {
        match self.prefix {
            None => body,
            Some(p) => p@ + " | "@ + body,
        }
    }

    /// A levelled line: the level tag, then the text, behind the prefix.
    pub open spec fn spec_levelled(self, level: Seq<char>, text: Seq<char>) -> Seq<char> {
        self.spec_prefixed(level + " | "@ + text)
    }

    /// A logger with the default prefix.
    pub fn new(verbosity: Option<LogLevel>) -> (l: Logger)
        ensures
            l.verbosity == verbosity,
            l.prefix matches Some(p) && p@ == spec_default_prefix(),
    {
        Logger { prefix: Some(">> ntfy".to_owned()), verbosity }
    }

    /// A logger with its own prefix.
    pub fn new_with_prefix(verbosity: Option<LogLevel>, prefix: &str) -> (l: Logger)
        ensures
            l.verbosity == verbosity,
            l.prefix matches Some(p) && p@ == prefix@,
    {
        Logger { prefix: Some(prefix.to_owned()), verbosity }
    }

    /// The prefixless, quiet logger.
    pub fn empty() -> (l: Logger)
        ensures
            l.prefix is None,
            l.verbosity is None,
    {
        Logger { prefix: None, verbosity: None }
    }

    /// Render a levelled line.
    fn render_levelled(&self, level: &str, text: &str) -> (r: String)
        ensures
            r@ == self.spec_levelled(level@, text@),
    {
        let mut body = level.to_owned();
        body.append(" | ");
        body.append(text);
        match &self.prefix {
            None => body,
            Some(p) => {
                let mut s = p.clone();
                s.append(" | ");
                s.append(body.as_str());
                s
            },
        }
    }

    /// The unlevelled line for `text`, unless quiet.
    pub fn log(&self, text: &str) -> (r: Option<String>)
        ensures
            r is Some <==> self.spec_enabled(),
            r matches Some(line) ==> line@ == self.spec_prefixed(text@),
    {
        match &self.verbosity {
            None => None,
            Some(_) => match &self.prefix {
                None => Some(text.to_owned()),
                Some(p) => {
                    let mut s = p.clone();
                    s.append(" | ");
                    s.append(text);
                    Some(s)
                },
            },
        }
    }

    /// The `success`-levelled line, unless quiet.
    pub fn success(&self, text: &str) -> (r: Option<String>)
        ensures
            r is Some <==> self.spec_enabled(),
            r matches Some(line) ==> line@ == self.spec_levelled("success"@, text@),
    {
        match &self.verbosity {
            None => None,
            Some(_) => Some(self.render_levelled("success", text)),
        }
    }

    /// Text for standard output, unless quiet.
    pub fn stdout(&self, text: &str) -> (r: Option<String>)
        ensures
            r is Some <==> self.spec_enabled(),
            r matches Some(line) ==> line@ == text@,
    {
        match &self.verbosity {
            None => None,
            Some(_) => Some(text.to_owned()),
        }
    }

    /// Text for the error stream, unless quiet.
    pub fn stderr(&self, text: &str) -> (r: Option<String>)
        ensures
            r is Some <==> self.spec_enabled(),
            r matches Some(line) ==> line@ == text@,
    {
        match &self.verbosity {
            None => None,
            Some(_) => Some(text.to_owned()),
        }
    }

    /// The `error`-levelled line, at `Error` and up.
    pub fn error(&self, text: &str) -> (r: Option<String>)
        ensures
            r is Some <==> self.spec_enabled_at(LogLevel::Error),
            r matches Some(line) ==> line@ == self.spec_levelled("error"@, text@),
    {
        match &self.verbosity {
            None => None,
            Some(v) => if v.at_least(LogLevel::Error) {
                Some(self.render_levelled("error", text))
            } else {
                None
            },
        }
    }

    /// A line with a caller-chosen tag, shown at the default verbosity:
    /// gated like `error`, but without the `error` tag.
    pub fn important(&self, tag: &str, text: &str) -> (r: Option<String>)
        ensures
            r is Some <==> self.spec_enabled_at(LogLevel::Error),
            r matches Some(line) ==> line@ == self.spec_levelled(tag@, text@),
    {
        match &self.verbosity {
            None => None,
            Some(v) => if v.at_least(LogLevel::Error) {
                Some(self.render_levelled(tag, text))
            } else {
                None
            },
        }
    }

    /// The `warn`-levelled line, at `Warn` and up.
    pub fn warn(&self, text: &str) -> (r: Option<String>)
        ensures
            r is Some <==> self.spec_enabled_at(LogLevel::Warn),
            r matches Some(line) ==> line@ == self.spec_levelled("warn"@, text@),
    {
        match &self.verbosity {
            None => None,
            Some(v) => if v.at_least(LogLevel::Warn) {
                Some(self.render_levelled("warn", text))
            } else {
                None
            },
        }
    }

    /// The `info`-levelled line, at `Info` and up.
    pub fn info(&self, text: &str) -> (r: Option<String>)
        ensures
            r is Some <==> self.spec_enabled_at(LogLevel::Info),
            r matches Some(line) ==> line@ == self.spec_levelled("info"@, text@),
    {
        match &self.verbosity {
            None => None,
            Some(v) => if v.at_least(LogLevel::Info) {
                Some(self.render_levelled("info", text))
            } else {
                None
            },
        }
    }

    /// The `debug`-levelled line, at `Debug` and up.
    pub fn debug(&self, text: &str) -> (r: Option<String>)
        ensures
            r is Some <==> self.spec_enabled_at(LogLevel::Debug),
            r matches Some(line) ==> line@ == self.spec_levelled("debug"@, text@),
    {
        match &self.verbosity {
            None => None,
            Some(v) => if v.at_least(LogLevel::Debug) {
                Some(self.render_levelled("debug", text))
            } else {
                None
            },
        }
    }
}

/// The process-wide logging handle, passed explicitly; it renders through
/// the one [`Logger`] it was set up with.
#[derive(Debug, Clone)]
pub struct GlobalLogger {
    pub logger: Logger,
}

impl Default for GlobalLogger {
    /// The quiet, prefixless handle, for a process that never set one up.
    fn default() -> (g: GlobalLogger)
        ensures
            g.logger.prefix is None,
            g.logger.verbosity is None,
    {
        GlobalLogger { logger: Logger::empty() }
    }
}

impl GlobalLogger {
    /// Wrap the logger the process was set up with.
    pub fn new(logger: Logger) -> (g: GlobalLogger)
        ensures
            g.logger == logger,
    {
        GlobalLogger { logger }
    }

    /// The configured verbosity.
    pub fn get_verbosity(&self) -> (r: Option<LogLevel>)
        ensures
            r == self.logger.verbosity,
    {
        self.logger.verbosity
    }

    /// See [`Logger::log`].
    pub fn log(&self, text: &str) -> (r: Option<String>)
        ensures
            r is Some <==> self.logger.spec_enabled(),
            r matches Some(line) ==> line@ == self.logger.spec_prefixed(text@),
    {
        self.logger.log(text)
    }

    /// See [`Logger::success`].
    pub fn success(&self, text: &str) -> (r: Option<String>)
        ensures
            r is Some <==> self.logger.spec_enabled(),
            r matches Some(line) ==> line@ == self.logger.spec_levelled("success"@, text@),
    {
        self.logger.success(text)
    }

    /// See [`Logger::warn`].
    pub fn warn(&self, text: &str) -> (r: Option<String>)
        ensures
            r is Some <==> self.logger.spec_enabled_at(LogLevel::Warn),
            r matches Some(line) ==> line@ == self.logger.spec_levelled("warn"@, text@),
    {
        self.logger.warn(text)
    }

    /// See [`Logger::error`].
    pub fn error(&self, text: &str) -> (r: Option<String>)
        ensures
            r is Some <==> self.logger.spec_enabled_at(LogLevel::Error),
            r matches Some(line) ==> line@ == self.logger.spec_levelled("error"@, text@),
    {
        self.logger.error(text)
    }

    /// See [`Logger::important`].
    pub fn important(&self, tag: &str, text: &str) -> (r: Option<String>)
        ensures
            r is Some <==> self.logger.spec_enabled_at(LogLevel::Error),
            r matches Some(line) ==> line@ == self.logger.spec_levelled(tag@, text@),
    {
        self.logger.important(tag, text)
    }

    /// See [`Logger::info`].
    pub fn info(&self, text: &str) -> (r: Option<String>)
        ensures
            r is Some <==> self.logger.spec_enabled_at(LogLevel::Info),
            r matches Some(line) ==> line@ == self.logger.spec_levelled("info"@, text@),
    {
        self.logger.info(text)
    }

    /// See [`Logger::stdout`].
    pub fn stdout(&self, text: &str) -> (r: Option<String>)
        ensures
            r is Some <==> self.logger.spec_enabled(),
            r matches Some(line) ==> line@ == text@,
    {
        self.logger.stdout(text)
    }

    /// See [`Logger::stderr`].
    pub fn stderr(&self, text: &str) -> (r: Option<String>)
        ensures
            r is Some <==> self.logger.spec_enabled(),
            r matches Some(line) ==> line@ == text@,
    {
        self.logger.stderr(text)
    }

    /// See [`Logger::debug`].
    pub fn debug(&self, text: &str) -> (r: Option<String>)
        ensures
            r is Some <==> self.logger.spec_enabled_at(LogLevel::Debug),
            r matches Some(line) ==> line@ == self.logger.spec_levelled("debug"@, text@),
    {
        self.logger.debug(text)
    }
}

} // verus!

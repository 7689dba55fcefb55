//! The logger value: configuration, child derivation, gating and the format
//! of a log line.
//!
//! A logger carries its sink (`S`, in practice a `fn(String)`) but never calls
//! it: `logger` hands back the line that is due, and the caller passes it on.
//! What the process supplies — the threshold override read from the
//! environment, the serverless-host marker, the local time — comes in as
//! plain values.
use vstd::prelude::*;
use crate::clock::{LocalTime, Timestamp};
use crate::colour::{default_colour_for, level_colour, Colour};
use crate::level::{lower_of, parsed, LogLevel};
use crate::text::joined;

verus! {

/// The environment variable whose value, when it names a level, overrides
/// every logger's threshold.
pub const LOG_LEVEL_ENV_VAR_NAME: &'static str = "LOG_LEVEL";

/// The environment variable whose presence marks a managed serverless host,
/// where colour codes are left out by default.
pub const AWS_LAMBDA_ENV_VAR_NAME: &'static str = "AWS_LAMBDA_FUNCTION_NAME";

/// A logger: its threshold, prefix, context, timestamp mode, whether colour
/// codes are left out, and the sink that receives its lines.
pub struct Log<S> {
    context: String,
    log_level: LogLevel,
    logging_function: S,
    prefix: String,
    suppress_ansi: bool,
    timestamp: Timestamp,
}

/// The value of a logger, as contracts speak of it.
pub struct LogView<S> {
    pub context: Seq<char>,
    pub log_level: LogLevel,
    pub logging_function: S,
    pub prefix: Seq<char>,
    pub suppress_ansi: bool,
    pub timestamp: Timestamp,
}

impl<S> View for Log<S> {
    type V = LogView<S>;

    closed spec fn view(&self) -> LogView<S> {
        LogView {
            context: self.context@,
            log_level: self.log_level,
            logging_function: self.logging_function,
            prefix: self.prefix@,
            suppress_ansi: self.suppress_ansi,
            timestamp: self.timestamp,
        }
    }
}

/// The logger that `new` builds: threshold `Info`, no prefix, no context, no
/// timestamp, colour codes left out exactly on a serverless host.
pub open spec fn default_view<S>(logging_function: S, in_serverless_host: bool) -> LogView<S> {
    LogView {
        context: Seq::empty(),
        log_level: LogLevel::Info,
        logging_function,
        prefix: Seq::empty(),
        suppress_ansi: in_serverless_host,
        timestamp: Timestamp::Off,
    }
}

/// The prefix of a child: the parent's, then a space and the new part if
/// there is one.
pub open spec fn child_prefix(parent: Seq<char>, prefix: Option<Seq<char>>) -> Seq<char> {
    match prefix {
        Some(p) => parent + " "@ + p,
        None => parent,
    }
}

/// The header that starts a replaced context.
pub open spec fn context_header() -> Seq<char> {
    "\nContext:\n"@
}

/// The view of `v` with another prefix and context, all else kept.
pub open spec fn with_label<S>(v: LogView<S>, prefix: Seq<char>, context: Seq<char>) -> LogView<S> {
    LogView { prefix, context, ..v }
}

/// The threshold in force: the level that the override names, if it is
/// present and names one, else the logger's own.
pub open spec fn effective_threshold(own: LogLevel, env_level: Option<Seq<char>>) -> LogLevel {
    match env_level {
        Some(v) => match parsed(lower_of(v)) {
            Ok(l) => l,
            Err(_) => own,
        },
        None => own,
    }
}

/// Whether a message at `level` passes the threshold in force.
pub open spec fn passes(own: LogLevel, env_level: Option<Seq<char>>, level: LogLevel) -> bool {
    level.ordinal() >= effective_threshold(own, env_level).ordinal()
}

/// The colour code before the level name, empty when colour is left out.
pub open spec fn colour_on(suppress_ansi: bool, level: LogLevel) -> Seq<char> {
    if suppress_ansi {
        Seq::empty()
    } else {
        level_colour(level).code()
    }
}

/// The colour code after the level name, empty when colour is left out.
pub open spec fn colour_off(suppress_ansi: bool) -> Seq<char> {
    if suppress_ansi {
        Seq::empty()
    } else {
        Colour::Off.code()
    }
}

/// A log line: `{timestamp}{colour_on}{LEVEL}{colour_off}:{prefix} {msg} {context}`.
pub open spec fn line_text<S>(v: LogView<S>, level: LogLevel, msg: Seq<char>, now: LocalTime) -> Seq<char> {
    v.timestamp.text_at(now) + colour_on(v.suppress_ansi, level) + level.upper_name()
        + colour_off(v.suppress_ansi) + ":"@ + v.prefix + " "@ + msg + " "@ + v.context
}

/// The message of a "with data" call: the message, a newline, the rendering.
pub open spec fn message_with_data(msg: Seq<char>, data: Seq<char>) -> Seq<char> {
    msg + "\n"@ + data
}

/// The text of an optional string argument.
pub open spec fn opt_text(s: Option<&str>) -> Option<Seq<char>> {
    match s {
        Some(v) => Some(v@),
        None => None,
    }
}

impl<S: Copy> Log<S> {
    /// A logger with the default settings, writing to `logging_function`;
    /// colour codes are left out when `in_serverless_host` holds.
    pub fn new(logging_function: S, in_serverless_host: bool) -> (r: Log<S>)
        ensures
            r@ == default_view(logging_function, in_serverless_host),
    {
        Log {
            context: String::new(),
            log_level: LogLevel::Info,
            logging_function,
            prefix: String::new(),
            suppress_ansi: in_serverless_host,
            timestamp: Timestamp::Off,
        }
    }

    /// A builder that starts from the default settings.
    pub fn new_ex(logging_function: S, in_serverless_host: bool) -> (r: LogrsBuilder<S>)
        ensures
            r@ == default_view(logging_function, in_serverless_host),
    {
        LogrsBuilder { instance: Log::new(logging_function, in_serverless_host) }
    }

    fn relabel(&self, prefix: String, context: String) -> (r: Log<S>)
        ensures
            r@ == with_label(self@, prefix@, context@),
    {
        Log {
            context,
            log_level: self.log_level,
            logging_function: self.logging_function,
            prefix,
            suppress_ansi: self.suppress_ansi,
            timestamp: self.timestamp,
        }
    }

    fn prefix_for(&self, prefix: Option<&str>) -> (r: String)
        ensures
            r@ == child_prefix(self@.prefix, opt_text(prefix)),
    {
        match prefix {
            Some(value) => {
                let mut p = self.prefix.clone();
                p.append(" ");
                p.append(value);
                p
            },
            None => self.prefix.clone(),
        }
    }

    /// A copy of this logger whose prefix gains a space and `prefix`, if given.
    pub fn child(&self, prefix: Option<&str>) -> (r: Log<S>)
        ensures
            r@ == with_label(self@, child_prefix(self@.prefix, opt_text(prefix)), self@.context),
    {
        self.relabel(self.prefix_for(prefix), self.context.clone())
    }

    /// As `child`, with the context replaced by a header line and `context`,
    /// the rendering of the new data (see `pretty`).
    pub fn child_with_new_context(&self, prefix: Option<&str>, context: &str) -> (r: Log<S>)
        ensures
            r@ == with_label(
                self@,
                child_prefix(self@.prefix, opt_text(prefix)),
                context_header() + context@,
            ),
    {
        self.relabel(self.prefix_for(prefix), joined("\nContext:\n", context))
    }

    /// As `child`, with `context`, the rendering of more data (see `pretty`),
    /// added on a new line after the context kept so far.
    pub fn child_with_additional_context(&self, prefix: Option<&str>, context: &str) -> (r: Log<S>)
        ensures
            r@ == with_label(
                self@,
                child_prefix(self@.prefix, opt_text(prefix)),
                self@.context + "\n"@ + context@,
            ),
    {
        let mut c = self.context.clone();
        c.append("\n");
        c.append(context);
        self.relabel(self.prefix_for(prefix), c)
    }

    /// Whether a message at `level` is written. `env_level` is the value of
    /// the threshold override variable, if it is set: when it names a level,
    /// in any letter case, that level is the threshold for this call.
    pub fn should_log(&self, level: LogLevel, env_level: Option<&str>) -> (r: bool)
        ensures
            r == passes(self@.log_level, opt_text(env_level), level),
    {
        let threshold = match env_level {
            Some(v) => match LogLevel::parse(v) {
                Ok(l) => l,
                Err(_) => self.log_level,
            },
            None => self.log_level,
        };
        level >= threshold
    }

    /// The line for a message at `level` written at `now`.
    pub fn format_log(&self, level: LogLevel, msg: &str, now: &LocalTime) -> (r: String)
        ensures
            r@ == line_text(self@, level, msg@, *now),
    {
        let mut r = self.timestamp.render(now);
        if !self.suppress_ansi {
            r.append(default_colour_for(level).as_str());
        }
        r.append(level.display_name());
        if !self.suppress_ansi {
            r.append(Colour::Off.as_str());
        }
        r.append(":");
        r.append(self.prefix.as_str());
        r.append(" ");
        r.append(msg);
        r.append(" ");
        r.append(self.context.as_str());
        r
    }

    /// The line due for a message at `level`, or `None` where the threshold
    /// in force filters it out. The caller hands the line to the sink.
    pub fn logger(&self, level: LogLevel, msg: &str, env_level: Option<&str>, now: &LocalTime) -> (r: Option<String>)
        ensures
            r is Some <==> passes(self@.log_level, opt_text(env_level), level),
            r matches Some(line) ==> line@ == line_text(self@, level, msg@, *now),
    {
        if self.should_log(level, env_level) {
            Some(self.format_log(level, msg, now))
        } else {
            None
        }
    }

    /// The line due for a message with data attached: the message, a newline
    /// and `data`, the rendering of the data (see `pretty`).
    pub fn logger_with_data(&self, level: LogLevel, msg: &str, data: &str, env_level: Option<&str>, now: &LocalTime) -> (r: Option<String>)
        ensures
            r is Some <==> passes(self@.log_level, opt_text(env_level), level),
            r matches Some(line) ==> line@ == line_text(self@, level, message_with_data(msg@, data@), *now),
    {
        let mut m = String::from_str(msg);
        m.append("\n");
        m.append(data);
        self.logger(level, m.as_str(), env_level, now)
    }

    /// The context that ends every line.
    pub fn context(&self) -> (r: &str)
        ensures
            r@ == self@.context,
    {
        self.context.as_str()
    }

    /// The label chain put after the level name.
    pub fn prefix(&self) -> (r: &str)
        ensures
            r@ == self@.prefix,
    {
        self.prefix.as_str()
    }

    /// The logger's own threshold.
    pub fn log_level(&self) -> (r: LogLevel)
        ensures
            r == self@.log_level,
    {
        self.log_level
    }

    /// Whether colour codes are left out.
    pub fn suppress_ansi(&self) -> (r: bool)
        ensures
            r == self@.suppress_ansi,
    {
        self.suppress_ansi
    }

    /// The timestamp mode.
    pub fn timestamp(&self) -> (r: Timestamp)
        ensures
            r == self@.timestamp,
    {
        self.timestamp
    }

    /// The sink that receives the lines.
    pub fn logging_function(&self) -> (r: S)
        ensures
            r == self@.logging_function,
    {
        self.logging_function
    }
}

/// Staged construction of a logger: each setter changes the pending logger
/// and hands the builder back; `done` yields a copy of it.
pub struct LogrsBuilder<S> {
    instance: Log<S>,
}

impl<S> View for LogrsBuilder<S> {
    type V = LogView<S>;

    closed spec fn view(&self) -> LogView<S> {
        self.instance@
    }
}

impl<S: Copy> LogrsBuilder<S> {
    /// A builder that starts from the settings of `log`.
    pub(crate) fn from_log(log: Log<S>) -> (r: LogrsBuilder<S>)
        ensures
            r@ == log@,
    {
        LogrsBuilder { instance: log }
    }

    /// Leaves colour codes out of the lines.
    pub fn disable_ansi(self) -> (r: LogrsBuilder<S>)
        ensures
            r@ == (LogView { suppress_ansi: true, ..self@ }),
    {
        let mut b = self;
        b.instance.suppress_ansi = true;
        b
    }

    /// Sets the threshold; the default is `Info`.
    pub fn set_log_level(self, log_level: LogLevel) -> (r: LogrsBuilder<S>)
        ensures
            r@ == (LogView { log_level, ..self@ }),
    {
        let mut b = self;
        b.instance.log_level = log_level;
        b
    }

    /// Sets the timestamp mode; the default is `Timestamp::Off`.
    pub fn set_timestamp(self, timestamp: Timestamp) -> (r: LogrsBuilder<S>)
        ensures
            r@ == (LogView { timestamp, ..self@ }),
    {
        let mut b = self;
        b.instance.timestamp = timestamp;
        b
    }

    /// Sets the sink.
    pub fn set_logging_function(self, f: S) -> (r: LogrsBuilder<S>)
        ensures
            r@ == (LogView { logging_function: f, ..self@ }),
    {
        let mut b = self;
        b.instance.logging_function = f;
        b
    }

    /// A logger with the settings made so far.
    pub fn done(&self) -> (r: Log<S>)
        ensures
            r@ == self@,
    {
        self.instance.relabel(self.instance.prefix.clone(), self.instance.context.clone())
    }
}

} // verus!

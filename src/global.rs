//! The state behind the process-wide logger: a pending configuration, four
//! one-shot gates (threshold, timestamp, sink, colour), and the logger that
//! is fixed from the pending configuration the first time it is used.
//!
//! Each setter takes effect on its first call only, whether or not the logger
//! has been fixed yet; once fixed, the logger no longer changes. Callers that
//! share one `GlobalLog` between threads guard it with a lock.
use vstd::prelude::*;
use crate::clock::Timestamp;
use crate::level::LogLevel;
use crate::logger::{default_view, Log, LogView, LogrsBuilder};

verus! {

/// The process-wide logger's state.
pub struct GlobalLog<S> {
    builder: LogrsBuilder<S>,
    level_set: bool,
    timestamp_set: bool,
    function_set: bool,
    ansi_set: bool,
    instance: Option<Log<S>>,
}

/// The state of a `GlobalLog`, as contracts speak of it.
pub struct GlobalView<S> {
    pub pending: LogView<S>,
    pub level_set: bool,
    pub timestamp_set: bool,
    pub function_set: bool,
    pub ansi_set: bool,
    pub instance: Option<LogView<S>>,
}

impl<S> View for GlobalLog<S> {
    type V = GlobalView<S>;

    closed spec fn view(&self) -> GlobalView<S> {
        GlobalView {
            pending: self.builder@,
            level_set: self.level_set,
            timestamp_set: self.timestamp_set,
            function_set: self.function_set,
            ansi_set: self.ansi_set,
            instance: match self.instance {
                Some(l) => Some(l@),
                None => None,
            },
        }
    }
}

impl<S> GlobalView<S> {
    /// The state after a call of `set_log_level`.
    pub open spec fn after_set_log_level(self, level: LogLevel) -> GlobalView<S> {
        if self.level_set {
            self
        } else {
            GlobalView { pending: LogView { log_level: level, ..self.pending }, level_set: true, ..self }
        }
    }

    /// The state after a call of `set_timestamp`.
    pub open spec fn after_set_timestamp(self, timestamp: Timestamp) -> GlobalView<S> {
        if self.timestamp_set {
            self
        } else {
            GlobalView { pending: LogView { timestamp, ..self.pending }, timestamp_set: true, ..self }
        }
    }

    /// The state after a call of `set_logging_function`.
    pub open spec fn after_set_logging_function(self, f: S) -> GlobalView<S> {
        if self.function_set {
            self
        } else {
            GlobalView {
                pending: LogView { logging_function: f, ..self.pending },
                function_set: true,
                ..self
            }
        }
    }

    /// The state after a call of `disable_ansi`.
    pub open spec fn after_disable_ansi(self) -> GlobalView<S> {
        if self.ansi_set {
            self
        } else {
            GlobalView { pending: LogView { suppress_ansi: true, ..self.pending }, ansi_set: true, ..self }
        }
    }

    /// The logger in use: the fixed one, or else the one that the pending
    /// configuration would give.
    pub open spec fn effective(self) -> LogView<S> {
        match self.instance {
            Some(v) => v,
            None => self.pending,
        }
    }
}

impl<S: Copy> GlobalLog<S> {
    /// The state at start-up: default settings, no gate fired, no logger fixed.
    pub fn new(logging_function: S, in_serverless_host: bool) -> (r: GlobalLog<S>)
        ensures
            r@ == (GlobalView {
                pending: default_view(logging_function, in_serverless_host),
                level_set: false,
                timestamp_set: false,
                function_set: false,
                ansi_set: false,
                instance: None,
            }),
    {
        GlobalLog {
            builder: Log::new_ex(logging_function, in_serverless_host),
            level_set: false,
            timestamp_set: false,
            function_set: false,
            ansi_set: false,
            instance: None,
        }
    }

    /// Sets the pending threshold, on the first call only.
    pub fn set_log_level(&mut self, log_level: LogLevel)
        ensures
            final(self)@ == old(self)@.after_set_log_level(log_level),
    {
        if !self.level_set {
            self.builder = LogrsBuilder::from_log(self.builder.done()).set_log_level(log_level);
            self.level_set = true;
        }
    }

    /// Sets the pending timestamp mode, on the first call only.
    pub fn set_timestamp(&mut self, timestamp: Timestamp)
        ensures
            final(self)@ == old(self)@.after_set_timestamp(timestamp),
    {
        if !self.timestamp_set {
            self.builder = LogrsBuilder::from_log(self.builder.done()).set_timestamp(timestamp);
            self.timestamp_set = true;
        }
    }

    /// Sets the pending sink, on the first call only.
    pub fn set_logging_function(&mut self, f: S)
        ensures
            final(self)@ == old(self)@.after_set_logging_function(f),
    {
        if !self.function_set {
            self.builder = LogrsBuilder::from_log(self.builder.done()).set_logging_function(f);
            self.function_set = true;
        }
    }

    /// Leaves colour codes out of the pending configuration, on the first
    /// call only.
    pub fn disable_ansi(&mut self)
        ensures
            final(self)@ == old(self)@.after_disable_ansi(),
    {
        if !self.ansi_set {
            self.builder = LogrsBuilder::from_log(self.builder.done()).disable_ansi();
            self.ansi_set = true;
        }
    }

    /// The logger in use. The first call fixes it from the pending
    /// configuration; later calls return the same logger.
    pub fn instance(&mut self) -> (r: Log<S>)
        ensures
            r@ == old(self)@.effective(),
            final(self)@ == (GlobalView { instance: Some(r@), ..old(self)@ }),
    {
        match &self.instance {
            Some(l) => l.child(None),
            None => {
                let l = self.builder.done();
                self.instance = Some(l.child(None));
                l
            },
        }
    }
}

} // verus!

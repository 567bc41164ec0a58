//! The two ordered scales: the severity of an event and the filter it is held against.
//!
//! Both scales share one space of ordinals. A level takes the ordinals 1 to 5; a
//! filter takes the same five and, below them, 0 for `Off`.

use vstd::prelude::*;

verus! {

/// The severity of a single log event, from the gravest to the most verbose.
#[derive(Clone, Copy, Debug, Eq, Ord)]
pub enum LogLevel {
    /// Very serious errors.
    Error,
    /// Hazardous situations.
    Warn,
    /// Useful information.
    Info,
    /// Lower priority information.
    Debug,
    /// Very low priority, often extremely verbose, information.
    Trace,
}

/// A ceiling against which levels are compared. It has one value more than
/// [`LogLevel`]: `Off`, which lies below every level.
#[derive(Clone, Copy, Debug, Eq, Ord)]
pub enum LogLevelFilter {
    /// Below all levels: nothing passes.
    Off,
    /// Lets `Error` pass.
    Error,
    /// Lets `Warn` and graver pass.
    Warn,
    /// Lets `Info` and graver pass.
    Info,
    /// Lets `Debug` and graver pass.
    Debug,
    /// Lets everything pass.
    Trace,
}

impl LogLevel {
    /// The place of the level on the shared scale: 1 for `Error` up to 5 for `Trace`.
    pub open spec fn ordinal(self) -> nat {
        match self {
            LogLevel::Error => 1,
            LogLevel::Warn => 2,
            LogLevel::Info => 3,
            LogLevel::Debug => 4,
            LogLevel::Trace => 5,
        }
    }

    /// The filter that shares the ordinal, and the name, of the level.
    pub open spec fn filter(self) -> LogLevelFilter {
        match self {
            LogLevel::Error => LogLevelFilter::Error,
            LogLevel::Warn => LogLevelFilter::Warn,
            LogLevel::Info => LogLevelFilter::Info,
            LogLevel::Debug => LogLevelFilter::Debug,
            LogLevel::Trace => LogLevelFilter::Trace,
        }
    }

    /// The upper-case name the level is written with.
    pub open spec fn name(self) -> Seq<char> {
        match self {
            LogLevel::Error => "ERROR"@,
            LogLevel::Warn => "WARN"@,
            LogLevel::Info => "INFO"@,
            LogLevel::Debug => "DEBUG"@,
            LogLevel::Trace => "TRACE"@,
        }
    }

    /// The ordinal as a machine integer.
    pub fn to_usize(&self) -> (u: usize)
        ensures
            u == self.ordinal(),
    {
        match self {
            LogLevel::Error => 1,
            LogLevel::Warn => 2,
            LogLevel::Info => 3,
            LogLevel::Debug => 4,
            LogLevel::Trace => 5,
        }
    }

    /// The level with ordinal `u`, if there is one.
    pub fn from_usize(u: usize) -> (r: Option<LogLevel>)
        ensures
            r is Some <==> 1 <= u <= 5,
            r matches Some(level) ==> level.ordinal() == u,
    {
        match u {
            1 => Some(LogLevel::Error),
            2 => Some(LogLevel::Warn),
            3 => Some(LogLevel::Info),
            4 => Some(LogLevel::Debug),
            5 => Some(LogLevel::Trace),
            _ => None,
        }
    }

    /// The most verbose level.
    pub fn max() -> (r: LogLevel)
        ensures
            r == LogLevel::Trace,
            forall|level: LogLevel| level.ordinal() <= r.ordinal(),
    {
        LogLevel::Trace
    }

    /// The filter with the same ordinal.
    pub fn to_log_level_filter(&self) -> (r: LogLevelFilter)
        ensures
            r == self.filter(),
            r.ordinal() == self.ordinal(),
            r.level() == Some(*self),
    {
        match self {
            LogLevel::Error => LogLevelFilter::Error,
            LogLevel::Warn => LogLevelFilter::Warn,
            LogLevel::Info => LogLevelFilter::Info,
            LogLevel::Debug => LogLevelFilter::Debug,
            LogLevel::Trace => LogLevelFilter::Trace,
        }
    }

    /// The name of the level, in upper case.
    pub fn as_str(&self) -> (r: &'static str)
        ensures
            r@ == self.name(),
    {
        match self {
            LogLevel::Error => "ERROR",
            LogLevel::Warn => "WARN",
            LogLevel::Info => "INFO",
            LogLevel::Debug => "DEBUG",
            LogLevel::Trace => "TRACE",
        }
    }

    /// The name of the level as an owned string.
    pub fn to_string(&self) -> (r: String)
        ensures
            r@ == self.name(),
    {
        self.as_str().to_owned()
    }
}

impl LogLevelFilter {
    /// The place of the filter on the shared scale: 0 for `Off`, then 1 for `Error`
    /// up to 5 for `Trace`.
    pub open spec fn ordinal(self) -> nat {
        match self {
            LogLevelFilter::Off => 0,
            LogLevelFilter::Error => 1,
            LogLevelFilter::Warn => 2,
            LogLevelFilter::Info => 3,
            LogLevelFilter::Debug => 4,
            LogLevelFilter::Trace => 5,
        }
    }

    /// The level that the filter shares its ordinal with; `Off` shares it with none.
    pub open spec fn level(self) -> Option<LogLevel> {
        match self {
            LogLevelFilter::Off => None,
            LogLevelFilter::Error => Some(LogLevel::Error),
            LogLevelFilter::Warn => Some(LogLevel::Warn),
            LogLevelFilter::Info => Some(LogLevel::Info),
            LogLevelFilter::Debug => Some(LogLevel::Debug),
            LogLevelFilter::Trace => Some(LogLevel::Trace),
        }
    }

    /// The upper-case name the filter is written with.
    pub open spec fn name(self) -> Seq<char> {
        match self {
            LogLevelFilter::Off => "OFF"@,
            LogLevelFilter::Error => "ERROR"@,
            LogLevelFilter::Warn => "WARN"@,
            LogLevelFilter::Info => "INFO"@,
            LogLevelFilter::Debug => "DEBUG"@,
            LogLevelFilter::Trace => "TRACE"@,
        }
    }

    /// The ordinal as a machine integer.
    pub fn to_usize(&self) -> (u: usize)
        ensures
            u == self.ordinal(),
    {
        match self {
            LogLevelFilter::Off => 0,
            LogLevelFilter::Error => 1,
            LogLevelFilter::Warn => 2,
            LogLevelFilter::Info => 3,
            LogLevelFilter::Debug => 4,
            LogLevelFilter::Trace => 5,
        }
    }

    /// The filter with ordinal `u`, if there is one.
    pub fn from_usize(u: usize) -> (r: Option<LogLevelFilter>)
        ensures
            r is Some <==> u <= 5,
            r matches Some(filter) ==> filter.ordinal() == u,
    {
        match u {
            0 => Some(LogLevelFilter::Off),
            1 => Some(LogLevelFilter::Error),
            2 => Some(LogLevelFilter::Warn),
            3 => Some(LogLevelFilter::Info),
            4 => Some(LogLevelFilter::Debug),
            5 => Some(LogLevelFilter::Trace),
            _ => None,
        }
    }

    /// The most verbose filter.
    pub fn max() -> (r: LogLevelFilter)
        ensures
            r == LogLevelFilter::Trace,
            forall|filter: LogLevelFilter| filter.ordinal() <= r.ordinal(),
    {
        LogLevelFilter::Trace
    }

    /// The level with the same ordinal; `Off` has none.
    pub fn to_log_level(&self) -> (r: Option<LogLevel>)
        ensures
            r == self.level(),
            r is None <==> *self == LogLevelFilter::Off,
            r matches Some(level) ==> level.ordinal() == self.ordinal(),
    {
        match self {
            LogLevelFilter::Off => None,
            LogLevelFilter::Error => Some(LogLevel::Error),
            LogLevelFilter::Warn => Some(LogLevel::Warn),
            LogLevelFilter::Info => Some(LogLevel::Info),
            LogLevelFilter::Debug => Some(LogLevel::Debug),
            LogLevelFilter::Trace => Some(LogLevel::Trace),
        }
    }

    /// The name of the filter, in upper case.
    pub fn as_str(&self) -> (r: &'static str)
        ensures
            r@ == self.name(),
    {
        match self {
            LogLevelFilter::Off => "OFF",
            LogLevelFilter::Error => "ERROR",
            LogLevelFilter::Warn => "WARN",
            LogLevelFilter::Info => "INFO",
            LogLevelFilter::Debug => "DEBUG",
            LogLevelFilter::Trace => "TRACE",
        }
    }

    /// The name of the filter as an owned string.
    pub fn to_string(&self) -> (r: String)
        ensures
            r@ == self.name(),
    {
        self.as_str().to_owned()
    }
}

} // verus!

//! What a log event carries, and the interface of the recorder it is delivered to.

use crate::level::LogLevel;
use vstd::prelude::*;

verus! {

/// Where in the source a log event was raised. The fields are public so that
/// the call site can fill them in; they are passed through unchanged.
#[derive(Clone, Copy, Debug)]
pub struct LogLocation {
    pub __module_path: &'static str,
    pub __file: &'static str,
    pub __line: u32,
}

/// What a [`LogLocation`] holds, as plain values.
pub struct LogLocationView {
    pub module: Seq<char>,
    pub file: Seq<char>,
    pub line: u32,
}

impl View for LogLocation {
    type V = LogLocationView;

    open spec fn view(&self) -> LogLocationView {
        LogLocationView {
            module: self.__module_path@,
            file: self.__file@,
            line: self.__line,
        }
    }
}

impl LogLocation {
    /// The module path of the event.
    pub fn module(&self) -> (r: &str)
        ensures
            r@ == self@.module,
    {
        self.__module_path
    }

    /// The source file that holds the event.
    pub fn file(&self) -> (r: &str)
        ensures
            r@ == self@.file,
    {
        self.__file
    }

    /// The line of the event.
    pub fn line(&self) -> (r: u32)
        ensures
            r == self@.line,
    {
        self.__line
    }
}

/// The level and the target of a log event.
pub struct LogMetadata<'a> {
    level: LogLevel,
    target: &'a str,
}

/// What a [`LogMetadata`] holds, as plain values.
pub struct LogMetadataView {
    pub level: LogLevel,
    pub target: Seq<char>,
}

impl<'a> View for LogMetadata<'a> {
    type V = LogMetadataView;

    closed spec fn view(&self) -> LogMetadataView {
        LogMetadataView { level: self.level, target: self.target@ }
    }
}

impl<'a> LogMetadata<'a> {
    /// The metadata of an event of the given level and target.
    pub fn new(level: LogLevel, target: &'a str) -> (r: LogMetadata<'a>)
        ensures
            r@ == (LogMetadataView { level, target: target@ }),
    {
        LogMetadata { level, target }
    }

    /// The verbosity level of the event.
    pub fn level(&self) -> (r: LogLevel)
        ensures
            r == self@.level,
    {
        self.level
    }

    /// The name of the target of the event.
    pub fn target(&self) -> (r: &str)
        ensures
            r@ == self@.target,
    {
        self.target
    }
}

/// A log event as the recorder receives it.
pub struct LogRecord<'a> {
    metadata: LogMetadata<'a>,
    location: &'a LogLocation,
    args: &'a str,
}

/// What a [`LogRecord`] holds, as plain values.
pub struct LogRecordView {
    pub metadata: LogMetadataView,
    pub location: LogLocationView,
    pub message: Seq<char>,
}

impl<'a> View for LogRecord<'a> {
    type V = LogRecordView;

    closed spec fn view(&self) -> LogRecordView {
        LogRecordView {
            metadata: self.metadata@,
            location: self.location@,
            message: self.args@,
        }
    }
}

impl<'a> LogRecord<'a> {
    /// The record of an event: its level and target, where it was raised, and
    /// its message, each as it was given.
    pub fn new(level: LogLevel, target: &'a str, location: &'a LogLocation, args: &'a str) -> (r:
        LogRecord<'a>)
        ensures
            r@ == (LogRecordView {
                metadata: LogMetadataView { level, target: target@ },
                location: location@,
                message: args@,
            }),
    {
        LogRecord { metadata: LogMetadata::new(level, target), location, args }
    }

    /// The message body.
    pub fn args(&self) -> (r: &str)
        ensures
            r@ == self@.message,
    {
        self.args
    }

    /// The level and the target of the event.
    pub fn metadata(&self) -> (r: &LogMetadata<'a>)
        ensures
            r@ == self@.metadata,
    {
        &self.metadata
    }

    /// Where the event was raised.
    pub fn location(&self) -> (r: &LogLocation)
        ensures
            r@ == self@.location,
    {
        self.location
    }

    /// The verbosity level of the event.
    pub fn level(&self) -> (r: LogLevel)
        ensures
            r == self@.metadata.level,
    {
        self.metadata.level()
    }

    /// The name of the target of the event.
    pub fn target(&self) -> (r: &str)
        ensures
            r@ == self@.metadata.target,
    {
        self.metadata.target()
    }
}

/// What a recorder has to offer. The facade calls both methods from any thread,
/// and does not call `enabled` before `log`: a recorder that filters does so in
/// `log` itself.
pub trait Log: Sync + Send {
    /// Whether an event with this metadata would be recorded.
    fn enabled(&self, metadata: &LogMetadata) -> bool;

    /// Records the event.
    fn log(&self, record: &LogRecord);
}

/// A boxed recorder is a recorder: it hands every call on.
impl<L: Log + ?Sized> Log for Box<L> {
    fn enabled(&self, metadata: &LogMetadata) -> (r: bool)
        ensures
            call_ensures(L::enabled, (&**self, metadata), r),
    {
        (**self).enabled(metadata)
    }

    fn log(&self, record: &LogRecord)
        ensures
            call_ensures(L::log, (&**self, record), ()),
    {
        (**self).log(record)
    }
}

/// A shared recorder is a recorder: it hands every call on.
impl<L: Log + ?Sized> Log for std::sync::Arc<L> {
    fn enabled(&self, metadata: &LogMetadata) -> (r: bool)
        ensures
            call_ensures(L::enabled, (&**self, metadata), r),
    {
        (**self).enabled(metadata)
    }

    fn log(&self, record: &LogRecord)
        ensures
            call_ensures(L::log, (&**self, record), ()),
    {
        (**self).log(record)
    }
}

} // verus!

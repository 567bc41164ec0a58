//! A lightweight logging facade.
//!
//! The facade stands between the code that raises log events and the one
//! recorder of a process that records them. It offers two things: an ordered
//! scale of levels, with a scale of filters beside it, by which an event is
//! cheaply held back; and the slot of the recorder, which is installed once,
//! borrowed under counted guards by any number of callers, and released at
//! shutdown only when every guard has come back.
//!
//! The slot is a value that the caller owns and passes to every operation.
//! Each operation is one step, or a fixed run of steps, of the slot's life;
//! `protocol` shows what holds when the steps of many threads interleave.

use vstd::prelude::*;

pub mod facade;
pub mod level;
pub mod model;
pub mod ordering;
pub mod parse;
pub mod protocol;
pub mod record;
pub mod slot;
pub mod static_max;

pub use crate::facade::{__enabled, __log, log, log_enabled, max_log_level, set_logger};
pub use crate::level::{LogLevel, LogLevelFilter};
pub use crate::model::{SlotModel, SlotState, Teardown};
pub use crate::parse::NameMatching;
pub use crate::record::{Log, LogLocation, LogMetadata, LogRecord};
pub use crate::slot::{Drain, LoggerGuard, MaxLogLevelFilter, RecorderSlot, SetLoggerError};
pub use crate::static_max::{MaxLevelFeatures, __static_max_level};

verus! {

/// Turns an optional value into a result, with `e` as the error of the empty case.
pub fn ok_or<T, E>(t: Option<T>, e: E) -> (r: Result<T, E>)
    ensures
        r == (match t {
            Some(v) => Ok::<T, E>(v),
            None => Err::<T, E>(e),
        }),
{
    match t {
        Some(t) => Ok(t),
        None => Err(e),
    }
}

} // verus!

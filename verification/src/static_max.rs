//! The ceiling that is fixed when the program is built.
//!
//! A build may name ceilings in two groups: one that holds for every build,
//! and one that holds for release builds only and there comes first. Within a
//! group the lowest ceiling that is named wins. Where none is named nothing is
//! held back.

use crate::level::LogLevelFilter;
use vstd::prelude::*;

verus! {

/// The ceilings that one group names: for each filter, whether the build
/// asked for it.
#[derive(Clone, Copy, Debug, PartialEq, Eq, Structural)]
pub struct MaxLevelFeatures {
    pub off: bool,
    pub error: bool,
    pub warn: bool,
    pub info: bool,
    pub debug: bool,
    pub trace: bool,
}

impl MaxLevelFeatures {
    /// Whether the group names `filter`.
    pub open spec fn names(self, filter: LogLevelFilter) -> bool {
        match filter {
            LogLevelFilter::Off => self.off,
            LogLevelFilter::Error => self.error,
            LogLevelFilter::Warn => self.warn,
            LogLevelFilter::Info => self.info,
            LogLevelFilter::Debug => self.debug,
            LogLevelFilter::Trace => self.trace,
        }
    }

    /// The lowest filter that the group names, if it names any.
    pub open spec fn lowest(self) -> Option<LogLevelFilter> {
        if self.off {
            Some(LogLevelFilter::Off)
        } else if self.error {
            Some(LogLevelFilter::Error)
        } else if self.warn {
            Some(LogLevelFilter::Warn)
        } else if self.info {
            Some(LogLevelFilter::Info)
        } else if self.debug {
            Some(LogLevelFilter::Debug)
        } else if self.trace {
            Some(LogLevelFilter::Trace)
        } else {
            None
        }
    }

    /// A group that names no ceiling.
    pub fn none() -> (r: MaxLevelFeatures)
        ensures
            r.lowest() is None,
            forall|filter: LogLevelFilter| !r.names(filter),
    {
        MaxLevelFeatures {
            off: false,
            error: false,
            warn: false,
            info: false,
            debug: false,
            trace: false,
        }
    }

    /// The lowest filter that the group names: it is named, and no filter below
    /// it is. `None` if and only if the group names no filter.
    pub fn lowest_named(&self) -> (r: Option<LogLevelFilter>)
        ensures
            r == self.lowest(),
            r matches Some(found) ==> self.names(found) && forall|filter: LogLevelFilter|
                self.names(filter) ==> found.ordinal() <= filter.ordinal(),
            r is None <==> forall|filter: LogLevelFilter| !self.names(filter),
    {
        proof {
            if self.lowest() is None {
                assert forall|filter: LogLevelFilter| !self.names(filter) by {}
            } else {
                assert(self.names(self.lowest()->0));
            }
        }
        if self.off {
            Some(LogLevelFilter::Off)
        } else if self.error {
            Some(LogLevelFilter::Error)
        } else if self.warn {
            Some(LogLevelFilter::Warn)
        } else if self.info {
            Some(LogLevelFilter::Info)
        } else if self.debug {
            Some(LogLevelFilter::Debug)
        } else if self.trace {
            Some(LogLevelFilter::Trace)
        } else {
            None
        }
    }
}

/// The ceiling of a build, as a function of what the build names.
pub open spec fn static_max_level(
    debug_assertions: bool,
    release: MaxLevelFeatures,
    general: MaxLevelFeatures,
) -> LogLevelFilter {
    if !debug_assertions && release.lowest() is Some {
        release.lowest()->0
    } else if general.lowest() is Some {
        general.lowest()->0
    } else {
        LogLevelFilter::Trace
    }
}

/// The ceiling that the build fixes. In a release build, one without debug
/// assertions, the lowest ceiling of the `release` group holds if that group
/// names any. Otherwise the lowest ceiling of the `general` group holds, and
/// `Trace` if that group names none.
pub fn __static_max_level(
    debug_assertions: bool,
    release: &MaxLevelFeatures,
    general: &MaxLevelFeatures,
) -> (r: LogLevelFilter)
    ensures
        r == static_max_level(debug_assertions, *release, *general),
{
    if !debug_assertions {
        match release.lowest_named() {
            Some(filter) => {
                return filter;
            },
            None => {},
        }
    }
    match general.lowest_named() {
        Some(filter) => filter,
        None => LogLevelFilter::Trace,
    }
}

} // verus!

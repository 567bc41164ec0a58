//! Equality and order on the two scales, within each and across them.
//!
//! Every comparison goes by the shared ordinals, so a level and a filter can
//! be held against each other directly.

use crate::level::{LogLevel, LogLevelFilter};
use core::cmp::Ordering;
use vstd::prelude::*;
use vstd::std_specs::cmp::{PartialEqSpec, PartialOrdSpec};

verus! {

/// How the ordinal `a` stands to the ordinal `b`.
pub open spec fn ordinal_order(a: nat, b: nat) -> Ordering {
    if a < b {
        Ordering::Less
    } else if a == b {
        Ordering::Equal
    } else {
        Ordering::Greater
    }
}

/// Compares two ordinals.
pub fn compare_ordinals(a: usize, b: usize) -> (r: Ordering)
    ensures
        a < b ==> r == Ordering::Less,
        a == b ==> r == Ordering::Equal,
        a > b ==> r == Ordering::Greater,
{
    if a < b {
        Ordering::Less
    } else if a == b {
        Ordering::Equal
    } else {
        Ordering::Greater
    }
}

impl PartialEq for LogLevel {
    fn eq(&self, other: &LogLevel) -> (r: bool) {
        self.to_usize() == other.to_usize()
    }
}

impl vstd::std_specs::cmp::PartialEqSpecImpl for LogLevel {
    open spec fn obeys_eq_spec() -> bool {
        true
    }

    open spec fn eq_spec(&self, other: &LogLevel) -> bool {
        self.ordinal() == other.ordinal()
    }
}

impl PartialEq<LogLevelFilter> for LogLevel {
    fn eq(&self, other: &LogLevelFilter) -> (r: bool) {
        self.to_usize() == other.to_usize()
    }
}

impl vstd::std_specs::cmp::PartialEqSpecImpl<LogLevelFilter> for LogLevel {
    open spec fn obeys_eq_spec() -> bool {
        true
    }

    open spec fn eq_spec(&self, other: &LogLevelFilter) -> bool {
        self.ordinal() == other.ordinal()
    }
}

impl PartialOrd for LogLevel {
    fn partial_cmp(&self, other: &LogLevel) -> (r: Option<Ordering>) {
        Some(compare_ordinals(self.to_usize(), other.to_usize()))
    }
}

impl vstd::std_specs::cmp::PartialOrdSpecImpl for LogLevel {
    open spec fn obeys_partial_cmp_spec() -> bool {
        true
    }

    open spec fn partial_cmp_spec(&self, other: &LogLevel) -> Option<Ordering> {
        Some(ordinal_order(self.ordinal(), other.ordinal()))
    }
}

impl PartialOrd<LogLevelFilter> for LogLevel {
    fn partial_cmp(&self, other: &LogLevelFilter) -> (r: Option<Ordering>) {
        Some(compare_ordinals(self.to_usize(), other.to_usize()))
    }
}

impl vstd::std_specs::cmp::PartialOrdSpecImpl<LogLevelFilter> for LogLevel {
    open spec fn obeys_partial_cmp_spec() -> bool {
        true
    }

    open spec fn partial_cmp_spec(&self, other: &LogLevelFilter) -> Option<Ordering> {
        Some(ordinal_order(self.ordinal(), other.ordinal()))
    }
}

impl PartialEq for LogLevelFilter {
    fn eq(&self, other: &LogLevelFilter) -> (r: bool) {
        self.to_usize() == other.to_usize()
    }
}

impl vstd::std_specs::cmp::PartialEqSpecImpl for LogLevelFilter {
    open spec fn obeys_eq_spec() -> bool {
        true
    }

    open spec fn eq_spec(&self, other: &LogLevelFilter) -> bool {
        self.ordinal() == other.ordinal()
    }
}

impl PartialEq<LogLevel> for LogLevelFilter {
    fn eq(&self, other: &LogLevel) -> (r: bool) {
        self.to_usize() == other.to_usize()
    }
}

impl vstd::std_specs::cmp::PartialEqSpecImpl<LogLevel> for LogLevelFilter {
    open spec fn obeys_eq_spec() -> bool {
        true
    }

    open spec fn eq_spec(&self, other: &LogLevel) -> bool {
        self.ordinal() == other.ordinal()
    }
}

impl PartialOrd for LogLevelFilter {
    fn partial_cmp(&self, other: &LogLevelFilter) -> (r: Option<Ordering>) {
        Some(compare_ordinals(self.to_usize(), other.to_usize()))
    }
}

impl vstd::std_specs::cmp::PartialOrdSpecImpl for LogLevelFilter {
    open spec fn obeys_partial_cmp_spec() -> bool {
        true
    }

    open spec fn partial_cmp_spec(&self, other: &LogLevelFilter) -> Option<Ordering> {
        Some(ordinal_order(self.ordinal(), other.ordinal()))
    }
}

impl PartialOrd<LogLevel> for LogLevelFilter {
    fn partial_cmp(&self, other: &LogLevel) -> (r: Option<Ordering>) {
        Some(compare_ordinals(self.to_usize(), other.to_usize()))
    }
}

impl vstd::std_specs::cmp::PartialOrdSpecImpl<LogLevel> for LogLevelFilter {
    open spec fn obeys_partial_cmp_spec() -> bool {
        true
    }

    open spec fn partial_cmp_spec(&self, other: &LogLevel) -> Option<Ordering> {
        Some(ordinal_order(self.ordinal(), other.ordinal()))
    }
}

/// Within the levels, `<` and `==` go by the ordinals, and two levels with the
/// same ordinal are the same level.
pub proof fn law_level_order(a: LogLevel, b: LogLevel)
    ensures
        a.partial_cmp_spec(&b) == Some(Ordering::Less) <==> a.ordinal() < b.ordinal(),
        a.partial_cmp_spec(&b) == Some(Ordering::Greater) <==> a.ordinal() > b.ordinal(),
        a.partial_cmp_spec(&b) == Some(Ordering::Equal) <==> a == b,
        a.eq_spec(&b) <==> a == b,
{
}

/// Within the filters, `<` and `==` go by the ordinals, and two filters with the
/// same ordinal are the same filter.
pub proof fn law_filter_order(a: LogLevelFilter, b: LogLevelFilter)
    ensures
        a.partial_cmp_spec(&b) == Some(Ordering::Less) <==> a.ordinal() < b.ordinal(),
        a.partial_cmp_spec(&b) == Some(Ordering::Greater) <==> a.ordinal() > b.ordinal(),
        a.partial_cmp_spec(&b) == Some(Ordering::Equal) <==> a == b,
        a.eq_spec(&b) <==> a == b,
{
}

/// A level and a filter compare by their ordinals, whichever stands on the left,
/// and the two directions agree.
pub proof fn law_cross_order(level: LogLevel, filter: LogLevelFilter)
    ensures
        level.partial_cmp_spec(&filter) == Some(Ordering::Less) <==> level.ordinal()
            < filter.ordinal(),
        level.partial_cmp_spec(&filter) == Some(Ordering::Greater) <==> level.ordinal()
            > filter.ordinal(),
        level.eq_spec(&filter) <==> level.ordinal() == filter.ordinal(),
        filter.eq_spec(&level) <==> level.eq_spec(&filter),
        filter.partial_cmp_spec(&level) == Some(Ordering::Less) <==> level.partial_cmp_spec(&filter)
            == Some(Ordering::Greater),
        filter.partial_cmp_spec(&level) == Some(Ordering::Greater) <==> level.partial_cmp_spec(
            &filter,
        ) == Some(Ordering::Less),
{
}

/// `Off` lies strictly below every level, and no level equals it.
pub proof fn law_off_below_every_level(level: LogLevel)
    ensures
        LogLevelFilter::Off.partial_cmp_spec(&level) == Some(Ordering::Less),
        level.partial_cmp_spec(&LogLevelFilter::Off) == Some(Ordering::Greater),
        !level.eq_spec(&LogLevelFilter::Off),
{
}

/// The order on each scale is total and transitive.
pub proof fn law_order_is_total(a: LogLevelFilter, b: LogLevelFilter, c: LogLevelFilter)
    ensures
        a.partial_cmp_spec(&b) is Some,
        a.ordinal() <= b.ordinal() || b.ordinal() <= a.ordinal(),
        a.ordinal() <= b.ordinal() && b.ordinal() <= a.ordinal() ==> a == b,
        a.ordinal() <= b.ordinal() && b.ordinal() <= c.ordinal() ==> a.ordinal() <= c.ordinal(),
{
}

/// A level and its filter are each other's counterpart: they share ordinal and
/// name, and converting there and back gives the value one began with. `Off` is
/// the one filter without a level.
pub proof fn law_conversions_round_trip(level: LogLevel, filter: LogLevelFilter)
    ensures
        level.filter().level() == Some(level),
        level.filter().ordinal() == level.ordinal(),
        level.filter().name() == level.name(),
        level.eq_spec(&level.filter()),
        filter.level() is None <==> filter == LogLevelFilter::Off,
        filter.level() matches Some(found) ==> found.filter() == filter,
{
}

} // verus!

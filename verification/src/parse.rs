//! Reading a level or a filter from its name.
//!
//! A name is matched either without regard to the case of ASCII letters, which is
//! the usual way, or letter for letter against the upper-case spelling.

use crate::level::{LogLevel, LogLevelFilter};
use vstd::prelude::*;
use vstd::string::StrSliceExecFns;

verus! {

/// How a text is held against a name.
#[derive(Clone, Copy, Debug, PartialEq, Eq, Structural)]
pub enum NameMatching {
    /// ASCII letters match in either case; every other character must be the same.
    IgnoreAsciiCase,
    /// Every character must be the same.
    Exact,
}

/// The code of `c` with the ASCII capitals `A` to `Z` taken to their small letters.
pub open spec fn ascii_lower_code(c: char) -> u32 {
    let code = c as u32;
    if 65 <= code <= 90 {
        (code + 32) as u32
    } else {
        code
    }
}

/// Whether `text` spells `name` under the given way of matching.
pub open spec fn names_match(text: Seq<char>, name: Seq<char>, matching: NameMatching) -> bool {
    match matching {
        NameMatching::Exact => text =~= name,
        NameMatching::IgnoreAsciiCase => {
            &&& text.len() == name.len()
            &&& forall|i: int|
                0 <= i < text.len() ==> ascii_lower_code(#[trigger] text[i]) == ascii_lower_code(
                    name[i],
                )
        },
    }
}

/// The filter that `text` names, if it names one.
pub open spec fn filter_named(text: Seq<char>, matching: NameMatching) -> Option<LogLevelFilter> {
    if names_match(text, LogLevelFilter::Off.name(), matching) {
        Some(LogLevelFilter::Off)
    } else if names_match(text, LogLevelFilter::Error.name(), matching) {
        Some(LogLevelFilter::Error)
    } else if names_match(text, LogLevelFilter::Warn.name(), matching) {
        Some(LogLevelFilter::Warn)
    } else if names_match(text, LogLevelFilter::Info.name(), matching) {
        Some(LogLevelFilter::Info)
    } else if names_match(text, LogLevelFilter::Debug.name(), matching) {
        Some(LogLevelFilter::Debug)
    } else if names_match(text, LogLevelFilter::Trace.name(), matching) {
        Some(LogLevelFilter::Trace)
    } else {
        None
    }
}

/// The code of `c` with the ASCII capitals taken to their small letters.
fn lower_code(c: char) -> (code: u32)
    ensures
        code == ascii_lower_code(c),
{
    let code: u32 = c as u32;
    if 65 <= code && code <= 90 {
        code + 32
    } else {
        code
    }
}

/// Holds `text` against `name`.
pub fn name_matches(text: &str, name: &str, matching: NameMatching) -> (r: bool)
    ensures
        r == names_match(text@, name@, matching),
{
    let n: usize = name.unicode_len();
    if text.unicode_len() != n {
        return false;
    }
    let mut i: usize = 0;
    while i < n
        invariant
            n == name@.len(),
            n == text@.len(),
            0 <= i <= n,
            forall|j: int| 0 <= j < i ==> text@[j] == name@[j] || (matching
                == NameMatching::IgnoreAsciiCase && ascii_lower_code(#[trigger] text@[j])
                == ascii_lower_code(name@[j])),
        decreases n - i,
    {
        let a = text.get_char(i);
        let b = name.get_char(i);
        let same = match matching {
            NameMatching::Exact => a == b,
            NameMatching::IgnoreAsciiCase => lower_code(a) == lower_code(b),
        };
        if !same {
            return false;
        }
        i += 1;
    }
    true
}

/// No text spells two filters at once, so a text names a filter exactly when
/// it spells the name of that filter.
pub proof fn lemma_names_are_distinct(text: Seq<char>, matching: NameMatching)
    ensures
        forall|a: LogLevelFilter, b: LogLevelFilter|
            names_match(text, a.name(), matching) && names_match(text, b.name(), matching) ==> a
                == b,
        forall|filter: LogLevelFilter|
            filter_named(text, matching) == Some(filter) <==> names_match(
                text,
                filter.name(),
                matching,
            ),
{
    reveal_strlit("OFF");
    reveal_strlit("ERROR");
    reveal_strlit("WARN");
    reveal_strlit("INFO");
    reveal_strlit("DEBUG");
    reveal_strlit("TRACE");
    assert forall|a: LogLevelFilter, b: LogLevelFilter|
        names_match(text, a.name(), matching) && names_match(text, b.name(), matching) implies a
        == b by {
        if a != b {
            assert(a.name().len() == text.len());
            assert(b.name().len() == text.len());
            assert(ascii_lower_code(text[0]) == ascii_lower_code(a.name()[0]) || text[0]
                == a.name()[0]);
            assert(ascii_lower_code(text[0]) == ascii_lower_code(b.name()[0]) || text[0]
                == b.name()[0]);
        }
    }
}

impl LogLevelFilter {
    /// Reads a filter from its name: `Ok` with the filter that `level` spells under
    /// `matching`, `Err` when it spells none.
    pub fn from_str_with(level: &str, matching: NameMatching) -> (r: Result<LogLevelFilter, ()>)
        ensures
            r == (match filter_named(level@, matching) {
                Some(filter) => Ok::<LogLevelFilter, ()>(filter),
                None => Err::<LogLevelFilter, ()>(()),
            }),
            forall|filter: LogLevelFilter|
                r == Ok::<LogLevelFilter, ()>(filter) <==> names_match(
                    level@,
                    filter.name(),
                    matching,
                ),
    {
        proof {
            lemma_names_are_distinct(level@, matching);
        }
        if name_matches(level, LogLevelFilter::Off.as_str(), matching) {
            Ok(LogLevelFilter::Off)
        } else if name_matches(level, LogLevelFilter::Error.as_str(), matching) {
            Ok(LogLevelFilter::Error)
        } else if name_matches(level, LogLevelFilter::Warn.as_str(), matching) {
            Ok(LogLevelFilter::Warn)
        } else if name_matches(level, LogLevelFilter::Info.as_str(), matching) {
            Ok(LogLevelFilter::Info)
        } else if name_matches(level, LogLevelFilter::Debug.as_str(), matching) {
            Ok(LogLevelFilter::Debug)
        } else if name_matches(level, LogLevelFilter::Trace.as_str(), matching) {
            Ok(LogLevelFilter::Trace)
        } else {
            Err(())
        }
    }
}

impl LogLevel {
    /// Reads a level from its name: `Ok` with the level that `level` spells under
    /// `matching`, `Err` when it spells none. `OFF` names a filter and no level.
    pub fn from_str_with(level: &str, matching: NameMatching) -> (r: Result<LogLevel, ()>)
        ensures
            r == (match level_named(level@, matching) {
                Some(found) => Ok::<LogLevel, ()>(found),
                None => Err::<LogLevel, ()>(()),
            }),
            forall|named: LogLevel|
                r == Ok::<LogLevel, ()>(named) <==> names_match(level@, named.name(), matching),
            names_match(level@, LogLevelFilter::Off.name(), matching) ==> r is Err,
    {
        proof {
            lemma_names_are_distinct(level@, matching);
            assert forall|named: LogLevel|
                names_match(level@, named.name(), matching) implies filter_named(level@, matching)
                == Some(named.filter()) by {
                assert(named.filter().name() == named.name());
            }
        }
        match LogLevelFilter::from_str_with(level, matching) {
            Ok(filter) => crate::ok_or(filter.to_log_level(), ()),
            Err(e) => Err(e),
        }
    }
}

/// The level that `text` names, if it names one.
pub open spec fn level_named(text: Seq<char>, matching: NameMatching) -> Option<LogLevel> {
    match filter_named(text, matching) {
        Some(filter) => filter.level(),
        None => None,
    }
}

impl core::str::FromStr for LogLevelFilter {
    type Err = ();

    /// Reads a filter from its name, in either case.
    fn from_str(level: &str) -> (r: Result<LogLevelFilter, ()>)
        ensures
            r == (match filter_named(level@, NameMatching::IgnoreAsciiCase) {
                Some(filter) => Ok::<LogLevelFilter, ()>(filter),
                None => Err::<LogLevelFilter, ()>(()),
            }),
    {
        LogLevelFilter::from_str_with(level, NameMatching::IgnoreAsciiCase)
    }
}

impl core::str::FromStr for LogLevel {
    type Err = ();

    /// Reads a level from its name, in either case.
    fn from_str(level: &str) -> (r: Result<LogLevel, ()>)
        ensures
            r == (match level_named(level@, NameMatching::IgnoreAsciiCase) {
                Some(found) => Ok::<LogLevel, ()>(found),
                None => Err::<LogLevel, ()>(()),
            }),
    {
        LogLevel::from_str_with(level, NameMatching::IgnoreAsciiCase)
    }
}

/// The name of a filter in small letters.
pub open spec fn lower_name(filter: LogLevelFilter) -> Seq<char> {
    match filter {
        LogLevelFilter::Off => "off"@,
        LogLevelFilter::Error => "error"@,
        LogLevelFilter::Warn => "warn"@,
        LogLevelFilter::Info => "info"@,
        LogLevelFilter::Debug => "debug"@,
        LogLevelFilter::Trace => "trace"@,
    }
}

/// Names read back. The upper-case name of a filter names that filter under
/// either way of matching, and its lower-case spelling names it when case is
/// ignored and names nothing when it is not. The same names name the level of
/// the filter, so `OFF` and `off` name no level.
pub proof fn law_names_round_trip(filter: LogLevelFilter, matching: NameMatching)
    ensures
        filter_named(filter.name(), matching) == Some(filter),
        filter_named(lower_name(filter), NameMatching::IgnoreAsciiCase) == Some(filter),
        filter_named(lower_name(filter), NameMatching::Exact) is None,
        level_named(filter.name(), matching) == filter.level(),
        level_named(lower_name(filter), NameMatching::IgnoreAsciiCase) == filter.level(),
        level_named(lower_name(filter), NameMatching::Exact) is None,
{
    reveal_strlit("OFF");
    reveal_strlit("ERROR");
    reveal_strlit("WARN");
    reveal_strlit("INFO");
    reveal_strlit("DEBUG");
    reveal_strlit("TRACE");
    reveal_strlit("off");
    reveal_strlit("error");
    reveal_strlit("warn");
    reveal_strlit("info");
    reveal_strlit("debug");
    reveal_strlit("trace");
    lemma_names_are_distinct(filter.name(), matching);
    lemma_names_are_distinct(lower_name(filter), NameMatching::IgnoreAsciiCase);
    lemma_names_are_distinct(lower_name(filter), NameMatching::Exact);
    assert(names_match(filter.name(), filter.name(), matching));
    assert(names_match(lower_name(filter), filter.name(), NameMatching::IgnoreAsciiCase));
    assert forall|other: LogLevelFilter|
        !names_match(lower_name(filter), other.name(), NameMatching::Exact) by {
        if lower_name(filter).len() == other.name().len() {
            assert(lower_name(filter)[0] != other.name()[0]);
        }
    }
}

/// A text that spells no name is read as nothing, and only such a text is.
pub proof fn law_other_text_names_nothing(text: Seq<char>, matching: NameMatching)
    ensures
        filter_named(text, matching) is None <==> forall|filter: LogLevelFilter|
            !names_match(text, filter.name(), matching),
        level_named(text, matching) is None <==> forall|level: LogLevel|
            !names_match(text, level.name(), matching),
{
    lemma_names_are_distinct(text, matching);
    if level_named(text, matching) is None {
        assert forall|level: LogLevel| !names_match(text, level.name(), matching) by {
            assert(level.filter().name() == level.name());
            assert(level.filter().level() == Some(level));
        }
    } else {
        let filter = filter_named(text, matching)->0;
        let level = filter.level()->0;
        assert(level.name() == filter.name());
    }
}

} // verus!

use log::{LogLevel, LogLevelFilter, NameMatching};

#[test]
fn test_loglevelfilter_from_str() {
    let tests = [
        ("off", Ok(LogLevelFilter::Off)),
        ("error", Ok(LogLevelFilter::Error)),
        ("warn", Ok(LogLevelFilter::Warn)),
        ("info", Ok(LogLevelFilter::Info)),
        ("debug", Ok(LogLevelFilter::Debug)),
        ("trace", Ok(LogLevelFilter::Trace)),
        ("OFF", Ok(LogLevelFilter::Off)),
        ("ERROR", Ok(LogLevelFilter::Error)),
        ("WARN", Ok(LogLevelFilter::Warn)),
        ("INFO", Ok(LogLevelFilter::Info)),
        ("DEBUG", Ok(LogLevelFilter::Debug)),
        ("TRACE", Ok(LogLevelFilter::Trace)),
        ("asdf", Err(())),
    ];
    for &(s, ref expected) in &tests {
        assert_eq!(expected, &s.parse());
    }
}

#[test]
fn test_loglevel_from_str() {
    let tests = [
        ("OFF", Err(())),
        ("error", Ok(LogLevel::Error)),
        ("warn", Ok(LogLevel::Warn)),
        ("info", Ok(LogLevel::Info)),
        ("debug", Ok(LogLevel::Debug)),
        ("trace", Ok(LogLevel::Trace)),
        ("ERROR", Ok(LogLevel::Error)),
        ("WARN", Ok(LogLevel::Warn)),
        ("INFO", Ok(LogLevel::Info)),
        ("DEBUG", Ok(LogLevel::Debug)),
        ("TRACE", Ok(LogLevel::Trace)),
        ("asdf", Err(())),
    ];
    for &(s, ref expected) in &tests {
        assert_eq!(expected, &s.parse());
    }
}

#[test]
fn lib_test_loglevelfilter_from_str() {
    let tests = [
        ("OFF", Ok(LogLevelFilter::Off)),
        ("ERROR", Ok(LogLevelFilter::Error)),
        ("WARN", Ok(LogLevelFilter::Warn)),
        ("INFO", Ok(LogLevelFilter::Info)),
        ("DEBUG", Ok(LogLevelFilter::Debug)),
        ("TRACE", Ok(LogLevelFilter::Trace)),
        ("asdf", Err(())),
    ];
    for &(s, ref expected) in &tests {
        assert_eq!(expected, &LogLevelFilter::from_str_with(s, NameMatching::Exact));
    }
}

#[test]
fn lib_test_loglevel_from_str() {
    let tests = [
        ("OFF", Err(())),
        ("ERROR", Ok(LogLevel::Error)),
        ("WARN", Ok(LogLevel::Warn)),
        ("INFO", Ok(LogLevel::Info)),
        ("DEBUG", Ok(LogLevel::Debug)),
        ("TRACE", Ok(LogLevel::Trace)),
        ("asdf", Err(())),
    ];
    for &(s, ref expected) in &tests {
        assert_eq!(expected, &LogLevel::from_str_with(s, NameMatching::Exact));
    }
}

#[test]
fn test_loglevel_show() {
    assert_eq!("INFO", LogLevel::Info.to_string());
    assert_eq!("ERROR", LogLevel::Error.to_string());
}

#[test]
fn test_loglevelfilter_show() {
    assert_eq!("OFF", LogLevelFilter::Off.to_string());
    assert_eq!("ERROR", LogLevelFilter::Error.to_string());
}

#[test]
fn test_cross_cmp() {
    assert!(LogLevel::Debug > LogLevelFilter::Error);
    assert!(LogLevelFilter::Warn < LogLevel::Trace);
    assert!(LogLevelFilter::Off < LogLevel::Error);
}

#[test]
fn test_cross_eq() {
    assert!(LogLevel::Error == LogLevelFilter::Error);
    assert!(LogLevelFilter::Off != LogLevel::Error);
    assert!(LogLevel::Trace == LogLevelFilter::Trace);
}

#[test]
fn test_to_log_level() {
    assert_eq!(Some(LogLevel::Error), LogLevelFilter::Error.to_log_level());
    assert_eq!(None, LogLevelFilter::Off.to_log_level());
    assert_eq!(Some(LogLevel::Debug), LogLevelFilter::Debug.to_log_level());
}

#[test]
fn test_to_log_level_filter() {
    assert_eq!(LogLevelFilter::Error, LogLevel::Error.to_log_level_filter());
    assert_eq!(LogLevelFilter::Trace, LogLevel::Trace.to_log_level_filter());
}

const LEVELS: [LogLevel; 5] =
    [LogLevel::Error, LogLevel::Warn, LogLevel::Info, LogLevel::Debug, LogLevel::Trace];

const FILTERS: [LogLevelFilter; 6] = [
    LogLevelFilter::Off,
    LogLevelFilter::Error,
    LogLevelFilter::Warn,
    LogLevelFilter::Info,
    LogLevelFilter::Debug,
    LogLevelFilter::Trace,
];

#[test]
fn ordinals_are_one_to_five_and_zero_to_five() {
    for (i, level) in LEVELS.iter().enumerate() {
        assert_eq!(level.to_usize(), i + 1);
        assert_eq!(LogLevel::from_usize(i + 1), Some(*level));
    }
    for (i, filter) in FILTERS.iter().enumerate() {
        assert_eq!(filter.to_usize(), i);
        assert_eq!(LogLevelFilter::from_usize(i), Some(*filter));
    }
    assert_eq!(LogLevel::from_usize(0), None);
    assert_eq!(LogLevel::from_usize(6), None);
    assert_eq!(LogLevelFilter::from_usize(6), None);
    assert_eq!(LogLevelFilter::from_usize(usize::MAX), None);
}

#[test]
fn the_order_goes_by_the_ordinals() {
    for a in LEVELS {
        for b in LEVELS {
            assert_eq!(a < b, a.to_usize() < b.to_usize());
            assert_eq!(a <= b, a.to_usize() <= b.to_usize());
            assert_eq!(a > b, a.to_usize() > b.to_usize());
            assert_eq!(a == b, a.to_usize() == b.to_usize());
            assert_eq!(a.cmp(&b), a.to_usize().cmp(&b.to_usize()));
            assert_eq!(a.partial_cmp(&b), Some(a.to_usize().cmp(&b.to_usize())));
        }
        for f in FILTERS {
            assert_eq!(a < f, a.to_usize() < f.to_usize());
            assert_eq!(a >= f, a.to_usize() >= f.to_usize());
            assert_eq!(f < a, f.to_usize() < a.to_usize());
            assert_eq!(f >= a, f.to_usize() >= a.to_usize());
            assert_eq!(a == f, a.to_usize() == f.to_usize());
            assert_eq!(f == a, a.to_usize() == f.to_usize());
            assert_eq!(f.partial_cmp(&a), Some(f.to_usize().cmp(&a.to_usize())));
        }
        assert!(LogLevelFilter::Off < a);
        assert!(a > LogLevelFilter::Off);
        assert!(a != LogLevelFilter::Off);
    }
    for a in FILTERS {
        for b in FILTERS {
            assert_eq!(a < b, a.to_usize() < b.to_usize());
            assert_eq!(a == b, a.to_usize() == b.to_usize());
            assert_eq!(a.cmp(&b), a.to_usize().cmp(&b.to_usize()));
        }
    }
}

#[test]
fn max_is_trace() {
    assert_eq!(LogLevel::max(), LogLevel::Trace);
    assert_eq!(LogLevelFilter::max(), LogLevelFilter::Trace);
    for level in LEVELS {
        assert!(level <= LogLevel::max());
    }
    for filter in FILTERS {
        assert!(filter <= LogLevelFilter::max());
    }
}

#[test]
fn levels_and_filters_convert_by_ordinal() {
    for level in LEVELS {
        let filter = level.to_log_level_filter();
        assert_eq!(filter.to_usize(), level.to_usize());
        assert_eq!(filter.to_log_level(), Some(level));
    }
    assert_eq!(LogLevelFilter::Info.to_log_level(), Some(LogLevel::Info));
    assert_eq!(LogLevel::Warn.to_log_level_filter(), LogLevelFilter::Warn);
}

#[test]
fn names_are_the_upper_case_tokens() {
    let names = ["OFF", "ERROR", "WARN", "INFO", "DEBUG", "TRACE"];
    for (i, filter) in FILTERS.iter().enumerate() {
        assert_eq!(filter.as_str(), names[i]);
        assert_eq!(filter.to_string(), names[i]);
    }
    for (i, level) in LEVELS.iter().enumerate() {
        assert_eq!(level.as_str(), names[i + 1]);
        assert_eq!(level.to_string(), names[i + 1]);
    }
}

#[test]
fn every_name_parses_back_in_both_cases() {
    for filter in FILTERS {
        let upper = filter.to_string();
        let lower = upper.to_lowercase();
        assert_eq!(upper.parse(), Ok(filter));
        assert_eq!(lower.parse(), Ok(filter));
        assert_eq!(LogLevelFilter::from_str_with(&upper, NameMatching::Exact), Ok(filter));
        assert_eq!(LogLevelFilter::from_str_with(&lower, NameMatching::Exact), Err(()));
        assert_eq!(
            LogLevelFilter::from_str_with(&lower, NameMatching::IgnoreAsciiCase),
            Ok(filter)
        );
    }
    for level in LEVELS {
        let upper = level.to_string();
        let lower = upper.to_lowercase();
        assert_eq!(upper.parse(), Ok(level));
        assert_eq!(lower.parse(), Ok(level));
        assert_eq!(LogLevel::from_str_with(&upper, NameMatching::Exact), Ok(level));
        assert_eq!(LogLevel::from_str_with(&lower, NameMatching::Exact), Err(()));
    }
}

#[test]
fn off_names_no_level() {
    assert_eq!("off".parse::<LogLevel>(), Err(()));
    assert_eq!("Off".parse::<LogLevel>(), Err(()));
    assert_eq!("OFF".parse::<LogLevel>(), Err(()));
    assert_eq!(LogLevel::from_str_with("OFF", NameMatching::Exact), Err(()));
    assert_eq!("Off".parse::<LogLevelFilter>(), Ok(LogLevelFilter::Off));
}

#[test]
fn mixed_case_is_read_only_when_case_is_ignored() {
    assert_eq!("WaRn".parse(), Ok(LogLevel::Warn));
    assert_eq!("tRACE".parse(), Ok(LogLevelFilter::Trace));
    assert_eq!(LogLevel::from_str_with("WaRn", NameMatching::Exact), Err(()));
    assert_eq!(LogLevelFilter::from_str_with("Trace", NameMatching::Exact), Err(()));
}

#[test]
fn other_text_names_nothing() {
    for text in [
        "", " ", "asdf", "warning", "war", "warn ", " warn", "inf", "infoo", "erro", "errors",
        "0", "3", "of", "offf", "debug\n", "\u{131}nfo", "\u{130}NFO", "tr\u{e4}ce", "W\u{212a}RN",
        "ＷＡＲＮ", "debug\u{0}",
    ] {
        assert_eq!(text.parse::<LogLevel>(), Err(()), "{:?}", text);
        assert_eq!(text.parse::<LogLevelFilter>(), Err(()), "{:?}", text);
        assert_eq!(LogLevel::from_str_with(text, NameMatching::Exact), Err(()));
        assert_eq!(LogLevelFilter::from_str_with(text, NameMatching::Exact), Err(()));
    }
}

#[test]
fn name_matching_follows_ascii_case_only() {
    assert!(log::parse::name_matches("info", "INFO", NameMatching::IgnoreAsciiCase));
    assert!(log::parse::name_matches("INFO", "info", NameMatching::IgnoreAsciiCase));
    assert!(!log::parse::name_matches("info", "INFO", NameMatching::Exact));
    assert!(log::parse::name_matches("", "", NameMatching::Exact));
    assert!(!log::parse::name_matches("info", "INFOS", NameMatching::IgnoreAsciiCase));
    assert!(!log::parse::name_matches("@bc", "`BC", NameMatching::IgnoreAsciiCase));
    assert!(!log::parse::name_matches("[", "{", NameMatching::IgnoreAsciiCase));
    assert!(log::parse::name_matches("\u{e9}A", "\u{e9}a", NameMatching::IgnoreAsciiCase));
    assert!(!log::parse::name_matches("\u{e9}", "\u{c9}", NameMatching::IgnoreAsciiCase));
}

#[test]
fn ok_or_keeps_the_value_or_gives_the_error() {
    assert_eq!(log::ok_or(Some(3), "none"), Ok(3));
    assert_eq!(log::ok_or(None::<u8>, "none"), Err("none"));
}

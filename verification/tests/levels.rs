use edwardium_logger::level::{Level, LevelFilter};

const LEVELS: [Level; 5] = [Level::Error, Level::Warn, Level::Info, Level::Debug, Level::Trace];

const FILTERS: [LevelFilter; 6] = [
    LevelFilter::Off,
    LevelFilter::Error,
    LevelFilter::Warn,
    LevelFilter::Info,
    LevelFilter::Debug,
    LevelFilter::Trace,
];

#[test]
fn names_are_upper_case() {
    assert_eq!(Level::Error.as_str(), "ERROR");
    assert_eq!(Level::Warn.as_str(), "WARN");
    assert_eq!(Level::Info.as_str(), "INFO");
    assert_eq!(Level::Debug.as_str(), "DEBUG");
    assert_eq!(Level::Trace.as_str(), "TRACE");
}

#[test]
fn names_agree_with_the_log_crate() {
    assert_eq!(Level::Error.as_str(), log::Level::Error.as_str());
    assert_eq!(Level::Warn.as_str(), log::Level::Warn.as_str());
    assert_eq!(Level::Info.as_str(), log::Level::Info.as_str());
    assert_eq!(Level::Debug.as_str(), log::Level::Debug.as_str());
    assert_eq!(Level::Trace.as_str(), log::Level::Trace.as_str());
}

#[test]
fn a_level_becomes_the_filter_of_its_name() {
    assert_eq!(Level::Error.to_level_filter(), LevelFilter::Error);
    assert_eq!(Level::Warn.to_level_filter(), LevelFilter::Warn);
    assert_eq!(Level::Info.to_level_filter(), LevelFilter::Info);
    assert_eq!(Level::Debug.to_level_filter(), LevelFilter::Debug);
    assert_eq!(Level::Trace.to_level_filter(), LevelFilter::Trace);
}

#[test]
fn off_admits_nothing_and_trace_everything() {
    for level in LEVELS {
        assert!(!LevelFilter::Off.allows(level));
        assert!(LevelFilter::Trace.allows(level));
    }
}

#[test]
fn info_admits_info_and_what_is_more_severe() {
    assert!(LevelFilter::Info.allows(Level::Error));
    assert!(LevelFilter::Info.allows(Level::Warn));
    assert!(LevelFilter::Info.allows(Level::Info));
    assert!(!LevelFilter::Info.allows(Level::Debug));
    assert!(!LevelFilter::Info.allows(Level::Trace));
}

#[test]
fn a_filter_admits_the_levels_up_to_its_own() {
    for (f, filter) in FILTERS.iter().enumerate() {
        for (l, level) in LEVELS.iter().enumerate() {
            assert_eq!(filter.allows(*level), l + 1 <= f);
        }
    }
}

#[test]
fn max_is_the_more_permissive_filter() {
    assert_eq!(LevelFilter::Warn.max(LevelFilter::Info), LevelFilter::Info);
    assert_eq!(LevelFilter::Info.max(LevelFilter::Warn), LevelFilter::Info);
    assert_eq!(LevelFilter::Off.max(LevelFilter::Error), LevelFilter::Error);
    assert_eq!(LevelFilter::Off.max(LevelFilter::Off), LevelFilter::Off);
    assert_eq!(LevelFilter::Trace.max(LevelFilter::Debug), LevelFilter::Trace);
    for (a, left) in FILTERS.iter().enumerate() {
        for (b, right) in FILTERS.iter().enumerate() {
            assert_eq!(left.max(*right), FILTERS[a.max(b)]);
        }
    }
}

#[test]
fn filters_order_as_those_of_the_log_crate() {
    let theirs = [
        log::LevelFilter::Off,
        log::LevelFilter::Error,
        log::LevelFilter::Warn,
        log::LevelFilter::Info,
        log::LevelFilter::Debug,
        log::LevelFilter::Trace,
    ];
    let their_levels = [
        log::Level::Error,
        log::Level::Warn,
        log::Level::Info,
        log::Level::Debug,
        log::Level::Trace,
    ];
    for (f, filter) in FILTERS.iter().enumerate() {
        for (l, level) in LEVELS.iter().enumerate() {
            assert_eq!(filter.allows(*level), theirs[f] >= their_levels[l]);
        }
    }
    for (l, level) in LEVELS.iter().enumerate() {
        let mine = FILTERS.iter().position(|f| *f == level.to_level_filter());
        let other = theirs.iter().position(|f| *f == their_levels[l].to_level_filter());
        assert_eq!(mine, other);
    }
}

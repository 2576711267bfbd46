use edwardium_logger::level::Level;
use edwardium_logger::record::LogRecord;
use edwardium_logger::targets::util::ignore_list::IgnoreList;

fn ignored(patterns: &[&str], source: &str) -> bool {
    IgnoreList::new(patterns).ignore(&LogRecord::new(Level::Info, source, "message"))
}

#[test]
fn the_empty_list_ignores_nothing() {
    assert!(!ignored(&[], "net"));
    assert!(!ignored(&[], ""));
    assert!(!IgnoreList::default().ignore(&LogRecord::new(Level::Error, "net::tcp", "x")));
}

#[test]
fn a_pattern_is_found_anywhere_in_the_tag() {
    assert!(ignored(&["net"], "net"));
    assert!(ignored(&["net"], "net::tcp"));
    assert!(ignored(&["net"], "my::net::tcp"));
    assert!(ignored(&["net"], "my::net"));
    assert!(ignored(&["::"], "my::net"));
    assert!(ignored(&["t"], "net"));
}

#[test]
fn a_pattern_that_does_not_occur_ignores_nothing() {
    assert!(!ignored(&["net"], "ne"));
    assert!(!ignored(&["net"], "n-e-t"));
    assert!(!ignored(&["net"], "ten"));
    assert!(!ignored(&["net"], "NET"));
    assert!(!ignored(&["net"], ""));
    assert!(!ignored(&["network"], "net"));
    assert!(!ignored(&["tcp::net"], "net::tcp"));
}

#[test]
fn any_pattern_of_the_list_is_enough() {
    assert!(ignored(&["hyper", "tokio", "net"], "my::net"));
    assert!(ignored(&["hyper", "tokio", "net"], "tokio::runtime"));
    assert!(ignored(&["hyper", "tokio", "net"], "hyper"));
    assert!(!ignored(&["hyper", "tokio", "net"], "app::db"));
}

#[test]
fn the_empty_pattern_ignores_everything() {
    assert!(ignored(&[""], "net"));
    assert!(ignored(&[""], ""));
    assert!(ignored(&["xyz", ""], "net"));
}

#[test]
fn only_the_source_tag_counts() {
    let list = IgnoreList::new(&["timeout"]);
    assert!(!list.ignore(&LogRecord::new(Level::Warn, "net", "timeout")));
    assert!(list.ignore(&LogRecord::new(Level::Warn, "net::timeout", "x")));
    for level in [Level::Error, Level::Warn, Level::Info, Level::Debug, Level::Trace] {
        assert!(list.ignore(&LogRecord::new(level, "timeout", "x")));
        assert!(!list.ignore(&LogRecord::new(level, "time", "timeout")));
    }
}

#[test]
fn a_repeated_start_does_not_hide_a_match() {
    assert!(ignored(&["aab"], "aaab"));
    assert!(ignored(&["abab"], "aababab"));
    assert!(!ignored(&["abc"], "ababab"));
}

#[test]
fn characters_beyond_ascii_are_matched_whole() {
    assert!(ignored(&["größe"], "app::größe::x"));
    assert!(ignored(&["☃"], "snow☃man"));
    assert!(!ignored(&["é"], "e"));
    assert!(!ignored(&["ü"], "größe::ä"));
}

#[test]
fn ignore_agrees_with_str_contains() {
    let patterns = ["", "a", "ab", "ba", "aa", "::", "net", "ö"];
    let sources = ["", "a", "b", "ab", "aab", "baa", "a::b", "net", "my::net::x", "größe", "o"];
    for pattern in patterns {
        for source in sources {
            assert_eq!(ignored(&[pattern], source), source.contains(pattern));
        }
    }
}

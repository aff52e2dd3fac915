//! Text, numbers, paths and fingerprints.
use kiro_rs::balance_cache::{still_fresh, BalanceCache, CachedBalance};
use kiro_rs::decimal::{i64_text, parse_u64, u64_text};
use kiro_rs::digest::{opt_sha256_hex, sha256_hex};
use kiro_rs::endpoints::{unknown_endpoint_message, EndpointSet};
use kiro_rs::paths::{expand_tilde, UserPath};
use kiro_rs::text::{
    after_prefix, ascii_lowercase, is_white_space, non_empty, non_empty_str, starts_with, trim,
    trim_url_punctuation,
};
use kiro_rs::words::{join_spaced, split_once_space, split_trimmed_lines, split_words};

#[test]
fn white_space_is_that_of_char() {
    for c in '\u{0}'..=char::MAX {
        assert_eq!(is_white_space(c), c.is_whitespace(), "{:?}", c);
    }
}

#[test]
fn trimming_is_that_of_str() {
    for s in ["", " ", "a", " a b\t", "\u{a0}\u{3000}é\u{2029}", "\u{200b}x\u{200b}", "\n\r"] {
        assert_eq!(trim(s), s.trim());
        assert_eq!(split_words(s), s.split_whitespace().collect::<Vec<&str>>());
    }
    assert_eq!(non_empty_str(" \t"), None);
    assert_eq!(non_empty_str(" x "), Some("x"));
    assert_eq!(non_empty(Some("  y".to_string())), Some("y".to_string()));
    assert_eq!(non_empty(Some("".to_string())), None);
    assert_eq!(non_empty(None), None);
    assert_eq!(trim_url_punctuation("\"(http://a),;'"), "(http://a");
}

#[test]
fn words_come_back_from_a_line() {
    let words = vec!["a", "bc", "d"];
    assert_eq!(join_spaced(&words), "a bc d");
    assert_eq!(split_words(&join_spaced(&words)), words);
    assert_eq!(join_spaced(&vec![]), "");
}

#[test]
fn lines_are_those_of_str() {
    for s in ["", "\n", " a \r\n\n b\n", "x", "x\r", "一\n二"] {
        let expected: Vec<&str> =
            s.lines().map(str::trim).filter(|line| !line.is_empty()).collect();
        assert_eq!(split_trimmed_lines(s), expected);
    }
}

#[test]
fn cut_at_the_first_space() {
    for s in ["", "a", "a b", "a  b c", " a", "a "] {
        assert_eq!(split_once_space(s), s.split_once(' '));
    }
}

#[test]
fn prefixes_and_case() {
    assert!(starts_with("héllo", "hé"));
    assert!(!starts_with("h", "hé"));
    assert_eq!(after_prefix("~/x", "~/"), Some("x"));
    assert_eq!(after_prefix("x", "~/"), None);
    let lower: String = ascii_lowercase("Not LOGGED İn 9").into_iter().collect();
    assert_eq!(lower, "Not LOGGED İn 9".to_ascii_lowercase());
}

#[test]
fn decimal_notation() {
    for n in [0, 9, 10, 305, u64::MAX] {
        assert_eq!(u64_text(n), n.to_string());
        assert_eq!(parse_u64(&u64_text(n)), Some(n));
    }
    for n in [0, 7, -1, -305, i64::MAX, i64::MIN] {
        assert_eq!(i64_text(n), n.to_string());
    }
    for s in ["", "+", "-1", "+12", "007", "18446744073709551616", "1 ", "٣", "++1", "1_0"] {
        assert_eq!(parse_u64(s), s.parse::<u64>().ok(), "{}", s);
    }
}

#[test]
fn tilde_is_the_home_directory() {
    assert_eq!(expand_tilde("~", true), UserPath::Home);
    assert_eq!(expand_tilde("~/a/b", true), UserPath::UnderHome("a/b".to_string()));
    assert_eq!(expand_tilde("~x", true), UserPath::Literal("~x".to_string()));
    assert_eq!(expand_tilde("~/a", false), UserPath::Literal("~/a".to_string()));
    assert_eq!(expand_tilde("~", false), UserPath::Literal("~".to_string()));
}

#[test]
fn fingerprints() {
    assert_eq!(
        sha256_hex(""),
        "e3b0c44298fc1c149afbf4c8996fb92427ae41e4649b934ca495991b7852b855"
    );
    assert_eq!(
        sha256_hex("abc"),
        "ba7816bf8f01cfea414140de5dae2223b00361a396177a9cb410ff61f20015ad"
    );
    assert_eq!(opt_sha256_hex(&None), None);
    assert_eq!(opt_sha256_hex(&Some("abc".to_string())), Some(sha256_hex("abc")));
}

#[test]
fn endpoints_are_listed_in_order() {
    let set = EndpointSet::new(
        ["ide", "cli", "ide", "é", "Z", "cl"].iter().map(|s| s.to_string()).collect(),
    );
    assert_eq!(set.names, ["Z", "cl", "cli", "ide", "é"]);
    assert!(set.contains("cli"));
    assert!(!set.contains("CLI"));
    assert_eq!(
        set.unknown_endpoint("x\"y"),
        format!("未知端点 \"x\"y\"，已注册端点: {:?}", ["Z", "cl", "cli", "ide", "é"])
    );
    let odd = EndpointSet::new(vec!["a\"\n\\".to_string()]);
    assert_eq!(
        odd.unknown_endpoint(""),
        format!("未知端点 \"\"，已注册端点: {:?}", ["a\"\n\\"])
    );
    let none = EndpointSet::new(Vec::new());
    assert_eq!(none.unknown_endpoint("a"), "未知端点 \"a\"，已注册端点: []");
    assert_eq!(
        unknown_endpoint_message("a", &vec!["1".to_string(), "2".to_string()]),
        "未知端点 \"a\"，已注册端点: [1, 2]"
    );
}

#[test]
fn balances_last_five_minutes() {
    assert!(still_fresh(1000, 1299));
    assert!(!still_fresh(1000, 1300));
    assert!(still_fresh(i64::MAX, i64::MIN));
    assert!(!still_fresh(i64::MIN, i64::MAX));

    let mut cache = BalanceCache::new();
    assert_eq!(cache.get(7, 0), None);
    cache.insert(7, 1000, "full");
    assert_eq!(cache.get(7, 1299), Some(&"full"));
    assert_eq!(cache.get(7, 1300), None);
    assert_eq!(cache.get(8, 1000), None);
    cache.insert(7, 2000, "half");
    assert_eq!(cache.get(7, 2000), Some(&"half"));
    cache.remove(7);
    assert_eq!(cache.get(7, 2000), None);
}

#[test]
fn balances_are_read_back() {
    let mut cache = BalanceCache::new();
    cache.insert(1, 1000, "old");
    cache.insert(20, 1200, "new");
    let mut saved: Vec<(String, CachedBalance<&str>)> = cache
        .save_balance_cache()
        .into_iter()
        .map(|(key, entry)| (key, entry.clone()))
        .collect();
    saved.sort_by(|a, b| a.0.cmp(&b.0));
    assert_eq!(saved.len(), 2);
    assert_eq!(saved[0].0, "1");
    assert_eq!(saved[1].0, "20");
    assert_eq!(saved[1].1.cached_at, 1200);
    saved.push(("x".to_string(), CachedBalance { cached_at: 1300, data: "no id" }));

    let read = BalanceCache::load_balance_cache_from(saved, 1300);
    assert_eq!(read.entries.len(), 1);
    assert_eq!(read.get(20, 1300), Some(&"new"));
    assert_eq!(read.get(1, 1000), None);
}

#[test]
fn last_balance_of_an_id_counts() {
    let entry = |data| CachedBalance { cached_at: 0, data };
    let read = BalanceCache::load_balance_cache_from(
        vec![
            ("1".to_string(), entry("a")),
            ("+1".to_string(), entry("b")),
            ("01".to_string(), CachedBalance { cached_at: -300, data: "stale" }),
        ],
        0,
    );
    assert_eq!(read.get(1, 0), Some(&"b"));
}

use regex::Regex;
use regex_cache::cache::RegexCache;
use regex_cache::error::Error;
use regex_cache::options::CompileOptions;

#[test]
fn respects_limit() {
    let mut cache = RegexCache::new(2);

    cache.compile("[01]2").unwrap();
    cache.compile("[21]0").unwrap();

    assert_eq!(cache.len(), 2);
    cache.compile("[21]3").unwrap();
    assert_eq!(cache.len(), 2);
}

#[test]
fn evicts_least_recently_used() {
    let mut cache = RegexCache::new(2);
    cache.compile("[01]2").unwrap();
    cache.compile("[21]0").unwrap();
    cache.compile("[21]3").unwrap();
    assert_eq!(cache.len(), 2);
    assert!(cache.remove("[01]2").is_none());
    assert!(cache.remove("[21]0").is_some());
    assert!(cache.remove("[21]3").is_some());
    assert!(cache.is_empty());
}

#[test]
fn hit_refreshes_recency() {
    let mut cache = RegexCache::new(2);
    cache.compile("a").unwrap();
    cache.compile("b").unwrap();
    cache.compile("a").unwrap();
    cache.compile("c").unwrap();
    assert!(cache.contains_key("a"));
    assert!(cache.contains_key("c"));
    assert!(!cache.contains_key("b"));
    assert_eq!(cache.len(), 2);
}

#[test]
fn contains_key_counts_as_use() {
    let mut cache = RegexCache::new(2);
    cache.compile("a").unwrap();
    cache.compile("b").unwrap();
    assert!(cache.contains_key("a"));
    cache.compile("c").unwrap();
    assert!(cache.get("b").is_none());
    assert_eq!(cache.get("a").unwrap().as_str(), "a");
    assert_eq!(cache.get("c").unwrap().as_str(), "c");
}

#[test]
fn save_then_compile_returns_saved() {
    let mut cache = RegexCache::new(4);
    let re = regex::RegexBuilder::new("abc").case_insensitive(true).build().unwrap();
    assert!(cache.save(re).is_match("ABC"));
    // A fresh compile of "abc" would be case sensitive.
    assert!(cache.compile("abc").unwrap().is_match("ABC"));
    assert_eq!(cache.len(), 1);
}

#[test]
fn save_keeps_existing_entry() {
    let mut cache = RegexCache::new(4);
    cache.compile("abc").unwrap();
    let re = regex::RegexBuilder::new("abc").case_insensitive(true).build().unwrap();
    assert!(!cache.save(re).is_match("ABC"));
    assert_eq!(cache.len(), 1);
}

#[test]
fn save_evicts_when_full() {
    let mut cache = RegexCache::new(1);
    cache.save(Regex::new("x").unwrap());
    assert_eq!(cache.save(Regex::new("y").unwrap()).as_str(), "y");
    assert_eq!(cache.len(), 1);
    assert!(!cache.contains_key("x"));
    assert!(cache.contains_key("y"));
}

#[test]
fn compile_matches() {
    let mut cache = RegexCache::new(100);
    assert!(cache.compile(r"^\d+$").unwrap().is_match("1234"));
    assert!(!cache.compile(r"^\d+$").unwrap().is_match("abcd"));
    assert_eq!(cache.len(), 1);
}

#[test]
fn configure_applies_options() {
    let mut cache = RegexCache::new(100);
    let options = CompileOptions { case_insensitive: true, ..CompileOptions::default() };
    assert!(cache.configure("abc", &options).unwrap().is_match("ABC"));
    assert!(!cache.configure("abc", &options).unwrap().is_match("123"));
}

#[test]
fn configure_first_options_win() {
    let mut cache = RegexCache::new(100);
    assert!(!cache.compile("abc").unwrap().is_match("ABC"));
    let options = CompileOptions { case_insensitive: true, ..CompileOptions::default() };
    assert!(!cache.configure("abc", &options).unwrap().is_match("ABC"));
    assert_eq!(cache.len(), 1);
}

#[test]
fn invalid_source_leaves_cache_unchanged() {
    let mut cache = RegexCache::new(2);
    cache.compile("a").unwrap();
    match cache.compile("(unclosed") {
        Err(Error::Syntax(_)) => {}
        _ => panic!("a syntax error was expected"),
    }
    assert_eq!(cache.len(), 1);
    assert!(!cache.contains_key("(unclosed"));
    assert!(cache.contains_key("a"));
}

#[test]
fn size_limit_gives_compiled_too_big() {
    let mut cache = RegexCache::new(2);
    let options = CompileOptions { size_limit: 10, ..CompileOptions::default() };
    match cache.configure(r"\w{50}", &options) {
        Err(Error::CompiledTooBig(limit)) => assert_eq!(limit, 10),
        _ => panic!("a size error was expected"),
    }
    assert!(cache.is_empty());
}

#[test]
fn install_hands_failure_on() {
    let mut cache = RegexCache::new(2);
    match cache.install(Err(Error::CompiledTooBig(7))) {
        Err(Error::CompiledTooBig(7)) => {}
        _ => panic!("the failure was expected back"),
    }
    assert!(cache.is_empty());
    assert_eq!(cache.install(Ok(Regex::new("a").unwrap())).unwrap().as_str(), "a");
    assert_eq!(cache.len(), 1);
}

#[test]
fn new_cache_is_empty() {
    let cache = RegexCache::new(3);
    assert_eq!(cache.len(), 0);
    assert_eq!(cache.capacity(), 3);
    assert!(cache.is_empty());
}

#[test]
fn default_options() {
    let options = CompileOptions::default();
    assert!(!options.case_insensitive);
    assert!(!options.multi_line);
    assert!(!options.dot_matches_new_line);
    assert!(!options.swap_greed);
    assert!(!options.ignore_whitespace);
    assert!(options.unicode);
    assert_eq!(options.size_limit, 10 * (1 << 20));
    assert_eq!(options.dfa_size_limit, 2 * (1 << 20));
}

#[test]
fn peek_does_not_count_as_use() {
    let mut cache = RegexCache::new(2);
    cache.compile("a").unwrap();
    cache.compile("b").unwrap();
    assert_eq!(cache.peek("a").unwrap().as_str(), "a");
    assert!(cache.peek("c").is_none());
    cache.compile("c").unwrap();
    // "a" was only looked at, so it was still the least recently used.
    assert!(cache.peek("a").is_none());
    assert_eq!(cache.peek("b").unwrap().as_str(), "b");
    assert_eq!(cache.peek("c").unwrap().as_str(), "c");
}

#[test]
fn remove_takes_the_entry_out() {
    let mut cache = RegexCache::new(3);
    cache.compile("a").unwrap();
    cache.compile("b").unwrap();
    assert_eq!(cache.remove("a").unwrap().as_str(), "a");
    assert!(cache.remove("a").is_none());
    assert_eq!(cache.len(), 1);
    assert!(cache.peek("b").is_some());
}

#[test]
fn root_names_reach_the_types() {
    let mut cache = regex_cache::RegexCache::new(1);
    assert!(cache.compile("a").is_ok());
    assert!(regex_cache::LazyRegex::new("a").is_ok());
    assert!(regex_cache::LazyRegexBuilder::new("a").build().is_ok());
    assert_eq!(regex_cache::CompileOptions::default().unicode, true);
}

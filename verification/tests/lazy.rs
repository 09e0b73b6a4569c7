use regex_cache::error::Error;
use regex_cache::lazy::{realize, LazyRegex, LazyRegexBuilder};
use regex_cache::options::CompileOptions;

#[test]
fn lazy_finds_phone_number() {
    let re = LazyRegex::new("[0-9]{3}-[0-9]{3}-[0-9]{4}").unwrap();
    let mat = re.get().unwrap().find("phone: 111-222-3333").unwrap();
    assert_eq!((mat.start(), mat.end()), (7, 19));
}

#[test]
fn lazy_reports_source_verbatim() {
    let mut builder = LazyRegexBuilder::new("a b+");
    builder.case_insensitive(true).ignore_whitespace(true);
    let re = builder.build().unwrap();
    assert_eq!(re.get().unwrap().as_str(), "a b+");
    assert!(re.get().unwrap().is_match("ABB"));
}

#[test]
fn lazy_rejects_invalid_syntax() {
    match LazyRegex::new("(unclosed") {
        Err(Error::Syntax(_)) => {}
        _ => panic!("a syntax error was expected"),
    }
    match LazyRegexBuilder::new("a)").build() {
        Err(Error::Syntax(_)) => {}
        _ => panic!("a syntax error was expected"),
    }
}

#[test]
fn lazy_get_twice_gives_same_pattern() {
    let re = LazyRegex::new("ab+").unwrap();
    let first = re.get().unwrap();
    let second = re.get().unwrap();
    assert!(std::ptr::eq(first, second));
}

#[test]
fn lazy_clone_is_independent() {
    let re = LazyRegex::new("ab+").unwrap();
    let copy = re.clone();
    let of_copy = copy.get().unwrap();
    let of_first = re.get().unwrap();
    assert!(!std::ptr::eq(of_copy, of_first));
    assert_eq!(copy.get().unwrap().as_str(), "ab+");
    assert_eq!(re.get().unwrap().as_str(), "ab+");
}

#[test]
fn lazy_size_limit_fails_at_first_use() {
    let mut builder = LazyRegexBuilder::new(r"\w{50}");
    builder.size_limit(10);
    let re = builder.build().unwrap();
    match re.get() {
        Err(Error::CompiledTooBig(limit)) => assert_eq!(limit, 10),
        _ => panic!("a size error was expected"),
    }
    assert!(re.get().is_err());
    assert!(realize(&builder).is_err());
}

#[test]
fn builder_defaults() {
    let builder = LazyRegexBuilder::new("x");
    assert_eq!(builder.options(), CompileOptions::default());
    assert_eq!(LazyRegexBuilder::default(), LazyRegexBuilder::new(""));
}

#[test]
fn builder_setters_set_their_option() {
    let mut builder = LazyRegexBuilder::new("x");
    builder.case_insensitive(true);
    assert!(builder.options().case_insensitive);
    builder.multi_line(true);
    assert!(builder.options().multi_line);
    builder.dot_matches_new_line(true);
    assert!(builder.options().dot_matches_new_line);
    builder.swap_greed(true);
    assert!(builder.options().swap_greed);
    builder.ignore_whitespace(true);
    assert!(builder.options().ignore_whitespace);
    builder.unicode(false);
    assert!(!builder.options().unicode);
    builder.size_limit(123);
    assert_eq!(builder.options().size_limit, 123);
    builder.dfa_size_limit(456);
    assert_eq!(builder.options().dfa_size_limit, 456);
    let expected = CompileOptions {
        case_insensitive: true,
        multi_line: true,
        dot_matches_new_line: true,
        swap_greed: true,
        ignore_whitespace: true,
        unicode: false,
        size_limit: 123,
        dfa_size_limit: 456,
    };
    assert_eq!(builder.options(), expected);
}

#[test]
fn builder_builds_independent_patterns() {
    let mut builder = LazyRegexBuilder::new("abc");
    let plain = builder.build().unwrap();
    builder.case_insensitive(true);
    let relaxed = builder.build().unwrap();
    assert!(!plain.get().unwrap().is_match("ABC"));
    assert!(relaxed.get().unwrap().is_match("ABC"));
}

#[test]
fn builder_options_change_matching() {
    let mut builder = LazyRegexBuilder::new("^b$");
    assert!(!builder.build().unwrap().get().unwrap().is_match("a\nb\nc"));
    builder.multi_line(true);
    assert!(builder.build().unwrap().get().unwrap().is_match("a\nb\nc"));
    let mut dot = LazyRegexBuilder::new("a.b");
    assert!(!dot.build().unwrap().get().unwrap().is_match("a\nb"));
    dot.dot_matches_new_line(true);
    assert!(dot.build().unwrap().get().unwrap().is_match("a\nb"));
}

#[test]
fn realize_compiles_what_the_builder_says() {
    let mut builder = LazyRegexBuilder::new("abc");
    builder.case_insensitive(true);
    let re = realize(&builder).unwrap();
    assert_eq!(re.as_str(), "abc");
    assert!(re.is_match("aBc"));
    assert!(realize(&LazyRegexBuilder::new("(")).is_err());
}

#[test]
fn resolve_hands_a_found_pattern_back() {
    let mut builder = LazyRegexBuilder::new(r"\w{50}");
    builder.size_limit(10);
    let lazy = builder.build().unwrap();
    let other = regex::Regex::new("z").unwrap();
    // Nothing is compiled where the slot holds a pattern: compiling would fail here.
    let got = lazy.resolve(Some(&other)).unwrap();
    assert!(std::ptr::eq(got, &other));
    assert!(lazy.resolve(None).is_err());
}

#[test]
fn resolve_compiles_for_an_empty_slot() {
    let lazy = LazyRegex::new("ab").unwrap();
    let first = lazy.resolve(None).unwrap();
    assert_eq!(first.as_str(), "ab");
    assert!(std::ptr::eq(first, lazy.get().unwrap()));
    assert!(std::ptr::eq(first, lazy.resolve(None).unwrap()));
}

#[test]
fn lazy_from_str() {
    let lazy: LazyRegex = "a+".parse().unwrap();
    assert!(lazy.get().unwrap().is_match("caab"));
    assert!("a(".parse::<LazyRegex>().is_err());
}

fn shared_between_threads<T: Send + Sync>(_: &T) {}

#[test]
fn lazy_can_be_shared_between_threads() {
    let lazy = LazyRegex::new("a").unwrap();
    shared_between_threads(&lazy);
}

#[test]
fn syntax_errors_compare_equal() {
    let first = LazyRegex::new("a(").err().unwrap();
    let second = LazyRegexBuilder::new("a(").build().err().unwrap();
    assert_eq!(first, second);
    assert_ne!(first, Error::CompiledTooBig(1));
    assert_ne!(first, Error::Other);
}

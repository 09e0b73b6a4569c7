//! A pattern that is compiled on first use, once for each thread that uses
//! it, and the builder that fixes its source and options.

use vstd::prelude::*;
use regex::Regex;
use thread_local::CachedThreadLocal;
use crate::engine::{build_failure, build_regex, check_syntax, regex_source, syntax_failure};
use crate::error::Error;
use crate::options::CompileOptions;

verus! {

/// What a lazy pattern is compiled from: a source and the options.
pub struct PatternSpec {
    pub source: Seq<char>,
    pub options: CompileOptions,
}

/// A configurable builder for a lazy `Regex`.
#[derive(Debug, PartialEq, Eq)]
pub struct LazyRegexBuilder {
    source: String,
    options: CompileOptions,
}

impl View for LazyRegexBuilder {
    type V = PatternSpec;

    closed spec fn view(&self) -> PatternSpec {
        PatternSpec { source: self.source@, options: self.options }
    }
}

impl Clone for LazyRegexBuilder {
    fn clone(&self) -> (copy: LazyRegexBuilder)
        ensures
            copy@ == self@,
    {
        LazyRegexBuilder { source: self.source.clone(), options: self.options }
    }
}

impl Default for LazyRegexBuilder {
    fn default() -> (builder: LazyRegexBuilder)
        ensures
            builder@ == (PatternSpec {
                source: Seq::<char>::empty(),
                options: CompileOptions::standard(),
            }),
    {
        LazyRegexBuilder { source: String::new(), options: CompileOptions::default() }
    }
}

impl LazyRegexBuilder {
    /// Create a new regular expression builder with the given pattern.
    ///
    /// If the pattern is invalid, then an error will be returned when
    /// `build` is called.
    pub fn new(source: &str) -> (builder: LazyRegexBuilder)
        ensures
            builder@ == (PatternSpec { source: source@, options: CompileOptions::standard() }),
    {
        LazyRegexBuilder { source: source.to_owned(), options: CompileOptions::default() }
    }

    /// The options set so far.
    pub fn options(&self) -> (options: CompileOptions)
        ensures
            options == self@.options,
    {
        self.options
    }

    /// Set the value for the case insensitive (`i`) flag.
    pub fn case_insensitive(&mut self, yes: bool) -> (builder: &mut LazyRegexBuilder)
        ensures
            builder@ == (PatternSpec {
                options: CompileOptions { case_insensitive: yes, ..old(self)@.options },
                ..old(self)@
            }),
            *final(self) == *final(builder),
    {
        self.options.case_insensitive = yes;
        self
    }

    /// Set the value for the multi-line matching (`m`) flag.
    pub fn multi_line(&mut self, yes: bool) -> (builder: &mut LazyRegexBuilder)
        ensures
            builder@ == (PatternSpec {
                options: CompileOptions { multi_line: yes, ..old(self)@.options },
                ..old(self)@
            }),
            *final(self) == *final(builder),
    {
        self.options.multi_line = yes;
        self
    }

    /// Set the value for the any character (`s`) flag, where in `.` matches
    /// anything when `s` is set and matches anything except for new line when
    /// it is not set (the default).
    pub fn dot_matches_new_line(&mut self, yes: bool) -> (builder: &mut LazyRegexBuilder)
        ensures
            builder@ == (PatternSpec {
                options: CompileOptions { dot_matches_new_line: yes, ..old(self)@.options },
                ..old(self)@
            }),
            *final(self) == *final(builder),
    {
        self.options.dot_matches_new_line = yes;
        self
    }

    /// Set the value for the greedy swap (`U`) flag.
    pub fn swap_greed(&mut self, yes: bool) -> (builder: &mut LazyRegexBuilder)
        ensures
            builder@ == (PatternSpec {
                options: CompileOptions { swap_greed: yes, ..old(self)@.options },
                ..old(self)@
            }),
            *final(self) == *final(builder),
    {
        self.options.swap_greed = yes;
        self
    }

    /// Set the value for the ignore whitespace (`x`) flag.
    pub fn ignore_whitespace(&mut self, yes: bool) -> (builder: &mut LazyRegexBuilder)
        ensures
            builder@ == (PatternSpec {
                options: CompileOptions { ignore_whitespace: yes, ..old(self)@.options },
                ..old(self)@
            }),
            *final(self) == *final(builder),
    {
        self.options.ignore_whitespace = yes;
        self
    }

    /// Set the value for the Unicode (`u`) flag.
    pub fn unicode(&mut self, yes: bool) -> (builder: &mut LazyRegexBuilder)
        ensures
            builder@ == (PatternSpec {
                options: CompileOptions { unicode: yes, ..old(self)@.options },
                ..old(self)@
            }),
            *final(self) == *final(builder),
    {
        self.options.unicode = yes;
        self
    }

    /// Set the approximate size limit of the compiled regular expression.
    ///
    /// This roughly corresponds to the number of bytes occupied by a single
    /// compiled program. If the program exceeds this number, then a
    /// compilation error is returned.
    pub fn size_limit(&mut self, limit: usize) -> (builder: &mut LazyRegexBuilder)
        ensures
            builder@ == (PatternSpec {
                options: CompileOptions { size_limit: limit, ..old(self)@.options },
                ..old(self)@
            }),
            *final(self) == *final(builder),
    {
        self.options.size_limit = limit;
        self
    }

    /// Set the approximate size of the cache used by the DFA.
    ///
    /// This roughly corresponds to the number of bytes that the DFA will
    /// use while searching. It is a limit for each thread: a pattern used
    /// from several threads may use up to this number of bytes in each.
    pub fn dfa_size_limit(&mut self, limit: usize) -> (builder: &mut LazyRegexBuilder)
        ensures
            builder@ == (PatternSpec {
                options: CompileOptions { dfa_size_limit: limit, ..old(self)@.options },
                ..old(self)@
            }),
            *final(self) == *final(builder),
    {
        self.options.dfa_size_limit = limit;
        self
    }

    /// Check the syntax of the pattern and make a lazy `Regex` of it.
    ///
    /// The builder is left as it is and can build again; each pattern built
    /// holds the source and the options that the builder had at that time.
    /// Note that calling `as_str` on the resulting `Regex` will produce the
    /// pattern given to `new` verbatim. Notably, it will not incorporate any
    /// of the flags set on this builder.
    pub fn build(&self) -> (r: Result<LazyRegex, Error>)
        ensures
            match syntax_failure(self@.source) {
                Some(failure) => r matches Err(e) && e@ == failure && failure is Syntax,
                None => r matches Ok(lazy) && lazy@ == self@,
            },
    {
        match check_syntax(self.source.as_str()) {
            Err(e) => Err(e),
            Ok(_) => Ok(LazyRegex { builder: self.clone(), local: fresh_slots() }),
        }
    }
}

/// The per-thread storage of the `thread_local` crate.
#[verifier::external_type_specification]
#[verifier::external_body]
#[verifier::reject_recursive_types(T)]
pub struct ExCachedThreadLocal<T: ?Sized + Send>(CachedThreadLocal<T>);

/// `CachedThreadLocal::new`: storage in which no thread has a value yet.
#[verifier::external_body]
fn fresh_slots() -> CachedThreadLocal<Regex> {
    CachedThreadLocal::new()
}

/// Compile what a builder describes, at once.
pub fn realize(builder: &LazyRegexBuilder) -> (r: Result<Regex, Error>)
    ensures
        match build_failure(builder@.source, builder@.options) {
            Some(failure) => r matches Err(e) && e@ == failure,
            None => r matches Ok(re) && regex_source(re) == builder@.source,
        },
{
    build_regex(builder.source.as_str(), &builder.options)
}

/// `CachedThreadLocal::get`: the pattern in the calling thread's slot, if
/// the thread has one. Whether it has one is not said. A slot is filled by
/// `slot_get_or` alone, which takes only a pattern compiled from the source
/// of this lazy pattern, and only where its source and options compile.
#[verifier::external_body]
fn slot_get(lazy: &LazyRegex) -> (r: Option<&Regex>)
    ensures
        r matches Some(re) ==> regex_source(*re) == lazy@.source && build_failure(
            lazy@.source,
            lazy@.options,
        ) is None,
{
    lazy.local.get()
}

/// `CachedThreadLocal::get_or`: the pattern in the calling thread's slot,
/// which is the one given where the slot was empty. Either way it is a
/// pattern compiled from the source of this lazy pattern.
#[verifier::external_body]
fn slot_get_or(lazy: &LazyRegex, compiled: Box<Regex>) -> (r: &Regex)
    requires
        regex_source(*compiled) == lazy@.source,
        build_failure(lazy@.source, lazy@.options) is None,
    ensures
        regex_source(*r) == lazy@.source,
{
    lazy.local.get_or(move || compiled)
}

/// A lazily created `Regex`.
///
/// At the first `get` on a thread the source is compiled and the pattern is
/// kept in storage of that thread, so that no lock is ever taken.
pub struct LazyRegex {
    builder: LazyRegexBuilder,
    local: CachedThreadLocal<Regex>,
}

impl View for LazyRegex {
    type V = PatternSpec;

    closed spec fn view(&self) -> PatternSpec {
        self.builder@
    }
}

impl Clone for LazyRegex {
    /// A copy with the same source and options, and with no pattern
    /// compiled yet on any thread.
    fn clone(&self) -> (copy: LazyRegex)
        ensures
            copy@ == self@,
    {
        LazyRegex { builder: self.builder.clone(), local: fresh_slots() }
    }
}

impl LazyRegex {
    /// Create a new lazy `Regex` for the given source, checking the syntax is
    /// valid.
    pub fn new(source: &str) -> (r: Result<LazyRegex, Error>)
        ensures
            match syntax_failure(source@) {
                Some(failure) => r matches Err(e) && e@ == failure && failure is Syntax,
                None => r matches Ok(lazy) && lazy@ == (PatternSpec {
                    source: source@,
                    options: CompileOptions::standard(),
                }),
            },
    {
        match check_syntax(source) {
            Err(e) => Err(e),
            Ok(_) => Ok(LazyRegex { builder: LazyRegexBuilder::new(source), local: fresh_slots() }),
        }
    }

    /// The compiled pattern of the calling thread, compiled now if this is
    /// the thread's first use of it.
    ///
    /// The pattern reports the source given at construction, verbatim. The
    /// syntax was checked at construction, so a failure here means that the
    /// compiler still refuses the source under the options, as it does where
    /// a size limit is too small; nothing is kept then.
    pub fn get(&self) -> (r: Result<&Regex, Error>)
        ensures
            match build_failure(self@.source, self@.options) {
                Some(failure) => r matches Err(e) && e@ == failure,
                None => r matches Ok(re) && regex_source(*re) == self@.source,
            },
    {
        let found = slot_get(self);
        self.resolve(found)
    }

    /// What `get` gives, where `found` is what the calling thread has in its
    /// slot. A pattern that is found is handed back as it is and nothing is
    /// compiled. With an empty slot the pattern is compiled; if that
    /// succeeds it is put into the slot, and the pattern of the slot is
    /// returned.
    pub fn resolve<'a>(&'a self, found: Option<&'a Regex>) -> (r: Result<&'a Regex, Error>)
        ensures
            match found {
                Some(re) => r == Ok::<&Regex, Error>(re),
                None => match build_failure(self@.source, self@.options) {
                    Some(failure) => r matches Err(e) && e@ == failure,
                    None => r matches Ok(re) && regex_source(*re) == self@.source,
                },
            },
    {
        match found {
            Some(re) => Ok(re),
            None => match realize(&self.builder) {
                Ok(re) => Ok(slot_get_or(self, Box::new(re))),
                Err(e) => Err(e),
            },
        }
    }
}

impl std::str::FromStr for LazyRegex {
    type Err = Error;

    /// As `LazyRegex::new`.
    fn from_str(s: &str) -> (r: Result<LazyRegex, Error>)
        ensures
            match syntax_failure(s@) {
                Some(failure) => r matches Err(e) && e@ == failure && failure is Syntax,
                None => r matches Ok(lazy) && lazy@ == (PatternSpec {
                    source: s@,
                    options: CompileOptions::standard(),
                }),
            },
    {
        LazyRegex::new(s)
    }
}

} // verus!

//! The pattern compiler, as far as this library relies on it.
//!
//! Nothing in this file is proved: each contract states what the compiler
//! is taken to do.

use vstd::prelude::*;
use crate::error::{Error, Failure};
use crate::options::CompileOptions;

verus! {

/// A compiled pattern of the `regex` crate.
#[verifier::external_type_specification]
#[verifier::external_body]
pub struct ExRegex(regex::Regex);

/// The source text that a compiled pattern was built from.
pub uninterp spec fn regex_source(re: regex::Regex) -> Seq<char>;

/// What `regex_syntax::Expr::parse` objects to in a source, if anything.
pub uninterp spec fn syntax_failure(source: Seq<char>) -> Option<Failure>;

/// Why `regex::RegexBuilder::build` fails on a source under the given
/// options, if it does.
pub uninterp spec fn build_failure(source: Seq<char>, options: CompileOptions) -> Option<Failure>;

/// `regex::Regex::as_str`: the source of a compiled pattern, verbatim.
#[verifier::external_body]
pub(crate) fn regex_as_str(re: &regex::Regex) -> (r: &str)
    ensures
        r@ == regex_source(*re),
{
    re.as_str()
}

/// `regex_syntax::Expr::parse`, keeping only whether the source parses.
/// The error, where there is one, is a syntax error that carries the
/// parser's message; it depends on the source alone.
#[verifier::external_body]
pub(crate) fn check_syntax(source: &str) -> (r: Result<(), Error>)
    ensures
        match r {
            Ok(_) => syntax_failure(source@) is None,
            Err(e) => syntax_failure(source@) == Some(e@) && e@ is Syntax,
        },
{
    match regex_syntax::Expr::parse(source) {
        Ok(_) => Ok(()),
        Err(e) => Err(Error::Syntax(e.to_string())),
    }
}

/// `regex::RegexBuilder::new` on the source, each setter with the option
/// of its name, then `build`. Whether it succeeds depends on the source
/// and the options alone; a pattern that was built reports the source it
/// was given.
#[verifier::external_body]
pub(crate) fn build_regex(source: &str, options: &CompileOptions) -> (r: Result<regex::Regex, Error>)
    ensures
        match r {
            Ok(re) => build_failure(source@, *options) is None && regex_source(re) == source@,
            Err(e) => build_failure(source@, *options) == Some(e@),
        },
{
    let mut builder = regex::RegexBuilder::new(source);
    builder.case_insensitive(options.case_insensitive).multi_line(options.multi_line);
    builder.dot_matches_new_line(options.dot_matches_new_line).swap_greed(options.swap_greed);
    builder.ignore_whitespace(options.ignore_whitespace).unicode(options.unicode);
    builder.size_limit(options.size_limit).dfa_size_limit(options.dfa_size_limit);
    match builder.build() {
        Ok(re) => Ok(re),
        Err(regex::Error::Syntax(msg)) => Err(Error::Syntax(msg)),
        Err(regex::Error::CompiledTooBig(limit)) => Err(Error::CompiledTooBig(limit)),
        Err(_) => Err(Error::Other),
    }
}

} // verus!

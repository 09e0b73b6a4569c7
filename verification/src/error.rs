//! The errors that compiling a pattern can give.

use vstd::prelude::*;

verus! {

/// Why a pattern could not be compiled.
#[derive(Debug, Clone, PartialEq, Eq)]
pub enum Error {
    /// The pattern source is not well formed; the message is the compiler's.
    Syntax(String),
    /// The compiled program would exceed the size limit, which is given.
    CompiledTooBig(usize),
    /// A failure that the compiler does not describe further.
    Other,
}

/// What an [`Error`] says, as a mathematical value.
pub enum Failure {
    Syntax(Seq<char>),
    CompiledTooBig(usize),
    Other,
}

impl View for Error {
    type V = Failure;

    open spec fn view(&self) -> Failure {
        match *self {
            Error::Syntax(msg) => Failure::Syntax(msg@),
            Error::CompiledTooBig(limit) => Failure::CompiledTooBig(limit),
            Error::Other => Failure::Other,
        }
    }
}

} // verus!

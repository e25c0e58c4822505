use vstd::prelude::*;

verus! {

/// How much more input a parser needs before it can decide.
#[derive(Debug, PartialEq, Eq, Structural, Clone, Copy)]
pub enum Needed {
    /// The amount is not known.
    Unknown,
    /// That many more bytes or characters are needed.
    Size(usize),
}

/// The three ways in which a parser can fail.
#[derive(Debug, Clone, PartialEq)]
pub enum ErrMode<E> {
    /// More input is needed.
    Incomplete(Needed),
    /// A recoverable error: another branch may still be tried.
    Error(E),
    /// An unrecoverable error: no other branch is tried.
    Failure(E),
}

/// What a parser returns: the remaining input and its output, or how it failed.
pub type IResult<I, O, E> = Result<(I, O), ErrMode<E>>;

} // verus!

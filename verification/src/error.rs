//! Error management.
//!
//! A parser reports failure through an error type that implements
//! [`ParseError`]. Two light error types come with it, `(I, ErrorKind)` and
//! `()`, and one that keeps the whole path back to the failure,
//! [`VerboseError`], which [`convert_error`] turns into a readable trace.

use vstd::prelude::*;
use crate::internal::{ErrMode, IResult, Needed};
use vstd::string::StringSliceAdditionalSpecFns;
use crate::trace::{
    find_occurrence, first_char, occurs_at, occurs_at_exec, render_error_trace, render_trace,
    split_lines, ErrorSite,
};

verus! {

/// This trait must be implemented by the error type of a parser.
///
/// It provides methods to create an error from some combinators, and to
/// combine existing errors in combinators like `alt`.
pub trait ParseError<I>: Sized {
    /// Creates an error from the input position and an [`ErrorKind`].
    fn from_error_kind(input: I, kind: ErrorKind) -> Self;

    /// Combines an existing error with a new one created from the input
    /// position and an [`ErrorKind`]. This is useful when backtracking
    /// through a parse tree, accumulating error context on the way.
    fn append(input: I, kind: ErrorKind, other: Self) -> Self;

    /// Creates an error from an input position and an expected character.
    fn from_char(input: I, expected: char) -> (error: Self)
        default_ensures
            call_ensures(Self::from_error_kind, (input, ErrorKind::Char), error),
    {
        Self::from_error_kind(input, ErrorKind::Char)
    }

    /// Combines two existing errors. This function is used to compare errors
    /// generated in the various branches of `alt`.
    fn or(self, other: Self) -> (error: Self)
        default_ensures
            error == other,
    {
        other
    }

    /// Creates a new error from an input position, a static string and an
    /// existing error. This is used mainly in the [`context`] combinator, to
    /// add user friendly information to errors when backtracking through a
    /// parse tree.
    fn add_context(input: I, ctx: &'static str, other: Self) -> (error: Self)
        default_ensures
            error == other,
    {
        other
    }
}

/// The light error: the position and kind of the first failure, which any
/// later `append` leaves as it is.
impl<I> ParseError<I> for (I, ErrorKind) {
    fn from_error_kind(input: I, kind: ErrorKind) -> (error: Self)
        ensures
            error == (input, kind),
    {
        (input, kind)
    }

    fn append(input: I, kind: ErrorKind, other: Self) -> (error: Self)
        ensures
            error == other,
    {
        other
    }
}

/// The error that records nothing.
impl<I> ParseError<I> for () {
    fn from_error_kind(input: I, kind: ErrorKind) -> (error: Self)
        ensures
            error == (),
    {
    }

    fn append(input: I, kind: ErrorKind, other: Self) -> (error: Self)
        ensures
            error == (),
    {
    }
}

/// Creates an error from the input position and an [`ErrorKind`].
pub fn make_error<I, E: ParseError<I>>(input: I, kind: ErrorKind) -> (error: E)
    ensures
        call_ensures(E::from_error_kind, (input, kind), error),
{
    E::from_error_kind(input, kind)
}

/// Combines an existing error with a new one created from the input
/// position and an [`ErrorKind`]. This is useful when backtracking through a
/// parse tree, accumulating error context on the way.
pub fn append_error<I, E: ParseError<I>>(input: I, kind: ErrorKind, other: E) -> (error: E)
    ensures
        call_ensures(E::append, (input, kind, other), error),
{
    E::append(input, kind, other)
}

/// This error type accumulates errors and their position when backtracking
/// through a parse tree. With [`convert_error`] it can be used to display
/// user friendly error messages.
#[derive(Clone, Debug, PartialEq)]
pub struct VerboseError<I> {
    /// The errors accumulated so far, innermost first, each with the part of
    /// the input it concerns and some context.
    pub errors: Vec<(I, VerboseErrorKind)>,
}

impl<I> View for VerboseError<I> {
    type V = Seq<(I, VerboseErrorKind)>;

    open spec fn view(&self) -> Seq<(I, VerboseErrorKind)> {
        self.errors@
    }
}

/// Error context for [`VerboseError`].
#[derive(Clone, Debug, PartialEq)]
pub enum VerboseErrorKind {
    /// Static string added by the [`context`] function.
    Context(&'static str),
    /// Indicates which character was expected by the `char` function.
    Char(char),
    /// Error kind given by the various parsers.
    Nom(ErrorKind),
}

impl<I> ParseError<I> for VerboseError<I> {
    fn from_error_kind(input: I, kind: ErrorKind) -> (error: Self)
        ensures
            error@ == seq![(input, VerboseErrorKind::Nom(kind))],
    {
        VerboseError { errors: vec![(input, VerboseErrorKind::Nom(kind))] }
    }

    fn append(input: I, kind: ErrorKind, other: Self) -> (error: Self)
        ensures
            error@ == other@.push((input, VerboseErrorKind::Nom(kind))),
    {
        let mut other = other;
        other.errors.push((input, VerboseErrorKind::Nom(kind)));
        other
    }

    fn from_char(input: I, expected: char) -> (error: Self)
        ensures
            error@ == seq![(input, VerboseErrorKind::Char(expected))],
    {
        VerboseError { errors: vec![(input, VerboseErrorKind::Char(expected))] }
    }

    fn add_context(input: I, ctx: &'static str, other: Self) -> (error: Self)
        ensures
            error@ == other@.push((input, VerboseErrorKind::Context(ctx))),
    {
        let mut other = other;
        other.errors.push((input, VerboseErrorKind::Context(ctx)));
        other
    }
}

/// `after` is what the [`context`] combinator makes of the result `before`
/// of its parser on `input`: success and incompleteness pass unchanged, and
/// an error or a failure stays one, with `ctx` added by `add_context`.
pub open spec fn context_added<I, O, E: ParseError<I>>(
    input: I,
    ctx: &'static str,
    before: IResult<I, O, E>,
    after: IResult<I, O, E>,
) -> bool {
    match before {
        Ok(output) => after == Ok::<(I, O), ErrMode<E>>(output),
        Err(ErrMode::Incomplete(needed)) => after == Err::<(I, O), ErrMode<E>>(
            ErrMode::Incomplete(needed),
        ),
        Err(ErrMode::Error(e)) => after matches Err(ErrMode::Error(e2)) && call_ensures(
            E::add_context,
            (input, ctx, e),
            e2,
        ),
        Err(ErrMode::Failure(e)) => after matches Err(ErrMode::Failure(e2)) && call_ensures(
            E::add_context,
            (input, ctx, e),
            e2,
        ),
    }
}

/// Adds the context `ctx` and the position `input` to the error in a
/// parser's result; a success or an incomplete result is left as it is.
pub fn with_context<I, O, E: ParseError<I>>(
    input: I,
    ctx: &'static str,
    before: IResult<I, O, E>,
) -> (after: IResult<I, O, E>)
    ensures
        context_added(input, ctx, before, after),
        before is Ok ==> after == before,
        forall|needed: Needed|
            before == Err::<(I, O), ErrMode<E>>(ErrMode::Incomplete(needed)) ==> after == before,
        before matches Err(ErrMode::Error(_)) ==> after matches Err(ErrMode::Error(_)),
        before matches Err(ErrMode::Failure(_)) ==> after matches Err(ErrMode::Failure(_)),
{
    match before {
        Ok(output) => Ok(output),
        Err(ErrMode::Incomplete(needed)) => Err(ErrMode::Incomplete(needed)),
        Err(ErrMode::Error(e)) => Err(ErrMode::Error(E::add_context(input, ctx, e))),
        Err(ErrMode::Failure(e)) => Err(ErrMode::Failure(E::add_context(input, ctx, e))),
    }
}

/// What the [`context`] combinator makes of a result: a success and an
/// incomplete result come back unchanged, an error stays an error and a
/// failure stays a failure, each holding what `add_context` made of the
/// original one.
pub proof fn lemma_context_keeps_outcome<I, O, E: ParseError<I>>(
    input: I,
    ctx: &'static str,
    before: IResult<I, O, E>,
    after: IResult<I, O, E>,
)
    requires
        context_added(input, ctx, before, after),
    ensures
        before is Ok ==> after == before,
        forall|needed: Needed|
            before == Err::<(I, O), ErrMode<E>>(ErrMode::Incomplete(needed)) ==> after == before,
        forall|e: E|
            before == Err::<(I, O), ErrMode<E>>(ErrMode::Error(e)) ==> exists|e2: E|
                after == Err::<(I, O), ErrMode<E>>(ErrMode::Error(e2)) && call_ensures(
                    E::add_context,
                    (input, ctx, e),
                    e2,
                ),
        forall|e: E|
            before == Err::<(I, O), ErrMode<E>>(ErrMode::Failure(e)) ==> exists|e2: E|
                after == Err::<(I, O), ErrMode<E>>(ErrMode::Failure(e2)) && call_ensures(
                    E::add_context,
                    (input, ctx, e),
                    e2,
                ),
{
    match after {
        Err(ErrMode::Error(e2)) => {
            assert(after == Err::<(I, O), ErrMode<E>>(ErrMode::Error(e2)));
        },
        Err(ErrMode::Failure(e2)) => {
            assert(after == Err::<(I, O), ErrMode<E>>(ErrMode::Failure(e2)));
        },
        _ => {},
    }
}

/// Wraps the parser `f` so that its errors carry the static string `ctx`
/// and the input position at which `f` was called. This is used to add
/// user friendly information to errors when backtracking through a parse
/// tree.
pub fn context<I: Clone, E: ParseError<I>, F, O>(ctx: &'static str, f: F) -> (parser: impl Fn(
    I,
) -> IResult<I, O, E>) where F: Fn(I) -> IResult<I, O, E>
    requires
        forall|i: I| f.requires((i,)),
    ensures
        forall|i: I| parser.requires((i,)),
        forall|i: I, r: IResult<I, O, E>|
            parser.ensures((i,), r) ==> exists|c: I, r0: IResult<I, O, E>|
                cloned::<I>(i, c) && f.ensures((c,), r0) && context_added(i, ctx, r0, r)
                    && (r0 is Ok ==> r == r0) && (r0 matches Err(ErrMode::Incomplete(_)) ==> r
                    == r0),
{
    move |i: I| -> (r: IResult<I, O, E>)
        ensures
            exists|c: I, r0: IResult<I, O, E>|
                cloned::<I>(i, c) && f.ensures((c,), r0) && context_added(i, ctx, r0, r)
                    && (r0 is Ok ==> r == r0) && (r0 matches Err(ErrMode::Incomplete(_)) ==> r
                    == r0),
        {
            let c = i.clone();
            let r0 = f(c);
            let r = with_context(i, ctx, r0);
            assert(cloned::<I>(i, c) && f.ensures((c,), r0) && context_added(i, ctx, r0, r)
                && (r0 is Ok ==> r == r0) && (r0 matches Err(ErrMode::Incomplete(_)) ==> r == r0));
            r
        }
}


/// The address at which the text `s` starts in memory. Calls std's
/// `str::as_ptr`; nothing is claimed of the address.
#[verifier::external_body]
fn str_address(s: &str) -> usize {
    s.as_ptr() as usize
}

/// The sites of the accumulated `errors`, the `i`-th at byte offset
/// `offsets[i]`, with the first character of its part of the input.
pub open spec fn located<'a>(
    errors: Seq<(&'a str, VerboseErrorKind)>,
    offsets: Seq<usize>,
) -> Seq<ErrorSite> {
    Seq::new(
        errors.len(),
        |i: int|
            ErrorSite {
                offset: offsets[i],
                first_char: if errors[i].0@.len() > 0 {
                    Some(errors[i].0@[0])
                } else {
                    None
                },
                kind: errors[i].1,
            },
    )
}

/// A copy of `kind`.
fn copy_kind(kind: &VerboseErrorKind) -> (copy: VerboseErrorKind)
    ensures
        copy == *kind,
{
    match kind {
        VerboseErrorKind::Context(s) => VerboseErrorKind::Context(s),
        VerboseErrorKind::Char(c) => VerboseErrorKind::Char(*c),
        VerboseErrorKind::Nom(k) => VerboseErrorKind::Nom(*k),
    }
}

/// The byte offset at which the part `part` of `input` starts, given the
/// distance `distance` between their addresses: that distance when `part`
/// stands in `input` there, else the first place where `part` stands in
/// `input`, else the distance unchanged.
fn offset_of(input: &str, part: &str, distance: usize) -> (offset: usize)
    ensures
        (exists|p: int| occurs_at(input.spec_bytes(), part.spec_bytes(), p)) ==> occurs_at(
            input.spec_bytes(),
            part.spec_bytes(),
            offset as int,
        ),
        occurs_at(input.spec_bytes(), part.spec_bytes(), distance as int) ==> offset == distance,
{
    let hay = input.as_bytes();
    let needle = part.as_bytes();
    if occurs_at_exec(hay, needle, distance) {
        distance
    } else {
        match find_occurrence(hay, needle) {
            Some(p) => p,
            None => distance,
        }
    }
}

/// Transforms a `VerboseError` into a trace with input position
/// information: one paragraph per accumulated error, in order, each naming
/// the line where its part of the input starts, quoting that line and
/// marking the column with a caret. Each part of the input is placed by its
/// address relative to `input`, which it is expected to lie in; the offset
/// used is always a place where that part's bytes stand in `input`, when
/// they stand anywhere in it.
pub fn convert_error(input: &str, e: VerboseError<&str>) -> (trace: String)
    requires
        e@.len() > 0 ==> input@.len() > 0,
        forall|i: int|
            0 <= i < e@.len() && (#[trigger] e@[i]).1 is Char ==> e@[i].0@.len() > 0,
    ensures
        exists|offsets: Seq<usize>|
            {
                &&& offsets.len() == e@.len()
                &&& forall|i: int|
                    0 <= i < e@.len() && (exists|p: int|
                        occurs_at(input.spec_bytes(), (#[trigger] e@[i]).0.spec_bytes(), p))
                        ==> occurs_at(input.spec_bytes(), e@[i].0.spec_bytes(), offsets[i] as int)
                &&& trace@ == render_trace(split_lines(input@), located(e@, offsets))
            },
{
    let base = str_address(input);
    let mut sites: Vec<ErrorSite> = Vec::new();
    let ghost mut offsets: Seq<usize> = seq![];
    let mut i: usize = 0;
    while i < e.errors.len()
        invariant
            i <= e@.len(),
            offsets.len() == i,
            sites@ == located(e@.take(i as int), offsets),
            forall|k: int|
                0 <= k < i && (exists|p: int|
                    occurs_at(input.spec_bytes(), (#[trigger] e@[k]).0.spec_bytes(), p))
                    ==> occurs_at(input.spec_bytes(), e@[k].0.spec_bytes(), offsets[k] as int),
        decreases e@.len() - i,
    {
        let entry = &e.errors[i];
        let distance = str_address(entry.0).wrapping_sub(base);
        let offset = offset_of(input, entry.0, distance);
        let site = ErrorSite { offset, first_char: first_char(entry.0), kind: copy_kind(&entry.1) };
        sites.push(site);
        proof {
            offsets = offsets.push(offset);
        }
        assert(sites@ =~= located(e@.take(i + 1), offsets));
        i = i + 1;
    }
    assert(e@.take(i as int) =~= e@);
    render_error_trace(input, &sites)
}

/// Indicates which parser returned an error.
#[derive(Debug, PartialEq, Eq, Structural, Hash, Clone, Copy)]
pub enum ErrorKind {
    Tag,
    MapRes,
    MapOpt,
    Alt,
    IsNot,
    IsA,
    SeparatedList,
    SeparatedNonEmptyList,
    Many0,
    Many1,
    ManyTill,
    Count,
    TakeUntil,
    LengthValue,
    TagClosure,
    Alpha,
    Digit,
    HexDigit,
    OctDigit,
    AlphaNumeric,
    Space,
    MultiSpace,
    LengthValueFn,
    Eof,
    Switch,
    TagBits,
    OneOf,
    NoneOf,
    Char,
    CrLf,
    RegexpMatch,
    RegexpMatches,
    RegexpFind,
    RegexpCapture,
    RegexpCaptures,
    TakeWhile1,
    Complete,
    Fix,
    Escaped,
    EscapedTransform,
    NonEmpty,
    ManyMN,
    Not,
    Permutation,
    Verify,
    TakeTill1,
    TakeWhileMN,
    ParseTo,
    TooLarge,
    Many0Count,
    Many1Count,
    Float,
}

/// The number attached to each error kind.
pub open spec fn kind_code(kind: ErrorKind) -> u32 {
    match kind {
        ErrorKind::Tag                   => 1,
        ErrorKind::MapRes                => 2,
        ErrorKind::MapOpt                => 3,
        ErrorKind::Alt                   => 4,
        ErrorKind::IsNot                 => 5,
        ErrorKind::IsA                   => 6,
        ErrorKind::SeparatedList         => 7,
        ErrorKind::SeparatedNonEmptyList => 8,
        ErrorKind::Many1                 => 9,
        ErrorKind::Count                 => 10,
        ErrorKind::TakeUntil             => 12,
        ErrorKind::LengthValue           => 15,
        ErrorKind::TagClosure            => 16,
        ErrorKind::Alpha                 => 17,
        ErrorKind::Digit                 => 18,
        ErrorKind::AlphaNumeric          => 19,
        ErrorKind::Space                 => 20,
        ErrorKind::MultiSpace            => 21,
        ErrorKind::LengthValueFn         => 22,
        ErrorKind::Eof                   => 23,
        ErrorKind::Switch                => 27,
        ErrorKind::TagBits               => 28,
        ErrorKind::OneOf                 => 29,
        ErrorKind::NoneOf                => 30,
        ErrorKind::Char                  => 40,
        ErrorKind::CrLf                  => 41,
        ErrorKind::RegexpMatch           => 42,
        ErrorKind::RegexpMatches         => 43,
        ErrorKind::RegexpFind            => 44,
        ErrorKind::RegexpCapture         => 45,
        ErrorKind::RegexpCaptures        => 46,
        ErrorKind::TakeWhile1            => 47,
        ErrorKind::Complete              => 48,
        ErrorKind::Fix                   => 49,
        ErrorKind::Escaped               => 50,
        ErrorKind::EscapedTransform      => 51,
        ErrorKind::NonEmpty              => 56,
        ErrorKind::ManyMN                => 57,
        ErrorKind::HexDigit              => 59,
        ErrorKind::OctDigit              => 61,
        ErrorKind::Many0                 => 62,
        ErrorKind::Not                   => 63,
        ErrorKind::Permutation           => 64,
        ErrorKind::ManyTill              => 65,
        ErrorKind::Verify                => 66,
        ErrorKind::TakeTill1             => 67,
        ErrorKind::TakeWhileMN           => 69,
        ErrorKind::ParseTo               => 70,
        ErrorKind::TooLarge              => 71,
        ErrorKind::Many0Count            => 72,
        ErrorKind::Many1Count            => 73,
        ErrorKind::Float                 => 74,
    }
}

/// The error kind that carries the number `code`, if one does.
pub open spec fn kind_of_code(code: u32) -> Option<ErrorKind> {
    if code == 1 {
        Some(ErrorKind::Tag)
    } else if code == 2 {
        Some(ErrorKind::MapRes)
    } else if code == 3 {
        Some(ErrorKind::MapOpt)
    } else if code == 4 {
        Some(ErrorKind::Alt)
    } else if code == 5 {
        Some(ErrorKind::IsNot)
    } else if code == 6 {
        Some(ErrorKind::IsA)
    } else if code == 7 {
        Some(ErrorKind::SeparatedList)
    } else if code == 8 {
        Some(ErrorKind::SeparatedNonEmptyList)
    } else if code == 9 {
        Some(ErrorKind::Many1)
    } else if code == 10 {
        Some(ErrorKind::Count)
    } else if code == 12 {
        Some(ErrorKind::TakeUntil)
    } else if code == 15 {
        Some(ErrorKind::LengthValue)
    } else if code == 16 {
        Some(ErrorKind::TagClosure)
    } else if code == 17 {
        Some(ErrorKind::Alpha)
    } else if code == 18 {
        Some(ErrorKind::Digit)
    } else if code == 19 {
        Some(ErrorKind::AlphaNumeric)
    } else if code == 20 {
        Some(ErrorKind::Space)
    } else if code == 21 {
        Some(ErrorKind::MultiSpace)
    } else if code == 22 {
        Some(ErrorKind::LengthValueFn)
    } else if code == 23 {
        Some(ErrorKind::Eof)
    } else if code == 27 {
        Some(ErrorKind::Switch)
    } else if code == 28 {
        Some(ErrorKind::TagBits)
    } else if code == 29 {
        Some(ErrorKind::OneOf)
    } else if code == 30 {
        Some(ErrorKind::NoneOf)
    } else if code == 40 {
        Some(ErrorKind::Char)
    } else if code == 41 {
        Some(ErrorKind::CrLf)
    } else if code == 42 {
        Some(ErrorKind::RegexpMatch)
    } else if code == 43 {
        Some(ErrorKind::RegexpMatches)
    } else if code == 44 {
        Some(ErrorKind::RegexpFind)
    } else if code == 45 {
        Some(ErrorKind::RegexpCapture)
    } else if code == 46 {
        Some(ErrorKind::RegexpCaptures)
    } else if code == 47 {
        Some(ErrorKind::TakeWhile1)
    } else if code == 48 {
        Some(ErrorKind::Complete)
    } else if code == 49 {
        Some(ErrorKind::Fix)
    } else if code == 50 {
        Some(ErrorKind::Escaped)
    } else if code == 51 {
        Some(ErrorKind::EscapedTransform)
    } else if code == 56 {
        Some(ErrorKind::NonEmpty)
    } else if code == 57 {
        Some(ErrorKind::ManyMN)
    } else if code == 59 {
        Some(ErrorKind::HexDigit)
    } else if code == 61 {
        Some(ErrorKind::OctDigit)
    } else if code == 62 {
        Some(ErrorKind::Many0)
    } else if code == 63 {
        Some(ErrorKind::Not)
    } else if code == 64 {
        Some(ErrorKind::Permutation)
    } else if code == 65 {
        Some(ErrorKind::ManyTill)
    } else if code == 66 {
        Some(ErrorKind::Verify)
    } else if code == 67 {
        Some(ErrorKind::TakeTill1)
    } else if code == 69 {
        Some(ErrorKind::TakeWhileMN)
    } else if code == 70 {
        Some(ErrorKind::ParseTo)
    } else if code == 71 {
        Some(ErrorKind::TooLarge)
    } else if code == 72 {
        Some(ErrorKind::Many0Count)
    } else if code == 73 {
        Some(ErrorKind::Many1Count)
    } else if code == 74 {
        Some(ErrorKind::Float)
    } else {
        None
    }
}

/// Distinct error kinds get distinct numbers, each between 1 and 74: the
/// number of a kind gives the kind back.
pub proof fn lemma_error_code_injective(a: ErrorKind, b: ErrorKind)
    ensures
        kind_of_code(kind_code(a)) == Some(a),
        1 <= kind_code(a) <= 74,
        kind_code(a) == kind_code(b) ==> a == b,
{
    assert(kind_of_code(kind_code(a)) == Some(a));
    assert(kind_of_code(kind_code(b)) == Some(b));
}

/// The text that describes each error kind.
pub open spec fn kind_description(kind: ErrorKind) -> Seq<char> {
    match kind {
        ErrorKind::Tag                   => "Tag"@,
        ErrorKind::MapRes                => "Map on Result"@,
        ErrorKind::MapOpt                => "Map on Option"@,
        ErrorKind::Alt                   => "Alternative"@,
        ErrorKind::IsNot                 => "IsNot"@,
        ErrorKind::IsA                   => "IsA"@,
        ErrorKind::SeparatedList         => "Separated list"@,
        ErrorKind::SeparatedNonEmptyList => "Separated non empty list"@,
        ErrorKind::Many0                 => "Many0"@,
        ErrorKind::Many1                 => "Many1"@,
        ErrorKind::Count                 => "Count"@,
        ErrorKind::TakeUntil             => "Take until"@,
        ErrorKind::LengthValue           => "Length followed by value"@,
        ErrorKind::TagClosure            => "Tag closure"@,
        ErrorKind::Alpha                 => "Alphabetic"@,
        ErrorKind::Digit                 => "Digit"@,
        ErrorKind::AlphaNumeric          => "AlphaNumeric"@,
        ErrorKind::Space                 => "Space"@,
        ErrorKind::MultiSpace            => "Multiple spaces"@,
        ErrorKind::LengthValueFn         => "LengthValueFn"@,
        ErrorKind::Eof                   => "End of file"@,
        ErrorKind::Switch                => "Switch"@,
        ErrorKind::TagBits               => "Tag on bitstream"@,
        ErrorKind::OneOf                 => "OneOf"@,
        ErrorKind::NoneOf                => "NoneOf"@,
        ErrorKind::Char                  => "Char"@,
        ErrorKind::CrLf                  => "CrLf"@,
        ErrorKind::RegexpMatch           => "RegexpMatch"@,
        ErrorKind::RegexpMatches         => "RegexpMatches"@,
        ErrorKind::RegexpFind            => "RegexpFind"@,
        ErrorKind::RegexpCapture         => "RegexpCapture"@,
        ErrorKind::RegexpCaptures        => "RegexpCaptures"@,
        ErrorKind::TakeWhile1            => "TakeWhile1"@,
        ErrorKind::Complete              => "Complete"@,
        ErrorKind::Fix                   => "Fix"@,
        ErrorKind::Escaped               => "Escaped"@,
        ErrorKind::EscapedTransform      => "EscapedTransform"@,
        ErrorKind::NonEmpty              => "NonEmpty"@,
        ErrorKind::ManyMN                => "Many(m, n)"@,
        ErrorKind::HexDigit              => "Hexadecimal Digit"@,
        ErrorKind::OctDigit              => "Octal digit"@,
        ErrorKind::Not                   => "Negation"@,
        ErrorKind::Permutation           => "Permutation"@,
        ErrorKind::ManyTill              => "ManyTill"@,
        ErrorKind::Verify                => "predicate verification"@,
        ErrorKind::TakeTill1             => "TakeTill1"@,
        ErrorKind::TakeWhileMN           => "TakeWhileMN"@,
        ErrorKind::ParseTo               => "Parse string to the specified type"@,
        ErrorKind::TooLarge              => "Needed data size is too large"@,
        ErrorKind::Many0Count            => "Count occurrence of >=0 patterns"@,
        ErrorKind::Many1Count            => "Count occurrence of >=1 patterns"@,
        ErrorKind::Float                 => "Float"@,
    }
}

/// Converts an `ErrorKind` to a number.
pub fn error_to_u32(e: &ErrorKind) -> (code: u32)
    ensures
        code == kind_code(*e),
{
    match *e {
        ErrorKind::Tag                   => 1,
        ErrorKind::MapRes                => 2,
        ErrorKind::MapOpt                => 3,
        ErrorKind::Alt                   => 4,
        ErrorKind::IsNot                 => 5,
        ErrorKind::IsA                   => 6,
        ErrorKind::SeparatedList         => 7,
        ErrorKind::SeparatedNonEmptyList => 8,
        ErrorKind::Many1                 => 9,
        ErrorKind::Count                 => 10,
        ErrorKind::TakeUntil             => 12,
        ErrorKind::LengthValue           => 15,
        ErrorKind::TagClosure            => 16,
        ErrorKind::Alpha                 => 17,
        ErrorKind::Digit                 => 18,
        ErrorKind::AlphaNumeric          => 19,
        ErrorKind::Space                 => 20,
        ErrorKind::MultiSpace            => 21,
        ErrorKind::LengthValueFn         => 22,
        ErrorKind::Eof                   => 23,
        ErrorKind::Switch                => 27,
        ErrorKind::TagBits               => 28,
        ErrorKind::OneOf                 => 29,
        ErrorKind::NoneOf                => 30,
        ErrorKind::Char                  => 40,
        ErrorKind::CrLf                  => 41,
        ErrorKind::RegexpMatch           => 42,
        ErrorKind::RegexpMatches         => 43,
        ErrorKind::RegexpFind            => 44,
        ErrorKind::RegexpCapture         => 45,
        ErrorKind::RegexpCaptures        => 46,
        ErrorKind::TakeWhile1            => 47,
        ErrorKind::Complete              => 48,
        ErrorKind::Fix                   => 49,
        ErrorKind::Escaped               => 50,
        ErrorKind::EscapedTransform      => 51,
        ErrorKind::NonEmpty              => 56,
        ErrorKind::ManyMN                => 57,
        ErrorKind::HexDigit              => 59,
        ErrorKind::OctDigit              => 61,
        ErrorKind::Many0                 => 62,
        ErrorKind::Not                   => 63,
        ErrorKind::Permutation           => 64,
        ErrorKind::ManyTill              => 65,
        ErrorKind::Verify                => 66,
        ErrorKind::TakeTill1             => 67,
        ErrorKind::TakeWhileMN           => 69,
        ErrorKind::ParseTo               => 70,
        ErrorKind::TooLarge              => 71,
        ErrorKind::Many0Count            => 72,
        ErrorKind::Many1Count            => 73,
        ErrorKind::Float                 => 74,
    }
}

impl ErrorKind {
    /// Converts an `ErrorKind` to a text description.
    pub fn description(&self) -> (text: &str)
        ensures
            text@ == kind_description(*self),
    {
        match *self {
            ErrorKind::Tag                   => "Tag",
            ErrorKind::MapRes                => "Map on Result",
            ErrorKind::MapOpt                => "Map on Option",
            ErrorKind::Alt                   => "Alternative",
            ErrorKind::IsNot                 => "IsNot",
            ErrorKind::IsA                   => "IsA",
            ErrorKind::SeparatedList         => "Separated list",
            ErrorKind::SeparatedNonEmptyList => "Separated non empty list",
            ErrorKind::Many0                 => "Many0",
            ErrorKind::Many1                 => "Many1",
            ErrorKind::Count                 => "Count",
            ErrorKind::TakeUntil             => "Take until",
            ErrorKind::LengthValue           => "Length followed by value",
            ErrorKind::TagClosure            => "Tag closure",
            ErrorKind::Alpha                 => "Alphabetic",
            ErrorKind::Digit                 => "Digit",
            ErrorKind::AlphaNumeric          => "AlphaNumeric",
            ErrorKind::Space                 => "Space",
            ErrorKind::MultiSpace            => "Multiple spaces",
            ErrorKind::LengthValueFn         => "LengthValueFn",
            ErrorKind::Eof                   => "End of file",
            ErrorKind::Switch                => "Switch",
            ErrorKind::TagBits               => "Tag on bitstream",
            ErrorKind::OneOf                 => "OneOf",
            ErrorKind::NoneOf                => "NoneOf",
            ErrorKind::Char                  => "Char",
            ErrorKind::CrLf                  => "CrLf",
            ErrorKind::RegexpMatch           => "RegexpMatch",
            ErrorKind::RegexpMatches         => "RegexpMatches",
            ErrorKind::RegexpFind            => "RegexpFind",
            ErrorKind::RegexpCapture         => "RegexpCapture",
            ErrorKind::RegexpCaptures        => "RegexpCaptures",
            ErrorKind::TakeWhile1            => "TakeWhile1",
            ErrorKind::Complete              => "Complete",
            ErrorKind::Fix                   => "Fix",
            ErrorKind::Escaped               => "Escaped",
            ErrorKind::EscapedTransform      => "EscapedTransform",
            ErrorKind::NonEmpty              => "NonEmpty",
            ErrorKind::ManyMN                => "Many(m, n)",
            ErrorKind::HexDigit              => "Hexadecimal Digit",
            ErrorKind::OctDigit              => "Octal digit",
            ErrorKind::Not                   => "Negation",
            ErrorKind::Permutation           => "Permutation",
            ErrorKind::ManyTill              => "ManyTill",
            ErrorKind::Verify                => "predicate verification",
            ErrorKind::TakeTill1             => "TakeTill1",
            ErrorKind::TakeWhileMN           => "TakeWhileMN",
            ErrorKind::ParseTo               => "Parse string to the specified type",
            ErrorKind::TooLarge              => "Needed data size is too large",
            ErrorKind::Many0Count            => "Count occurrence of >=0 patterns",
            ErrorKind::Many1Count            => "Count occurrence of >=1 patterns",
            ErrorKind::Float                 => "Float",
        }
    }
}


/// The name of each error kind, as its `Debug` form writes it.
pub open spec fn kind_name(kind: ErrorKind) -> Seq<char> {
    match kind {
        ErrorKind::Tag                   => "Tag"@,
        ErrorKind::MapRes                => "MapRes"@,
        ErrorKind::MapOpt                => "MapOpt"@,
        ErrorKind::Alt                   => "Alt"@,
        ErrorKind::IsNot                 => "IsNot"@,
        ErrorKind::IsA                   => "IsA"@,
        ErrorKind::SeparatedList         => "SeparatedList"@,
        ErrorKind::SeparatedNonEmptyList => "SeparatedNonEmptyList"@,
        ErrorKind::Many0                 => "Many0"@,
        ErrorKind::Many1                 => "Many1"@,
        ErrorKind::ManyTill              => "ManyTill"@,
        ErrorKind::Count                 => "Count"@,
        ErrorKind::TakeUntil             => "TakeUntil"@,
        ErrorKind::LengthValue           => "LengthValue"@,
        ErrorKind::TagClosure            => "TagClosure"@,
        ErrorKind::Alpha                 => "Alpha"@,
        ErrorKind::Digit                 => "Digit"@,
        ErrorKind::HexDigit              => "HexDigit"@,
        ErrorKind::OctDigit              => "OctDigit"@,
        ErrorKind::AlphaNumeric          => "AlphaNumeric"@,
        ErrorKind::Space                 => "Space"@,
        ErrorKind::MultiSpace            => "MultiSpace"@,
        ErrorKind::LengthValueFn         => "LengthValueFn"@,
        ErrorKind::Eof                   => "Eof"@,
        ErrorKind::Switch                => "Switch"@,
        ErrorKind::TagBits               => "TagBits"@,
        ErrorKind::OneOf                 => "OneOf"@,
        ErrorKind::NoneOf                => "NoneOf"@,
        ErrorKind::Char                  => "Char"@,
        ErrorKind::CrLf                  => "CrLf"@,
        ErrorKind::RegexpMatch           => "RegexpMatch"@,
        ErrorKind::RegexpMatches         => "RegexpMatches"@,
        ErrorKind::RegexpFind            => "RegexpFind"@,
        ErrorKind::RegexpCapture         => "RegexpCapture"@,
        ErrorKind::RegexpCaptures        => "RegexpCaptures"@,
        ErrorKind::TakeWhile1            => "TakeWhile1"@,
        ErrorKind::Complete              => "Complete"@,
        ErrorKind::Fix                   => "Fix"@,
        ErrorKind::Escaped               => "Escaped"@,
        ErrorKind::EscapedTransform      => "EscapedTransform"@,
        ErrorKind::NonEmpty              => "NonEmpty"@,
        ErrorKind::ManyMN                => "ManyMN"@,
        ErrorKind::Not                   => "Not"@,
        ErrorKind::Permutation           => "Permutation"@,
        ErrorKind::Verify                => "Verify"@,
        ErrorKind::TakeTill1             => "TakeTill1"@,
        ErrorKind::TakeWhileMN           => "TakeWhileMN"@,
        ErrorKind::ParseTo               => "ParseTo"@,
        ErrorKind::TooLarge              => "TooLarge"@,
        ErrorKind::Many0Count            => "Many0Count"@,
        ErrorKind::Many1Count            => "Many1Count"@,
        ErrorKind::Float                 => "Float"@,
    }
}

/// The name of an error kind, as its `Debug` form writes it.
pub(crate) fn kind_debug_name(kind: &ErrorKind) -> (name: &'static str)
    ensures
        name@ == kind_name(*kind),
{
    match *kind {
        ErrorKind::Tag                   => "Tag",
        ErrorKind::MapRes                => "MapRes",
        ErrorKind::MapOpt                => "MapOpt",
        ErrorKind::Alt                   => "Alt",
        ErrorKind::IsNot                 => "IsNot",
        ErrorKind::IsA                   => "IsA",
        ErrorKind::SeparatedList         => "SeparatedList",
        ErrorKind::SeparatedNonEmptyList => "SeparatedNonEmptyList",
        ErrorKind::Many0                 => "Many0",
        ErrorKind::Many1                 => "Many1",
        ErrorKind::ManyTill              => "ManyTill",
        ErrorKind::Count                 => "Count",
        ErrorKind::TakeUntil             => "TakeUntil",
        ErrorKind::LengthValue           => "LengthValue",
        ErrorKind::TagClosure            => "TagClosure",
        ErrorKind::Alpha                 => "Alpha",
        ErrorKind::Digit                 => "Digit",
        ErrorKind::HexDigit              => "HexDigit",
        ErrorKind::OctDigit              => "OctDigit",
        ErrorKind::AlphaNumeric          => "AlphaNumeric",
        ErrorKind::Space                 => "Space",
        ErrorKind::MultiSpace            => "MultiSpace",
        ErrorKind::LengthValueFn         => "LengthValueFn",
        ErrorKind::Eof                   => "Eof",
        ErrorKind::Switch                => "Switch",
        ErrorKind::TagBits               => "TagBits",
        ErrorKind::OneOf                 => "OneOf",
        ErrorKind::NoneOf                => "NoneOf",
        ErrorKind::Char                  => "Char",
        ErrorKind::CrLf                  => "CrLf",
        ErrorKind::RegexpMatch           => "RegexpMatch",
        ErrorKind::RegexpMatches         => "RegexpMatches",
        ErrorKind::RegexpFind            => "RegexpFind",
        ErrorKind::RegexpCapture         => "RegexpCapture",
        ErrorKind::RegexpCaptures        => "RegexpCaptures",
        ErrorKind::TakeWhile1            => "TakeWhile1",
        ErrorKind::Complete              => "Complete",
        ErrorKind::Fix                   => "Fix",
        ErrorKind::Escaped               => "Escaped",
        ErrorKind::EscapedTransform      => "EscapedTransform",
        ErrorKind::NonEmpty              => "NonEmpty",
        ErrorKind::ManyMN                => "ManyMN",
        ErrorKind::Not                   => "Not",
        ErrorKind::Permutation           => "Permutation",
        ErrorKind::Verify                => "Verify",
        ErrorKind::TakeTill1             => "TakeTill1",
        ErrorKind::TakeWhileMN           => "TakeWhileMN",
        ErrorKind::ParseTo               => "ParseTo",
        ErrorKind::TooLarge              => "TooLarge",
        ErrorKind::Many0Count            => "Many0Count",
        ErrorKind::Many1Count            => "Many1Count",
        ErrorKind::Float                 => "Float",
    }
}

} // verus!

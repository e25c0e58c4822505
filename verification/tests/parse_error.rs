use lib::error::{
    append_error, context, make_error, with_context, ErrorKind, ParseError, VerboseError,
    VerboseErrorKind,
};
use lib::internal::{ErrMode, IResult, Needed};

#[test]
fn tuple_error_is_made_from_position_and_kind() {
    let e: (&str, ErrorKind) = make_error("abc", ErrorKind::Tag);
    assert_eq!(e, ("abc", ErrorKind::Tag));
}

#[test]
fn tuple_error_keeps_the_first_failure() {
    let e: (&str, ErrorKind) = make_error("abc", ErrorKind::Tag);
    let e = append_error("xabc", ErrorKind::Alt, e);
    assert_eq!(e, ("abc", ErrorKind::Tag));
}

#[test]
fn tuple_error_defaults() {
    let e = <(&str, ErrorKind) as ParseError<&str>>::from_char("zz", 'a');
    assert_eq!(e, ("zz", ErrorKind::Char));
    let first = ("a", ErrorKind::Digit);
    let second = ("b", ErrorKind::Alpha);
    assert_eq!(first.or(second), ("b", ErrorKind::Alpha));
    let kept = <(&str, ErrorKind) as ParseError<&str>>::add_context("c", "ctx", ("d", ErrorKind::Eof));
    assert_eq!(kept, ("d", ErrorKind::Eof));
}

#[test]
fn unit_error_records_nothing() {
    let e: () = make_error("abc", ErrorKind::Tag);
    let e2: () = append_error("abc", ErrorKind::Alt, e);
    assert_eq!(e2, ());
}

#[test]
fn verbose_error_accumulates_in_order() {
    let e: VerboseError<&str> = make_error("c", ErrorKind::Digit);
    assert_eq!(e.errors, vec![("c", VerboseErrorKind::Nom(ErrorKind::Digit))]);
    let e = append_error("bc", ErrorKind::Many1, e);
    let e = VerboseError::add_context("abc", "number", e);
    assert_eq!(
        e.errors,
        vec![
            ("c", VerboseErrorKind::Nom(ErrorKind::Digit)),
            ("bc", VerboseErrorKind::Nom(ErrorKind::Many1)),
            ("abc", VerboseErrorKind::Context("number")),
        ]
    );
}

#[test]
fn verbose_error_from_char_and_or() {
    let e = VerboseError::from_char("xyz", 'a');
    assert_eq!(e.errors, vec![("xyz", VerboseErrorKind::Char('a'))]);
    let other: VerboseError<&str> = make_error("q", ErrorKind::Tag);
    let chosen = e.or(other.clone());
    assert_eq!(chosen, other);
}

fn digit_error(i: &str) -> IResult<&str, &str, VerboseError<&str>> {
    Err(ErrMode::Error(VerboseError::from_error_kind(i, ErrorKind::Digit)))
}

fn digit_failure(i: &str) -> IResult<&str, &str, VerboseError<&str>> {
    Err(ErrMode::Failure(VerboseError::from_error_kind(i, ErrorKind::Digit)))
}

fn needs_more(_i: &str) -> IResult<&str, &str, VerboseError<&str>> {
    Err(ErrMode::Incomplete(Needed::Size(3)))
}

fn take_one(i: &str) -> IResult<&str, &str, VerboseError<&str>> {
    Ok((&i[1..], &i[..1]))
}

#[test]
fn context_adds_to_errors() {
    let p = context("number", digit_error);
    assert_eq!(
        p("abc"),
        Err(ErrMode::Error(VerboseError {
            errors: vec![
                ("abc", VerboseErrorKind::Nom(ErrorKind::Digit)),
                ("abc", VerboseErrorKind::Context("number")),
            ],
        }))
    );
}

#[test]
fn context_adds_to_failures() {
    let p = context("number", digit_failure);
    assert_eq!(
        p("abc"),
        Err(ErrMode::Failure(VerboseError {
            errors: vec![
                ("abc", VerboseErrorKind::Nom(ErrorKind::Digit)),
                ("abc", VerboseErrorKind::Context("number")),
            ],
        }))
    );
}

#[test]
fn context_leaves_success_and_incomplete() {
    let p = context("one", take_one);
    assert_eq!(p("abc"), Ok(("bc", "a")));
    let q = context("more", needs_more);
    assert_eq!(q("abc"), Err(ErrMode::Incomplete(Needed::Size(3))));
}

#[test]
fn context_on_tuple_error_keeps_it() {
    let p = context("ctx", |i: &str| -> IResult<&str, &str, (&str, ErrorKind)> {
        Err(ErrMode::Error((i, ErrorKind::Tag)))
    });
    assert_eq!(p("xy"), Err(ErrMode::Error(("xy", ErrorKind::Tag))));
}

#[test]
fn with_context_on_a_result() {
    let before: IResult<&str, u8, VerboseError<&str>> =
        Err(ErrMode::Error(make_error("z", ErrorKind::Eof)));
    let after = with_context("yz", "tail", before);
    assert_eq!(
        after,
        Err(ErrMode::Error(VerboseError {
            errors: vec![
                ("z", VerboseErrorKind::Nom(ErrorKind::Eof)),
                ("yz", VerboseErrorKind::Context("tail")),
            ],
        }))
    );
    let ok: IResult<&str, u8, VerboseError<&str>> = Ok(("", 7));
    assert_eq!(with_context("q", "tail", ok), Ok(("", 7)));
}

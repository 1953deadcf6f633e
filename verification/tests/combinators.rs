use hurl_runner::combinators::{choice, zero_or_more, ParseErrorKind};
use hurl_runner::error::Pos;
use hurl_runner::primitives::CharMatcher;
use hurl_runner::reader::Reader;

fn reader_of(text: &str) -> Reader {
    Reader::new(text.chars().collect())
}

#[test]
fn choice_backtracks_over_recoverable_failures() {
    // The first two alternatives fail recoverably and consume no net input;
    // the position after the call is the position before plus what the last
    // alternative consumes.
    let mut r = reader_of("7xy");
    let before = r.state;
    let fs = vec![
        CharMatcher::Literal('a'),
        CharMatcher::Literal('b'),
        CharMatcher::Digit,
    ];
    let result = choice(&fs, &mut r);
    assert_eq!(result, Ok('7'));
    assert_eq!(r.state.cursor, before.cursor + 1);
    assert_eq!(r.state.pos, Pos { line: 1, column: 2 });
}

#[test]
fn choice_holds_for_any_ordering_of_recoverable_failures() {
    let mut r1 = reader_of("7xy");
    let mut r2 = reader_of("7xy");
    let fs1 = vec![
        CharMatcher::Literal('a'),
        CharMatcher::Literal('b'),
        CharMatcher::Digit,
    ];
    let fs2 = vec![
        CharMatcher::Literal('b'),
        CharMatcher::Literal('a'),
        CharMatcher::Digit,
    ];
    assert_eq!(choice(&fs1, &mut r1), Ok('7'));
    assert_eq!(choice(&fs2, &mut r2), Ok('7'));
    assert_eq!(r1.state, r2.state);
}

#[test]
fn choice_returns_the_last_alternative_verbatim() {
    let mut r = reader_of("c");
    let before = r.state;
    let fs = vec![CharMatcher::Literal('a'), CharMatcher::Literal('b')];
    let result = choice(&fs, &mut r);
    let err = result.unwrap_err();
    assert!(err.recoverable);
    assert_eq!(err.kind, ParseErrorKind::ExpectingChar('b'));
    assert_eq!(r.state, before);
}

#[test]
fn choice_takes_the_first_success() {
    let mut r = reader_of("ab");
    let fs = vec![CharMatcher::Literal('a'), CharMatcher::Literal('b')];
    assert_eq!(choice(&fs, &mut r), Ok('a'));
    assert_eq!(r.state.cursor, 1);
}

#[test]
fn zero_or_more_collects_until_the_first_recoverable_failure() {
    let mut r = reader_of("123ab");
    let result = zero_or_more(&CharMatcher::Digit, &mut r);
    assert_eq!(result, Ok(vec!['1', '2', '3']));
    assert_eq!(r.state.cursor, 3);
}

#[test]
fn zero_or_more_returns_ok_on_no_match() {
    let mut r = reader_of("abc");
    let before = r.state;
    let result = zero_or_more(&CharMatcher::Digit, &mut r);
    assert_eq!(result, Ok(vec![]));
    assert_eq!(r.state, before);
}

#[test]
fn zero_or_more_stops_at_end_of_input() {
    let mut r = reader_of("42");
    let result = zero_or_more(&CharMatcher::Digit, &mut r);
    assert_eq!(result, Ok(vec!['4', '2']));
    assert!(r.is_eof());
}

#[test]
fn reader_tracks_lines_and_columns() {
    let mut r = reader_of("a\nb");
    assert_eq!(r.read(), 'a');
    assert_eq!(r.state.pos, Pos { line: 1, column: 2 });
    assert_eq!(r.read(), '\n');
    assert_eq!(r.state.pos, Pos { line: 2, column: 1 });
    assert_eq!(r.read(), 'b');
    assert_eq!(r.state.pos, Pos { line: 2, column: 2 });
    assert!(r.is_eof());
}

//! Atomic parse functions over single characters.
//!
//! These are the leaves a grammar is built from with the combinators: each one
//! consumes exactly one character on success and fails recoverably without
//! consuming anything otherwise.

use vstd::prelude::*;

use crate::combinators::ParseError;
use crate::combinators::ParseErrorKind;
use crate::combinators::ParseFunc;
use crate::combinators::fatal_failure;
use crate::combinators::lemma_zero_or_more_is_ok;
use crate::combinators::spec_zero_or_more;
use crate::reader::Reader;
use crate::reader::ReaderState;
use crate::reader::advanced;
use crate::reader::valid_state;

verus! {

/// A single-character parse function: either one exact character, or any
/// decimal digit.
#[derive(Clone, Copy, PartialEq, Eq, Structural, Debug)]
pub enum CharMatcher {
    /// exactly the given character
    Literal(char),
    /// any ascii decimal digit
    Digit,
}

impl CharMatcher {
    /// Whether this matcher accepts the character.
    pub open spec fn accepts(&self, c: char) -> bool {
        match *self {
            CharMatcher::Literal(l) => c == l,
            CharMatcher::Digit => '0' <= c && c <= '9',
        }
    }

    /// The error kind reported when the character at the cursor is rejected.
    pub open spec fn rejection(&self) -> ParseErrorKind {
        match *self {
            CharMatcher::Literal(l) => ParseErrorKind::ExpectingChar(l),
            CharMatcher::Digit => ParseErrorKind::ExpectingDigit,
        }
    }
}

impl ParseFunc<char> for CharMatcher {
    open spec fn result_of(&self, input: Seq<char>, st: ReaderState) -> (ReaderState, Result<
        char,
        ParseError,
    >) {
        if st.cursor >= input.len() {
            (st, Err(ParseError { pos: st.pos, recoverable: true, kind: ParseErrorKind::Eof }))
        } else {
            let c = input[st.cursor as int];
            if self.accepts(c) {
                (advanced(st, c), Ok(c))
            } else {
                (st, Err(ParseError { pos: st.pos, recoverable: true, kind: self.rejection() }))
            }
        }
    }

    proof fn result_wf(&self, input: Seq<char>, st: ReaderState) {
    }

    fn apply(&self, p: &mut Reader) -> (res: Result<char, ParseError>) {
        if p.is_eof() {
            return Err(
                ParseError { pos: p.state.pos, recoverable: true, kind: ParseErrorKind::Eof },
            );
        }
        let c = p.peek();
        let accepted = match self {
            CharMatcher::Literal(l) => c == *l,
            CharMatcher::Digit => '0' <= c && c <= '9',
        };
        if accepted {
            let c2 = p.read();
            Ok(c2)
        } else {
            let kind = match self {
                CharMatcher::Literal(l) => ParseErrorKind::ExpectingChar(*l),
                CharMatcher::Digit => ParseErrorKind::ExpectingDigit,
            };
            Err(ParseError { pos: p.state.pos, recoverable: true, kind })
        }
    }
}

/// A single-character parse function only ever fails recoverably, so
/// repeating one with `zero_or_more` always succeeds: it returns the matches
/// collected up to the first character it rejects, never an error.
pub proof fn lemma_zero_or_more_char_matcher_ok(
    m: CharMatcher,
    input: Seq<char>,
    st: ReaderState,
)
    requires
        valid_state(st, input),
    ensures
        spec_zero_or_more(m, input, st).1 is Ok,
{
    assert forall|st2: ReaderState| valid_state(st2, input) implies !fatal_failure(
        (#[trigger] m.result_of(input, st2)).1,
    ) by {}
    lemma_zero_or_more_is_ok(m, input, st);
}

} // verus!

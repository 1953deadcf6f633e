//! Generic backtracking parser combinators.
//!
//! A parse function consumes characters from a `Reader` and either succeeds or
//! fails with a `ParseError`. A recoverable failure means "no input was
//! meaningfully consumed, try the next alternative"; a non-recoverable failure
//! means "an alternative was committed, fail the whole parse". That flag, not
//! the error kind, drives backtracking.

use vstd::prelude::*;

use crate::error::Pos;
use crate::reader::Reader;
use crate::reader::ReaderState;
use crate::reader::valid_state;

verus! {

/// A grammar-level parse error: where it happened, what was expected, and
/// whether the failure is recoverable (a routing signal for backtracking) or
/// fatal (a user-facing syntax error).
#[derive(Clone, Copy, PartialEq, Eq, Structural, Debug)]
pub struct ParseError {
    pub pos: Pos,
    pub recoverable: bool,
    pub kind: ParseErrorKind,
}

/// What a failed atomic parse function expected to find.
#[derive(Clone, Copy, PartialEq, Eq, Structural, Debug)]
pub enum ParseErrorKind {
    /// end of input where a token was expected
    Eof,
    /// the given character was expected at the cursor
    ExpectingChar(char),
    /// a decimal digit was expected at the cursor
    ExpectingDigit,
}

pub type ParseResult<T> = Result<T, ParseError>;

/// The parse result is a recoverable failure.
pub open spec fn recoverable_failure<T>(r: Result<T, ParseError>) -> bool {
    r matches Err(e) && e.recoverable
}

/// The parse result is a non-recoverable failure.
pub open spec fn fatal_failure<T>(r: Result<T, ParseError>) -> bool {
    r matches Err(e) && !e.recoverable
}

/// An atomic parse function, the unit the combinators operate on.
///
/// Each parse function is deterministic: `result_of` is its mathematical
/// meaning, and `apply` must realize it on the reader. On success a parse
/// function must consume at least one character — the obligation that keeps
/// repetition combinators terminating.
pub trait ParseFunc<T> {
    /// The meaning of the parse function: from the input and a start state to
    /// the end state and the parse result.
    spec fn result_of(&self, input: Seq<char>, st: ReaderState) -> (ReaderState, Result<
        T,
        ParseError,
    >);

    /// From a valid state a parse function reaches a valid state, and success
    /// consumes at least one character.
    proof fn result_wf(&self, input: Seq<char>, st: ReaderState)
        requires
            valid_state(st, input),
        ensures
            valid_state(self.result_of(input, st).0, input),
            self.result_of(input, st).1 is Ok ==> self.result_of(input, st).0.cursor > st.cursor,
    ;

    /// Runs the parse function on the reader.
    fn apply(&self, p: &mut Reader) -> (res: Result<T, ParseError>)
        requires
            old(p).wf(),
        ensures
            final(p).buffer@ == old(p).buffer@,
            (final(p).state, res) == self.result_of(old(p).buffer@, old(p).state),
    ;
}

/// The meaning of `zero_or_more`: repeatedly apply the parse function until
/// end of input or a recoverable failure (which restores the state held before
/// the failed attempt), collecting the results; a non-recoverable failure is
/// propagated with the reader left where the failure left it.
pub open spec fn spec_zero_or_more<T, F: ParseFunc<T>>(
    f: F,
    input: Seq<char>,
    st: ReaderState,
) -> (ReaderState, Result<Seq<T>, ParseError>)
    decreases input.len() - st.cursor
        when valid_state(st, input)
        via spec_zero_or_more_dec::<T, F>
{
    if st.cursor >= input.len() {
        (st, Ok(Seq::empty()))
    } else {
        let (st2, r) = f.result_of(input, st);
        match r {
            Ok(t) => {
                let (st3, rest) = spec_zero_or_more(f, input, st2);
                match rest {
                    Ok(items) => (st3, Ok(seq![t] + items)),
                    Err(e) => (st3, Err(e)),
                }
            },
            Err(e) => if e.recoverable {
                (st, Ok(Seq::empty()))
            } else {
                (st2, Err(e))
            },
        }
    }
}

#[via_fn]
proof fn spec_zero_or_more_dec<T, F: ParseFunc<T>>(f: F, input: Seq<char>, st: ReaderState) {
    if valid_state(st, input) && st.cursor < input.len() {
        f.result_wf(input, st);
    }
}

/// Repeatedly applies `f`. On end of input, returns the accumulated list. On
/// a recoverable failure, restores the reader to the position held before the
/// failed attempt and returns the list collected so far — success, not
/// failure. On a non-recoverable failure, propagates it immediately.
///
/// Always terminates, and an `Err` can only be a non-recoverable failure of
/// `f`.
pub fn zero_or_more<T, F: ParseFunc<T>>(f: &F, p: &mut Reader) -> (res: ParseResult<Vec<T>>)
    requires
        old(p).wf(),
    ensures
        final(p).wf(),
        final(p).buffer@ == old(p).buffer@,
        ({
            let (st, r) = spec_zero_or_more(*f, old(p).buffer@, old(p).state);
            &&& final(p).state == st
            &&& (match (res, r) {
                (Ok(v), Ok(items)) => v@ == items,
                (Err(e1), Err(e2)) => e1 == e2,
                _ => false,
            })
        }),
        res matches Err(e) ==> !e.recoverable,
{
    let ghost input = p.buffer@;
    let ghost st0 = p.state;

    let mut v: Vec<T> = Vec::new();
    loop
        invariant
            input == old(p).buffer@,
            st0 == old(p).state,
            p.wf(),
            p.buffer@ == input,
            ({
                let (stw, rw) = spec_zero_or_more(*f, input, st0);
                let (stc, rc) = spec_zero_or_more(*f, input, p.state);
                &&& stw == stc
                &&& (match rc {
                    Ok(items) => rw == Ok::<Seq<T>, ParseError>(v@ + items),
                    Err(e) => rw == Err::<Seq<T>, ParseError>(e),
                })
            }),
        decreases input.len() - p.state.cursor,
    {
        let ghost initial = p.state;
        let initial_state = p.state;
        if p.is_eof() {
            proof {
                assert(v@ + Seq::<T>::empty() =~= v@);
            }
            return Ok(v);
        }

        let attempt = f.apply(p);
        proof {
            f.result_wf(input, initial);
        }
        match attempt {
            Ok(r) => {
                let ghost v_old = v@;
                v.push(r);
                proof {
                    let (st3, rest) = spec_zero_or_more(*f, input, p.state);
                    if rest is Ok {
                        assert((v@ + rest->Ok_0) =~= (v_old + (seq![r] + rest->Ok_0)));
                    }
                }
            },
            Err(e) => {
                if e.recoverable {
                    p.state.pos = initial_state.pos;
                    p.state.cursor = initial_state.cursor;
                    assert(p.state == initial);
                    return Ok(v);
                } else {
                    return Err(e);
                }
            },
        }
    }
}

/// The meaning of `choice`: the alternatives are tried left to right; a
/// recoverable failure of any alternative but the last restores the start
/// state and moves on, while the last alternative's result — success or
/// failure, recoverable or not — stands verbatim.
pub open spec fn spec_choice<T, F: ParseFunc<T>>(
    fs: Seq<F>,
    input: Seq<char>,
    st: ReaderState,
) -> (ReaderState, Result<T, ParseError>)
    recommends
        fs.len() > 0,
    decreases fs.len(),
{
    let (st2, r) = fs[0].result_of(input, st);
    if fs.len() <= 1 {
        (st2, r)
    } else {
        if recoverable_failure(r) {
            spec_choice(fs.skip(1), input, st)
        } else {
            (st2, r)
        }
    }
}

/// Tries to apply the list of parse functions `fs` until one of them succeeds.
///
/// For every alternative except the last: on success, its result is returned;
/// on a recoverable failure, the reader state is restored to what it was
/// before that alternative was attempted and the next one is tried; on a
/// non-recoverable failure, that failure is returned without trying further
/// alternatives. The last alternative's result is returned verbatim.
///
/// The alternative list must not be empty: that is a programming-contract
/// violation, not a recoverable parse error.
pub fn choice<T, F: ParseFunc<T>>(fs: &[F], reader: &mut Reader) -> (res: ParseResult<T>)
    requires
        old(reader).wf(),
        fs@.len() > 0,
    ensures
        final(reader).wf(),
        final(reader).buffer@ == old(reader).buffer@,
        (final(reader).state, res) == spec_choice(fs@, old(reader).buffer@, old(reader).state),
{
    let ghost input = reader.buffer@;
    let ghost st0 = reader.state;

    let mut pos: usize = 0;
    proof {
        assert(fs@.skip(0) =~= fs@);
    }
    loop
        invariant
            input == old(reader).buffer@,
            st0 == old(reader).state,
            fs@.len() > 0,
            reader.wf(),
            reader.buffer@ == input,
            reader.state == st0,
            0 <= pos < fs@.len(),
            spec_choice(fs@, input, st0) == spec_choice(fs@.skip(pos as int), input, st0),
        decreases fs@.len() - pos,
    {
        let start = reader.state;
        if pos == fs.len() - 1 {
            let r = fs[pos].apply(reader);
            proof {
                fs@[pos as int].result_wf(input, st0);
                assert(fs@.skip(pos as int)[0] == fs@[pos as int]);
            }
            return r;
        }
        match fs[pos].apply(reader) {
            Ok(t) => {
                proof {
                    fs@[pos as int].result_wf(input, st0);
                    assert(fs@.skip(pos as int)[0] == fs@[pos as int]);
                }
                return Ok(t);
            },
            Err(e) => {
                if e.recoverable {
                    reader.state = start;
                    proof {
                        assert(fs@.skip(pos as int)[0] == fs@[pos as int]);
                        assert(fs@.skip(pos as int).skip(1) =~= fs@.skip(pos as int + 1));
                    }
                    pos = pos + 1;
                } else {
                    proof {
                        fs@[pos as int].result_wf(input, st0);
                        assert(fs@.skip(pos as int)[0] == fs@[pos as int]);
                    }
                    return Err(e);
                }
            },
        }
    }
}

/// If every alternative before the last fails recoverably on this input and
/// state, then `choice` behaves exactly as the last alternative run from the
/// original state: the reader ends where that alternative alone leaves it,
/// whatever the ordering of the recoverable failures before it.
pub proof fn lemma_choice_backtracks_to_last<T, F: ParseFunc<T>>(
    fs: Seq<F>,
    input: Seq<char>,
    st: ReaderState,
)
    requires
        fs.len() > 0,
        forall|i: int|
            0 <= i < fs.len() - 1 ==> recoverable_failure(
                (#[trigger] fs[i].result_of(input, st)).1,
            ),
    ensures
        spec_choice(fs, input, st) == fs[fs.len() - 1].result_of(input, st),
    decreases fs.len(),
{
    if fs.len() > 1 {
        assert(recoverable_failure(fs[0].result_of(input, st).1));
        assert forall|i: int| 0 <= i < fs.skip(1).len() - 1 implies recoverable_failure(
            (#[trigger] fs.skip(1)[i].result_of(input, st)).1,
        ) by {
            assert(fs.skip(1)[i] == fs[i + 1]);
        }
        lemma_choice_backtracks_to_last(fs.skip(1), input, st);
        assert(fs.skip(1)[fs.skip(1).len() - 1] == fs[fs.len() - 1]);
    }
}

/// When the parse function never fails non-recoverably anywhere on this
/// input, `zero_or_more` returns `Ok` — every failure of `f` is then a
/// recoverable one, which ends the repetition successfully.
pub proof fn lemma_zero_or_more_is_ok<T, F: ParseFunc<T>>(f: F, input: Seq<char>, st: ReaderState)
    requires
        valid_state(st, input),
        forall|st2: ReaderState|
            valid_state(st2, input) ==> !fatal_failure((#[trigger] f.result_of(input, st2)).1),
    ensures
        spec_zero_or_more(f, input, st).1 is Ok,
    decreases input.len() - st.cursor,
{
    if st.cursor < input.len() {
        f.result_wf(input, st);
        let (st2, r) = f.result_of(input, st);
        if r is Ok {
            lemma_zero_or_more_is_ok(f, input, st2);
        }
    }
}

} // verus!

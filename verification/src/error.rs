//! Source positions and the evaluation-level error type.
//!
//! A `RunnerError` carries the exact position of the construct that is wrong,
//! a tagged kind, and a flag saying whether it arose while evaluating an
//! assertion. The spec-level mirror types (`RunnerErrorV`, `RunnerErrorKindV`)
//! state the same data over `Seq<char>`, so that contracts can describe error
//! values exactly.

use vstd::prelude::*;

verus! {

/// A position in the source text: 1-based line and column.
#[derive(Clone, Copy, PartialEq, Eq, Structural, Debug)]
pub struct Pos {
    pub line: usize,
    pub column: usize,
}

impl Pos {
    pub fn new(line: usize, column: usize) -> (p: Pos)
        ensures
            p.line == line,
            p.column == column,
    {
        Pos { line, column }
    }
}

/// The position range of one construct in the source text.
#[derive(Clone, Copy, PartialEq, Eq, Structural, Debug)]
pub struct SourceInfo {
    pub start: Pos,
    pub end: Pos,
}

impl SourceInfo {
    pub fn new(start: Pos, end: Pos) -> (s: SourceInfo)
        ensures
            s.start == start,
            s.end == end,
    {
        SourceInfo { start, end }
    }
}

/// The taxonomy of evaluation-level errors.
#[derive(Debug, PartialEq)]
pub enum RunnerErrorKind {
    AssertVersion { actual: String },
    AssertStatus { actual: String },
    AssertHeaderValueError { actual: String },
    AssertBodyValueError { actual: String, expected: String },
    AssertFailure { actual: String, expected: String },
    FilterMissingInput,
    FilterInvalidInput { kind: String },
    QueryInvalidXml,
    QueryInvalidXpathEval,
    TemplateVariableNotDefined { name: String },
}

/// Spec-level mirror of `RunnerErrorKind`, over sequences of characters.
pub enum RunnerErrorKindV {
    AssertVersion { actual: Seq<char> },
    AssertStatus { actual: Seq<char> },
    AssertHeaderValueError { actual: Seq<char> },
    AssertBodyValueError { actual: Seq<char>, expected: Seq<char> },
    AssertFailure { actual: Seq<char>, expected: Seq<char> },
    FilterMissingInput,
    FilterInvalidInput { kind: Seq<char> },
    QueryInvalidXml,
    QueryInvalidXpathEval,
    TemplateVariableNotDefined { name: Seq<char> },
}

impl View for RunnerErrorKind {
    type V = RunnerErrorKindV;

    open spec fn view(&self) -> RunnerErrorKindV {
        match self {
            RunnerErrorKind::AssertVersion { actual } => RunnerErrorKindV::AssertVersion {
                actual: actual@,
            },
            RunnerErrorKind::AssertStatus { actual } => RunnerErrorKindV::AssertStatus {
                actual: actual@,
            },
            RunnerErrorKind::AssertHeaderValueError { actual } => {
                RunnerErrorKindV::AssertHeaderValueError { actual: actual@ }
            },
            RunnerErrorKind::AssertBodyValueError { actual, expected } => {
                RunnerErrorKindV::AssertBodyValueError { actual: actual@, expected: expected@ }
            },
            RunnerErrorKind::AssertFailure { actual, expected } => {
                RunnerErrorKindV::AssertFailure { actual: actual@, expected: expected@ }
            },
            RunnerErrorKind::FilterMissingInput => RunnerErrorKindV::FilterMissingInput,
            RunnerErrorKind::FilterInvalidInput { kind } => RunnerErrorKindV::FilterInvalidInput {
                kind: kind@,
            },
            RunnerErrorKind::QueryInvalidXml => RunnerErrorKindV::QueryInvalidXml,
            RunnerErrorKind::QueryInvalidXpathEval => RunnerErrorKindV::QueryInvalidXpathEval,
            RunnerErrorKind::TemplateVariableNotDefined { name } => {
                RunnerErrorKindV::TemplateVariableNotDefined { name: name@ }
            },
        }
    }
}

impl Clone for RunnerErrorKind {
    fn clone(&self) -> (res: Self)
        ensures
            res@ == self@,
    {
        match self {
            RunnerErrorKind::AssertVersion { actual } => RunnerErrorKind::AssertVersion {
                actual: actual.clone(),
            },
            RunnerErrorKind::AssertStatus { actual } => RunnerErrorKind::AssertStatus {
                actual: actual.clone(),
            },
            RunnerErrorKind::AssertHeaderValueError { actual } => {
                RunnerErrorKind::AssertHeaderValueError { actual: actual.clone() }
            },
            RunnerErrorKind::AssertBodyValueError { actual, expected } => {
                RunnerErrorKind::AssertBodyValueError {
                    actual: actual.clone(),
                    expected: expected.clone(),
                }
            },
            RunnerErrorKind::AssertFailure { actual, expected } => {
                RunnerErrorKind::AssertFailure {
                    actual: actual.clone(),
                    expected: expected.clone(),
                }
            },
            RunnerErrorKind::FilterMissingInput => RunnerErrorKind::FilterMissingInput,
            RunnerErrorKind::FilterInvalidInput { kind } => RunnerErrorKind::FilterInvalidInput {
                kind: kind.clone(),
            },
            RunnerErrorKind::QueryInvalidXml => RunnerErrorKind::QueryInvalidXml,
            RunnerErrorKind::QueryInvalidXpathEval => RunnerErrorKind::QueryInvalidXpathEval,
            RunnerErrorKind::TemplateVariableNotDefined { name } => {
                RunnerErrorKind::TemplateVariableNotDefined { name: name.clone() }
            },
        }
    }
}

/// An evaluation-level error: the position of the wrong construct, the kind,
/// and whether the error arose while evaluating an assertion.
#[derive(Debug, PartialEq)]
pub struct RunnerError {
    pub source_info: SourceInfo,
    pub kind: RunnerErrorKind,
    pub in_assert: bool,
}

/// Spec-level mirror of `RunnerError`.
pub struct RunnerErrorV {
    pub source_info: SourceInfo,
    pub kind: RunnerErrorKindV,
    pub in_assert: bool,
}

impl View for RunnerError {
    type V = RunnerErrorV;

    open spec fn view(&self) -> RunnerErrorV {
        RunnerErrorV { source_info: self.source_info, kind: self.kind@, in_assert: self.in_assert }
    }
}

impl Clone for RunnerError {
    fn clone(&self) -> (res: Self)
        ensures
            res@ == self@,
    {
        RunnerError {
            source_info: self.source_info,
            kind: self.kind.clone(),
            in_assert: self.in_assert,
        }
    }
}

impl RunnerError {
    pub fn new(source_info: SourceInfo, kind: RunnerErrorKind, in_assert: bool) -> (e: RunnerError)
        ensures
            e.source_info == source_info,
            e.kind == kind,
            e.in_assert == in_assert,
    {
        RunnerError { source_info, kind, in_assert }
    }
}

} // verus!

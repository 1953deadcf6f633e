//! Assertion results and the explicit-assert pipeline.
//!
//! Each assertion of the script yields exactly one `AssertResult` variant;
//! `error()` and `line()` are pure derived views of it and never mutate
//! state.

use vstd::prelude::*;

use crate::error::RunnerError;
use crate::error::RunnerErrorKind;
use crate::error::RunnerErrorKindV;
use crate::error::RunnerErrorV;
use crate::error::SourceInfo;
use crate::expr::Variables;
use crate::filter::Filter;
use crate::filter::eval_filters;
use crate::filter::spec_eval_filters;
use crate::num::dec_rep;
use crate::predicate::Predicate;
use crate::predicate::eval_predicate;
use crate::predicate::spec_eval_predicate;
use crate::num::u64_to_string;
use crate::value::Value;
use crate::value::ValueV;
use crate::value::value_eq;

verus! {

/// The outcome of one evaluated assertion, one variant per assertion kind.
#[derive(Debug, PartialEq)]
pub enum AssertResult {
    Version { actual: String, expected: String, source_info: SourceInfo },
    Status { actual: u64, expected: u64, source_info: SourceInfo },
    Header { actual: Result<String, RunnerError>, expected: String, source_info: SourceInfo },
    Body {
        actual: Result<Value, RunnerError>,
        expected: Result<Value, RunnerError>,
        source_info: SourceInfo,
    },
    Explicit {
        actual: Result<Option<Value>, RunnerError>,
        source_info: SourceInfo,
        predicate_result: Option<Result<(), RunnerError>>,
    },
}

impl AssertResult {
    /// The meaning of `error()`, one case per assertion kind:
    /// - Version passes when the expected version is the wildcard `HTTP` or
    ///   `HTTP/*`, or equals the actual version;
    /// - Status passes on integer equality;
    /// - Header propagates a failed header lookup, else compares the strings;
    /// - Body propagates whichever side failed (expected checked first), else
    ///   compares the values structurally;
    /// - Explicit propagates a query or filter error, else the predicate's.
    pub open spec fn spec_error(&self) -> Option<RunnerErrorV> {
        match self {
            AssertResult::Version { actual, expected, source_info } => {
                if expected@ == "HTTP"@ || expected@ == "HTTP/*"@ || actual@ == expected@ {
                    None
                } else {
                    Some(
                        RunnerErrorV {
                            source_info: *source_info,
                            kind: RunnerErrorKindV::AssertVersion { actual: actual@ },
                            in_assert: false,
                        },
                    )
                }
            },
            AssertResult::Status { actual, expected, source_info } => {
                if actual == expected {
                    None
                } else {
                    Some(
                        RunnerErrorV {
                            source_info: *source_info,
                            kind: RunnerErrorKindV::AssertStatus { actual: dec_rep(*actual as int) },
                            in_assert: false,
                        },
                    )
                }
            },
            AssertResult::Header { actual, expected, source_info } => {
                match actual {
                    Err(e) => Some(e@),
                    Ok(s) => {
                        if s@ == expected@ {
                            None
                        } else {
                            Some(
                                RunnerErrorV {
                                    source_info: *source_info,
                                    kind: RunnerErrorKindV::AssertHeaderValueError { actual: s@ },
                                    in_assert: false,
                                },
                            )
                        }
                    },
                }
            },
            AssertResult::Body { actual, expected, source_info } => {
                match expected {
                    Err(e) => Some(e@),
                    Ok(expected_value) => match actual {
                        Err(e) => Some(e@),
                        Ok(actual_value) => {
                            if actual_value@ == expected_value@ {
                                None
                            } else {
                                Some(
                                    RunnerErrorV {
                                        source_info: *source_info,
                                        kind: RunnerErrorKindV::AssertBodyValueError {
                                            actual: actual_value@.rendered(),
                                            expected: expected_value@.rendered(),
                                        },
                                        in_assert: false,
                                    },
                                )
                            }
                        },
                    },
                }
            },
            AssertResult::Explicit { actual, predicate_result, .. } => {
                match actual {
                    Err(e) => Some(e@),
                    Ok(_) => match predicate_result {
                        Some(Err(e)) => Some(e@),
                        _ => None,
                    },
                }
            },
        }
    }

    /// Evaluates the assertion: `None` when it passed, the error when it
    /// failed.
    pub fn error(&self) -> (r: Option<RunnerError>)
        ensures
            match (r, self.spec_error()) {
                (Some(e), Some(ev)) => e@ == ev,
                (None, None) => true,
                _ => false,
            },
    {
        match self {
            AssertResult::Version { actual, expected, source_info } => {
                let http = String::from_str("HTTP");
                let http_wildcard = String::from_str("HTTP/*");
                if expected.eq(&http) || expected.eq(&http_wildcard) || actual.eq(expected) {
                    None
                } else {
                    let kind = RunnerErrorKind::AssertVersion { actual: actual.clone() };
                    Some(RunnerError::new(*source_info, kind, false))
                }
            },
            AssertResult::Status { actual, expected, source_info } => {
                if actual == expected {
                    None
                } else {
                    let kind = RunnerErrorKind::AssertStatus { actual: u64_to_string(*actual) };
                    Some(RunnerError::new(*source_info, kind, false))
                }
            },
            AssertResult::Header { actual, expected, source_info } => {
                match actual {
                    Err(e) => Some(e.clone()),
                    Ok(s) => {
                        if s.eq(expected) {
                            None
                        } else {
                            let kind = RunnerErrorKind::AssertHeaderValueError {
                                actual: s.clone(),
                            };
                            Some(RunnerError::new(*source_info, kind, false))
                        }
                    },
                }
            },
            AssertResult::Body { actual, expected, source_info } => {
                match expected {
                    Err(e) => Some(e.clone()),
                    Ok(expected_value) => match actual {
                        Err(e) => Some(e.clone()),
                        Ok(actual_value) => {
                            if value_eq(actual_value, expected_value) {
                                None
                            } else {
                                let kind = RunnerErrorKind::AssertBodyValueError {
                                    actual: actual_value.render(),
                                    expected: expected_value.render(),
                                };
                                Some(RunnerError::new(*source_info, kind, false))
                            }
                        },
                    },
                }
            },
            AssertResult::Explicit { actual, predicate_result, .. } => {
                match actual {
                    Err(e) => Some(e.clone()),
                    Ok(_) => match predicate_result {
                        Some(Err(e)) => Some(e.clone()),
                        _ => None,
                    },
                }
            },
        }
    }

    /// The source line of the assertion, for report positioning.
    pub open spec fn spec_line(&self) -> usize {
        match self {
            AssertResult::Version { source_info, .. } => source_info.start.line,
            AssertResult::Status { source_info, .. } => source_info.start.line,
            AssertResult::Header { source_info, .. } => source_info.start.line,
            AssertResult::Body { source_info, .. } => source_info.start.line,
            AssertResult::Explicit { source_info, .. } => source_info.start.line,
        }
    }

    pub fn line(&self) -> (l: usize)
        ensures
            l == self.spec_line(),
    {
        match self {
            AssertResult::Version { source_info, .. } => source_info.start.line,
            AssertResult::Status { source_info, .. } => source_info.start.line,
            AssertResult::Header { source_info, .. } => source_info.start.line,
            AssertResult::Body { source_info, .. } => source_info.start.line,
            AssertResult::Explicit { source_info, .. } => source_info.start.line,
        }
    }
}

/// An explicit `assert` of the script: the filter chain applied to the
/// query's result, and the predicate checked against what comes out. The
/// query itself is evaluated by a collaborator; its result comes in as a
/// value.
pub struct Assert {
    pub filters: Vec<Filter>,
    pub predicate: Predicate,
}

/// The view of a query or filter-chain result.
pub open spec fn result_view(r: &Result<Option<Value>, RunnerError>) -> Result<
    Option<ValueV>,
    RunnerErrorV,
> {
    match r {
        Ok(Some(v)) => Ok(Some(v@)),
        Ok(None) => Ok(None),
        Err(e) => Err(e@),
    }
}

/// The meaning of the actual side of an explicit assert: with no filters the
/// query's result stands as-is, errors included; with filters, a query error
/// propagates untouched, a query that produced nothing fails with
/// `FilterMissingInput` at the first filter, and otherwise the chain applies
/// in order.
pub open spec fn spec_assert_actual(
    assertion: &Assert,
    query_result: &Result<Option<Value>, RunnerError>,
) -> Result<Option<ValueV>, RunnerErrorV> {
    if assertion.filters@.len() == 0 {
        result_view(query_result)
    } else {
        match query_result {
            Err(e) => Err(e@),
            Ok(None) => Err(
                RunnerErrorV {
                    source_info: assertion.filters@[0].source_info,
                    kind: RunnerErrorKindV::FilterMissingInput,
                    in_assert: true,
                },
            ),
            Ok(Some(v)) => spec_eval_filters(assertion.filters@, v@, true),
        }
    }
}

/// Evaluates an explicit `assert`, given the variable environment and the
/// query's already-evaluated result: applies the filter chain (per
/// `spec_assert_actual`), then the predicate — but only if the chained result
/// is `Ok`; a query or filter error short-circuits predicate evaluation
/// entirely and leaves `predicate_result` as `None`.
pub fn eval_explicit_assert(
    assertion: &Assert,
    variables: &Variables,
    query_result: Result<Option<Value>, RunnerError>,
) -> (r: AssertResult)
    ensures
        r matches AssertResult::Explicit { actual, source_info, predicate_result } && {
            &&& result_view(&actual) == spec_assert_actual(assertion, &query_result)
            &&& source_info == assertion.predicate.predicate_func.source_info
            &&& (match spec_assert_actual(assertion, &query_result) {
                Err(_) => predicate_result is None,
                Ok(av) => predicate_result matches Some(pr) && (match (
                    pr,
                    spec_eval_predicate(&assertion.predicate, variables, av),
                ) {
                    (Ok(()), Ok(())) => true,
                    (Err(e), Err(ev)) => e@ == ev,
                    _ => false,
                }),
            })
        },
{
    let actual: Result<Option<Value>, RunnerError> = if assertion.filters.len() == 0 {
        query_result
    } else {
        match query_result {
            Err(e) => Err(e),
            Ok(None) => Err(
                RunnerError::new(
                    assertion.filters[0].source_info,
                    RunnerErrorKind::FilterMissingInput,
                    true,
                ),
            ),
            Ok(Some(value)) => eval_filters(&assertion.filters, &value, variables, true),
        }
    };

    let source_info = assertion.predicate.predicate_func.source_info;
    let predicate_result = match &actual {
        Err(_) => None,
        Ok(actual_value) => Some(eval_predicate(&assertion.predicate, variables, actual_value)),
    };

    AssertResult::Explicit { actual, source_info, predicate_result }
}

} // verus!

use hurl_runner::asserts::{eval_explicit_assert, Assert, AssertResult};
use hurl_runner::error::{Pos, RunnerErrorKind, SourceInfo};
use hurl_runner::expr::Variables;
use hurl_runner::filter::{Filter, FilterValue};
use hurl_runner::predicate::{Predicate, PredicateFunc, PredicateFuncValue, PredicateValue};
use hurl_runner::value::{Number, Value};

fn si(l1: usize, c1: usize, l2: usize, c2: usize) -> SourceInfo {
    SourceInfo::new(Pos::new(l1, c1), Pos::new(l2, c2))
}

/// `xpath "//user" count == 3`, with the query already resolved by the
/// markup-query collaborator to a nodeset of three nodes.
fn assert_count_user() -> Assert {
    let predicate = Predicate {
        not: false,
        predicate_func: PredicateFunc {
            source_info: si(1, 22, 1, 24),
            value: PredicateFuncValue::Equal {
                value: PredicateValue::Number(Number::Integer(3)),
            },
        },
    };
    Assert {
        filters: vec![Filter {
            source_info: si(1, 16, 1, 21),
            value: FilterValue::Count,
        }],
        predicate,
    }
}

#[test]
fn test_invalid_xpath() {}

#[test]
fn test_eval() {
    let variables = Variables::new();
    let query_result = Ok(Some(Value::Nodeset(3)));
    assert_eq!(
        eval_explicit_assert(&assert_count_user(), &variables, query_result),
        AssertResult::Explicit {
            actual: Ok(Some(Value::Number(Number::Integer(3)))),
            source_info: si(1, 22, 1, 24),
            predicate_result: Some(Ok(())),
        }
    );
}

#[test]
fn version_wildcard_passes() {
    let a = AssertResult::Version {
        actual: String::from("HTTP/1.0"),
        expected: String::from("HTTP/*"),
        source_info: si(1, 1, 1, 8),
    };
    assert_eq!(a.error(), None);
}

#[test]
fn version_mismatch_fails_with_the_actual_version() {
    let a = AssertResult::Version {
        actual: String::from("HTTP/1.1"),
        expected: String::from("HTTP/1.0"),
        source_info: si(1, 1, 1, 8),
    };
    let err = a.error().unwrap();
    assert_eq!(
        err.kind,
        RunnerErrorKind::AssertVersion {
            actual: String::from("HTTP/1.1")
        }
    );
    assert_eq!(err.source_info, si(1, 1, 1, 8));
}

#[test]
fn version_bare_http_is_a_wildcard() {
    let a = AssertResult::Version {
        actual: String::from("HTTP/2"),
        expected: String::from("HTTP"),
        source_info: si(1, 1, 1, 5),
    };
    assert_eq!(a.error(), None);
}

#[test]
fn status_mismatch_fails_with_the_actual_status() {
    let a = AssertResult::Status {
        actual: 200,
        expected: 404,
        source_info: si(2, 1, 2, 4),
    };
    let err = a.error().unwrap();
    assert_eq!(
        err.kind,
        RunnerErrorKind::AssertStatus {
            actual: String::from("200")
        }
    );
}

#[test]
fn status_match_passes() {
    let a = AssertResult::Status {
        actual: 200,
        expected: 200,
        source_info: si(2, 1, 2, 4),
    };
    assert_eq!(a.error(), None);
}

#[test]
fn header_error_propagates() {
    let inner = hurl_runner::error::RunnerError::new(
        si(3, 1, 3, 5),
        RunnerErrorKind::TemplateVariableNotDefined {
            name: String::from("h"),
        },
        false,
    );
    let a = AssertResult::Header {
        actual: Err(inner.clone()),
        expected: String::from("application/json"),
        source_info: si(3, 1, 3, 5),
    };
    assert_eq!(a.error(), Some(inner));
}

#[test]
fn header_mismatch_fails_with_the_actual_value() {
    let a = AssertResult::Header {
        actual: Ok(String::from("text/html")),
        expected: String::from("application/json"),
        source_info: si(3, 1, 3, 5),
    };
    let err = a.error().unwrap();
    assert_eq!(
        err.kind,
        RunnerErrorKind::AssertHeaderValueError {
            actual: String::from("text/html")
        }
    );
}

#[test]
fn body_mismatch_renders_both_sides() {
    let a = AssertResult::Body {
        actual: Ok(Value::Number(Number::Integer(2))),
        expected: Ok(Value::Number(Number::Integer(3))),
        source_info: si(4, 1, 4, 2),
    };
    let err = a.error().unwrap();
    assert_eq!(
        err.kind,
        RunnerErrorKind::AssertBodyValueError {
            actual: String::from("2"),
            expected: String::from("3"),
        }
    );
}

#[test]
fn explicit_assert_passes_with_no_filters() {
    let assertion = Assert {
        filters: vec![],
        predicate: Predicate {
            not: false,
            predicate_func: PredicateFunc {
                source_info: si(1, 22, 1, 24),
                value: PredicateFuncValue::Equal {
                    value: PredicateValue::Number(Number::Integer(3)),
                },
            },
        },
    };
    let variables = Variables::new();
    let result = eval_explicit_assert(
        &assertion,
        &variables,
        Ok(Some(Value::Number(Number::Integer(3)))),
    );
    assert_eq!(
        result,
        AssertResult::Explicit {
            actual: Ok(Some(Value::Number(Number::Integer(3)))),
            source_info: si(1, 22, 1, 24),
            predicate_result: Some(Ok(())),
        }
    );
    assert_eq!(result.error(), None);
}

#[test]
fn missing_input_is_reported_at_the_first_filter() {
    // A query that produced nothing plus any non-empty filter chain fails
    // with FilterMissingInput at the first filter's position, whatever the
    // chain length.
    for chain_len in 1..4 {
        let mut filters = Vec::new();
        for k in 0..chain_len {
            filters.push(Filter {
                source_info: si(1, 16 + k, 1, 21 + k),
                value: FilterValue::Count,
            });
        }
        let assertion = Assert {
            filters,
            predicate: Predicate {
                not: false,
                predicate_func: PredicateFunc {
                    source_info: si(1, 22, 1, 24),
                    value: PredicateFuncValue::Exist,
                },
            },
        };
        let variables = Variables::new();
        let result = eval_explicit_assert(&assertion, &variables, Ok(None));
        match result {
            AssertResult::Explicit {
                actual: Err(err),
                predicate_result,
                ..
            } => {
                assert_eq!(err.kind, RunnerErrorKind::FilterMissingInput);
                assert_eq!(err.source_info, si(1, 16, 1, 21));
                assert!(err.in_assert);
                assert_eq!(predicate_result, None);
            }
            other => panic!("expected a missing-input failure, got {:?}", other),
        }
    }
}

#[test]
fn a_query_error_short_circuits_the_predicate() {
    let inner = hurl_runner::error::RunnerError::new(
        si(5, 1, 5, 3),
        RunnerErrorKind::QueryInvalidXml,
        false,
    );
    let assertion = assert_count_user();
    let variables = Variables::new();
    let result = eval_explicit_assert(&assertion, &variables, Err(inner.clone()));
    assert_eq!(
        result,
        AssertResult::Explicit {
            actual: Err(inner),
            source_info: si(1, 22, 1, 24),
            predicate_result: None,
        }
    );
}

#[test]
fn line_reports_the_start_line() {
    let a = AssertResult::Status {
        actual: 200,
        expected: 200,
        source_info: si(7, 3, 7, 9),
    };
    assert_eq!(a.line(), 7);
}

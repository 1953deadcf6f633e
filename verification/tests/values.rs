use hurl_runner::error::{Pos, RunnerErrorKind, SourceInfo};
use hurl_runner::expr::Variables;
use hurl_runner::filter::{eval_filter, eval_filters, Filter, FilterValue};
use hurl_runner::num::{bytes_to_hex, i64_to_string, u64_to_string};
use hurl_runner::predicate::{
    eval_predicate, Predicate, PredicateFunc, PredicateFuncValue, PredicateValue,
};
use hurl_runner::template::{Template, TemplateElement};
use hurl_runner::value::{value_eq, Number, Value};

fn si(l1: usize, c1: usize, l2: usize, c2: usize) -> SourceInfo {
    SourceInfo::new(Pos::new(l1, c1), Pos::new(l2, c2))
}

#[test]
fn decimal_renderings_are_exact() {
    assert_eq!(u64_to_string(0), String::from("0"));
    assert_eq!(u64_to_string(907), String::from("907"));
    assert_eq!(u64_to_string(u64::MAX), String::from("18446744073709551615"));
    assert_eq!(i64_to_string(-42), String::from("-42"));
    assert_eq!(i64_to_string(i64::MIN), String::from("-9223372036854775808"));
    assert_eq!(i64_to_string(i64::MAX), String::from("9223372036854775807"));
}

#[test]
fn hex_renderings_are_exact() {
    assert_eq!(bytes_to_hex(&vec![]), String::from(""));
    assert_eq!(bytes_to_hex(&vec![0x00, 0x0a, 0xff]), String::from("000aff"));
}

#[test]
fn values_render_for_display() {
    assert_eq!(Value::Null.render(), String::from("null"));
    assert_eq!(Value::Bool(true).render(), String::from("true"));
    assert_eq!(Value::Number(Number::Integer(-3)).render(), String::from("-3"));
    assert_eq!(
        Value::String(String::from("Bob")).render(),
        String::from("Bob")
    );
    assert_eq!(
        Value::Bytes(vec![0xde, 0xad]).render(),
        String::from("hex, dead;")
    );
    assert_eq!(Value::Nodeset(3).render(), String::from("nodeset of size 3"));
    assert_eq!(
        Value::List(vec![
            Value::Number(Number::Integer(1)),
            Value::String(String::from("a")),
        ])
        .render(),
        String::from("[1,a]")
    );
}

#[test]
fn value_equality_is_structural() {
    assert!(value_eq(
        &Value::List(vec![Value::Bool(true), Value::Number(Number::Integer(1))]),
        &Value::List(vec![Value::Bool(true), Value::Number(Number::Integer(1))]),
    ));
    assert!(!value_eq(
        &Value::List(vec![Value::Bool(true)]),
        &Value::List(vec![Value::Bool(false)]),
    ));
    assert!(!value_eq(&Value::Null, &Value::Bool(false)));
    assert!(value_eq(
        &Value::String(String::from("x")).clone(),
        &Value::String(String::from("x")),
    ));
}

#[test]
fn value_type_names_are_stable() {
    assert_eq!(Value::Bool(true)._type(), String::from("boolean"));
    assert_eq!(Value::Bytes(vec![])._type(), String::from("bytes"));
    assert_eq!(Value::List(vec![])._type(), String::from("list"));
    assert_eq!(Value::Nodeset(0)._type(), String::from("nodeset"));
    assert_eq!(Value::Null._type(), String::from("null"));
    assert_eq!(Value::Number(Number::Integer(0))._type(), String::from("number"));
    assert_eq!(Value::String(String::new())._type(), String::from("string"));
}

#[test]
fn count_measures_lists_bytes_and_nodesets() {
    let variables = Variables::new();
    let filter = Filter {
        source_info: si(1, 16, 1, 21),
        value: FilterValue::Count,
    };
    assert_eq!(
        eval_filter(&filter, &Value::List(vec![Value::Null, Value::Null]), &variables, true),
        Ok(Some(Value::Number(Number::Integer(2))))
    );
    assert_eq!(
        eval_filter(&filter, &Value::Bytes(vec![1, 2, 3]), &variables, true),
        Ok(Some(Value::Number(Number::Integer(3))))
    );
    assert_eq!(
        eval_filter(&filter, &Value::Nodeset(5), &variables, true),
        Ok(Some(Value::Number(Number::Integer(5))))
    );
    let err = eval_filter(&filter, &Value::Bool(true), &variables, true).unwrap_err();
    assert_eq!(
        err.kind,
        RunnerErrorKind::FilterInvalidInput {
            kind: String::from("boolean")
        }
    );
    assert_eq!(err.source_info, si(1, 16, 1, 21));
}

#[test]
fn a_chain_applies_filters_in_order() {
    let variables = Variables::new();
    let filters = vec![
        Filter {
            source_info: si(1, 16, 1, 21),
            value: FilterValue::Count,
        },
        Filter {
            source_info: si(1, 23, 1, 28),
            value: FilterValue::Count,
        },
    ];
    // Counting a list gives a number; counting a number is an invalid input
    // for the second filter, reported at the second filter's position.
    let err = eval_filters(&filters, &Value::List(vec![]), &variables, true).unwrap_err();
    assert_eq!(
        err.kind,
        RunnerErrorKind::FilterInvalidInput {
            kind: String::from("number")
        }
    );
    assert_eq!(err.source_info, si(1, 23, 1, 28));
}

fn equal_predicate(value: PredicateValue, not: bool) -> Predicate {
    Predicate {
        not,
        predicate_func: PredicateFunc {
            source_info: si(1, 22, 1, 24),
            value: PredicateFuncValue::Equal { value },
        },
    }
}

#[test]
fn equality_predicates_compare_structurally() {
    let variables = Variables::new();
    let p = equal_predicate(PredicateValue::Number(Number::Integer(3)), false);
    assert_eq!(
        eval_predicate(&p, &variables, &Some(Value::Number(Number::Integer(3)))),
        Ok(())
    );
    let err = eval_predicate(&p, &variables, &Some(Value::Number(Number::Integer(2))))
        .unwrap_err();
    assert_eq!(
        err.kind,
        RunnerErrorKind::AssertFailure {
            actual: String::from("2"),
            expected: String::from("3"),
        }
    );
    assert_eq!(err.source_info, si(1, 22, 1, 24));
    assert!(err.in_assert);
}

#[test]
fn a_negated_equality_flips_the_outcome() {
    let variables = Variables::new();
    let p = equal_predicate(PredicateValue::Bool(true), true);
    assert_eq!(eval_predicate(&p, &variables, &Some(Value::Bool(false))), Ok(()));
    assert!(eval_predicate(&p, &variables, &Some(Value::Bool(true))).is_err());
}

#[test]
fn an_equality_against_a_template_resolves_it_first() {
    let mut variables = Variables::new();
    variables.insert(String::from("who"), Value::String(String::from("Bob")));
    let template = Template {
        elements: vec![TemplateElement::Expression(hurl_runner::expr::Expr {
            variable: hurl_runner::expr::Variable {
                name: String::from("who"),
                source_info: si(1, 30, 1, 33),
            },
        })],
        source_info: si(1, 29, 1, 34),
    };
    let p = equal_predicate(PredicateValue::String(template), false);
    assert_eq!(
        eval_predicate(&p, &variables, &Some(Value::String(String::from("Bob")))),
        Ok(())
    );
}

#[test]
fn exist_predicates_check_presence() {
    let variables = Variables::new();
    let exist = Predicate {
        not: false,
        predicate_func: PredicateFunc {
            source_info: si(2, 1, 2, 7),
            value: PredicateFuncValue::Exist,
        },
    };
    assert_eq!(eval_predicate(&exist, &variables, &Some(Value::Null)), Ok(()));
    let err = eval_predicate(&exist, &variables, &None).unwrap_err();
    assert_eq!(
        err.kind,
        RunnerErrorKind::AssertFailure {
            actual: String::from("none"),
            expected: String::from("a value"),
        }
    );
}

#[test]
fn a_missing_actual_fails_an_equality() {
    let variables = Variables::new();
    let p = equal_predicate(PredicateValue::Number(Number::Integer(3)), false);
    let err = eval_predicate(&p, &variables, &None).unwrap_err();
    assert_eq!(
        err.kind,
        RunnerErrorKind::AssertFailure {
            actual: String::from("none"),
            expected: String::from("3"),
        }
    );
}

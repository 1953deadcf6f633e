use hurl_runner::error::{Pos, RunnerErrorKind, SourceInfo};
use hurl_runner::expr::Variables;
use hurl_runner::template::{Template, TemplateElement};
use hurl_runner::value::{Number, Value};
use hurl_runner::xpath::{eval_xpath, eval_xpath_outcome, eval_xpath_string, XpathError};

fn si(l1: usize, c1: usize, l2: usize, c2: usize) -> SourceInfo {
    SourceInfo::new(Pos::new(l1, c1), Pos::new(l2, c2))
}

fn literal_template(text: &str, source_info: SourceInfo) -> Template {
    Template {
        elements: vec![TemplateElement::Text(String::from(text))],
        source_info,
    }
}

#[test]
fn a_non_string_value_is_rejected_without_parsing() {
    // Any non-string input fails immediately with FilterInvalidInput carrying
    // the variant's type name.
    let cases: Vec<(Value, &str)> = vec![
        (Value::Bool(true), "boolean"),
        (Value::Bytes(vec![1, 2]), "bytes"),
        (Value::List(vec![]), "list"),
        (Value::Nodeset(3), "nodeset"),
        (Value::Null, "null"),
        (Value::Number(Number::Integer(7)), "number"),
    ];
    let variables = Variables::new();
    let template = literal_template("//user", si(1, 8, 1, 14));
    for (value, kind) in cases {
        let err = eval_xpath(&value, &template, &variables, si(1, 1, 1, 6), true).unwrap_err();
        assert_eq!(
            err.kind,
            RunnerErrorKind::FilterInvalidInput {
                kind: String::from(kind)
            }
        );
        assert_eq!(err.source_info, si(1, 1, 1, 6));
        assert!(err.in_assert);
    }
}

#[test]
fn a_string_value_resolves_into_a_markup_query() {
    let variables = Variables::new();
    let template = literal_template("//user", si(1, 8, 1, 14));
    let value = Value::String(String::from("<users><user/></users>"));
    let query = eval_xpath(&value, &template, &variables, si(1, 1, 1, 6), false).unwrap();
    assert_eq!(query.source, String::from("<users><user/></users>"));
    assert_eq!(query.expression, String::from("//user"));
    // HTML parsing is used uniformly, XML-shaped input included.
    assert!(query.is_html);
}

#[test]
fn a_failed_template_resolution_propagates_as_is() {
    let variables = Variables::new();
    let template = Template {
        elements: vec![TemplateElement::Expression(hurl_runner::expr::Expr {
            variable: hurl_runner::expr::Variable {
                name: String::from("q"),
                source_info: si(2, 3, 2, 4),
            },
        })],
        source_info: si(2, 1, 2, 5),
    };
    let xml = String::from("<a/>");
    let err = eval_xpath_string(&xml, &template, &variables, true).unwrap_err();
    assert_eq!(
        err.kind,
        RunnerErrorKind::TemplateVariableNotDefined {
            name: String::from("q")
        }
    );
    assert_eq!(err.source_info, si(2, 3, 2, 4));
}

#[test]
fn invalid_markup_is_reported_at_the_input_position() {
    let input_position = si(1, 1, 1, 6);
    let expr_position = si(1, 8, 1, 14);
    for outcome in [XpathError::InvalidXml, XpathError::InvalidHtml] {
        let err = eval_xpath_outcome(Err(outcome), input_position, expr_position).unwrap_err();
        assert_eq!(err.kind, RunnerErrorKind::QueryInvalidXml);
        assert_eq!(err.source_info, input_position);
    }
}

#[test]
fn a_failed_evaluation_is_reported_at_the_expression_position() {
    let input_position = si(1, 1, 1, 6);
    let expr_position = si(1, 8, 1, 14);
    let err =
        eval_xpath_outcome(Err(XpathError::Eval), input_position, expr_position).unwrap_err();
    assert_eq!(err.kind, RunnerErrorKind::QueryInvalidXpathEval);
    assert_eq!(err.source_info, expr_position);
}

#[test]
fn a_successful_outcome_passes_the_value_through() {
    let r = eval_xpath_outcome(
        Ok(Value::Nodeset(3)),
        si(1, 1, 1, 6),
        si(1, 8, 1, 14),
    );
    assert_eq!(r, Ok(Some(Value::Nodeset(3))));
}

use hurl_runner::error::{Pos, RunnerErrorKind, SourceInfo};
use hurl_runner::expr::{eval_expr, Expr, Variable, Variables};
use hurl_runner::template::{eval_template, Template, TemplateElement};
use hurl_runner::value::{Number, Value};

fn si(l1: usize, c1: usize, l2: usize, c2: usize) -> SourceInfo {
    SourceInfo::new(Pos::new(l1, c1), Pos::new(l2, c2))
}

fn name_ref(name: &str, source_info: SourceInfo) -> Expr {
    Expr {
        variable: Variable {
            name: String::from(name),
            source_info,
        },
    }
}

#[test]
fn eval_expr_returns_the_bound_value() {
    let mut variables = Variables::new();
    variables.insert(String::from("name"), Value::String(String::from("Bob")));
    let expr = name_ref("name", si(1, 7, 1, 11));
    assert_eq!(
        eval_expr(&expr, &variables),
        Ok(Value::String(String::from("Bob")))
    );
}

#[test]
fn eval_expr_reports_an_unbound_name_at_its_position() {
    let mut variables = Variables::new();
    variables.insert(String::from("name"), Value::String(String::from("Bob")));
    let expr = name_ref("age", si(2, 4, 2, 7));
    let err = eval_expr(&expr, &variables).unwrap_err();
    assert_eq!(
        err.kind,
        RunnerErrorKind::TemplateVariableNotDefined {
            name: String::from("age")
        }
    );
    assert_eq!(err.source_info, si(2, 4, 2, 7));
    assert!(!err.in_assert);
}

#[test]
fn a_later_binding_shadows_an_earlier_one() {
    let mut variables = Variables::new();
    variables.insert(String::from("n"), Value::Number(Number::Integer(1)));
    variables.insert(String::from("n"), Value::Number(Number::Integer(2)));
    let expr = name_ref("n", si(1, 1, 1, 2));
    assert_eq!(
        eval_expr(&expr, &variables),
        Ok(Value::Number(Number::Integer(2)))
    );
}

#[test]
fn lookups_are_case_sensitive() {
    let mut variables = Variables::new();
    variables.insert(String::from("Name"), Value::Bool(true));
    let expr = name_ref("name", si(1, 1, 1, 5));
    assert!(eval_expr(&expr, &variables).is_err());
}

#[test]
fn a_template_concatenates_text_and_resolved_values() {
    let mut variables = Variables::new();
    variables.insert(String::from("user"), Value::String(String::from("Bob")));
    variables.insert(String::from("id"), Value::Number(Number::Integer(42)));
    let template = Template {
        elements: vec![
            TemplateElement::Text(String::from("//item[@owner='")),
            TemplateElement::Expression(name_ref("user", si(1, 3, 1, 7))),
            TemplateElement::Text(String::from("'][@id=")),
            TemplateElement::Expression(name_ref("id", si(1, 9, 1, 11))),
            TemplateElement::Text(String::from("]")),
        ],
        source_info: si(1, 1, 1, 12),
    };
    let variables = variables;
    assert_eq!(
        eval_template(&template, &variables),
        Ok(String::from("//item[@owner='Bob'][@id=42]"))
    );
}

#[test]
fn a_template_propagates_the_first_failed_lookup() {
    let variables = Variables::new();
    let template = Template {
        elements: vec![
            TemplateElement::Text(String::from("a")),
            TemplateElement::Expression(name_ref("missing", si(3, 2, 3, 9))),
        ],
        source_info: si(3, 1, 3, 10),
    };
    let err = eval_template(&template, &variables).unwrap_err();
    assert_eq!(
        err.kind,
        RunnerErrorKind::TemplateVariableNotDefined {
            name: String::from("missing")
        }
    );
    assert_eq!(err.source_info, si(3, 2, 3, 9));
}

//! The predicate evaluator: a comparison applied to a (possibly filtered)
//! optional value.
//!
//! Each comparison is pure and total over the accepted value variants. A
//! failed predicate carries the actual and expected values rendered for
//! display, at the predicate's own source position.

use vstd::prelude::*;

use crate::error::RunnerError;
use crate::error::RunnerErrorKind;
use crate::error::RunnerErrorKindV;
use crate::error::RunnerErrorV;
use crate::error::SourceInfo;
use crate::expr::Variables;
use crate::template::Template;
use crate::template::eval_template;
use crate::template::spec_eval_template;
use crate::value::Number;
use crate::value::Value;
use crate::value::ValueV;
use crate::value::value_eq;

verus! {

/// The expected side of a comparison, as written in the script.
pub enum PredicateValue {
    Bool(bool),
    Number(Number),
    String(Template),
}

/// The comparison a predicate performs.
pub enum PredicateFuncValue {
    /// the actual value exists and equals the expected value structurally
    Equal { value: PredicateValue },
    /// the actual value exists
    Exist,
}

/// A comparison with its position in the source text.
pub struct PredicateFunc {
    pub source_info: SourceInfo,
    pub value: PredicateFuncValue,
}

/// A predicate: a comparison, possibly negated.
pub struct Predicate {
    pub not: bool,
    pub predicate_func: PredicateFunc,
}

/// The view of an optional value.
pub open spec fn opt_value_view(o: &Option<Value>) -> Option<ValueV> {
    match o {
        Some(v) => Some(v@),
        None => None,
    }
}

/// The expected value after resolving an embedded template, or the template's
/// own resolution error.
pub open spec fn spec_expected(value: &PredicateValue, variables: &Variables) -> Result<
    ValueV,
    RunnerErrorV,
> {
    match value {
        PredicateValue::Bool(b) => Ok(ValueV::Bool(*b)),
        PredicateValue::Number(n) => Ok(ValueV::Number(*n)),
        PredicateValue::String(t) => match spec_eval_template(t, variables) {
            Ok(s) => Ok(ValueV::String(s)),
            Err(e) => Err(e),
        },
    }
}

/// The rendering of an optional actual value in a failure message.
pub open spec fn rendered_actual(actual: Option<ValueV>) -> Seq<char> {
    match actual {
        Some(v) => v.rendered(),
        None => "none"@,
    }
}

/// The predicate failure error: actual and expected rendered for display, at
/// the predicate's source position.
pub open spec fn predicate_failure(
    source_info: SourceInfo,
    actual: Seq<char>,
    expected: Seq<char>,
) -> RunnerErrorV {
    RunnerErrorV {
        source_info,
        kind: RunnerErrorKindV::AssertFailure { actual, expected },
        in_assert: true,
    }
}

/// The meaning of `eval_predicate`: resolve the expected side, decide the
/// comparison, negate it when the predicate says `not`, and on failure report
/// the rendered actual and expected values.
pub open spec fn spec_eval_predicate(
    predicate: &Predicate,
    variables: &Variables,
    actual: Option<ValueV>,
) -> Result<(), RunnerErrorV> {
    let source_info = predicate.predicate_func.source_info;
    match predicate.predicate_func.value {
        PredicateFuncValue::Exist => {
            let holds = (actual is Some) != predicate.not;
            if holds {
                Ok(())
            } else {
                Err(
                    predicate_failure(
                        source_info,
                        rendered_actual(actual),
                        if predicate.not {
                            "no value"@
                        } else {
                            "a value"@
                        },
                    ),
                )
            }
        },
        PredicateFuncValue::Equal { value } => match spec_expected(&value, variables) {
            Err(e) => Err(e),
            Ok(expected) => {
                let holds = match actual {
                    Some(v) => (v == expected) != predicate.not,
                    None => false,
                };
                if holds {
                    Ok(())
                } else {
                    Err(
                        predicate_failure(
                            source_info,
                            rendered_actual(actual),
                            expected.rendered(),
                        ),
                    )
                }
            },
        },
    }
}

/// Evaluates the predicate against an optional actual value.
pub fn eval_predicate(predicate: &Predicate, variables: &Variables, actual: &Option<Value>) -> (r:
    Result<(), RunnerError>)
    ensures
        match (r, spec_eval_predicate(predicate, variables, opt_value_view(actual))) {
            (Ok(()), Ok(())) => true,
            (Err(e), Err(ev)) => e@ == ev,
            _ => false,
        },
{
    let source_info = predicate.predicate_func.source_info;
    match &predicate.predicate_func.value {
        PredicateFuncValue::Exist => {
            let holds = match actual {
                Some(_) => !predicate.not,
                None => predicate.not,
            };
            if holds {
                Ok(())
            } else {
                let expected = if predicate.not {
                    String::from_str("no value")
                } else {
                    String::from_str("a value")
                };
                Err(
                    RunnerError::new(
                        source_info,
                        RunnerErrorKind::AssertFailure {
                            actual: render_actual(actual),
                            expected,
                        },
                        true,
                    ),
                )
            }
        },
        PredicateFuncValue::Equal { value } => {
            let expected = match value {
                PredicateValue::Bool(b) => Value::Bool(*b),
                PredicateValue::Number(n) => Value::Number(*n),
                PredicateValue::String(t) => match eval_template(t, variables) {
                    Ok(s) => Value::String(s),
                    Err(e) => {
                        return Err(e);
                    },
                },
            };
            let holds = match actual {
                Some(v) => value_eq(v, &expected) != predicate.not,
                None => false,
            };
            if holds {
                Ok(())
            } else {
                Err(
                    RunnerError::new(
                        source_info,
                        RunnerErrorKind::AssertFailure {
                            actual: render_actual(actual),
                            expected: expected.render(),
                        },
                        true,
                    ),
                )
            }
        },
    }
}

/// The rendering of an optional actual value for a failure message.
fn render_actual(actual: &Option<Value>) -> (r: String)
    ensures
        r@ == rendered_actual(opt_value_view(actual)),
{
    match actual {
        Some(v) => v.render(),
        None => {
            proof {
                reveal_strlit("none");
            }
            String::from_str("none")
        },
    }
}

} // verus!

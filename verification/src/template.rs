//! String templates: literal text interleaved with variable references.
//!
//! A template is resolved against the variable environment through the
//! expression evaluator; a failed lookup propagates as-is, positioned at the
//! failing reference.

use vstd::prelude::*;

use crate::error::RunnerError;
use crate::error::RunnerErrorV;
use crate::error::SourceInfo;
use crate::expr::Expr;
use crate::expr::Variables;
use crate::expr::eval_expr;
use crate::expr::spec_eval_expr;

verus! {

broadcast use {vstd::seq::group_seq_axioms, vstd::std_specs::vec::group_vec_axioms};

/// One element of a template: literal text, or an embedded expression.
pub enum TemplateElement {
    Text(String),
    Expression(Expr),
}

/// A string template with its position in the source text.
pub struct Template {
    pub elements: Vec<TemplateElement>,
    pub source_info: SourceInfo,
}

/// The meaning of evaluating the first `i` template elements left to right:
/// the concatenation of the literal parts and the rendered values of the
/// resolved expressions, or the first resolution error.
pub open spec fn spec_eval_elements(
    elements: Seq<TemplateElement>,
    variables: &Variables,
    i: int,
) -> Result<Seq<char>, RunnerErrorV>
    recommends
        0 <= i <= elements.len(),
    decreases i,
{
    if i <= 0 {
        Ok(Seq::empty())
    } else {
        match spec_eval_elements(elements, variables, i - 1) {
            Err(e) => Err(e),
            Ok(s) => match elements[i - 1] {
                TemplateElement::Text(t) => Ok(s + t@),
                TemplateElement::Expression(expr) => match spec_eval_expr(&expr, variables) {
                    Ok(v) => Ok(s + v.rendered()),
                    Err(e) => Err(e),
                },
            },
        }
    }
}

/// A resolution error of an early element stands for every longer prefix.
proof fn lemma_eval_elements_err(
    elements: Seq<TemplateElement>,
    variables: &Variables,
    j: int,
    k: int,
)
    requires
        0 <= j <= k <= elements.len(),
        spec_eval_elements(elements, variables, j) is Err,
    ensures
        spec_eval_elements(elements, variables, k) == spec_eval_elements(elements, variables, j),
    decreases k - j,
{
    if k > j {
        lemma_eval_elements_err(elements, variables, j, k - 1);
    }
}

/// The meaning of `eval_template`: all the elements, evaluated left to right.
pub open spec fn spec_eval_template(template: &Template, variables: &Variables) -> Result<
    Seq<char>,
    RunnerErrorV,
> {
    spec_eval_elements(template.elements@, variables, template.elements@.len() as int)
}

/// Resolves the template against the environment: concatenates the literal
/// parts and the rendered values of the embedded expressions, in order, and
/// propagates the first failed variable lookup as-is.
pub fn eval_template(template: &Template, variables: &Variables) -> (r: Result<
    String,
    RunnerError,
>)
    ensures
        match (r, spec_eval_template(template, variables)) {
            (Ok(s), Ok(t)) => s@ == t,
            (Err(e), Err(ev)) => e@ == ev,
            _ => false,
        },
{
    let mut out = String::new();
    let mut i: usize = 0;
    #[verifier::loop_isolation(false)]
    while i < template.elements.len()
        invariant
            i <= template.elements@.len(),
            spec_eval_elements(template.elements@, variables, i as int) == Ok::<
                Seq<char>,
                RunnerErrorV,
            >(out@),
        decreases template.elements@.len() - i,
    {
        match &template.elements[i] {
            TemplateElement::Text(t) => {
                out.append(t.as_str());
            },
            TemplateElement::Expression(expr) => {
                match eval_expr(expr, variables) {
                    Ok(value) => {
                        out.append(value.render().as_str());
                    },
                    Err(e) => {
                        proof {
                            assert(spec_eval_elements(template.elements@, variables, i as int + 1)
                                == Err::<Seq<char>, RunnerErrorV>(e@));
                            lemma_eval_elements_err(
                                template.elements@,
                                variables,
                                i as int + 1,
                                template.elements@.len() as int,
                            );
                        }
                        return Err(e);
                    },
                }
            },
        }
        i = i + 1;
    }
    Ok(out)
}

} // verus!

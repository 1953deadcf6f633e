//! The markup (XPath) filter.
//!
//! Markup parsing and tree-based query evaluation belong to an outside
//! collaborator: this core gates the input, resolves the query expression
//! template, hands both out as a `MarkupQuery`, and translates the
//! collaborator's outcome into the error taxonomy. The caller runs the
//! collaborator between the two halves.

use vstd::prelude::*;

use crate::error::RunnerError;
use crate::error::RunnerErrorKind;
use crate::error::RunnerErrorKindV;
use crate::error::RunnerErrorV;
use crate::error::SourceInfo;
use crate::expr::Variables;
use crate::template::Template;
use crate::template::eval_template;
use crate::template::spec_eval_template;
use crate::value::Value;
use crate::value::ValueV;

verus! {

/// What the markup-query collaborator can report instead of a value.
#[derive(Clone, Copy, PartialEq, Eq, Structural, Debug)]
pub enum XpathError {
    InvalidXml,
    InvalidHtml,
    Eval,
    Unsupported,
}

/// A fully resolved markup query, ready to hand to the collaborator: the
/// markup text, the resolved query expression, and whether the text is to be
/// parsed as HTML.
#[derive(Debug, PartialEq)]
pub struct MarkupQuery {
    pub source: String,
    pub expression: String,
    pub is_html: bool,
}

/// Spec-level mirror of `MarkupQuery`.
pub struct MarkupQueryV {
    pub source: Seq<char>,
    pub expression: Seq<char>,
    pub is_html: bool,
}

impl View for MarkupQuery {
    type V = MarkupQueryV;

    open spec fn view(&self) -> MarkupQueryV {
        MarkupQueryV {
            source: self.source@,
            expression: self.expression@,
            is_html: self.is_html,
        }
    }
}

/// The meaning of `eval_xpath_string`: the resolved query over the markup
/// text, or the template's own resolution error.
pub open spec fn spec_eval_xpath_string(
    xml: Seq<char>,
    expr_template: &Template,
    variables: &Variables,
    is_html: bool,
) -> Result<MarkupQueryV, RunnerErrorV> {
    match spec_eval_template(expr_template, variables) {
        Ok(e) => Ok(MarkupQueryV { source: xml, expression: e, is_html }),
        Err(e) => Err(e),
    }
}

/// The meaning of `eval_xpath`: only a string value is accepted; any other
/// variant fails immediately with `FilterInvalidInput` carrying the variant's
/// type name, with no parsing attempt.
pub open spec fn spec_eval_xpath(
    value: ValueV,
    expr_template: &Template,
    variables: &Variables,
    source_info: SourceInfo,
    in_assert: bool,
) -> Result<MarkupQueryV, RunnerErrorV> {
    match value {
        ValueV::String(xml) => spec_eval_xpath_string(xml, expr_template, variables, true),
        v => Err(
            RunnerErrorV {
                source_info,
                kind: RunnerErrorKindV::FilterInvalidInput { kind: v.kind_name() },
                in_assert,
            },
        ),
    }
}

/// Applies the markup filter's input gate to `value`: a string is resolved
/// into a `MarkupQuery` (the filter uses the HTML parser uniformly, which is
/// tolerant enough to also accept well-formed XML); any other variant fails
/// with `FilterInvalidInput` carrying the variant's type name, and nothing is
/// parsed.
pub fn eval_xpath(
    value: &Value,
    expr: &Template,
    variables: &Variables,
    source_info: SourceInfo,
    in_assert: bool,
) -> (r: Result<MarkupQuery, RunnerError>)
    ensures
        match (r, spec_eval_xpath(value@, expr, variables, source_info, in_assert)) {
            (Ok(q), Ok(qv)) => q@ == qv,
            (Err(e), Err(ev)) => e@ == ev,
            _ => false,
        },
{
    match value {
        Value::String(xml) => {
            // The filter will use the HTML parser, which also accepts XML input.
            let is_html = true;
            eval_xpath_string(xml, expr, variables, is_html)
        },
        v => {
            let inner = RunnerErrorKind::FilterInvalidInput { kind: v._type() };
            Err(RunnerError::new(source_info, inner, in_assert))
        },
    }
}

/// Resolves the query expression template and pairs it with the markup text
/// as a `MarkupQuery` for the collaborator; a failed template resolution
/// propagates as-is.
pub fn eval_xpath_string(
    xml: &String,
    expr_template: &Template,
    variables: &Variables,
    is_html: bool,
) -> (r: Result<MarkupQuery, RunnerError>)
    ensures
        match (r, spec_eval_xpath_string(xml@, expr_template, variables, is_html)) {
            (Ok(q), Ok(qv)) => q@ == qv,
            (Err(e), Err(ev)) => e@ == ev,
            _ => false,
        },
{
    match eval_template(expr_template, variables) {
        Ok(expression) => Ok(MarkupQuery { source: xml.clone(), expression, is_html }),
        Err(e) => Err(e),
    }
}

/// Translates the collaborator's outcome for a markup query: invalid markup
/// (of either kind) becomes `QueryInvalidXml` at the input value's position;
/// a query the grammar accepted but the evaluator cannot execute becomes
/// `QueryInvalidXpathEval` at the expression template's position — the
/// distinction tells the user whether to fix the document or the query. An
/// `Unsupported` outcome is a programming-contract violation and is not
/// accepted here.
pub fn eval_xpath_outcome(
    outcome: Result<Value, XpathError>,
    source_info: SourceInfo,
    expr_source_info: SourceInfo,
) -> (r: Result<Option<Value>, RunnerError>)
    requires
        !(outcome matches Err(XpathError::Unsupported)),
    ensures
        match outcome {
            Ok(v) => r matches Ok(Some(w)) && w@ == v@,
            Err(XpathError::InvalidXml) | Err(XpathError::InvalidHtml) => r matches Err(e) && e@
                == (RunnerErrorV {
                source_info,
                kind: RunnerErrorKindV::QueryInvalidXml,
                in_assert: false,
            }),
            Err(XpathError::Eval) => r matches Err(e) && e@ == (RunnerErrorV {
                source_info: expr_source_info,
                kind: RunnerErrorKindV::QueryInvalidXpathEval,
                in_assert: false,
            }),
            Err(XpathError::Unsupported) => false,
        },
{
    match outcome {
        Ok(value) => Ok(Some(value)),
        Err(XpathError::InvalidXml) => Err(
            RunnerError::new(source_info, RunnerErrorKind::QueryInvalidXml, false),
        ),
        Err(XpathError::InvalidHtml) => Err(
            RunnerError::new(source_info, RunnerErrorKind::QueryInvalidXml, false),
        ),
        Err(XpathError::Eval) => Err(
            RunnerError::new(expr_source_info, RunnerErrorKind::QueryInvalidXpathEval, false),
        ),
        Err(XpathError::Unsupported) => {
            proof {
                assert(false);
            }
            vstd::pervasive::unreached()
        },
    }
}

} // verus!

//! Filters and the filter chain.
//!
//! Filters apply in declared order to an optional value. A filter that finds
//! no input to transform fails with `FilterMissingInput` at its own source
//! position: "you asked to transform something that doesn't exist" is
//! reported distinctly from "the transform itself failed".

use vstd::prelude::*;

use crate::error::RunnerError;
use crate::error::RunnerErrorKind;
use crate::error::RunnerErrorKindV;
use crate::error::RunnerErrorV;
use crate::error::SourceInfo;
use crate::expr::Variables;
use crate::value::Number;
use crate::value::Value;
use crate::value::ValueV;
use crate::value::value_copy;

verus! {

broadcast use {vstd::seq::group_seq_axioms, vstd::std_specs::vec::group_vec_axioms};

/// The transform a filter performs.
#[derive(Clone, Copy, PartialEq, Eq, Structural, Debug)]
pub enum FilterValue {
    /// the number of items of a list, of bytes, or of nodes of a nodeset
    Count,
}

/// One filter of a chain, with its position in the source text.
#[derive(Clone, Copy, PartialEq, Eq, Structural, Debug)]
pub struct Filter {
    pub source_info: SourceInfo,
    pub value: FilterValue,
}

/// The meaning of one filter application.
pub open spec fn spec_eval_filter(filter: Filter, value: ValueV, in_assert: bool) -> Result<
    Option<ValueV>,
    RunnerErrorV,
> {
    match filter.value {
        FilterValue::Count => match value {
            ValueV::List(items) => Ok(
                Some(ValueV::Number(Number::Integer(#[verifier::truncate] (items.len() as i64)))),
            ),
            ValueV::Bytes(bytes) => Ok(
                Some(ValueV::Number(Number::Integer(#[verifier::truncate] (bytes.len() as i64)))),
            ),
            ValueV::Nodeset(n) => Ok(
                Some(ValueV::Number(Number::Integer(#[verifier::truncate] (n as i64)))),
            ),
            v => Err(
                RunnerErrorV {
                    source_info: filter.source_info,
                    kind: RunnerErrorKindV::FilterInvalidInput { kind: v.kind_name() },
                    in_assert,
                },
            ),
        },
    }
}

/// The meaning of the filter chain applied to a value, in declared order: a
/// filter that produces no value makes the next filter fail with
/// `FilterMissingInput` at that next filter's position.
pub open spec fn spec_eval_filters(
    filters: Seq<Filter>,
    value: ValueV,
    in_assert: bool,
) -> Result<Option<ValueV>, RunnerErrorV>
    decreases filters.len(),
{
    if filters.len() == 0 {
        Ok(Some(value))
    } else {
        match spec_eval_filter(filters[0], value, in_assert) {
            Err(e) => Err(e),
            Ok(Some(v)) => spec_eval_filters(filters.skip(1), v, in_assert),
            Ok(None) => if filters.len() > 1 {
                Err(
                    RunnerErrorV {
                        source_info: filters[1].source_info,
                        kind: RunnerErrorKindV::FilterMissingInput,
                        in_assert,
                    },
                )
            } else {
                Ok(None)
            },
        }
    }
}

/// Applies one filter to a value.
pub fn eval_filter(filter: &Filter, value: &Value, variables: &Variables, in_assert: bool) -> (r:
    Result<Option<Value>, RunnerError>)
    ensures
        match (r, spec_eval_filter(*filter, value@, in_assert)) {
            (Ok(Some(v)), Ok(Some(w))) => v@ == w,
            (Ok(None), Ok(None)) => true,
            (Err(e), Err(ev)) => e@ == ev,
            _ => false,
        },
{
    match filter.value {
        FilterValue::Count => match value {
            Value::List(items) => {
                proof {
                    crate::value::lemma_views_of(items@);
                }
                Ok(Some(Value::Number(Number::Integer(#[verifier::truncate] (items.len() as i64)))))
            },
            Value::Bytes(bytes) => Ok(
                Some(Value::Number(Number::Integer(#[verifier::truncate] (bytes.len() as i64)))),
            ),
            Value::Nodeset(n) => Ok(
                Some(Value::Number(Number::Integer(#[verifier::truncate] (*n as i64)))),
            ),
            v => {
                let kind = RunnerErrorKind::FilterInvalidInput { kind: v._type() };
                Err(RunnerError::new(filter.source_info, kind, in_assert))
            },
        },
    }
}

/// Applies the filters to the value, in declared order.
pub fn eval_filters(
    filters: &Vec<Filter>,
    value: &Value,
    variables: &Variables,
    in_assert: bool,
) -> (r: Result<Option<Value>, RunnerError>)
    ensures
        match (r, spec_eval_filters(filters@, value@, in_assert)) {
            (Ok(Some(v)), Ok(Some(w))) => v@ == w,
            (Ok(None), Ok(None)) => true,
            (Err(e), Err(ev)) => e@ == ev,
            _ => false,
        },
{
    let ghost whole = spec_eval_filters(filters@, value@, in_assert);
    let mut current = value_copy(value);
    let mut i: usize = 0;
    proof {
        assert(filters@.skip(0) =~= filters@);
    }
    #[verifier::loop_isolation(false)]
    while i < filters.len()
        invariant
            i <= filters@.len(),
            spec_eval_filters(filters@.skip(i as int), current@, in_assert) == whole,
        decreases filters@.len() - i,
    {
        proof {
            assert(filters@.skip(i as int)[0] == filters@[i as int]);
            assert(filters@.skip(i as int).skip(1) =~= filters@.skip(i as int + 1));
        }
        match eval_filter(&filters[i], &current, variables, in_assert) {
            Err(e) => {
                return Err(e);
            },
            Ok(Some(v)) => {
                current = v;
            },
            Ok(None) => {
                if i + 1 < filters.len() {
                    proof {
                        assert(filters@.skip(i as int)[1] == filters@[i as int + 1]);
                    }
                    return Err(
                        RunnerError::new(
                            filters[i + 1].source_info,
                            RunnerErrorKind::FilterMissingInput,
                            in_assert,
                        ),
                    );
                } else {
                    return Ok(None);
                }
            },
        }
        i = i + 1;
    }
    proof {
        assert(filters@.skip(filters@.len() as int) =~= Seq::<Filter>::empty());
    }
    Ok(Some(current))
}

} // verus!

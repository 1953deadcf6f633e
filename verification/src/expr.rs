//! The variable environment and the expression evaluator.
//!
//! An expression is a reference to a variable; evaluating it looks the name up
//! in an immutable environment supplied by the caller for the duration of one
//! entry. Lookups are exact-name and case-sensitive; there is no coercion, no
//! default value and no side effect.

use vstd::prelude::*;

use crate::error::RunnerError;
use crate::error::RunnerErrorKind;
use crate::error::RunnerErrorKindV;
use crate::error::RunnerErrorV;
use crate::error::SourceInfo;
use crate::value::Value;
use crate::value::ValueV;
use crate::value::value_copy;

verus! {

broadcast use {vstd::seq::group_seq_axioms, vstd::std_specs::vec::group_vec_axioms};

/// One name-to-value binding of the environment.
pub struct Binding {
    pub name: String,
    pub value: Value,
}

/// An immutable name-to-value mapping. The last binding of a name wins.
pub struct Variables {
    bindings: Vec<Binding>,
}

/// The value bound to a name: the value of the latest binding of that name,
/// if there is one.
spec fn spec_lookup(bindings: Seq<Binding>, name: Seq<char>) -> Option<ValueV>
    decreases bindings.len(),
{
    if bindings.len() == 0 {
        None
    } else if bindings.last().name@ == name {
        Some(bindings.last().value@)
    } else {
        spec_lookup(bindings.drop_last(), name)
    }
}

impl Variables {
    /// The mapping as a spec-level function from names to values.
    pub closed spec fn bound(&self, name: Seq<char>) -> Option<ValueV> {
        spec_lookup(self.bindings@, name)
    }

    /// An empty environment.
    pub fn new() -> (v: Variables)
        ensures
            forall|name: Seq<char>| v.bound(name) is None,
    {
        Variables { bindings: Vec::new() }
    }

    /// Binds a name to a value; a later binding of the same name shadows an
    /// earlier one.
    pub fn insert(&mut self, name: String, value: Value)
        ensures
            final(self).bound(name@) == Some(value@),
            forall|other: Seq<char>|
                other != name@ ==> final(self).bound(other) == old(self).bound(other),
    {
        let ghost old_bindings = self.bindings@;
        let ghost name_view = name@;
        let ghost value_view = value@;
        self.bindings.push(Binding { name, value });
        proof {
            assert(self.bindings@.last().name@ == name_view);
            assert(self.bindings@.last().value@ == value_view);
            assert(self.bindings@.drop_last() =~= old_bindings);
        }
    }

    /// The value bound to the name, if there is one.
    pub fn get(&self, name: &String) -> (r: Option<&Value>)
        ensures
            match r {
                Some(v) => self.bound(name@) == Some(v@),
                None => self.bound(name@) is None,
            },
    {
        let mut i: usize = self.bindings.len();
        proof {
            assert(self.bindings@.take(i as int) =~= self.bindings@);
        }
        #[verifier::loop_isolation(false)]
        while i > 0
            invariant
                i <= self.bindings@.len(),
                spec_lookup(self.bindings@, name@) == spec_lookup(
                    self.bindings@.take(i as int),
                    name@,
                ),
            decreases i,
        {
            i = i - 1;
            let b = &self.bindings[i];
            proof {
                assert(self.bindings@.take(i as int + 1).last() == self.bindings@[i as int]);
                assert(self.bindings@.take(i as int + 1).drop_last() =~= self.bindings@.take(
                    i as int,
                ));
            }
            if b.name.eq(name) {
                return Some(&b.value);
            }
        }
        proof {
            assert(self.bindings@.take(0) =~= Seq::<Binding>::empty());
        }
        None
    }
}

/// A named variable occurring in the source text.
pub struct Variable {
    pub name: String,
    pub source_info: SourceInfo,
}

/// An expression: a reference to a variable.
pub struct Expr {
    pub variable: Variable,
}

/// The meaning of `eval_expr`: the bound value on success, and the
/// variable-not-defined error at the reference's position otherwise.
pub open spec fn spec_eval_expr(expr: &Expr, variables: &Variables) -> Result<
    ValueV,
    RunnerErrorV,
> {
    match variables.bound(expr.variable.name@) {
        Some(v) => Ok(v),
        None => Err(
            RunnerErrorV {
                source_info: expr.variable.source_info,
                kind: RunnerErrorKindV::TemplateVariableNotDefined { name: expr.variable.name@ },
                in_assert: false,
            },
        ),
    }
}

/// Evaluates the expression `expr` against the `variables` environment:
/// returns a copy of the bound value, or a `TemplateVariableNotDefined` error
/// at the variable reference's source position.
pub fn eval_expr(expr: &Expr, variables: &Variables) -> (r: Result<Value, RunnerError>)
    ensures
        match (r, spec_eval_expr(expr, variables)) {
            (Ok(v), Ok(w)) => v@ == w,
            (Err(e), Err(ev)) => e@ == ev,
            _ => false,
        },
{
    match variables.get(&expr.variable.name) {
        Some(value) => Ok(value_copy(value)),
        None => {
            let kind = RunnerErrorKind::TemplateVariableNotDefined {
                name: expr.variable.name.clone(),
            };
            Err(RunnerError::new(expr.variable.source_info, kind, false))
        },
    }
}

} // verus!

//! The tagged value union used uniformly as the result of queries, filters,
//! captures and variable lookups.
//!
//! Equality is structural, order is preserved in lists, and each variant
//! exposes a stable type-name string used in error messages. The spec-level
//! mirror `ValueV` states the same data over `Seq`, so that contracts can
//! compare and describe values exactly.

use vstd::prelude::*;

use crate::num::dec_int;
use crate::num::dec_rep;
use crate::num::hex_rep;
use crate::num::bytes_to_hex;
use crate::num::i64_to_string;
use crate::num::u64_to_string;

verus! {

broadcast use {vstd::seq::group_seq_axioms, vstd::std_specs::vec::group_vec_axioms};

/// A numeric value. Floating-point numbers are outside this core.
#[derive(Clone, Copy, PartialEq, Eq, Structural, Debug)]
pub enum Number {
    Integer(i64),
}

/// A value produced by a query, filter, capture or variable lookup.
#[derive(Debug)]
pub enum Value {
    Bool(bool),
    Bytes(Vec<u8>),
    List(Vec<Value>),
    Nodeset(usize),
    Null,
    Number(Number),
    String(String),
}

/// Spec-level mirror of `Value`, over sequences.
#[verifier::ext_equal]
pub enum ValueV {
    Bool(bool),
    Bytes(Seq<u8>),
    List(Seq<ValueV>),
    Nodeset(usize),
    Null,
    Number(Number),
    String(Seq<char>),
}

impl View for Value {
    type V = ValueV;

    open spec fn view(&self) -> ValueV
        decreases self,
    {
        match self {
            Value::Bool(b) => ValueV::Bool(*b),
            Value::Bytes(bytes) => ValueV::Bytes(bytes@),
            Value::List(items) => ValueV::List(views_of(items@)),
            Value::Nodeset(n) => ValueV::Nodeset(*n),
            Value::Null => ValueV::Null,
            Value::Number(n) => ValueV::Number(*n),
            Value::String(s) => ValueV::String(s@),
        }
    }
}

/// The views of the values of a sequence, in order.
pub open spec fn views_of(s: Seq<Value>) -> Seq<ValueV>
    decreases s,
{
    if s.len() == 0 {
        Seq::empty()
    } else {
        views_of(s.drop_last()).push(s.last()@)
    }
}

/// `views_of` maps the sequence elementwise.
pub broadcast proof fn lemma_views_of(s: Seq<Value>)
    ensures
        (#[trigger] views_of(s)).len() == s.len(),
        forall|i: int| 0 <= i < s.len() ==> views_of(s)[i] == s[i]@,
    decreases s.len(),
{
    if s.len() == 0 {
        assert(views_of(s).len() == 0);
    } else {
        lemma_views_of(s.drop_last());
        assert(views_of(s) == views_of(s.drop_last()).push(s.last()@));
        assert forall|i: int| 0 <= i < s.len() implies views_of(s)[i] == s[i]@ by {
            if i < s.len() - 1 {
                assert(s.drop_last()[i] == s[i]);
            }
        }
    }
}

impl ValueV {
    /// The stable type-name of the variant, as shown in error messages.
    pub open spec fn kind_name(self) -> Seq<char> {
        match self {
            ValueV::Bool(_) => "boolean"@,
            ValueV::Bytes(_) => "bytes"@,
            ValueV::List(_) => "list"@,
            ValueV::Nodeset(_) => "nodeset"@,
            ValueV::Null => "null"@,
            ValueV::Number(_) => "number"@,
            ValueV::String(_) => "string"@,
        }
    }

    /// The human-readable rendering of the value, used when an error message
    /// shows an actual or expected value.
    pub open spec fn rendered(self) -> Seq<char>
        decreases self,
    {
        match self {
            ValueV::Bool(b) => if b {
                "true"@
            } else {
                "false"@
            },
            ValueV::Bytes(bytes) => "hex, "@ + hex_rep(bytes) + ";"@,
            ValueV::List(items) => "["@ + rendered_items(items) + "]"@,
            ValueV::Nodeset(n) => "nodeset of size "@ + dec_rep(n as int),
            ValueV::Null => "null"@,
            ValueV::Number(Number::Integer(n)) => dec_int(n as int),
            ValueV::String(s) => s,
        }
    }
}

/// The renderings of the values, joined with a comma.
pub open spec fn rendered_items(items: Seq<ValueV>) -> Seq<char>
    decreases items,
{
    if items.len() == 0 {
        Seq::empty()
    } else if items.len() == 1 {
        items[0].rendered()
    } else {
        items[0].rendered() + ","@ + rendered_items(items.skip(1))
    }
}

impl Value {
    /// The stable type-name string of the variant.
    pub fn _type(&self) -> (r: String)
        ensures
            r@ == self@.kind_name(),
    {
        match self {
            Value::Bool(_) => String::from_str("boolean"),
            Value::Bytes(_) => String::from_str("bytes"),
            Value::List(_) => String::from_str("list"),
            Value::Nodeset(_) => String::from_str("nodeset"),
            Value::Null => String::from_str("null"),
            Value::Number(_) => String::from_str("number"),
            Value::String(_) => String::from_str("string"),
        }
    }
}

/// Structural equality of two values.
pub fn value_eq(a: &Value, b: &Value) -> (r: bool)
    ensures
        r == (a@ == b@),
    decreases a,
{
    match (a, b) {
        (Value::Bool(x), Value::Bool(y)) => x == y,
        (Value::Bytes(x), Value::Bytes(y)) => bytes_eq(x, y),
        (Value::List(x), Value::List(y)) => {
            proof {
                lemma_views_of(x@);
                lemma_views_of(y@);
            }
            if x.len() != y.len() {
                return false;
            }
            let mut i: usize = 0;
            #[verifier::loop_isolation(false)]
            while i < x.len()
                invariant
                    i <= x@.len(),
                    x@.len() == y@.len(),
                    forall|j: int| 0 <= j < i ==> x@[j]@ == y@[j]@,
                decreases x@.len() - i,
            {
                if !value_eq(&x[i], &y[i]) {
                    proof {
                        assert(views_of(x@)[i as int] != views_of(y@)[i as int]);
                    }
                    return false;
                }
                i = i + 1;
            }
            proof {
                assert(views_of(x@) =~= views_of(y@));
                assert(a@ =~= b@);
            }
            true
        },
        (Value::Nodeset(x), Value::Nodeset(y)) => x == y,
        (Value::Null, Value::Null) => true,
        (Value::Number(Number::Integer(x)), Value::Number(Number::Integer(y))) => x == y,
        (Value::String(x), Value::String(y)) => x.eq(y),
        _ => false,
    }
}

/// Structural equality of two byte vectors.
pub fn bytes_eq(a: &Vec<u8>, b: &Vec<u8>) -> (r: bool)
    ensures
        r == (a@ == b@),
{
    if a.len() != b.len() {
        return false;
    }
    let mut i: usize = 0;
    while i < a.len()
        invariant
            i <= a@.len(),
            a@.len() == b@.len(),
            forall|j: int| 0 <= j < i ==> a@[j] == b@[j],
        decreases a@.len() - i,
    {
        if a[i] != b[i] {
            return false;
        }
        i = i + 1;
    }
    proof {
        assert(a@ =~= b@);
    }
    true
}

impl PartialEq for Value {
    fn eq(&self, other: &Value) -> bool {
        value_eq(self, other)
    }
}

impl vstd::std_specs::cmp::PartialEqSpecImpl for Value {
    open spec fn obeys_eq_spec() -> bool {
        true
    }

    open spec fn eq_spec(&self, other: &Value) -> bool {
        self@ == other@
    }
}

/// A structurally equal copy of the value.
pub fn value_copy(v: &Value) -> (r: Value)
    ensures
        r@ == v@,
    decreases v,
{
    match v {
        Value::Bool(x) => Value::Bool(*x),
        Value::Bytes(x) => Value::Bytes(bytes_copy(x)),
        Value::List(x) => {
            proof {
                lemma_views_of(x@);
            }
            let mut items: Vec<Value> = Vec::new();
            let mut i: usize = 0;
            #[verifier::loop_isolation(false)]
            while i < x.len()
                invariant
                    i <= x@.len(),
                    items@.len() == i,
                    forall|j: int| 0 <= j < i ==> items@[j]@ == x@[j]@,
                decreases x@.len() - i,
            {
                items.push(value_copy(&x[i]));
                i = i + 1;
            }
            let out = Value::List(items);
            proof {
                lemma_views_of(items@);
                assert(views_of(items@) =~= views_of(x@));
                assert(out@ =~= v@);
            }
            out
        },
        Value::Nodeset(x) => Value::Nodeset(*x),
        Value::Null => Value::Null,
        Value::Number(n) => Value::Number(*n),
        Value::String(s) => Value::String(s.clone()),
    }
}

/// A structurally equal copy of a byte vector.
pub fn bytes_copy(v: &Vec<u8>) -> (r: Vec<u8>)
    ensures
        r@ == v@,
{
    let mut out: Vec<u8> = Vec::new();
    let mut i: usize = 0;
    while i < v.len()
        invariant
            i <= v@.len(),
            out@.len() == i,
            forall|j: int| 0 <= j < i ==> out@[j] == v@[j],
        decreases v@.len() - i,
    {
        out.push(v[i]);
        i = i + 1;
    }
    proof {
        assert(out@ =~= v@);
    }
    out
}

impl Clone for Value {
    fn clone(&self) -> (res: Self)
        ensures
            res@ == self@,
    {
        value_copy(self)
    }
}

impl Value {
    /// The human-readable rendering of the value.
    pub fn render(&self) -> (r: String)
        ensures
            r@ == self@.rendered(),
        decreases self,
    {
        match self {
            Value::Bool(b) => {
                proof {
                    reveal_strlit("true");
                    reveal_strlit("false");
                }
                if *b {
                    String::from_str("true")
                } else {
                    String::from_str("false")
                }
            },
            Value::Bytes(bytes) => {
                let mut s = String::from_str("hex, ");
                s.append(bytes_to_hex(bytes).as_str());
                s.append(";");
                proof {
                    assert(s@ =~= self@.rendered());
                }
                s
            },
            Value::List(items) => {
                let ghost model = views_of(items@);
                proof {
                    lemma_views_of(items@);
                }
                let mut s = String::from_str("[");
                let mut i: usize = 0;
                #[verifier::loop_isolation(false)]
                while i < items.len()
                    invariant
                        i <= items@.len(),
                        s@ == "["@ + rendered_prefix(model, i as int),
                    decreases items@.len() - i,
                {
                    if i > 0 {
                        s.append(",");
                    }
                    s.append(items[i].render().as_str());
                    proof {
                        lemma_rendered_prefix_step(model, i as int);
                        assert(s@ =~= "["@ + rendered_prefix(model, i as int + 1));
                    }
                    i = i + 1;
                }
                s.append("]");
                proof {
                    lemma_rendered_prefix_full(model);
                    assert(s@ =~= self@.rendered());
                }
                s
            },
            Value::Nodeset(n) => {
                let mut s = String::from_str("nodeset of size ");
                s.append(u64_to_string(*n as u64).as_str());
                proof {
                    assert(s@ =~= self@.rendered());
                }
                s
            },
            Value::Null => {
                proof {
                    reveal_strlit("null");
                }
                String::from_str("null")
            },
            Value::Number(Number::Integer(n)) => i64_to_string(*n),
            Value::String(s) => s.clone(),
        }
    }
}

/// The renderings of the first `i` values, joined with a comma.
pub open spec fn rendered_prefix(items: Seq<ValueV>, i: int) -> Seq<char>
    recommends
        0 <= i <= items.len(),
    decreases i,
{
    if i <= 0 {
        Seq::empty()
    } else if i == 1 {
        items[0].rendered()
    } else {
        rendered_prefix(items, i - 1) + ","@ + items[i - 1].rendered()
    }
}

/// Appending the rendering of the next value extends a rendered prefix.
proof fn lemma_rendered_prefix_step(items: Seq<ValueV>, i: int)
    requires
        0 <= i < items.len(),
    ensures
        i == 0 ==> rendered_prefix(items, 1) == items[0].rendered(),
        i > 0 ==> rendered_prefix(items, i + 1) == rendered_prefix(items, i) + ","@
            + items[i].rendered(),
{
}

/// The full rendered prefix is the comma-joined rendering of all the values.
proof fn lemma_rendered_prefix_full(items: Seq<ValueV>)
    ensures
        rendered_prefix(items, items.len() as int) =~= rendered_items(items),
    decreases items.len(),
{
    if items.len() > 1 {
        lemma_rendered_prefix_full(items.skip(1));
        lemma_rendered_prefix_shift(items, items.len() as int);
    }
}

/// A rendered prefix of a non-empty sequence splits as the head, a comma, and
/// the rendered prefix of the tail.
proof fn lemma_rendered_prefix_shift(items: Seq<ValueV>, i: int)
    requires
        2 <= i <= items.len(),
    ensures
        rendered_prefix(items, i) =~= items[0].rendered() + ","@ + rendered_prefix(
            items.skip(1),
            i - 1,
        ),
    decreases i,
{
    if i > 2 {
        lemma_rendered_prefix_shift(items, i - 1);
    } else {
        assert(items.skip(1)[0] == items[1]);
        assert(rendered_prefix(items, 1) == items[0].rendered());
        assert(rendered_prefix(items.skip(1), 1) == items.skip(1)[0].rendered());
    }
    assert(items.skip(1)[i - 2] == items[i - 1]);
}

} // verus!

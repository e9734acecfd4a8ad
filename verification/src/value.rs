//! The values that fill the cells of a table row.

use vstd::prelude::*;

verus! {

/// One cell of a table row.
#[derive(Debug, PartialEq)]
pub enum Value {
    /// No value.
    Null,
    /// An integer.
    Int(i32),
    /// A string.
    Str(String),
    /// A reference to binary data kept in a stream of its own.
    Binary,
}

/// What a cell holds, as a mathematical value.
pub enum ValueView {
    Null,
    Int(int),
    Str(Seq<char>),
    Binary,
}

impl View for Value {
    type V = ValueView;

    open spec fn view(&self) -> ValueView {
        match self {
            Value::Null => ValueView::Null,
            Value::Int(i) => ValueView::Int(*i as int),
            Value::Str(s) => ValueView::Str(s@),
            Value::Binary => ValueView::Binary,
        }
    }
}

/// The cells of a row, as mathematical values.
pub open spec fn row_view(row: Seq<Value>) -> Seq<ValueView> {
    row.map_values(|v: Value| v@)
}

/// A string cell.
pub fn str_value(s: &str) -> (r: Value)
    ensures
        r@ == ValueView::Str(s@),
{
    Value::Str(crate::text::owned(s))
}

/// A string cell, or a null cell when there is no string.
pub fn opt_str_value(s: &Option<String>) -> (r: Value)
    ensures
        r@ == opt_str_view(s),
{
    match s {
        Some(s) => Value::Str(s.clone()),
        None => Value::Null,
    }
}

/// The cell for an optional string.
pub open spec fn opt_str_view(s: &Option<String>) -> ValueView {
    match s {
        Some(s) => ValueView::Str(s@),
        None => ValueView::Null,
    }
}

/// An integer cell from a 16-bit integer.
pub fn i16_value(i: i16) -> (r: Value)
    ensures
        r@ == ValueView::Int(i as int),
{
    Value::Int(i as i32)
}

/// An integer cell, or a null cell when there is no integer.
pub fn opt_i16_value(i: Option<i16>) -> (r: Value)
    ensures
        r@ == opt_int_view(match i { Some(v) => Some(v as int), None => None }),
{
    match i {
        Some(v) => Value::Int(v as i32),
        None => Value::Null,
    }
}

/// An integer cell, or a null cell when there is no integer.
pub fn opt_i32_value(i: Option<i32>) -> (r: Value)
    ensures
        r@ == opt_int_view(match i { Some(v) => Some(v as int), None => None }),
{
    match i {
        Some(v) => Value::Int(v),
        None => Value::Null,
    }
}

/// The cell for an optional integer.
pub open spec fn opt_int_view(i: Option<int>) -> ValueView {
    match i {
        Some(v) => ValueView::Int(v),
        None => ValueView::Null,
    }
}

/// The order of cells: null first, then integers by value, then strings in
/// lexicographic order, then binary references.
pub open spec fn value_lt(a: ValueView, b: ValueView) -> bool {
    match (a, b) {
        (ValueView::Null, ValueView::Null) => false,
        (ValueView::Null, _) => true,
        (ValueView::Int(x), ValueView::Int(y)) => x < y,
        (ValueView::Int(_), ValueView::Null) => false,
        (ValueView::Int(_), _) => true,
        (ValueView::Str(x), ValueView::Str(y)) => crate::text::seq_lt(x, y),
        (ValueView::Str(_), ValueView::Binary) => true,
        (ValueView::Str(_), _) => false,
        (ValueView::Binary, _) => false,
    }
}

/// No cell comes before itself.
pub proof fn lemma_value_lt_irreflexive(a: ValueView)
    ensures
        !value_lt(a, a),
{
    if let ValueView::Str(x) = a {
        crate::text::lemma_seq_lt_irreflexive(x);
    }
}

/// The order of cells is transitive.
pub proof fn lemma_value_lt_transitive(a: ValueView, b: ValueView, c: ValueView)
    requires
        value_lt(a, b),
        value_lt(b, c),
    ensures
        value_lt(a, c),
{
    if let (ValueView::Str(x), ValueView::Str(y), ValueView::Str(z)) = (a, b, c) {
        crate::text::lemma_seq_lt_transitive(x, y, z);
    }
}

/// Whether cell `a` comes before cell `b`.
pub fn value_less(a: &Value, b: &Value) -> (r: bool)
    ensures
        r == value_lt(a@, b@),
{
    match (a, b) {
        (Value::Null, Value::Null) => false,
        (Value::Null, _) => true,
        (Value::Int(x), Value::Int(y)) => *x < *y,
        (Value::Int(_), Value::Null) => false,
        (Value::Int(_), _) => true,
        (Value::Str(x), Value::Str(y)) => crate::text::str_lt(x.as_str(), y.as_str()),
        (Value::Str(_), Value::Binary) => true,
        (Value::Str(_), _) => false,
        (Value::Binary, _) => false,
    }
}

} // verus!

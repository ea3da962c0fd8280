//! Values as they cross the service boundary, values as the backend holds
//! them, and the conversion between the two.
//!
//! A floating point number is carried as the bits of its IEEE-754 binary64
//! form, so that two values are equal exactly when they are the same number
//! with the same bits.

use vstd::prelude::*;

verus! {

/// A value of the protocol: what a caller binds to a parameter and what it
/// finds in a result row.
#[derive(Clone, Debug, PartialEq, Eq)]
pub enum Value {
    Null,
    Boolean(bool),
    Integer(i64),
    /// The bits of a binary64 number.
    Float(u64),
    Text(String),
    Bytes(Vec<u8>),
    /// A JSON document in its text form.
    Json(String),
    /// Days since 2000-01-01.
    Date(i32),
    /// Microseconds since 2000-01-01 00:00:00.
    Timestamp(i64),
    IntegerArray(Vec<i64>),
    TextArray(Vec<String>),
}

/// The mathematical content of a [`Value`].
pub enum ValueView {
    Null,
    Boolean(bool),
    Integer(i64),
    Float(u64),
    Text(Seq<char>),
    Bytes(Seq<u8>),
    Json(Seq<char>),
    Date(i32),
    Timestamp(i64),
    IntegerArray(Seq<i64>),
    TextArray(Seq<Seq<char>>),
}

/// A value in one of the backend's own types, as a driver reads it from a
/// column or binds it to a parameter.
#[derive(Clone, Debug, PartialEq, Eq)]
pub enum NativeValue {
    Null,
    Bool(bool),
    Int2(i16),
    Int4(i32),
    Int8(i64),
    /// The bits of a binary64 number.
    Float8(u64),
    Text(String),
    Bytea(Vec<u8>),
    Json(String),
    Date(i32),
    Timestamp(i64),
    Int4Array(Vec<i32>),
    Int8Array(Vec<i64>),
    TextArray(Vec<String>),
    /// A value of a backend type that the protocol has no kind for, with the
    /// backend's number of that type.
    Unsupported(u32),
}

/// The mathematical content of a [`NativeValue`].
pub enum NativeView {
    Null,
    Bool(bool),
    Int2(i16),
    Int4(i32),
    Int8(i64),
    Float8(u64),
    Text(Seq<char>),
    Bytea(Seq<u8>),
    Json(Seq<char>),
    Date(i32),
    Timestamp(i64),
    Int4Array(Seq<i32>),
    Int8Array(Seq<i64>),
    TextArray(Seq<Seq<char>>),
    Unsupported(u32),
}

impl View for Value {
    type V = ValueView;

    open spec fn view(&self) -> ValueView {
        match self {
            Value::Null => ValueView::Null,
            Value::Boolean(b) => ValueView::Boolean(*b),
            Value::Integer(n) => ValueView::Integer(*n),
            Value::Float(bits) => ValueView::Float(*bits),
            Value::Text(s) => ValueView::Text(s@),
            Value::Bytes(b) => ValueView::Bytes(b@),
            Value::Json(s) => ValueView::Json(s@),
            Value::Date(d) => ValueView::Date(*d),
            Value::Timestamp(t) => ValueView::Timestamp(*t),
            Value::IntegerArray(a) => ValueView::IntegerArray(a@),
            Value::TextArray(a) => ValueView::TextArray(a.deep_view()),
        }
    }
}

impl View for NativeValue {
    type V = NativeView;

    open spec fn view(&self) -> NativeView {
        match self {
            NativeValue::Null => NativeView::Null,
            NativeValue::Bool(b) => NativeView::Bool(*b),
            NativeValue::Int2(n) => NativeView::Int2(*n),
            NativeValue::Int4(n) => NativeView::Int4(*n),
            NativeValue::Int8(n) => NativeView::Int8(*n),
            NativeValue::Float8(bits) => NativeView::Float8(*bits),
            NativeValue::Text(s) => NativeView::Text(s@),
            NativeValue::Bytea(b) => NativeView::Bytea(b@),
            NativeValue::Json(s) => NativeView::Json(s@),
            NativeValue::Date(d) => NativeView::Date(*d),
            NativeValue::Timestamp(t) => NativeView::Timestamp(*t),
            NativeValue::Int4Array(a) => NativeView::Int4Array(a@),
            NativeValue::Int8Array(a) => NativeView::Int8Array(a@),
            NativeValue::TextArray(a) => NativeView::TextArray(a.deep_view()),
            NativeValue::Unsupported(oid) => NativeView::Unsupported(*oid),
        }
    }
}

/// The protocol value that stands for a backend value: the same truth
/// value, number, text or bytes, with the narrower integers widened. A value
/// of an unsupported type stands for nothing.
pub open spec fn decoded(native: NativeView) -> Option<ValueView> {
    match native {
        NativeView::Null => Some(ValueView::Null),
        NativeView::Bool(b) => Some(ValueView::Boolean(b)),
        NativeView::Int2(n) => Some(ValueView::Integer(n as i64)),
        NativeView::Int4(n) => Some(ValueView::Integer(n as i64)),
        NativeView::Int8(n) => Some(ValueView::Integer(n)),
        NativeView::Float8(bits) => Some(ValueView::Float(bits)),
        NativeView::Text(s) => Some(ValueView::Text(s)),
        NativeView::Bytea(b) => Some(ValueView::Bytes(b)),
        NativeView::Json(s) => Some(ValueView::Json(s)),
        NativeView::Date(d) => Some(ValueView::Date(d)),
        NativeView::Timestamp(t) => Some(ValueView::Timestamp(t)),
        NativeView::Int4Array(a) => Some(
            ValueView::IntegerArray(Seq::new(a.len(), |i: int| a[i] as i64)),
        ),
        NativeView::Int8Array(a) => Some(ValueView::IntegerArray(a)),
        NativeView::TextArray(a) => Some(ValueView::TextArray(a)),
        NativeView::Unsupported(_) => None,
    }
}

/// The backend value that a protocol value is bound as.
pub open spec fn encoded(value: ValueView) -> NativeView {
    match value {
        ValueView::Null => NativeView::Null,
        ValueView::Boolean(b) => NativeView::Bool(b),
        ValueView::Integer(n) => NativeView::Int8(n),
        ValueView::Float(bits) => NativeView::Float8(bits),
        ValueView::Text(s) => NativeView::Text(s),
        ValueView::Bytes(b) => NativeView::Bytea(b),
        ValueView::Json(s) => NativeView::Json(s),
        ValueView::Date(d) => NativeView::Date(d),
        ValueView::Timestamp(t) => NativeView::Timestamp(t),
        ValueView::IntegerArray(a) => NativeView::Int8Array(a),
        ValueView::TextArray(a) => NativeView::TextArray(a),
    }
}

/// A backend value that no protocol value stands for.
#[derive(Clone, Copy, Debug, PartialEq, Eq, Structural)]
pub struct Unrepresentable {
    /// The backend's number of the value's type.
    pub type_oid: u32,
}

fn copy_bytes(bytes: &Vec<u8>) -> (r: Vec<u8>)
    ensures
        r@ == bytes@,
{
    let mut r: Vec<u8> = Vec::new();
    let mut i: usize = 0;
    while i < bytes.len()
        invariant
            0 <= i <= bytes.len(),
            r@ == bytes@.take(i as int),
        decreases bytes.len() - i,
    {
        r.push(bytes[i]);
        i += 1;
    }
    r
}

fn copy_integers(numbers: &Vec<i64>) -> (r: Vec<i64>)
    ensures
        r@ == numbers@,
{
    let mut r: Vec<i64> = Vec::new();
    let mut i: usize = 0;
    while i < numbers.len()
        invariant
            0 <= i <= numbers.len(),
            r@ == numbers@.take(i as int),
        decreases numbers.len() - i,
    {
        r.push(numbers[i]);
        i += 1;
    }
    r
}

fn widen_integers(numbers: &Vec<i32>) -> (r: Vec<i64>)
    ensures
        r@ == Seq::new(numbers@.len(), |i: int| numbers@[i] as i64),
{
    let mut r: Vec<i64> = Vec::new();
    let mut i: usize = 0;
    while i < numbers.len()
        invariant
            0 <= i <= numbers.len(),
            r@.len() == i,
            forall|j: int| 0 <= j < i ==> r@[j] == numbers@[j] as i64,
        decreases numbers.len() - i,
    {
        r.push(numbers[i] as i64);
        i += 1;
    }
    r
}

fn copy_texts(texts: &Vec<String>) -> (r: Vec<String>)
    ensures
        r.deep_view() == texts.deep_view(),
{
    let mut r: Vec<String> = Vec::new();
    let mut i: usize = 0;
    while i < texts.len()
        invariant
            0 <= i <= texts.len(),
            r@.len() == i,
            forall|j: int| 0 <= j < i ==> r@[j]@ == texts@[j]@,
        decreases texts.len() - i,
    {
        r.push(texts[i].clone());
        i += 1;
    }
    r
}

/// Converts a backend value to the protocol value that stands for it, or
/// says that none does.
pub fn from_native(native: &NativeValue) -> (r: Result<Value, Unrepresentable>)
    ensures
        match r {
            Ok(value) => decoded(native@) == Some(value@),
            Err(fault) => native@ == NativeView::Unsupported(fault.type_oid),
        },
{
    match native {
        NativeValue::Null => Ok(Value::Null),
        NativeValue::Bool(b) => Ok(Value::Boolean(*b)),
        NativeValue::Int2(n) => Ok(Value::Integer(*n as i64)),
        NativeValue::Int4(n) => Ok(Value::Integer(*n as i64)),
        NativeValue::Int8(n) => Ok(Value::Integer(*n)),
        NativeValue::Float8(bits) => Ok(Value::Float(*bits)),
        NativeValue::Text(s) => Ok(Value::Text(s.clone())),
        NativeValue::Bytea(b) => Ok(Value::Bytes(copy_bytes(b))),
        NativeValue::Json(s) => Ok(Value::Json(s.clone())),
        NativeValue::Date(d) => Ok(Value::Date(*d)),
        NativeValue::Timestamp(t) => Ok(Value::Timestamp(*t)),
        NativeValue::Int4Array(a) => Ok(Value::IntegerArray(widen_integers(a))),
        NativeValue::Int8Array(a) => Ok(Value::IntegerArray(copy_integers(a))),
        NativeValue::TextArray(a) => Ok(Value::TextArray(copy_texts(a))),
        NativeValue::Unsupported(oid) => Err(Unrepresentable { type_oid: *oid }),
    }
}

/// Converts a protocol value to the backend value it is bound as.
pub fn to_native(value: &Value) -> (r: NativeValue)
    ensures
        r@ == encoded(value@),
{
    match value {
        Value::Null => NativeValue::Null,
        Value::Boolean(b) => NativeValue::Bool(*b),
        Value::Integer(n) => NativeValue::Int8(*n),
        Value::Float(bits) => NativeValue::Float8(*bits),
        Value::Text(s) => NativeValue::Text(s.clone()),
        Value::Bytes(b) => NativeValue::Bytea(copy_bytes(b)),
        Value::Json(s) => NativeValue::Json(s.clone()),
        Value::Date(d) => NativeValue::Date(*d),
        Value::Timestamp(t) => NativeValue::Timestamp(*t),
        Value::IntegerArray(a) => NativeValue::Int8Array(copy_integers(a)),
        Value::TextArray(a) => NativeValue::TextArray(copy_texts(a)),
    }
}

/// The backend values that a list of parameters is bound as, in order.
pub open spec fn encoded_all(values: Seq<ValueView>) -> Seq<NativeView> {
    Seq::new(values.len(), |i: int| encoded(values[i]))
}

pub open spec fn value_views(values: Seq<Value>) -> Seq<ValueView> {
    Seq::new(values.len(), |i: int| values[i]@)
}

pub open spec fn native_views(values: Seq<NativeValue>) -> Seq<NativeView> {
    Seq::new(values.len(), |i: int| values[i]@)
}

/// Converts positional parameters to the backend values they are bound as.
pub fn to_native_params(params: &Vec<Value>) -> (r: Vec<NativeValue>)
    ensures
        native_views(r@) == encoded_all(value_views(params@)),
{
    let mut r: Vec<NativeValue> = Vec::new();
    let mut i: usize = 0;
    while i < params.len()
        invariant
            0 <= i <= params.len(),
            r@.len() == i,
            forall|j: int| 0 <= j < i ==> r@[j]@ == encoded(params@[j]@),
        decreases params.len() - i,
    {
        r.push(to_native(&params[i]));
        i += 1;
    }
    r
}

/// Every protocol value comes back unchanged from the backend form it is
/// bound as: converting to the backend form and back loses nothing.
pub proof fn law_round_trip(value: ValueView)
    ensures
        decoded(encoded(value)) == Some(value),
{
}

/// A protocol value that a backend value was converted to is bound as a
/// backend value that converts to it again: a value that a query gave can
/// be sent back as a parameter and read once more without change.
pub proof fn law_query_value_round_trip(native: NativeView)
    requires
        decoded(native) is Some,
    ensures
        decoded(encoded(decoded(native)->0)) == decoded(native),
{
    law_round_trip(decoded(native)->0);
}

} // verus!

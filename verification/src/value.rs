//! Values and named values, as carried by span fields and metric attributes.

use vstd::prelude::*;

verus! {

/// What a span field or a metric attribute holds.
#[derive(Debug)]
pub enum Value {
    Str(String),
    I64(i64),
    U64(u64),
    Bool(bool),
}

/// The mathematical content of a [`Value`].
pub enum ValueView {
    Str(Seq<char>),
    I64(i64),
    U64(u64),
    Bool(bool),
}

impl DeepView for Value {
    type V = ValueView;

    open spec fn deep_view(&self) -> ValueView {
        match *self {
            Value::Str(s) => ValueView::Str(s@),
            Value::I64(n) => ValueView::I64(n),
            Value::U64(n) => ValueView::U64(n),
            Value::Bool(b) => ValueView::Bool(b),
        }
    }
}

impl View for Value {
    type V = ValueView;

    open spec fn view(&self) -> ValueView {
        self.deep_view()
    }
}

impl Clone for Value {
    fn clone(&self) -> (copy: Self)
        ensures
            copy@ == self@,
    {
        match self {
            Value::Str(s) => Value::Str(s.clone()),
            Value::I64(n) => Value::I64(*n),
            Value::U64(n) => Value::U64(*n),
            Value::Bool(b) => Value::Bool(*b),
        }
    }
}

/// A name with a value: one span field, or one metric attribute.
#[derive(Debug)]
pub struct KeyValue {
    pub key: String,
    pub value: Value,
}

/// The mathematical content of a [`KeyValue`].
pub struct KeyValueView {
    pub key: Seq<char>,
    pub value: ValueView,
}

impl DeepView for KeyValue {
    type V = KeyValueView;

    open spec fn deep_view(&self) -> KeyValueView {
        KeyValueView { key: self.key@, value: self.value@ }
    }
}

impl View for KeyValue {
    type V = KeyValueView;

    open spec fn view(&self) -> KeyValueView {
        self.deep_view()
    }
}

impl Clone for KeyValue {
    fn clone(&self) -> (copy: Self)
        ensures
            copy@ == self@,
    {
        KeyValue { key: self.key.clone(), value: self.value.clone() }
    }
}

/// The pair `key = value` with a text value.
pub open spec fn text(key: Seq<char>, value: Seq<char>) -> KeyValueView {
    KeyValueView { key, value: ValueView::Str(value) }
}

/// The pair `key = value` with a signed value.
pub open spec fn signed(key: Seq<char>, value: i64) -> KeyValueView {
    KeyValueView { key, value: ValueView::I64(value) }
}

/// The pair `key = value` with an unsigned value.
pub open spec fn unsigned(key: Seq<char>, value: u64) -> KeyValueView {
    KeyValueView { key, value: ValueView::U64(value) }
}

/// The pair `key = value` with a truth value.
pub open spec fn flag(key: Seq<char>, value: bool) -> KeyValueView {
    KeyValueView { key, value: ValueView::Bool(value) }
}

impl KeyValue {
    /// A pair with a text value.
    pub fn text(key: &str, value: &str) -> (pair: KeyValue)
        ensures
            pair@ == text(key@, value@),
    {
        KeyValue { key: key.to_owned(), value: Value::Str(value.to_owned()) }
    }

    /// A pair with a signed value.
    pub fn signed(key: &str, value: i64) -> (pair: KeyValue)
        ensures
            pair@ == signed(key@, value),
    {
        KeyValue { key: key.to_owned(), value: Value::I64(value) }
    }

    /// A pair with an unsigned value.
    pub fn unsigned(key: &str, value: u64) -> (pair: KeyValue)
        ensures
            pair@ == unsigned(key@, value),
    {
        KeyValue { key: key.to_owned(), value: Value::U64(value) }
    }

    /// A pair with a truth value.
    pub fn flag(key: &str, value: bool) -> (pair: KeyValue)
        ensures
            pair@ == flag(key@, value),
    {
        KeyValue { key: key.to_owned(), value: Value::Bool(value) }
    }
}

/// A copy of a list of pairs.
pub fn clone_pairs(pairs: &Vec<KeyValue>) -> (copy: Vec<KeyValue>)
    ensures
        copy.deep_view() == pairs.deep_view(),
{
    let mut copy: Vec<KeyValue> = Vec::new();
    let mut i: usize = 0;
    while i < pairs.len()
        invariant
            i <= pairs.len(),
            copy.len() == i,
            forall|j: int| 0 <= j < i ==> copy@[j]@ == pairs@[j]@,
        decreases pairs.len() - i,
    {
        copy.push(pairs[i].clone());
        i += 1;
    }
    assert(copy.deep_view() =~= pairs.deep_view());
    copy
}

/// Appends copies of `more` to `pairs`.
pub fn extend_pairs(pairs: &mut Vec<KeyValue>, more: &Vec<KeyValue>)
    ensures
        final(pairs).deep_view() == old(pairs).deep_view() + more.deep_view(),
{
    let ghost before = pairs.deep_view();
    let mut i: usize = 0;
    while i < more.len()
        invariant
            i <= more.len(),
            pairs.deep_view() == before + more.deep_view().subrange(0, i as int),
        decreases more.len() - i,
    {
        let ghost prev = pairs.deep_view();
        pairs.push(more[i].clone());
        assert(pairs.deep_view() =~= prev.push(more@[i as int]@));
        assert(before + more.deep_view().subrange(0, i + 1) =~= (before + more.deep_view().subrange(
            0,
            i as int,
        )).push(more@[i as int]@));
        i += 1;
    }
    assert(more.deep_view().subrange(0, more.len() as int) =~= more.deep_view());
}

} // verus!

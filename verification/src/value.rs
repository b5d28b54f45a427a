use crate::text::same_text;
use crate::types::{collection_name, is_collection_name, TypeExpr, TypeShape};
use crate::views::views_of;
use vstd::prelude::*;

verus! {

/// A value of a field, by shape.
#[derive(Debug, PartialEq, Eq)]
pub enum Value {
    Bool(bool),
    Signed(i128),
    Unsigned(u128),
    /// A floating point number, by its bits.
    Float(u64),
    Char(char),
    Text(String),
    /// An optional value that is not there.
    Absent,
    /// An optional value that is there.
    Present(Box<Value>),
    /// The items of a container, in the order in which it hands them out.
    Sequence(Vec<Value>),
    Tuple(Vec<Value>),
    /// A struct, by its fields.
    Record(Vec<Entry>),
    /// The default value of a type of which no more is known.
    DefaultOf(TypeExpr),
    /// Any other value, by a description.
    Opaque(String),
}

/// A field of a struct value: its name and its value.
#[derive(Clone, Debug, PartialEq, Eq)]
pub struct Entry {
    pub name: String,
    pub value: Value,
}

pub enum ValueView {
    Bool(bool),
    Signed(i128),
    Unsigned(u128),
    Float(u64),
    Char(char),
    Text(Seq<char>),
    Absent,
    Present(Box<ValueView>),
    Sequence(Seq<ValueView>),
    Tuple(Seq<ValueView>),
    Record(Seq<(Seq<char>, ValueView)>),
    DefaultOf(TypeShape),
    Opaque(Seq<char>),
}

/// A value that stands where there is none.
pub open spec fn no_value() -> ValueView {
    ValueView::Absent
}

/// The mathematical form of a value.
pub open spec fn value_view(value: Value) -> ValueView
    decreases value,
{
    match value {
        Value::Bool(b) => ValueView::Bool(b),
        Value::Signed(n) => ValueView::Signed(n),
        Value::Unsigned(n) => ValueView::Unsigned(n),
        Value::Float(bits) => ValueView::Float(bits),
        Value::Char(c) => ValueView::Char(c),
        Value::Text(s) => ValueView::Text(s@),
        Value::Absent => ValueView::Absent,
        Value::Present(inner) => ValueView::Present(Box::new(value_view(*inner))),
        Value::Sequence(items) => ValueView::Sequence(
            Seq::new(
                items.len() as nat,
                |i: int|
                    if 0 <= i < items.len() {
                        value_view(items[i])
                    } else {
                        no_value()
                    },
            ),
        ),
        Value::Tuple(items) => ValueView::Tuple(
            Seq::new(
                items.len() as nat,
                |i: int|
                    if 0 <= i < items.len() {
                        value_view(items[i])
                    } else {
                        no_value()
                    },
            ),
        ),
        Value::Record(entries) => ValueView::Record(
            Seq::new(
                entries.len() as nat,
                |i: int|
                    if 0 <= i < entries.len() {
                        (entries[i].name@, value_view(entries[i].value))
                    } else {
                        (Seq::empty(), no_value())
                    },
            ),
        ),
        Value::DefaultOf(ty) => ValueView::DefaultOf(ty@),
        Value::Opaque(s) => ValueView::Opaque(s@),
    }
}

impl View for Value {
    type V = ValueView;

    open spec fn view(&self) -> ValueView {
        value_view(*self)
    }
}

impl View for Entry {
    type V = (Seq<char>, ValueView);

    open spec fn view(&self) -> (Seq<char>, ValueView) {
        (self.name@, self.value@)
    }
}

impl Clone for Value {
    fn clone(&self) -> (copy: Value)
        ensures
            copy@ == self@,
    {
        self.duplicate()
    }
}

/// The view of a container value is made of the views of its items.
pub proof fn lemma_sequence_view(value: Value)
    requires
        value is Sequence,
    ensures
        value@ == ValueView::Sequence(views_of(value->Sequence_0@)),
{
    assert(value@->Sequence_0 =~= views_of(value->Sequence_0@));
}

/// The view of a tuple value is made of the views of its items.
pub proof fn lemma_tuple_view(value: Value)
    requires
        value is Tuple,
    ensures
        value@ == ValueView::Tuple(views_of(value->Tuple_0@)),
{
    assert(value@->Tuple_0 =~= views_of(value->Tuple_0@));
}

/// The view of a struct value is made of the views of its fields.
pub proof fn lemma_record_view(value: Value)
    requires
        value is Record,
    ensures
        value@ == ValueView::Record(views_of(value->Record_0@)),
{
    assert(value@->Record_0 =~= views_of(value->Record_0@));
}

impl Value {
    /// A copy of the value.
    pub fn duplicate(&self) -> (copy: Value)
        ensures
            copy@ == self@,
        decreases self,
    {
        match self {
            Value::Bool(b) => Value::Bool(*b),
            Value::Signed(n) => Value::Signed(*n),
            Value::Unsigned(n) => Value::Unsigned(*n),
            Value::Float(bits) => Value::Float(*bits),
            Value::Char(c) => Value::Char(*c),
            Value::Text(s) => Value::Text(s.clone()),
            Value::Absent => Value::Absent,
            Value::Present(inner) => Value::Present(Box::new(inner.duplicate())),
            Value::Sequence(items) => {
                let mut copies: Vec<Value> = Vec::new();
                let mut i: usize = 0;
                while i < items.len()
                    invariant
                        i <= items.len(),
                        copies.len() == i,
                        forall|k: int| 0 <= k < items.len() ==> decreases_to!(self => items[k]),
                        forall|k: int| 0 <= k < i ==> copies[k]@ == items[k]@,
                    decreases items.len() - i,
                {
                    let item = items[i].duplicate();
                    copies.push(item);
                    i = i + 1;
                }
                let copy = Value::Sequence(copies);
                proof {
                    lemma_sequence_view(copy);
                    lemma_sequence_view(*self);
                    assert(views_of(copies@) =~= views_of(items@));
                }
                copy
            },
            Value::Tuple(items) => {
                let mut copies: Vec<Value> = Vec::new();
                let mut i: usize = 0;
                while i < items.len()
                    invariant
                        i <= items.len(),
                        copies.len() == i,
                        forall|k: int| 0 <= k < items.len() ==> decreases_to!(self => items[k]),
                        forall|k: int| 0 <= k < i ==> copies[k]@ == items[k]@,
                    decreases items.len() - i,
                {
                    let item = items[i].duplicate();
                    copies.push(item);
                    i = i + 1;
                }
                let copy = Value::Tuple(copies);
                proof {
                    lemma_tuple_view(copy);
                    lemma_tuple_view(*self);
                    assert(views_of(copies@) =~= views_of(items@));
                }
                copy
            },
            Value::Record(entries) => {
                let mut copies: Vec<Entry> = Vec::new();
                let mut i: usize = 0;
                while i < entries.len()
                    invariant
                        i <= entries.len(),
                        copies.len() == i,
                        forall|k: int|
                            0 <= k < entries.len() ==> decreases_to!(self => entries[k].value),
                        forall|k: int| 0 <= k < i ==> copies[k]@ == entries[k]@,
                    decreases entries.len() - i,
                {
                    let value = entries[i].value.duplicate();
                    copies.push(Entry { name: entries[i].name.clone(), value });
                    i = i + 1;
                }
                let copy = Value::Record(copies);
                proof {
                    lemma_record_view(copy);
                    lemma_record_view(*self);
                    assert(views_of(copies@) =~= views_of(entries@));
                }
                copy
            },
            Value::DefaultOf(ty) => Value::DefaultOf(ty.duplicate()),
            Value::Opaque(s) => Value::Opaque(s.clone()),
        }
    }
}

/// Whether `name` is one of the unsigned integer types.
pub open spec fn is_unsigned_name(name: Seq<char>) -> bool {
    ||| name == "u8"@
    ||| name == "u16"@
    ||| name == "u32"@
    ||| name == "u64"@
    ||| name == "u128"@
    ||| name == "usize"@
}

/// Whether `name` is one of the signed integer types.
pub open spec fn is_signed_name(name: Seq<char>) -> bool {
    ||| name == "i8"@
    ||| name == "i16"@
    ||| name == "i32"@
    ||| name == "i64"@
    ||| name == "i128"@
    ||| name == "isize"@
}

/// The default value of the type with the given name, where the name tells
/// it: zero for a number, `false`, the character of code zero, the empty
/// text, the empty container, and no value for `Option`.
pub open spec fn default_of_name(name: Seq<char>) -> Option<ValueView> {
    if is_unsigned_name(name) {
        Some(ValueView::Unsigned(0))
    } else if is_signed_name(name) {
        Some(ValueView::Signed(0))
    } else if name == "f32"@ || name == "f64"@ {
        Some(ValueView::Float(0))
    } else if name == "bool"@ {
        Some(ValueView::Bool(false))
    } else if name == "char"@ {
        Some(ValueView::Char('\0'))
    } else if name == "String"@ {
        Some(ValueView::Text(Seq::empty()))
    } else if is_collection_name(name) {
        Some(ValueView::Sequence(Seq::empty()))
    } else if name == "Option"@ {
        Some(ValueView::Absent)
    } else {
        None
    }
}

/// The default value of a type: what its name tells, where the type is a
/// name or carried text; else the default value of that type as such.
pub open spec fn default_view(ty: TypeShape) -> ValueView {
    let known = match ty {
        TypeShape::Named { name, .. } => default_of_name(name),
        TypeShape::Verbatim { text } => default_of_name(text),
        _ => None,
    };
    match known {
        Some(value) => value,
        None => ValueView::DefaultOf(ty),
    }
}

/// The default value of the type with the given name, where the name tells
/// it.
pub fn default_for_name(name: &str) -> (value: Option<Value>)
    ensures
        (match value {
            Some(v) => default_of_name(name@) == Some(v@),
            None => default_of_name(name@) is None,
        }),
{
    if same_text(name, "u8") || same_text(name, "u16") || same_text(name, "u32") || same_text(
        name,
        "u64",
    ) || same_text(name, "u128") || same_text(name, "usize") {
        Some(Value::Unsigned(0))
    } else if same_text(name, "i8") || same_text(name, "i16") || same_text(name, "i32")
        || same_text(name, "i64") || same_text(name, "i128") || same_text(name, "isize") {
        Some(Value::Signed(0))
    } else if same_text(name, "f32") || same_text(name, "f64") {
        Some(Value::Float(0))
    } else if same_text(name, "bool") {
        Some(Value::Bool(false))
    } else if same_text(name, "char") {
        Some(Value::Char('\0'))
    } else if same_text(name, "String") {
        Some(Value::Text(String::new()))
    } else if collection_name(name) {
        let value = Value::Sequence(Vec::new());
        proof {
            lemma_sequence_view(value);
            assert(views_of(value->Sequence_0@) =~= Seq::empty());
        }
        Some(value)
    } else if same_text(name, "Option") {
        Some(Value::Absent)
    } else {
        None
    }
}

/// The default value of a type; see [`default_view`].
pub fn default_value(ty: &TypeExpr) -> (value: Value)
    ensures
        value@ == default_view(ty@),
{
    let known = match ty {
        TypeExpr::Named { name, .. } => default_for_name(name.as_str()),
        TypeExpr::Verbatim { text } => default_for_name(text.as_str()),
        _ => None,
    };
    match known {
        Some(value) => value,
        None => Value::DefaultOf(ty.duplicate()),
    }
}

} // verus!

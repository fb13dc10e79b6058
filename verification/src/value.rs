//! Structured values, as registry records are written in.

use vstd::prelude::*;

verus! {

/// A structured value of the shape that registry records are written in:
/// scalars, arrays of values, and objects with named members.
#[derive(Debug, PartialEq, Eq)]
pub enum Value {
    Null,
    Bool(bool),
    /// A number, kept as the decimal text it was written with.
    Number(String),
    Text(String),
    Array(Vec<Value>),
    /// The members of an object, in the order they were written.
    Object(Vec<(String, Value)>),
}

/// What a `Value` stands for: the same tree, with sequences for its texts,
/// arrays and objects.
pub enum ValueModel {
    Null,
    Bool(bool),
    Number(Seq<char>),
    Text(Seq<char>),
    Array(Seq<ValueModel>),
    Object(Seq<(Seq<char>, ValueModel)>),
}

impl ValueModel {
    /// The elements of an array; any other value has none.
    pub open spec fn items(self) -> Seq<ValueModel> {
        match self {
            ValueModel::Array(elements) => elements,
            _ => Seq::empty(),
        }
    }

    /// The characters of a text value, if it is one.
    pub open spec fn text(self) -> Option<Seq<char>> {
        match self {
            ValueModel::Text(s) => Some(s),
            _ => None,
        }
    }
}

/// The model of a value.
pub open spec fn model_of(v: Value) -> ValueModel
    decreases v,
{
    match v {
        Value::Null => ValueModel::Null,
        Value::Bool(b) => ValueModel::Bool(b),
        Value::Number(n) => ValueModel::Number(n@),
        Value::Text(s) => ValueModel::Text(s@),
        Value::Array(elements) => ValueModel::Array(
            Seq::new(
                elements@.len(),
                |i: int|
                    if 0 <= i < elements@.len() {
                        model_of(elements@[i])
                    } else {
                        ValueModel::Null
                    },
            ),
        ),
        Value::Object(members) => ValueModel::Object(
            Seq::new(
                members@.len(),
                |i: int|
                    if 0 <= i < members@.len() {
                        (members@[i].0@, model_of(members@[i].1))
                    } else {
                        (Seq::empty(), ValueModel::Null)
                    },
            ),
        ),
    }
}

/// The models of a sequence of values, one for one.
pub open spec fn models_of(values: Seq<Value>) -> Seq<ValueModel> {
    Seq::new(values.len(), |i: int| model_of(values[i]))
}

impl View for Value {
    type V = ValueModel;

    open spec fn view(&self) -> ValueModel {
        model_of(*self)
    }
}

/// An array's model holds the models of its elements, in their order.
pub proof fn lemma_array_model(elements: Vec<Value>)
    ensures
        Value::Array(elements)@ == ValueModel::Array(models_of(elements@)),
        Value::Array(elements)@.items() == models_of(elements@),
{
    assert(model_of(Value::Array(elements)).items() =~= models_of(elements@));
}

} // verus!

//! The structured form of an output: a named record of keyed values, ready for an encoder.

use vstd::prelude::*;
use crate::dialogue::OutputView;

verus! {

/// A value of a field.
#[derive(Debug, PartialEq, Eq)]
pub enum Value {
    Str(String),
    Uint(usize),
    Bool(bool),
}

/// The mathematical value of a [`Value`].
pub enum ValueView {
    Str(Seq<char>),
    Uint(nat),
    Bool(bool),
}

impl View for Value {
    type V = ValueView;

    open spec fn view(&self) -> ValueView {
        match self {
            Value::Str(text) => ValueView::Str(text@),
            Value::Uint(number) => ValueView::Uint(*number as nat),
            Value::Bool(truth) => ValueView::Bool(*truth),
        }
    }
}

/// A key with its value.
#[derive(Debug, PartialEq, Eq)]
pub struct Field {
    pub key: &'static str,
    pub value: Value,
}

/// The mathematical value of a [`Field`].
pub struct FieldView {
    pub key: Seq<char>,
    pub value: ValueView,
}

impl View for Field {
    type V = FieldView;

    open spec fn view(&self) -> FieldView {
        FieldView { key: self.key@, value: self.value@ }
    }
}

/// A record: the name of its kind, and its fields in the order in which they are encoded.
#[derive(Debug, PartialEq, Eq)]
pub struct Record {
    pub name: &'static str,
    pub fields: Vec<Field>,
}

/// The mathematical value of a [`Record`].
pub struct RecordView {
    pub name: Seq<char>,
    pub fields: Seq<FieldView>,
}

impl View for Record {
    type V = RecordView;

    open spec fn view(&self) -> RecordView {
        RecordView { name: self.name@, fields: self.fields@.map_values(|field: Field| field@) }
    }
}

/// The record of an output: its name, its id and its state, under these keys and in this
/// order.
pub open spec fn encoded(output: OutputView) -> RecordView {
    RecordView {
        name: "MpdOutput"@,
        fields: seq![
            FieldView { key: "name"@, value: ValueView::Str(output.name) },
            FieldView { key: "id"@, value: ValueView::Uint(output.id as nat) },
            FieldView { key: "enabled"@, value: ValueView::Bool(output.enabled) },
        ],
    }
}

/// The records of a list of outputs, in the order of the list.
pub open spec fn encoded_list(outputs: Seq<OutputView>) -> Seq<RecordView> {
    outputs.map_values(|output: OutputView| encoded(output))
}

} // verus!

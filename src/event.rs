//! The incoming log event: its level, source, module and typed fields.

use vstd::prelude::*;
use crate::level::TraceLevel;

verus! {

/// The value of one field, by the kind that the framework reported it as.
/// Structured errors and debug-formatted values arrive as their debug
/// rendering.
#[derive(Clone, Debug)]
pub enum FieldValue {
    I64(i64),
    U64(u64),
    Bool(bool),
    Str(String),
    Error(String),
    Debug(String),
}

/// The mathematical value of a [`FieldValue`].
pub enum ValueModel {
    Signed(int),
    Unsigned(int),
    Boolean(bool),
    Text(Seq<char>),
    ErrorText(Seq<char>),
    DebugText(Seq<char>),
}

impl View for FieldValue {
    type V = ValueModel;

    open spec fn view(&self) -> ValueModel {
        match self {
            FieldValue::I64(n) => ValueModel::Signed(*n as int),
            FieldValue::U64(n) => ValueModel::Unsigned(*n as int),
            FieldValue::Bool(b) => ValueModel::Boolean(*b),
            FieldValue::Str(s) => ValueModel::Text(s@),
            FieldValue::Error(s) => ValueModel::ErrorText(s@),
            FieldValue::Debug(s) => ValueModel::DebugText(s@),
        }
    }
}

/// One named, typed value attached to an event.
#[derive(Clone, Debug)]
pub struct Field {
    pub name: String,
    pub value: FieldValue,
}

/// A log event: severity level, logical source (`target`), optional module
/// path, and its fields in the order the framework visits them.
#[derive(Clone, Debug)]
pub struct EventData {
    pub level: TraceLevel,
    pub target: String,
    pub module: Option<String>,
    pub fields: Vec<Field>,
}

} // verus!

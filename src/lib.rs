//! Conversion of structured log events into breadcrumbs and diagnostic
//! events for an error-reporting service.
//!
//! An event's fields are walked by a [`visitor::FieldVisitor`], which renders
//! each one into a display fragment and a JSON value; the assemblers in
//! [`convert`] fold that result and the event's metadata into the two
//! output records.

pub mod level;
pub mod text;
pub mod ansi;
pub mod event;
pub mod visitor;
pub mod convert;
pub mod laws;

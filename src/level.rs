//! Severity levels of incoming events and of produced records.

use vstd::prelude::*;

verus! {

/// The level that the instrumentation framework attaches to an event.
#[derive(Clone, Copy, Debug, PartialEq, Eq, Structural)]
pub enum TraceLevel {
    Error,
    Warn,
    Info,
    Debug,
    Trace,
}

/// The severity of a produced breadcrumb or diagnostic event.
#[derive(Clone, Copy, Debug, PartialEq, Eq, Structural)]
pub enum Severity {
    Error,
    Warning,
    Info,
    Debug,
}

/// The severity that an event level maps to: the two most granular levels
/// both collapse to `Debug`.
pub open spec fn severity_of(level: TraceLevel) -> Severity {
    match level {
        TraceLevel::Error => Severity::Error,
        TraceLevel::Warn => Severity::Warning,
        TraceLevel::Info => Severity::Info,
        TraceLevel::Debug | TraceLevel::Trace => Severity::Debug,
    }
}

/// Maps an event level to the severity of the produced records.
pub fn convert_tracing_level(level: &TraceLevel) -> (r: Severity)
    ensures
        r == severity_of(*level),
{
    match level {
        TraceLevel::Error => Severity::Error,
        TraceLevel::Warn => Severity::Warning,
        TraceLevel::Info => Severity::Info,
        TraceLevel::Debug | TraceLevel::Trace => Severity::Debug,
    }
}

} // verus!

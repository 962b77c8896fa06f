//! Assembly of the two output records, a breadcrumb and a diagnostic event,
//! from one log event.

use vstd::prelude::*;
use sentry_core::protocol::Stacktrace;
use crate::event::EventData;
use crate::level::{convert_tracing_level, severity_of, Severity};
use crate::text::{copy_opt, joined_lines, opt_view};
use crate::visitor::{
    keys_unique, entries_map, visited, FieldVisitor, FieldVisitorConfig, JsonValue, VisitModel,
};

verus! {

#[verifier::external_type_specification]
#[verifier::external_body]
pub struct ExStacktrace(Stacktrace);

/// Relies on `sentry_backtrace::current_stacktrace`: the stack of the calling
/// thread, or none where it cannot be captured.
#[verifier::external_body]
fn capture_stacktrace() -> Option<Stacktrace> {
    sentry_backtrace::current_stacktrace()
}

/// The integration's options that govern a conversion.
#[derive(Clone, Copy, Debug, PartialEq, Eq, Structural)]
pub struct TracingIntegration {
    /// Strip ansi escape sequences from string values and formatted values.
    pub strip_ansi_escapes: bool,
    /// Attach a stack trace of the current thread to diagnostic events.
    pub attach_stacktraces: bool,
}

impl<'a> From<&'a TracingIntegration> for FieldVisitorConfig {
    fn from(integration: &'a TracingIntegration) -> Self {
        FieldVisitorConfig { strip_ansi_escapes: integration.strip_ansi_escapes }
    }
}

impl<'a> vstd::std_specs::convert::FromSpecImpl<&'a TracingIntegration> for FieldVisitorConfig {
    open spec fn obeys_from_spec() -> bool {
        true
    }

    open spec fn from_spec(integration: &'a TracingIntegration) -> Self {
        FieldVisitorConfig { strip_ansi_escapes: integration.strip_ansi_escapes }
    }
}

/// A trail entry describing a past event.
pub struct BreadcrumbRecord {
    pub ty: String,
    pub level: Severity,
    pub category: Option<String>,
    pub message: Option<String>,
    pub data: Vec<(String, JsonValue)>,
}

/// The single exception of a diagnostic event.
pub struct ExceptionRecord {
    pub ty: String,
    pub value: Option<String>,
    pub stacktrace: Option<Stacktrace>,
    pub module: Option<String>,
}

/// An error-shaped record submitted for alerting.
pub struct DiagnosticEvent {
    pub logger: Option<String>,
    pub level: Severity,
    pub exception: Vec<ExceptionRecord>,
}

/// What visiting the event's fields under the integration's options gives.
pub open spec fn visit_of(event: &EventData, integration: &TracingIntegration) -> VisitModel {
    visited(event.fields@, integration.strip_ansi_escapes)
}

/// The message of a record: the display fragments joined with newlines.
pub open spec fn message_of(event: &EventData, integration: &TracingIntegration) -> Seq<char> {
    joined_lines(visit_of(event, integration).display)
}

/// `[<log target>] log event` where a log target was captured, else
/// `[<source>] tracing event`.
pub open spec fn exception_type(log_target: Option<Seq<char>>, target: Seq<char>) -> Seq<char> {
    match log_target {
        Some(t) => seq!['['] + t + "] log event"@,
        None => seq!['['] + target + "] tracing event"@,
    }
}

/// The name under which diagnostic events of this integration are logged.
pub open spec fn logger_name() -> Seq<char> {
    "sentry-tracing"@
}

/// The breadcrumb that an event gives.
pub open spec fn is_breadcrumb_for(
    r: BreadcrumbRecord,
    event: &EventData,
    integration: &TracingIntegration,
) -> bool {
    &&& r.ty@ == "log"@
    &&& r.level == severity_of(event.level)
    &&& opt_view(r.category) == Some(event.target@)
    &&& opt_view(r.message) == Some(message_of(event, integration))
    &&& entries_map(r.data@) == visit_of(event, integration).json
    &&& keys_unique(r.data@)
}

/// The diagnostic event that an event gives, but for its stack trace.
pub open spec fn is_event_for(r: DiagnosticEvent, event: &EventData, integration: &TracingIntegration) -> bool {
    &&& opt_view(r.logger) == Some(logger_name())
    &&& r.level == severity_of(event.level)
    &&& r.exception@.len() == 1
    &&& r.exception@[0].ty@ == exception_type(visit_of(event, integration).log_target, event.target@)
    &&& opt_view(r.exception@[0].value) == Some(message_of(event, integration))
    &&& opt_view(r.exception@[0].module) == opt_view(event.module)
}

/// Creates a breadcrumb from a given event.
pub fn breadcrumb_from_event(event: &EventData, integration: &TracingIntegration) -> (r: BreadcrumbRecord)
    ensures
        is_breadcrumb_for(r, event, integration),
{
    let result = FieldVisitor::visit_event(event, FieldVisitorConfig::from(integration));
    let message = result.message();
    BreadcrumbRecord {
        ty: "log".to_owned(),
        level: convert_tracing_level(&event.level),
        category: Some(event.target.clone()),
        message: Some(message),
        data: result.json_values,
    }
}

/// Creates a diagnostic event from a given event, with `stacktrace` as its
/// stack trace where the integration attaches stack traces.
pub fn event_with_stacktrace(
    event: &EventData,
    integration: &TracingIntegration,
    stacktrace: Option<Stacktrace>,
) -> (r: DiagnosticEvent)
    ensures
        is_event_for(r, event, integration),
        r.exception@[0].stacktrace == if integration.attach_stacktraces {
            stacktrace
        } else {
            None
        },
{
    let result = FieldVisitor::visit_event(event, FieldVisitorConfig::from(integration));
    // Events bridged from another logging facility name their origin in `log.target`.
    let mut ty = "[".to_owned();
    match &result.log_target {
        Some(log_target) => {
            ty.append(log_target.as_str());
            ty.append("] log event");
        },
        None => {
            ty.append(event.target.as_str());
            ty.append("] tracing event");
        },
    }
    proof {
        reveal_strlit("[");
    }
    assert(ty@ =~= exception_type(result@.log_target, event.target@));
    let exception = ExceptionRecord {
        ty,
        value: Some(result.message()),
        stacktrace: if integration.attach_stacktraces {
            stacktrace
        } else {
            None
        },
        module: copy_opt(&event.module),
    };
    DiagnosticEvent {
        logger: Some("sentry-tracing".to_owned()),
        level: convert_tracing_level(&event.level),
        exception: vec![exception],
    }
}

/// Creates a diagnostic event from a given event.
///
/// Where the integration attaches stack traces, one is captured from the
/// current frame; otherwise the event carries none.
pub fn convert_tracing_event(event: &EventData, integration: &TracingIntegration) -> (r: DiagnosticEvent)
    ensures
        is_event_for(r, event, integration),
        !integration.attach_stacktraces ==> r.exception@[0].stacktrace.is_none(),
{
    let stacktrace = if integration.attach_stacktraces {
        capture_stacktrace()
    } else {
        None
    };
    event_with_stacktrace(event, integration, stacktrace)
}

} // verus!

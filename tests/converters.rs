use sentry_core::protocol::Stacktrace;
use tracing_converters::ansi::strip_ansi_codes_from_string;
use tracing_converters::convert::{
    breadcrumb_from_event, convert_tracing_event, event_with_stacktrace, TracingIntegration,
};
use tracing_converters::event::{EventData, Field, FieldValue};
use tracing_converters::level::{convert_tracing_level, Severity, TraceLevel};
use tracing_converters::text::{boolean_text, join_lines, signed_text, unsigned_text};
use tracing_converters::visitor::{FieldVisitor, FieldVisitorConfig, FieldVisitorResult, JsonValue};

fn field(name: &str, value: FieldValue) -> Field {
    Field { name: name.to_string(), value }
}

fn event(level: TraceLevel, target: &str, fields: Vec<Field>) -> EventData {
    EventData { level, target: target.to_string(), module: None, fields }
}

fn plain() -> TracingIntegration {
    TracingIntegration { strip_ansi_escapes: false, attach_stacktraces: false }
}

fn stripping() -> TracingIntegration {
    TracingIntegration { strip_ansi_escapes: true, attach_stacktraces: false }
}

fn json_of(result: &FieldVisitorResult, name: &str) -> Option<JsonValue> {
    result.json_values.iter().find(|(k, _)| k == name).map(|(_, v)| v.clone())
}

fn visit(fields: Vec<Field>, strip: bool) -> FieldVisitorResult {
    let e = event(TraceLevel::Info, "t", fields);
    FieldVisitor::visit_event(&e, FieldVisitorConfig { strip_ansi_escapes: strip })
}

fn as_text(v: Option<JsonValue>) -> Option<String> {
    match v {
        Some(JsonValue::Str(s)) => Some(s),
        _ => None,
    }
}

#[test]
fn severity_mapping() {
    assert_eq!(convert_tracing_level(&TraceLevel::Error), Severity::Error);
    assert_eq!(convert_tracing_level(&TraceLevel::Warn), Severity::Warning);
    assert_eq!(convert_tracing_level(&TraceLevel::Info), Severity::Info);
    assert_eq!(convert_tracing_level(&TraceLevel::Debug), Severity::Debug);
    assert_eq!(convert_tracing_level(&TraceLevel::Trace), Severity::Debug);
}

#[test]
fn strip_removes_color_codes() {
    assert_eq!(strip_ansi_codes_from_string("\x1b[31mred\x1b[0m text"), "red text");
    assert_eq!(strip_ansi_codes_from_string("\x1b[1;32mok\x1b[m"), "ok");
}

#[test]
fn strip_keeps_clean_strings() {
    for s in ["", "plain", "a=1 b=two", "multi\nline", "ünïcödé ✓"] {
        assert_eq!(strip_ansi_codes_from_string(s), s);
    }
}

#[test]
fn strip_is_idempotent() {
    for s in ["\x1b[31mred\x1b[0m", "x\x1b[2Jy", "plain", "\x1b[4munder\x1b[24mline"] {
        let once = strip_ansi_codes_from_string(s);
        assert_eq!(strip_ansi_codes_from_string(&once), once);
    }
}

#[test]
fn integer_and_bool_texts() {
    assert_eq!(signed_text(-42), "-42");
    assert_eq!(signed_text(i64::MIN), "-9223372036854775808");
    assert_eq!(unsigned_text(u64::MAX), "18446744073709551615");
    assert_eq!(unsigned_text(0), "0");
    assert_eq!(boolean_text(true), "true");
    assert_eq!(boolean_text(false), "false");
}

#[test]
fn join_lines_uses_newlines() {
    assert_eq!(join_lines(&vec![]), "");
    assert_eq!(join_lines(&vec!["a".to_string()]), "a");
    assert_eq!(join_lines(&vec!["a=1".to_string(), "b=true".to_string(), "c".to_string()]), "a=1\nb=true\nc");
}

#[test]
fn zero_fields_give_empty_records() {
    let e = event(TraceLevel::Info, "svc", vec![]);
    let b = breadcrumb_from_event(&e, &plain());
    assert_eq!(b.message.as_deref(), Some(""));
    assert!(b.data.is_empty());
    let d = convert_tracing_event(&e, &plain());
    assert_eq!(d.exception.len(), 1);
    assert_eq!(d.exception[0].value.as_deref(), Some(""));
    assert_eq!(d.exception[0].ty, "[svc] tracing event");
}

#[test]
fn every_kind_is_rendered() {
    let r = visit(
        vec![
            field("i", FieldValue::I64(-3)),
            field("u", FieldValue::U64(7)),
            field("b", FieldValue::Bool(true)),
            field("s", FieldValue::Str("hello".to_string())),
            field("e", FieldValue::Error("Boom { code: 1 }".to_string())),
            field("d", FieldValue::Debug("[1, 2]".to_string())),
        ],
        false,
    );
    assert_eq!(r.display_values, vec!["i=-3", "u=7", "b=true", "s=hello", "e=Boom { code: 1 }", "d=[1, 2]"]);
    assert!(matches!(json_of(&r, "i"), Some(JsonValue::Int(-3))));
    assert!(matches!(json_of(&r, "u"), Some(JsonValue::UInt(7))));
    assert!(matches!(json_of(&r, "b"), Some(JsonValue::Bool(true))));
    assert_eq!(as_text(json_of(&r, "s")).as_deref(), Some("hello"));
    assert_eq!(as_text(json_of(&r, "e")).as_deref(), Some("Boom { code: 1 }"));
    assert_eq!(as_text(json_of(&r, "d")).as_deref(), Some("[1, 2]"));
    assert_eq!(r.message(), "i=-3\nu=7\nb=true\ns=hello\ne=Boom { code: 1 }\nd=[1, 2]");
    assert_eq!(r.log_target, None);
}

#[test]
fn unstripped_strings_are_kept_verbatim() {
    let raw = "\x1b[31mred\x1b[0m";
    let r = visit(vec![field("s", FieldValue::Str(raw.to_string()))], false);
    assert_eq!(r.display_values, vec![format!("s={}", raw)]);
    assert_eq!(as_text(json_of(&r, "s")).as_deref(), Some(raw));
}

#[test]
fn stripped_strings_lose_escape_codes() {
    let r = visit(
        vec![
            field("s", FieldValue::Str("\x1b[31mred\x1b[0m".to_string())),
            field("e", FieldValue::Error("\x1b[1mbad\x1b[0m".to_string())),
            field("d", FieldValue::Debug("\x1b[32m\"x\"\x1b[0m".to_string())),
        ],
        true,
    );
    assert_eq!(r.display_values, vec!["s=red", "e=bad", "d=\"x\""]);
    assert_eq!(as_text(json_of(&r, "s")).as_deref(), Some("red"));
    assert_eq!(as_text(json_of(&r, "e")).as_deref(), Some("bad"));
    for v in &r.display_values {
        assert!(!v.contains('\x1b'));
    }
}

#[test]
fn display_count_matches_field_count() {
    let fields = vec![
        field("a", FieldValue::I64(1)),
        field("a", FieldValue::Bool(false)),
        field("b", FieldValue::Debug("()".to_string())),
        field("c", FieldValue::U64(2)),
    ];
    let r = visit(fields, false);
    assert_eq!(r.display_values.len(), 4);
    assert_eq!(r.json_values.len(), 3);
}

#[test]
fn repeated_names_keep_last_json_value() {
    let r = visit(
        vec![
            field("x", FieldValue::I64(1)),
            field("y", FieldValue::Str("mid".to_string())),
            field("x", FieldValue::Str("two".to_string())),
            field("x", FieldValue::U64(3)),
        ],
        false,
    );
    assert_eq!(r.display_values, vec!["x=1", "y=mid", "x=two", "x=3"]);
    assert_eq!(r.json_values.iter().filter(|(k, _)| k == "x").count(), 1);
    assert!(matches!(json_of(&r, "x"), Some(JsonValue::UInt(3))));
}

#[test]
fn log_target_names_the_exception() {
    let e = event(
        TraceLevel::Error,
        "svc::module",
        vec![field("log.target", FieldValue::Str("db".to_string())), field("msg", FieldValue::Str("down".to_string()))],
    );
    let d = convert_tracing_event(&e, &plain());
    assert_eq!(d.exception[0].ty, "[db] log event");
    assert_eq!(d.exception[0].value.as_deref(), Some("log.target=db\nmsg=down"));
}

#[test]
fn missing_log_target_uses_source() {
    let e = event(TraceLevel::Error, "svc::module", vec![field("msg", FieldValue::Str("down".to_string()))]);
    let d = convert_tracing_event(&e, &plain());
    assert_eq!(d.exception[0].ty, "[svc::module] tracing event");
}

#[test]
fn log_target_from_non_string_is_ignored() {
    let r = visit(vec![field("log.target", FieldValue::Debug("db".to_string()))], false);
    assert_eq!(r.log_target, None);
    let r = visit(vec![field("log.target", FieldValue::Str("\x1b[31mdb\x1b[0m".to_string()))], true);
    assert_eq!(r.log_target.as_deref(), Some("db"));
}

#[test]
fn diagnostic_event_shape() {
    let mut e = event(TraceLevel::Trace, "svc", vec![field("n", FieldValue::I64(5))]);
    e.module = Some("svc::inner".to_string());
    let d = convert_tracing_event(&e, &plain());
    assert_eq!(d.logger.as_deref(), Some("sentry-tracing"));
    assert_eq!(d.level, Severity::Debug);
    assert_eq!(d.exception.len(), 1);
    assert_eq!(d.exception[0].module.as_deref(), Some("svc::inner"));
    assert_eq!(d.exception[0].value.as_deref(), Some("n=5"));
}

#[test]
fn no_stacktrace_unless_attached() {
    let e = event(TraceLevel::Error, "svc", vec![]);
    let d = event_with_stacktrace(&e, &plain(), Some(Stacktrace::default()));
    assert!(d.exception[0].stacktrace.is_none());
    assert!(convert_tracing_event(&e, &plain()).exception[0].stacktrace.is_none());
    let attach = TracingIntegration { strip_ansi_escapes: false, attach_stacktraces: true };
    let d = event_with_stacktrace(&e, &attach, None);
    assert!(d.exception[0].stacktrace.is_none());
    let d = event_with_stacktrace(&e, &attach, Some(Stacktrace::default()));
    assert_eq!(d.exception[0].stacktrace, Some(Stacktrace::default()));
    let d = convert_tracing_event(&e, &attach);
    assert_eq!(d.exception.len(), 1);
}

#[test]
fn breadcrumb_end_to_end() {
    let e = event(TraceLevel::Warn, "svc::auth", vec![field("msg", FieldValue::Str("login failed".to_string()))]);
    let b = breadcrumb_from_event(&e, &plain());
    assert_eq!(b.ty, "log");
    assert_eq!(b.level, Severity::Warning);
    assert_eq!(b.category.as_deref(), Some("svc::auth"));
    assert_eq!(b.message.as_deref(), Some("msg=login failed"));
    assert_eq!(b.data.len(), 1);
    assert_eq!(b.data[0].0, "msg");
    assert_eq!(as_text(Some(b.data[0].1.clone())).as_deref(), Some("login failed"));
}

#[test]
fn breadcrumb_strips_when_configured() {
    let e = event(TraceLevel::Info, "svc", vec![field("msg", FieldValue::Str("\x1b[33mwarm\x1b[0m".to_string()))]);
    let b = breadcrumb_from_event(&e, &stripping());
    assert_eq!(b.message.as_deref(), Some("msg=warm"));
}

#[test]
fn visitor_config_defaults_and_conversion() {
    let c = FieldVisitorConfig::default();
    assert!(!c.strip_ansi_escapes);
    let c = FieldVisitorConfig::from(&stripping());
    assert!(c.strip_ansi_escapes);
}

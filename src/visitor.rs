//! The field visitor: renders each field of an event into a display
//! fragment and a JSON value, and picks out the `log.target` field.

use vstd::prelude::*;
use crate::ansi::{stripped_text, strip_ansi_codes_from_string};
use crate::event::{EventData, Field, FieldValue, ValueModel};
use crate::text::{
    bool_text, boolean_text, decimal_text, join_lines, joined_lines, signed_text, string_views,
    unsigned_text,
};

verus! {

/// A JSON-compatible value recorded for one field.
#[derive(Clone, Debug)]
pub enum JsonValue {
    Int(i64),
    UInt(u64),
    Bool(bool),
    Str(String),
}

/// The mathematical value of a [`JsonValue`]: both integer kinds are numbers.
pub enum JsonModel {
    Number(int),
    Bool(bool),
    Text(Seq<char>),
}

impl View for JsonValue {
    type V = JsonModel;

    open spec fn view(&self) -> JsonModel {
        match self {
            JsonValue::Int(n) => JsonModel::Number(*n as int),
            JsonValue::UInt(n) => JsonModel::Number(*n as int),
            JsonValue::Bool(b) => JsonModel::Bool(*b),
            JsonValue::Str(s) => JsonModel::Text(s@),
        }
    }
}

/// Per-conversion options of the visitor.
pub struct FieldVisitorConfig {
    /// Strip ansi escape sequences from string values, and formatted error messages.
    pub strip_ansi_escapes: bool,
}

impl Default for FieldVisitorConfig {
    fn default() -> (r: Self)
        ensures
            !r.strip_ansi_escapes,
    {
        FieldVisitorConfig { strip_ansi_escapes: false }
    }
}

/// The reserved field name whose string value names the originating subsystem.
pub open spec fn log_target_key() -> Seq<char> {
    seq!['l', 'o', 'g', '.', 't', 'a', 'r', 'g', 'e', 't']
}

/// A string as recorded: stripped of escape sequences when `strip` is set.
pub open spec fn cleaned(s: Seq<char>, strip: bool) -> Seq<char> {
    if strip {
        stripped_text(s)
    } else {
        s
    }
}

/// The rendered text of a field value: integers and booleans as their debug
/// text, strings and formatted values as they are (cleaned when configured).
pub open spec fn rendered(v: ValueModel, strip: bool) -> Seq<char> {
    match v {
        ValueModel::Signed(n) => decimal_text(n),
        ValueModel::Unsigned(n) => decimal_text(n),
        ValueModel::Boolean(b) => bool_text(b),
        ValueModel::Text(s) => cleaned(s, strip),
        ValueModel::ErrorText(s) => cleaned(s, strip),
        ValueModel::DebugText(s) => cleaned(s, strip),
    }
}

/// The JSON value recorded for a field value.
pub open spec fn json_of(v: ValueModel, strip: bool) -> JsonModel {
    match v {
        ValueModel::Signed(n) => JsonModel::Number(n),
        ValueModel::Unsigned(n) => JsonModel::Number(n),
        ValueModel::Boolean(b) => JsonModel::Bool(b),
        _ => JsonModel::Text(rendered(v, strip)),
    }
}

/// The display fragment `<name>=<text>`.
pub open spec fn display_entry(name: Seq<char>, text: Seq<char>) -> Seq<char> {
    name + seq!['='] + text
}

/// What the visitor has accumulated: display fragments in visiting order,
/// JSON values by field name, and the captured log target.
pub struct VisitModel {
    pub display: Seq<Seq<char>>,
    pub json: Map<Seq<char>, JsonModel>,
    pub log_target: Option<Seq<char>>,
}

/// The state before any field is visited.
pub open spec fn empty_model() -> VisitModel {
    VisitModel { display: Seq::empty(), json: Map::empty(), log_target: None }
}

/// The state after visiting one more field: one display fragment appended,
/// the field's JSON value set under its name (replacing an earlier one), and
/// the log target captured when a string field carries the reserved name.
pub open spec fn record_step(m: VisitModel, name: Seq<char>, v: ValueModel, strip: bool) -> VisitModel {
    VisitModel {
        display: m.display.push(display_entry(name, rendered(v, strip))),
        json: m.json.insert(name, json_of(v, strip)),
        log_target: if v is Text && name == log_target_key() {
            Some(rendered(v, strip))
        } else {
            m.log_target
        },
    }
}

/// The state after visiting the fields in order.
pub open spec fn visited(fields: Seq<Field>, strip: bool) -> VisitModel
    decreases fields.len(),
{
    if fields.len() == 0 {
        empty_model()
    } else {
        record_step(visited(fields.drop_last(), strip), fields.last().name@, fields.last().value@, strip)
    }
}

/// The map that a list of (name, value) entries describes; a later entry
/// for a name overrides an earlier one.
pub open spec fn entries_map(s: Seq<(String, JsonValue)>) -> Map<Seq<char>, JsonModel>
    decreases s.len(),
{
    if s.len() == 0 {
        Map::empty()
    } else {
        entries_map(s.drop_last()).insert(s.last().0@, s.last().1@)
    }
}

/// No two entries share a name.
pub open spec fn keys_unique(s: Seq<(String, JsonValue)>) -> bool {
    forall|i: int, j: int| 0 <= i < j < s.len() ==> s[i].0@ != s[j].0@
}

proof fn lemma_entries_replace(s: Seq<(String, JsonValue)>, i: int, e: (String, JsonValue))
    requires
        keys_unique(s),
        0 <= i < s.len(),
        e.0@ == s[i].0@,
    ensures
        entries_map(s.update(i, e)) == entries_map(s).insert(e.0@, e.1@),
        keys_unique(s.update(i, e)),
    decreases s.len(),
{
    let t = s.update(i, e);
    if i == s.len() - 1 {
        assert(t.drop_last() =~= s.drop_last());
        assert(entries_map(t) =~= entries_map(s).insert(e.0@, e.1@));
    } else {
        assert(t.drop_last() =~= s.drop_last().update(i, e));
        lemma_entries_replace(s.drop_last(), i, e);
        assert(s.last().0@ != e.0@);
        assert(entries_map(t) =~= entries_map(s).insert(e.0@, e.1@));
    }
}

/// The accumulated result of visiting one event's fields.
pub struct FieldVisitorResult {
    pub display_values: Vec<String>,
    pub json_values: Vec<(String, JsonValue)>,
    pub log_target: Option<String>,
}

impl View for FieldVisitorResult {
    type V = VisitModel;

    open spec fn view(&self) -> VisitModel {
        VisitModel {
            display: string_views(self.display_values@),
            json: entries_map(self.json_values@),
            log_target: match self.log_target {
                Some(s) => Some(s@),
                None => None,
            },
        }
    }
}

impl FieldVisitorResult {
    /// The JSON entries hold each field name at most once.
    pub open spec fn wf(&self) -> bool {
        keys_unique(self.json_values@)
    }

    /// The display fragments joined with newlines.
    pub fn message(&self) -> (r: String)
        ensures
            r@ == joined_lines(self@.display),
    {
        join_lines(&self.display_values)
    }
}

impl Default for FieldVisitorResult {
    fn default() -> (r: Self)
        ensures
            r@ == empty_model(),
            r.wf(),
    {
        let r = FieldVisitorResult { display_values: Vec::new(), json_values: Vec::new(), log_target: None };
        assert(r@.display =~= Seq::<Seq<char>>::empty());
        r
    }
}

/// Walks the fields of one event and accumulates a [`FieldVisitorResult`].
pub struct FieldVisitor {
    pub config: FieldVisitorConfig,
    pub result: FieldVisitorResult,
}

impl FieldVisitor {
    /// Records `value` as the JSON value of the field `name`, replacing the
    /// value recorded earlier under the same name.
    pub fn record_json_value(&mut self, name: &String, value: JsonValue)
        requires
            old(self).result.wf(),
        ensures
            final(self).result.wf(),
            final(self).result@ == (VisitModel {
                json: old(self).result@.json.insert(name@, value@),
                ..old(self).result@
            }),
            final(self).config == old(self).config,
    {
        let ghost entries = self.result.json_values@;
        let n = self.result.json_values.len();
        let mut i: usize = 0;
        while i < n
            invariant
                *self == *old(self),
                entries == self.result.json_values@,
                n == entries.len(),
                keys_unique(entries),
                i <= n,
                forall|j: int| 0 <= j < i ==> entries[j].0@ != name@,
            decreases n - i,
        {
            if self.result.json_values[i].0 == *name {
                let entry = (name.clone(), value);
                proof {
                    lemma_entries_replace(entries, i as int, entry);
                }
                self.result.json_values[i] = entry;
                assert(self.result.json_values@ == entries.update(i as int, entry));
                return;
            }
            i = i + 1;
        }
        let entry = (name.clone(), value);
        self.result.json_values.push(entry);
        assert(self.result.json_values@.drop_last() =~= entries);
    }

    /// Appends the display fragment `<name>=<text>`.
    pub fn record_message(&mut self, name: &String, text: &str)
        requires
            old(self).result.wf(),
        ensures
            final(self).result.wf(),
            final(self).result@ == (VisitModel {
                display: old(self).result@.display.push(display_entry(name@, text@)),
                ..old(self).result@
            }),
            final(self).config == old(self).config,
    {
        let mut entry = name.clone();
        proof {
            reveal_strlit("=");
        }
        entry.append("=");
        entry.append(text);
        assert(entry@ =~= display_entry(name@, text@));
        let ghost before = self.result.display_values@;
        self.result.display_values.push(entry);
        assert(string_views(self.result.display_values@) =~= string_views(before).push(
            display_entry(name@, text@),
        ));
    }

    /// Visits a signed integer value.
    pub fn record_i64(&mut self, name: &String, value: i64)
        requires
            old(self).result.wf(),
        ensures
            final(self).result.wf(),
            final(self).result@ == record_step(
                old(self).result@,
                name@,
                ValueModel::Signed(value as int),
                old(self).config.strip_ansi_escapes,
            ),
            final(self).config == old(self).config,
    {
        self.record_json_value(name, JsonValue::Int(value));
        let text = signed_text(value);
        self.record_message(name, text.as_str());
    }

    /// Visits an unsigned integer value.
    pub fn record_u64(&mut self, name: &String, value: u64)
        requires
            old(self).result.wf(),
        ensures
            final(self).result.wf(),
            final(self).result@ == record_step(
                old(self).result@,
                name@,
                ValueModel::Unsigned(value as int),
                old(self).config.strip_ansi_escapes,
            ),
            final(self).config == old(self).config,
    {
        self.record_json_value(name, JsonValue::UInt(value));
        let text = unsigned_text(value);
        self.record_message(name, text.as_str());
    }

    /// Visits a boolean value.
    pub fn record_bool(&mut self, name: &String, value: bool)
        requires
            old(self).result.wf(),
        ensures
            final(self).result.wf(),
            final(self).result@ == record_step(
                old(self).result@,
                name@,
                ValueModel::Boolean(value),
                old(self).config.strip_ansi_escapes,
            ),
            final(self).config == old(self).config,
    {
        self.record_json_value(name, JsonValue::Bool(value));
        let text = boolean_text(value);
        self.record_message(name, text.as_str());
    }

    /// The text as recorded under this visitor's configuration.
    fn cleaned_text(&self, value: &str) -> (r: String)
        ensures
            r@ == cleaned(value@, self.config.strip_ansi_escapes),
    {
        if self.config.strip_ansi_escapes {
            strip_ansi_codes_from_string(value)
        } else {
            value.to_owned()
        }
    }

    /// Records an already formatted value as both JSON string and display text.
    fn record_formatted(&mut self, name: &String, text: String)
        requires
            old(self).result.wf(),
        ensures
            final(self).result.wf(),
            final(self).result@ == (VisitModel {
                display: old(self).result@.display.push(display_entry(name@, text@)),
                json: old(self).result@.json.insert(name@, JsonModel::Text(text@)),
                ..old(self).result@
            }),
            final(self).config == old(self).config,
    {
        let json = JsonValue::Str(text.clone());
        self.record_json_value(name, json);
        self.record_message(name, text.as_str());
    }

    /// Visits a string value; a field named `log.target` also sets the log target.
    pub fn record_str(&mut self, name: &String, value: &str)
        requires
            old(self).result.wf(),
        ensures
            final(self).result.wf(),
            final(self).result@ == record_step(
                old(self).result@,
                name@,
                ValueModel::Text(value@),
                old(self).config.strip_ansi_escapes,
            ),
            final(self).config == old(self).config,
    {
        let text = self.cleaned_text(value);
        proof {
            reveal_strlit("log.target");
        }
        let key = "log.target".to_owned();
        assert(key@ =~= log_target_key());
        if *name == key {
            self.result.log_target = Some(text.clone());
        }
        self.record_formatted(name, text);
    }

    /// Visits a structured error, given as its debug rendering.
    pub fn record_error(&mut self, name: &String, formatted: &str)
        requires
            old(self).result.wf(),
        ensures
            final(self).result.wf(),
            final(self).result@ == record_step(
                old(self).result@,
                name@,
                ValueModel::ErrorText(formatted@),
                old(self).config.strip_ansi_escapes,
            ),
            final(self).config == old(self).config,
    {
        let text = self.cleaned_text(formatted);
        self.record_formatted(name, text);
    }

    /// Visits a debug-formatted value, given as its debug rendering.
    pub fn record_debug(&mut self, name: &String, formatted: &str)
        requires
            old(self).result.wf(),
        ensures
            final(self).result.wf(),
            final(self).result@ == record_step(
                old(self).result@,
                name@,
                ValueModel::DebugText(formatted@),
                old(self).config.strip_ansi_escapes,
            ),
            final(self).config == old(self).config,
    {
        let text = self.cleaned_text(formatted);
        self.record_formatted(name, text);
    }

    /// Visits one field, dispatching on the kind of its value.
    pub fn record_field(&mut self, field: &Field)
        requires
            old(self).result.wf(),
        ensures
            final(self).result.wf(),
            final(self).result@ == record_step(
                old(self).result@,
                field.name@,
                field.value@,
                old(self).config.strip_ansi_escapes,
            ),
            final(self).config == old(self).config,
    {
        match &field.value {
            FieldValue::I64(v) => self.record_i64(&field.name, *v),
            FieldValue::U64(v) => self.record_u64(&field.name, *v),
            FieldValue::Bool(v) => self.record_bool(&field.name, *v),
            FieldValue::Str(v) => self.record_str(&field.name, v.as_str()),
            FieldValue::Error(v) => self.record_error(&field.name, v.as_str()),
            FieldValue::Debug(v) => self.record_debug(&field.name, v.as_str()),
        }
    }

    /// Drives a fresh visitor over all fields of the event, in order.
    pub fn visit_event(event: &EventData, config: FieldVisitorConfig) -> (r: FieldVisitorResult)
        ensures
            r.wf(),
            r@ == visited(event.fields@, config.strip_ansi_escapes),
    {
        let ghost strip = config.strip_ansi_escapes;
        let mut visitor = FieldVisitor { config, result: FieldVisitorResult::default() };
        let n = event.fields.len();
        let mut i: usize = 0;
        assert(event.fields@.take(0) =~= Seq::<Field>::empty());
        while i < n
            invariant
                n == event.fields@.len(),
                i <= n,
                visitor.config.strip_ansi_escapes == strip,
                visitor.result.wf(),
                visitor.result@ == visited(event.fields@.take(i as int), strip),
            decreases n - i,
        {
            visitor.record_field(&event.fields[i]);
            assert(event.fields@.take(i + 1).drop_last() =~= event.fields@.take(i as int));
            i = i + 1;
        }
        assert(event.fields@.take(n as int) =~= event.fields@);
        visitor.result
    }
}

} // verus!

//! Properties that relate the visitor's steps to the records it produces.

use vstd::prelude::*;
use crate::convert::{message_of, visit_of, TracingIntegration};
use crate::event::{EventData, Field, ValueModel};
use crate::visitor::{
    display_entry, json_of, log_target_key, record_step, rendered, visited, JsonModel, VisitModel,
};

verus! {

/// An event without fields gives an empty message and no structured data.
pub proof fn lemma_no_fields_empty_records(event: &EventData, integration: &TracingIntegration)
    requires
        event.fields@.len() == 0,
    ensures
        message_of(event, integration) == Seq::<char>::empty(),
        visit_of(event, integration).json == Map::<Seq<char>, JsonModel>::empty(),
        visit_of(event, integration).display.len() == 0,
        visit_of(event, integration).log_target is None,
{
}

/// Without stripping, a string field is displayed and recorded as JSON
/// exactly as it came.
pub proof fn lemma_unstripped_string_kept(m: VisitModel, name: Seq<char>, s: Seq<char>)
    ensures
        record_step(m, name, ValueModel::Text(s), false).display.last() == display_entry(name, s),
        record_step(m, name, ValueModel::Text(s), false).json[name] == JsonModel::Text(s),
{
}

/// Every visited field gives exactly one display fragment, in visiting
/// order, whatever its kind.
pub proof fn lemma_one_fragment_per_field(fields: Seq<Field>, strip: bool)
    ensures
        visited(fields, strip).display.len() == fields.len(),
        forall|i: int|
            0 <= i < fields.len() ==> #[trigger] visited(fields, strip).display[i] == display_entry(
                fields[i].name@,
                rendered(fields[i].value@, strip),
            ),
    decreases fields.len(),
{
    if fields.len() > 0 {
        lemma_one_fragment_per_field(fields.drop_last(), strip);
        assert forall|i: int| 0 <= i < fields.len() implies #[trigger] visited(fields, strip).display[i]
            == display_entry(fields[i].name@, rendered(fields[i].value@, strip)) by {
            if i < fields.len() - 1 {
                assert(fields.drop_last()[i] == fields[i]);
            }
        }
    }
}

/// Of fields sharing a name, the last one visited gives the JSON value kept
/// under that name.
pub proof fn lemma_last_value_wins(fields: Seq<Field>, strip: bool, j: int)
    requires
        0 <= j < fields.len(),
        forall|k: int| j < k < fields.len() ==> #[trigger] fields[k].name@ != fields[j].name@,
    ensures
        visited(fields, strip).json.contains_key(fields[j].name@),
        visited(fields, strip).json[fields[j].name@] == json_of(fields[j].value@, strip),
    decreases fields.len(),
{
    if j < fields.len() - 1 {
        let init = fields.drop_last();
        assert forall|k: int| j < k < init.len() implies #[trigger] init[k].name@ != init[j].name@ by {
            assert(init[k] == fields[k]);
        }
        lemma_last_value_wins(init, strip, j);
        assert(fields.last().name@ != fields[j].name@);
        assert(init[j] == fields[j]);
    }
}

/// Where a string field named `log.target` is visited, the log target is the
/// recorded value of the last such field.
pub proof fn lemma_log_target_captured(fields: Seq<Field>, strip: bool, j: int)
    requires
        0 <= j < fields.len(),
        fields[j].value@ is Text,
        fields[j].name@ == log_target_key(),
        forall|k: int|
            j < k < fields.len() ==> !(#[trigger] fields[k].value@ is Text && fields[k].name@
                == log_target_key()),
    ensures
        visited(fields, strip).log_target == Some(rendered(fields[j].value@, strip)),
    decreases fields.len(),
{
    if j < fields.len() - 1 {
        let init = fields.drop_last();
        assert forall|k: int| j < k < init.len() implies !(#[trigger] init[k].value@ is Text
            && init[k].name@ == log_target_key()) by {
            assert(init[k] == fields[k]);
        }
        assert(init[j] == fields[j]);
        lemma_log_target_captured(init, strip, j);
        assert(fields[fields.len() - 1] == fields.last());
    }
}

/// Where no string field is named `log.target`, no log target is captured.
pub proof fn lemma_no_log_target(fields: Seq<Field>, strip: bool)
    requires
        forall|k: int|
            0 <= k < fields.len() ==> !(#[trigger] fields[k].value@ is Text && fields[k].name@
                == log_target_key()),
    ensures
        visited(fields, strip).log_target is None,
    decreases fields.len(),
{
    if fields.len() > 0 {
        let init = fields.drop_last();
        assert forall|k: int| 0 <= k < init.len() implies !(#[trigger] init[k].value@ is Text
            && init[k].name@ == log_target_key()) by {
            assert(init[k] == fields[k]);
        }
        lemma_no_log_target(init, strip);
        assert(fields[fields.len() - 1] == fields.last());
    }
}

} // verus!

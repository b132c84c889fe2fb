//! The JSON records of a run's files.

use serde_json::Value;
use vstd::prelude::*;

use crate::json::{
    json_insert, json_int, json_object, json_opt_string, json_string, json_uint, json_view,
    opt_text_view, JsonView,
};
use crate::loop_spec::{LoopItem, LoopItemView};
use crate::rpc::{SessionInfo, SessionInfoView};
use crate::state::{status_tag, status_tag_name, ControlEvent, ControlEventView, RunStatus};
use crate::text::{int_text, nat_text, opt_text};

verus! {

/// The record of a prompt that is about to be sent.
pub open spec fn prompt_record_view(
    run_id: Seq<char>,
    item: LoopItemView,
    prompt_index: int,
    prompt_id: Seq<char>,
    session: Option<SessionInfoView>,
    text: Seq<char>,
) -> JsonView {
    JsonView::Object(
        Map::empty().insert("run_id"@, JsonView::Text(run_id)).insert(
            "item_id"@,
            JsonView::Text(item.item_id),
        ).insert("counter"@, JsonView::Number(int_text(item.counter as int))).insert(
            "iteration"@,
            JsonView::Number(nat_text(item.iteration as nat)),
        ).insert("prompt_index"@, JsonView::Number(nat_text(prompt_index as nat))).insert(
            "prompt_id"@,
            JsonView::Text(prompt_id),
        ).insert(
            "session_id"@,
            opt_text_view(
                match session {
                    Some(info) => Some(info.session_id),
                    None => None,
                },
            ),
        ).insert(
            "session_file"@,
            opt_text_view(
                match session {
                    Some(info) => Some(info.session_file),
                    None => None,
                },
            ),
        ).insert("text"@, JsonView::Text(text)),
    )
}

/// Records a prompt that is about to be sent.
pub fn rendered_prompt_record(
    run_id: &str,
    item: &LoopItem,
    prompt_index: usize,
    prompt_id: &str,
    session: Option<&SessionInfo>,
    text: &str,
) -> (record: Value)
    ensures
        json_view(record) == prompt_record_view(
            run_id@,
            item@,
            prompt_index as int,
            prompt_id@,
            match session {
                Some(info) => Some(info@),
                None => None,
            },
            text@,
        ),
{
    let session_id = match session {
        Some(info) => Some(info.session_id.as_str()),
        None => None,
    };
    let session_file = match session {
        Some(info) => Some(info.session_file.as_str()),
        None => None,
    };
    let mut record = json_object();
    json_insert(&mut record, "run_id", json_string(run_id));
    json_insert(&mut record, "item_id", json_string(item.item_id.as_str()));
    json_insert(&mut record, "counter", json_int(item.counter));
    json_insert(&mut record, "iteration", json_uint(item.iteration));
    json_insert(&mut record, "prompt_index", json_uint(prompt_index as u64));
    json_insert(&mut record, "prompt_id", json_string(prompt_id));
    json_insert(&mut record, "session_id", json_opt_string(session_id));
    json_insert(&mut record, "session_file", json_opt_string(session_file));
    json_insert(&mut record, "text", json_string(text));
    record
}

/// The record of a frame that came from the agent.
pub fn omp_frame_record(frame: Value) -> (record: Value)
    ensures
        json_view(record) == JsonView::Object(
            Map::empty().insert("kind"@, JsonView::Text("omp_frame"@)).insert(
                "frame"@,
                json_view(frame),
            ),
        ),
{
    let mut record = json_object();
    json_insert(&mut record, "kind", json_string("omp_frame"));
    json_insert(&mut record, "frame", frame);
    record
}

/// The record of an error that did not stop the run.
pub fn error_record(message: &str) -> (record: Value)
    ensures
        json_view(record) == JsonView::Object(
            Map::empty().insert("kind"@, JsonView::Text("error"@)).insert(
                "message"@,
                JsonView::Text(message@),
            ),
        ),
{
    let mut record = json_object();
    json_insert(&mut record, "kind", json_string("error"));
    json_insert(&mut record, "message", json_string(message));
    record
}

/// What the members of a control event hold, under the given type.
pub open spec fn event_view(
    kind: Seq<char>,
    message: Seq<char>,
    item_id: Option<Seq<char>>,
    counter: Option<i64>,
) -> JsonView {
    JsonView::Object(
        Map::empty().insert("type"@, JsonView::Text(kind)).insert(
            "message"@,
            JsonView::Text(message),
        ).insert("item_id"@, opt_text_view(item_id)).insert(
            "counter"@,
            match counter {
                Some(value) => JsonView::Number(int_text(value as int)),
                None => JsonView::Null,
            },
        ),
    )
}

/// The record of a control event that has come.
pub open spec fn control_event_view(event: ControlEventView) -> JsonView {
    JsonView::Object(
        Map::empty().insert("kind"@, JsonView::Text("control_event"@)).insert(
            "event"@,
            match event {
                ControlEventView::Notify { message, item_id, counter } => event_view(
                    "notify"@,
                    message,
                    item_id,
                    counter,
                ),
                ControlEventView::Halt { message, item_id, counter } => event_view(
                    "halt"@,
                    message,
                    item_id,
                    counter,
                ),
            },
        ),
    )
}

fn event_value(kind: &str, message: &str, item_id: &Option<String>, counter: Option<i64>) -> (event:
    Value)
    ensures
        json_view(event) == event_view(kind@, message@, opt_text(*item_id), counter),
{
    let named = match item_id {
        Some(id) => Some(id.as_str()),
        None => None,
    };
    let counted = match counter {
        Some(value) => json_int(value),
        None => json_opt_string(None),
    };
    let mut event = json_object();
    json_insert(&mut event, "type", json_string(kind));
    json_insert(&mut event, "message", json_string(message));
    json_insert(&mut event, "item_id", json_opt_string(named));
    json_insert(&mut event, "counter", counted);
    event
}

/// Records a control event that has come.
pub fn control_event_record(event: &ControlEvent) -> (record: Value)
    ensures
        json_view(record) == control_event_view(event@),
{
    let event = match event {
        ControlEvent::Notify { message, item_id, counter } => event_value(
            "notify",
            message.as_str(),
            item_id,
            *counter,
        ),
        ControlEvent::Halt { message, item_id, counter } => event_value(
            "halt",
            message.as_str(),
            item_id,
            *counter,
        ),
    };
    let mut record = json_object();
    json_insert(&mut record, "kind", json_string("control_event"));
    json_insert(&mut record, "event", event);
    record
}

/// The record of a change of status.
pub open spec fn transition_view(from: RunStatus, to: RunStatus, reason: Seq<char>) -> JsonView {
    JsonView::Object(
        Map::empty().insert("kind"@, JsonView::Text("state_transition"@)).insert(
            "from"@,
            JsonView::Text(status_tag(from)),
        ).insert("to"@, JsonView::Text(status_tag(to))).insert("reason"@, JsonView::Text(reason)),
    )
}

/// Records a change of status.
pub fn transition_record(from: RunStatus, to: RunStatus, reason: &str) -> (record: Value)
    ensures
        json_view(record) == transition_view(from, to, reason@),
{
    let mut record = json_object();
    json_insert(&mut record, "kind", json_string("state_transition"));
    json_insert(&mut record, "from", json_string(status_tag_name(from)));
    json_insert(&mut record, "to", json_string(status_tag_name(to)));
    json_insert(&mut record, "reason", json_string(reason));
    record
}

/// The record of a session that was seen.
pub open spec fn session_record_view(
    prompt_id: Seq<char>,
    session: SessionInfoView,
    started_at: Seq<char>,
    reason: Seq<char>,
) -> JsonView {
    JsonView::Object(
        Map::empty().insert("prompt_id"@, JsonView::Text(prompt_id)).insert(
            "session_id"@,
            JsonView::Text(session.session_id),
        ).insert("session_file"@, JsonView::Text(session.session_file)).insert(
            "started_at"@,
            JsonView::Text(started_at),
        ).insert("reason"@, JsonView::Text(reason)),
    )
}

/// Records a session that was seen.
pub fn session_record(
    prompt_id: &str,
    session: &SessionInfo,
    started_at: &str,
    reason: &str,
) -> (record: Value)
    ensures
        json_view(record) == session_record_view(prompt_id@, session@, started_at@, reason@),
{
    let mut record = json_object();
    json_insert(&mut record, "prompt_id", json_string(prompt_id));
    json_insert(&mut record, "session_id", json_string(session.session_id.as_str()));
    json_insert(&mut record, "session_file", json_string(session.session_file.as_str()));
    json_insert(&mut record, "started_at", json_string(started_at));
    json_insert(&mut record, "reason", json_string(reason));
    record
}

} // verus!

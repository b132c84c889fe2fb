//! What records, errors and control events say.

use vstd::prelude::*;

use crate::control::{
    drained, event_message, merged, payload_verdict, response_verdict,
};
use crate::error::{
    error_fits, failure_message, message_fits, tells_render_error, ErrorView, Failure,
};
use crate::json::{opt_text_view, JsonView};
use crate::loop_spec::LoopItemView;
use crate::records::{
    control_event_view, prompt_record_view, session_record_view, transition_view,
};
use crate::rpc::SessionInfoView;
use crate::state::{status_tag, status_text, ControlEventView, RunStatus};
use crate::text::{int_text, nat_text};

verus! {

/// Each status has a name in messages and a name in records.
pub proof fn statuses_have_their_names()
    ensures
        status_text(RunStatus::Running) == "Running"@,
        status_text(RunStatus::Paused) == "Paused"@,
        status_text(RunStatus::Halted) == "Halted"@,
        status_text(RunStatus::Failed) == "Failed"@,
        status_text(RunStatus::Completed) == "Completed"@,
        status_tag(RunStatus::Running) == "running"@,
        status_tag(RunStatus::Paused) == "paused"@,
        status_tag(RunStatus::Halted) == "halted"@,
        status_tag(RunStatus::Failed) == "failed"@,
        status_tag(RunStatus::Completed) == "completed"@,
{
}

/// No two statuses share a name.
pub proof fn names_tell_statuses_apart(a: RunStatus, b: RunStatus)
    requires
        a != b,
    ensures
        status_text(a) != status_text(b),
        status_tag(a) != status_tag(b),
{
    reveal_strlit("Running");
    reveal_strlit("Paused");
    reveal_strlit("Halted");
    reveal_strlit("Failed");
    reveal_strlit("Completed");
    reveal_strlit("running");
    reveal_strlit("paused");
    reveal_strlit("halted");
    reveal_strlit("failed");
    reveal_strlit("completed");
    assert("Running"@[0] == 'R' && "Paused"@[0] == 'P' && "Halted"@[0] == 'H' && "Failed"@[0]
        == 'F' && "Completed"@[0] == 'C');
    assert("running"@[0] == 'r' && "paused"@[0] == 'p' && "halted"@[0] == 'h' && "failed"@[0]
        == 'f' && "completed"@[0] == 'c');
}

/// The record of a change of status holds the status before it, the status after it and the reason,
/// and nothing else.
pub proof fn transitions_are_recorded(from: RunStatus, to: RunStatus, reason: Seq<char>)
    ensures
        ({
            let record = transition_view(from, to, reason);
            &&& record.member("kind"@) == Some(JsonView::Text("state_transition"@))
            &&& record.member("from"@) == Some(JsonView::Text(status_tag(from)))
            &&& record.member("to"@) == Some(JsonView::Text(status_tag(to)))
            &&& record.member("reason"@) == Some(JsonView::Text(reason))
            &&& forall|key: Seq<char>|
                key != "kind"@ && key != "from"@ && key != "to"@ && key != "reason"@
                    ==> #[trigger] record.member(key) is None
        }),
{
    reveal_strlit("kind");
    reveal_strlit("from");
    reveal_strlit("to");
    reveal_strlit("reason");
    assert("kind"@.len() == 4 && "kind"@[0] == 'k');
    assert("from"@.len() == 4 && "from"@[0] == 'f');
    assert("to"@.len() == 2);
    assert("reason"@.len() == 6);
}

/// The record of a control event holds the kind of the event, its message, and the item and the
/// counter that it names, which are null where it names none.
pub proof fn control_events_are_recorded(
    event: ControlEventView,
    message: Seq<char>,
    item_id: Option<Seq<char>>,
    counter: Option<i64>,
)
    requires
        event == (ControlEventView::Notify { message, item_id, counter }) || event == (
        ControlEventView::Halt { message, item_id, counter }),
    ensures
        ({
            let record = control_event_view(event);
            &&& record.member("kind"@) == Some(JsonView::Text("control_event"@))
            &&& forall|key: Seq<char>|
                key != "kind"@ && key != "event"@ ==> #[trigger] record.member(key) is None
            &&& record.member("event"@) matches Some(body)
            &&& event is Notify ==> body.member("type"@) == Some(JsonView::Text("notify"@))
            &&& event is Halt ==> body.member("type"@) == Some(JsonView::Text("halt"@))
            &&& body.member("message"@) == Some(JsonView::Text(message))
            &&& item_id matches Some(id) ==> body.member("item_id"@) == Some(JsonView::Text(id))
            &&& item_id is None ==> body.member("item_id"@) == Some(JsonView::Null)
            &&& counter matches Some(value) ==> body.member("counter"@) == Some(
                JsonView::Number(int_text(value as int)),
            )
            &&& counter is None ==> body.member("counter"@) == Some(JsonView::Null)
            &&& forall|key: Seq<char>|
                key != "type"@ && key != "message"@ && key != "item_id"@ && key != "counter"@
                    ==> #[trigger] body.member(key) is None
        }),
{
    reveal_strlit("kind");
    reveal_strlit("event");
    reveal_strlit("type");
    reveal_strlit("message");
    reveal_strlit("item_id");
    reveal_strlit("counter");
    assert("kind"@.len() == 4);
    assert("event"@.len() == 5);
    assert("type"@.len() == 4);
    assert("message"@.len() == 7 && "message"@[0] == 'm');
    assert("item_id"@.len() == 7 && "item_id"@[0] == 'i');
    assert("counter"@.len() == 7 && "counter"@[0] == 'c');
}

/// The record of a session holds the prompt that it was seen at, its identifier, its file, the time
/// and the reason.
pub proof fn sessions_are_recorded(
    prompt_id: Seq<char>,
    session: SessionInfoView,
    started_at: Seq<char>,
    reason: Seq<char>,
)
    ensures
        ({
            let record = session_record_view(prompt_id, session, started_at, reason);
            &&& record.member("prompt_id"@) == Some(JsonView::Text(prompt_id))
            &&& record.member("session_id"@) == Some(JsonView::Text(session.session_id))
            &&& record.member("session_file"@) == Some(JsonView::Text(session.session_file))
            &&& record.member("started_at"@) == Some(JsonView::Text(started_at))
            &&& record.member("reason"@) == Some(JsonView::Text(reason))
            &&& forall|key: Seq<char>|
                key != "prompt_id"@ && key != "session_id"@ && key != "session_file"@ && key
                    != "started_at"@ && key != "reason"@ ==> #[trigger] record.member(key) is None
        }),
{
    reveal_strlit("prompt_id");
    reveal_strlit("session_id");
    reveal_strlit("session_file");
    reveal_strlit("started_at");
    reveal_strlit("reason");
    assert("prompt_id"@.len() == 9);
    assert("session_id"@.len() == 10 && "session_id"@[1] == 'e');
    assert("session_file"@.len() == 12);
    assert("started_at"@.len() == 10 && "started_at"@[1] == 't');
    assert("reason"@.len() == 6);
}

/// The record of a prompt holds the run, the item with its counter and its iteration, the prompt with
/// its index, the session, which is null where there is none, and the text.
pub proof fn prompts_are_recorded(
    run_id: Seq<char>,
    item: LoopItemView,
    prompt_index: int,
    prompt_id: Seq<char>,
    session: Option<SessionInfoView>,
    text: Seq<char>,
)
    requires
        prompt_index >= 0,
    ensures
        ({
            let record = prompt_record_view(run_id, item, prompt_index, prompt_id, session, text);
            &&& record.member("run_id"@) == Some(JsonView::Text(run_id))
            &&& record.member("item_id"@) == Some(JsonView::Text(item.item_id))
            &&& record.member("counter"@) == Some(JsonView::Number(int_text(item.counter as int)))
            &&& record.member("iteration"@) == Some(
                JsonView::Number(int_text(item.iteration as int)),
            )
            &&& record.member("prompt_index"@) == Some(JsonView::Number(int_text(prompt_index)))
            &&& record.member("prompt_id"@) == Some(JsonView::Text(prompt_id))
            &&& session matches Some(info) ==> record.member("session_id"@) == Some(
                JsonView::Text(info.session_id),
            ) && record.member("session_file"@) == Some(JsonView::Text(info.session_file))
            &&& session is None ==> record.member("session_id"@) == Some(JsonView::Null)
                && record.member("session_file"@) == Some(JsonView::Null)
            &&& record.member("text"@) == Some(JsonView::Text(text))
            &&& forall|key: Seq<char>|
                key != "run_id"@ && key != "item_id"@ && key != "counter"@ && key != "iteration"@
                    && key != "prompt_index"@ && key != "prompt_id"@ && key != "session_id"@ && key
                    != "session_file"@ && key != "text"@ ==> #[trigger] record.member(key) is None
        }),
{
    reveal_strlit("run_id");
    reveal_strlit("item_id");
    reveal_strlit("counter");
    reveal_strlit("iteration");
    reveal_strlit("prompt_index");
    reveal_strlit("prompt_id");
    reveal_strlit("session_id");
    reveal_strlit("session_file");
    reveal_strlit("text");
    assert("run_id"@.len() == 6);
    assert("item_id"@.len() == 7 && "item_id"@[0] == 'i');
    assert("counter"@.len() == 7 && "counter"@[0] == 'c');
    assert("iteration"@.len() == 9 && "iteration"@[0] == 'i');
    assert("prompt_index"@.len() == 12 && "prompt_index"@[0] == 'p');
    assert("prompt_id"@.len() == 9 && "prompt_id"@[0] == 'p');
    assert("session_id"@.len() == 10);
    assert("session_file"@.len() == 12 && "session_file"@[0] == 's');
    assert("text"@.len() == 4);
}

/// A text that is there is a JSON string, and one that is missing is null.
pub proof fn missing_texts_are_null(text: Seq<char>)
    ensures
        opt_text_view(Some(text)) == JsonView::Text(text),
        opt_text_view(None) == JsonView::Null,
{
}

/// Each error is shown with the words of its kind in front of its text.
pub proof fn errors_say_what_kind_they_are(text: Seq<char>)
    ensures
        ErrorView::ConfigValidation(text).message() == "configuration validation failed:\n"@ + text,
        ErrorView::Loop(text).message() == "loop error: "@ + text,
        ErrorView::Io(text).message() == "I/O error: "@ + text,
        ErrorView::Json(text).message() == "JSON error: "@ + text,
        ErrorView::Yaml(text).message() == "YAML error: "@ + text,
        ErrorView::Render(text).message() == "render error: "@ + text,
{
}

/// What a failure tells is the error itself; of a template that does not render, only the kind of the
/// error is told.
pub proof fn failures_tell_their_error(error: ErrorView, told: ErrorView, text: Seq<char>)
    ensures
        error_fits(error, Failure::Told(told)) <==> error == told,
        error_fits(error, Failure::Render) <==> error is Render,
        message_fits(text, Failure::Told(told.message())) <==> text == told.message(),
        message_fits(text, Failure::Render) <==> exists|rest: Seq<char>|
            text == #[trigger] ("render error: "@ + rest),
        failure_message(Failure::Told(told)) == Failure::Told(told.message()),
        failure_message(Failure::<ErrorView>::Render) == Failure::<Seq<char>>::Render,
{
    let nothing = Seq::<char>::empty();
    if tells_render_error(text, nothing) {
        let rest = choose|rest: Seq<char>|
            text == nothing + #[trigger] ErrorView::Render(rest).message();
        assert(text =~= "render error: "@ + rest);
    }
    if exists|rest: Seq<char>| text == #[trigger] ("render error: "@ + rest) {
        let rest = choose|rest: Seq<char>| text == #[trigger] ("render error: "@ + rest);
        assert(text =~= nothing + ErrorView::Render(rest).message());
    }
}

/// A control event is read exactly where it holds from one byte to 65536.
pub proof fn control_events_have_a_size(length: int)
    requires
        length >= 0,
    ensures
        length == 0 ==> payload_verdict(length) == Err::<(), Seq<char>>("empty control event"@),
        1 <= length <= 65536 ==> payload_verdict(length) == Ok::<(), Seq<char>>(()),
        length > 65536 ==> payload_verdict(length) == Err::<(), Seq<char>>(
            "control event exceeds "@ + nat_text(65536) + " bytes"@,
        ),
{
}

/// A control event was taken exactly where its answer says so; otherwise the answer says why it was
/// not, as far as it says anything.
pub proof fn answers_to_control_events_are_believed(
    payload: Seq<u8>,
    error: Option<Seq<char>>,
    reason: Seq<char>,
)
    ensures
        payload.len() == 0 ==> response_verdict(payload, Some((true, error))) == Err::<
            (),
            Seq<char>,
        >("empty control response"@),
        payload.len() > 0 ==> response_verdict(payload, Some((true, error))) == Ok::<
            (),
            Seq<char>,
        >(()),
        payload.len() > 0 ==> response_verdict(payload, Some((false, Some(reason)))) == Err::<
            (),
            Seq<char>,
        >(reason),
        payload.len() > 0 ==> response_verdict(payload, Some((false, None))) == Err::<
            (),
            Seq<char>,
        >("control event rejected"@),
        payload.len() > 0 ==> response_verdict(payload, None) == Err::<(), Seq<char>>(
            "invalid control response"@,
        ),
{
}

/// A halt replaces whatever is pending; a notification replaces everything but a halt.
pub proof fn later_events_replace_earlier_ones(
    pending: Option<ControlEventView>,
    event: ControlEventView,
)
    ensures
        event is Halt ==> merged(pending, event) == Some(event),
        event is Notify && pending is Some && pending->0 is Halt ==> merged(pending, event)
            == pending,
        event is Notify && (pending is None || pending->0 is Notify) ==> merged(pending, event)
            == Some(event),
{
}

/// An event that is already pending counts as one that came before the others.
pub proof fn pending_events_come_first(events: Seq<ControlEventView>, first: ControlEventView)
    ensures
        drained(events, Some(first)) == drained(seq![first] + events, None),
    decreases events.len(),
{
    let all = seq![first] + events;
    if events.len() == 0 {
        assert(all.drop_last() =~= Seq::<ControlEventView>::empty());
        assert(all.last() == first);
        assert(drained(all.drop_last(), None) is None);
    } else {
        pending_events_come_first(events.drop_last(), first);
        assert(all.drop_last() =~= seq![first] + events.drop_last());
        assert(all.last() == events.last());
    }
}

/// The message of an event is the one that it carries, whether it asks for a pause or for a halt.
pub proof fn events_carry_their_message(
    message: Seq<char>,
    item_id: Option<Seq<char>>,
    counter: Option<i64>,
)
    ensures
        event_message(ControlEventView::Notify { message, item_id, counter }) == message,
        event_message(ControlEventView::Halt { message, item_id, counter }) == message,
{
}

} // verus!

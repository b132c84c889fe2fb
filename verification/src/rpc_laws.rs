//! What the agent's answers mean, how its process is started, and how long it is waited for.

use vstd::prelude::*;
use vstd::utf8::encode_utf8;

use crate::files::path_equal;
use crate::json::JsonView;
use crate::rpc::{
    answers, assistant_text, capped_buffer, closed_in_retry_text, closed_text, env_seconds,
    env_timeouts, has_type, is_busy, is_failure, launch_arguments, launch_variables,
    new_session_verdict, required_text, retry_seconds, session_of, stderr_note, still_busy_text,
    timed_out_text, timeout_seconds, EnvValue, RpcTimeouts, SessionInfoView, TimeoutKind,
};
use crate::session::{collected, plain_command, SessionStepView, SessionTaskView};
use crate::text::{int_text, longest_tail, nat_text, occurs_in, parsed_u64, trimmed};

verus! {

/// What a frame is and what it answers stands in its members.
pub proof fn frames_say_what_they_are(frame: JsonView, name: Seq<char>)
    ensures
        has_type(frame, name) <==> frame.member("type"@) == Some(JsonView::Text(name)),
        answers(frame, name) <==> frame.member("id"@) == Some(JsonView::Text(name)),
        is_failure(frame) <==> frame.member("success"@) == Some(JsonView::Bool(false)),
        is_busy(frame) ==> is_failure(frame) && frame.member_text("error"@) is Some,
{
}

/// The seconds before each further try.
pub proof fn tries_wait_ever_longer(retry_count: int)
    requires
        retry_count >= 0,
    ensures
        retry_count == 0 ==> retry_seconds(retry_count) == 1,
        retry_count == 1 ==> retry_seconds(retry_count) == 2,
        retry_count == 2 ==> retry_seconds(retry_count) == 4,
        retry_count == 3 ==> retry_seconds(retry_count) == 8,
        retry_count >= 4 ==> retry_seconds(retry_count) == 15,
{
}

/// A timeout is a positive number of seconds, with white space around it allowed.
pub proof fn timeouts_are_positive(name: Seq<char>, value: Seq<char>, seconds: u64)
    ensures
        timeout_seconds(name, value) == Ok::<u64, Seq<char>>(seconds) <==> seconds > 0
            && parsed_u64(trimmed(value)) == Some(seconds),
        parsed_u64(trimmed(value)) == Some(0u64) ==> timeout_seconds(name, value) == Err::<
            u64,
            Seq<char>,
        >(name + " must be greater than zero"@),
        parsed_u64(trimmed(value)) is None ==> timeout_seconds(name, value) == Err::<
            u64,
            Seq<char>,
        >(name + " must be a positive integer number of seconds"@),
{
}

/// Each kind of waiting takes as long as its own variable says; without the variable it takes 30
/// seconds for the process to get ready, 300 for an answer, and 1800 for the agent to go on.
pub proof fn variables_set_their_own_timeout(
    ready: EnvValue,
    command: EnvValue,
    prompt_idle: EnvValue,
)
    ensures
        ({
            let first = env_seconds("AGENTFLOW_OMP_READY_TIMEOUT_SECONDS"@, ready, 30);
            let second = env_seconds("AGENTFLOW_OMP_COMMAND_TIMEOUT_SECONDS"@, command, 300);
            let third = env_seconds(
                "AGENTFLOW_OMP_PROMPT_IDLE_TIMEOUT_SECONDS"@,
                prompt_idle,
                1800,
            );
            let all = env_timeouts(ready, command, prompt_idle);
            &&& first is Ok && second is Ok && third is Ok ==> all == Ok::<RpcTimeouts, Seq<char>>(
                RpcTimeouts {
                    ready: first->Ok_0,
                    command: second->Ok_0,
                    prompt_idle: third->Ok_0,
                },
            )
            &&& first is Err ==> all == Err::<RpcTimeouts, Seq<char>>(first->Err_0)
            &&& first is Ok && second is Err ==> all == Err::<RpcTimeouts, Seq<char>>(
                second->Err_0,
            )
            &&& first is Ok && second is Ok && third is Err ==> all == Err::<
                RpcTimeouts,
                Seq<char>,
            >(third->Err_0)
        }),
{
}

/// A variable that is not set leaves the default, one that is set is read, and one that is no text is
/// refused.
pub proof fn variables_that_are_not_set_leave_the_default(
    name: Seq<char>,
    text: String,
    default_seconds: u64,
)
    ensures
        env_seconds(name, EnvValue::Absent, default_seconds) == Ok::<u64, Seq<char>>(
            default_seconds,
        ),
        env_seconds(name, EnvValue::Present(text), default_seconds) == timeout_seconds(name, text@),
        env_seconds(name, EnvValue::NotUnicode, default_seconds) == Err::<u64, Seq<char>>(
            name + " must be valid UTF-8"@,
        ),
{
}

/// Each kind of waiting has its own seconds, its own words and its own variable.
pub proof fn waiting_has_kinds(timeouts: RpcTimeouts)
    ensures
        timeouts.seconds(TimeoutKind::Ready) == timeouts.ready,
        timeouts.seconds(TimeoutKind::CommandResponse) == timeouts.command,
        timeouts.seconds(TimeoutKind::PromptIdle) == timeouts.prompt_idle,
        TimeoutKind::Ready.words() == "ready frame"@,
        TimeoutKind::CommandResponse.words() == "command response frame"@,
        TimeoutKind::PromptIdle.words() == "prompt progress or completion frame"@,
        TimeoutKind::Ready.variable() == "AGENTFLOW_OMP_READY_TIMEOUT_SECONDS"@,
        TimeoutKind::CommandResponse.variable() == "AGENTFLOW_OMP_COMMAND_TIMEOUT_SECONDS"@,
        TimeoutKind::PromptIdle.variable() == "AGENTFLOW_OMP_PROMPT_IDLE_TIMEOUT_SECONDS"@,
{
}

/// The output that is kept of the agent's standard error is all its lines, with a line feed between
/// any two, as long as they fit into a mebibyte. Beyond that a marker stands in front of the longest
/// end that still fits behind it.
pub proof fn the_end_of_long_output_is_kept(buffer: Seq<char>, line: Seq<char>)
    ensures
        ({
            let all = if buffer.len() == 0 {
                line
            } else {
                buffer + "\n"@ + line
            };
            &&& encode_utf8(all).len() <= 1048576 ==> capped_buffer(buffer, line) == all
            &&& encode_utf8(all).len() > 1048576 ==> capped_buffer(buffer, line)
                == "[stderr truncated]\n"@ + longest_tail(all, 1048557)
        }),
{
}

/// A member that has to be a text with something in it is taken exactly where it is one.
pub proof fn required_texts_are_there(
    member: Option<JsonView>,
    field: Seq<char>,
    text: Seq<char>,
)
    ensures
        required_text(member, field) == Ok::<Seq<char>, Seq<char>>(text) <==> text.len() > 0
            && member == Some(JsonView::Text(text)),
        member is Some && member->0 is Text && member->0->Text_0.len() == 0 ==> required_text(
            member,
            field,
        ) == Err::<Seq<char>, Seq<char>>(field + " is empty"@),
        member is None || !(member->0 is Text) ==> required_text(member, field) == Err::<
            Seq<char>,
            Seq<char>,
        >("missing "@ + field),
{
}

/// An answer names a session exactly where its data hold an identifier and a file, both with something
/// in them.
pub proof fn answers_name_sessions(response: JsonView, session: SessionInfoView)
    ensures
        session_of(response) == Ok::<SessionInfoView, Seq<char>>(session) <==> (response.member(
            "data"@,
        ) matches Some(data) && data.member("sessionId"@) == Some(
            JsonView::Text(session.session_id),
        ) && data.member("sessionFile"@) == Some(JsonView::Text(session.session_file))
            && session.session_id.len() > 0 && session.session_file.len() > 0),
{
    if let Ok(found) = session_of(response) {
        assert(found.session_id.len() > 0);
    }
}

/// What is missing in an answer that names no session: the data, the identifier, or the file.
pub proof fn missing_sessions_are_told(response: JsonView)
    ensures
        response.member("data"@) is None || !(response.member("data"@)->0 is Object) ==> session_of(
            response,
        ) == Err::<SessionInfoView, Seq<char>>("get_state response missing data object"@),
        response.member("data"@) matches Some(data) && data is Object && required_text(
            data.member("sessionId"@),
            "data.sessionId"@,
        ) is Err ==> session_of(response) == Err::<SessionInfoView, Seq<char>>(
            required_text(
                response.member("data"@)->0.member("sessionId"@),
                "data.sessionId"@,
            )->Err_0,
        ),
        response.member("data"@) matches Some(data) && data is Object && required_text(
            data.member("sessionId"@),
            "data.sessionId"@,
        ) is Ok && required_text(data.member("sessionFile"@), "data.sessionFile"@) is Err
            ==> session_of(response) == Err::<SessionInfoView, Seq<char>>(
            required_text(
                response.member("data"@)->0.member("sessionFile"@),
                "data.sessionFile"@,
            )->Err_0,
        ),
{
}

/// The agent's last answer is the text in the data, or else the data themselves where they are a text,
/// or else the text beside them.
pub proof fn the_last_answer_is_found(response: JsonView, text: Seq<char>)
    ensures
        response.member("data"@) matches Some(data) && data.member("text"@) == Some(
            JsonView::Text(text),
        ) ==> assistant_text(response) == Some(text),
        response.member("data"@) == Some(JsonView::Text(text)) ==> assistant_text(response) == Some(
            text,
        ),
        response.member("text"@) == Some(JsonView::Text(text)) && (response.member("data"@)
            matches Some(data) ==> data.member_text("text"@) is None && !(data is Text))
            ==> assistant_text(response) == Some(text),
        response.member_text("text"@) is None && (response.member("data"@) matches Some(data)
            ==> data.member_text("text"@) is None && !(data is Text)) ==> assistant_text(response)
            is None,
{
}

/// A new session is refused exactly where the session before it is known and has its identifier.
pub proof fn new_sessions_have_another_identifier(
    previous: SessionInfoView,
    current: SessionInfoView,
)
    ensures
        new_session_verdict(None, current) is Ok,
        previous.session_id != current.session_id ==> new_session_verdict(
            Some(previous),
            current,
        ) is Ok,
        previous.session_id == current.session_id ==> new_session_verdict(Some(previous), current)
            == Err::<(), Seq<char>>("new_session did not change sessionId"@),
{
}

/// The agent's process is started for requests, in the session that is resumed, or in one of its own
/// that is kept only where sessions are.
pub proof fn processes_get_their_session(file: Seq<char>, persist_session: bool)
    ensures
        launch_arguments(Some(file), persist_session).len() == 4,
        launch_arguments(Some(file), persist_session)[0] == "--mode"@,
        launch_arguments(Some(file), persist_session)[1] == "rpc"@,
        launch_arguments(Some(file), persist_session)[2] == "--resume"@,
        launch_arguments(Some(file), persist_session)[3] == file,
        launch_arguments(None, true).len() == 2,
        launch_arguments(None, false).len() == 3,
        launch_arguments(None, persist_session)[0] == "--mode"@,
        launch_arguments(None, persist_session)[1] == "rpc"@,
        launch_arguments(None, false)[2] == "--no-session"@,
{
}

/// The agent's process knows the control socket, the item and the counter.
pub proof fn processes_know_their_item(control_socket: Seq<char>, item_id: Seq<char>, counter: int)
    ensures
        ({
            let variables = launch_variables(control_socket, item_id, counter);
            &&& variables.len() == 3
            &&& variables[0] == ("AGENTFLOW_CONTROL_SOCKET"@, control_socket)
            &&& variables[1] == ("AGENTFLOW_ITEM_ID"@, item_id)
            &&& variables[2] == ("AGENTFLOW_COUNTER"@, int_text(counter))
        }),
{
}

/// A command without arguments holds its kind and nothing else.
pub proof fn plain_commands_hold_their_kind(kind: Seq<char>)
    ensures
        plain_command(kind).member("type"@) == Some(JsonView::Text(kind)),
        forall|key: Seq<char>| key != "type"@ ==> #[trigger] plain_command(kind).member(key) is None,
{
}

/// What is asked of the agent about its sessions: to start a new one while the old one is being left,
/// to go back to one, and otherwise which one it has. Frames are collected where the task says so,
/// but for the first answer of a new session and for going back.
pub proof fn tasks_send_their_command(task: SessionTaskView)
    ensures
        task is Renewing ==> task.command().member("type"@) == Some(JsonView::Text("new_session"@)),
        task matches SessionTaskView::Switch { path } ==> task.command().member("type"@) == Some(
            JsonView::Text("switch_session"@),
        ) && task.command().member("sessionPath"@) == Some(JsonView::Text(path)),
        !(task is Renewing) && !(task is Switch) ==> task.command().member("type"@) == Some(
            JsonView::Text("get_state"@),
        ),
        task matches SessionTaskView::Inspect { collect } ==> task.collects() == collect,
        task matches SessionTaskView::Renewing { collect, .. } ==> task.collects() == collect,
        task matches SessionTaskView::Renewed { collect, .. } ==> task.collects() == collect,
        task is Renew || task is Switch || task is Switched ==> !task.collects(),
{
    reveal_strlit("type");
    reveal_strlit("sessionPath");
    assert("type"@.len() != "sessionPath"@.len());
}

/// An answer is put behind the frames that came before it where frames are collected, and nothing is
/// added elsewhere.
pub proof fn answers_stand_behind_their_frames(frames: Seq<JsonView>, response: JsonView)
    ensures
        collected(true, frames, response) == frames.push(response),
        collected(false, frames, response) == frames,
{
}

/// The session of the agent is the one that its answer names, with the frames in front of the answer.
pub proof fn inspections_find_the_session(
    collect: bool,
    response: JsonView,
    frames: Seq<JsonView>,
)
    ensures
        ({
            let task = SessionTaskView::Inspect { collect };
            match session_of(response) {
                Ok(session) => task.after(response, frames) matches Ok(
                    SessionStepView::Finished { info, frames: all },
                ) && info == session && (collect ==> all == frames.push(response)) && (!collect
                    ==> all == frames),
                Err(error) => task.after(response, frames) == Err::<SessionStepView, Seq<char>>(
                    error,
                ),
            }
        }),
{
}

/// A new session takes three commands: which session there is, a new one, and which session there is
/// then. A first answer that names no session is no error. The last one is, and so is a session that
/// has not changed.
pub proof fn renewals_take_three_commands(
    collect: bool,
    previous: Option<SessionInfoView>,
    earlier: Seq<JsonView>,
    response: JsonView,
    frames: Seq<JsonView>,
)
    ensures
        (SessionTaskView::Renew { collect }).after(response, frames) == Ok::<
            SessionStepView,
            Seq<char>,
        >(
            SessionStepView::Continue(
                SessionTaskView::Renewing {
                    collect,
                    previous: if session_of(response) is Ok {
                        Some(session_of(response)->Ok_0)
                    } else {
                        None
                    },
                },
            ),
        ),
        (SessionTaskView::Renewing { collect, previous }).after(response, frames) == Ok::<
            SessionStepView,
            Seq<char>,
        >(
            SessionStepView::Continue(
                SessionTaskView::Renewed {
                    collect,
                    previous,
                    frames: if collect {
                        frames.push(response)
                    } else {
                        frames
                    },
                },
            ),
        ),
        ({
            let task = SessionTaskView::Renewed { collect, previous, frames: earlier };
            match session_of(response) {
                Err(error) => task.after(response, frames) == Err::<SessionStepView, Seq<char>>(
                    error,
                ),
                Ok(session) => if previous is Some && previous->0.session_id == session.session_id {
                    task.after(response, frames) == Err::<SessionStepView, Seq<char>>(
                        "new_session did not change sessionId"@,
                    )
                } else {
                    task.after(response, frames) matches Ok(
                        SessionStepView::Finished { info, frames: all },
                    ) && info == session && (collect ==> all == earlier + frames.push(response))
                        && (!collect ==> all == earlier)
                },
            }
        }),
{
}

/// Going back to a session takes two commands: the switch, whose answer does not matter, and the
/// question which session there is then, whose answer has to name the file that was asked for.
pub proof fn switches_are_checked(path: Seq<char>, response: JsonView, frames: Seq<JsonView>)
    ensures
        (SessionTaskView::Switch { path }).after(response, frames) == Ok::<
            SessionStepView,
            Seq<char>,
        >(SessionStepView::Continue(SessionTaskView::Switched { path })),
        ({
            let task = SessionTaskView::Switched { path };
            match session_of(response) {
                Err(error) => task.after(response, frames) == Err::<SessionStepView, Seq<char>>(
                    error,
                ),
                Ok(session) => if path_equal(session.session_file, path) {
                    task.after(response, frames) matches Ok(
                        SessionStepView::Finished { info, frames: all },
                    ) && info == session && all.len() == 0
                } else {
                    task.after(response, frames) == Err::<SessionStepView, Seq<char>>(
                        "switch_session returned sessionFile "@ + session.session_file
                            + ", expected "@ + path,
                    )
                },
            }
        }),
{
}

/// An agent is busy exactly where it reports a failure whose error says so.
pub proof fn busy_agents_say_so(frame: JsonView)
    ensures
        is_busy(frame) <==> frame.member("success"@) == Some(JsonView::Bool(false)) && (
        frame.member("error"@) matches Some(JsonView::Text(error)) && (occurs_in(
            error,
            "already processing"@,
        ) || occurs_in(error, "Already processing"@))),
{
}

/// What the agent has written to standard error is added to a message behind a label, and nothing is
/// added where it has written nothing.
pub proof fn errors_quote_standard_error(stderr: Seq<char>)
    ensures
        stderr.len() == 0 ==> stderr_note(stderr).len() == 0,
        stderr.len() > 0 ==> stderr_note(stderr) == "; stderr: "@ + stderr,
{
}

/// The errors of waiting say what was waited for, how long, and which variable gives it more time.
pub proof fn errors_of_waiting_say_what_was_missed(
    kind: TimeoutKind,
    seconds: u64,
    stderr: Seq<char>,
)
    ensures
        closed_text(kind, stderr) == "omp rpc process closed stdout while waiting for "@
            + kind.words() + stderr_note(stderr),
        timed_out_text(kind, seconds, stderr) == "timed out after "@ + nat_text(seconds as nat)
            + "s waiting for omp rpc "@ + kind.words() + stderr_note(stderr) + "; set "@
            + kind.variable() + " to a larger number of seconds if OMP is still working"@,
        closed_in_retry_text(stderr)
            == "omp rpc process closed stdout while waiting to retry busy command"@ + stderr_note(
            stderr,
        ),
        still_busy_text(seconds) == "omp rpc remained busy for "@ + nat_text(seconds as nat)
            + " seconds"@,
{
}

} // verus!

//! What is asked of the agent about its sessions, command by command.
//!
//! A [`SessionTask`] names the command to send; the answer leads to the next command or to the
//! result.

use serde_json::Value;
use vstd::prelude::*;

use crate::error::outcome;
use crate::files::path_equal;
use crate::json::{json_insert, json_object, json_string, json_view, json_views, JsonView};
use crate::rpc::{
    check_new_session, check_switched_session, new_session_verdict, opt_session,
    optional_session_info_from_response, session_info_from_response, session_of, SessionInfo,
    SessionInfoView,
};

verus! {

/// A command without arguments.
pub open spec fn plain_command(kind: Seq<char>) -> JsonView {
    JsonView::Object(Map::empty().insert("type"@, JsonView::Text(kind)))
}

fn make_command(kind: &str) -> (command: Value)
    ensures
        json_view(command) == plain_command(kind@),
{
    let mut command = json_object();
    json_insert(&mut command, "type", json_string(kind));
    command
}

/// The command that asks for the session of the agent.
pub fn get_state_command() -> (command: Value)
    ensures
        json_view(command) == plain_command("get_state"@),
{
    make_command("get_state")
}

/// The command that starts a new session.
pub fn new_session_command() -> (command: Value)
    ensures
        json_view(command) == plain_command("new_session"@),
{
    make_command("new_session")
}

/// The command that asks for the agent's last answer.
pub fn last_assistant_text_command() -> (command: Value)
    ensures
        json_view(command) == plain_command("get_last_assistant_text"@),
{
    make_command("get_last_assistant_text")
}

/// The command that goes back to the session of a file.
pub fn switch_session_command(session_path: &str) -> (command: Value)
    ensures
        json_view(command) == JsonView::Object(
            Map::empty().insert("type"@, JsonView::Text("switch_session"@)).insert(
                "sessionPath"@,
                JsonView::Text(session_path@),
            ),
        ),
{
    let mut command = json_object();
    json_insert(&mut command, "type", json_string("switch_session"));
    json_insert(&mut command, "sessionPath", json_string(session_path));
    command
}

/// The frames of a command with its response behind them, where frames are collected.
pub open spec fn collected(
    collect: bool,
    frames: Seq<JsonView>,
    response: JsonView,
) -> Seq<JsonView> {
    if collect {
        frames.push(response)
    } else {
        frames
    }
}

/// Puts the response of a command behind its frames, where frames are collected.
pub fn frames_with_response(collect: bool, frames: Vec<Value>, response: Value) -> (all: Vec<Value>)
    ensures
        json_views(all@) == collected(collect, json_views(frames@), json_view(response)),
{
    let mut all = frames;
    if collect {
        all.push(response);
        assert(json_views(all@) =~= json_views(frames@).push(json_view(response)));
    }
    all
}

/// What is asked of the agent about its sessions, and how far it has come.
#[derive(Debug)]
pub enum SessionTask {
    /// Ask for the session.
    Inspect { collect: bool },
    /// Start a new session; the old one is asked for first.
    Renew { collect: bool },
    /// The old session is known, if there was one; the new one is being started.
    Renewing { collect: bool, previous: Option<SessionInfo> },
    /// The new session has been started; it is being asked for.
    Renewed { collect: bool, previous: Option<SessionInfo>, frames: Vec<Value> },
    /// Go back to the session of a file.
    Switch { path: String },
    /// The agent has gone back; the session is being asked for.
    Switched { path: String },
}

/// What a [`SessionTask`] says.
pub enum SessionTaskView {
    Inspect { collect: bool },
    Renew { collect: bool },
    Renewing { collect: bool, previous: Option<SessionInfoView> },
    Renewed { collect: bool, previous: Option<SessionInfoView>, frames: Seq<JsonView> },
    Switch { path: Seq<char> },
    Switched { path: Seq<char> },
}

impl View for SessionTask {
    type V = SessionTaskView;

    open spec fn view(&self) -> SessionTaskView {
        match self {
            SessionTask::Inspect { collect } => SessionTaskView::Inspect { collect: *collect },
            SessionTask::Renew { collect } => SessionTaskView::Renew { collect: *collect },
            SessionTask::Renewing { collect, previous } => SessionTaskView::Renewing {
                collect: *collect,
                previous: opt_session(*previous),
            },
            SessionTask::Renewed { collect, previous, frames } => SessionTaskView::Renewed {
                collect: *collect,
                previous: opt_session(*previous),
                frames: json_views(frames@),
            },
            SessionTask::Switch { path } => SessionTaskView::Switch { path: path@ },
            SessionTask::Switched { path } => SessionTaskView::Switched { path: path@ },
        }
    }
}

/// What follows an answer.
#[derive(Debug)]
pub enum SessionStep {
    /// The next command is to be sent.
    Continue(SessionTask),
    /// The session, and the frames that were collected.
    Finished { info: SessionInfo, frames: Vec<Value> },
}

/// What a [`SessionStep`] says.
pub enum SessionStepView {
    Continue(SessionTaskView),
    Finished { info: SessionInfoView, frames: Seq<JsonView> },
}

impl View for SessionStep {
    type V = SessionStepView;

    open spec fn view(&self) -> SessionStepView {
        match self {
            SessionStep::Continue(task) => SessionStepView::Continue(task@),
            SessionStep::Finished { info, frames } => SessionStepView::Finished {
                info: info@,
                frames: json_views(frames@),
            },
        }
    }
}

impl SessionTaskView {
    /// The command to send.
    pub open spec fn command(self) -> JsonView {
        match self {
            SessionTaskView::Renewing { .. } => plain_command("new_session"@),
            SessionTaskView::Switch { path } => JsonView::Object(
                Map::empty().insert("type"@, JsonView::Text("switch_session"@)).insert(
                    "sessionPath"@,
                    JsonView::Text(path),
                ),
            ),
            _ => plain_command("get_state"@),
        }
    }

    /// Whether the frames that come before the answer are collected.
    pub open spec fn collects(self) -> bool {
        match self {
            SessionTaskView::Inspect { collect } => collect,
            SessionTaskView::Renewing { collect, .. } => collect,
            SessionTaskView::Renewed { collect, .. } => collect,
            _ => false,
        }
    }

    /// What follows an answer and the frames that came before it.
    pub open spec fn after(self, response: JsonView, frames: Seq<JsonView>) -> Result<
        SessionStepView,
        Seq<char>,
    > {
        match self {
            SessionTaskView::Inspect { collect } => match session_of(response) {
                Err(error) => Err(error),
                Ok(info) => Ok(
                    SessionStepView::Finished { info, frames: collected(collect, frames, response) },
                ),
            },
            SessionTaskView::Renew { collect } => Ok(
                SessionStepView::Continue(
                    SessionTaskView::Renewing {
                        collect,
                        previous: match session_of(response) {
                            Ok(info) => Some(info),
                            Err(_) => None,
                        },
                    },
                ),
            ),
            SessionTaskView::Renewing { collect, previous } => Ok(
                SessionStepView::Continue(
                    SessionTaskView::Renewed {
                        collect,
                        previous,
                        frames: collected(collect, frames, response),
                    },
                ),
            ),
            SessionTaskView::Renewed { collect, previous, frames: earlier } => match session_of(
                response,
            ) {
                Err(error) => Err(error),
                Ok(info) => match new_session_verdict(previous, info) {
                    Err(error) => Err(error),
                    Ok(_) => Ok(
                        SessionStepView::Finished {
                            info,
                            frames: if collect {
                                earlier + collected(collect, frames, response)
                            } else {
                                earlier
                            },
                        },
                    ),
                },
            },
            SessionTaskView::Switch { path } => Ok(
                SessionStepView::Continue(SessionTaskView::Switched { path }),
            ),
            SessionTaskView::Switched { path } => match session_of(response) {
                Err(error) => Err(error),
                Ok(info) => if path_equal(info.session_file, path) {
                    Ok(SessionStepView::Finished { info, frames: Seq::empty() })
                } else {
                    Err(
                        "switch_session returned sessionFile "@ + info.session_file
                            + ", expected "@ + path,
                    )
                },
            },
        }
    }
}

impl SessionTask {
    /// The command to send.
    pub fn command(&self) -> (command: Value)
        ensures
            json_view(command) == self@.command(),
    {
        match self {
            SessionTask::Renewing { .. } => new_session_command(),
            SessionTask::Switch { path } => switch_session_command(path.as_str()),
            _ => get_state_command(),
        }
    }

    /// Whether the frames that come before the answer are collected.
    pub fn collects(&self) -> (collects: bool)
        ensures
            collects == self@.collects(),
    {
        match self {
            SessionTask::Inspect { collect } => *collect,
            SessionTask::Renewing { collect, .. } => *collect,
            SessionTask::Renewed { collect, .. } => *collect,
            _ => false,
        }
    }

    /// Takes an answer and the frames that came before it.
    pub fn reply(self, response: Value, frames: Vec<Value>) -> (result: Result<SessionStep, String>)
        ensures
            outcome(result) == self@.after(json_view(response), json_views(frames@)),
    {
        match self {
            SessionTask::Inspect { collect } => match session_info_from_response(&response) {
                Err(error) => Err(error),
                Ok(info) => {
                    let frames = frames_with_response(collect, frames, response);
                    Ok(SessionStep::Finished { info, frames })
                },
            },
            SessionTask::Renew { collect } => {
                let previous = optional_session_info_from_response(&response);
                Ok(SessionStep::Continue(SessionTask::Renewing { collect, previous }))
            },
            SessionTask::Renewing { collect, previous } => {
                let frames = frames_with_response(collect, frames, response);
                Ok(SessionStep::Continue(SessionTask::Renewed { collect, previous, frames }))
            },
            SessionTask::Renewed { collect, previous, frames: earlier } => {
                let info = match session_info_from_response(&response) {
                    Err(error) => {
                        return Err(error);
                    },
                    Ok(info) => info,
                };
                if let Err(error) = check_new_session(&previous, &info) {
                    return Err(error);
                }
                let mut all = earlier;
                if collect {
                    let mut later = frames_with_response(collect, frames, response);
                    let ghost added = later@;
                    all.append(&mut later);
                    assert(json_views(all@) =~= json_views(earlier@) + json_views(added));
                }
                Ok(SessionStep::Finished { info, frames: all })
            },
            SessionTask::Switch { path } => Ok(
                SessionStep::Continue(SessionTask::Switched { path }),
            ),
            SessionTask::Switched { path } => {
                let info = match session_info_from_response(&response) {
                    Err(error) => {
                        return Err(error);
                    },
                    Ok(info) => info,
                };
                match check_switched_session(&info, path.as_str()) {
                    Err(error) => Err(error),
                    Ok(()) => {
                        let frames: Vec<Value> = Vec::new();
                        assert(json_views(frames@) =~= Seq::empty());
                        Ok(SessionStep::Finished { info, frames })
                    },
                }
            },
        }
    }
}

/// A new session that is accepted differs from the session that was there before it.
pub proof fn new_sessions_differ(
    collect: bool,
    first: JsonView,
    second: JsonView,
    second_frames: Seq<JsonView>,
    third: JsonView,
    third_frames: Seq<JsonView>,
)
    ensures
        ({
            let start = SessionTaskView::Renew { collect };
            &&& start.after(first, Seq::empty()) matches Ok(SessionStepView::Continue(renewing))
            &&& renewing.command() == plain_command("new_session"@)
            &&& renewing.after(second, second_frames) matches Ok(SessionStepView::Continue(renewed))
            &&& renewed.after(third, third_frames) matches Ok(
                SessionStepView::Finished { info, frames },
            ) ==> {
                &&& session_of(third) == Ok::<SessionInfoView, Seq<char>>(info)
                &&& session_of(first) matches Ok(old_info) ==> info.session_id
                    != old_info.session_id
                &&& collect ==> frames == second_frames.push(second) + third_frames.push(third)
            }
        }),
{
}

} // verus!

//! The agent's RPC protocol: frames, responses, timeouts and the start of the process.

use serde_json::Value;
use vstd::prelude::*;

use crate::error::outcome;
use crate::files::{path_equal, same_path};
use crate::json::{
    json_bool, json_compact, json_get, json_is_object, json_parsed, json_str, json_text, json_view,
    parse_json, JsonView,
};
use crate::text::{
    byte_len, int_string, int_text, lemma_byte_len_concat, lemma_longest_tail_fits, longest_tail,
    nat_string, nat_text, occurs_in, opt_str, parse_u64_text, parsed_u64, same_text, tail_string,
    text_contains, texts, trimmed,
};

verus! {

/// A session of the agent.
#[derive(Debug, PartialEq, Eq)]
pub struct SessionInfo {
    pub session_id: String,
    pub session_file: String,
}

/// What a [`SessionInfo`] says.
pub struct SessionInfoView {
    pub session_id: Seq<char>,
    pub session_file: Seq<char>,
}

impl View for SessionInfo {
    type V = SessionInfoView;

    open spec fn view(&self) -> SessionInfoView {
        SessionInfoView { session_id: self.session_id@, session_file: self.session_file@ }
    }
}

impl Clone for SessionInfo {
    fn clone(&self) -> (copy: Self)
        ensures
            copy == *self,
    {
        SessionInfo {
            session_id: self.session_id.clone(),
            session_file: self.session_file.clone(),
        }
    }
}

/// What an optional session says.
pub open spec fn opt_session(session: Option<SessionInfo>) -> Option<SessionInfoView> {
    match session {
        Some(info) => Some(info@),
        None => None,
    }
}

/// The seconds that each kind of waiting may take.
#[derive(Debug, Clone, Copy, PartialEq, Eq, Structural)]
pub struct RpcTimeouts {
    pub ready: u64,
    pub command: u64,
    pub prompt_idle: u64,
}

/// What is waited for.
#[derive(Debug, Clone, Copy, PartialEq, Eq, Structural)]
pub enum TimeoutKind {
    Ready,
    CommandResponse,
    PromptIdle,
}

pub const DEFAULT_READY_TIMEOUT: u64 = 30;

pub const DEFAULT_COMMAND_TIMEOUT: u64 = 300;

pub const DEFAULT_PROMPT_IDLE_TIMEOUT: u64 = 1800;

pub const READY_TIMEOUT_ENV: &'static str = "AGENTFLOW_OMP_READY_TIMEOUT_SECONDS";

pub const COMMAND_TIMEOUT_ENV: &'static str = "AGENTFLOW_OMP_COMMAND_TIMEOUT_SECONDS";

pub const PROMPT_IDLE_TIMEOUT_ENV: &'static str = "AGENTFLOW_OMP_PROMPT_IDLE_TIMEOUT_SECONDS";

/// An environment variable, as it was found.
#[derive(Debug, PartialEq, Eq)]
pub enum EnvValue {
    Present(String),
    Absent,
    NotUnicode,
}

/// The seconds that a text gives: a positive integer, with white space around it allowed.
pub open spec fn timeout_seconds(name: Seq<char>, value: Seq<char>) -> Result<u64, Seq<char>> {
    match parsed_u64(trimmed(value)) {
        None => Err(name + " must be a positive integer number of seconds"@),
        Some(seconds) => if seconds == 0 {
            Err(name + " must be greater than zero"@)
        } else {
            Ok(seconds)
        },
    }
}

/// Reads the seconds of a timeout.
pub fn parse_timeout_seconds(name: &str, value: &str) -> (result: Result<u64, String>)
    ensures
        outcome(result) == timeout_seconds(name@, value@),
{
    match parse_u64_text(value) {
        None => Err(name.to_owned().concat(" must be a positive integer number of seconds")),
        Some(seconds) => {
            if seconds == 0 {
                return Err(name.to_owned().concat(" must be greater than zero"));
            }
            Ok(seconds)
        },
    }
}

/// The seconds that an environment variable gives, or the default where it is not set.
pub open spec fn env_seconds(name: Seq<char>, value: EnvValue, default_seconds: u64) -> Result<
    u64,
    Seq<char>,
> {
    match value {
        EnvValue::Present(text) => timeout_seconds(name, text@),
        EnvValue::Absent => Ok(default_seconds),
        EnvValue::NotUnicode => Err(name + " must be valid UTF-8"@),
    }
}

/// Reads a timeout from an environment variable.
pub fn duration_from_env(name: &str, value: &EnvValue, default_seconds: u64) -> (result: Result<
    u64,
    String,
>)
    ensures
        outcome(result) == env_seconds(name@, *value, default_seconds),
{
    match value {
        EnvValue::Present(text) => parse_timeout_seconds(name, text.as_str()),
        EnvValue::Absent => Ok(default_seconds),
        EnvValue::NotUnicode => Err(name.to_owned().concat(" must be valid UTF-8")),
    }
}

/// The timeouts that the environment gives; the first variable that cannot be read is the error.
pub open spec fn env_timeouts(
    ready: EnvValue,
    command: EnvValue,
    prompt_idle: EnvValue,
) -> Result<RpcTimeouts, Seq<char>> {
    match env_seconds(READY_TIMEOUT_ENV@, ready, DEFAULT_READY_TIMEOUT) {
        Err(error) => Err(error),
        Ok(ready) => match env_seconds(COMMAND_TIMEOUT_ENV@, command, DEFAULT_COMMAND_TIMEOUT) {
            Err(error) => Err(error),
            Ok(command) => match env_seconds(
                PROMPT_IDLE_TIMEOUT_ENV@,
                prompt_idle,
                DEFAULT_PROMPT_IDLE_TIMEOUT,
            ) {
                Err(error) => Err(error),
                Ok(prompt_idle) => Ok(RpcTimeouts { ready, command, prompt_idle }),
            },
        },
    }
}

impl RpcTimeouts {
    /// Reads the timeouts from the values of their environment variables.
    pub fn from_env(ready: &EnvValue, command: &EnvValue, prompt_idle: &EnvValue) -> (result: Result<
        Self,
        String,
    >)
        ensures
            (match result {
                Ok(timeouts) => env_timeouts(*ready, *command, *prompt_idle) == Ok::<
                    RpcTimeouts,
                    Seq<char>,
                >(timeouts),
                Err(error) => env_timeouts(*ready, *command, *prompt_idle) == Err::<
                    RpcTimeouts,
                    Seq<char>,
                >(error@),
            }),
    {
        let ready = match duration_from_env(READY_TIMEOUT_ENV, ready, DEFAULT_READY_TIMEOUT) {
            Ok(seconds) => seconds,
            Err(error) => {
                return Err(error);
            },
        };
        let command = match duration_from_env(
            COMMAND_TIMEOUT_ENV,
            command,
            DEFAULT_COMMAND_TIMEOUT,
        ) {
            Ok(seconds) => seconds,
            Err(error) => {
                return Err(error);
            },
        };
        let prompt_idle = match duration_from_env(
            PROMPT_IDLE_TIMEOUT_ENV,
            prompt_idle,
            DEFAULT_PROMPT_IDLE_TIMEOUT,
        ) {
            Ok(seconds) => seconds,
            Err(error) => {
                return Err(error);
            },
        };
        Ok(RpcTimeouts { ready, command, prompt_idle })
    }

    /// The seconds that a kind of waiting may take.
    pub open spec fn seconds(self, kind: TimeoutKind) -> u64 {
        match kind {
            TimeoutKind::Ready => self.ready,
            TimeoutKind::CommandResponse => self.command,
            TimeoutKind::PromptIdle => self.prompt_idle,
        }
    }

    /// The seconds that a kind of waiting may take.
    pub fn get(self, kind: TimeoutKind) -> (seconds: u64)
        ensures
            seconds == self.seconds(kind),
    {
        match kind {
            TimeoutKind::Ready => self.ready,
            TimeoutKind::CommandResponse => self.command,
            TimeoutKind::PromptIdle => self.prompt_idle,
        }
    }
}

impl TimeoutKind {
    /// The words for what is waited for.
    pub open spec fn words(self) -> Seq<char> {
        match self {
            TimeoutKind::Ready => "ready frame"@,
            TimeoutKind::CommandResponse => "command response frame"@,
            TimeoutKind::PromptIdle => "prompt progress or completion frame"@,
        }
    }

    /// The variable that sets the timeout.
    pub open spec fn variable(self) -> Seq<char> {
        match self {
            TimeoutKind::Ready => READY_TIMEOUT_ENV@,
            TimeoutKind::CommandResponse => COMMAND_TIMEOUT_ENV@,
            TimeoutKind::PromptIdle => PROMPT_IDLE_TIMEOUT_ENV@,
        }
    }

    /// The words for what is waited for.
    pub fn description(self) -> (text: &'static str)
        ensures
            text@ == self.words(),
    {
        match self {
            TimeoutKind::Ready => "ready frame",
            TimeoutKind::CommandResponse => "command response frame",
            TimeoutKind::PromptIdle => "prompt progress or completion frame",
        }
    }

    /// The variable that sets the timeout.
    pub fn env_var(self) -> (text: &'static str)
        ensures
            text@ == self.variable(),
    {
        match self {
            TimeoutKind::Ready => READY_TIMEOUT_ENV,
            TimeoutKind::CommandResponse => COMMAND_TIMEOUT_ENV,
            TimeoutKind::PromptIdle => PROMPT_IDLE_TIMEOUT_ENV,
        }
    }
}

/// The largest amount of standard error output that is kept, in bytes.
pub const STDERR_BUFFER_LIMIT: usize = 1048576;

/// What stands in place of the output that was dropped.
pub const TRUNCATED_MARKER: &'static str = "[stderr truncated]\n";

/// The bytes of [`TRUNCATED_MARKER`].
pub const TRUNCATED_MARKER_BYTES: usize = 19;

/// The buffer with one more line, before anything is dropped.
pub open spec fn with_line(buffer: Seq<char>, line: Seq<char>) -> Seq<char> {
    if buffer.len() == 0 {
        line
    } else {
        buffer + "\n"@ + line
    }
}

/// The buffer after one more line: where it grows beyond the limit, a marker and the longest end
/// that still fits.
pub open spec fn capped_buffer(buffer: Seq<char>, line: Seq<char>) -> Seq<char> {
    let grown = with_line(buffer, line);
    if byte_len(grown) <= STDERR_BUFFER_LIMIT {
        grown
    } else {
        TRUNCATED_MARKER@ + longest_tail(
            grown,
            (STDERR_BUFFER_LIMIT - TRUNCATED_MARKER_BYTES) as nat,
        )
    }
}

/// The marker has the number of bytes that is reckoned with.
proof fn lemma_marker_bytes()
    ensures
        byte_len(TRUNCATED_MARKER@) == TRUNCATED_MARKER_BYTES,
{
    reveal_strlit("[stderr truncated]\n");
    let marker = TRUNCATED_MARKER@;
    assert(marker.len() == 19);
    vstd::utf8::is_ascii_chars_encode_utf8(marker);
}

/// Appends a line of standard error output; the buffer never grows beyond its limit.
pub fn append_capped_stderr_line(buffer: &mut String, line: &str)
    ensures
        final(buffer)@ == capped_buffer(old(buffer)@, line@),
        byte_len(final(buffer)@) <= STDERR_BUFFER_LIMIT,
{
    let ghost before = buffer@;
    if !buffer.as_str().is_empty() {
        buffer.append("\n");
    }
    buffer.append(line);
    assert(buffer@ =~= with_line(before, line@));
    if buffer.as_str().as_bytes().len() <= STDERR_BUFFER_LIMIT {
        return;
    }
    let tail = tail_string(buffer.as_str(), STDERR_BUFFER_LIMIT - TRUNCATED_MARKER_BYTES);
    proof {
        lemma_marker_bytes();
        lemma_longest_tail_fits(
            buffer@,
            (STDERR_BUFFER_LIMIT - TRUNCATED_MARKER_BYTES) as nat,
        );
        lemma_byte_len_concat(TRUNCATED_MARKER@, tail@);
    }
    *buffer = TRUNCATED_MARKER.to_owned().concat(tail.as_str());
}

/// The type of a frame.
pub fn frame_type(frame: &Value) -> (text: Option<&str>)
    ensures
        opt_str(text) == json_view(*frame).member_text("type"@),
{
    match json_get(frame, "type") {
        Some(member) => json_str(member),
        None => None,
    }
}

/// The identifier of a frame.
pub fn frame_id(frame: &Value) -> (text: Option<&str>)
    ensures
        opt_str(text) == json_view(*frame).member_text("id"@),
{
    match json_get(frame, "id") {
        Some(member) => json_str(member),
        None => None,
    }
}

/// Whether a frame is of the given type.
pub open spec fn has_type(frame: JsonView, name: Seq<char>) -> bool {
    frame.member_text("type"@) == Some(name)
}

/// Whether a frame is of the given type.
pub fn is_type(frame: &Value, name: &str) -> (b: bool)
    ensures
        b == has_type(json_view(*frame), name@),
{
    match frame_type(frame) {
        Some(text) => same_text(text, name),
        None => false,
    }
}

/// Whether a frame answers the request with the given identifier.
pub open spec fn answers(frame: JsonView, id: Seq<char>) -> bool {
    frame.member_text("id"@) == Some(id)
}

/// Whether a frame answers the request with the given identifier.
pub fn is_answer(frame: &Value, id: &str) -> (b: bool)
    ensures
        b == answers(json_view(*frame), id@),
{
    match frame_id(frame) {
        Some(text) => same_text(text, id),
        None => false,
    }
}

/// An error that says that the agent is still at work.
pub open spec fn busy_error(error: Seq<char>) -> bool {
    occurs_in(error, "already processing"@) || occurs_in(error, "Already processing"@)
}

/// Whether an error says that the agent is still at work.
pub fn is_retryable_busy_error(error: &str) -> (b: bool)
    ensures
        b == busy_error(error@),
{
    text_contains(error, "already processing") || text_contains(error, "Already processing")
}

/// A response that reports a failure.
pub open spec fn is_failure(response: JsonView) -> bool {
    match response.member("success"@) {
        Some(member) => member.truth() == Some(false),
        None => false,
    }
}

/// A response that reports a failure because the agent is still at work.
pub open spec fn is_busy(response: JsonView) -> bool {
    is_failure(response) && (match response.member_text("error"@) {
        Some(error) => busy_error(error),
        None => false,
    })
}

fn reports_failure(response: &Value) -> (b: bool)
    ensures
        b == is_failure(json_view(*response)),
{
    match json_get(response, "success") {
        Some(member) => match json_bool(member) {
            Some(success) => !success,
            None => false,
        },
        None => false,
    }
}

/// Whether a response reports a failure because the agent is still at work.
pub fn is_retryable_busy_response(response: &Value) -> (b: bool)
    ensures
        b == is_busy(json_view(*response)),
{
    if !reports_failure(response) {
        return false;
    }
    match json_get(response, "error") {
        Some(member) => match json_str(member) {
            Some(error) => is_retryable_busy_error(error),
            None => false,
        },
        None => false,
    }
}

/// What a response means.
#[derive(Debug)]
pub enum RpcResponse {
    Success { response: Value, frames: Vec<Value> },
    RetryableBusy { response: Value, frames: Vec<Value> },
}

/// The error of a failed command.
pub open spec fn command_failed(response: JsonView) -> Seq<char> {
    "rpc command failed: "@ + json_compact(response)
}

/// Judges a response: it succeeded, it can be tried again, or it failed for good.
pub fn response_status(response: Value, frames: Vec<Value>) -> (result: Result<RpcResponse, String>)
    ensures
        (match result {
            Ok(RpcResponse::Success { response: r, frames: f }) => !is_failure(json_view(response))
                && r == response && f == frames,
            Ok(RpcResponse::RetryableBusy { response: r, frames: f }) => is_failure(
                json_view(response),
            ) && is_busy(json_view(response)) && r == response && f == frames,
            Err(error) => is_failure(json_view(response)) && !is_busy(json_view(response)) && error@
                == command_failed(json_view(response)),
        }),
{
    if reports_failure(&response) {
        if is_retryable_busy_response(&response) {
            return Ok(RpcResponse::RetryableBusy { response, frames });
        }
        return Err("rpc command failed: ".to_owned().concat(json_text(&response).as_str()));
    }
    Ok(RpcResponse::Success { response, frames })
}

/// Whether the process is told to keep no session: only where none is resumed and none is wanted.
pub fn should_disable_omp_session(resume_session: Option<&str>, persist_session: bool) -> (b: bool)
    ensures
        b == (resume_session is None && !persist_session),
{
    resume_session.is_none() && !persist_session
}

/// The longest pause between two tries, in seconds.
pub const RETRY_MAX_DELAY: u64 = 15;

/// The seconds before the next try: one, two, four, eight, and then the longest pause.
pub open spec fn retry_seconds(retry_count: int) -> u64 {
    if retry_count <= 0 {
        1
    } else if retry_count == 1 {
        2
    } else if retry_count == 2 {
        4
    } else if retry_count == 3 {
        8
    } else {
        RETRY_MAX_DELAY
    }
}

/// The seconds before the next try.
pub fn retry_delay(retry_count: usize) -> (seconds: u64)
    ensures
        seconds == retry_seconds(retry_count as int),
{
    if retry_count == 0 {
        1
    } else if retry_count == 1 {
        2
    } else if retry_count == 2 {
        4
    } else if retry_count == 3 {
        8
    } else {
        RETRY_MAX_DELAY
    }
}

/// A member that has to be a string with something in it.
pub open spec fn required_text(member: Option<JsonView>, field: Seq<char>) -> Result<
    Seq<char>,
    Seq<char>,
> {
    match member {
        Some(JsonView::Text(text)) => if text.len() == 0 {
            Err(field + " is empty"@)
        } else {
            Ok(text)
        },
        _ => Err("missing "@ + field),
    }
}

/// Takes the text of a member that has to be a string with something in it.
pub fn required_non_empty_string(value: Option<&Value>, field: &str) -> (result: Result<
    String,
    String,
>)
    ensures
        outcome(result) == required_text(
            match value {
                Some(member) => Some(json_view(*member)),
                None => None,
            },
            field@,
        ),
{
    if let Some(member) = value {
        if let Some(text) = json_str(member) {
            if text.is_empty() {
                return Err(field.to_owned().concat(" is empty"));
            }
            return Ok(text.to_owned());
        }
    }
    Err("missing ".to_owned().concat(field))
}

/// The session that a response names, or what is missing.
pub open spec fn session_of(response: JsonView) -> Result<SessionInfoView, Seq<char>> {
    match response.member("data"@) {
        Some(JsonView::Object(members)) => {
            let data = JsonView::Object(members);
            match required_text(data.member("sessionId"@), "data.sessionId"@) {
                Err(error) => Err(error),
                Ok(session_id) => match required_text(
                    data.member("sessionFile"@),
                    "data.sessionFile"@,
                ) {
                    Err(error) => Err(error),
                    Ok(session_file) => Ok(SessionInfoView { session_id, session_file }),
                },
            }
        },
        _ => Err("get_state response missing data object"@),
    }
}

/// Reads the session that a response names.
pub fn session_info_from_response(response: &Value) -> (result: Result<SessionInfo, String>)
    ensures
        outcome(result) == session_of(json_view(*response)),
{
    if let Some(data) = json_get(response, "data") {
        if json_is_object(data) {
            let session_id = match required_non_empty_string(
                json_get(data, "sessionId"),
                "data.sessionId",
            ) {
                Ok(text) => text,
                Err(error) => {
                    return Err(error);
                },
            };
            let session_file = match required_non_empty_string(
                json_get(data, "sessionFile"),
                "data.sessionFile",
            ) {
                Ok(text) => text,
                Err(error) => {
                    return Err(error);
                },
            };
            return Ok(SessionInfo { session_id, session_file });
        }
    }
    Err("get_state response missing data object".to_owned())
}

/// Reads the session that a response names, where it names one in full.
pub fn optional_session_info_from_response(response: &Value) -> (session: Option<SessionInfo>)
    ensures
        opt_session(session) == (match session_of(json_view(*response)) {
            Ok(info) => Some(info),
            Err(_) => None,
        }),
{
    match session_info_from_response(response) {
        Ok(info) => Some(info),
        Err(_) => None,
    }
}

/// The text of the agent's last answer: a member of the data, the data itself, or a member of the
/// response.
pub open spec fn assistant_text(response: JsonView) -> Option<Seq<char>> {
    let data_text = match response.member("data"@) {
        Some(data) => match data.member_text("text"@) {
            Some(text) => Some(text),
            None => data.text(),
        },
        None => None,
    };
    match data_text {
        Some(text) => Some(text),
        None => response.member_text("text"@),
    }
}

/// Reads the text of the agent's last answer.
pub fn assistant_text_from_response(response: &Value) -> (result: Result<String, String>)
    ensures
        outcome(result) == (match assistant_text(json_view(*response)) {
            Some(text) => Ok::<Seq<char>, Seq<char>>(text),
            None => Err::<Seq<char>, Seq<char>>("get_last_assistant_text response missing text"@),
        }),
{
    if let Some(data) = json_get(response, "data") {
        if let Some(member) = json_get(data, "text") {
            if let Some(text) = json_str(member) {
                return Ok(text.to_owned());
            }
        }
        if let Some(text) = json_str(data) {
            return Ok(text.to_owned());
        }
    }
    if let Some(member) = json_get(response, "text") {
        if let Some(text) = json_str(member) {
            return Ok(text.to_owned());
        }
    }
    Err("get_last_assistant_text response missing text".to_owned())
}

/// The error of a new session that is no new one.
pub open spec fn new_session_verdict(
    previous: Option<SessionInfoView>,
    current: SessionInfoView,
) -> Result<(), Seq<char>> {
    if previous is Some && previous->0.session_id == current.session_id {
        Err("new_session did not change sessionId"@)
    } else {
        Ok(())
    }
}

/// Checks that a new session differs from the one before it, where there was one.
pub fn check_new_session(previous: &Option<SessionInfo>, current: &SessionInfo) -> (result: Result<
    (),
    String,
>)
    ensures
        outcome(result) == new_session_verdict(opt_session(*previous), current@),
{
    if let Some(info) = previous {
        if same_text(info.session_id.as_str(), current.session_id.as_str()) {
            return Err("new_session did not change sessionId".to_owned());
        }
    }
    Ok(())
}

/// Checks that the session file is the one that was asked for.
pub fn check_switched_session(current: &SessionInfo, session_path: &str) -> (result: Result<
    (),
    String,
>)
    ensures
        outcome(result) == (if path_equal(current@.session_file, session_path@) {
            Ok::<(), Seq<char>>(())
        } else {
            Err::<(), Seq<char>>(
                "switch_session returned sessionFile "@ + current@.session_file + ", expected "@
                    + session_path@,
            )
        }),
{
    if same_path(current.session_file.as_str(), session_path) {
        Ok(())
    } else {
        Err(
            "switch_session returned sessionFile ".to_owned().concat(
                current.session_file.as_str(),
            ).concat(", expected ").concat(session_path),
        )
    }
}

/// Reads a line of the agent's standard output.
pub fn parse_stdout_line(line: &str) -> (result: Result<Value, String>)
    ensures
        (match result {
            Ok(frame) => json_parsed(line@) == Ok::<JsonView, Seq<char>>(json_view(frame)),
            Err(error) => json_parsed(line@) is Err && error@ == "invalid json from omp stdout: "@
                + json_parsed(line@)->Err_0 + "; line: "@ + line@,
        }),
{
    match parse_json(line) {
        Ok(frame) => Ok(frame),
        Err(error) => Err(
            "invalid json from omp stdout: ".to_owned().concat(error.as_str()).concat(
                "; line: ",
            ).concat(line),
        ),
    }
}

/// Checks the first frame of the agent.
pub fn check_ready(frame: &Value) -> (result: Result<(), String>)
    ensures
        outcome(result) == (if has_type(json_view(*frame), "ready"@) {
            Ok::<(), Seq<char>>(())
        } else {
            Err::<(), Seq<char>>(
                "expected omp ready frame, got "@ + json_compact(json_view(*frame)),
            )
        }),
{
    if is_type(frame, "ready") {
        Ok(())
    } else {
        Err("expected omp ready frame, got ".to_owned().concat(json_text(frame).as_str()))
    }
}

/// How the agent's process is started: its arguments and the variables that are set for it.
#[derive(Debug, PartialEq, Eq)]
pub struct RpcLaunch {
    pub arguments: Vec<String>,
    pub variables: Vec<(String, String)>,
}

/// The arguments of the agent's process.
pub open spec fn launch_arguments(resume_session: Option<Seq<char>>, persist_session: bool) -> Seq<
    Seq<char>,
> {
    match resume_session {
        Some(file) => seq!["--mode"@, "rpc"@, "--resume"@, file],
        None => if persist_session {
            seq!["--mode"@, "rpc"@]
        } else {
            seq!["--mode"@, "rpc"@, "--no-session"@]
        },
    }
}

/// The variables of the agent's process.
pub open spec fn launch_variables(
    control_socket: Seq<char>,
    item_id: Seq<char>,
    counter: int,
) -> Seq<(Seq<char>, Seq<char>)> {
    seq![
        ("AGENTFLOW_CONTROL_SOCKET"@, control_socket),
        ("AGENTFLOW_ITEM_ID"@, item_id),
        ("AGENTFLOW_COUNTER"@, int_text(counter)),
    ]
}

/// The texts of a sequence of pairs.
pub open spec fn pair_texts(pairs: Seq<(String, String)>) -> Seq<(Seq<char>, Seq<char>)> {
    pairs.map_values(|p: (String, String)| (p.0@, p.1@))
}

/// Decides how the agent's process is started.
pub fn rpc_launch(
    resume_session: Option<&str>,
    persist_session: bool,
    control_socket: &str,
    item_id: &str,
    counter: i64,
) -> (launch: RpcLaunch)
    ensures
        texts(launch.arguments@) == launch_arguments(opt_str(resume_session), persist_session),
        pair_texts(launch.variables@) == launch_variables(
            control_socket@,
            item_id@,
            counter as int,
        ),
{
    let mut arguments: Vec<String> = Vec::new();
    arguments.push("--mode".to_owned());
    arguments.push("rpc".to_owned());
    match resume_session {
        Some(file) => {
            arguments.push("--resume".to_owned());
            arguments.push(file.to_owned());
        },
        None => {
            if should_disable_omp_session(resume_session, persist_session) {
                arguments.push("--no-session".to_owned());
            }
        },
    }
    let mut variables: Vec<(String, String)> = Vec::new();
    variables.push(("AGENTFLOW_CONTROL_SOCKET".to_owned(), control_socket.to_owned()));
    variables.push(("AGENTFLOW_ITEM_ID".to_owned(), item_id.to_owned()));
    variables.push(("AGENTFLOW_COUNTER".to_owned(), int_string(counter)));
    assert(texts(arguments@) =~= launch_arguments(opt_str(resume_session), persist_session));
    assert(pair_texts(variables@) =~= launch_variables(
        control_socket@,
        item_id@,
        counter as int,
    ));
    RpcLaunch { arguments, variables }
}

/// What is added to a message where the agent has written to standard error.
pub open spec fn stderr_note(stderr: Seq<char>) -> Seq<char> {
    if stderr.len() == 0 {
        Seq::empty()
    } else {
        "; stderr: "@ + stderr
    }
}

fn stderr_suffix(stderr: &str) -> (text: String)
    ensures
        text@ == stderr_note(stderr@),
{
    if stderr.is_empty() {
        String::new()
    } else {
        "; stderr: ".to_owned().concat(stderr)
    }
}

/// The error of a process that went away while a frame was waited for.
pub open spec fn closed_text(kind: TimeoutKind, stderr: Seq<char>) -> Seq<char> {
    "omp rpc process closed stdout while waiting for "@ + kind.words() + stderr_note(stderr)
}

/// Describes a process that went away while a frame was waited for.
pub fn closed_message(kind: TimeoutKind, stderr: &str) -> (message: String)
    ensures
        message@ == closed_text(kind, stderr@),
{
    "omp rpc process closed stdout while waiting for ".to_owned().concat(kind.description()).concat(
        stderr_suffix(stderr).as_str(),
    )
}

/// The error of a frame that did not come in time.
pub open spec fn timed_out_text(kind: TimeoutKind, seconds: u64, stderr: Seq<char>) -> Seq<char> {
    "timed out after "@ + nat_text(seconds as nat) + "s waiting for omp rpc "@ + kind.words()
        + stderr_note(stderr) + "; set "@ + kind.variable()
        + " to a larger number of seconds if OMP is still working"@
}

/// Describes a frame that did not come in time.
pub fn timed_out_message(kind: TimeoutKind, seconds: u64, stderr: &str) -> (message: String)
    ensures
        message@ == timed_out_text(kind, seconds, stderr@),
{
    "timed out after ".to_owned().concat(nat_string(seconds as u128).as_str()).concat(
        "s waiting for omp rpc ",
    ).concat(kind.description()).concat(stderr_suffix(stderr).as_str()).concat("; set ").concat(
        kind.env_var(),
    ).concat(" to a larger number of seconds if OMP is still working")
}

/// The error of a process that went away before a busy command could be tried again.
pub open spec fn closed_in_retry_text(stderr: Seq<char>) -> Seq<char> {
    "omp rpc process closed stdout while waiting to retry busy command"@ + stderr_note(stderr)
}

/// Describes a process that went away before a busy command could be tried again.
pub fn closed_in_retry_message(stderr: &str) -> (message: String)
    ensures
        message@ == closed_in_retry_text(stderr@),
{
    "omp rpc process closed stdout while waiting to retry busy command".to_owned().concat(
        stderr_suffix(stderr).as_str(),
    )
}

/// The error of an agent that stays busy.
pub open spec fn still_busy_text(seconds: u64) -> Seq<char> {
    "omp rpc remained busy for "@ + nat_text(seconds as nat) + " seconds"@
}

/// Describes an agent that stays busy.
pub fn still_busy_message(seconds: u64) -> (message: String)
    ensures
        message@ == still_busy_text(seconds),
{
    "omp rpc remained busy for ".to_owned().concat(nat_string(seconds as u128).as_str()).concat(
        " seconds",
    )
}

} // verus!

//! One request to the agent and its answer, as a state machine: what to write, what to wait for,
//! and what each frame means.
//!
//! Instants are nanoseconds since the process was started.

use serde_json::Value;
use vstd::prelude::*;

use crate::error::outcome;
use crate::files::{is_one_line, jsonl_line};
use crate::json::{
    json_compact, json_get, json_insert, json_is_object, json_object, json_str, json_string,
    json_view, json_views, JsonView,
};
use crate::rpc::{
    answers, check_ready, closed_in_retry_message, closed_in_retry_text, closed_message, closed_text,
    command_failed, has_type, is_answer, is_busy, is_failure, is_type, response_status,
    retry_delay, retry_seconds, still_busy_message, still_busy_text, timed_out_message,
    timed_out_text, RpcResponse, RpcTimeouts, TimeoutKind,
};
use crate::text::{nat_string, nat_text, opt_text};

verus! {

/// Nanoseconds in a second.
pub const NANOS: u128 = 1000000000;

/// The numbers of the requests of one process.
#[derive(Debug, Clone, Copy, PartialEq, Eq, Structural)]
pub struct RequestIds {
    pub next_id: u64,
}

/// The identifier of a request.
pub open spec fn request_id(kind: Seq<char>, number: u64) -> Seq<char> {
    kind + "-"@ + nat_text(number as nat)
}

/// The number after `number`; the last number is kept.
pub open spec fn number_after(number: u64) -> u64 {
    if number == u64::MAX {
        number
    } else {
        (number + 1) as u64
    }
}

impl RequestIds {
    /// The numbers of a process that has seen no request.
    pub fn new() -> (ids: Self)
        ensures
            ids.next_id == 1,
    {
        RequestIds { next_id: 1 }
    }

    /// Makes the identifier of the next request.
    pub fn next_request_id(&mut self, kind: &str) -> (id: String)
        ensures
            id@ == request_id(kind@, old(self).next_id),
            final(self).next_id == number_after(old(self).next_id),
    {
        let id = kind.to_owned().concat("-").concat(nat_string(self.next_id as u128).as_str());
        self.next_id = self.next_id.saturating_add(1);
        id
    }
}

/// Where an exchange stands.
#[derive(Debug, PartialEq, Eq)]
pub enum Phase {
    /// Nothing has been written yet.
    Unsent,
    /// The answer to the request with this identifier is waited for.
    Awaiting { id: String },
    /// The agent was busy; the request is written again at this instant.
    Retrying { until: u128 },
    /// The prompt was taken; the end of the agent's turn is waited for.
    Running,
    /// Everything that was waited for has come.
    Done,
}

/// What a [`Phase`] says.
pub enum PhaseView {
    Unsent,
    Awaiting { id: Seq<char> },
    Retrying { until: int },
    Running,
    Done,
}

impl View for Phase {
    type V = PhaseView;

    open spec fn view(&self) -> PhaseView {
        match self {
            Phase::Unsent => PhaseView::Unsent,
            Phase::Awaiting { id } => PhaseView::Awaiting { id: id@ },
            Phase::Retrying { until } => PhaseView::Retrying { until: *until as int },
            Phase::Running => PhaseView::Running,
            Phase::Done => PhaseView::Done,
        }
    }
}

/// A request to the agent, and what has come back so far.
#[derive(Debug)]
pub struct Exchange {
    /// The request, a JSON object.
    pub outgoing: Value,
    /// What the identifiers of the request begin with.
    pub name: String,
    /// The identifier that the caller gave to the request.
    pub fixed_id: Option<String>,
    /// Whether the answer is only the beginning: a prompt is over when the agent's turn ends.
    pub awaits_end: bool,
    /// Whether the frames are kept.
    pub collect: bool,
    pub frames: Vec<Value>,
    pub response: Option<Value>,
    pub phase: Phase,
    /// When a busy agent is given up.
    pub deadline: u128,
    pub retry_count: usize,
}

/// What an [`Exchange`] says.
pub struct ExchangeView {
    pub outgoing: JsonView,
    pub name: Seq<char>,
    pub fixed_id: Option<Seq<char>>,
    pub awaits_end: bool,
    pub collect: bool,
    pub frames: Seq<JsonView>,
    pub response: Option<JsonView>,
    pub phase: PhaseView,
    pub deadline: int,
    pub retry_count: int,
}

/// What an optional value holds.
pub open spec fn opt_json(value: Option<Value>) -> Option<JsonView> {
    match value {
        Some(v) => Some(json_view(v)),
        None => None,
    }
}

impl View for Exchange {
    type V = ExchangeView;

    open spec fn view(&self) -> ExchangeView {
        ExchangeView {
            outgoing: json_view(self.outgoing),
            name: self.name@,
            fixed_id: opt_text(self.fixed_id),
            awaits_end: self.awaits_end,
            collect: self.collect,
            frames: json_views(self.frames@),
            response: opt_json(self.response),
            phase: self.phase@,
            deadline: self.deadline as int,
            retry_count: self.retry_count as int,
        }
    }
}

/// What can happen while an answer is waited for.
#[derive(Debug)]
pub enum RpcEvent {
    /// A frame has come.
    Frame(Value),
    /// Something has come that is no frame; the text says what.
    Broken(String),
    /// The process has closed its output.
    Closed,
    /// Nothing has come in time.
    TimedOut,
}

/// What an [`RpcEvent`] says.
pub enum RpcEventView {
    Frame(JsonView),
    Broken(Seq<char>),
    Closed,
    TimedOut,
}

impl View for RpcEvent {
    type V = RpcEventView;

    open spec fn view(&self) -> RpcEventView {
        match self {
            RpcEvent::Frame(frame) => RpcEventView::Frame(json_view(*frame)),
            RpcEvent::Broken(text) => RpcEventView::Broken(text@),
            RpcEvent::Closed => RpcEventView::Closed,
            RpcEvent::TimedOut => RpcEventView::TimedOut,
        }
    }
}

/// What is to be done next.
#[derive(Debug, PartialEq, Eq)]
pub enum RpcAction {
    /// Write the line, then wait for the answer.
    Send(String),
    /// Wait for a frame, as long as this kind of waiting may take.
    Wait(TimeoutKind),
    /// Wait for a frame until this instant.
    WaitUntil(u128),
    /// Nothing: the exchange is over.
    Finish,
}

/// What an [`RpcAction`] says.
pub enum RpcActionView {
    Send(Seq<char>),
    Wait(TimeoutKind),
    WaitUntil(int),
    Finish,
}

impl View for RpcAction {
    type V = RpcActionView;

    open spec fn view(&self) -> RpcActionView {
        match self {
            RpcAction::Send(line) => RpcActionView::Send(line@),
            RpcAction::Wait(kind) => RpcActionView::Wait(*kind),
            RpcAction::WaitUntil(instant) => RpcActionView::WaitUntil(*instant as int),
            RpcAction::Finish => RpcActionView::Finish,
        }
    }
}

/// When a busy agent is given up.
pub open spec fn deadline_after(now: u64, idle_seconds: u64) -> int {
    now + idle_seconds * NANOS
}

/// When a busy agent is given up.
pub fn retry_deadline(now: u64, idle_seconds: u64) -> (deadline: u128)
    ensures
        deadline == deadline_after(now, idle_seconds),
{
    assert(idle_seconds * NANOS <= u64::MAX * NANOS) by (nonlinear_arith)
        requires
            idle_seconds <= u64::MAX,
            NANOS == 1000000000,
    ;
    now as u128 + idle_seconds as u128 * NANOS
}

/// The exchange of a command before anything is written, or why it is no command.
pub open spec fn fresh_command(command: JsonView, collect: bool, deadline: int) -> Result<
    ExchangeView,
    Seq<char>,
> {
    if command is Object {
        Ok(
            ExchangeView {
                outgoing: command,
                name: match command.member_text("type"@) {
                    Some(name) => name,
                    None => "command"@,
                },
                fixed_id: match command.member_text("id"@) {
                    Some(id) => if id.len() > 0 {
                        Some(id)
                    } else {
                        None
                    },
                    None => None,
                },
                awaits_end: false,
                collect: collect,
                frames: Seq::empty(),
                response: None,
                phase: PhaseView::Unsent,
                deadline: deadline,
                retry_count: 0,
            },
        )
    } else {
        Err("rpc command must be a JSON object"@)
    }
}

/// The exchange of a prompt before anything is written.
pub open spec fn fresh_prompt(text: Seq<char>, collect: bool, deadline: int) -> ExchangeView {
    ExchangeView {
        outgoing: JsonView::Object(
            Map::empty().insert("type"@, JsonView::Text("prompt"@)).insert(
                "message"@,
                JsonView::Text(text),
            ),
        ),
        name: "prompt"@,
        fixed_id: None,
        awaits_end: true,
        collect: collect,
        frames: Seq::empty(),
        response: None,
        phase: PhaseView::Unsent,
        deadline: deadline,
        retry_count: 0,
    }
}

impl ExchangeView {
    /// The identifier that the request is written with.
    pub open spec fn id(self, number: u64) -> Seq<char> {
        match self.fixed_id {
            Some(id) => id,
            None => request_id(self.name, number),
        }
    }

    /// The request with its identifier.
    pub open spec fn request(self, number: u64) -> JsonView {
        match self.fixed_id {
            Some(_) => self.outgoing,
            None => JsonView::Object(
                self.outgoing->Object_0.insert(
                    "id"@,
                    JsonView::Text(request_id(self.name, number)),
                ),
            ),
        }
    }

    /// The line that the request is written as.
    pub open spec fn line(self, number: u64) -> Seq<char> {
        json_compact(self.request(number)) + "\n"@
    }

    /// The exchange after the request was written.
    pub open spec fn sent(self, number: u64) -> ExchangeView {
        ExchangeView {
            outgoing: self.request(number),
            phase: PhaseView::Awaiting { id: self.id(number) },
            ..self
        }
    }

    /// The number of the next request after this one was written.
    pub open spec fn number_after_sent(self, number: u64) -> u64 {
        match self.fixed_id {
            Some(_) => number,
            None => number_after(number),
        }
    }

    /// The exchange with one more frame, where frames are kept.
    pub open spec fn with_frame(self, frame: JsonView) -> ExchangeView {
        ExchangeView {
            frames: if self.collect {
                self.frames.push(frame)
            } else {
                self.frames
            },
            ..self
        }
    }

    /// The exchange at its next try.
    pub open spec fn at_next_try(self) -> ExchangeView {
        ExchangeView {
            retry_count: if self.retry_count < usize::MAX {
                self.retry_count + 1
            } else {
                self.retry_count
            },
            ..self
        }
    }

    /// When a busy agent is asked again: after the delay of this try, but not after the deadline.
    pub open spec fn retry_instant(self, now: u64) -> int {
        let after_delay = now + retry_seconds(self.retry_count) * NANOS;
        if after_delay <= self.deadline {
            after_delay
        } else {
            self.deadline
        }
    }

    /// What the answer to the request leads to.
    pub open spec fn answered(self, answer: JsonView, now: u64, timeouts: RpcTimeouts) -> Result<
        (ExchangeView, RpcActionView),
        Seq<char>,
    > {
        if !is_failure(answer) {
            if self.awaits_end {
                Ok(
                    (
                        ExchangeView {
                            response: if self.collect {
                                Some(answer)
                            } else {
                                None
                            },
                            phase: PhaseView::Running,
                            ..self
                        },
                        RpcActionView::Wait(TimeoutKind::PromptIdle),
                    ),
                )
            } else {
                Ok(
                    (
                        ExchangeView { response: Some(answer), phase: PhaseView::Done, ..self },
                        RpcActionView::Finish,
                    ),
                )
            }
        } else if is_busy(answer) {
            if now >= self.deadline {
                Err(still_busy_text(timeouts.prompt_idle))
            } else {
                Ok(
                    (
                        ExchangeView {
                            phase: PhaseView::Retrying { until: self.retry_instant(now) },
                            ..self.with_frame(answer)
                        },
                        RpcActionView::WaitUntil(self.retry_instant(now)),
                    ),
                )
            }
        } else {
            Err(command_failed(answer))
        }
    }

    /// What an event leads to while the answer is waited for.
    pub open spec fn on_awaiting(
        self,
        id: Seq<char>,
        event: RpcEventView,
        now: u64,
        stderr: Seq<char>,
        timeouts: RpcTimeouts,
    ) -> Result<(ExchangeView, RpcActionView), Seq<char>> {
        match event {
            RpcEventView::Frame(frame) => if self.awaits_end && has_type(frame, "agent_end"@) {
                Err("agent_end arrived before prompt ack for "@ + id)
            } else if answers(frame, id) {
                self.answered(frame, now, timeouts)
            } else {
                Ok((self.with_frame(frame), RpcActionView::Wait(TimeoutKind::CommandResponse)))
            },
            RpcEventView::Broken(text) => Err(text),
            RpcEventView::Closed => Err(closed_text(TimeoutKind::CommandResponse, stderr)),
            RpcEventView::TimedOut => Err(
                timed_out_text(TimeoutKind::CommandResponse, timeouts.command, stderr),
            ),
        }
    }

    /// What an event leads to while the agent's turn is waited out.
    pub open spec fn on_running(
        self,
        event: RpcEventView,
        stderr: Seq<char>,
        timeouts: RpcTimeouts,
    ) -> Result<(ExchangeView, RpcActionView), Seq<char>> {
        match event {
            RpcEventView::Frame(frame) => if has_type(frame, "agent_end"@) {
                Ok(
                    (
                        ExchangeView { phase: PhaseView::Done, ..self.with_frame(frame) },
                        RpcActionView::Finish,
                    ),
                )
            } else {
                Ok((self.with_frame(frame), RpcActionView::Wait(TimeoutKind::PromptIdle)))
            },
            RpcEventView::Broken(text) => Err(text),
            RpcEventView::Closed => Err(closed_text(TimeoutKind::PromptIdle, stderr)),
            RpcEventView::TimedOut => Err(
                timed_out_text(TimeoutKind::PromptIdle, timeouts.prompt_idle, stderr),
            ),
        }
    }

    /// The exchange that is written again, with the action that writes it.
    pub open spec fn resent(self, number: u64) -> (ExchangeView, RpcActionView) {
        (self.at_next_try().sent(number), RpcActionView::Send(self.at_next_try().line(number)))
    }

    /// What an event leads to before a busy request is written again.
    pub open spec fn on_retrying(
        self,
        until: int,
        event: RpcEventView,
        now: u64,
        stderr: Seq<char>,
        number: u64,
    ) -> Result<(ExchangeView, RpcActionView), Seq<char>> {
        match event {
            RpcEventView::Frame(frame) => if now >= until {
                Ok(self.with_frame(frame).resent(number))
            } else {
                Ok((self.with_frame(frame), RpcActionView::WaitUntil(until)))
            },
            RpcEventView::TimedOut => Ok(self.resent(number)),
            RpcEventView::Broken(text) => Err(text),
            RpcEventView::Closed => Err(closed_in_retry_text(stderr)),
        }
    }

    /// What an event leads to: the exchange after it and what is to be done, or the error that ends
    /// the exchange.
    pub open spec fn after(
        self,
        event: RpcEventView,
        now: u64,
        stderr: Seq<char>,
        timeouts: RpcTimeouts,
        number: u64,
    ) -> Result<(ExchangeView, RpcActionView), Seq<char>> {
        match self.phase {
            PhaseView::Unsent => Ok((self.sent(number), RpcActionView::Send(self.line(number)))),
            PhaseView::Awaiting { id } => self.on_awaiting(id, event, now, stderr, timeouts),
            PhaseView::Retrying { until } => self.on_retrying(until, event, now, stderr, number),
            PhaseView::Running => self.on_running(event, stderr, timeouts),
            PhaseView::Done => Ok((self, RpcActionView::Finish)),
        }
    }
}

/// The outcome of a step: the exchange after it and what is to be done, or the error.
pub open spec fn step_outcome(exchange: Exchange, result: Result<RpcAction, String>) -> Result<
    (ExchangeView, RpcActionView),
    Seq<char>,
> {
    match result {
        Ok(action) => Ok((exchange@, action@)),
        Err(error) => Err(error@),
    }
}

impl Exchange {
    /// The request is a JSON object.
    pub open spec fn wf(self) -> bool {
        json_view(self.outgoing) is Object
    }

    /// Begins the exchange of a command.
    pub fn begin_command(command: Value, collect: bool, deadline: u128) -> (result: Result<
        Exchange,
        String,
    >)
        ensures
            outcome(result) == fresh_command(json_view(command), collect, deadline as int),
            result is Ok ==> result->Ok_0.wf(),
    {
        if !json_is_object(&command) {
            return Err("rpc command must be a JSON object".to_owned());
        }
        let name = match json_get(&command, "type") {
            Some(member) => match json_str(member) {
                Some(text) => text.to_owned(),
                None => "command".to_owned(),
            },
            None => "command".to_owned(),
        };
        let fixed_id = match json_get(&command, "id") {
            Some(member) => match json_str(member) {
                Some(text) => if text.is_empty() {
                    None
                } else {
                    Some(text.to_owned())
                },
                None => None,
            },
            None => None,
        };
        let frames: Vec<Value> = Vec::new();
        assert(json_views(frames@) =~= Seq::empty());
        Ok(
            Exchange {
                outgoing: command,
                name,
                fixed_id,
                awaits_end: false,
                collect,
                frames,
                response: None,
                phase: Phase::Unsent,
                deadline,
                retry_count: 0,
            },
        )
    }

    /// Begins the exchange of a prompt.
    pub fn begin_prompt(text: &str, collect: bool, deadline: u128) -> (exchange: Exchange)
        ensures
            exchange@ == fresh_prompt(text@, collect, deadline as int),
            exchange.wf(),
    {
        let mut outgoing = json_object();
        json_insert(&mut outgoing, "type", json_string("prompt"));
        json_insert(&mut outgoing, "message", json_string(text));
        let frames: Vec<Value> = Vec::new();
        assert(json_views(frames@) =~= Seq::empty());
        Exchange {
            outgoing,
            name: "prompt".to_owned(),
            fixed_id: None,
            awaits_end: true,
            collect,
            frames,
            response: None,
            phase: Phase::Unsent,
            deadline,
            retry_count: 0,
        }
    }

    /// Gives the request its identifier, and makes the line that it is written as.
    fn send(&mut self, ids: &mut RequestIds) -> (line: String)
        requires
            old(self).wf(),
        ensures
            final(self).wf(),
            final(self)@ == old(self)@.sent(old(ids).next_id),
            line@ == old(self)@.line(old(ids).next_id),
            is_one_line(line@),
            final(ids).next_id == old(self)@.number_after_sent(old(ids).next_id),
    {
        let id = match &self.fixed_id {
            Some(id) => id.clone(),
            None => {
                let id = ids.next_request_id(self.name.as_str());
                json_insert(&mut self.outgoing, "id", json_string(id.as_str()));
                id
            },
        };
        self.phase = Phase::Awaiting { id };
        jsonl_line(&self.outgoing)
    }

    fn keep(&mut self, frame: Value)
        requires
            old(self).wf(),
        ensures
            final(self).wf(),
            final(self)@ == old(self)@.with_frame(json_view(frame)),
    {
        let ghost before = self.frames@;
        if self.collect {
            self.frames.push(frame);
            assert(json_views(self.frames@) =~= json_views(before).push(json_view(frame)));
        }
    }

    fn resend(&mut self, ids: &mut RequestIds) -> (action: RpcAction)
        requires
            old(self).wf(),
        ensures
            final(self).wf(),
            (final(self)@, action@) == old(self)@.resent(old(ids).next_id),
            action matches RpcAction::Send(line) ==> is_one_line(line@),
            final(ids).next_id == old(self)@.number_after_sent(old(ids).next_id),
    {
        self.retry_count = self.retry_count.saturating_add(1);
        RpcAction::Send(self.send(ids))
    }

    fn take_answer(&mut self, answer: Value, now: u64, timeouts: &RpcTimeouts) -> (result: Result<
        RpcAction,
        String,
    >)
        requires
            old(self).wf(),
        ensures
            final(self).wf(),
            step_outcome(*final(self), result) == old(self)@.answered(
                json_view(answer),
                now,
                *timeouts,
            ),
            result is Err ==> final(self)@ == old(self)@,
    {
        match response_status(answer, Vec::new()) {
            Err(error) => Err(error),
            Ok(RpcResponse::Success { response, .. }) => {
                if self.awaits_end {
                    self.response = if self.collect {
                        Some(response)
                    } else {
                        None
                    };
                    self.phase = Phase::Running;
                    Ok(RpcAction::Wait(TimeoutKind::PromptIdle))
                } else {
                    self.response = Some(response);
                    self.phase = Phase::Done;
                    Ok(RpcAction::Finish)
                }
            },
            Ok(RpcResponse::RetryableBusy { response, .. }) => {
                if now as u128 >= self.deadline {
                    return Err(still_busy_message(timeouts.prompt_idle));
                }
                let after_delay = now as u128 + retry_delay(self.retry_count) as u128 * NANOS;
                let until = if after_delay <= self.deadline {
                    after_delay
                } else {
                    self.deadline
                };
                self.keep(response);
                self.phase = Phase::Retrying { until };
                Ok(RpcAction::WaitUntil(until))
            },
        }
    }

    fn step_awaiting(
        &mut self,
        id: &str,
        event: RpcEvent,
        now: u64,
        stderr: &str,
        timeouts: &RpcTimeouts,
    ) -> (result: Result<RpcAction, String>)
        requires
            old(self).wf(),
        ensures
            final(self).wf(),
            step_outcome(*final(self), result) == old(self)@.on_awaiting(
                id@,
                event@,
                now,
                stderr@,
                *timeouts,
            ),
            result is Err ==> final(self)@ == old(self)@,
    {
        match event {
            RpcEvent::Frame(frame) => {
                if self.awaits_end && is_type(&frame, "agent_end") {
                    return Err(
                        "agent_end arrived before prompt ack for ".to_owned().concat(id),
                    );
                }
                if is_answer(&frame, id) {
                    return self.take_answer(frame, now, timeouts);
                }
                self.keep(frame);
                Ok(RpcAction::Wait(TimeoutKind::CommandResponse))
            },
            RpcEvent::Broken(text) => Err(text),
            RpcEvent::Closed => Err(closed_message(TimeoutKind::CommandResponse, stderr)),
            RpcEvent::TimedOut => Err(
                timed_out_message(
                    TimeoutKind::CommandResponse,
                    timeouts.get(TimeoutKind::CommandResponse),
                    stderr,
                ),
            ),
        }
    }

    fn step_running(&mut self, event: RpcEvent, stderr: &str, timeouts: &RpcTimeouts) -> (result:
        Result<RpcAction, String>)
        requires
            old(self).wf(),
        ensures
            final(self).wf(),
            step_outcome(*final(self), result) == old(self)@.on_running(event@, stderr@, *timeouts),
            result is Err ==> final(self)@ == old(self)@,
    {
        match event {
            RpcEvent::Frame(frame) => {
                let ended = is_type(&frame, "agent_end");
                self.keep(frame);
                if ended {
                    self.phase = Phase::Done;
                    Ok(RpcAction::Finish)
                } else {
                    Ok(RpcAction::Wait(TimeoutKind::PromptIdle))
                }
            },
            RpcEvent::Broken(text) => Err(text),
            RpcEvent::Closed => Err(closed_message(TimeoutKind::PromptIdle, stderr)),
            RpcEvent::TimedOut => Err(
                timed_out_message(
                    TimeoutKind::PromptIdle,
                    timeouts.get(TimeoutKind::PromptIdle),
                    stderr,
                ),
            ),
        }
    }

    fn step_retrying(
        &mut self,
        until: u128,
        event: RpcEvent,
        now: u64,
        stderr: &str,
        ids: &mut RequestIds,
    ) -> (result: Result<RpcAction, String>)
        requires
            old(self).wf(),
        ensures
            final(self).wf(),
            step_outcome(*final(self), result) == old(self)@.on_retrying(
                until as int,
                event@,
                now,
                stderr@,
                old(ids).next_id,
            ),
            result is Err ==> final(self)@ == old(self)@,
            result matches Ok(RpcAction::Send(line)) ==> is_one_line(line@),
            final(ids).next_id == (match result {
                Ok(RpcAction::Send(_)) => old(self)@.number_after_sent(old(ids).next_id),
                _ => old(ids).next_id,
            }),
    {
        match event {
            RpcEvent::Frame(frame) => {
                self.keep(frame);
                if now as u128 >= until {
                    Ok(self.resend(ids))
                } else {
                    Ok(RpcAction::WaitUntil(until))
                }
            },
            RpcEvent::TimedOut => Ok(self.resend(ids)),
            RpcEvent::Broken(text) => Err(text),
            RpcEvent::Closed => Err(closed_in_retry_message(stderr)),
        }
    }

    /// Takes the first step of an exchange: makes the line that is to be written.
    pub fn open(&mut self, ids: &mut RequestIds) -> (line: String)
        requires
            old(self).wf(),
            old(self).phase is Unsent,
        ensures
            final(self).wf(),
            final(self)@ == old(self)@.sent(old(ids).next_id),
            line@ == old(self)@.line(old(ids).next_id),
            is_one_line(line@),
            final(ids).next_id == old(self)@.number_after_sent(old(ids).next_id),
    {
        self.send(ids)
    }

    /// Takes a step of the exchange. After an error the exchange is over, and stays as it was.
    pub fn step(
        &mut self,
        event: RpcEvent,
        now: u64,
        stderr: &str,
        timeouts: &RpcTimeouts,
        ids: &mut RequestIds,
    ) -> (result: Result<RpcAction, String>)
        requires
            old(self).wf(),
        ensures
            final(self).wf(),
            step_outcome(*final(self), result) == old(self)@.after(
                event@,
                now,
                stderr@,
                *timeouts,
                old(ids).next_id,
            ),
            result is Err ==> final(self)@ == old(self)@,
            result matches Ok(RpcAction::Send(line)) ==> is_one_line(line@),
            final(ids).next_id == (match result {
                Ok(RpcAction::Send(_)) => old(self)@.number_after_sent(old(ids).next_id),
                _ => old(ids).next_id,
            }),
    {
        match &self.phase {
            Phase::Unsent => Ok(RpcAction::Send(self.send(ids))),
            Phase::Awaiting { id } => {
                let id = id.clone();
                self.step_awaiting(id.as_str(), event, now, stderr, timeouts)
            },
            Phase::Retrying { until } => {
                let until = *until;
                self.step_retrying(until, event, now, stderr, ids)
            },
            Phase::Running => self.step_running(event, stderr, timeouts),
            Phase::Done => Ok(RpcAction::Finish),
        }
    }

    /// What an exchange has brought: the answer that was kept, and the frames.
    pub fn finish(self) -> (parts: PromptOutcome)
        ensures
            opt_json(parts.ack) == self@.response,
            json_views(parts.frames@) == self@.frames,
    {
        PromptOutcome { ack: self.response, frames: self.frames }
    }
}

/// What a prompt has brought: the answer that took it, where it was kept, and the frames.
#[derive(Debug)]
pub struct PromptOutcome {
    pub ack: Option<Value>,
    pub frames: Vec<Value>,
}

/// What the first event of a process means: it is ready, or why it is not.
pub open spec fn ready_verdict(event: RpcEventView, stderr: Seq<char>, timeouts: RpcTimeouts) -> Result<
    (),
    Seq<char>,
> {
    match event {
        RpcEventView::Frame(frame) => if has_type(frame, "ready"@) {
            Ok(())
        } else {
            Err("expected omp ready frame, got "@ + json_compact(frame))
        },
        RpcEventView::Broken(text) => Err(text),
        RpcEventView::Closed => Err(closed_text(TimeoutKind::Ready, stderr)),
        RpcEventView::TimedOut => Err(timed_out_text(TimeoutKind::Ready, timeouts.ready, stderr)),
    }
}

/// Judges the first event of a process.
pub fn await_ready(event: RpcEvent, stderr: &str, timeouts: &RpcTimeouts) -> (result: Result<
    (),
    String,
>)
    ensures
        outcome(result) == ready_verdict(event@, stderr@, *timeouts),
{
    match event {
        RpcEvent::Frame(frame) => check_ready(&frame),
        RpcEvent::Broken(text) => Err(text),
        RpcEvent::Closed => Err(closed_message(TimeoutKind::Ready, stderr)),
        RpcEvent::TimedOut => Err(
            timed_out_message(TimeoutKind::Ready, timeouts.get(TimeoutKind::Ready), stderr),
        ),
    }
}

} // verus!

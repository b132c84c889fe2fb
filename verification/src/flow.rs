//! The course of a run: which step comes next, and what is done about a pause or a halt.
//!
//! A [`Flow`] decides and its caller acts. The caller performs each action and hands back the event
//! that answers it. The first event of a flow is [`FlowEvent::Done`].

use serde_json::Value;
use vstd::prelude::*;

use crate::config::PromptStepView;
use crate::control::{
    control_event_for_item, control_message, copy_events, drain_control_events, drained,
    event_for_item, event_message, event_views,
};
use crate::error::{lemma_message_fits, message_fits, outcome, Failure};
use crate::json::{json_view, json_views, JsonView};
use crate::loop_spec::{LoopItem, LoopItemView};
use crate::notify::{notify_plan, plan_notify, NotifyPlan, NotifyPlanView};
use crate::records::{
    control_event_record, control_event_view, error_record, prompt_record_view,
    rendered_prompt_record, transition_record, transition_view,
};
use crate::rpc::{opt_session, SessionInfo, SessionInfoView};
use crate::runner::{
    completed_state, completed_view, current_prompt_id, current_state, failed_state, failed_view,
    make_state, next_position, next_position_or_current, opt_state, position_at, prompt_id_at, run_state, running_state, FlowRequest,
    FlowRequestView,
};
use crate::state::{ControlEvent, ControlEventView, RunStatus, State, StateView};
use crate::template::{
    build_context, context_of, prompt_context, render_message, render_prompt, strictly_rendered,
};
use crate::text::{opt_text, texts};

verus! {

/// What a flow waits for.
#[derive(Debug)]
pub enum FlowPhase {
    /// Nothing has been done yet.
    Fresh,
    /// The resumption of the run is being recorded.
    Announcing,
    /// The resumed session is being looked at.
    Resuming,
    /// The state is being saved, before the message of the user.
    ResumeSaving,
    /// The message of the user is with the agent.
    ResumePrompting,
    /// Control events are being fetched, after the message of the user.
    ResumeDraining,
    /// Control events are being fetched, before anything is done for a prompt.
    Arriving,
    /// The session of a prompt is being opened.
    Opening,
    /// The state is being saved, before a prompt.
    Saving,
    /// Control events are being fetched, after the state has been saved.
    Checking,
    /// The text of a prompt is being recorded.
    Recording { text: String },
    /// Control events are being fetched, after the text has been recorded.
    Confirming { text: String },
    /// A prompt is with the agent.
    Prompting,
    /// Control events are being fetched, after a prompt.
    Leaving,
    /// The notification command of a pause or a halt is running. The observed events are those that
    /// have come, the event is the one that counts.
    Notifying { observed: Vec<ControlEvent>, event: ControlEvent, next_prompt: usize },
    /// The flow has ended.
    Ended,
}

/// What a [`FlowPhase`] says.
pub enum FlowPhaseView {
    Fresh,
    Announcing,
    Resuming,
    ResumeSaving,
    ResumePrompting,
    ResumeDraining,
    Arriving,
    Opening,
    Saving,
    Checking,
    Recording { text: Seq<char> },
    Confirming { text: Seq<char> },
    Prompting,
    Leaving,
    Notifying { observed: Seq<ControlEventView>, event: ControlEventView, next_prompt: int },
    Ended,
}

impl View for FlowPhase {
    type V = FlowPhaseView;

    open spec fn view(&self) -> FlowPhaseView {
        match self {
            FlowPhase::Fresh => FlowPhaseView::Fresh,
            FlowPhase::Announcing => FlowPhaseView::Announcing,
            FlowPhase::Resuming => FlowPhaseView::Resuming,
            FlowPhase::ResumeSaving => FlowPhaseView::ResumeSaving,
            FlowPhase::ResumePrompting => FlowPhaseView::ResumePrompting,
            FlowPhase::ResumeDraining => FlowPhaseView::ResumeDraining,
            FlowPhase::Arriving => FlowPhaseView::Arriving,
            FlowPhase::Opening => FlowPhaseView::Opening,
            FlowPhase::Saving => FlowPhaseView::Saving,
            FlowPhase::Checking => FlowPhaseView::Checking,
            FlowPhase::Recording { text } => FlowPhaseView::Recording { text: text@ },
            FlowPhase::Confirming { text } => FlowPhaseView::Confirming { text: text@ },
            FlowPhase::Prompting => FlowPhaseView::Prompting,
            FlowPhase::Leaving => FlowPhaseView::Leaving,
            FlowPhase::Notifying { observed, event, next_prompt } => FlowPhaseView::Notifying {
                observed: event_views(observed@),
                event: event@,
                next_prompt: *next_prompt as int,
            },
            FlowPhase::Ended => FlowPhaseView::Ended,
        }
    }
}

/// The answer to an action.
#[derive(Debug)]
pub enum FlowEvent {
    /// What was asked for has been done.
    Done,
    /// The session that was asked for.
    Session(SessionInfo),
    /// The control events that have come since they were last fetched, the oldest first.
    Controls(Vec<ControlEvent>),
    /// The notification command has ended; the text says what went wrong with it.
    Notified(Option<String>),
}

/// What a [`FlowEvent`] says.
pub enum FlowEventView {
    Done,
    Session(SessionInfoView),
    Controls(Seq<ControlEventView>),
    Notified(Option<Seq<char>>),
}

impl View for FlowEvent {
    type V = FlowEventView;

    open spec fn view(&self) -> FlowEventView {
        match self {
            FlowEvent::Done => FlowEventView::Done,
            FlowEvent::Session(info) => FlowEventView::Session(info@),
            FlowEvent::Controls(events) => FlowEventView::Controls(event_views(events@)),
            FlowEvent::Notified(report) => FlowEventView::Notified(opt_text(*report)),
        }
    }
}

/// What is to be done next.
#[derive(Debug)]
pub enum FlowAction {
    /// Add a record to the outputs of the item.
    Output { item_id: String, record: Value },
    /// Ask the agent for its session, a new one where `fresh` is set, and record it. The answer is
    /// the session.
    OpenSession { item_id: String, prompt_id: String, fresh: bool, reason: &'static str },
    /// Save the state.
    Save(State),
    /// Fetch the waiting control events. The answer is those events.
    Drain,
    /// Add a record to the rendered prompts of the item.
    Record { item_id: String, record: Value },
    /// Send a text to the agent and wait until the agent has ended; the label is shown meanwhile.
    Prompt { item_id: String, prompt_index: usize, label: String, text: String },
    /// Run the notification command. The answer says what went wrong with it.
    Notify { argv: Vec<String> },
    /// Add the records to the outputs of the item, save the state, and end.
    Stop { item_id: String, outputs: Vec<Value>, state: State },
    /// Add the records to the outputs of the item, save the state, and end: everything is done.
    Complete { item_id: String, outputs: Vec<Value>, state: State },
    /// Nothing is left to do.
    Rest,
}

/// What a [`FlowAction`] says.
pub enum FlowActionView {
    Output { item_id: Seq<char>, record: JsonView },
    OpenSession { item_id: Seq<char>, prompt_id: Seq<char>, fresh: bool, reason: Seq<char> },
    Save(StateView),
    Drain,
    Record { item_id: Seq<char>, record: JsonView },
    Prompt { item_id: Seq<char>, prompt_index: int, label: Seq<char>, text: Seq<char> },
    Notify { argv: Seq<Seq<char>> },
    Stop { item_id: Seq<char>, outputs: Seq<JsonView>, state: StateView },
    Complete { item_id: Seq<char>, outputs: Seq<JsonView>, state: StateView },
    Rest,
}

impl View for FlowAction {
    type V = FlowActionView;

    open spec fn view(&self) -> FlowActionView {
        match self {
            FlowAction::Output { item_id, record } => FlowActionView::Output {
                item_id: item_id@,
                record: json_view(*record),
            },
            FlowAction::OpenSession { item_id, prompt_id, fresh, reason } =>
                FlowActionView::OpenSession {
                item_id: item_id@,
                prompt_id: prompt_id@,
                fresh: *fresh,
                reason: reason@,
            },
            FlowAction::Save(state) => FlowActionView::Save(state@),
            FlowAction::Drain => FlowActionView::Drain,
            FlowAction::Record { item_id, record } => FlowActionView::Record {
                item_id: item_id@,
                record: json_view(*record),
            },
            FlowAction::Prompt { item_id, prompt_index, label, text } => FlowActionView::Prompt {
                item_id: item_id@,
                prompt_index: *prompt_index as int,
                label: label@,
                text: text@,
            },
            FlowAction::Notify { argv } => FlowActionView::Notify { argv: texts(argv@) },
            FlowAction::Stop { item_id, outputs, state } => FlowActionView::Stop {
                item_id: item_id@,
                outputs: json_views(outputs@),
                state: state@,
            },
            FlowAction::Complete { item_id, outputs, state } => FlowActionView::Complete {
                item_id: item_id@,
                outputs: json_views(outputs@),
                state: state@,
            },
            FlowAction::Rest => FlowActionView::Rest,
        }
    }
}

/// The course of a run.
#[derive(Debug)]
pub struct Flow {
    pub item_index: usize,
    pub prompt_index: usize,
    pub session: Option<SessionInfo>,
    pub force_new: bool,
    pub phase: FlowPhase,
}

/// What a [`Flow`] says.
pub struct FlowView {
    pub item: int,
    pub prompt: int,
    pub session: Option<SessionInfoView>,
    pub force_new: bool,
    pub phase: FlowPhaseView,
}

impl View for Flow {
    type V = FlowView;

    open spec fn view(&self) -> FlowView {
        FlowView {
            item: self.item_index as int,
            prompt: self.prompt_index as int,
            session: opt_session(self.session),
            force_new: self.force_new,
            phase: self.phase@,
        }
    }
}

/// A flow before its first step. A run that resumes at the first prompt of an item gives that item a
/// session of its own.
pub open spec fn fresh_flow(request: FlowRequestView) -> FlowView {
    FlowView {
        item: request.start_item,
        prompt: request.start_prompt,
        session: None,
        force_new: request.resume_session is Some && request.start_prompt == 0,
        phase: FlowPhaseView::Fresh,
    }
}

impl FlowView {
    /// A flow is well formed where its position lies in the run: while it resumes at the start of
    /// the run, and at a prompt while it works on one.
    pub open spec fn wf(self, request: FlowRequestView) -> bool {
        &&& 0 <= request.start_item < request.items.len()
        &&& 0 <= request.start_prompt
        &&& request.start_item <= self.item <= request.items.len()
        &&& 0 <= self.prompt
        &&& match self.phase {
            FlowPhaseView::Fresh
            | FlowPhaseView::Announcing
            | FlowPhaseView::Resuming
            | FlowPhaseView::ResumeDraining => {
                self.item == request.start_item && self.prompt == request.start_prompt
            },
            FlowPhaseView::ResumeSaving | FlowPhaseView::ResumePrompting => {
                self.item == request.start_item && self.prompt == request.start_prompt
                    && request.resume_message is Some
            },
            FlowPhaseView::Notifying { next_prompt, .. } => {
                self.item < request.items.len() && 0 <= next_prompt
            },
            FlowPhaseView::Ended => true,
            _ => self.item < request.items.len() && self.prompt < request.config.prompts.len(),
        }
    }

    /// The item of the flow.
    pub open spec fn item_of(self, request: FlowRequestView) -> LoopItemView {
        request.items[self.item]
    }

    /// The prompt of the flow.
    pub open spec fn prompt_of(self, request: FlowRequestView) -> PromptStepView {
        request.config.prompts[self.prompt]
    }

    /// The state that is saved before a text goes to the agent.
    pub open spec fn running(self, request: FlowRequestView) -> StateView {
        run_state(
            request,
            RunStatus::Running,
            position_at(self.item_of(request), self.prompt, request.config.prompts, self.session),
            None,
            None,
        )
    }

    /// The text of the prompt, where it renders.
    pub open spec fn rendered(self, request: FlowRequestView) -> Option<Seq<char>> {
        strictly_rendered(
            self.prompt_of(request).text,
            prompt_context(context_of(self.item_of(request), request.repo_root, None)),
        )
    }

    /// The pause that the prompt asks for, where no control event has come.
    pub open spec fn pause(self, request: FlowRequestView) -> Result<
        Option<ControlEventView>,
        Failure<Seq<char>>,
    > {
        let prompt = self.prompt_of(request);
        let item = self.item_of(request);
        if !prompt.pause_after {
            Ok(None)
        } else {
            match prompt.message {
                None => Err(
                    Failure::Told("pause_after prompt '"@ + prompt.id + "' has no message"@),
                ),
                Some(template) => match strictly_rendered(
                    template,
                    prompt_context(context_of(item, request.repo_root, None)),
                ) {
                    None => Err(Failure::Render),
                    Some(message) => Ok(
                        Some(
                            ControlEventView::Notify {
                                message,
                                item_id: Some(item.item_id),
                                counter: Some(item.counter),
                            },
                        ),
                    ),
                },
            }
        }
    }
}

/// A flow that turns to its position: it goes on to the next item where the prompts of its item are
/// done, and completes where the items are done, which is recorded for the last item. An item starts without a session and gets a new
/// one.
pub open spec fn arrived(request: FlowRequestView, flow: FlowView) -> (FlowView, FlowActionView)
    decreases request.items.len() - flow.item,
{
    if flow.item >= request.items.len() {
        (
            FlowView { phase: FlowPhaseView::Ended, ..flow },
            FlowActionView::Complete {
                item_id: request.items.last().item_id,
                outputs: seq![
                    transition_view(RunStatus::Running, RunStatus::Completed, "completed"@),
                ],
                state: completed_view(request, request.items[request.start_item]),
            },
        )
    } else if flow.prompt >= request.config.prompts.len() {
        arrived(
            request,
            FlowView { item: flow.item + 1, prompt: 0, session: None, force_new: true, ..flow },
        )
    } else {
        (FlowView { phase: FlowPhaseView::Arriving, ..flow }, FlowActionView::Drain)
    }
}

/// A flow that has looked at its resumed session: the message of the user comes first, where there
/// is one.
pub open spec fn greeted(request: FlowRequestView, flow: FlowView) -> (FlowView, FlowActionView) {
    match request.resume_message {
        Some(_) => (
            FlowView { phase: FlowPhaseView::ResumeSaving, ..flow },
            FlowActionView::Save(flow.running(request)),
        ),
        None => arrived(request, flow),
    }
}

/// A flow that saves its state before a prompt.
pub open spec fn saving(request: FlowRequestView, flow: FlowView) -> (FlowView, FlowActionView) {
    (
        FlowView { phase: FlowPhaseView::Saving, ..flow },
        FlowActionView::Save(flow.running(request)),
    )
}

/// A flow that gets the session of its prompt: a new one for the first prompt of an item and for a
/// prompt that asks for one, the agent's own where none is known, and otherwise the one it has.
pub open spec fn opening(request: FlowRequestView, flow: FlowView) -> (FlowView, FlowActionView) {
    let fresh = flow.force_new || (flow.session is Some && flow.prompt_of(request).new_session);
    if fresh || flow.session is None {
        (
            FlowView { phase: FlowPhaseView::Opening, ..flow },
            FlowActionView::OpenSession {
                item_id: flow.item_of(request).item_id,
                prompt_id: flow.prompt_of(request).id,
                fresh: fresh,
                reason: if fresh {
                    "new_session"@
                } else {
                    "initial"@
                },
            },
        )
    } else {
        saving(request, flow)
    }
}

/// The state of a flow that stops. A halt stays at the prompt that was sent last; a pause goes on to
/// the next one.
pub open spec fn stop_state(
    request: FlowRequestView,
    flow: FlowView,
    event: ControlEventView,
    next_prompt: int,
    report: Option<Seq<char>>,
) -> StateView {
    let item = flow.item_of(request);
    let prompts = request.config.prompts;
    match event {
        ControlEventView::Halt { .. } => run_state(
            request,
            RunStatus::Halted,
            position_at(
                item,
                if next_prompt > 0 {
                    next_prompt - 1
                } else {
                    0
                },
                prompts,
                flow.session,
            ),
            Some(event),
            report,
        ),
        ControlEventView::Notify { .. } => {
            let place = next_position(request.items, prompts.len(), item, next_prompt);
            run_state(
                request,
                RunStatus::Paused,
                position_at(place.0, place.1, prompts, flow.session),
                Some(event),
                report,
            )
        },
    }
}

/// The record of a flow that stops.
pub open spec fn stop_transition(event: ControlEventView) -> JsonView {
    match event {
        ControlEventView::Halt { .. } => transition_view(
            RunStatus::Running,
            RunStatus::Halted,
            "halt"@,
        ),
        ControlEventView::Notify { .. } => transition_view(
            RunStatus::Running,
            RunStatus::Paused,
            "notify"@,
        ),
    }
}

/// The records that a flow leaves when it stops: the control events that have come, what went wrong
/// with the notification, and the change of status.
pub open spec fn stop_outputs(
    observed: Seq<ControlEventView>,
    event: ControlEventView,
    report: Option<Seq<char>>,
) -> Seq<JsonView> {
    observed.map_values(|e: ControlEventView| control_event_view(e)) + (match report {
        Some(error) => seq![
            JsonView::Object(
                Map::empty().insert("kind"@, JsonView::Text("error"@)).insert(
                    "message"@,
                    JsonView::Text(error),
                ),
            ),
        ],
        None => Seq::empty(),
    }) + seq![stop_transition(event)]
}

/// A flow that stops after its notification.
pub open spec fn stopped(
    request: FlowRequestView,
    flow: FlowView,
    observed: Seq<ControlEventView>,
    event: ControlEventView,
    next_prompt: int,
    report: Option<Seq<char>>,
) -> (FlowView, FlowActionView) {
    (
        FlowView { phase: FlowPhaseView::Ended, ..flow },
        FlowActionView::Stop {
            item_id: flow.item_of(request).item_id,
            outputs: stop_outputs(observed, event, report),
            state: stop_state(request, flow, event, next_prompt, report),
        },
    )
}

/// A flow that is to stop on an event: it notifies first, where a command is configured and renders.
/// The event is
/// the one that counts of those that have come, or the pause that a prompt asks for.
pub open spec fn stopping(
    request: FlowRequestView,
    flow: FlowView,
    observed: Seq<ControlEventView>,
    event: ControlEventView,
    next_prompt: int,
) -> (FlowView, FlowActionView) {
    let item = flow.item_of(request);
    let named = event_for_item(event, item);
    let message = event_message(named);
    match notify_plan(
        request.config.notify,
        context_of(item, request.repo_root, Some(message)),
        message,
    ) {
        NotifyPlanView::Nothing => stopped(request, flow, observed, named, next_prompt, None),
        NotifyPlanView::Report(error) => stopped(
            request,
            flow,
            observed,
            named,
            next_prompt,
            Some(error),
        ),
        NotifyPlanView::Run(argv) => (
            FlowView {
                phase: FlowPhaseView::Notifying { observed, event: named, next_prompt },
                ..flow
            },
            FlowActionView::Notify { argv },
        ),
    }
}

/// A flow that leaves a prompt: the control events that have come count, or else the pause that the
/// prompt asks for.
pub open spec fn leaving(
    request: FlowRequestView,
    flow: FlowView,
    events: Seq<ControlEventView>,
) -> Result<(FlowView, FlowActionView), Failure<Seq<char>>> {
    match drained(events, None) {
        Some(event) => Ok(stopping(request, flow, events, event, flow.prompt + 1)),
        None => match flow.pause(request) {
            Err(error) => Err(error),
            Ok(Some(event)) => Ok(stopping(request, flow, events, event, flow.prompt + 1)),
            Ok(None) => Ok(arrived(request, FlowView { prompt: flow.prompt + 1, ..flow })),
        },
    }
}

/// The step that follows an event: the flow and the action after it, or the error that the run fails
/// with.
pub open spec fn flow_next(request: FlowRequestView, flow: FlowView, event: FlowEventView) -> Result<
    (FlowView, FlowActionView),
    Failure<Seq<char>>,
> {
    match (flow.phase, event) {
        (FlowPhaseView::Fresh, FlowEventView::Done) => match request.resume_session {
            Some(resumption) => Ok(
                (
                    FlowView { phase: FlowPhaseView::Announcing, ..flow },
                    FlowActionView::Output {
                        item_id: flow.item_of(request).item_id,
                        record: transition_view(
                            resumption.status,
                            RunStatus::Running,
                            "resume"@,
                        ),
                    },
                ),
            ),
            None => Ok(greeted(request, flow)),
        },
        (FlowPhaseView::Announcing, FlowEventView::Done) => Ok(
            (
                FlowView { phase: FlowPhaseView::Resuming, ..flow },
                FlowActionView::OpenSession {
                    item_id: flow.item_of(request).item_id,
                    prompt_id: prompt_id_at(request.config.prompts, flow.prompt),
                    fresh: false,
                    reason: "resume"@,
                },
            ),
        ),
        (FlowPhaseView::Resuming, FlowEventView::Session(info)) => Ok(
            greeted(request, FlowView { session: Some(info), ..flow }),
        ),
        (FlowPhaseView::ResumeSaving, FlowEventView::Done) => Ok(
            (
                FlowView { phase: FlowPhaseView::ResumePrompting, ..flow },
                FlowActionView::Prompt {
                    item_id: flow.item_of(request).item_id,
                    prompt_index: flow.prompt,
                    label: "resume-message"@,
                    text: request.resume_message->0,
                },
            ),
        ),
        (FlowPhaseView::ResumePrompting, FlowEventView::Done) => Ok(
            (FlowView { phase: FlowPhaseView::ResumeDraining, ..flow }, FlowActionView::Drain),
        ),
        (FlowPhaseView::ResumeDraining, FlowEventView::Controls(events)) => match drained(
            events,
            None,
        ) {
            Some(event) => Ok(stopping(request, flow, events, event, flow.prompt)),
            None => Ok(arrived(request, flow)),
        },
        (FlowPhaseView::Arriving, FlowEventView::Controls(events)) => match drained(events, None) {
            Some(event) => Ok(stopping(request, flow, events, event, flow.prompt)),
            None => Ok(opening(request, flow)),
        },
        (FlowPhaseView::Opening, FlowEventView::Session(info)) => Ok(
            saving(request, FlowView { session: Some(info), force_new: false, ..flow }),
        ),
        (FlowPhaseView::Saving, FlowEventView::Done) => Ok(
            (FlowView { phase: FlowPhaseView::Checking, ..flow }, FlowActionView::Drain),
        ),
        (FlowPhaseView::Checking, FlowEventView::Controls(events)) => match drained(events, None) {
            Some(event) => Ok(stopping(request, flow, events, event, flow.prompt)),
            None => match flow.rendered(request) {
                None => Err(Failure::Render),
                Some(text) => Ok(
                    (
                        FlowView { phase: FlowPhaseView::Recording { text }, ..flow },
                        FlowActionView::Record {
                            item_id: flow.item_of(request).item_id,
                            record: prompt_record_view(
                                request.run_id,
                                flow.item_of(request),
                                flow.prompt,
                                flow.prompt_of(request).id,
                                flow.session,
                                text,
                            ),
                        },
                    ),
                ),
            },
        },
        (FlowPhaseView::Recording { text }, FlowEventView::Done) => Ok(
            (FlowView { phase: FlowPhaseView::Confirming { text }, ..flow }, FlowActionView::Drain),
        ),
        (FlowPhaseView::Confirming { text }, FlowEventView::Controls(events)) => match drained(
            events,
            None,
        ) {
            Some(event) => Ok(stopping(request, flow, events, event, flow.prompt)),
            None => Ok(
                (
                    FlowView { phase: FlowPhaseView::Prompting, ..flow },
                    FlowActionView::Prompt {
                        item_id: flow.item_of(request).item_id,
                        prompt_index: flow.prompt,
                        label: flow.prompt_of(request).id,
                        text: text,
                    },
                ),
            ),
        },
        (FlowPhaseView::Prompting, FlowEventView::Done) => Ok(
            (FlowView { phase: FlowPhaseView::Leaving, ..flow }, FlowActionView::Drain),
        ),
        (FlowPhaseView::Leaving, FlowEventView::Controls(events)) => leaving(request, flow, events),
        (
            FlowPhaseView::Notifying { observed, event: named, next_prompt },
            FlowEventView::Notified(report),
        ) => Ok(stopped(request, flow, observed, named, next_prompt, report)),
        (FlowPhaseView::Ended, _) => Ok((flow, FlowActionView::Rest)),
        _ => Err(Failure::Told("the event does not answer the last action"@)),
    }
}

/// Whether a flow and a result are those of a step, or the result is an error that the failure of the
/// step allows.
pub open spec fn step_fits(
    flow: FlowView,
    result: Result<FlowAction, String>,
    step: Result<(FlowView, FlowActionView), Failure<Seq<char>>>,
) -> bool {
    match (result, step) {
        (Ok(action), Ok(next)) => (flow, action@) == next,
        (Err(error), Err(failure)) => message_fits(error@, failure),
        _ => false,
    }
}

/// What is left of a run that fails: the state, and the change of status in the outputs of the item
/// that the state names.
pub open spec fn failed_stop(
    request: FlowRequestView,
    previous: Option<StateView>,
    item: LoopItemView,
    error: Seq<char>,
) -> FlowActionView {
    let state = failed_view(request, previous, item, error);
    FlowActionView::Stop {
        item_id: state.current.item_id,
        outputs: seq![transition_view(RunStatus::Running, RunStatus::Failed, "error"@)],
        state,
    }
}

/// Ends a run that fails. `previous` is the state that was saved last, and `item` is the one that the
/// run started with.
pub fn fail_run(
    request: &FlowRequest,
    previous: Option<State>,
    item: &LoopItem,
    error: &str,
) -> (action: FlowAction)
    ensures
        action@ == failed_stop(request@, opt_state(previous), item@, error@),
{
    let state = failed_state(request, previous, item, error);
    let mut outputs: Vec<Value> = Vec::new();
    outputs.push(transition_record(RunStatus::Running, RunStatus::Failed, "error"));
    assert(json_views(outputs@) =~= seq![
        transition_view(RunStatus::Running, RunStatus::Failed, "error"@),
    ]);
    FlowAction::Stop { item_id: state.current.item_id.clone(), outputs, state }
}

impl Flow {
    /// A flow before its first step; the run must start at one of its items.
    pub fn new(request: &FlowRequest) -> (result: Result<Flow, String>)
        ensures
            outcome(result) == (if request@.start_item < request@.items.len() {
                Ok::<FlowView, Seq<char>>(fresh_flow(request@))
            } else {
                Err::<FlowView, Seq<char>>("resume item index is out of range"@)
            }),
            result is Ok ==> result->Ok_0@.wf(request@),
    {
        if request.start_item_index >= request.plan.items.len() {
            return Err("resume item index is out of range".to_owned());
        }
        Ok(
            Flow {
                item_index: request.start_item_index,
                prompt_index: request.start_prompt_index,
                session: None,
                force_new: request.resume_session.is_some() && request.start_prompt_index == 0,
                phase: FlowPhase::Fresh,
            },
        )
    }

    fn item<'a>(&self, request: &'a FlowRequest) -> (item: &'a LoopItem)
        requires
            self.item_index < request.plan.items.len(),
        ensures
            item@ == self@.item_of(request@),
    {
        &request.plan.items[self.item_index]
    }

    fn session_ref(&self) -> (session: Option<&SessionInfo>)
        ensures
            (match session {
                Some(info) => Some(info@),
                None => None,
            }) == self@.session,
    {
        match &self.session {
            Some(info) => Some(info),
            None => None,
        }
    }

    /// Turns to the position of the flow.
    fn arrive(&mut self, request: &FlowRequest) -> (action: FlowAction)
        requires
            request@.start_item <= old(self)@.item <= request@.items.len(),
            request@.start_item < request@.items.len(),
        ensures
            (final(self)@, action@) == arrived(request@, old(self)@),
            final(self)@.wf(request@),
    {
        let ghost view = self@;
        while self.item_index < request.plan.items.len() && self.prompt_index
            >= request.config.prompts.len()
            invariant
                request@.start_item <= self@.item <= request@.items.len(),
                request@.start_item < request@.items.len(),
                arrived(request@, self@) == arrived(request@, view),
            decreases request.plan.items.len() - self.item_index,
        {
            self.item_index = self.item_index + 1;
            self.prompt_index = 0;
            self.session = None;
            self.force_new = true;
        }
        if self.item_index >= request.plan.items.len() {
            self.phase = FlowPhase::Ended;
            let first = &request.plan.items[request.start_item_index];
            assert(first@ == request@.items[request@.start_item]);
            let last = &request.plan.items[request.plan.items.len() - 1];
            assert(last@ == request@.items.last());
            let mut outputs: Vec<Value> = Vec::new();
            outputs.push(transition_record(RunStatus::Running, RunStatus::Completed, "completed"));
            assert(json_views(outputs@) =~= seq![
                transition_view(RunStatus::Running, RunStatus::Completed, "completed"@),
            ]);
            return FlowAction::Complete {
                item_id: last.item_id.clone(),
                outputs,
                state: completed_state(request, first),
            };
        }
        self.phase = FlowPhase::Arriving;
        FlowAction::Drain
    }

    fn running_state(&self, request: &FlowRequest) -> (state: State)
        requires
            self.item_index < request.plan.items.len(),
        ensures
            state@ == self@.running(request@),
    {
        running_state(
            request,
            current_state(
                self.item(request),
                self.prompt_index,
                &request.config,
                self.session_ref(),
            ),
            None,
        )
    }

    /// Puts the message of the user first, where there is one.
    fn greet(&mut self, request: &FlowRequest) -> (action: FlowAction)
        requires
            old(self)@.wf(request@),
            old(self)@.phase is Fresh || old(self)@.phase is Resuming,
        ensures
            (final(self)@, action@) == greeted(request@, old(self)@),
            final(self)@.wf(request@),
    {
        if request.resume_message.is_some() {
            let state = self.running_state(request);
            self.phase = FlowPhase::ResumeSaving;
            return FlowAction::Save(state);
        }
        self.arrive(request)
    }

    /// Saves the state before a prompt.
    fn save(&mut self, request: &FlowRequest) -> (action: FlowAction)
        requires
            old(self)@.wf(request@),
            old(self)@.item < request@.items.len(),
            old(self)@.prompt < request@.config.prompts.len(),
        ensures
            (final(self)@, action@) == saving(request@, old(self)@),
            final(self)@.wf(request@),
    {
        let state = self.running_state(request);
        self.phase = FlowPhase::Saving;
        FlowAction::Save(state)
    }

    /// Gets the session of the prompt.
    fn open_session(&mut self, request: &FlowRequest) -> (action: FlowAction)
        requires
            old(self)@.wf(request@),
            old(self)@.phase is Arriving,
        ensures
            (final(self)@, action@) == opening(request@, old(self)@),
            final(self)@.wf(request@),
    {
        let prompt = &request.config.prompts[self.prompt_index];
        assert(prompt@ == self@.prompt_of(request@));
        let fresh = self.force_new || (self.session.is_some() && prompt.new_session);
        if fresh || self.session.is_none() {
            let item_id = self.item(request).item_id.clone();
            self.phase = FlowPhase::Opening;
            return FlowAction::OpenSession {
                item_id,
                prompt_id: prompt.id.clone(),
                fresh,
                reason: if fresh {
                    "new_session"
                } else {
                    "initial"
                },
            };
        }
        self.save(request)
    }

    fn state_at_stop(
        &self,
        request: &FlowRequest,
        event: ControlEvent,
        next_prompt: usize,
        report: Option<String>,
    ) -> (state: State)
        requires
            self.item_index < request.plan.items.len(),
        ensures
            state@ == stop_state(
                request@,
                self@,
                event@,
                next_prompt as int,
                opt_text(report),
            ),
    {
        let item = self.item(request);
        match &event {
            ControlEvent::Halt { .. } => {
                let current = current_state(
                    item,
                    next_prompt.saturating_sub(1),
                    &request.config,
                    self.session_ref(),
                );
                make_state(request, RunStatus::Halted, current, Some(event), report)
            },
            ControlEvent::Notify { .. } => {
                let (pause_item, pause_prompt) = next_position_or_current(
                    &request.plan,
                    &request.config,
                    item,
                    next_prompt,
                );
                let current = current_state(
                    pause_item,
                    pause_prompt,
                    &request.config,
                    self.session_ref(),
                );
                make_state(request, RunStatus::Paused, current, Some(event), report)
            },
        }
    }

    /// Stops after the notification.
    fn finish_stop(
        &mut self,
        request: &FlowRequest,
        observed: &Vec<ControlEvent>,
        event: ControlEvent,
        next_prompt: usize,
        report: Option<String>,
    ) -> (action: FlowAction)
        requires
            old(self)@.wf(request@),
            old(self)@.item < request@.items.len(),
        ensures
            (final(self)@, action@) == stopped(
                request@,
                old(self)@,
                event_views(observed@),
                event@,
                next_prompt as int,
                opt_text(report),
            ),
            final(self)@.wf(request@),
    {
        let item_id = self.item(request).item_id.clone();
        let ghost views = event_views(observed@);
        let ghost records = views.map_values(|e: ControlEventView| control_event_view(e));
        let mut outputs: Vec<Value> = Vec::new();
        for i in 0..observed.len()
            invariant
                views == event_views(observed@),
                records == views.map_values(|e: ControlEventView| control_event_view(e)),
                json_views(outputs@) == records.take(i as int),
        {
            let ghost before = outputs@;
            outputs.push(control_event_record(&observed[i]));
            assert(json_views(outputs@) =~= json_views(before).push(records[i as int]));
            assert(records.take(i + 1) =~= records.take(i as int).push(records[i as int]));
        }
        assert(records.take(observed@.len() as int) =~= records);
        if let Some(error) = &report {
            outputs.push(error_record(error.as_str()));
        }
        match &event {
            ControlEvent::Halt { .. } => {
                outputs.push(transition_record(RunStatus::Running, RunStatus::Halted, "halt"));
            },
            ControlEvent::Notify { .. } => {
                outputs.push(transition_record(RunStatus::Running, RunStatus::Paused, "notify"));
            },
        }
        assert(json_views(outputs@) =~= stop_outputs(views, event@, opt_text(report)));
        let state = self.state_at_stop(request, event, next_prompt, report);
        self.phase = FlowPhase::Ended;
        FlowAction::Stop { item_id, outputs, state }
    }

    /// Begins to stop on an event.
    fn stop(
        &mut self,
        request: &FlowRequest,
        observed: &Vec<ControlEvent>,
        event: ControlEvent,
        next_prompt: usize,
    ) -> (action: FlowAction)
        requires
            old(self)@.wf(request@),
            old(self)@.item < request@.items.len(),
        ensures
            (final(self)@, action@) == stopping(
                request@,
                old(self)@,
                event_views(observed@),
                event@,
                next_prompt as int,
            ),
            final(self)@.wf(request@),
    {
        let item = self.item(request);
        let named = control_event_for_item(event, item);
        let message = control_message(&named);
        let context = build_context(item, request.repo_root.as_str(), Some(message));
        match plan_notify(&request.config.notify, &context, message) {
            NotifyPlan::Nothing => self.finish_stop(request, observed, named, next_prompt, None),
            NotifyPlan::Report(error) => self.finish_stop(
                request,
                observed,
                named,
                next_prompt,
                Some(error),
            ),
            NotifyPlan::Run(argv) => {
                self.phase = FlowPhase::Notifying {
                    observed: copy_events(observed),
                    event: named,
                    next_prompt,
                };
                FlowAction::Notify { argv }
            },
        }
    }

    /// Renders the prompt and has it recorded.
    fn record(&mut self, request: &FlowRequest) -> (result: Result<FlowAction, String>)
        requires
            old(self)@.wf(request@),
            old(self)@.phase is Checking,
        ensures
            step_fits(
                final(self)@,
                result,
                flow_next(request@, old(self)@, FlowEventView::Controls(Seq::empty())),
            ),
            final(self)@.wf(request@),
            result is Err ==> final(self)@ == old(self)@,
    {
        let item = self.item(request);
        let prompt = &request.config.prompts[self.prompt_index];
        assert(prompt@ == self@.prompt_of(request@));
        let context = build_context(item, request.repo_root.as_str(), None);
        match render_prompt(prompt, &context) {
            Err(error) => {
                proof {
                    lemma_message_fits(error@, Failure::Render);
                }
                Err(error.message())
            },
            Ok(text) => {
                let record = rendered_prompt_record(
                    request.run_id.as_str(),
                    item,
                    self.prompt_index,
                    prompt.id.as_str(),
                    self.session_ref(),
                    text.as_str(),
                );
                self.phase = FlowPhase::Recording { text };
                Ok(FlowAction::Record { item_id: item.item_id.clone(), record })
            },
        }
    }

    /// The pause that the prompt asks for.
    fn pause(&self, request: &FlowRequest) -> (result: Result<Option<ControlEvent>, String>)
        requires
            self.item_index < request.plan.items.len(),
            self.prompt_index < request.config.prompts.len(),
        ensures
            (match result {
                Ok(event) => self@.pause(request@) == Ok::<
                    Option<ControlEventView>,
                    Failure<Seq<char>>,
                >(
                    match event {
                        Some(e) => Some(e@),
                        None => None,
                    },
                ),
                Err(error) => {
                    &&& self@.pause(request@) is Err
                    &&& message_fits(error@, self@.pause(request@)->Err_0)
                },
            }),
    {
        let item = self.item(request);
        let prompt = &request.config.prompts[self.prompt_index];
        assert(prompt@ == self@.prompt_of(request@));
        if !prompt.pause_after {
            return Ok(None);
        }
        match &prompt.message {
            None => Err(
                "pause_after prompt '".to_owned().concat(prompt.id.as_str()).concat(
                    "' has no message",
                ),
            ),
            Some(template) => {
                let context = build_context(item, request.repo_root.as_str(), None);
                match render_message(template.as_str(), &context) {
                    Err(error) => {
                        proof {
                            lemma_message_fits(error@, Failure::Render);
                        }
                        Err(error.message())
                    },
                    Ok(message) => Ok(
                        Some(
                            ControlEvent::Notify {
                                message,
                                item_id: Some(item.item_id.clone()),
                                counter: Some(item.counter),
                            },
                        ),
                    ),
                }
            },
        }
    }

    /// Leaves a prompt that the agent is done with.
    fn leave(&mut self, request: &FlowRequest, events: &Vec<ControlEvent>) -> (result: Result<
        FlowAction,
        String,
    >)
        requires
            old(self)@.wf(request@),
            old(self)@.phase is Leaving,
        ensures
            step_fits(
                final(self)@,
                result,
                leaving(request@, old(self)@, event_views(events@)),
            ),
            final(self)@.wf(request@),
            result is Err ==> final(self)@ == old(self)@,
    {
        assert(self.prompt_index < request.config.prompts.len());
        let control = match drain_control_events(events, None) {
            Some(event) => Some(event),
            None => match self.pause(request) {
                Err(error) => {
                    return Err(error);
                },
                Ok(pause) => pause,
            },
        };
        match control {
            Some(event) => {
                let next_prompt: usize = self.prompt_index + 1;
                Ok(self.stop(request, events, event, next_prompt))
            },
            None => {
                self.prompt_index = self.prompt_index + 1;
                Ok(self.arrive(request))
            },
        }
    }

    /// Takes the answer to the last action and decides what is done next. An error ends the run.
    pub fn step(&mut self, request: &FlowRequest, event: FlowEvent) -> (result: Result<
        FlowAction,
        String,
    >)
        requires
            old(self)@.wf(request@),
        ensures
            step_fits(final(self)@, result, flow_next(request@, old(self)@, event@)),
            final(self)@.wf(request@),
            result is Err ==> final(self)@ == old(self)@,
    {
        match event {
            FlowEvent::Done => self.step_done(request),
            FlowEvent::Session(info) => self.step_session(request, info),
            FlowEvent::Controls(events) => self.step_controls(request, &events),
            FlowEvent::Notified(report) => self.step_notified(request, report),
        }
    }

    fn step_done(&mut self, request: &FlowRequest) -> (result: Result<FlowAction, String>)
        requires
            old(self)@.wf(request@),
        ensures
            step_fits(
                final(self)@,
                result,
                flow_next(request@, old(self)@, FlowEventView::Done),
            ),
            final(self)@.wf(request@),
            result is Err ==> final(self)@ == old(self)@,
    {
        match &self.phase {
            FlowPhase::Fresh => {
                if let Some(resumption) = &request.resume_session {
                    let item_id = self.item(request).item_id.clone();
                    self.phase = FlowPhase::Announcing;
                    let record = transition_record(resumption.status, RunStatus::Running, "resume");
                    return Ok(FlowAction::Output { item_id, record });
                }
                Ok(self.greet(request))
            },
            FlowPhase::Announcing => {
                let item_id = self.item(request).item_id.clone();
                let prompt_id = current_prompt_id(&request.config, self.prompt_index).to_owned();
                self.phase = FlowPhase::Resuming;
                Ok(FlowAction::OpenSession { item_id, prompt_id, fresh: false, reason: "resume" })
            },
            FlowPhase::ResumeSaving => {
                let item_id = self.item(request).item_id.clone();
                let text = match &request.resume_message {
                    Some(message) => message.clone(),
                    None => String::new(),
                };
                self.phase = FlowPhase::ResumePrompting;
                Ok(
                    FlowAction::Prompt {
                        item_id,
                        prompt_index: self.prompt_index,
                        label: "resume-message".to_owned(),
                        text,
                    },
                )
            },
            FlowPhase::ResumePrompting => {
                self.phase = FlowPhase::ResumeDraining;
                Ok(FlowAction::Drain)
            },
            FlowPhase::Saving => {
                self.phase = FlowPhase::Checking;
                Ok(FlowAction::Drain)
            },
            FlowPhase::Recording { text } => {
                let text = text.clone();
                self.phase = FlowPhase::Confirming { text };
                Ok(FlowAction::Drain)
            },
            FlowPhase::Prompting => {
                self.phase = FlowPhase::Leaving;
                Ok(FlowAction::Drain)
            },
            FlowPhase::Ended => Ok(FlowAction::Rest),
            _ => Err("the event does not answer the last action".to_owned()),
        }
    }

    fn step_session(&mut self, request: &FlowRequest, info: SessionInfo) -> (result: Result<
        FlowAction,
        String,
    >)
        requires
            old(self)@.wf(request@),
        ensures
            step_fits(
                final(self)@,
                result,
                flow_next(request@, old(self)@, FlowEventView::Session(info@)),
            ),
            final(self)@.wf(request@),
            result is Err ==> final(self)@ == old(self)@,
    {
        match &self.phase {
            FlowPhase::Resuming => {
                self.session = Some(info);
                Ok(self.greet(request))
            },
            FlowPhase::Opening => {
                self.session = Some(info);
                self.force_new = false;
                Ok(self.save(request))
            },
            FlowPhase::Ended => Ok(FlowAction::Rest),
            _ => Err("the event does not answer the last action".to_owned()),
        }
    }

    fn step_controls(&mut self, request: &FlowRequest, events: &Vec<ControlEvent>) -> (result:
        Result<FlowAction, String>)
        requires
            old(self)@.wf(request@),
        ensures
            step_fits(
                final(self)@,
                result,
                flow_next(request@, old(self)@, FlowEventView::Controls(event_views(events@))),
            ),
            final(self)@.wf(request@),
            result is Err ==> final(self)@ == old(self)@,
    {
        match &self.phase {
            FlowPhase::Leaving => {
                return self.leave(request, events);
            },
            FlowPhase::Ended => {
                return Ok(FlowAction::Rest);
            },
            FlowPhase::ResumeDraining | FlowPhase::Arriving | FlowPhase::Checking => {},
            FlowPhase::Confirming { .. } => {},
            _ => {
                return Err("the event does not answer the last action".to_owned());
            },
        }
        if let Some(event) = drain_control_events(events, None) {
            let next_prompt: usize = self.prompt_index;
            return Ok(self.stop(request, events, event, next_prompt));
        }
        match &self.phase {
            FlowPhase::ResumeDraining => Ok(self.arrive(request)),
            FlowPhase::Arriving => Ok(self.open_session(request)),
            FlowPhase::Confirming { text } => {
                let text = text.clone();
                let item_id = self.item(request).item_id.clone();
                let prompt = &request.config.prompts[self.prompt_index];
                assert(prompt@ == self@.prompt_of(request@));
                self.phase = FlowPhase::Prompting;
                Ok(
                    FlowAction::Prompt {
                        item_id,
                        prompt_index: self.prompt_index,
                        label: prompt.id.clone(),
                        text,
                    },
                )
            },
            _ => self.record(request),
        }
    }

    fn step_notified(&mut self, request: &FlowRequest, report: Option<String>) -> (result: Result<
        FlowAction,
        String,
    >)
        requires
            old(self)@.wf(request@),
        ensures
            step_fits(
                final(self)@,
                result,
                flow_next(request@, old(self)@, FlowEventView::Notified(opt_text(report))),
            ),
            final(self)@.wf(request@),
            result is Err ==> final(self)@ == old(self)@,
    {
        match &self.phase {
            FlowPhase::Notifying { observed, event, next_prompt } => {
                let observed = copy_events(observed);
                let event = event.clone();
                let next_prompt: usize = *next_prompt;
                Ok(self.finish_stop(request, &observed, event, next_prompt, report))
            },
            FlowPhase::Ended => Ok(FlowAction::Rest),
            _ => Err("the event does not answer the last action".to_owned()),
        }
    }
}

} // verus!

//! What a run asks of its surroundings, step by step.

use vstd::prelude::*;

use crate::config::{NotifyConfigView, PromptStepView};
use crate::control::event_for_item;
use crate::error::Failure;
use crate::flow::{
    arrived, failed_stop, flow_next, fresh_flow, stop_outputs, FlowActionView, FlowEventView,
    FlowPhaseView, FlowView,
};
use crate::flow_laws::{
    a_request_stops_the_run, lemma_arrived, lemma_run_stays_inside, prompt_after_stop,
    stop_request, FlowTrace,
};
use crate::json::JsonView;
use crate::loop_spec::LoopItemView;
use crate::notify::debug_quoted;
use crate::records::{control_event_view, prompt_record_view, transition_view};
use crate::render_laws::{
    notifications_run_the_rendered_command, prompts_get_the_variables_of_their_item, speaks_of,
    variables_are_determined,
};
use crate::rpc::SessionInfoView;
use crate::runner::{first_equal, FlowRequestView};
use crate::state::{ControlEventView, CurrentStateView, RunStatus, StateView};
use crate::template::{context_of, prompt_context, strictly_rendered};

verus! {

/// The step of a run that sends the message of the user, where there is one: the first but for the
/// one that saves the state, and behind the two that look at the resumed session where there is one.
pub open spec fn message_step(request: FlowRequestView) -> int {
    if request.resume_session is Some {
        3
    } else {
        1
    }
}

/// Whether a position is that of a prompt of an item, in a session where there is one.
pub open spec fn names_place(
    current: CurrentStateView,
    item: LoopItemView,
    prompt_index: int,
    prompts: Seq<PromptStepView>,
    session: Option<SessionInfoView>,
) -> bool {
    &&& current.counter == item.counter
    &&& current.item_id == item.item_id
    &&& current.iteration == item.iteration
    &&& current.prompt_index == prompt_index
    &&& 0 <= prompt_index < prompts.len() ==> current.prompt_id == prompts[prompt_index].id
    &&& prompt_index >= prompts.len() ==> current.prompt_id == "<complete>"@
    &&& session matches Some(info) ==> current.session_id == Some(info.session_id)
        && current.session_file == Some(info.session_file)
    &&& session is None ==> current.session_id is None && current.session_file is None
}

/// Whether a state is one of the run of a request, with the given status.
pub open spec fn is_of_run(state: StateView, request: FlowRequestView, status: RunStatus) -> bool {
    &&& state.schema_version == 1
    &&& state.run_id == request.run_id
    &&& state.status == status
    &&& state.repo_root == request.repo_root
    &&& state.config_path == request.config_path
}

/// Whether a state is that of a run at work on a prompt of an item: nothing is pending and nothing
/// has gone wrong.
pub open spec fn is_at_work(
    state: StateView,
    request: FlowRequestView,
    item: int,
    prompt_index: int,
    session: Option<SessionInfoView>,
) -> bool {
    &&& is_of_run(state, request, RunStatus::Running)
    &&& names_place(
        state.current,
        request.items[item],
        prompt_index,
        request.config.prompts,
        session,
    )
    &&& state.pending_control is None
    &&& state.last_error is None
}

/// The state that a run saves while it is at work names the item, the prompt and the session that it
/// has come to.
pub proof fn running_states_name_their_place(request: FlowRequestView, flow: FlowView)
    requires
        0 <= flow.prompt,
    ensures
        is_at_work(flow.running(request), request, flow.item, flow.prompt, flow.session),
{
}

/// The text of a prompt is the configured text of that prompt, rendered for the item.
pub proof fn prompts_are_rendered_for_their_item(
    request: FlowRequestView,
    flow: FlowView,
    variables: JsonView,
)
    requires
        speaks_of(variables, request.items[flow.item], request.repo_root, None),
    ensures
        flow.rendered(request) == strictly_rendered(
            request.config.prompts[flow.prompt].text,
            variables,
        ),
{
    let item = request.items[flow.item];
    let own = prompt_context(context_of(item, request.repo_root, None));
    prompts_get_the_variables_of_their_item(item, request.repo_root, None);
    variables_are_determined(own, variables, item, request.repo_root, None);
}

/// A prompt that does not ask for a pause is left without one. A prompt that asks for one pauses with
/// its message, rendered for the item and named after the item, and fails where it has no message or
/// the message does not render.
pub proof fn pauses_carry_their_message(
    request: FlowRequestView,
    flow: FlowView,
    variables: JsonView,
)
    requires
        speaks_of(variables, request.items[flow.item], request.repo_root, None),
    ensures
        ({
            let prompt = request.config.prompts[flow.prompt];
            let item = request.items[flow.item];
            &&& !prompt.pause_after ==> flow.pause(request) == Ok::<
                Option<ControlEventView>,
                Failure<Seq<char>>,
            >(None)
            &&& prompt.pause_after && prompt.message is None ==> flow.pause(request) == Err::<
                Option<ControlEventView>,
                Failure<Seq<char>>,
            >(Failure::Told("pause_after prompt '"@ + prompt.id + "' has no message"@))
            &&& prompt.pause_after && prompt.message is Some && strictly_rendered(
                prompt.message->0,
                variables,
            ) is None ==> flow.pause(request) == Err::<
                Option<ControlEventView>,
                Failure<Seq<char>>,
            >(Failure::Render)
            &&& prompt.pause_after && prompt.message is Some ==> (strictly_rendered(
                prompt.message->0,
                variables,
            ) matches Some(message) ==> flow.pause(request) == Ok::<
                Option<ControlEventView>,
                Failure<Seq<char>>,
            >(
                Some(
                    ControlEventView::Notify {
                        message,
                        item_id: Some(item.item_id),
                        counter: Some(item.counter),
                    },
                ),
            ))
        }),
{
    let item = request.items[flow.item];
    let own = prompt_context(context_of(item, request.repo_root, None));
    prompts_get_the_variables_of_their_item(item, request.repo_root, None);
    variables_are_determined(own, variables, item, request.repo_root, None);
}

/// A run that is given a message of the user sends it to the agent, at whatever prompt the run starts
/// or resumes, behind a step that saves the running state; a resumed session is announced and looked
/// at before. Until then the agent gets nothing else, and the run does not end.
pub proof fn the_message_goes_to_the_agent_first(
    trace: FlowTrace,
    request: FlowRequestView,
    index: int,
)
    requires
        trace.is_run(request),
        request.resume_message is Some,
        0 <= index < trace.events.len(),
    ensures
        index == message_step(request) ==> trace.actions[index] == (FlowActionView::Prompt {
            item_id: request.items[request.start_item].item_id,
            prompt_index: request.start_prompt,
            label: "resume-message"@,
            text: request.resume_message->0,
        }),
        index == message_step(request) - 1 ==> (trace.actions[index] matches FlowActionView::Save(
            state,
        ) && is_at_work(
            state,
            request,
            request.start_item,
            request.start_prompt,
            if request.resume_session is Some {
                Some(trace.events[2]->Session_0)
            } else {
                None
            },
        )),
        index < message_step(request) ==> trace.actions[index] is Save || trace.actions[index]
            is Output || trace.actions[index] is OpenSession,
        index < message_step(request) && trace.actions[index] is OpenSession ==> index == 1
            && !trace.actions[index]->OpenSession_fresh,
{
    assert(trace.took(request, 0));
    if index >= 1 {
        assert(trace.took(request, 1));
    }
    if index >= 2 {
        assert(trace.took(request, 2));
    }
    if index >= 3 {
        assert(trace.took(request, 3));
    }
}

/// The number of steps after which a run does not resume any more.
spec fn resumed_after(request: FlowRequestView) -> int {
    if request.resume_message is Some {
        message_step(request) + 1
    } else {
        message_step(request)
    }
}

proof fn lemma_resumes_once(trace: FlowTrace, request: FlowRequestView, steps: int)
    requires
        trace.is_run(request),
        resumed_after(request) <= steps <= trace.events.len(),
    ensures
        !(trace.flows[steps].phase is Fresh),
        !(trace.flows[steps].phase is Announcing),
        !(trace.flows[steps].phase is Resuming),
        !(trace.flows[steps].phase is ResumeSaving),
    decreases steps,
{
    if steps > resumed_after(request) {
        lemma_resumes_once(trace, request, steps - 1);
    } else {
        assert(trace.took(request, 0));
        if steps >= 2 {
            assert(trace.took(request, 1));
        }
        if steps >= 3 {
            assert(trace.took(request, 2));
        }
        if steps >= 4 {
            assert(trace.took(request, 3));
        }
    }
    assert(trace.took(request, steps - 1));
    lemma_run_stays_inside(trace, request, steps - 1);
    let flow = trace.flows[steps - 1];
    lemma_arrived(request, flow);
    match trace.events[steps - 1] {
        FlowEventView::Session(info) => {
            lemma_arrived(request, FlowView { session: Some(info), ..flow });
        },
        FlowEventView::Controls(_) => {
            lemma_arrived(request, FlowView { prompt: flow.prompt + 1, ..flow });
        },
        _ => {},
    }
}

/// The message of the user goes to the agent exactly once, and only where there is one: everything
/// else that goes to the agent is a configured prompt.
pub proof fn the_message_is_sent_once(trace: FlowTrace, request: FlowRequestView, index: int)
    requires
        trace.is_run(request),
        0 <= index < trace.events.len(),
        trace.actions[index] is Prompt,
    ensures
        trace.sends(index) <==> request.resume_message is None || index != message_step(request),
{
    assert(trace.took(request, index));
    lemma_run_stays_inside(trace, request, index);
    let flow = trace.flows[index];
    lemma_arrived(request, flow);
    match trace.events[index] {
        FlowEventView::Session(info) => {
            lemma_arrived(request, FlowView { session: Some(info), ..flow });
        },
        FlowEventView::Controls(_) => {
            lemma_arrived(request, FlowView { prompt: flow.prompt + 1, ..flow });
        },
        _ => {},
    }
    assert(flow.phase is Confirming || flow.phase is ResumeSaving);
    if index >= resumed_after(request) {
        lemma_resumes_once(trace, request, index);
    }
    if request.resume_message is Some && index <= message_step(request) {
        the_message_goes_to_the_agent_first(trace, request, index);
        assert(trace.took(request, 0));
        if index >= 2 {
            assert(trace.took(request, 1));
        }
        if index >= 3 {
            assert(trace.took(request, 2));
        }
    }
    if request.resume_message is None && index < message_step(request) {
        assert(trace.took(request, 0));
        if index >= 1 {
            assert(trace.took(request, 1));
        }
        if index >= 2 {
            assert(trace.took(request, 2));
        }
    }
}

/// On a request to stop, the configured notification command is run with its arguments rendered for
/// the item at which the run stops and for the message of the request. Where no command is
/// configured, or an argument does not render, the run stops at once, with the reason in its state.
pub proof fn stops_notify_about_their_item(
    trace: FlowTrace,
    request: FlowRequestView,
    at: int,
    message: Seq<char>,
    variables: JsonView,
)
    requires
        trace.is_run(request),
        0 <= at < trace.events.len(),
        !(trace.flows[at].phase is Ended),
        stop_request(request, trace.flows[at], trace.events[at]) matches Some(control) && (
        control matches ControlEventView::Notify { message: m, .. } ==> m == message) && (
        control matches ControlEventView::Halt { message: m, .. } ==> m == message),
        speaks_of(
            variables,
            request.items[trace.flows[at].item],
            request.repo_root,
            Some(message),
        ),
    ensures
        0 <= trace.flows[at].item < request.items.len(),
        match request.config.notify {
            Some(NotifyConfigView { command: Some(command) }) => {
                if command.len() == 0 {
                    &&& trace.actions[at] matches FlowActionView::Stop { state, .. }
                    &&& state.last_error == Some("notify.command is empty"@)
                } else if forall|i: int|
                    0 <= i < command.len() ==> strictly_rendered(
                        #[trigger] command[i],
                        variables,
                    ) is Some {
                    &&& trace.actions[at] matches FlowActionView::Notify { argv }
                    &&& argv.len() == command.len()
                    &&& forall|i: int|
                        0 <= i < command.len() ==> strictly_rendered(
                            #[trigger] command[i],
                            variables,
                        ) == Some(argv[i])
                } else {
                    &&& trace.actions[at] matches FlowActionView::Stop { state, .. }
                    &&& state.last_error matches Some(error)
                    &&& exists|i: int|
                        0 <= i < command.len() && strictly_rendered(
                            #[trigger] command[i],
                            variables,
                        ) is None && error == "failed to render notify.command argv element "@
                            + debug_quoted(command[i]) && forall|j: int|
                            0 <= j < i ==> strictly_rendered(
                                #[trigger] command[j],
                                variables,
                            ) is Some
                }
            },
            _ => {
                &&& trace.actions[at] matches FlowActionView::Stop { state, .. }
                &&& state.last_error is None
            },
        },
{
    lemma_run_stays_inside(trace, request, at);
    assert(trace.took(request, at));
    let item = request.items[trace.flows[at].item];
    notifications_run_the_rendered_command(
        request.config.notify,
        item,
        request.repo_root,
        Some(message),
        message,
        variables,
    );
}

/// What went wrong with the notification command is what the state of the stopped run tells, and
/// nothing is told where nothing went wrong.
pub proof fn notification_errors_are_kept(
    trace: FlowTrace,
    request: FlowRequestView,
    at: int,
    report: Option<Seq<char>>,
)
    requires
        trace.is_run(request),
        0 <= at,
        at + 1 < trace.events.len(),
        trace.actions[at] is Notify,
        trace.events[at + 1] == FlowEventView::Notified(report),
    ensures
        trace.actions[at + 1] matches FlowActionView::Stop { state, .. } && state.last_error
            == report,
{
    assert(trace.took(request, at));
    assert(trace.took(request, at + 1));
    lemma_run_stays_inside(trace, request, at);
    let flow = trace.flows[at];
    lemma_arrived(request, flow);
    match trace.events[at] {
        FlowEventView::Session(info) => {
            lemma_arrived(request, FlowView { session: Some(info), ..flow });
        },
        FlowEventView::Controls(_) => {
            lemma_arrived(request, FlowView { prompt: flow.prompt + 1, ..flow });
        },
        _ => {},
    }
}

proof fn lemma_first_equal(items: Seq<LoopItemView>, index: int, from: int)
    requires
        0 <= from <= index < items.len(),
        forall|i: int, j: int| 0 <= i < j < items.len() ==> items[i] != items[j],
    ensures
        first_equal(items, items[index], from) == Some(index),
    decreases index - from,
{
    if from < index {
        lemma_first_equal(items, index, from + 1);
    }
}

/// The state of a run that stops: it holds the request, named after the item of the run. A halted run
/// stands at the prompt that was sent last, or at the first one where none was. A paused run stands at
/// the prompt that comes next: in its item, or at the beginning of the next item, or behind the last
/// prompt of the last item. The session of the run is kept.
pub proof fn stops_leave_their_place(
    trace: FlowTrace,
    request: FlowRequestView,
    at: int,
    index: int,
    message: Seq<char>,
)
    requires
        trace.is_run(request),
        0 <= at <= index < trace.events.len(),
        !(trace.flows[at].phase is Ended),
        stop_request(request, trace.flows[at], trace.events[at]) matches Some(control) && (
        control matches ControlEventView::Notify { message: m, .. } ==> m == message) && (
        control matches ControlEventView::Halt { message: m, .. } ==> m == message),
        trace.actions[index] is Stop,
        forall|i: int, j: int| 0 <= i < j < request.items.len() ==> request.items[i] != request.items[j],
    ensures
        ({
            let flow = trace.flows[at];
            let item = request.items[flow.item];
            let prompts = request.config.prompts;
            let sent = trace.actions[index]->Stop_state;
            let next: int = if flow.phase is Leaving {
                flow.prompt + 1
            } else {
                flow.prompt
            };
            &&& 0 <= flow.item < request.items.len()
            &&& trace.actions[index]->Stop_item_id == item.item_id
            &&& stop_request(request, flow, trace.events[at])->0 is Halt ==> {
                &&& is_of_run(sent, request, RunStatus::Halted)
                &&& sent.pending_control == Some(
                    ControlEventView::Halt {
                        message,
                        item_id: Some(item.item_id),
                        counter: Some(item.counter),
                    },
                )
                &&& next > 0 ==> names_place(sent.current, item, next - 1, prompts, flow.session)
                &&& next == 0 ==> names_place(sent.current, item, 0, prompts, flow.session)
            }
            &&& stop_request(request, flow, trace.events[at])->0 is Notify ==> {
                &&& is_of_run(sent, request, RunStatus::Paused)
                &&& sent.pending_control == Some(
                    ControlEventView::Notify {
                        message,
                        item_id: Some(item.item_id),
                        counter: Some(item.counter),
                    },
                )
                &&& next < prompts.len() ==> names_place(
                    sent.current,
                    item,
                    next,
                    prompts,
                    flow.session,
                )
                &&& next >= prompts.len() && flow.item + 1 < request.items.len() ==> names_place(
                    sent.current,
                    request.items[flow.item + 1],
                    0,
                    prompts,
                    flow.session,
                )
                &&& next >= prompts.len() && flow.item + 1 == request.items.len() ==> names_place(
                    sent.current,
                    item,
                    next,
                    prompts,
                    flow.session,
                )
            }
        }),
{
    lemma_run_stays_inside(trace, request, at);
    a_request_stops_the_run(trace, request, at, index);
    lemma_first_equal(request.items, trace.flows[at].item, 0);
}

/// The records of a run that stops: one for each control event that has come, in order, one for what
/// went wrong with the notification, where something did, and the change of status last.
pub proof fn stops_leave_their_records(
    observed: Seq<ControlEventView>,
    event: ControlEventView,
    report: Option<Seq<char>>,
)
    ensures
        ({
            let outputs = stop_outputs(observed, event, report);
            &&& forall|i: int|
                0 <= i < observed.len() ==> #[trigger] outputs[i] == control_event_view(observed[i])
            &&& report is None ==> outputs.len() == observed.len() + 1
            &&& report matches Some(error) ==> outputs.len() == observed.len() + 2
                && outputs[observed.len() as int].member("kind"@) == Some(JsonView::Text("error"@))
                && outputs[observed.len() as int].member("message"@) == Some(JsonView::Text(error))
            &&& event is Halt ==> outputs.last() == transition_view(
                RunStatus::Running,
                RunStatus::Halted,
                "halt"@,
            )
            &&& event is Notify ==> outputs.last() == transition_view(
                RunStatus::Running,
                RunStatus::Paused,
                "notify"@,
            )
        }),
{
    reveal_strlit("kind");
    reveal_strlit("message");
    assert("kind"@.len() != "message"@.len());
}

proof fn lemma_completion(request: FlowRequestView, flow: FlowView)
    requires
        0 <= request.start_item < request.items.len(),
    ensures
        arrived(request, flow).1 is Drain || (arrived(request, flow).1
            matches FlowActionView::Complete { item_id, outputs, state } && {
            &&& item_id == request.items.last().item_id
            &&& outputs.len() == 1
            &&& outputs[0] == transition_view(RunStatus::Running, RunStatus::Completed, "completed"@)
            &&& is_of_run(state, request, RunStatus::Completed)
            &&& names_place(
                state.current,
                request.items[request.start_item],
                if request.config.prompts.len() > 0 {
                    request.config.prompts.len() - 1
                } else {
                    0
                },
                request.config.prompts,
                None,
            )
            &&& state.pending_control is None
            &&& state.last_error is None
        }),
    decreases request.items.len() - flow.item,
{
    if flow.item < request.items.len() && flow.prompt >= request.config.prompts.len() {
        lemma_completion(
            request,
            FlowView { item: flow.item + 1, prompt: 0, session: None, force_new: true, ..flow },
        );
    }
}

/// A run that has done everything says so in the outputs of its last item, and leaves a state without
/// a session, a request or an error, at the last prompt and with the item that the run started with.
pub proof fn completed_runs_say_so(trace: FlowTrace, request: FlowRequestView, index: int)
    requires
        trace.is_run(request),
        0 <= index < trace.events.len(),
        trace.actions[index] is Complete,
    ensures
        trace.actions[index] matches FlowActionView::Complete { item_id, outputs, state } && {
            &&& item_id == request.items.last().item_id
            &&& outputs.len() == 1
            &&& outputs[0] == transition_view(RunStatus::Running, RunStatus::Completed, "completed"@)
            &&& is_of_run(state, request, RunStatus::Completed)
            &&& names_place(
                state.current,
                request.items[request.start_item],
                if request.config.prompts.len() > 0 {
                    request.config.prompts.len() - 1
                } else {
                    0
                },
                request.config.prompts,
                None,
            )
            &&& state.pending_control is None
            &&& state.last_error is None
        },
{
    assert(trace.took(request, index));
    let flow = trace.flows[index];
    lemma_completion(request, flow);
    match trace.events[index] {
        FlowEventView::Session(info) => {
            lemma_completion(request, FlowView { session: Some(info), ..flow });
        },
        FlowEventView::Controls(_) => {
            lemma_completion(request, FlowView { prompt: flow.prompt + 1, ..flow });
        },
        _ => {},
    }
}

/// A run that fails keeps the place and the request of the state that it saved last, and otherwise
/// stands where it started. The state tells the error, and the change of status goes to the outputs of
/// the item that the state names.
pub proof fn failed_runs_say_why(
    request: FlowRequestView,
    previous: Option<StateView>,
    item: LoopItemView,
    error: Seq<char>,
)
    requires
        0 <= request.start_prompt,
    ensures
        failed_stop(request, previous, item, error) matches FlowActionView::Stop {
            item_id,
            outputs,
            state,
        } && {
            &&& item_id == state.current.item_id
            &&& outputs.len() == 1
            &&& outputs[0] == transition_view(RunStatus::Running, RunStatus::Failed, "error"@)
            &&& is_of_run(state, request, RunStatus::Failed)
            &&& state.last_error == Some(error)
            &&& previous is Some && previous->0.run_id == request.run_id ==> state.current
                == previous->0.current && state.pending_control == previous->0.pending_control
            &&& previous is None || previous->0.run_id != request.run_id ==> names_place(
                state.current,
                item,
                request.start_prompt,
                request.config.prompts,
                None,
            ) && state.pending_control is None
        },
{
}

/// A run starts at its first item and its first prompt, without a session. It gets a new session
/// before its first prompt exactly where it resumes at the beginning of an item.
pub proof fn runs_begin_where_they_are_told(request: FlowRequestView)
    ensures
        ({
            let flow = fresh_flow(request);
            &&& flow.item == request.start_item
            &&& flow.prompt == request.start_prompt
            &&& flow.session is None
            &&& flow.force_new <==> request.resume_session is Some && request.start_prompt == 0
            &&& flow.phase is Fresh
        }),
{
}

/// Whether a flow has only gone on to another phase.
pub open spec fn only_moves(before: FlowView, after: FlowView) -> bool {
    after.item == before.item && after.prompt == before.prompt && after.session == before.session
        && after.force_new == before.force_new
}

/// What is done between a resumption and the first prompt: the change of status is recorded first,
/// then the resumed session is looked at, and the run has that session from then on.
pub proof fn resumptions_look_at_their_session(
    request: FlowRequestView,
    flow: FlowView,
    info: SessionInfoView,
)
    requires
        request.resume_session is Some,
        0 <= flow.prompt,
        flow.item < request.items.len(),
    ensures
        flow.phase is Fresh ==> (flow_next(request, flow, FlowEventView::Done) matches Ok(
            (after, FlowActionView::Output { item_id, record }),
        ) && after.phase is Announcing && only_moves(flow, after) && item_id
            == request.items[flow.item].item_id && record == transition_view(
            request.resume_session->0.status,
            RunStatus::Running,
            "resume"@,
        )),
        flow.phase is Announcing ==> (flow_next(request, flow, FlowEventView::Done) matches Ok(
            (after, FlowActionView::OpenSession { item_id, prompt_id, fresh, reason }),
        ) && after.phase is Resuming && only_moves(flow, after) && item_id
            == request.items[flow.item].item_id && !fresh && reason == "resume"@ && (flow.prompt
            < request.config.prompts.len() ==> prompt_id
            == request.config.prompts[flow.prompt].id) && (flow.prompt
            >= request.config.prompts.len() ==> prompt_id == "<complete>"@)),
        flow.phase is Resuming && request.resume_message is Some ==> (flow_next(
            request,
            flow,
            FlowEventView::Session(info),
        ) matches Ok((after, FlowActionView::Save(state))) && after.phase is ResumeSaving
            && after.item == flow.item && after.prompt == flow.prompt && after.session == Some(info)
            && after.force_new == flow.force_new),
        flow.phase is Resuming && request.resume_message is None && flow.prompt
            < request.config.prompts.len() ==> (flow_next(
            request,
            flow,
            FlowEventView::Session(info),
        ) matches Ok((after, FlowActionView::Drain)) && after.phase is Arriving && after.item
            == flow.item && after.prompt == flow.prompt && after.session == Some(info)
            && after.force_new == flow.force_new),
{
}

/// A run that does not resume saves its state for the message of the user, and otherwise asks at once
/// for control events before its first prompt.
pub proof fn new_runs_turn_to_their_first_prompt(request: FlowRequestView, flow: FlowView)
    requires
        request.resume_session is None,
        flow.phase is Fresh,
        0 <= flow.prompt,
        flow.item < request.items.len(),
    ensures
        request.resume_message is Some ==> (flow_next(request, flow, FlowEventView::Done) matches Ok(
            (after, FlowActionView::Save(state)),
        ) && after.phase is ResumeSaving && only_moves(flow, after) && is_at_work(
            state,
            request,
            flow.item,
            flow.prompt,
            flow.session,
        )),
        request.resume_message is None && flow.prompt < request.config.prompts.len() ==> (flow_next(
            request,
            flow,
            FlowEventView::Done,
        ) matches Ok((after, FlowActionView::Drain)) && after.phase is Arriving && only_moves(
            flow,
            after,
        )),
{
}

/// The steps of a run around the message of the user.
pub proof fn the_message_is_followed_by_the_prompts(
    request: FlowRequestView,
    flow: FlowView,
    message: Seq<char>,
    events: Seq<ControlEventView>,
)
    requires
        0 <= flow.prompt,
        flow.item < request.items.len(),
    ensures
        flow.phase is ResumeSaving && request.resume_message == Some(message) ==> (flow_next(
            request,
            flow,
            FlowEventView::Done,
        ) matches Ok((after, FlowActionView::Prompt { item_id, prompt_index, label, text }))
            && after.phase is ResumePrompting && only_moves(flow, after) && item_id
            == request.items[flow.item].item_id && prompt_index == flow.prompt && label
            == "resume-message"@ && text == message),
        flow.phase is ResumePrompting ==> (flow_next(request, flow, FlowEventView::Done) matches Ok(
            (after, FlowActionView::Drain),
        ) && after.phase is ResumeDraining && only_moves(flow, after)),
        flow.phase is ResumeDraining && stop_request(
            request,
            flow,
            FlowEventView::Controls(events),
        ) is None && flow.prompt < request.config.prompts.len() ==> (flow_next(
            request,
            flow,
            FlowEventView::Controls(events),
        ) matches Ok((after, FlowActionView::Drain)) && after.phase is Arriving && only_moves(
            flow,
            after,
        )),
{
}

/// Before a prompt, a run gets the session of the prompt: a new one where the item begins or the
/// prompt asks for one, the one that the agent has where the run knows of none, and otherwise none
/// but its own.
pub proof fn prompts_get_their_session(
    request: FlowRequestView,
    flow: FlowView,
    events: Seq<ControlEventView>,
    info: SessionInfoView,
)
    requires
        0 <= flow.prompt < request.config.prompts.len(),
        flow.item < request.items.len(),
        stop_request(request, flow, FlowEventView::Controls(events)) is None,
    ensures
        flow.phase is Arriving ==> ({
            let prompt = request.config.prompts[flow.prompt];
            let step = flow_next(request, flow, FlowEventView::Controls(events));
            &&& flow.force_new || (flow.session is Some && prompt.new_session) ==> (step matches Ok(
                (after, FlowActionView::OpenSession { item_id, prompt_id, fresh, reason }),
            ) && after.phase is Opening && only_moves(flow, after) && item_id
                == request.items[flow.item].item_id && prompt_id == prompt.id && fresh && reason
                == "new_session"@)
            &&& !flow.force_new && flow.session is None ==> (step matches Ok(
                (after, FlowActionView::OpenSession { item_id, prompt_id, fresh, reason }),
            ) && after.phase is Opening && only_moves(flow, after) && item_id
                == request.items[flow.item].item_id && prompt_id == prompt.id && !fresh && reason
                == "initial"@)
            &&& !flow.force_new && flow.session is Some && !prompt.new_session ==> (step matches Ok(
                (after, FlowActionView::Save(state)),
            ) && after.phase is Saving && only_moves(flow, after) && is_at_work(
                state,
                request,
                flow.item,
                flow.prompt,
                flow.session,
            ))
        }),
        flow.phase is Opening ==> (flow_next(request, flow, FlowEventView::Session(info)) matches Ok(
            (after, FlowActionView::Save(state)),
        ) && after.phase is Saving && after.item == flow.item && after.prompt == flow.prompt
            && after.session == Some(info) && !after.force_new && is_at_work(
            state,
            request,
            flow.item,
            flow.prompt,
            Some(info),
        )),
{
}

/// A prompt is saved, rendered, recorded and sent, with a look at the control events between any two
/// of these; a prompt that does not render ends the run.
pub proof fn prompts_are_recorded_and_sent(
    request: FlowRequestView,
    flow: FlowView,
    events: Seq<ControlEventView>,
    text: Seq<char>,
    variables: JsonView,
)
    requires
        0 <= flow.prompt < request.config.prompts.len(),
        flow.item < request.items.len(),
        stop_request(request, flow, FlowEventView::Controls(events)) is None,
        speaks_of(variables, request.items[flow.item], request.repo_root, None),
    ensures
        flow.phase is Saving ==> (flow_next(request, flow, FlowEventView::Done) matches Ok(
            (after, FlowActionView::Drain),
        ) && after.phase is Checking && only_moves(flow, after)),
        flow.phase is Checking && strictly_rendered(
            request.config.prompts[flow.prompt].text,
            variables,
        ) is None ==> flow_next(request, flow, FlowEventView::Controls(events)) == Err::<
            (FlowView, FlowActionView),
            Failure<Seq<char>>,
        >(Failure::Render),
        flow.phase is Checking && strictly_rendered(
            request.config.prompts[flow.prompt].text,
            variables,
        ) == Some(text) ==> (flow_next(request, flow, FlowEventView::Controls(events)) matches Ok(
            (after, FlowActionView::Record { item_id, record }),
        ) && after.phase == (FlowPhaseView::Recording { text }) && only_moves(flow, after)
            && item_id == request.items[flow.item].item_id && record == prompt_record_view(
            request.run_id,
            request.items[flow.item],
            flow.prompt,
            request.config.prompts[flow.prompt].id,
            flow.session,
            text,
        )),
        flow.phase == (FlowPhaseView::Recording { text }) ==> (flow_next(
            request,
            flow,
            FlowEventView::Done,
        ) matches Ok((after, FlowActionView::Drain)) && after.phase == (
        FlowPhaseView::Confirming { text }) && only_moves(flow, after)),
        flow.phase == (FlowPhaseView::Confirming { text }) ==> (flow_next(
            request,
            flow,
            FlowEventView::Controls(events),
        ) matches Ok((after, action)) && after.phase is Prompting && only_moves(flow, after)
            && action == (FlowActionView::Prompt {
            item_id: request.items[flow.item].item_id,
            prompt_index: flow.prompt,
            label: request.config.prompts[flow.prompt].id,
            text,
        })),
        flow.phase is Prompting ==> (flow_next(request, flow, FlowEventView::Done) matches Ok(
            (after, FlowActionView::Drain),
        ) && after.phase is Leaving && only_moves(flow, after)),
{
    prompts_are_rendered_for_their_item(request, flow, variables);
}

/// A run that leaves a prompt without a request to stop turns to the next prompt of its item, or to
/// the first prompt of the next item, which has no session yet and gets a new one, or completes.
pub proof fn prompts_are_followed_by_the_next(
    request: FlowRequestView,
    flow: FlowView,
    events: Seq<ControlEventView>,
)
    requires
        0 <= flow.prompt < request.config.prompts.len(),
        0 <= flow.item < request.items.len(),
        flow.phase is Leaving,
        stop_request(request, flow, FlowEventView::Controls(events)) is None,
        flow.pause(request) is Ok,
    ensures
        flow_next(request, flow, FlowEventView::Controls(events)) matches Ok((after, action)) && {
            &&& flow.prompt + 1 < request.config.prompts.len() ==> after.phase is Arriving && action
                is Drain && after.item == flow.item && after.prompt == flow.prompt + 1
                && after.session == flow.session && after.force_new == flow.force_new
            &&& flow.prompt + 1 == request.config.prompts.len() && flow.item + 1
                < request.items.len() ==> after.phase is Arriving && action is Drain && after.item
                == flow.item + 1 && after.prompt == 0 && after.session is None && after.force_new
            &&& flow.prompt + 1 == request.config.prompts.len() && flow.item + 1
                == request.items.len() ==> after.phase is Ended && action is Complete
        },
{
    reveal_with_fuel(arrived, 3);
}

/// A request to stop is a control event that has come, or else the pause of the prompt that the run
/// leaves.
pub proof fn pauses_stop_the_run(
    request: FlowRequestView,
    flow: FlowView,
    pause: ControlEventView,
)
    requires
        flow.phase is Leaving,
        flow.pause(request) == Ok::<Option<ControlEventView>, Failure<Seq<char>>>(Some(pause)),
    ensures
        stop_request(request, flow, FlowEventView::Controls(Seq::empty())) == Some(pause),
{
}

/// An error in the pause of a prompt ends the run, unless a control event has come.
pub proof fn pauses_that_fail_end_the_run(
    request: FlowRequestView,
    flow: FlowView,
    events: Seq<ControlEventView>,
    failure: Failure<Seq<char>>,
)
    requires
        flow.phase is Leaving,
        events.len() == 0,
        flow.pause(request) == Err::<Option<ControlEventView>, Failure<Seq<char>>>(failure),
    ensures
        flow_next(request, flow, FlowEventView::Controls(events)) == Err::<
            (FlowView, FlowActionView),
            Failure<Seq<char>>,
        >(failure),
{
}

/// A request is named after the item at which the run stops, and keeps its kind and its message.
pub proof fn requests_are_named_after_the_item(
    message: Seq<char>,
    item_id: Option<Seq<char>>,
    counter: Option<i64>,
    item: LoopItemView,
)
    ensures
        event_for_item(ControlEventView::Notify { message, item_id, counter }, item) == (
        ControlEventView::Notify {
            message,
            item_id: Some(item.item_id),
            counter: Some(item.counter),
        }),
        event_for_item(ControlEventView::Halt { message, item_id, counter }, item) == (
        ControlEventView::Halt {
            message,
            item_id: Some(item.item_id),
            counter: Some(item.counter),
        }),
{
}

/// The prompt after a stop is the next one exactly where one was sent.
pub proof fn stops_go_on_after_the_prompt_that_was_sent(flow: FlowView)
    ensures
        flow.phase is Leaving ==> prompt_after_stop(flow) == flow.prompt + 1,
        !(flow.phase is Leaving) ==> prompt_after_stop(flow) == flow.prompt,
{
}

/// An event that does not answer what a flow waits for ends the run with an error.
pub proof fn other_events_are_refused(
    request: FlowRequestView,
    flow: FlowView,
    event: FlowEventView,
)
    requires
        !(flow.phase is Ended),
        event is Done ==> !(flow.phase is Fresh || flow.phase is Announcing || flow.phase
            is ResumeSaving || flow.phase is ResumePrompting || flow.phase is Saving || flow.phase
            is Recording || flow.phase is Prompting),
        event is Session ==> !(flow.phase is Resuming || flow.phase is Opening),
        event is Controls ==> !(flow.phase is ResumeDraining || flow.phase is Arriving
            || flow.phase is Checking || flow.phase is Confirming || flow.phase is Leaving),
        event is Notified ==> !(flow.phase is Notifying),
    ensures
        flow_next(request, flow, event) == Err::<(FlowView, FlowActionView), Failure<Seq<char>>>(
            Failure::Told("the event does not answer the last action"@),
        ),
{
}

} // verus!

//! What holds of every run, whatever the agent and the user do.

use vstd::prelude::*;

use crate::config::config_accepted;
use crate::control::{drained, event_for_item};
use crate::error::{ErrorView, Failure};
use crate::flow::{
    arrived, flow_next, fresh_flow, stop_outputs, stop_state, FlowActionView, FlowEventView,
    FlowPhaseView, FlowView,
};
use crate::laws::accepted_runs_render;
use crate::loop_spec::{planned_items, LoopItemView};
use crate::records::{prompt_record_view, transition_view};
use crate::rpc::SessionInfoView;
use crate::runner::{completed_view, openable, FlowRequestView};
use crate::state::{ControlEventView, RunStatus};

verus! {

/// A run up to some step: the flow before each event and after the last one, the events, and the
/// actions that followed them.
pub struct FlowTrace {
    pub flows: Seq<FlowView>,
    pub events: Seq<FlowEventView>,
    pub actions: Seq<FlowActionView>,
}

impl FlowTrace {
    /// Whether the flow took the step with the given index.
    pub open spec fn took(self, request: FlowRequestView, index: int) -> bool {
        flow_next(request, self.flows[index], self.events[index]) == Ok::<
            (FlowView, FlowActionView),
            Failure<Seq<char>>,
        >((self.flows[index + 1], self.actions[index]))
    }

    /// Whether this is the beginning of a run of the request.
    pub open spec fn is_run(self, request: FlowRequestView) -> bool {
        &&& 0 <= request.start_item < request.items.len()
        &&& 0 <= request.start_prompt
        &&& self.flows.len() == self.events.len() + 1
        &&& self.actions.len() == self.events.len()
        &&& self.flows[0] == fresh_flow(request)
        &&& forall|index: int|
            0 <= index < self.events.len() ==> #[trigger] self.took(request, index)
    }

    /// Whether the action with the given index sends a configured prompt to the agent.
    pub open spec fn sends(self, index: int) -> bool {
        self.actions[index] is Prompt && self.flows[index].phase is Confirming
    }

    /// How many configured prompts the first steps have sent to the agent.
    pub open spec fn sent(self, steps: int) -> int
        decreases steps,
    {
        if steps <= 0 {
            0
        } else if self.sends(steps - 1) {
            self.sent(steps - 1) + 1
        } else {
            self.sent(steps - 1)
        }
    }
}

/// The place of a position among all prompts of all items, counted from zero. The end of an item is
/// the place of the next item's first prompt.
pub open spec fn place(request: FlowRequestView, item: int, prompt: int) -> int {
    let count = request.config.prompts.len() as int;
    item * count + (if prompt < count { prompt } else { count })
}

/// The end of an item has the place of the first prompt of the next item.
pub proof fn lemma_next_item(request: FlowRequestView, item: int)
    ensures
        place(request, item, request.config.prompts.len() as int) == place(request, item + 1, 0),
{
    let count = request.config.prompts.len() as int;
    assert((item + 1) * count == item * count + count) by (nonlinear_arith);
}

/// Where a flow comes to when it turns to its position.
pub proof fn lemma_arrived(request: FlowRequestView, flow: FlowView)
    requires
        0 <= flow.prompt,
        flow.item <= request.items.len(),
    ensures
        ({
            let (after, action) = arrived(request, flow);
            if after.item >= request.items.len() {
                &&& after.phase is Ended
                &&& action is Complete
                &&& after.item == request.items.len()
                &&& after.prompt == flow.prompt || after.prompt == 0
                &&& flow.item < request.items.len() ==> place(request, flow.item, flow.prompt)
                    == place(request, after.item, 0)
            } else {
                &&& after.phase is Arriving
                &&& action is Drain
                &&& flow.item <= after.item
                &&& 0 <= after.prompt < request.config.prompts.len()
                &&& place(request, after.item, after.prompt) == place(
                    request,
                    flow.item,
                    flow.prompt,
                )
                &&& after.item == flow.item ==> after == (FlowView { phase: after.phase, ..flow })
                &&& after.item > flow.item ==> after.prompt == 0 && after.force_new
                    && after.session is None
            }
        }),
    decreases request.items.len() - flow.item,
{
    if flow.item < request.items.len() && flow.prompt >= request.config.prompts.len() {
        let next = FlowView {
            item: flow.item + 1,
            prompt: 0,
            session: None,
            force_new: true,
            ..flow
        };
        lemma_next_item(request, flow.item);
        lemma_arrived(request, next);
    }
}

/// What is known of the flow after each step of a run.
spec fn keeps(request: FlowRequestView, flow: FlowView, sent: int) -> bool {
    let start = place(request, request.start_item, request.start_prompt);
    let here = place(request, flow.item, flow.prompt);
    &&& flow.wf(request)
    &&& match flow.phase {
        FlowPhaseView::Fresh
        | FlowPhaseView::Announcing
        | FlowPhaseView::Resuming
        | FlowPhaseView::ResumeSaving
        | FlowPhaseView::ResumePrompting
        | FlowPhaseView::ResumeDraining => {
            &&& sent == 0
            &&& flow.force_new == (request.resume_session is Some && request.start_prompt == 0)
        },
        FlowPhaseView::Arriving => {
            &&& here == start + sent
            &&& flow.prompt == 0 && (flow.item > request.start_item || (request.start_prompt == 0
                && request.resume_session is Some)) ==> flow.force_new
        },
        FlowPhaseView::Opening => here == start + sent,
        FlowPhaseView::Saving | FlowPhaseView::Checking => {
            &&& here == start + sent
            &&& flow.session is Some
            &&& !flow.force_new
        },
        FlowPhaseView::Recording { text } | FlowPhaseView::Confirming { text } => {
            &&& here == start + sent
            &&& flow.session is Some
            &&& !flow.force_new
            &&& flow.rendered(request) == Some(text)
        },
        FlowPhaseView::Prompting | FlowPhaseView::Leaving => {
            &&& here + 1 == start + sent
            &&& flow.session is Some
            &&& !flow.force_new
        },
        FlowPhaseView::Notifying { .. } | FlowPhaseView::Ended => true,
    }
}

proof fn lemma_step_keeps(
    request: FlowRequestView,
    flow: FlowView,
    event: FlowEventView,
    after: FlowView,
    action: FlowActionView,
    sent: int,
)
    requires
        keeps(request, flow, sent),
        flow_next(request, flow, event) == Ok::<(FlowView, FlowActionView), Failure<Seq<char>>>(
            (after, action),
        ),
    ensures
        keeps(
            request,
            after,
            if action is Prompt && flow.phase is Confirming {
                sent + 1
            } else {
                sent
            },
        ),
        action is Complete ==> place(request, request.start_item, request.start_prompt) + sent
            == place(request, request.items.len() as int, 0),
{
    lemma_arrived(request, flow);
    match flow.phase {
        FlowPhaseView::Resuming => {
            if let FlowEventView::Session(info) = event {
                lemma_arrived(request, FlowView { session: Some(info), ..flow });
            }
        },
        FlowPhaseView::Leaving => {
            lemma_arrived(request, FlowView { prompt: flow.prompt + 1, ..flow });
        },
        _ => {},
    }
}

proof fn lemma_run_keeps(trace: FlowTrace, request: FlowRequestView, steps: int)
    requires
        trace.is_run(request),
        0 <= steps <= trace.events.len(),
    ensures
        keeps(request, trace.flows[steps], trace.sent(steps)),
    decreases steps,
{
    if steps > 0 {
        lemma_run_keeps(trace, request, steps - 1);
        assert(trace.took(request, steps - 1));
        lemma_step_keeps(
            request,
            trace.flows[steps - 1],
            trace.events[steps - 1],
            trace.flows[steps],
            trace.actions[steps - 1],
            trace.sent(steps - 1),
        );
    }
}

/// The position of a run lies among its items and its prompts, whatever step it has come to.
pub proof fn lemma_run_stays_inside(trace: FlowTrace, request: FlowRequestView, steps: int)
    requires
        trace.is_run(request),
        0 <= steps <= trace.events.len(),
    ensures
        trace.flows[steps].wf(request),
{
    lemma_run_keeps(trace, request, steps);
}

/// The prompts of a run are sent in order, none left out and none twice: the n-th prompt that is
/// sent is the n-th from the place where the run starts, and its text is that prompt rendered for
/// its item.
pub proof fn prompts_are_sent_in_order(trace: FlowTrace, request: FlowRequestView, index: int)
    requires
        trace.is_run(request),
        0 <= index < trace.events.len(),
        trace.sends(index),
    ensures
        ({
            let flow = trace.flows[index];
            &&& 0 <= flow.item < request.items.len()
            &&& 0 <= flow.prompt < request.config.prompts.len()
            &&& place(request, flow.item, flow.prompt) == place(
                request,
                request.start_item,
                request.start_prompt,
            ) + trace.sent(index)
            &&& flow.rendered(request) is Some
            &&& trace.actions[index] == FlowActionView::Prompt {
                item_id: request.items[flow.item].item_id,
                prompt_index: flow.prompt,
                label: request.config.prompts[flow.prompt].id,
                text: flow.rendered(request)->0,
            }
        }),
{
    lemma_run_keeps(trace, request, index);
    assert(trace.took(request, index));
}

/// A run completes only after every prompt of every item from its start on has been sent.
pub proof fn completion_follows_all_prompts(trace: FlowTrace, request: FlowRequestView, index: int)
    requires
        trace.is_run(request),
        0 <= index < trace.events.len(),
        trace.actions[index] is Complete,
    ensures
        place(request, request.start_item, request.start_prompt) + trace.sent(index) == place(
            request,
            request.items.len() as int,
            0,
        ),
{
    lemma_run_keeps(trace, request, index);
    assert(trace.took(request, index));
    lemma_step_keeps(
        request,
        trace.flows[index],
        trace.events[index],
        trace.flows[index + 1],
        trace.actions[index],
        trace.sent(index),
    );
}

/// What a flow that completes leaves.
proof fn lemma_completed(request: FlowRequestView, flow: FlowView)
    ensures
        arrived(request, flow).1 is Drain || arrived(request, flow).1 == (FlowActionView::Complete {
            item_id: request.items.last().item_id,
            outputs: seq![transition_view(RunStatus::Running, RunStatus::Completed, "completed"@)],
            state: completed_view(request, request.items[request.start_item]),
        }),
    decreases request.items.len() - flow.item,
{
    if flow.item < request.items.len() && flow.prompt >= request.config.prompts.len() {
        lemma_completed(
            request,
            FlowView { item: flow.item + 1, prompt: 0, session: None, force_new: true, ..flow },
        );
    }
}

/// Every change of status is recorded: a resumed run first records that it runs again, a run that
/// completes records that, and a run that stops records last that it is paused or halted.
pub proof fn status_changes_are_recorded(trace: FlowTrace, request: FlowRequestView, index: int)
    requires
        trace.is_run(request),
        0 <= index < trace.events.len(),
    ensures
        request.resume_session matches Some(resumption) ==> trace.actions[0]
            == (FlowActionView::Output {
            item_id: request.items[request.start_item].item_id,
            record: transition_view(resumption.status, RunStatus::Running, "resume"@),
        }),
        match trace.actions[index] {
            FlowActionView::Complete { outputs, state, .. } => {
                &&& state.status == RunStatus::Completed
                &&& outputs == seq![
                    transition_view(RunStatus::Running, RunStatus::Completed, "completed"@),
                ]
            },
            FlowActionView::Stop { outputs, state, .. } => {
                &&& outputs.len() > 0
                &&& state.status == RunStatus::Halted && outputs.last() == transition_view(
                    RunStatus::Running,
                    RunStatus::Halted,
                    "halt"@,
                ) || state.status == RunStatus::Paused && outputs.last() == transition_view(
                    RunStatus::Running,
                    RunStatus::Paused,
                    "notify"@,
                )
            },
            _ => true,
        },
{
    assert(trace.took(request, 0));
    assert(trace.took(request, index));
    let flow = trace.flows[index];
    lemma_completed(request, flow);
    match trace.events[index] {
        FlowEventView::Session(info) => {
            lemma_completed(request, FlowView { session: Some(info), ..flow });
        },
        FlowEventView::Controls(_) => {
            lemma_completed(request, FlowView { prompt: flow.prompt + 1, ..flow });
        },
        _ => {},
    }
}

/// Before a prompt goes to the agent, the running state with its position and its session is saved,
/// its text is recorded, and the control events that came meanwhile hold no request to stop.
pub proof fn state_is_saved_before_each_prompt(
    trace: FlowTrace,
    request: FlowRequestView,
    index: int,
)
    requires
        trace.is_run(request),
        0 <= index < trace.events.len(),
        trace.sends(index),
    ensures
        ({
            let flow = trace.flows[index];
            &&& index >= 5
            &&& flow.session is Some
            &&& trace.actions[index - 4] == FlowActionView::Save(flow.running(request))
            &&& trace.actions[index - 3] is Drain
            &&& trace.events[index - 2] matches FlowEventView::Controls(events) && drained(
                events,
                None,
            ) is None
            &&& trace.actions[index - 2] == FlowActionView::Record {
                item_id: request.items[flow.item].item_id,
                record: prompt_record_view(
                    request.run_id,
                    request.items[flow.item],
                    flow.prompt,
                    request.config.prompts[flow.prompt].id,
                    flow.session,
                    flow.rendered(request)->0,
                ),
            }
            &&& trace.actions[index - 1] is Drain
            &&& trace.events[index] matches FlowEventView::Controls(events) && drained(
                events,
                None,
            ) is None
        }),
{
    lemma_run_keeps(trace, request, index);
    assert(trace.took(request, index));
    lemma_previous(trace, request, index);
    lemma_previous(trace, request, index - 1);
    lemma_previous(trace, request, index - 2);
    lemma_previous(trace, request, index - 3);
    lemma_previous(trace, request, index - 4);
}

/// The step that led to a flow.
proof fn lemma_previous(trace: FlowTrace, request: FlowRequestView, index: int)
    requires
        trace.is_run(request),
        0 <= index < trace.events.len(),
        !(trace.flows[index].phase is Fresh),
    ensures
        index >= 1,
        trace.took(request, index - 1),
        trace.flows[index].phase is Confirming ==> trace.flows[index - 1].phase is Recording,
        trace.flows[index].phase is Recording ==> trace.flows[index - 1].phase is Checking,
        trace.flows[index].phase is Checking ==> trace.flows[index - 1].phase is Saving,
        trace.flows[index].phase is Saving ==> trace.flows[index - 1].phase is Opening
            || trace.flows[index - 1].phase is Arriving,
{
    lemma_run_keeps(trace, request, index);
    assert(index != 0);
    assert(trace.took(request, index - 1));
    lemma_run_keeps(trace, request, index - 1);
    let before = trace.flows[index - 1];
    lemma_arrived(request, before);
    match trace.events[index - 1] {
        FlowEventView::Session(info) => {
            lemma_arrived(request, FlowView { session: Some(info), ..before });
        },
        FlowEventView::Controls(_) => {
            lemma_arrived(request, FlowView { prompt: before.prompt + 1, ..before });
        },
        _ => {},
    }
}

/// After the end of a run nothing is done any more.
pub proof fn nothing_follows_the_end(
    trace: FlowTrace,
    request: FlowRequestView,
    end: int,
    index: int,
)
    requires
        trace.is_run(request),
        0 <= end < index < trace.events.len(),
        trace.actions[end] is Stop || trace.actions[end] is Complete,
    ensures
        trace.actions[index] is Rest,
{
    lemma_ended(trace, request, end, index);
    assert(trace.took(request, index));
}

proof fn lemma_ended(trace: FlowTrace, request: FlowRequestView, end: int, index: int)
    requires
        trace.is_run(request),
        0 <= end < index <= trace.events.len(),
        trace.actions[end] is Stop || trace.actions[end] is Complete,
    ensures
        trace.flows[index].phase is Ended,
    decreases index,
{
    assert(trace.took(request, index - 1));
    lemma_run_keeps(trace, request, index - 1);
    let before = trace.flows[index - 1];
    if index - 1 > end {
        lemma_ended(trace, request, end, index - 1);
    } else {
        lemma_arrived(request, before);
        match trace.events[index - 1] {
            FlowEventView::Session(info) => {
                lemma_arrived(request, FlowView { session: Some(info), ..before });
            },
            FlowEventView::Controls(_) => {
                lemma_arrived(request, FlowView { prompt: before.prompt + 1, ..before });
            },
            _ => {},
        }
    }
}

/// The request to stop that a flow gets with an event: a control event that has come, or else the
/// pause of the prompt that is being left.
pub open spec fn stop_request(
    request: FlowRequestView,
    flow: FlowView,
    event: FlowEventView,
) -> Option<ControlEventView> {
    match event {
        FlowEventView::Controls(events) => match drained(events, None) {
            Some(control) => Some(control),
            None => match (flow.phase, flow.pause(request)) {
                (FlowPhaseView::Leaving, Ok(pause)) => pause,
                _ => None,
            },
        },
        _ => None,
    }
}

/// The prompt that follows a request to stop: the next one where a prompt has been sent, and
/// otherwise the one that is still to be sent.
pub open spec fn prompt_after_stop(flow: FlowView) -> int {
    if flow.phase is Leaving {
        flow.prompt + 1
    } else {
        flow.prompt
    }
}

/// On a request to stop, a run that has not ended only notifies and ends: the agent gets nothing
/// more. The control events that have come are recorded as they came. The state that is left then
/// holds the request, named after the item; a halt leaves the run halted and a notification leaves it
/// paused.
pub proof fn a_request_stops_the_run(
    trace: FlowTrace,
    request: FlowRequestView,
    at: int,
    index: int,
)
    requires
        trace.is_run(request),
        0 <= at <= index < trace.events.len(),
        !(trace.flows[at].phase is Ended),
        stop_request(request, trace.flows[at], trace.events[at]) is Some,
    ensures
        ({
            let flow = trace.flows[at];
            let control = event_for_item(
                stop_request(request, flow, trace.events[at])->0,
                request.items[flow.item],
            );
            match trace.actions[index] {
                FlowActionView::Notify { .. } => index == at,
                FlowActionView::Stop { item_id, outputs, state } => {
                    &&& index <= at + 1
                    &&& item_id == request.items[flow.item].item_id
                    &&& outputs == stop_outputs(
                        trace.events[at]->Controls_0,
                        control,
                        state.last_error,
                    )
                    &&& state == stop_state(
                        request,
                        flow,
                        control,
                        prompt_after_stop(flow),
                        state.last_error,
                    )
                    &&& state.pending_control == Some(control)
                    &&& state.status == (if control is Halt {
                        RunStatus::Halted
                    } else {
                        RunStatus::Paused
                    })
                },
                FlowActionView::Rest => index > at,
                _ => false,
            }
        }),
{
    lemma_run_keeps(trace, request, at);
    assert(trace.took(request, at));
    if index > at {
        if trace.actions[at] is Stop {
            nothing_follows_the_end(trace, request, at, index);
        } else {
            assert(trace.took(request, at + 1));
            assert(trace.actions[at + 1] is Stop);
            if index > at + 1 {
                nothing_follows_the_end(trace, request, at + 1, index);
            }
        }
    }
}

/// The first prompt of an item that follows another gets a session of its own, and so does the first
/// prompt of the item at which a run resumes.
pub proof fn items_get_their_own_sessions(trace: FlowTrace, request: FlowRequestView, index: int)
    requires
        trace.is_run(request),
        0 <= index < trace.events.len(),
        trace.flows[index].phase is Arriving,
        trace.flows[index].prompt == 0,
        trace.flows[index].item > request.start_item || request.resume_session is Some,
        stop_request(request, trace.flows[index], trace.events[index]) is None,
    ensures
        trace.actions[index] == (FlowActionView::OpenSession {
            item_id: request.items[trace.flows[index].item].item_id,
            prompt_id: request.config.prompts[0].id,
            fresh: true,
            reason: "new_session"@,
        }),
{
    lemma_run_keeps(trace, request, index);
    assert(trace.took(request, index));
    let flow = trace.flows[index];
    if flow.item == request.start_item && request.start_prompt > 0 {
        lemma_sent_counts(trace, index);
    }
}

/// A prompt that asks for a new session gets one, unless the run is still without any.
pub proof fn prompts_get_the_sessions_they_ask_for(
    trace: FlowTrace,
    request: FlowRequestView,
    index: int,
)
    requires
        trace.is_run(request),
        0 <= index < trace.events.len(),
        trace.flows[index].phase is Arriving,
        trace.flows[index].session is Some,
        request.config.prompts[trace.flows[index].prompt].new_session,
        stop_request(request, trace.flows[index], trace.events[index]) is None,
    ensures
        trace.actions[index] == (FlowActionView::OpenSession {
            item_id: request.items[trace.flows[index].item].item_id,
            prompt_id: request.config.prompts[trace.flows[index].prompt].id,
            fresh: true,
            reason: "new_session"@,
        }),
{
    lemma_run_keeps(trace, request, index);
    assert(trace.took(request, index));
}

/// What is known of a flow between two prompts: `before` is the flow that sent the first of them.
spec fn comes_after(request: FlowRequestView, before: FlowView, flow: FlowView) -> bool {
    match flow.phase {
        FlowPhaseView::Prompting | FlowPhaseView::Leaving => {
            &&& flow.item == before.item
            &&& flow.prompt == before.prompt
            &&& flow.session == before.session
        },
        FlowPhaseView::Arriving => {
            ||| flow.prompt == 0
            ||| flow.session == before.session && !flow.force_new
        },
        FlowPhaseView::Opening => flow.prompt == 0 || flow.prompt_of(request).new_session,
        FlowPhaseView::Saving
        | FlowPhaseView::Checking
        | FlowPhaseView::Recording { .. }
        | FlowPhaseView::Confirming { .. } => {
            ||| flow.prompt == 0
            ||| flow.prompt_of(request).new_session
            ||| flow.session == before.session
        },
        FlowPhaseView::Notifying { .. } | FlowPhaseView::Ended => true,
        _ => false,
    }
}

proof fn lemma_comes_after(trace: FlowTrace, request: FlowRequestView, first: int, steps: int)
    requires
        trace.is_run(request),
        0 <= first < steps <= trace.events.len(),
        trace.sends(first),
        forall|index: int| first < index < steps ==> !trace.sends(index),
    ensures
        comes_after(request, trace.flows[first], trace.flows[steps]),
    decreases steps,
{
    lemma_run_keeps(trace, request, first);
    lemma_run_keeps(trace, request, steps - 1);
    assert(trace.took(request, steps - 1));
    let flow = trace.flows[steps - 1];
    if steps - 1 > first {
        lemma_comes_after(trace, request, first, steps - 1);
        assert(!trace.sends(steps - 1));
        lemma_arrived(request, FlowView { prompt: flow.prompt + 1, ..flow });
    }
}

/// A prompt that is not the first of its item and asks for no new session is sent in the session of
/// the prompt that was sent before it.
pub proof fn prompts_share_the_session_of_their_item(
    trace: FlowTrace,
    request: FlowRequestView,
    first: int,
    second: int,
)
    requires
        trace.is_run(request),
        0 <= first < second < trace.events.len(),
        trace.sends(first),
        trace.sends(second),
        forall|index: int| first < index < second ==> !trace.sends(index),
        trace.flows[second].prompt > 0,
        !request.config.prompts[trace.flows[second].prompt].new_session,
    ensures
        trace.flows[first].session is Some,
        trace.flows[second].session == trace.flows[first].session,
{
    lemma_run_keeps(trace, request, first);
    lemma_comes_after(trace, request, first, second);
}

/// What is known of a flow that has resumed in a session and has not sent a prompt yet.
spec fn resumes_in(request: FlowRequestView, session: SessionInfoView, flow: FlowView) -> bool {
    match flow.phase {
        FlowPhaseView::ResumeSaving
        | FlowPhaseView::ResumePrompting
        | FlowPhaseView::ResumeDraining => flow.session == Some(session),
        FlowPhaseView::Arriving => {
            ||| flow.prompt == 0
            ||| flow.session == Some(session) && !flow.force_new
        },
        FlowPhaseView::Opening => flow.prompt == 0 || flow.prompt_of(request).new_session,
        FlowPhaseView::Saving
        | FlowPhaseView::Checking
        | FlowPhaseView::Recording { .. }
        | FlowPhaseView::Confirming { .. } => {
            ||| flow.prompt == 0
            ||| flow.prompt_of(request).new_session
            ||| flow.session == Some(session)
        },
        FlowPhaseView::Notifying { .. } | FlowPhaseView::Ended => true,
        _ => false,
    }
}

proof fn lemma_resumes_in(trace: FlowTrace, request: FlowRequestView, steps: int)
    requires
        trace.is_run(request),
        request.resume_session is Some,
        3 <= steps <= trace.events.len(),
        forall|index: int| 0 <= index < steps ==> !trace.sends(index),
    ensures
        trace.events[2] is Session,
        resumes_in(request, trace.events[2]->Session_0, trace.flows[steps]),
    decreases steps,
{
    assert(trace.took(request, 0));
    assert(trace.took(request, 1));
    assert(trace.took(request, 2));
    lemma_run_keeps(trace, request, steps - 1);
    assert(trace.took(request, steps - 1));
    let flow = trace.flows[steps - 1];
    if steps > 3 {
        lemma_resumes_in(trace, request, steps - 1);
        assert(!trace.sends(steps - 1));
        lemma_arrived(request, flow);
    } else {
        let session = Some(trace.events[2]->Session_0);
        lemma_arrived(request, FlowView { session, ..flow });
    }
}

/// A resumed run sends its first prompt in the session that it resumed, unless that prompt is the
/// first of its item or asks for a new session.
pub proof fn resumed_runs_go_on_in_their_session(
    trace: FlowTrace,
    request: FlowRequestView,
    index: int,
)
    requires
        trace.is_run(request),
        request.resume_session is Some,
        0 <= index < trace.events.len(),
        trace.sends(index),
        forall|earlier: int| 0 <= earlier < index ==> !trace.sends(earlier),
        trace.flows[index].prompt > 0,
        !request.config.prompts[trace.flows[index].prompt].new_session,
    ensures
        index >= 3,
        trace.events[2] is Session,
        trace.flows[index].session == Some(trace.events[2]->Session_0),
{
    assert(trace.took(request, 0));
    if index > 1 {
        assert(trace.took(request, 1));
    }
    lemma_resumes_in(trace, request, index);
}

proof fn lemma_sent_counts(trace: FlowTrace, steps: int)
    ensures
        trace.sent(steps) >= 0,
    decreases steps,
{
    if steps > 0 {
        lemma_sent_counts(trace, steps - 1);
    }
}

/// Before the message of the user goes to the agent, the running state is saved.
pub proof fn state_is_saved_before_the_message(
    trace: FlowTrace,
    request: FlowRequestView,
    index: int,
)
    requires
        trace.is_run(request),
        0 <= index < trace.events.len(),
        trace.actions[index] is Prompt,
        !trace.sends(index),
    ensures
        index >= 1,
        trace.actions[index - 1] == FlowActionView::Save(trace.flows[index].running(request)),
        trace.actions[index] == (FlowActionView::Prompt {
            item_id: request.items[request.start_item].item_id,
            prompt_index: request.start_prompt,
            label: "resume-message"@,
            text: request.resume_message->0,
        }),
        request.resume_message is Some,
{
    lemma_run_keeps(trace, request, index);
    assert(trace.took(request, index));
    lemma_arrived(request, trace.flows[index]);
    match trace.events[index] {
        FlowEventView::Session(info) => {
            lemma_arrived(request, FlowView { session: Some(info), ..trace.flows[index] });
        },
        FlowEventView::Controls(_) => {
            lemma_arrived(
                request,
                FlowView { prompt: trace.flows[index].prompt + 1, ..trace.flows[index] },
            );
        },
        _ => {},
    }
    assert(trace.flows[index].phase is ResumeSaving);
    assert(trace.took(request, index - 1));
    lemma_run_keeps(trace, request, index - 1);
    let before = trace.flows[index - 1];
    lemma_arrived(request, before);
    match trace.events[index - 1] {
        FlowEventView::Session(info) => {
            lemma_arrived(request, FlowView { session: Some(info), ..before });
        },
        FlowEventView::Controls(_) => {
            lemma_arrived(request, FlowView { prompt: before.prompt + 1, ..before });
        },
        _ => {},
    }
}

/// A run that pauses once the session of its prompt is known leaves a state whose session can be
/// opened.
pub proof fn pauses_at_a_prompt_can_be_opened(
    trace: FlowTrace,
    request: FlowRequestView,
    at: int,
    index: int,
)
    requires
        trace.is_run(request),
        0 <= at <= index < trace.events.len(),
        trace.flows[at].phase is Checking || trace.flows[at].phase is Confirming
            || trace.flows[at].phase is Leaving,
        stop_request(request, trace.flows[at], trace.events[at]) matches Some(control)
            && control is Notify,
        trace.actions[index] is Stop,
    ensures
        trace.flows[at].session matches Some(session) && openable(
            trace.actions[index]->Stop_state,
        ) == Ok::<Seq<char>, Seq<char>>(session.session_file),
{
    lemma_run_keeps(trace, request, at);
    a_request_stops_the_run(trace, request, at, index);
}

/// Whether an event answers what a flow waits for.
pub open spec fn answers_phase(phase: FlowPhaseView, event: FlowEventView) -> bool {
    match phase {
        FlowPhaseView::Fresh
        | FlowPhaseView::Announcing
        | FlowPhaseView::ResumeSaving
        | FlowPhaseView::ResumePrompting
        | FlowPhaseView::Saving
        | FlowPhaseView::Recording { .. }
        | FlowPhaseView::Prompting => event is Done,
        FlowPhaseView::Resuming | FlowPhaseView::Opening => event is Session,
        FlowPhaseView::ResumeDraining
        | FlowPhaseView::Arriving
        | FlowPhaseView::Checking
        | FlowPhaseView::Confirming { .. }
        | FlowPhaseView::Leaving => event is Controls,
        FlowPhaseView::Notifying { .. } => event is Notified,
        FlowPhaseView::Ended => true,
    }
}

/// A notification that fails does not prevent a stop: a request to stop that answers the last action
/// stops the run, whatever becomes of the notification command.
pub proof fn failed_notifications_do_not_prevent_a_stop(
    trace: FlowTrace,
    request: FlowRequestView,
    at: int,
    event: FlowEventView,
)
    requires
        trace.is_run(request),
        0 <= at <= trace.events.len(),
        !(trace.flows[at].phase is Ended),
        answers_phase(trace.flows[at].phase, event),
        stop_request(request, trace.flows[at], event) is Some,
    ensures
        flow_next(request, trace.flows[at], event) matches Ok((after, action)) && (action is Stop || (
        action is Notify && forall|report: Option<Seq<char>>|
            #![trigger flow_next(request, after, FlowEventView::Notified(report))]
            flow_next(request, after, FlowEventView::Notified(report)) matches Ok((_, end))
                && end is Stop)),
{
    lemma_run_keeps(trace, request, at);
}

/// A run of an accepted configuration does not fail of itself: a step that gets the answer it waits
/// for is taken.
pub proof fn accepted_runs_do_not_fail(
    trace: FlowTrace,
    request: FlowRequestView,
    steps: int,
    event: FlowEventView,
)
    requires
        trace.is_run(request),
        0 <= steps <= trace.events.len(),
        config_accepted(request.config, request.repo_root),
        planned_items(request.config.loop_, request.repo_root) == Ok::<
            Seq<LoopItemView>,
            Failure<ErrorView>,
        >(request.items),
        answers_phase(trace.flows[steps].phase, event),
    ensures
        flow_next(request, trace.flows[steps], event) is Ok,
{
    lemma_run_keeps(trace, request, steps);
    let flow = trace.flows[steps];
    if flow.item < request.items.len() && flow.prompt < request.config.prompts.len() {
        accepted_runs_render(request, flow);
    }
}

} // verus!

//! What is said of a value is what its fields hold.

use serde_json::Value;
use vstd::prelude::*;

use crate::config::{
    opt_notify_view, prompt_views, Config, LoopConfig, NotifyConfig, PromptStep,
};
use crate::control::event_views;
use crate::error::{outcome, AgentFlowError, ErrorView, Failure};
use crate::exchange::{
    opt_json, step_outcome, Exchange, ExchangeView, Phase, PhaseView, RpcAction, RpcActionView, RpcEvent,
    RpcEventView,
};
use crate::flow::{
    step_fits, Flow, FlowAction, FlowActionView, FlowEvent, FlowEventView, FlowPhase,
    FlowPhaseView, FlowView,
};
use crate::json::{json_view, json_views};
use crate::loop_spec::{item_views, plan_fits, LoopItem, LoopItemView, LoopPlan};
use crate::notify::{argv_result, NotifyPlan, NotifyPlanView};
use crate::rpc::{opt_session, pair_texts, SessionInfo};
use crate::runner::{opt_state, FlowRequest, Resumption};
use crate::session::{SessionStep, SessionStepView, SessionTask, SessionTaskView};
use crate::smoke::{
    smoke_outcome, SmokeAction, SmokeActionView, SmokeEvent, SmokeEventView, SmokeTest,
    SmokeTestView,
};
use crate::state::{opt_event, ControlEvent, ControlEventView, CurrentState, State};
use crate::template::{renders_as, TemplateContext};
use crate::text::{opt_str, opt_text, texts};

verus! {

/// The texts of strings are their characters, in order.
pub proof fn texts_are_their_strings(values: Seq<String>, value: String, i: int)
    ensures
        texts(values).len() == values.len(),
        0 <= i < values.len() ==> texts(values)[i] == values[i]@,
        opt_text(Some(value)) == Some(value@),
        opt_text(None) is None,
{
}

/// A loop item says its counter, its identifier, its iteration and its index; a plan says its items in
/// order.
pub proof fn items_say_what_they_hold(item: LoopItem, plan: LoopPlan, i: int)
    ensures
        item@.counter == item.counter,
        item@.item_id == item.item_id@,
        item@.iteration == item.iteration,
        item@.iteration_index == item.iteration_index,
        plan@ == item_views(plan.items@),
        plan@.len() == plan.items@.len(),
        0 <= i < plan.items@.len() ==> plan@[i] == plan.items@[i]@,
{
}

/// A configuration says its settings.
pub proof fn configurations_say_what_they_hold(
    config: Config,
    loop_: LoopConfig,
    prompt: PromptStep,
    notify: NotifyConfig,
    argv: Vec<String>,
    i: int,
)
    ensures
        loop_@.start == loop_.start,
        loop_@.end == loop_.end,
        loop_@.count == loop_.count,
        loop_@.step == loop_.step,
        loop_@.item_id == loop_.item_id@,
        prompt@.id == prompt.id@,
        prompt@.text == prompt.text@,
        prompt@.new_session == prompt.new_session,
        prompt@.pause_after == prompt.pause_after,
        prompt@.message == opt_text(prompt.message),
        notify.command == Some(argv) ==> notify@.command == Some(texts(argv@)),
        notify.command is None ==> notify@.command is None,
        config@.provider == config.provider,
        config@.loop_ == config.loop_@,
        config@.notify == opt_notify_view(config.notify),
        opt_notify_view(Some(notify)) == Some(notify@),
        opt_notify_view(None) is None,
        config@.logs == config.logs.enabled,
        config@.sessions == config.sessions.enabled,
        config@.prompts == prompt_views(config.prompts@),
        config@.prompts.len() == config.prompts@.len(),
        0 <= i < config.prompts@.len() ==> config@.prompts[i] == config.prompts@[i]@,
{
}

/// Template variables say what they hold.
pub proof fn variables_say_what_they_hold(context: TemplateContext)
    ensures
        context@.counter == context.counter,
        context@.counter_padded == context.counter_padded@,
        context@.item_id == context.item_id@,
        context@.iteration == context.iteration,
        context@.iteration_index == context.iteration_index,
        context@.repo_root == context.repo_root@,
        context@.notify_command == context.notify_command@,
        context@.halt_command == context.halt_command@,
        context@.message == opt_text(context.message),
{
}

/// States, positions and control events say what they hold.
pub proof fn states_say_what_they_hold(
    state: State,
    current: CurrentState,
    message: String,
    item_id: Option<String>,
    counter: Option<i64>,
    event: ControlEvent,
    events: Seq<ControlEvent>,
    i: int,
)
    ensures
        current@.counter == current.counter,
        current@.item_id == current.item_id@,
        current@.iteration == current.iteration,
        current@.prompt_index == current.prompt_index,
        current@.prompt_id == current.prompt_id@,
        current@.session_id == opt_text(current.session_id),
        current@.session_file == opt_text(current.session_file),
        (ControlEvent::Notify { message, item_id, counter })@ == (ControlEventView::Notify {
            message: message@,
            item_id: opt_text(item_id),
            counter,
        }),
        (ControlEvent::Halt { message, item_id, counter })@ == (ControlEventView::Halt {
            message: message@,
            item_id: opt_text(item_id),
            counter,
        }),
        opt_event(Some(event)) == Some(event@),
        opt_event(None) is None,
        event_views(events).len() == events.len(),
        0 <= i < events.len() ==> event_views(events)[i] == events[i]@,
        state@.schema_version == state.schema_version,
        state@.run_id == state.run_id@,
        state@.status == state.status,
        state@.repo_root == state.repo_root@,
        state@.config_path == state.config_path@,
        state@.current == state.current@,
        state@.pending_control == opt_event(state.pending_control),
        state@.last_error == opt_text(state.last_error),
        opt_state(Some(state)) == Some(state@),
        opt_state(None) is None,
{
}

/// A request says what a run is given to do.
pub proof fn requests_say_what_they_hold(
    request: FlowRequest,
    resumption: Resumption,
    session: SessionInfo,
)
    ensures
        session@.session_id == session.session_id@,
        session@.session_file == session.session_file@,
        resumption@.session_file == resumption.session_file@,
        resumption@.status == resumption.status,
        request@.repo_root == request.repo_root@,
        request@.config_path == request.config_path@,
        request@.config == request.config@,
        request@.items == request.plan@,
        request@.run_id == request.run_id@,
        request@.start_item == request.start_item_index,
        request@.start_prompt == request.start_prompt_index,
        request.resume_session matches Some(resumption) ==> request@.resume_session == Some(
            resumption@,
        ),
        request.resume_session is None ==> request@.resume_session is None,
        request@.resume_message == opt_text(request.resume_message),
{
}

/// A flow says its position, its session and whether it asks for a new one.
pub proof fn flows_say_where_they_are(flow: Flow, session: SessionInfo)
    ensures
        flow@.item == flow.item_index,
        flow@.prompt == flow.prompt_index,
        flow.session == Some(session) ==> flow@.session == Some(session@),
        flow.session is None ==> flow@.session is None,
        flow@.force_new == flow.force_new,
        flow@.phase == flow.phase@,
{
}

/// The events of a flow say what they carry.
pub proof fn events_say_what_they_carry(
    session: SessionInfo,
    events: Vec<ControlEvent>,
    report: Option<String>,
)
    ensures
        FlowEvent::Done@ == FlowEventView::Done,
        FlowEvent::Session(session)@ == FlowEventView::Session(session@),
        FlowEvent::Controls(events)@ == FlowEventView::Controls(event_views(events@)),
        FlowEvent::Notified(report)@ == FlowEventView::Notified(opt_text(report)),
{
}

/// The actions of a flow say what is to be done.
pub proof fn actions_say_what_is_to_be_done(action: FlowAction)
    ensures
        match action {
            FlowAction::Output { item_id, record } => action@ == (FlowActionView::Output {
                item_id: item_id@,
                record: json_view(record),
            }),
            FlowAction::OpenSession { item_id, prompt_id, fresh, reason } => action@ == (
            FlowActionView::OpenSession {
                item_id: item_id@,
                prompt_id: prompt_id@,
                fresh,
                reason: reason@,
            }),
            FlowAction::Save(state) => action@ == FlowActionView::Save(state@),
            FlowAction::Drain => action@ is Drain,
            FlowAction::Record { item_id, record } => action@ == (FlowActionView::Record {
                item_id: item_id@,
                record: json_view(record),
            }),
            FlowAction::Prompt { item_id, prompt_index, label, text } => action@ == (
            FlowActionView::Prompt {
                item_id: item_id@,
                prompt_index: prompt_index as int,
                label: label@,
                text: text@,
            }),
            FlowAction::Notify { argv } => action@ == (FlowActionView::Notify {
                argv: texts(argv@),
            }),
            FlowAction::Stop { item_id, outputs, state } => action@ == (FlowActionView::Stop {
                item_id: item_id@,
                outputs: json_views(outputs@),
                state: state@,
            }),
            FlowAction::Complete { item_id, outputs, state } => action@ == (
            FlowActionView::Complete {
                item_id: item_id@,
                outputs: json_views(outputs@),
                state: state@,
            }),
            FlowAction::Rest => action@ is Rest,
        },
{
}

/// An exchange says what it holds, and so do its phase, its events and its actions.
pub proof fn exchanges_say_what_they_hold(
    exchange: Exchange,
    phase: Phase,
    event: RpcEvent,
    action: RpcAction,
    i: int,
)
    ensures
        exchange@.outgoing == json_view(exchange.outgoing),
        exchange@.name == exchange.name@,
        exchange@.fixed_id == opt_text(exchange.fixed_id),
        exchange@.awaits_end == exchange.awaits_end,
        exchange@.collect == exchange.collect,
        exchange@.frames.len() == exchange.frames@.len(),
        0 <= i < exchange.frames@.len() ==> exchange@.frames[i] == json_view(exchange.frames@[i]),
        exchange.response matches Some(response) ==> exchange@.response == Some(
            json_view(response),
        ),
        exchange.response is None ==> exchange@.response is None,
        exchange@.phase == exchange.phase@,
        exchange@.deadline == exchange.deadline,
        exchange@.retry_count == exchange.retry_count,
        match phase {
            Phase::Unsent => phase@ is Unsent,
            Phase::Awaiting { id } => phase@ == (PhaseView::Awaiting { id: id@ }),
            Phase::Retrying { until } => phase@ == (PhaseView::Retrying { until: until as int }),
            Phase::Running => phase@ is Running,
            Phase::Done => phase@ is Done,
        },
        match event {
            RpcEvent::Frame(frame) => event@ == RpcEventView::Frame(json_view(frame)),
            RpcEvent::Broken(text) => event@ == RpcEventView::Broken(text@),
            RpcEvent::Closed => event@ is Closed,
            RpcEvent::TimedOut => event@ is TimedOut,
        },
        match action {
            RpcAction::Send(line) => action@ == RpcActionView::Send(line@),
            RpcAction::Wait(kind) => action@ == RpcActionView::Wait(kind),
            RpcAction::WaitUntil(instant) => action@ == RpcActionView::WaitUntil(instant as int),
            RpcAction::Finish => action@ is Finish,
        },
{
}

/// A result comes to its value or to its error.
pub proof fn results_come_to_their_value(
    text: String,
    error: String,
    told: AgentFlowError,
    exchange: Exchange,
    action: RpcAction,
)
    ensures
        outcome(Ok::<String, String>(text)) == Ok::<Seq<char>, Seq<char>>(text@),
        outcome(Err::<String, String>(error)) == Err::<Seq<char>, Seq<char>>(error@),
        outcome(Err::<String, AgentFlowError>(told)) == Err::<Seq<char>, ErrorView>(told@),
        step_outcome(exchange, Ok(action)) == Ok::<(ExchangeView, RpcActionView), Seq<char>>(
            (exchange@, action@),
        ),
        step_outcome(exchange, Err(error)) == Err::<(ExchangeView, RpcActionView), Seq<char>>(
            error@,
        ),
{
}

/// An error says its kind and its text.
pub proof fn errors_say_what_they_hold(text: String)
    ensures
        AgentFlowError::ConfigValidation(text)@ == ErrorView::ConfigValidation(text@),
        AgentFlowError::Loop(text)@ == ErrorView::Loop(text@),
        AgentFlowError::Io(text)@ == ErrorView::Io(text@),
        AgentFlowError::Json(text)@ == ErrorView::Json(text@),
        AgentFlowError::Yaml(text)@ == ErrorView::Yaml(text@),
        AgentFlowError::Render(text)@ == ErrorView::Render(text@),
{
}

/// A plan fits what is planned only where it holds those items, and an error fits only where none are
/// planned. A step fits likewise, and so does a rendering.
pub proof fn results_fit_what_is_expected(
    plan: LoopPlan,
    told: AgentFlowError,
    items: Seq<LoopItemView>,
    failure: Failure<ErrorView>,
    flow: FlowView,
    action: FlowAction,
    next: FlowView,
    does: FlowActionView,
    reason: Failure<Seq<char>>,
    text: String,
    rendered: Seq<char>,
)
    ensures
        plan_fits(Ok(plan), Ok(items)) <==> plan@ == items,
        !plan_fits(Ok(plan), Err(failure)),
        !plan_fits(Err(told), Ok(items)),
        step_fits(flow, Ok(action), Ok((next, does))) <==> flow == next && action@ == does,
        !step_fits(flow, Ok(action), Err(reason)),
        !step_fits(flow, Err(text), Ok((next, does))),
        renders_as(Ok(text), Some(rendered)) <==> text@ == rendered,
        !renders_as(Ok(text), None),
        !renders_as(Err(told), Some(rendered)),
        renders_as(Err(told), None) <==> told@ is Render,
{
}

/// What a flow waits for is said with the texts and events that it keeps meanwhile.
pub proof fn phases_say_what_they_keep(phase: FlowPhase)
    ensures
        match phase {
            FlowPhase::Fresh => phase@ is Fresh,
            FlowPhase::Announcing => phase@ is Announcing,
            FlowPhase::Resuming => phase@ is Resuming,
            FlowPhase::ResumeSaving => phase@ is ResumeSaving,
            FlowPhase::ResumePrompting => phase@ is ResumePrompting,
            FlowPhase::ResumeDraining => phase@ is ResumeDraining,
            FlowPhase::Arriving => phase@ is Arriving,
            FlowPhase::Opening => phase@ is Opening,
            FlowPhase::Saving => phase@ is Saving,
            FlowPhase::Checking => phase@ is Checking,
            FlowPhase::Recording { text } => phase@ == (FlowPhaseView::Recording { text: text@ }),
            FlowPhase::Confirming { text } => phase@ == (FlowPhaseView::Confirming { text: text@ }),
            FlowPhase::Prompting => phase@ is Prompting,
            FlowPhase::Leaving => phase@ is Leaving,
            FlowPhase::Notifying { observed, event, next_prompt } => phase@ == (
            FlowPhaseView::Notifying {
                observed: event_views(observed@),
                event: event@,
                next_prompt: next_prompt as int,
            }),
            FlowPhase::Ended => phase@ is Ended,
        },
{
}

/// The tasks about sessions say what they hold, and so do their steps.
pub proof fn tasks_say_what_they_hold(task: SessionTask, step: SessionStep)
    ensures
        match task {
            SessionTask::Inspect { collect } => task@ == (SessionTaskView::Inspect { collect }),
            SessionTask::Renew { collect } => task@ == (SessionTaskView::Renew { collect }),
            SessionTask::Renewing { collect, previous } => task@ == (SessionTaskView::Renewing {
                collect,
                previous: opt_session(previous),
            }),
            SessionTask::Renewed { collect, previous, frames } => task@ == (
            SessionTaskView::Renewed {
                collect,
                previous: opt_session(previous),
                frames: json_views(frames@),
            }),
            SessionTask::Switch { path } => task@ == (SessionTaskView::Switch { path: path@ }),
            SessionTask::Switched { path } => task@ == (SessionTaskView::Switched { path: path@ }),
        },
        match step {
            SessionStep::Continue(next) => step@ == SessionStepView::Continue(next@),
            SessionStep::Finished { info, frames } => step@ == (SessionStepView::Finished {
                info: info@,
                frames: json_views(frames@),
            }),
        },
{
}

/// The smoke test, its events and its actions say what they hold.
pub proof fn smoke_tests_say_what_they_hold(
    test: SmokeTest,
    event: SmokeEvent,
    action: SmokeAction,
    error: String,
)
    ensures
        match test {
            SmokeTest::Fresh => test@ is Fresh,
            SmokeTest::Inspecting => test@ is Inspecting,
            SmokeTest::Telling { initial } => test@ == (SmokeTestView::Telling {
                initial: initial@,
            }),
            SmokeTest::Asking { initial } => test@ == (SmokeTestView::Asking { initial: initial@ }),
            SmokeTest::Reading { initial } => test@ == (SmokeTestView::Reading {
                initial: initial@,
            }),
            SmokeTest::Renewing { initial } => test@ == (SmokeTestView::Renewing {
                initial: initial@,
            }),
            SmokeTest::AskingAgain => test@ is AskingAgain,
            SmokeTest::ReadingAgain => test@ is ReadingAgain,
            SmokeTest::Passed => test@ is Passed,
        },
        match event {
            SmokeEvent::Done => event@ is Done,
            SmokeEvent::Session(session) => event@ == SmokeEventView::Session(session@),
            SmokeEvent::Text(text) => event@ == SmokeEventView::Text(text@),
        },
        match action {
            SmokeAction::Inspect => action@ is Inspect,
            SmokeAction::Prompt(text) => action@ == SmokeActionView::Prompt(text@),
            SmokeAction::Read => action@ is Read,
            SmokeAction::Renew => action@ is Renew,
            SmokeAction::Finish => action@ is Finish,
        },
        smoke_outcome(Ok((test, action))) == Ok::<(SmokeTestView, SmokeActionView), Seq<char>>(
            (test@, action@),
        ),
        smoke_outcome(Err(error)) == Err::<(SmokeTestView, SmokeActionView), Seq<char>>(error@),
{
}

/// What is to be done about a notification is said with its arguments.
pub proof fn notifications_say_what_they_hold(plan: NotifyPlan, argv: Vec<String>, error: String)
    ensures
        match plan {
            NotifyPlan::Nothing => plan@ is Nothing,
            NotifyPlan::Report(text) => plan@ == NotifyPlanView::Report(text@),
            NotifyPlan::Run(argv) => plan@ == NotifyPlanView::Run(texts(argv@)),
        },
        argv_result(Ok(argv)) == Ok::<Seq<Seq<char>>, Seq<char>>(texts(argv@)),
        argv_result(Err(error)) == Err::<Seq<Seq<char>>, Seq<char>>(error@),
{
}

/// Optional values say what they hold, and so do sequences of pairs and of JSON values.
pub proof fn optional_values_say_what_they_hold(
    value: Value,
    values: Seq<Value>,
    session: SessionInfo,
    text: &str,
    pairs: Seq<(String, String)>,
    i: int,
)
    ensures
        opt_json(Some(value)) == Some(json_view(value)),
        opt_json(None) is None,
        json_views(values).len() == values.len(),
        0 <= i < values.len() ==> json_views(values)[i] == json_view(values[i]),
        opt_session(Some(session)) == Some(session@),
        opt_session(None) is None,
        opt_str(Some(text)) == Some(text@),
        opt_str(None) is None,
        pair_texts(pairs).len() == pairs.len(),
        0 <= i < pairs.len() ==> pair_texts(pairs)[i] == (pairs[i].0@, pairs[i].1@),
{
}

} // verus!

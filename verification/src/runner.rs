//! Runs: where they start and resume, the states they save, and what they show.

use vstd::prelude::*;

use crate::config::{
    apply_overrides, config_accepted, overridden_loop, tells_mistakes, validate_config, Config,
    ConfigView, LoopOverrides, PromptStepView,
};
use crate::error::{failure_message, lemma_message_fits, message_fits, outcome, AgentFlowError};
use crate::files::{join_path, path_joined};
use crate::loop_spec::{build_loop_plan, planned_items, LoopItem, LoopItemView, LoopPlan};
use crate::rpc::{SessionInfo, SessionInfoView};
use crate::state::{
    opt_event, status_name, status_text, ControlEvent, ControlEventView, CurrentState,
    CurrentStateView, RunStatus, State, StateView,
};
use crate::text::{
    int_string, int_text, nat_string, nat_text, opt_str, opt_text, same_text, texts,
};

verus! {

/// A path of the command line, seen from the repository root.
pub fn resolve_path(repo_root: &str, path: &str) -> (resolved: String)
    ensures
        resolved@ == path_joined(repo_root@, path@),
{
    join_path(repo_root, path)
}

/// Puts the overrides of a run into a configuration, and checks it.
pub fn prepare_config(config: Config, overrides: &LoopOverrides, repo_root: &str) -> (result: Result<
    Config,
    AgentFlowError,
>)
    ensures
        ({
            let changed = ConfigView {
                loop_: overridden_loop(config@.loop_, *overrides),
                ..config@
            };
            match result {
                Ok(checked) => checked@ == changed && config_accepted(changed, repo_root@),
                Err(error) => {
                    &&& !config_accepted(changed, repo_root@)
                    &&& tells_mistakes(error@, changed, repo_root@)
                },
            }
        }),
{
    let mut config = config;
    apply_overrides(&mut config, overrides);
    match validate_config(&config, repo_root) {
        Ok(()) => Ok(config),
        Err(error) => Err(error),
    }
}

/// Whether a saved state stands in the way of a new run.
pub open spec fn start_verdict(saved: Option<StateView>) -> Result<(), Seq<char>> {
    match saved {
        Some(state) => if state.status == RunStatus::Running || state.status == RunStatus::Paused {
            Err(
                "refusing to start: existing AgentFlow run '"@ + state.run_id + "' is "@
                    + status_text(state.status) + "; use status/open/resume"@,
            )
        } else {
            Ok(())
        },
        None => Ok(()),
    }
}

/// What an optional state says.
pub open spec fn opt_state(state: Option<State>) -> Option<StateView> {
    match state {
        Some(s) => Some(s@),
        None => None,
    }
}

/// Refuses to start while another run is running or paused.
pub fn refuse_conflicting_state(saved: &Option<State>) -> (result: Result<(), String>)
    ensures
        outcome(result) == start_verdict(opt_state(*saved)),
{
    match saved {
        Some(state) => {
            if state.status == RunStatus::Running || state.status == RunStatus::Paused {
                return Err(
                    "refusing to start: existing AgentFlow run '".to_owned().concat(
                        state.run_id.as_str(),
                    ).concat("' is ").concat(status_name(state.status)).concat(
                        "; use status/open/resume",
                    ),
                );
            }
            Ok(())
        },
        None => Ok(()),
    }
}

/// Whether a run with this status can go on.
pub open spec fn is_resumable(status: RunStatus) -> bool {
    status == RunStatus::Paused || status == RunStatus::Failed
}

/// Refuses to resume a run that is neither paused nor failed.
pub fn ensure_resumable_status(status: RunStatus) -> (result: Result<(), String>)
    ensures
        outcome(result) == (if is_resumable(status) {
            Ok::<(), Seq<char>>(())
        } else {
            Err::<(), Seq<char>>(
                "cannot resume run with status "@ + status_text(status)
                    + "; only paused or failed runs can resume"@,
            )
        }),
{
    if status == RunStatus::Paused || status == RunStatus::Failed {
        return Ok(());
    }
    Err(
        "cannot resume run with status ".to_owned().concat(status_name(status)).concat(
            "; only paused or failed runs can resume",
        ),
    )
}

/// The session file that a run resumes: the one of its state, or else the one recorded last.
pub fn resume_session_file(current: &CurrentState, recorded: Option<String>) -> (result: Result<
    String,
    String,
>)
    ensures
        outcome(result) == (match (current@.session_file, opt_text(recorded)) {
            (Some(file), _) => Ok::<Seq<char>, Seq<char>>(file),
            (None, Some(file)) => Ok::<Seq<char>, Seq<char>>(file),
            (None, None) => Err::<Seq<char>, Seq<char>>(
                "resumable state is missing current.session_file and no recorded session exists for "@
                    + current@.item_id,
            ),
        }),
{
    match &current.session_file {
        Some(file) => Ok(file.clone()),
        None => match recorded {
            Some(file) => Ok(file),
            None => Err(
                "resumable state is missing current.session_file and no recorded session exists for ".to_owned().concat(
                    current.item_id.as_str(),
                ),
            ),
        },
    }
}

/// The session file that is opened: only that of a paused run.
pub open spec fn openable(state: StateView) -> Result<Seq<char>, Seq<char>> {
    if state.status != RunStatus::Paused {
        Err(
            "cannot open run with status "@ + status_text(state.status)
                + "; only paused runs can be opened"@,
        )
    } else {
        match state.current.session_file {
            Some(file) => Ok(file),
            None => Err("paused state is missing current.session_file"@),
        }
    }
}

/// Decides which session file is opened.
pub fn session_to_open(state: &State) -> (result: Result<String, String>)
    ensures
        outcome(result) == openable(state@),
{
    if state.status != RunStatus::Paused {
        return Err(
            "cannot open run with status ".to_owned().concat(status_name(state.status)).concat(
                "; only paused runs can be opened",
            ),
        );
    }
    match &state.current.session_file {
        Some(file) => Ok(file.clone()),
        None => Err("paused state is missing current.session_file".to_owned()),
    }
}

/// The arguments that open a session for the user.
pub fn open_arguments(session_file: &str) -> (arguments: Vec<String>)
    ensures
        texts(arguments@) == seq!["--resume"@, session_file@],
{
    let mut arguments: Vec<String> = Vec::new();
    arguments.push("--resume".to_owned());
    arguments.push(session_file.to_owned());
    assert(texts(arguments@) =~= seq!["--resume"@, session_file@]);
    arguments
}

/// The position of an item in a plan: the first item that is equal to it.
pub open spec fn first_equal(items: Seq<LoopItemView>, item: LoopItemView, from: int) -> Option<int>
    decreases items.len() - from,
{
    if from < 0 || from >= items.len() {
        None
    } else if items[from] == item {
        Some(from)
    } else {
        first_equal(items, item, from + 1)
    }
}

/// Where a run pauses: at the next prompt of the item, or at the first prompt of the next item, or
/// behind the last prompt of the last item.
pub open spec fn next_position(
    items: Seq<LoopItemView>,
    prompt_count: nat,
    item: LoopItemView,
    next_prompt: int,
) -> (LoopItemView, int) {
    if next_prompt < prompt_count {
        (item, next_prompt)
    } else {
        match first_equal(items, item, 0) {
            Some(index) => if index + 1 < items.len() {
                (items[index + 1], 0)
            } else {
                (item, next_prompt)
            },
            None => (item, next_prompt),
        }
    }
}

fn same_item(a: &LoopItem, b: &LoopItem) -> (r: bool)
    ensures
        r == (a@ == b@),
{
    a.counter == b.counter && same_text(a.item_id.as_str(), b.item_id.as_str()) && a.iteration
        == b.iteration && a.iteration_index == b.iteration_index
}

fn item_position(plan: &LoopPlan, item: &LoopItem) -> (position: Option<usize>)
    ensures
        (match position {
            Some(index) => first_equal(plan@, item@, 0) == Some(index as int) && index
                < plan.items.len(),
            None => first_equal(plan@, item@, 0) is None,
        }),
{
    let mut index: usize = 0;
    while index < plan.items.len()
        invariant
            index <= plan.items.len(),
            first_equal(plan@, item@, 0) == first_equal(plan@, item@, index as int),
        decreases plan.items.len() - index,
    {
        assert(plan@[index as int] == plan.items[index as int]@);
        if same_item(&plan.items[index], item) {
            return Some(index);
        }
        index = index + 1;
    }
    None
}

/// Finds where a run pauses.
pub fn next_position_or_current<'a>(
    plan: &'a LoopPlan,
    config: &Config,
    item: &'a LoopItem,
    next_prompt_index: usize,
) -> (position: (&'a LoopItem, usize))
    ensures
        (position.0@, position.1 as int) == next_position(
            plan@,
            config@.prompts.len(),
            item@,
            next_prompt_index as int,
        ),
{
    if next_prompt_index < config.prompts.len() {
        return (item, next_prompt_index);
    }
    if let Some(index) = item_position(plan, item) {
        if index < plan.items.len() - 1 {
            assert(plan@[index + 1] == plan.items[index + 1]@);
            return (&plan.items[index + 1], 0);
        }
    }
    (item, next_prompt_index)
}

/// Whether a saved position speaks of this item.
pub open spec fn is_saved_item(item: LoopItemView, current: CurrentStateView) -> bool {
    item.counter == current.counter && item.item_id == current.item_id && item.iteration
        == current.iteration
}

/// The first item that a saved position speaks of.
pub open spec fn first_saved(items: Seq<LoopItemView>, current: CurrentStateView, from: int) -> Option<
    int,
>
    decreases items.len() - from,
{
    if from < 0 || from >= items.len() {
        None
    } else if is_saved_item(items[from], current) {
        Some(from)
    } else {
        first_saved(items, current, from + 1)
    }
}

/// Where a run goes on: the item and the prompt of its saved position.
pub open spec fn resume_position(items: Seq<LoopItemView>, current: CurrentStateView) -> Result<
    (int, int),
    Seq<char>,
> {
    match first_saved(items, current, 0) {
        Some(index) => Ok((index, current.prompt_index)),
        None => Err(
            "saved state item '"@ + current.item_id + "' is not present in current loop"@,
        ),
    }
}

/// Finds where a run goes on.
pub fn find_resume_position(plan: &LoopPlan, current: &CurrentState) -> (result: Result<
    (usize, usize),
    String,
>)
    ensures
        (match result {
            Ok(position) => resume_position(plan@, current@) == Ok::<(int, int), Seq<char>>(
                (position.0 as int, position.1 as int),
            ) && position.0 < plan.items.len(),
            Err(error) => resume_position(plan@, current@) == Err::<(int, int), Seq<char>>(error@),
        }),
{
    let mut index: usize = 0;
    while index < plan.items.len()
        invariant
            index <= plan.items.len(),
            first_saved(plan@, current@, 0) == first_saved(plan@, current@, index as int),
        decreases plan.items.len() - index,
    {
        let item = &plan.items[index];
        assert(plan@[index as int] == item@);
        if item.counter == current.counter && same_text(
            item.item_id.as_str(),
            current.item_id.as_str(),
        ) && item.iteration == current.iteration {
            return Ok((index, current.prompt_index));
        }
        index = index + 1;
    }
    Err(
        "saved state item '".to_owned().concat(current.item_id.as_str()).concat(
            "' is not present in current loop",
        ),
    )
}

/// The identifier of a prompt; behind the last prompt stands `<complete>`.
pub open spec fn prompt_id_at(prompts: Seq<PromptStepView>, index: int) -> Seq<char> {
    if 0 <= index < prompts.len() {
        prompts[index].id
    } else {
        "<complete>"@
    }
}

/// The identifier of a prompt.
pub fn current_prompt_id(config: &Config, prompt_index: usize) -> (id: &str)
    ensures
        id@ == prompt_id_at(config@.prompts, prompt_index as int),
{
    if prompt_index < config.prompts.len() {
        assert(config@.prompts[prompt_index as int] == config.prompts[prompt_index as int]@);
        config.prompts[prompt_index].id.as_str()
    } else {
        "<complete>"
    }
}

/// The position of a run at a prompt of an item.
pub open spec fn position_at(
    item: LoopItemView,
    prompt_index: int,
    prompts: Seq<PromptStepView>,
    session: Option<SessionInfoView>,
) -> CurrentStateView {
    CurrentStateView {
        counter: item.counter,
        item_id: item.item_id,
        iteration: item.iteration,
        prompt_index: prompt_index,
        prompt_id: prompt_id_at(prompts, prompt_index),
        session_id: match session {
            Some(info) => Some(info.session_id),
            None => None,
        },
        session_file: match session {
            Some(info) => Some(info.session_file),
            None => None,
        },
    }
}

/// Describes the position of a run.
pub fn current_state(
    item: &LoopItem,
    prompt_index: usize,
    config: &Config,
    session: Option<&SessionInfo>,
) -> (current: CurrentState)
    ensures
        current@ == position_at(
            item@,
            prompt_index as int,
            config@.prompts,
            match session {
                Some(info) => Some(info@),
                None => None,
            },
        ),
{
    CurrentState {
        counter: item.counter,
        item_id: item.item_id.clone(),
        iteration: item.iteration,
        prompt_index,
        prompt_id: current_prompt_id(config, prompt_index).to_owned(),
        session_id: match session {
            Some(info) => Some(info.session_id.clone()),
            None => None,
        },
        session_file: match session {
            Some(info) => Some(info.session_file.clone()),
            None => None,
        },
    }
}

/// What a run is resumed from.
#[derive(Debug, PartialEq, Eq)]
pub struct Resumption {
    /// The session to go on in.
    pub session_file: String,
    /// The status that the run was left with.
    pub status: RunStatus,
}

/// What a [`Resumption`] says.
pub struct ResumptionView {
    pub session_file: Seq<char>,
    pub status: RunStatus,
}

impl View for Resumption {
    type V = ResumptionView;

    open spec fn view(&self) -> ResumptionView {
        ResumptionView { session_file: self.session_file@, status: self.status }
    }
}

/// What a run is given to do.
#[derive(Debug)]
pub struct FlowRequest {
    pub repo_root: String,
    pub config_path: String,
    pub config: Config,
    pub plan: LoopPlan,
    pub run_id: String,
    pub start_item_index: usize,
    pub start_prompt_index: usize,
    pub resume_session: Option<Resumption>,
    pub resume_message: Option<String>,
}

/// What a [`FlowRequest`] says.
pub struct FlowRequestView {
    pub repo_root: Seq<char>,
    pub config_path: Seq<char>,
    pub config: ConfigView,
    pub items: Seq<LoopItemView>,
    pub run_id: Seq<char>,
    pub start_item: int,
    pub start_prompt: int,
    pub resume_session: Option<ResumptionView>,
    pub resume_message: Option<Seq<char>>,
}

impl View for FlowRequest {
    type V = FlowRequestView;

    open spec fn view(&self) -> FlowRequestView {
        FlowRequestView {
            repo_root: self.repo_root@,
            config_path: self.config_path@,
            config: self.config@,
            items: self.plan@,
            run_id: self.run_id@,
            start_item: self.start_item_index as int,
            start_prompt: self.start_prompt_index as int,
            resume_session: match self.resume_session {
                Some(resumption) => Some(resumption@),
                None => None,
            },
            resume_message: opt_text(self.resume_message),
        }
    }
}

/// The version of the state file.
pub const SCHEMA_VERSION: u32 = 1;

/// The state of a run with the given status and position.
pub open spec fn run_state(
    request: FlowRequestView,
    status: RunStatus,
    current: CurrentStateView,
    pending: Option<ControlEventView>,
    last_error: Option<Seq<char>>,
) -> StateView {
    StateView {
        schema_version: SCHEMA_VERSION,
        run_id: request.run_id,
        status: status,
        repo_root: request.repo_root,
        config_path: request.config_path,
        current: current,
        pending_control: pending,
        last_error: last_error,
    }
}

/// Makes the state of a run with the given status and position.
pub fn make_state(
    request: &FlowRequest,
    status: RunStatus,
    current: CurrentState,
    pending: Option<ControlEvent>,
    last_error: Option<String>,
) -> (state: State)
    ensures
        state@ == run_state(
            request@,
            status,
            current@,
            opt_event(pending),
            opt_text(last_error),
        ),
{
    State {
        schema_version: SCHEMA_VERSION,
        run_id: request.run_id.clone(),
        status,
        repo_root: request.repo_root.clone(),
        config_path: request.config_path.clone(),
        current,
        pending_control: pending,
        last_error,
    }
}

/// The state of a run that is at work.
pub fn running_state(
    request: &FlowRequest,
    current: CurrentState,
    pending: Option<ControlEvent>,
) -> (state: State)
    ensures
        state@ == run_state(
            request@,
            RunStatus::Running,
            current@,
            opt_event(pending),
            None,
        ),
{
    make_state(request, RunStatus::Running, current, pending, None)
}

/// The state of a run that has done everything: it names the item that the run started with and the
/// last prompt.
pub open spec fn completed_view(request: FlowRequestView, item: LoopItemView) -> StateView {
    let prompts = request.config.prompts;
    run_state(
        request,
        RunStatus::Completed,
        position_at(
            item,
            if prompts.len() > 0 {
                prompts.len() - 1
            } else {
                0
            },
            prompts,
            None,
        ),
        None,
        None,
    )
}

/// The state of a run that has done everything.
pub fn completed_state(request: &FlowRequest, item: &LoopItem) -> (state: State)
    ensures
        state@ == completed_view(request@, item@),
{
    let last = request.config.prompts.len().saturating_sub(1);
    make_state(
        request,
        RunStatus::Completed,
        current_state(item, last, &request.config, None),
        None,
        None,
    )
}

/// The state of a run that has failed. Where the saved state is of the same run, its position and
/// its pending event are kept; otherwise the run has come no further than its start.
pub open spec fn failed_view(
    request: FlowRequestView,
    previous: Option<StateView>,
    item: LoopItemView,
    error: Seq<char>,
) -> StateView {
    match previous {
        Some(state) => if state.run_id == request.run_id {
            run_state(
                request,
                RunStatus::Failed,
                state.current,
                state.pending_control,
                Some(error),
            )
        } else {
            run_state(
                request,
                RunStatus::Failed,
                position_at(item, request.start_prompt, request.config.prompts, None),
                None,
                Some(error),
            )
        },
        None => run_state(
            request,
            RunStatus::Failed,
            position_at(item, request.start_prompt, request.config.prompts, None),
            None,
            Some(error),
        ),
    }
}

/// The state of a run that has failed.
pub fn failed_state(
    request: &FlowRequest,
    previous: Option<State>,
    item: &LoopItem,
    error: &str,
) -> (state: State)
    ensures
        state@ == failed_view(request@, opt_state(previous), item@, error@),
{
    if let Some(saved) = previous {
        if same_text(saved.run_id.as_str(), request.run_id.as_str()) {
            return make_state(
                request,
                RunStatus::Failed,
                saved.current,
                saved.pending_control,
                Some(error.to_owned()),
            );
        }
    }
    make_state(
        request,
        RunStatus::Failed,
        current_state(item, request.start_prompt_index, &request.config, None),
        None,
        Some(error.to_owned()),
    )
}

/// The number of the step that is shown.
pub open spec fn shown_step(prompt_index: int, total_prompts: int) -> int {
    let total = if total_prompts > 1 { total_prompts } else { 1 };
    if prompt_index + 1 <= total {
        prompt_index + 1
    } else {
        total
    }
}

/// The number of the step that is shown.
pub fn display_step(prompt_index: usize, total_prompts: usize) -> (step: usize)
    ensures
        step == shown_step(prompt_index as int, total_prompts as int),
{
    let total: usize = if total_prompts > 1 { total_prompts } else { 1 };
    if prompt_index < total {
        prompt_index + 1
    } else {
        total
    }
}

/// A character, `n` times.
pub open spec fn repeated(c: char, n: int) -> Seq<char> {
    Seq::new(if n > 0 { n as nat } else { 0 }, |i: int| c)
}

fn push_repeated(text: &mut String, c: char, n: usize)
    ensures
        final(text)@ == old(text)@ + repeated(c, n as int),
{
    let ghost before = text@;
    assert(before + repeated(c, 0) =~= before);
    for i in 0..n
        invariant
            text@ == before + repeated(c, i as int),
    {
        text.push(c);
        assert(text@ =~= before + repeated(c, i + 1));
    }
}

/// How much of a bar is filled: its share of the steps, rounded up.
pub open spec fn filled_cells(prompt_index: int, total_prompts: int, width: int) -> int {
    let total = if total_prompts > 1 { total_prompts } else { 1 };
    (shown_step(prompt_index, total_prompts) * width + total - 1) / total
}

/// A bar of the given width, filled up to the current step.
pub open spec fn bar_text(prompt_index: int, total_prompts: int, width: int) -> Seq<char> {
    let filled = filled_cells(prompt_index, total_prompts, width);
    "["@ + repeated('\u{2588}', filled) + repeated('\u{2591}', width - filled) + "]"@
}

/// Draws a bar of the given width, filled up to the current step.
pub fn progress_bar(prompt_index: usize, total_prompts: usize, width: usize) -> (bar: String)
    requires
        shown_step(prompt_index as int, total_prompts as int) * width <= usize::MAX,
    ensures
        bar@ == bar_text(prompt_index as int, total_prompts as int, width as int),
{
    let total: usize = if total_prompts > 1 { total_prompts } else { 1 };
    let cells: usize = display_step(prompt_index, total_prompts) * width;
    let rest: usize = if cells % total == 0 { 0 } else { 1 };
    proof {
        let c = cells as int;
        let t = total as int;
        assert(c / t <= c) by (nonlinear_arith)
            requires
                c >= 0,
                t >= 1,
        ;
        assert(c % t == 0 || c / t < c) by (nonlinear_arith)
            requires
                c >= 0,
                t >= 1,
        ;
        assert((c + t - 1) / t == c / t + (if c % t == 0 { 0int } else { 1int })) by (nonlinear_arith)
            requires
                c >= 0,
                t >= 1,
        ;
    }
    let filled: usize = cells / total + rest;
    let empty: usize = width.saturating_sub(filled);
    let mut bar = "[".to_owned();
    push_repeated(&mut bar, '\u{2588}', filled);
    push_repeated(&mut bar, '\u{2591}', empty);
    bar.append("]");
    bar
}

/// The width of the bar that is shown.
pub const BAR_WIDTH: usize = 24;

/// The pictures of the spinner.
pub open spec fn spinner_pictures() -> Seq<char> {
    seq![
        '\u{280b}',
        '\u{2819}',
        '\u{2839}',
        '\u{2838}',
        '\u{283c}',
        '\u{2834}',
        '\u{2826}',
        '\u{2827}',
        '\u{2807}',
        '\u{280f}',
    ]
}

fn spinner(tick: usize) -> (picture: char)
    ensures
        picture == spinner_pictures()[tick as int % 10],
{
    match tick % 10 {
        0 => '\u{280b}',
        1 => '\u{2819}',
        2 => '\u{2839}',
        3 => '\u{2838}',
        4 => '\u{283c}',
        5 => '\u{2834}',
        6 => '\u{2826}',
        7 => '\u{2827}',
        8 => '\u{2807}',
        _ => '\u{280f}',
    }
}

/// What takes the line of the terminal back to its start and empties it.
pub const CLEAR_LINE: &'static str = "\r\u{1b}[2K";

/// The step that is shown and the number of steps.
pub open spec fn step_text(prompt_index: int, total_prompts: int) -> Seq<char> {
    " step "@ + nat_text(shown_step(prompt_index, total_prompts) as nat) + "/"@ + nat_text(
        if total_prompts > 1 {
            total_prompts as nat
        } else {
            1
        },
    )
}

fn step_string(prompt_index: usize, total_prompts: usize) -> (text: String)
    ensures
        text@ == step_text(prompt_index as int, total_prompts as int),
{
    let total: usize = if total_prompts > 1 { total_prompts } else { 1 };
    " step ".to_owned().concat(
        nat_string(display_step(prompt_index, total_prompts) as u128).as_str(),
    ).concat("/").concat(nat_string(total as u128).as_str())
}

/// The line that is shown while the agent works on a prompt.
pub fn progress_line(
    item_id: &str,
    prompt_index: usize,
    total_prompts: usize,
    prompt_id: &str,
    tick: usize,
) -> (line: String)
    requires
        shown_step(prompt_index as int, total_prompts as int) * BAR_WIDTH <= usize::MAX,
    ensures
        line@ == CLEAR_LINE@.push(spinner_pictures()[tick as int % 10]) + " "@ + item_id@ + " "@ + bar_text(
            prompt_index as int,
            total_prompts as int,
            BAR_WIDTH as int,
        ) + step_text(prompt_index as int, total_prompts as int) + ": "@ + prompt_id@,
{
    let bar = progress_bar(prompt_index, total_prompts, BAR_WIDTH);
    let step = step_string(prompt_index, total_prompts);
    let mut line = CLEAR_LINE.to_owned();
    line.push(spinner(tick));
    line.concat(" ").concat(item_id).concat(" ").concat(
        bar.as_str(),
    ).concat(step.as_str()).concat(": ").concat(prompt_id)
}

/// The line that is shown once the agent is done with a prompt.
pub fn completion_line(
    item_id: &str,
    prompt_index: usize,
    total_prompts: usize,
    prompt_id: &str,
    succeeded: bool,
) -> (line: String)
    ensures
        line@ == (if succeeded {
            "\u{2713} "@
        } else {
            "\u{2717} "@
        }) + item_id@ + step_text(prompt_index as int, total_prompts as int) + (if succeeded {
            " complete: "@
        } else {
            " failed: "@
        }) + prompt_id@,
{
    let mark = if succeeded { "\u{2713} " } else { "\u{2717} " };
    let end = if succeeded { " complete: " } else { " failed: " };
    let step = step_string(prompt_index, total_prompts);
    mark.to_owned().concat(item_id).concat(step.as_str()).concat(end).concat(prompt_id)
}

/// A line that is left out where there is nothing to show.
pub open spec fn optional_line(label: Seq<char>, value: Option<Seq<char>>) -> Seq<Seq<char>> {
    match value {
        Some(text) => seq![label + text],
        None => Seq::empty(),
    }
}

/// The lines that show a state; the pending event is given as the text that is shown for it.
pub open spec fn state_lines(state: StateView, pending: Option<Seq<char>>) -> Seq<Seq<char>> {
    seq![
        "status: "@ + status_text(state.status),
        "run_id: "@ + state.run_id,
        "item_id: "@ + state.current.item_id,
        "counter: "@ + int_text(state.current.counter as int),
        "iteration: "@ + nat_text(state.current.iteration as nat),
        "prompt_index: "@ + nat_text(state.current.prompt_index as nat),
        "prompt_id: "@ + state.current.prompt_id,
    ] + optional_line("session_file: "@, state.current.session_file) + optional_line(
        "pending_control: "@,
        pending,
    ) + optional_line("last_error: "@, state.last_error)
}

fn push_optional_line(lines: &mut Vec<String>, label: &str, value: Option<&str>)
    ensures
        texts(final(lines)@) == texts(old(lines)@) + optional_line(label@, opt_str(value)),
{
    if let Some(text) = value {
        lines.push(label.to_owned().concat(text));
    }
    assert(texts(lines@) =~= texts(old(lines)@) + optional_line(label@, opt_str(value)));
}

fn borrow_text(text: &Option<String>) -> (borrowed: Option<&str>)
    ensures
        opt_str(borrowed) == opt_text(*text),
{
    match text {
        Some(value) => Some(value.as_str()),
        None => None,
    }
}

/// Shows a state, one line for each of its parts.
pub fn status_lines(state: &State, pending: Option<&str>) -> (lines: Vec<String>)
    ensures
        texts(lines@) == state_lines(state@, opt_str(pending)),
{
    let current = &state.current;
    let mut lines: Vec<String> = Vec::new();
    lines.push("status: ".to_owned().concat(status_name(state.status)));
    lines.push("run_id: ".to_owned().concat(state.run_id.as_str()));
    lines.push("item_id: ".to_owned().concat(current.item_id.as_str()));
    lines.push("counter: ".to_owned().concat(int_string(current.counter).as_str()));
    lines.push("iteration: ".to_owned().concat(nat_string(current.iteration as u128).as_str()));
    lines.push(
        "prompt_index: ".to_owned().concat(nat_string(current.prompt_index as u128).as_str()),
    );
    lines.push("prompt_id: ".to_owned().concat(current.prompt_id.as_str()));
    assert(texts(lines@) =~= state_lines(state@, opt_str(pending)).take(7));
    push_optional_line(&mut lines, "session_file: ", borrow_text(&current.session_file));
    push_optional_line(&mut lines, "pending_control: ", pending);
    push_optional_line(&mut lines, "last_error: ", borrow_text(&state.last_error));
    assert(texts(lines@) =~= state_lines(state@, opt_str(pending)));
    lines
}

/// Whether a character is an ASCII letter or digit.
pub open spec fn is_ascii_alphanumeric(c: char) -> bool {
    ('0' <= c && c <= '9') || ('a' <= c && c <= 'z') || ('A' <= c && c <= 'Z')
}

/// A text with a dash in place of each character that is no ASCII letter or digit.
pub open spec fn sanitized(text: Seq<char>) -> Seq<char> {
    text.map_values(
        |c: char|
            if is_ascii_alphanumeric(c) {
                c
            } else {
                '-'
            },
    )
}

/// Makes the identifier of a run fit for a file name.
pub fn sanitize_run_id(run_id: &str) -> (name: String)
    ensures
        name@ == sanitized(run_id@),
{
    let mut name = String::new();
    assert(name@ =~= sanitized(run_id@.take(0)));
    for c in it: run_id.chars()
        invariant
            it.seq() == run_id@,
            name@ == sanitized(run_id@.take(it.index() as int)),
    {
        let keep = ('0' <= c && c <= '9') || ('a' <= c && c <= 'z') || ('A' <= c && c <= 'Z');
        let ghost before = name@;
        name.push(if keep { c } else { '-' });
        assert(name@ =~= sanitized(run_id@.take(it.index() + 1)));
    }
    assert(run_id@.take(run_id@.len() as int) =~= run_id@);
    name
}

/// The name of the control socket of a run.
pub fn socket_name(run_id: &str) -> (name: String)
    ensures
        name@ == "agentflow-"@ + sanitized(run_id@) + ".sock"@,
{
    "agentflow-".to_owned().concat(sanitize_run_id(run_id).as_str()).concat(".sock")
}

/// The plan of a new run, which must have items.
pub fn plan_run(config: &Config, repo_root: &str) -> (result: Result<LoopPlan, String>)
    ensures
        (match (result, planned_items(config@.loop_, repo_root@)) {
            (Ok(plan), Ok(items)) => plan@ == items && items.len() > 0,
            (Err(error), Ok(items)) => items.len() == 0 && error@ == "loop produced no items"@,
            (Err(error), Err(failure)) => message_fits(error@, failure_message(failure)),
            (Ok(_), Err(_)) => false,
        }),
{
    match build_loop_plan(config, repo_root) {
        Err(error) => {
            proof {
                lemma_message_fits(
                    error@,
                    planned_items(config@.loop_, repo_root@)->Err_0,
                );
            }
            Err(error.message())
        },
        Ok(plan) => {
            if plan.items.is_empty() {
                return Err("loop produced no items".to_owned());
            }
            Ok(plan)
        },
    }
}

/// What a new run is given to do: everything, from the first prompt of the first item on.
pub fn run_request(
    repo_root: String,
    config_path: String,
    config: Config,
    plan: LoopPlan,
    run_id: String,
) -> (request: FlowRequest)
    ensures
        request@ == (FlowRequestView {
            repo_root: repo_root@,
            config_path: config_path@,
            config: config@,
            items: plan@,
            run_id: run_id@,
            start_item: 0,
            start_prompt: 0,
            resume_session: None,
            resume_message: None,
        }),
{
    FlowRequest {
        repo_root,
        config_path,
        config,
        plan,
        run_id,
        start_item_index: 0,
        start_prompt_index: 0,
        resume_session: None,
        resume_message: None,
    }
}

/// What a run that resumes is given to do: what is left from the position of its state on, in the
/// given session.
pub open spec fn resumed_request(
    repo_root: Seq<char>,
    config_path: Seq<char>,
    config: ConfigView,
    items: Seq<LoopItemView>,
    state: StateView,
    session_file: Seq<char>,
    message: Option<Seq<char>>,
) -> Result<FlowRequestView, Seq<char>> {
    match resume_position(items, state.current) {
        Err(error) => Err(error),
        Ok(position) => Ok(
            FlowRequestView {
                repo_root,
                config_path,
                config,
                items,
                run_id: state.run_id,
                start_item: position.0,
                start_prompt: position.1,
                resume_session: Some(ResumptionView { session_file, status: state.status }),
                resume_message: message,
            },
        ),
    }
}

/// Works out what a run that resumes is given to do.
pub fn resume_request(
    repo_root: String,
    config_path: String,
    config: Config,
    plan: LoopPlan,
    state: State,
    session_file: String,
    message: Option<String>,
) -> (result: Result<FlowRequest, String>)
    ensures
        outcome(result) == resumed_request(
            repo_root@,
            config_path@,
            config@,
            plan@,
            state@,
            session_file@,
            opt_text(message),
        ),
        result is Ok ==> result->Ok_0@.start_item < result->Ok_0@.items.len(),
{
    match find_resume_position(&plan, &state.current) {
        Err(error) => Err(error),
        Ok((item_index, prompt_index)) => Ok(
            FlowRequest {
                repo_root,
                config_path,
                config,
                plan,
                run_id: state.run_id,
                start_item_index: item_index,
                start_prompt_index: prompt_index,
                resume_session: Some(Resumption { session_file, status: state.status }),
                resume_message: message,
            },
        ),
    }
}

} // verus!

//! Which runs can start, resume and be opened, where they go on, and what is shown of them.

use vstd::prelude::*;

use crate::config::{ConfigView, PromptStepView};
use crate::loop_spec::LoopItemView;
use crate::rpc::SessionInfoView;
use crate::run_laws::{is_of_run, names_place};
use crate::runner::{
    bar_text, completed_view, failed_view, filled_cells, first_equal, first_saved, is_resumable, is_saved_item, next_position,
    openable, position_at, prompt_id_at, repeated, resume_position, resumed_request, run_state,
    sanitized, shown_step, spinner_pictures, start_verdict, state_lines, step_text,
    FlowRequestView, BAR_WIDTH, CLEAR_LINE,
};
use crate::state::{
    status_text, ControlEventView, CurrentStateView, RunStatus, StateView,
};
use crate::text::{int_text, nat_text};

verus! {

/// A run can start exactly where no run is saved that is running or paused; otherwise that run is
/// named.
pub proof fn runs_do_not_start_beside_each_other(state: StateView)
    ensures
        start_verdict(None) is Ok,
        state.status == RunStatus::Halted || state.status == RunStatus::Failed || state.status
            == RunStatus::Completed ==> start_verdict(Some(state)) is Ok,
        state.status == RunStatus::Running || state.status == RunStatus::Paused ==> start_verdict(
            Some(state),
        ) == Err::<(), Seq<char>>(
            "refusing to start: existing AgentFlow run '"@ + state.run_id + "' is "@ + status_text(
                state.status,
            ) + "; use status/open/resume"@,
        ),
{
}

/// Paused and failed runs can be resumed, and no others.
pub proof fn paused_and_failed_runs_can_be_resumed()
    ensures
        is_resumable(RunStatus::Paused),
        is_resumable(RunStatus::Failed),
        !is_resumable(RunStatus::Running),
        !is_resumable(RunStatus::Halted),
        !is_resumable(RunStatus::Completed),
{
}

/// The session of a paused run can be opened where the run has one, and no other.
pub proof fn paused_runs_can_be_opened(state: StateView, file: Seq<char>)
    ensures
        openable(state) == Ok::<Seq<char>, Seq<char>>(file) <==> state.status == RunStatus::Paused
            && state.current.session_file == Some(file),
        state.status == RunStatus::Paused && state.current.session_file is None ==> openable(state)
            == Err::<Seq<char>, Seq<char>>("paused state is missing current.session_file"@),
        state.status != RunStatus::Paused ==> openable(state) == Err::<Seq<char>, Seq<char>>(
            "cannot open run with status "@ + status_text(state.status)
                + "; only paused runs can be opened"@,
        ),
{
}

proof fn lemma_first_equal(items: Seq<LoopItemView>, item: LoopItemView, from: int)
    requires
        0 <= from <= items.len(),
    ensures
        match first_equal(items, item, from) {
            Some(index) => from <= index < items.len() && items[index] == item && forall|j: int|
                from <= j < index ==> #[trigger] items[j] != item,
            None => forall|j: int| from <= j < items.len() ==> #[trigger] items[j] != item,
        },
    decreases items.len() - from,
{
    if from < items.len() && items[from] != item {
        lemma_first_equal(items, item, from + 1);
    }
}

/// An item is found at its first place in the plan, and not found exactly where it is not there.
pub proof fn items_are_found_at_their_first_place(items: Seq<LoopItemView>, item: LoopItemView)
    ensures
        match first_equal(items, item, 0) {
            Some(index) => 0 <= index < items.len() && items[index] == item && forall|j: int|
                0 <= j < index ==> #[trigger] items[j] != item,
            None => forall|j: int| 0 <= j < items.len() ==> #[trigger] items[j] != item,
        },
{
    lemma_first_equal(items, item, 0);
}

/// A run pauses at its next prompt, or at the first prompt of the next item, or behind the last prompt
/// of the last item.
pub proof fn pauses_lie_before_the_next_prompt(
    items: Seq<LoopItemView>,
    prompt_count: nat,
    index: int,
    next_prompt: int,
)
    requires
        0 <= index < items.len(),
        forall|j: int| 0 <= j < index ==> #[trigger] items[j] != items[index],
    ensures
        next_prompt < prompt_count ==> next_position(items, prompt_count, items[index], next_prompt)
            == (items[index], next_prompt),
        next_prompt >= prompt_count && index + 1 < items.len() ==> next_position(
            items,
            prompt_count,
            items[index],
            next_prompt,
        ) == (items[index + 1], 0int),
        next_prompt >= prompt_count && index + 1 == items.len() ==> next_position(
            items,
            prompt_count,
            items[index],
            next_prompt,
        ) == (items[index], next_prompt),
{
    lemma_first_equal(items, items[index], 0);
}

/// An item that is not in the plan is not left.
pub proof fn unknown_items_are_not_left(
    items: Seq<LoopItemView>,
    prompt_count: nat,
    item: LoopItemView,
    next_prompt: int,
)
    requires
        forall|j: int| 0 <= j < items.len() ==> #[trigger] items[j] != item,
    ensures
        next_position(items, prompt_count, item, next_prompt) == (item, next_prompt),
{
    lemma_first_equal(items, item, 0);
}

proof fn lemma_first_saved(items: Seq<LoopItemView>, current: CurrentStateView, from: int)
    requires
        0 <= from <= items.len(),
    ensures
        match first_saved(items, current, from) {
            Some(index) => from <= index < items.len() && is_saved_item(items[index], current)
                && forall|j: int|
                from <= j < index ==> !is_saved_item(#[trigger] items[j], current),
            None => forall|j: int|
                from <= j < items.len() ==> !is_saved_item(#[trigger] items[j], current),
        },
    decreases items.len() - from,
{
    if from < items.len() && !is_saved_item(items[from], current) {
        lemma_first_saved(items, current, from + 1);
    }
}

/// A run goes on at the first item that has the saved counter, the saved identifier and the saved
/// iteration, at the saved prompt. Where there is no such item it does not go on.
pub proof fn runs_go_on_at_their_saved_place(items: Seq<LoopItemView>, current: CurrentStateView)
    ensures
        match resume_position(items, current) {
            Ok((index, prompt)) => {
                &&& 0 <= index < items.len()
                &&& items[index].counter == current.counter
                &&& items[index].item_id == current.item_id
                &&& items[index].iteration == current.iteration
                &&& forall|j: int|
                    0 <= j < index ==> (#[trigger] items[j]).counter != current.counter
                        || items[j].item_id != current.item_id || items[j].iteration
                        != current.iteration
                &&& prompt == current.prompt_index
            },
            Err(error) => {
                &&& forall|j: int|
                    0 <= j < items.len() ==> (#[trigger] items[j]).counter != current.counter
                        || items[j].item_id != current.item_id || items[j].iteration
                        != current.iteration
                &&& error == "saved state item '"@ + current.item_id
                    + "' is not present in current loop"@
            },
        },
{
    lemma_first_saved(items, current, 0);
    if let Some(index) = first_saved(items, current, 0) {
        assert forall|j: int| 0 <= j < index implies (#[trigger] items[j]).counter
            != current.counter || items[j].item_id != current.item_id || items[j].iteration
            != current.iteration by {
            assert(!is_saved_item(items[j], current));
        }
    } else {
        assert forall|j: int| 0 <= j < items.len() implies (#[trigger] items[j]).counter
            != current.counter || items[j].item_id != current.item_id || items[j].iteration
            != current.iteration by {
            assert(!is_saved_item(items[j], current));
        }
    }
}

/// A resumed run goes on with the configuration and the plan that it is given, under its old
/// identifier, at its saved place, in the session that it is given, and with the message of the user.
pub proof fn resumed_runs_keep_their_identifier(
    repo_root: Seq<char>,
    config_path: Seq<char>,
    config: ConfigView,
    items: Seq<LoopItemView>,
    state: StateView,
    session_file: Seq<char>,
    message: Option<Seq<char>>,
)
    ensures
        match resumed_request(
            repo_root,
            config_path,
            config,
            items,
            state,
            session_file,
            message,
        ) {
            Ok(request) => {
                &&& request.repo_root == repo_root
                &&& request.config_path == config_path
                &&& request.config == config
                &&& request.items == items
                &&& request.run_id == state.run_id
                &&& resume_position(items, state.current) == Ok::<(int, int), Seq<char>>(
                    (request.start_item, request.start_prompt),
                )
                &&& request.resume_session matches Some(resumption)
                &&& resumption.session_file == session_file
                &&& resumption.status == state.status
                &&& request.resume_message == message
            },
            Err(error) => resume_position(items, state.current) == Err::<(int, int), Seq<char>>(
                error,
            ),
        },
{
}

/// A position names its item, its prompt and its session; behind the last prompt the run is complete.
pub proof fn positions_name_their_place(
    item: LoopItemView,
    prompt_index: int,
    prompts: Seq<PromptStepView>,
    session: Option<SessionInfoView>,
)
    requires
        prompt_index >= 0,
    ensures
        names_place(
            position_at(item, prompt_index, prompts, session),
            item,
            prompt_index,
            prompts,
            session,
        ),
        prompt_index < prompts.len() ==> prompt_id_at(prompts, prompt_index)
            == prompts[prompt_index].id,
        prompt_index >= prompts.len() ==> prompt_id_at(prompts, prompt_index) == "<complete>"@,
{
}

/// A state holds what it is made of, and says which run it belongs to.
pub proof fn states_belong_to_their_run(
    request: FlowRequestView,
    status: RunStatus,
    current: CurrentStateView,
    pending: Option<ControlEventView>,
    last_error: Option<Seq<char>>,
)
    ensures
        ({
            let state = run_state(request, status, current, pending, last_error);
            &&& is_of_run(state, request, status)
            &&& state.current == current
            &&& state.pending_control == pending
            &&& state.last_error == last_error
        }),
{
}

/// Steps are counted from one, up to the number of prompts; there is always one to show.
pub proof fn steps_are_counted_from_one(prompt_index: int, total_prompts: int)
    requires
        prompt_index >= 0,
        total_prompts >= 0,
    ensures
        prompt_index < total_prompts ==> shown_step(prompt_index, total_prompts) == prompt_index + 1,
        prompt_index >= total_prompts && total_prompts > 0 ==> shown_step(
            prompt_index,
            total_prompts,
        ) == total_prompts,
        total_prompts == 0 ==> shown_step(prompt_index, total_prompts) == 1,
        step_text(prompt_index, total_prompts) == " step "@ + nat_text(
            shown_step(prompt_index, total_prompts) as nat,
        ) + "/"@ + nat_text(
            if total_prompts == 0 {
                1
            } else {
                total_prompts as nat
            },
        ),
{
}

/// The filled part of a bar is the smallest that is not less than the share of the steps that is
/// shown, and it does not grow beyond the bar. The bar stands between brackets, the filled part first.
pub proof fn bars_fill_with_the_steps(prompt_index: int, total_prompts: int, width: int)
    requires
        prompt_index >= 0,
        total_prompts >= 0,
        width >= 0,
    ensures
        ({
            let total: int = if total_prompts > 0 {
                total_prompts
            } else {
                1
            };
            let filled = filled_cells(prompt_index, total_prompts, width);
            let bar = bar_text(prompt_index, total_prompts, width);
            &&& 0 <= filled <= width
            &&& filled * total >= shown_step(prompt_index, total_prompts) * width
            &&& (filled - 1) * total < shown_step(prompt_index, total_prompts) * width
            &&& bar.len() == width + 2
            &&& bar[0] == '['
            &&& bar.last() == ']'
            &&& forall|i: int| 1 <= i <= filled ==> #[trigger] bar[i] == '\u{2588}'
            &&& forall|i: int| filled < i <= width ==> #[trigger] bar[i] == '\u{2591}'
        }),
{
    let t: int = if total_prompts > 0 {
        total_prompts
    } else {
        1
    };
    let s = shown_step(prompt_index, total_prompts);
    let c = s * width;
    let filled = (c + t - 1) / t;
    assert(0 <= c <= t * width) by (nonlinear_arith)
        requires
            c == s * width,
            1 <= s <= t,
            width >= 0,
    ;
    assert(filled * t >= c && (filled - 1) * t < c && 0 <= filled) by (nonlinear_arith)
        requires
            filled == (c + t - 1) / t,
            t >= 1,
            c >= 0,
    ;
    assert(filled <= width) by (nonlinear_arith)
        requires
            (filled - 1) * t < c,
            c <= t * width,
            t >= 1,
    ;
    reveal_strlit("[");
    reveal_strlit("]");
}

/// The spinner has ten pictures, no two of them alike.
pub proof fn spinners_turn()
    ensures
        spinner_pictures().len() == 10,
        forall|i: int, j: int|
            0 <= i < j < 10 ==> #[trigger] spinner_pictures()[i] != #[trigger] spinner_pictures()[j],
{
}

/// A repeated character fills a text of the given length.
pub proof fn repetitions_have_their_length(c: char, n: int)
    requires
        n >= 0,
    ensures
        repeated(c, n).len() == n,
        forall|i: int| 0 <= i < n ==> #[trigger] repeated(c, n)[i] == c,
{
}

/// A name that is made fit for a file is as long as it was, keeps its ASCII letters and digits, and has
/// a dash in the place of everything else.
pub proof fn file_names_keep_letters_and_digits(text: Seq<char>, i: int)
    requires
        0 <= i < text.len(),
    ensures
        sanitized(text).len() == text.len(),
        '0' <= text[i] <= '9' || 'a' <= text[i] <= 'z' || 'A' <= text[i] <= 'Z' ==> sanitized(
            text,
        )[i] == text[i],
        !('0' <= text[i] <= '9' || 'a' <= text[i] <= 'z' || 'A' <= text[i] <= 'Z') ==> sanitized(
            text,
        )[i] == '-',
{
}

/// A state is shown line by line: what every state has, then the session, the request and the error,
/// each only where there is one.
pub proof fn states_are_shown_line_by_line(state: StateView, pending: Option<Seq<char>>)
    requires
        state.current.prompt_index >= 0,
    ensures
        ({
            let lines = state_lines(state, pending);
            let session: int = if state.current.session_file is Some {
                1
            } else {
                0
            };
            let request: int = if pending is Some {
                1
            } else {
                0
            };
            let error: int = if state.last_error is Some {
                1
            } else {
                0
            };
            &&& lines.len() == 7 + session + request + error
            &&& lines[0] == "status: "@ + status_text(state.status)
            &&& lines[1] == "run_id: "@ + state.run_id
            &&& lines[2] == "item_id: "@ + state.current.item_id
            &&& lines[3] == "counter: "@ + int_text(state.current.counter as int)
            &&& lines[4] == "iteration: "@ + int_text(state.current.iteration as int)
            &&& lines[5] == "prompt_index: "@ + int_text(state.current.prompt_index)
            &&& lines[6] == "prompt_id: "@ + state.current.prompt_id
            &&& state.current.session_file matches Some(file) ==> lines[7] == "session_file: "@
                + file
            &&& pending matches Some(event) ==> lines[7 + session] == "pending_control: "@ + event
            &&& state.last_error matches Some(text) ==> lines[7 + session + request]
                == "last_error: "@ + text
        }),
{
}

/// The state of a run that has done everything stands at the last prompt of the given item, without a
/// session, a request or an error.
pub proof fn completed_states_stand_at_the_last_prompt(request: FlowRequestView, item: LoopItemView)
    ensures
        ({
            let state = completed_view(request, item);
            let prompts = request.config.prompts;
            &&& is_of_run(state, request, RunStatus::Completed)
            &&& prompts.len() > 0 ==> names_place(
                state.current,
                item,
                prompts.len() - 1,
                prompts,
                None,
            )
            &&& prompts.len() == 0 ==> names_place(state.current, item, 0, prompts, None)
            &&& state.pending_control is None
            &&& state.last_error is None
        }),
{
}

/// The state of a run that has failed tells the error. It keeps the place and the request of the state
/// that was saved last, where that is of the same run, and otherwise stands where the run started.
pub proof fn failed_states_keep_their_place(
    request: FlowRequestView,
    previous: Option<StateView>,
    item: LoopItemView,
    error: Seq<char>,
)
    requires
        request.start_prompt >= 0,
    ensures
        ({
            let state = failed_view(request, previous, item, error);
            &&& is_of_run(state, request, RunStatus::Failed)
            &&& state.last_error == Some(error)
            &&& previous is Some && previous->0.run_id == request.run_id ==> state.current
                == previous->0.current && state.pending_control == previous->0.pending_control
            &&& previous is None || previous->0.run_id != request.run_id ==> names_place(
                state.current,
                item,
                request.start_prompt,
                request.config.prompts,
                None,
            ) && state.pending_control is None
        }),
{
}

/// The line that is shown while the agent works begins with what empties the line, turns through its
/// pictures, and has a bar of its own width.
pub proof fn progress_is_drawn_on_one_line()
    ensures
        CLEAR_LINE@ == "\r\u{1b}[2K"@,
        BAR_WIDTH == 24,
        spinner_pictures()[0] == '\u{280b}',
        spinner_pictures()[1] == '\u{2819}',
        spinner_pictures()[2] == '\u{2839}',
        spinner_pictures()[3] == '\u{2838}',
        spinner_pictures()[4] == '\u{283c}',
        spinner_pictures()[5] == '\u{2834}',
        spinner_pictures()[6] == '\u{2826}',
        spinner_pictures()[7] == '\u{2827}',
        spinner_pictures()[8] == '\u{2807}',
        spinner_pictures()[9] == '\u{280f}',
{
}

} // verus!

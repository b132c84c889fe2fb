//! What holds of configurations, plans, control events and saved states as a whole.

use vstd::prelude::*;

use crate::config::{
    argument_mistakes, basic_mistakes, config_accepted, first_pause, first_prompt_mistakes,
    has_message, item_template_mistakes, items_template_mistakes, loop_mistakes, notify_mistakes,
    overridden_loop, prompt_mistakes, prompt_template_mistakes, prompts_mistakes,
    prompts_template_mistakes, repeats_id, session_mistakes, ConfigView, LoopConfigView,
    LoopOverrides, NotifyConfigView, PromptStepView, TRIAL_MESSAGE,
};
use crate::control::drained;
use crate::error::{ErrorView, Failure};
use crate::files::latest_session_file;
use crate::flow::{stop_state, FlowView};
use crate::flow_laws::{lemma_next_item, place};
use crate::json::{is_flat, JsonView};
use crate::loop_spec::{
    counter_at, end_count, first_items, lemma_end_count, planned_items, LoopItemView,
};
use crate::records::session_record_view;
use crate::rpc::SessionInfoView;
use crate::runner::{
    failed_view, first_equal, first_saved, is_resumable, is_saved_item, next_position, openable,
    position_at, resume_position, start_verdict, FlowRequestView,
};
use crate::state::{ControlEventView, CurrentStateView};
use crate::template::{
    context_of, double_quoted, escaped, notify_argv, prompt_context, rendered_item_id,
    strictly_rendered,
};
use crate::text::{
    digits_value, int_text, is_blank, is_digit, nat_text, number_of_digits, parsed_i64,
};

verus! {

/// Whether the items of a plan are numbered as the loop says: the counter goes up from the start by
/// the step, the iteration counts from one and the index from zero, and each identifier is the
/// rendered template and not blank.
pub open spec fn items_follow(
    loop_: LoopConfigView,
    repo_root: Seq<char>,
    items: Seq<LoopItemView>,
) -> bool {
    forall|i: int|
        0 <= i < items.len() ==> {
            let item = #[trigger] items[i];
            &&& item.counter == counter_at(loop_, i)
            &&& item.iteration_index == i
            &&& item.iteration == i + 1
            &&& !is_blank(item.item_id)
            &&& rendered_item_id(
                loop_.item_id,
                item.counter,
                item.iteration,
                item.iteration_index,
                repo_root,
            ) == Some(item.item_id)
        }
}

proof fn lemma_first_items_follow(
    loop_: LoopConfigView,
    repo_root: Seq<char>,
    n: nat,
    overflow: Seq<char>,
)
    requires
        first_items(loop_, repo_root, n, overflow) is Ok,
        loop_.step > 0,
        n <= u64::MAX,
    ensures
        ({
            let items = first_items(loop_, repo_root, n, overflow)->Ok_0;
            &&& items.len() == n
            &&& items_follow(loop_, repo_root, items)
        }),
    decreases n,
{
    if n > 0 {
        lemma_first_items_follow(loop_, repo_root, (n - 1) as nat, overflow);
        assert((n - 1) * loop_.step >= 0) by (nonlinear_arith)
            requires
                n >= 1,
                loop_.step > 0,
        ;
    }
}

/// A plan has the items that its loop asks for: as many as the count, or every counter from the start
/// up to and including the end.
pub proof fn plans_hold_the_items_of_the_loop(loop_: LoopConfigView, repo_root: Seq<char>)
    requires
        planned_items(loop_, repo_root) is Ok,
    ensures
        ({
            let items = planned_items(loop_, repo_root)->Ok_0;
            &&& items.len() > 0
            &&& items_follow(loop_, repo_root, items)
            &&& match (loop_.count, loop_.end) {
                (Some(count), None) => items.len() == count,
                (None, Some(end)) => items.last().counter <= end < counter_at(
                    loop_,
                    items.len() as int,
                ),
                _ => false,
            }
        }),
{
    match (loop_.end, loop_.count) {
        (None, Some(count)) => {
            lemma_first_items_follow(
                loop_,
                repo_root,
                count as nat,
                "counter overflow while expanding count loop"@,
            );
        },
        (Some(end), None) => {
            lemma_end_count(loop_, end);
            let d = end - loop_.start;
            let s = loop_.step as int;
            assert(d / s <= d) by (nonlinear_arith)
                requires
                    d >= 0,
                    s > 0,
            ;
            if d / s + 1 > u64::MAX {
                lemma_iteration_overflows(
                    loop_,
                    repo_root,
                    end_count(loop_, end),
                    "counter overflow while expanding end loop"@,
                );
            }
            lemma_first_items_follow(
                loop_,
                repo_root,
                end_count(loop_, end),
                "counter overflow while expanding end loop"@,
            );
        },
        _ => {},
    }
}

/// There are no more items than iterations can count.
proof fn lemma_iteration_overflows(
    loop_: LoopConfigView,
    repo_root: Seq<char>,
    n: nat,
    overflow: Seq<char>,
)
    requires
        n > u64::MAX,
    ensures
        first_items(loop_, repo_root, n, overflow) is Err,
    decreases n,
{
    if n > u64::MAX as nat + 1 {
        lemma_iteration_overflows(loop_, repo_root, (n - 1) as nat, overflow);
    }
}

/// The counters of a plan rise from item to item.
pub proof fn counters_rise(loop_: LoopConfigView, repo_root: Seq<char>, i: int, j: int)
    requires
        planned_items(loop_, repo_root) is Ok,
        0 <= i < j < planned_items(loop_, repo_root)->Ok_0.len(),
    ensures
        planned_items(loop_, repo_root)->Ok_0[i].counter < planned_items(
            loop_,
            repo_root,
        )->Ok_0[j].counter,
{
    plans_hold_the_items_of_the_loop(loop_, repo_root);
    assert(i * loop_.step < j * loop_.step) by (nonlinear_arith)
        requires
            loop_.step > 0,
            i < j,
    ;
}

/// The bounds of a loop: exactly one of them, and one that lets the loop run.
pub open spec fn loop_is_sound(loop_: LoopConfigView) -> bool {
    &&& loop_.step > 0
    &&& !is_blank(loop_.item_id)
    &&& match (loop_.end, loop_.count) {
        (Some(end), None) => loop_.start <= end,
        (None, Some(count)) => count > 0,
        _ => false,
    }
}

/// Prompts that can be sent: there is one, each has an identifier of its own and a text, and each
/// that pauses has a message and sessions that are kept.
pub open spec fn prompts_are_sound(prompts: Seq<PromptStepView>, sessions: bool) -> bool {
    &&& prompts.len() > 0
    &&& forall|i: int|
        0 <= i < prompts.len() ==> {
            let prompt = #[trigger] prompts[i];
            &&& !is_blank(prompt.id)
            &&& !is_blank(prompt.text)
            &&& prompt.pause_after ==> has_message(prompt) && sessions
        }
    &&& forall|i: int, j: int|
        0 <= i < j < prompts.len() ==> (#[trigger] prompts[i]).id != (#[trigger] prompts[j]).id
}

/// A notification command that can be run: it has a program, and no argument is empty.
pub open spec fn notify_is_sound(notify: Option<NotifyConfigView>) -> bool {
    match notify {
        Some(NotifyConfigView { command: Some(command) }) => {
            &&& command.len() > 0
            &&& forall|i: int| 0 <= i < command.len() ==> (#[trigger] command[i]).len() > 0
        },
        _ => true,
    }
}

/// Whether every template renders for an item.
pub open spec fn templates_render(
    config: ConfigView,
    repo_root: Seq<char>,
    item: LoopItemView,
) -> bool {
    let context = context_of(item, repo_root, None);
    &&& forall|i: int|
        0 <= i < config.prompts.len() ==> {
            let prompt = #[trigger] config.prompts[i];
            &&& strictly_rendered(prompt.text, prompt_context(context)) is Some
            &&& prompt.message is Some ==> strictly_rendered(
                prompt.message->0,
                prompt_context(context),
            ) is Some
        }
    &&& config.notify is Some ==> notify_argv(config.notify->0, context, TRIAL_MESSAGE@) is Some
}

/// A configuration that can be run.
pub open spec fn config_is_sound(config: ConfigView, repo_root: Seq<char>) -> bool {
    &&& loop_is_sound(config.loop_)
    &&& prompts_are_sound(config.prompts, config.sessions)
    &&& notify_is_sound(config.notify)
    &&& planned_items(config.loop_, repo_root) is Ok
    &&& forall|i: int|
        0 <= i < planned_items(config.loop_, repo_root)->Ok_0.len() ==> templates_render(
            config,
            repo_root,
            #[trigger] planned_items(config.loop_, repo_root)->Ok_0[i],
        )
}

proof fn lemma_first_prompts(prompts: Seq<PromptStepView>, n: nat)
    requires
        n <= prompts.len(),
    ensures
        first_prompt_mistakes(prompts, n).len() == 0 <==> forall|i: int|
            0 <= i < n ==> (#[trigger] prompt_mistakes(prompts, i)).len() == 0,
    decreases n,
{
    if n > 0 {
        lemma_first_prompts(prompts, (n - 1) as nat);
        assert(first_prompt_mistakes(prompts, n).len() == first_prompt_mistakes(
            prompts,
            (n - 1) as nat,
        ).len() + prompt_mistakes(prompts, n - 1).len());
    }
}

proof fn lemma_no_pause(prompts: Seq<PromptStepView>, n: nat)
    requires
        n <= prompts.len(),
    ensures
        first_pause(prompts, n) is None <==> forall|i: int|
            0 <= i < n ==> !(#[trigger] prompts[i]).pause_after,
    decreases n,
{
    if n > 0 {
        lemma_no_pause(prompts, (n - 1) as nat);
    }
}

proof fn lemma_arguments(command: Seq<Seq<char>>, n: nat)
    requires
        n <= command.len(),
    ensures
        argument_mistakes(command, n).len() == 0 <==> forall|i: int|
            0 <= i < n ==> (#[trigger] command[i]).len() > 0,
    decreases n,
{
    if n > 0 {
        lemma_arguments(command, (n - 1) as nat);
    }
}

proof fn lemma_prompt_templates(
    prompts: Seq<PromptStepView>,
    item_id: Seq<char>,
    context: JsonView,
    n: nat,
)
    requires
        n <= prompts.len(),
    ensures
        prompts_template_mistakes(prompts, item_id, context, n).len() == 0 <==> forall|i: int|
            0 <= i < n ==> {
                let prompt = #[trigger] prompts[i];
                &&& strictly_rendered(prompt.text, context) is Some
                &&& prompt.message is Some ==> strictly_rendered(prompt.message->0, context) is Some
            },
    decreases n,
{
    if n > 0 {
        lemma_prompt_templates(prompts, item_id, context, (n - 1) as nat);
        let last = prompts[n - 1];
        assert(prompt_template_mistakes(last, item_id, context).len() == 0 <==> {
            &&& strictly_rendered(last.text, context) is Some
            &&& last.message is Some ==> strictly_rendered(last.message->0, context) is Some
        });
    }
}

proof fn lemma_item_templates(
    config: ConfigView,
    repo_root: Seq<char>,
    items: Seq<LoopItemView>,
    n: nat,
)
    requires
        n <= items.len(),
    ensures
        items_template_mistakes(config, repo_root, items, n).len() == 0 <==> forall|i: int|
            0 <= i < n ==> templates_render(config, repo_root, #[trigger] items[i]),
    decreases n,
{
    if n > 0 {
        lemma_item_templates(config, repo_root, items, (n - 1) as nat);
        let item = items[n - 1];
        lemma_prompt_templates(
            config.prompts,
            item.item_id,
            prompt_context(context_of(item, repo_root, None)),
            config.prompts.len(),
        );
        assert(item_template_mistakes(config, repo_root, item).len() == 0 <==> templates_render(
            config,
            repo_root,
            item,
        ));
    }
}

proof fn lemma_basic_mistakes(config: ConfigView)
    ensures
        basic_mistakes(config).len() == 0 <==> loop_is_sound(config.loop_) && prompts_are_sound(
            config.prompts,
            config.sessions,
        ) && notify_is_sound(config.notify),
{
    let prompts = config.prompts;
    assert(loop_mistakes(config.loop_).len() == 0 <==> loop_is_sound(config.loop_));
    lemma_first_prompts(prompts, prompts.len());
    lemma_no_pause(prompts, prompts.len());
    match config.notify {
        Some(NotifyConfigView { command: Some(command) }) => {
            lemma_arguments(command, command.len());
        },
        _ => {},
    }
    assert(notify_mistakes(config.notify).len() == 0 <==> notify_is_sound(config.notify));
    assert(basic_mistakes(config).len() == loop_mistakes(config.loop_).len() + prompts_mistakes(
        prompts,
    ).len() + notify_mistakes(config.notify).len() + session_mistakes(config).len());
    if prompts_mistakes(prompts).len() == 0 && session_mistakes(config).len() == 0 {
        assert(first_prompt_mistakes(prompts, prompts.len()).len() == 0);
        assert forall|i: int| 0 <= i < prompts.len() implies {
            let prompt = #[trigger] prompts[i];
            &&& !is_blank(prompt.id)
            &&& !is_blank(prompt.text)
            &&& prompt.pause_after ==> has_message(prompt) && config.sessions
            &&& !repeats_id(prompts, i)
        } by {
            assert(prompt_mistakes(prompts, i).len() == 0);
        }
        assert forall|i: int, j: int| 0 <= i < j < prompts.len() implies (#[trigger] prompts[i]).id
            != (#[trigger] prompts[j]).id by {
            assert(!repeats_id(prompts, j));
        }
        assert(prompts_are_sound(prompts, config.sessions));
    }
    if prompts_are_sound(prompts, config.sessions) {
        assert forall|i: int| 0 <= i < prompts.len() implies (#[trigger] prompt_mistakes(
            prompts,
            i,
        )).len() == 0 by {
            let prompt = prompts[i];
            assert(!repeats_id(prompts, i));
        }
        assert(prompts_mistakes(prompts).len() == 0);
        assert(session_mistakes(config).len() == 0);
    }
}

/// A configuration is accepted exactly where it can be run: its loop has one sound bound, its prompts
/// and its notification command are complete, every item has an identifier, and every template
/// renders for every item.
pub proof fn accepted_configurations_are_sound(config: ConfigView, repo_root: Seq<char>)
    ensures
        config_accepted(config, repo_root) <==> config_is_sound(config, repo_root),
{
    lemma_basic_mistakes(config);
    if basic_mistakes(config).len() == 0 {
        if let Ok(items) = planned_items(config.loop_, repo_root) {
            lemma_item_templates(config, repo_root, items, items.len());
        }
    }
}

/// A run of an accepted configuration does not fail in rendering a prompt or the message of a pause.
pub proof fn accepted_runs_render(request: FlowRequestView, flow: FlowView)
    requires
        config_accepted(request.config, request.repo_root),
        planned_items(request.config.loop_, request.repo_root) == Ok::<
            Seq<LoopItemView>,
            Failure<ErrorView>,
        >(request.items),
        0 <= flow.item < request.items.len(),
        0 <= flow.prompt < request.config.prompts.len(),
    ensures
        flow.rendered(request) is Some,
        flow.pause(request) is Ok,
        request.config.prompts[flow.prompt].pause_after ==> flow.pause(request)->Ok_0 is Some,
{
    accepted_configurations_are_sound(request.config, request.repo_root);
    assert(templates_render(request.config, request.repo_root, request.items[flow.item]));
}

/// Overrides leave at most one bound where they give one, keep the step and the identifier, and
/// change nothing when they are applied again.
pub proof fn overrides_select_one_bound(loop_: LoopConfigView, overrides: LoopOverrides)
    ensures
        ({
            let changed = overridden_loop(loop_, overrides);
            &&& overrides.count is Some ==> changed.count == overrides.count && changed.end is None
            &&& overrides.count is None && overrides.end is Some ==> changed.end == overrides.end
                && changed.count is None
            &&& overrides.count is None && overrides.end is None ==> changed.end == loop_.end
                && changed.count == loop_.count
            &&& overrides.start is Some ==> changed.start == overrides.start->0
            &&& overrides.start is None ==> changed.start == loop_.start
            &&& changed.step == loop_.step
            &&& changed.item_id == loop_.item_id
            &&& overridden_loop(changed, overrides) == changed
        }),
{
}

/// A halt wins over every notification, whatever their order; of several halts, and of several
/// notifications where there is no halt, the latest counts.
pub proof fn halts_win(events: Seq<ControlEventView>)
    ensures
        match drained(events, None) {
            None => events.len() == 0,
            Some(event) => exists|i: int|
                0 <= i < events.len() && event == #[trigger] events[i] && (if event is Halt {
                    forall|j: int| i < j < events.len() ==> !(#[trigger] events[j] is Halt)
                } else {
                    i == events.len() - 1 && forall|j: int|
                        0 <= j < events.len() ==> !(#[trigger] events[j] is Halt)
                }),
        },
    decreases events.len(),
{
    if events.len() > 0 {
        let before = events.drop_last();
        halts_win(before);
        let last = events.len() - 1;
        assert(events[last] == events.last());
        match drained(before, None) {
            Some(event) => {
                let i = choose|i: int|
                    0 <= i < before.len() && event == #[trigger] before[i] && (if event is Halt {
                        forall|j: int| i < j < before.len() ==> !(#[trigger] before[j] is Halt)
                    } else {
                        i == before.len() - 1 && forall|j: int|
                            0 <= j < before.len() ==> !(#[trigger] before[j] is Halt)
                    });
                assert(events[i] == before[i]);
                assert forall|j: int| 0 <= j < before.len() implies events[j]
                    == #[trigger] before[j] by {}
                if event is Halt && !(events.last() is Halt) {
                    assert(drained(events, None) == Some(events[i]));
                    assert forall|j: int| i < j < events.len() implies !(#[trigger] events[j] is Halt) by {
                        if j < last {
                            assert(before[j] == events[j]);
                        }
                    }
                } else if !(events.last() is Halt) {
                    assert forall|j: int| 0 <= j < events.len() implies !(#[trigger] events[j] is Halt) by {
                        if j < last {
                            assert(before[j] == events[j]);
                        }
                    }
                }
            },
            None => {},
        }
        assert(drained(events, None) is Some);
    }
}

proof fn lemma_first_saved(items: Seq<LoopItemView>, current: CurrentStateView, i: int, from: int)
    requires
        0 <= from <= i < items.len(),
        is_saved_item(items[i], current),
        forall|k: int| 0 <= k < items.len() ==> (#[trigger] items[k]).iteration == k + 1,
    ensures
        first_saved(items, current, from) == Some(i),
    decreases i - from,
{
    assert(items[from].iteration == from + 1);
    assert(items[i].iteration == i + 1);
    if from < i {
        lemma_first_saved(items, current, i, from + 1);
    }
}

proof fn lemma_first_equal(items: Seq<LoopItemView>, i: int, from: int)
    requires
        0 <= from <= i < items.len(),
        forall|k: int| 0 <= k < items.len() ==> (#[trigger] items[k]).iteration == k + 1,
    ensures
        first_equal(items, items[i], from) == Some(i),
    decreases i - from,
{
    assert(items[from].iteration == from + 1);
    assert(items[i].iteration == i + 1);
    if from < i {
        lemma_first_equal(items, i, from + 1);
    }
}

/// The position that a state holds is found again in the plan of the same loop.
pub proof fn saved_positions_are_found_again(
    loop_: LoopConfigView,
    repo_root: Seq<char>,
    prompts: Seq<PromptStepView>,
    item: int,
    prompt: int,
    session: Option<SessionInfoView>,
)
    requires
        planned_items(loop_, repo_root) is Ok,
        0 <= item < planned_items(loop_, repo_root)->Ok_0.len(),
    ensures
        ({
            let items = planned_items(loop_, repo_root)->Ok_0;
            resume_position(items, position_at(items[item], prompt, prompts, session)) == Ok::<
                (int, int),
                Seq<char>,
            >((item, prompt))
        }),
{
    plans_hold_the_items_of_the_loop(loop_, repo_root);
    let items = planned_items(loop_, repo_root)->Ok_0;
    lemma_first_saved(items, position_at(items[item], prompt, prompts, session), item, 0);
}

/// A run that pauses can be resumed, and then goes on at the place that follows the prompt that was
/// sent last. Until then no other run can start. Its session can be opened, where it has one.
pub proof fn paused_runs_resume_at_the_next_prompt(
    request: FlowRequestView,
    flow: FlowView,
    event: ControlEventView,
    next_prompt: int,
    report: Option<Seq<char>>,
)
    requires
        planned_items(request.config.loop_, request.repo_root) == Ok::<
            Seq<LoopItemView>,
            Failure<ErrorView>,
        >(request.items),
        0 <= flow.item < request.items.len(),
        0 <= next_prompt <= request.config.prompts.len(),
        event is Notify,
    ensures
        ({
            let state = stop_state(request, flow, event, next_prompt, report);
            &&& is_resumable(state.status)
            &&& resume_position(request.items, state.current) matches Ok((item, prompt)) && place(
                request,
                item,
                prompt,
            ) == place(request, flow.item, next_prompt)
            &&& start_verdict(Some(state)) is Err
            &&& flow.session matches Some(session) ==> openable(state) == Ok::<
                Seq<char>,
                Seq<char>,
            >(session.session_file)
        }),
{
    plans_hold_the_items_of_the_loop(request.config.loop_, request.repo_root);
    let items = request.items;
    let prompts = request.config.prompts;
    let spot = next_position(items, prompts.len(), items[flow.item], next_prompt);
    lemma_first_equal(items, flow.item, 0);
    let index = if next_prompt >= prompts.len() && flow.item + 1 < items.len() {
        flow.item + 1
    } else {
        flow.item
    };
    lemma_next_item(request, flow.item);
    lemma_first_saved(items, position_at(spot.0, spot.1, prompts, flow.session), index, 0);
}

/// A run that fails while a prompt is with the agent can be resumed, and then sends that prompt again.
/// Another run can start as well.
pub proof fn failed_runs_resume_at_the_saved_prompt(
    request: FlowRequestView,
    flow: FlowView,
    error: Seq<char>,
)
    requires
        planned_items(request.config.loop_, request.repo_root) == Ok::<
            Seq<LoopItemView>,
            Failure<ErrorView>,
        >(request.items),
        0 <= flow.item < request.items.len(),
    ensures
        ({
            let state = failed_view(
                request,
                Some(flow.running(request)),
                request.items[request.start_item],
                error,
            );
            &&& is_resumable(state.status)
            &&& resume_position(request.items, state.current) == Ok::<(int, int), Seq<char>>(
                (flow.item, flow.prompt),
            )
            &&& state.last_error == Some(error)
            &&& start_verdict(Some(state)) is Ok
        }),
{
    saved_positions_are_found_again(
        request.config.loop_,
        request.repo_root,
        request.config.prompts,
        flow.item,
        flow.prompt,
        flow.session,
    );
}

/// A run that halts is over: it can neither be resumed nor opened, and another run can start.
pub proof fn halted_runs_are_over(
    request: FlowRequestView,
    flow: FlowView,
    event: ControlEventView,
    next_prompt: int,
    report: Option<Seq<char>>,
)
    requires
        event is Halt,
    ensures
        ({
            let state = stop_state(request, flow, event, next_prompt, report);
            &&& !is_resumable(state.status)
            &&& openable(state) is Err
            &&& start_verdict(Some(state)) is Ok
        }),
{
}

proof fn lemma_digits_are_read_back(n: nat)
    ensures
        digits_value(nat_text(n)) == n,
        nat_text(n).len() > 0,
        forall|i: int| 0 <= i < nat_text(n).len() ==> is_digit(#[trigger] nat_text(n)[i]),
    decreases n,
{
    let digits = nat_text(n);
    if n >= 10 {
        lemma_digits_are_read_back(n / 10);
        assert(digits.drop_last() =~= nat_text(n / 10));
    } else {
        assert(digits.drop_last() =~= Seq::empty());
        assert(digits_value(Seq::empty()) == 0);
    }
}

/// The counter of an item is read back from the text that the agent's environment holds.
pub proof fn counters_are_read_back(counter: i64)
    ensures
        parsed_i64(int_text(counter as int)) == Some(counter),
{
    let magnitude = if counter < 0 {
        (-counter) as nat
    } else {
        counter as nat
    };
    let digits = nat_text(magnitude);
    lemma_digits_are_read_back(magnitude);
    assert(is_digit(digits[0]));
    assert(int_text(counter as int).drop_first() =~= (if counter < 0 {
        digits
    } else {
        digits.drop_first()
    }));
    assert(number_of_digits(digits) == Some(magnitude as u64));
}

/// What a reader of a quoted text has seen behind the opening quote: whether a backslash waits for
/// its character, whether a bare quote has come, and the characters so far.
pub open spec fn read_quoted(text: Seq<char>) -> (bool, bool, Seq<char>)
    decreases text.len(),
{
    if text.len() == 0 {
        (false, false, Seq::empty())
    } else {
        let (waits, closed, seen) = read_quoted(text.drop_last());
        if waits {
            (false, closed, seen.push(text.last()))
        } else if text.last() == '\\' {
            (true, closed, seen)
        } else {
            (false, closed || text.last() == '"', seen.push(text.last()))
        }
    }
}

/// A quoted text stands between two quotes, holds no other bare quote, and is read back as the text.
pub proof fn quoted_texts_are_read_back(text: Seq<char>)
    ensures
        double_quoted(text) == seq!['"'] + escaped(text) + seq!['"'],
        read_quoted(escaped(text)) == (false, false, text),
    decreases text.len(),
{
    if text.len() > 0 {
        let before = text.drop_last();
        let last = text.last();
        quoted_texts_are_read_back(before);
        if last == '"' || last == '\\' {
            let slashed = escaped(before).push('\\');
            assert(slashed.drop_last() =~= escaped(before));
            assert(read_quoted(slashed) == (true, false, before));
            assert(escaped(text).drop_last() =~= slashed);
        } else {
            assert(escaped(text).drop_last() =~= escaped(before));
        }
        assert(before.push(last) =~= text);
    }
    assert(double_quoted(text) =~= seq!['"'] + escaped(text) + seq!['"']);
}

/// The record of a session is an object of strings.
pub proof fn session_records_are_flat(
    prompt_id: Seq<char>,
    session: SessionInfoView,
    started_at: Seq<char>,
    reason: Seq<char>,
)
    ensures
        is_flat(session_record_view(prompt_id, session, started_at, reason)),
{
}

/// The session that is recorded last is the one that is found.
pub proof fn the_last_recorded_session_is_found(
    records: Seq<JsonView>,
    prompt_id: Seq<char>,
    session: SessionInfoView,
    started_at: Seq<char>,
    reason: Seq<char>,
)
    requires
        session.session_file.len() > 0,
    ensures
        latest_session_file(
            records.push(session_record_view(prompt_id, session, started_at, reason)),
        ) == Some(session.session_file),
{
    reveal_strlit("session_file");
    reveal_strlit("started_at");
    reveal_strlit("reason");
    assert("session_file"@.len() == 12);
    assert("started_at"@.len() == 10);
    assert("reason"@.len() == 6);
    let record = session_record_view(prompt_id, session, started_at, reason);
    assert(record.member_text("session_file"@) == Some(session.session_file));
    assert(records.push(record).last() == record);
}

} // verus!

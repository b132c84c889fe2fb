//! Which mistakes of a configuration are told, and in which words.

use vstd::prelude::*;

use crate::config::{
    all_told, argument_mistakes, at_prompt, basic_mistakes, config_accepted, first_pause,
    first_prompt_mistakes, has_message, item_template_mistakes, items_template_mistakes,
    loop_mistakes, message_failure_start, notify_failure_start, notify_mistakes,
    prompt_failure_start, prompt_mistakes, prompt_template_mistakes, prompts_mistakes,
    prompts_template_mistakes, repeats_id, session_mistakes, tells, tells_mistakes, tells_more,
    template_mistakes, ConfigView, LoopConfigView, NotifyConfigView, PromptStepView,
    TemplateMistake,
};
use crate::error::{ErrorView, Failure};
use crate::json::JsonView;
use crate::loop_spec::{planned_items, LoopItemView};
use crate::render_laws::{
    configured_commands_are_tried, prompts_get_the_variables_of_their_item, speaks_of,
    variables_are_determined,
};
use crate::template::{context_of, prompt_context, strictly_rendered};
use crate::text::{is_blank, joined, nat_text};

verus! {

/// One where something holds, and zero where it does not.
pub open spec fn one_if(holds: bool) -> int {
    if holds {
        1
    } else {
        0
    }
}

/// Each mistake of the loop settings is told, and nothing else is.
pub proof fn mistakes_of_the_loop_are_told(loop_: LoopConfigView)
    ensures
        ({
            let told = loop_mistakes(loop_);
            let bounds = loop_.end is Some && loop_.count is Some || loop_.end is None
                && loop_.count is None;
            let none = loop_.count == Some(0u64);
            let step = loop_.step <= 0;
            let backward = loop_.step > 0 && loop_.end is Some && loop_.end->0 < loop_.start;
            let name = is_blank(loop_.item_id);
            &&& told.len() == one_if(bounds) + one_if(none) + one_if(step) + one_if(backward)
                + one_if(name)
            &&& bounds ==> told[0] == "exactly one of loop.end or loop.count must be set"@
            &&& none ==> told[one_if(bounds)] == "loop.count must be greater than 0"@
            &&& step ==> told[one_if(bounds) + one_if(none)] == "loop.step must be greater than 0"@
            &&& backward ==> told[one_if(bounds) + one_if(none)]
                == "loop.end must be greater than or equal to loop.start"@
            &&& name ==> told.last() == "loop.item_id must not be empty"@
        }),
{
}

/// Each mistake of a prompt is told, and nothing else is. Identifiers are compared with those of the
/// prompts before it, unless they are blank.
pub proof fn mistakes_of_a_prompt_are_told(prompts: Seq<PromptStepView>, index: int)
    requires
        0 <= index < prompts.len(),
    ensures
        ({
            let prompt = prompts[index];
            let told = prompt_mistakes(prompts, index);
            let name = is_blank(prompt.id);
            let repeated = !name && exists|j: int|
                0 <= j < index && (#[trigger] prompts[j]).id == prompt.id;
            let text = is_blank(prompt.text);
            let pause = prompt.pause_after && (prompt.message is None || is_blank(
                prompt.message->0,
            ));
            &&& told.len() == one_if(name) + one_if(repeated) + one_if(text) + one_if(pause)
            &&& name ==> told[0] == "prompts["@ + nat_text(index as nat) + "].id must not be empty"@
            &&& repeated ==> told[0] == "duplicate prompt id '"@ + prompt.id + "'"@
            &&& text ==> told[one_if(name) + one_if(repeated)] == "prompts["@ + nat_text(
                index as nat,
            ) + "].text must not be empty"@
            &&& pause ==> told.last() == "prompts["@ + nat_text(index as nat)
                + "].message must be non-empty when pause_after is true"@
        }),
{
    assert(repeats_id(prompts, index) <==> exists|j: int|
        0 <= j < index && (#[trigger] prompts[j]).id == prompts[index].id);
}

/// The mistakes of the prompts are told in order, behind the one that there are none.
pub proof fn mistakes_of_prompts_are_told_in_order(prompts: Seq<PromptStepView>, n: nat)
    ensures
        first_prompt_mistakes(prompts, 0).len() == 0,
        first_prompt_mistakes(prompts, n + 1) == first_prompt_mistakes(prompts, n)
            + prompt_mistakes(prompts, n as int),
        prompts.len() == 0 ==> prompts_mistakes(prompts) == seq!["prompts must not be empty"@],
        prompts.len() > 0 ==> prompts_mistakes(prompts) == first_prompt_mistakes(
            prompts,
            prompts.len(),
        ),
{
    if prompts.len() == 0 {
        assert(prompts_mistakes(prompts) =~= seq!["prompts must not be empty"@]);
    } else {
        assert(prompts_mistakes(prompts) =~= first_prompt_mistakes(prompts, prompts.len()));
    }
}

/// Of the notification command, a missing program and each empty argument are told.
pub proof fn mistakes_of_the_notification_are_told(
    notify: Option<NotifyConfigView>,
    command: Seq<Seq<char>>,
    n: nat,
)
    ensures
        notify is None || notify->0.command is None ==> notify_mistakes(notify).len() == 0,
        notify == Some(NotifyConfigView { command: Some(command) }) && command.len() == 0
            ==> notify_mistakes(notify) == seq!["notify.command must not be empty when set"@],
        notify == Some(NotifyConfigView { command: Some(command) }) && command.len() > 0
            ==> notify_mistakes(notify) == argument_mistakes(command, command.len()),
        argument_mistakes(command, 0).len() == 0,
        command[n as int].len() > 0 ==> argument_mistakes(command, n + 1) == argument_mistakes(
            command,
            n,
        ),
        command[n as int].len() == 0 ==> argument_mistakes(command, n + 1) == argument_mistakes(
            command,
            n,
        ).push("notify.command["@ + nat_text(n) + "] must not be empty"@),
{
    let before = argument_mistakes(command, n);
    if command[n as int].len() == 0 {
        let text = "notify.command["@ + nat_text(n) + "] must not be empty"@;
        assert(argument_mistakes(command, n + 1) =~= before.push(text));
    } else {
        assert(argument_mistakes(command, n + 1) =~= before);
    }
    if notify == Some(NotifyConfigView { command: Some(command) }) {
        if command.len() == 0 {
            assert(notify_mistakes(notify) =~= seq!["notify.command must not be empty when set"@]);
        } else {
            assert(notify_mistakes(notify) =~= argument_mistakes(command, command.len()));
        }
    }
}

proof fn lemma_first_pause(prompts: Seq<PromptStepView>, n: nat)
    requires
        n <= prompts.len(),
    ensures
        first_pause(prompts, n) matches Some(index) ==> index < n && prompts[index as int].pause_after
            && forall|j: int| 0 <= j < index ==> !(#[trigger] prompts[j]).pause_after,
        first_pause(prompts, n) is None ==> forall|j: int|
            0 <= j < n ==> !(#[trigger] prompts[j]).pause_after,
    decreases n,
{
    if n > 0 {
        lemma_first_pause(prompts, (n - 1) as nat);
    }
}

/// Where sessions are not kept, the first prompt that pauses is told, and none elsewhere.
pub proof fn pauses_need_sessions(config: ConfigView, index: int)
    ensures
        config.sessions ==> session_mistakes(config).len() == 0,
        (forall|j: int| 0 <= j < config.prompts.len() ==> !(#[trigger] config.prompts[j]).pause_after)
            ==> session_mistakes(config).len() == 0,
        !config.sessions && 0 <= index < config.prompts.len() && config.prompts[index].pause_after
            && (forall|j: int| 0 <= j < index ==> !(#[trigger] config.prompts[j]).pause_after)
            ==> session_mistakes(config) == seq![
            "sessions.enabled must be true when prompts["@ + nat_text(index as nat)
                + "].pause_after is true"@,
        ],
{
    lemma_first_pause(config.prompts, config.prompts.len());
}

/// The mistakes that can be seen without rendering are told in order: those of the loop, of the
/// prompts, of the notification and of the sessions. Where there is one, they are the error, one to a
/// line; otherwise the mistakes of the templates are. A configuration without mistakes is accepted.
pub proof fn mistakes_are_told_in_order(
    config: ConfigView,
    repo_root: Seq<char>,
    error: ErrorView,
)
    ensures
        basic_mistakes(config) == loop_mistakes(config.loop_) + prompts_mistakes(config.prompts)
            + notify_mistakes(config.notify) + session_mistakes(config),
        basic_mistakes(config).len() > 0 ==> !config_accepted(config, repo_root) && (tells_mistakes(
            error,
            config,
            repo_root,
        ) <==> error == ErrorView::ConfigValidation(joined(basic_mistakes(config), "\n"@))),
        basic_mistakes(config).len() == 0 ==> (config_accepted(config, repo_root)
            <==> template_mistakes(config, repo_root).len() == 0) && (tells_mistakes(
            error,
            config,
            repo_root,
        ) <==> exists|told: Seq<Seq<char>>| #[trigger]
            all_told(told, template_mistakes(config, repo_root)) && error
                == ErrorView::ConfigValidation(joined(told, "\n"@))),
{
}

/// A mistake that is known in full is told word for word. Of a template that does not render, the
/// beginning is told, and behind it a render error.
pub proof fn mistakes_are_told_one_by_one(
    text: Seq<char>,
    told: Seq<Seq<char>>,
    words: Seq<char>,
    mistakes: Seq<TemplateMistake>,
    i: int,
)
    ensures
        tells(text, TemplateMistake::Told(words)) <==> text == words,
        tells(text, (TemplateMistake::Render { before: words })) <==> exists|rest: Seq<char>|
            text == words + #[trigger] ErrorView::Render(rest).message(),
        all_told(told, mistakes) ==> told.len() == mistakes.len() && (0 <= i < told.len() ==> tells(
            told[i],
            mistakes[i],
        )),
{
}

/// Messages that are added to a list stand behind those that were there.
pub proof fn further_mistakes_stand_behind_the_others(
    before: Seq<Seq<char>>,
    after: Seq<Seq<char>>,
    mistakes: Seq<TemplateMistake>,
)
    ensures
        tells_more(before, after, mistakes) <==> exists|told: Seq<Seq<char>>| #[trigger]
            all_told(told, mistakes) && after == before + told,
{
}

/// A loop that cannot be planned is the one mistake of the templates; otherwise the templates of every
/// item are tried, in order.
pub proof fn templates_are_tried_for_every_item(
    config: ConfigView,
    repo_root: Seq<char>,
    items: Seq<LoopItemView>,
    error: ErrorView,
    n: nat,
)
    ensures
        planned_items(config.loop_, repo_root) == Err::<Seq<LoopItemView>, Failure<ErrorView>>(
            Failure::Told(error),
        ) ==> template_mistakes(config, repo_root) == seq![TemplateMistake::Told(error.message())],
        planned_items(config.loop_, repo_root) == Err::<Seq<LoopItemView>, Failure<ErrorView>>(
            Failure::Render,
        ) ==> template_mistakes(config, repo_root).len() == 1 && template_mistakes(
            config,
            repo_root,
        )[0] == (TemplateMistake::Render { before: Seq::empty() }),
        planned_items(config.loop_, repo_root) == Ok::<Seq<LoopItemView>, Failure<ErrorView>>(items)
            ==> template_mistakes(config, repo_root) == items_template_mistakes(
            config,
            repo_root,
            items,
            items.len(),
        ),
        items_template_mistakes(config, repo_root, items, 0).len() == 0,
        items_template_mistakes(config, repo_root, items, n + 1) == items_template_mistakes(
            config,
            repo_root,
            items,
            n,
        ) + item_template_mistakes(config, repo_root, items[n as int]),
{
}

/// The templates of an item that do not render are told with the prompt and the item: first the texts
/// and messages of the prompts, then the notification command, which is tried with a message of its
/// own.
pub proof fn templates_that_do_not_render_are_told(
    config: ConfigView,
    repo_root: Seq<char>,
    item: LoopItemView,
    variables: JsonView,
    trial: JsonView,
    n: nat,
)
    requires
        speaks_of(variables, item, repo_root, None),
        speaks_of(trial, item, repo_root, Some("validation message"@)),
    ensures
        ({
            let prompts = config.prompts;
            let first = |k: nat| prompts_template_mistakes(prompts, item.item_id, variables, k);
            let prompt = prompts[n as int];
            let text = strictly_rendered(prompt.text, variables) is None;
            let message = prompt.message is Some && strictly_rendered(
                prompt.message->0,
                variables,
            ) is None;
            let told = prompt_template_mistakes(prompt, item.item_id, variables);
            let command = config.notify is Some && config.notify->0.command is Some && exists|i: int|
                0 <= i < config.notify->0.command->0.len() && strictly_rendered(
                    #[trigger] config.notify->0.command->0[i],
                    trial,
                ) is None;
            &&& first(0).len() == 0
            &&& first(n + 1) == first(n) + told
            &&& told.len() == one_if(text) + one_if(message)
            &&& text ==> told[0] == (TemplateMistake::Render {
                before: "prompt '"@ + prompt.id + "' failed to render for item '"@ + item.item_id
                    + "': "@,
            })
            &&& message ==> told.last() == (TemplateMistake::Render {
                before: "prompt '"@ + prompt.id + "' message failed to render for item '"@
                    + item.item_id + "': "@,
            })
            &&& !command ==> item_template_mistakes(config, repo_root, item) == first(prompts.len())
            &&& command ==> item_template_mistakes(config, repo_root, item) == first(
                prompts.len(),
            ).push(
                TemplateMistake::Render {
                    before: "notify.command failed to render for item '"@ + item.item_id + "': "@,
                },
            )
        }),
{
    let own = prompt_context(context_of(item, repo_root, None));
    prompts_get_the_variables_of_their_item(item, repo_root, None);
    variables_are_determined(own, variables, item, repo_root, None);
    if let Some(notify) = config.notify {
        configured_commands_are_tried(notify, item, repo_root, "validation message"@, trial);
    }
    let all = prompts_template_mistakes(
        config.prompts,
        item.item_id,
        variables,
        config.prompts.len(),
    );
    let command = TemplateMistake::Render {
        before: "notify.command failed to render for item '"@ + item.item_id + "': "@,
    };
    assert(all + Seq::<TemplateMistake>::empty() =~= all);
    assert(all + seq![command] =~= all.push(command));
}

/// The words with which mistakes are told.
pub proof fn mistakes_have_their_words(
    index: nat,
    rest: Seq<char>,
    prompt_id: Seq<char>,
    item_id: Seq<char>,
)
    ensures
        at_prompt(index as int, rest) == "prompts["@ + nat_text(index) + rest,
        prompt_failure_start(prompt_id, item_id) == "prompt '"@ + prompt_id
            + "' failed to render for item '"@ + item_id + "': "@,
        message_failure_start(prompt_id, item_id) == "prompt '"@ + prompt_id
            + "' message failed to render for item '"@ + item_id + "': "@,
        notify_failure_start(item_id) == "notify.command failed to render for item '"@ + item_id
            + "': "@,
{
}

/// A prompt has a message to pause with where the message is there and not blank.
pub proof fn pauses_have_words(prompt: PromptStepView)
    ensures
        has_message(prompt) <==> prompt.message is Some && !is_blank(prompt.message->0),
{
}

} // verus!

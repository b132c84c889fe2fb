//! What templates are rendered with, and what a notification comes to.

use vstd::prelude::*;

use crate::config::{LoopConfigView, NotifyConfigView};
use crate::json::JsonView;
use crate::laws::plans_hold_the_items_of_the_loop;
use crate::loop_spec::{planned_items, LoopItemView};
use crate::notify::{
    command_failure, debug_quoted, lossy_text, notify_end_text, notify_plan, output_text,
    rendered_argv, NotifyEnd, NotifyPlanView,
};
use crate::partials::{
    calls_at, calls_end, comment_end, holds_at, lemma_comment_end, lemma_next_tag, lemma_tag_end,
    may_call, may_recurse, next_tag, opens_definition, opens_tag, ranks_calls, tag_end, tag_of,
    tags_from, TagView, Within,
};
use crate::template::{
    all_rendered, context_of, double_quoted, handlebars_rendered, item_id_context, notify_argv,
    notify_context, prompt_context, rendered_item_id, strictly_rendered, TemplateContextView,
};
use crate::text::{int_text, nat_text, occurs_in, padded_int_text};

verus! {

proof fn lemma_names_differ()
    ensures
        "counter"@ != "counter_padded"@,
        "counter"@ != "item_id"@,
        "counter"@ != "iteration"@,
        "counter"@ != "iteration_index"@,
        "counter"@ != "repo_root"@,
        "counter"@ != "notify_command"@,
        "counter"@ != "halt_command"@,
        "counter"@ != "message"@,
        "counter_padded"@ != "item_id"@,
        "counter_padded"@ != "iteration"@,
        "counter_padded"@ != "iteration_index"@,
        "counter_padded"@ != "repo_root"@,
        "counter_padded"@ != "notify_command"@,
        "counter_padded"@ != "halt_command"@,
        "counter_padded"@ != "message"@,
        "item_id"@ != "iteration"@,
        "item_id"@ != "iteration_index"@,
        "item_id"@ != "repo_root"@,
        "item_id"@ != "notify_command"@,
        "item_id"@ != "halt_command"@,
        "item_id"@ != "message"@,
        "iteration"@ != "iteration_index"@,
        "iteration"@ != "repo_root"@,
        "iteration"@ != "notify_command"@,
        "iteration"@ != "halt_command"@,
        "iteration"@ != "message"@,
        "iteration_index"@ != "repo_root"@,
        "iteration_index"@ != "notify_command"@,
        "iteration_index"@ != "halt_command"@,
        "iteration_index"@ != "message"@,
        "repo_root"@ != "notify_command"@,
        "repo_root"@ != "halt_command"@,
        "repo_root"@ != "message"@,
        "notify_command"@ != "halt_command"@,
        "notify_command"@ != "message"@,
        "halt_command"@ != "message"@,
{
    reveal_strlit("counter");
    reveal_strlit("counter_padded");
    reveal_strlit("item_id");
    reveal_strlit("iteration");
    reveal_strlit("iteration_index");
    reveal_strlit("repo_root");
    reveal_strlit("notify_command");
    reveal_strlit("halt_command");
    reveal_strlit("message");
    assert("counter"@.len() == 7 && "counter"@[0] == 'c');
    assert("counter_padded"@.len() == 14 && "counter_padded"@[0] == 'c');
    assert("item_id"@.len() == 7 && "item_id"@[0] == 'i');
    assert("iteration"@.len() == 9 && "iteration"@[0] == 'i');
    assert("iteration_index"@.len() == 15);
    assert("repo_root"@.len() == 9 && "repo_root"@[0] == 'r');
    assert("notify_command"@.len() == 14 && "notify_command"@[0] == 'n');
    assert("halt_command"@.len() == 12);
    assert("message"@.len() == 7 && "message"@[0] == 'm');
}

/// Whether variables are those of an item: its counter, its identifier, its iteration and its index,
/// the repository, the two commands that the agent is told of, a message where there is one, and no
/// others.
pub open spec fn speaks_of(
    variables: JsonView,
    item: LoopItemView,
    repo_root: Seq<char>,
    message: Option<Seq<char>>,
) -> bool {
    &&& variables is Object
    &&& variables.member("counter"@) == Some(JsonView::Number(int_text(item.counter as int)))
    &&& variables.member("counter_padded"@) == Some(
        JsonView::Text(padded_int_text(item.counter as int, 3)),
    )
    &&& variables.member("item_id"@) == Some(JsonView::Text(item.item_id))
    &&& variables.member("iteration"@) == Some(JsonView::Number(int_text(item.iteration as int)))
    &&& variables.member("iteration_index"@) == Some(
        JsonView::Number(int_text(item.iteration_index as int)),
    )
    &&& variables.member("repo_root"@) == Some(JsonView::Text(repo_root))
    &&& variables.member("notify_command"@) == Some(
        JsonView::Text(
            "agentflow notify --message "@ + double_quoted("Need input for "@ + item.item_id),
        ),
    )
    &&& variables.member("halt_command"@) == Some(
        JsonView::Text(
            "agentflow halt --message "@ + double_quoted(
                item.item_id + " is already complete; stopping flow."@,
            ),
        ),
    )
    &&& variables.member("message"@) == (match message {
        Some(text) => Some(JsonView::Text(text)),
        None => None,
    })
    &&& forall|name: Seq<char>| #[trigger]
        variables->Object_0.contains_key(name) ==> name == "counter"@ || name == "counter_padded"@
            || name == "item_id"@ || name == "iteration"@ || name == "iteration_index"@ || name
            == "repo_root"@ || name == "notify_command"@ || name == "halt_command"@ || name
            == "message"@
}

/// Whether variables are those of the identifier of an item.
pub open spec fn speaks_of_round(
    variables: JsonView,
    counter: i64,
    iteration: u64,
    iteration_index: u64,
    repo_root: Seq<char>,
) -> bool {
    &&& variables is Object
    &&& variables.member("counter"@) == Some(JsonView::Number(int_text(counter as int)))
    &&& variables.member("counter_padded"@) == Some(
        JsonView::Text(padded_int_text(counter as int, 3)),
    )
    &&& variables.member("iteration"@) == Some(JsonView::Number(int_text(iteration as int)))
    &&& variables.member("iteration_index"@) == Some(
        JsonView::Number(int_text(iteration_index as int)),
    )
    &&& variables.member("repo_root"@) == Some(JsonView::Text(repo_root))
    &&& forall|name: Seq<char>| #[trigger]
        variables->Object_0.contains_key(name) ==> name == "counter"@ || name == "counter_padded"@
            || name == "iteration"@ || name == "iteration_index"@ || name == "repo_root"@
}

/// Prompts and pause messages are rendered with the variables of their item, and with a message only
/// where there is one.
pub proof fn prompts_get_the_variables_of_their_item(
    item: LoopItemView,
    repo_root: Seq<char>,
    message: Option<Seq<char>>,
)
    ensures
        speaks_of(
            prompt_context(context_of(item, repo_root, message)),
            item,
            repo_root,
            message,
        ),
{
    lemma_names_differ();
}

/// Notification arguments are rendered with the variables of the item and with the message.
pub proof fn notifications_get_the_variables_of_their_item(
    item: LoopItemView,
    repo_root: Seq<char>,
    other: Option<Seq<char>>,
    message: Seq<char>,
)
    ensures
        speaks_of(
            notify_context(context_of(item, repo_root, other), message),
            item,
            repo_root,
            Some(message),
        ),
{
    lemma_names_differ();
}

/// There is only one way to speak of an item.
pub proof fn variables_are_determined(
    a: JsonView,
    b: JsonView,
    item: LoopItemView,
    repo_root: Seq<char>,
    message: Option<Seq<char>>,
)
    requires
        speaks_of(a, item, repo_root, message),
        speaks_of(b, item, repo_root, message),
    ensures
        a == b,
{
    assert forall|name: Seq<char>|
        a->Object_0.contains_key(name) == b->Object_0.contains_key(name) && (
        a->Object_0.contains_key(name) ==> a->Object_0[name] == b->Object_0[name]) by {
        assert(a.member(name) == b.member(name));
    }
    assert(a->Object_0 =~= b->Object_0);
}

/// The identifier of an item is the template, rendered with the counter, the iteration, the index and
/// the repository.
pub proof fn identifiers_get_the_variables_of_their_round(
    template: Seq<char>,
    counter: i64,
    iteration: u64,
    iteration_index: u64,
    repo_root: Seq<char>,
    variables: JsonView,
)
    requires
        speaks_of_round(variables, counter, iteration, iteration_index, repo_root),
    ensures
        rendered_item_id(template, counter, iteration, iteration_index, repo_root)
            == strictly_rendered(template, variables),
{
    lemma_names_differ();
    let own = item_id_context(counter, iteration, iteration_index, repo_root);
    assert forall|name: Seq<char>|
        own->Object_0.contains_key(name) == variables->Object_0.contains_key(name) && (
        own->Object_0.contains_key(name) ==> own->Object_0[name] == variables->Object_0[name]) by {
        assert(own.member(name) == variables.member(name));
    }
    assert(own->Object_0 =~= variables->Object_0);
}

/// The prompts of the items of a plan are rendered with counters that rise from the start by the step,
/// with iterations that count from one, and with indices that count from zero.
pub proof fn plans_number_the_variables(
    loop_: LoopConfigView,
    repo_root: Seq<char>,
    message: Option<Seq<char>>,
    i: int,
)
    requires
        planned_items(loop_, repo_root) is Ok,
        0 <= i < planned_items(loop_, repo_root)->Ok_0.len(),
    ensures
        ({
            let item = planned_items(loop_, repo_root)->Ok_0[i];
            let variables = prompt_context(context_of(item, repo_root, message));
            &&& variables.member("counter"@) == Some(
                JsonView::Number(int_text(loop_.start + i * loop_.step)),
            )
            &&& variables.member("iteration"@) == Some(JsonView::Number(int_text(i + 1)))
            &&& variables.member("iteration_index"@) == Some(JsonView::Number(int_text(i)))
            &&& variables.member("item_id"@) == Some(JsonView::Text(item.item_id))
        }),
{
    plans_hold_the_items_of_the_loop(loop_, repo_root);
    lemma_names_differ();
}

/// A template is rendered strictly, as handlebars renders it, unless its inline partials may come to
/// call themselves; then it is not rendered.
pub proof fn templates_are_rendered_strictly(template: Seq<char>, variables: JsonView)
    ensures
        !may_recurse(template) ==> strictly_rendered(template, variables) == handlebars_rendered(
            template,
            variables,
            true,
        ),
        may_recurse(template) ==> strictly_rendered(template, variables) is None,
{
}

proof fn lemma_no_definitions(template: Seq<char>, at: int, seen: Seq<TagView>)
    requires
        0 <= at <= template.len(),
        !occurs_in(template, "inline"@),
        forall|i: int| 0 <= i < seen.len() ==> !(#[trigger] seen[i] is Define),
    ensures
        tags_from(template, at, seen) matches Some(tags) ==> forall|i: int|
            0 <= i < tags.len() ==> !(#[trigger] tags[i] is Define),
    decreases template.len() - at,
{
    let open = next_tag(template, at, 0);
    lemma_next_tag(template, at, 0);
    lemma_comment_end(template, open + 3);
    lemma_tag_end(template, open + 2, 0, Within::Plain);
    if open < template.len() && !opens_tag(template, open + 2) {
        if holds_at(template, open + 2, '!') {
            if let Some(end) = comment_end(template, open + 3) {
                lemma_no_definitions(template, end, seen);
            }
        } else if let Some(end) = tag_end(template, open + 2, 0, Within::Plain) {
            lemma_no_definitions(template, end, seen.push(tag_of(template, open)));
        }
    }
}

/// A template that does not speak of inline partials is never refused for them.
pub proof fn templates_without_definitions_are_rendered(template: Seq<char>, variables: JsonView)
    requires
        !occurs_in(template, "inline"@),
    ensures
        strictly_rendered(template, variables) == handlebars_rendered(template, variables, true),
{
    lemma_no_definitions(template, 0, Seq::empty());
    match tags_from(template, 0, Seq::empty()) {
        Some(tags) => {
            let ranks = Seq::new(tags.len(), |i: int| 0nat);
            assert forall|caller: int, callee: int| !#[trigger] may_call(tags, caller, callee) by {
                if 0 <= callee < tags.len() {
                    assert(!(tags[callee] is Define));
                    assert forall|at: int| !calls_at(tags, at, caller, callee) by {}
                }
            }
            assert(ranks_calls(tags, ranks));
        },
        None => {
            assert forall|at: int| !#[trigger] opens_definition(template, at) by {}
        },
    }
}

/// Where definitions are in order, no chain of calls leads from a definition back to itself.
pub proof fn ordered_definitions_do_not_call_themselves(tags: Seq<TagView>, chain: Seq<int>)
    requires
        calls_end(tags),
        chain.len() >= 2,
        forall|i: int|
            0 <= i < chain.len() - 1 ==> #[trigger] may_call(tags, chain[i], chain[i + 1]),
    ensures
        chain.first() != chain.last(),
{
    let ranks = choose|ranks: Seq<nat>| ranks_calls(tags, ranks);
    lemma_ranks_fall(tags, ranks, chain);
}

proof fn lemma_ranks_fall(tags: Seq<TagView>, ranks: Seq<nat>, chain: Seq<int>)
    requires
        ranks_calls(tags, ranks),
        chain.len() >= 2,
        forall|i: int|
            0 <= i < chain.len() - 1 ==> #[trigger] may_call(tags, chain[i], chain[i + 1]),
    ensures
        ranks[chain.last()] < ranks[chain.first()],
    decreases chain.len(),
{
    let last = chain.len() - 2;
    assert(may_call(tags, chain[last], chain[last + 1]));
    if chain.len() > 2 {
        let before = chain.drop_last();
        assert forall|i: int| 0 <= i < before.len() - 1 implies #[trigger] may_call(
            tags,
            before[i],
            before[i + 1],
        ) by {
            assert(may_call(tags, chain[i], chain[i + 1]));
        }
        lemma_ranks_fall(tags, ranks, before);
    }
}

/// Definitions that call nothing are in order.
pub proof fn silent_definitions_are_in_order(tags: Seq<TagView>)
    requires
        forall|caller: int, callee: int| !#[trigger] may_call(tags, caller, callee),
    ensures
        calls_end(tags),
{
    assert(ranks_calls(tags, Seq::new(tags.len(), |i: int| 0nat)));
}

/// Templates that render together render one by one, each to its own text.
pub proof fn templates_render_one_by_one(templates: Seq<Seq<char>>, variables: JsonView)
    ensures
        all_rendered(templates, variables) is Some <==> forall|i: int|
            0 <= i < templates.len() ==> strictly_rendered(#[trigger] templates[i], variables) is Some,
        all_rendered(templates, variables) matches Some(rendered) ==> rendered.len()
            == templates.len() && forall|i: int|
            0 <= i < templates.len() ==> strictly_rendered(#[trigger] templates[i], variables)
                == Some(rendered[i]),
    decreases templates.len(),
{
    if templates.len() > 0 {
        let before = templates.drop_last();
        templates_render_one_by_one(before, variables);
        let last = templates.len() - 1;
        assert(templates[last] == templates.last());
        if let Some(rendered) = all_rendered(before, variables) {
            assert forall|i: int| 0 <= i < last implies strictly_rendered(
                #[trigger] templates[i],
                variables,
            ) == Some(rendered[i]) by {
                assert(templates[i] == before[i]);
            }
        } else {
            let i = choose|i: int|
                0 <= i < before.len() && strictly_rendered(
                    #[trigger] before[i],
                    variables,
                ) is None;
            assert(templates[i] == before[i]);
        }
    }
}

/// The arguments of a notification command are rendered where one is configured.
pub proof fn configured_commands_are_tried(
    notify: NotifyConfigView,
    item: LoopItemView,
    repo_root: Seq<char>,
    message: Seq<char>,
    variables: JsonView,
)
    requires
        speaks_of(variables, item, repo_root, Some(message)),
    ensures
        notify_argv(notify, context_of(item, repo_root, None), message) == (match notify.command {
            None => Some(None),
            Some(command) => if forall|i: int|
                0 <= i < command.len() ==> strictly_rendered(
                    #[trigger] command[i],
                    variables,
                ) is Some {
                Some(
                    Some(
                        Seq::new(
                            command.len(),
                            |i: int| strictly_rendered(command[i], variables)->0,
                        ),
                    ),
                )
            } else {
                None
            },
        }),
{
    let own = notify_context(context_of(item, repo_root, None), message);
    notifications_get_the_variables_of_their_item(item, repo_root, None, message);
    variables_are_determined(own, variables, item, repo_root, Some(message));
    if let Some(command) = notify.command {
        templates_render_one_by_one(command, variables);
        if let Some(rendered) = all_rendered(command, variables) {
            assert(rendered =~= Seq::new(
                command.len(),
                |i: int| strictly_rendered(command[i], variables)->0,
            ));
        }
    }
}

proof fn lemma_rendered_argv(command: Seq<Seq<char>>, variables: JsonView)
    ensures
        match rendered_argv(command, variables) {
            Ok(argv) => argv.len() == command.len() && forall|i: int|
                0 <= i < command.len() ==> strictly_rendered(#[trigger] command[i], variables)
                    == Some(argv[i]),
            Err(error) => exists|i: int|
                0 <= i < command.len() && strictly_rendered(
                    #[trigger] command[i],
                    variables,
                ) is None && error == "failed to render notify.command argv element "@
                    + debug_quoted(command[i]) && forall|j: int|
                    0 <= j < i ==> strictly_rendered(#[trigger] command[j], variables) is Some,
        },
    decreases command.len(),
{
    if command.len() > 0 {
        let before = command.drop_last();
        lemma_rendered_argv(before, variables);
        let last = command.len() - 1;
        assert(command[last] == command.last());
        match rendered_argv(before, variables) {
            Ok(argv) => {
                assert forall|i: int| 0 <= i < last implies strictly_rendered(
                    #[trigger] command[i],
                    variables,
                ) == Some(argv[i]) by {
                    assert(command[i] == before[i]);
                }
            },
            Err(error) => {
                let i = choose|i: int|
                    0 <= i < before.len() && strictly_rendered(
                        #[trigger] before[i],
                        variables,
                    ) is None && error == "failed to render notify.command argv element "@
                        + debug_quoted(before[i]) && forall|j: int|
                        0 <= j < i ==> strictly_rendered(#[trigger] before[j], variables) is Some;
                assert(command[i] == before[i]);
                assert forall|j: int| 0 <= j < i implies strictly_rendered(
                    #[trigger] command[j],
                    variables,
                ) is Some by {
                    assert(command[j] == before[j]);
                }
            },
        }
    }
}

/// A notification does nothing where no command is configured, runs the rendered command where all
/// its arguments render for the item and the message, and otherwise reports the first that does not.
pub proof fn notifications_run_the_rendered_command(
    notify: Option<NotifyConfigView>,
    item: LoopItemView,
    repo_root: Seq<char>,
    other: Option<Seq<char>>,
    message: Seq<char>,
    variables: JsonView,
)
    requires
        speaks_of(variables, item, repo_root, Some(message)),
    ensures
        ({
            let plan = notify_plan(notify, context_of(item, repo_root, other), message);
            match notify {
                Some(NotifyConfigView { command: Some(command) }) => {
                    if command.len() == 0 {
                        plan == NotifyPlanView::Report("notify.command is empty"@)
                    } else if forall|i: int|
                        0 <= i < command.len() ==> strictly_rendered(
                            #[trigger] command[i],
                            variables,
                        ) is Some {
                        &&& plan matches NotifyPlanView::Run(argv)
                        &&& argv.len() == command.len()
                        &&& forall|i: int|
                            0 <= i < command.len() ==> strictly_rendered(
                                #[trigger] command[i],
                                variables,
                            ) == Some(argv[i])
                    } else {
                        &&& plan matches NotifyPlanView::Report(error)
                        &&& exists|i: int|
                            0 <= i < command.len() && strictly_rendered(
                                #[trigger] command[i],
                                variables,
                            ) is None && error == "failed to render notify.command argv element "@
                                + debug_quoted(command[i]) && forall|j: int|
                                0 <= j < i ==> strictly_rendered(
                                    #[trigger] command[j],
                                    variables,
                                ) is Some
                    }
                },
                _ => plan is Nothing,
            }
        }),
{
    let own = notify_context(context_of(item, repo_root, other), message);
    notifications_get_the_variables_of_their_item(item, repo_root, other, message);
    variables_are_determined(own, variables, item, repo_root, Some(message));
    if let Some(NotifyConfigView { command: Some(command) }) = notify {
        lemma_rendered_argv(command, variables);
    }
}

/// A command that succeeds is not reported; one that fails is reported with its status and with the
/// output that it wrote; one that cannot be started or takes too long is reported.
pub proof fn ends_of_notifications_are_told(
    status: String,
    stdout: Vec<u8>,
    stderr: Vec<u8>,
    error: String,
)
    ensures
        notify_end_text(NotifyEnd::Exited { success: true, status, stdout, stderr }) is None,
        ({
            let before = "notify.command exited with status "@ + status@;
            let out = if stdout@.len() == 0 {
                before
            } else {
                before + ("; "@ + "stdout"@ + ": "@ + lossy_text(stdout@))
            };
            let all = if stderr@.len() == 0 {
                out
            } else {
                out + ("; "@ + "stderr"@ + ": "@ + lossy_text(stderr@))
            };
            notify_end_text(NotifyEnd::Exited { success: false, status, stdout, stderr }) == Some(
                all,
            )
        }),
        notify_end_text(NotifyEnd::NotStarted(error)) == Some(
            "notify.command failed to start: "@ + error@,
        ),
        notify_end_text(NotifyEnd::TimedOut) == Some(
            "notify.command timed out after "@ + nat_text(30) + " seconds"@,
        ),
{
    let before = "notify.command exited with status "@ + status@;
    assert(before + Seq::<char>::empty() =~= before);
    let out = before + ("; "@ + "stdout"@ + ": "@ + lossy_text(stdout@));
    assert(out + Seq::<char>::empty() =~= out);
    assert(before + Seq::<char>::empty() + Seq::<char>::empty() =~= before);
}

/// The variables that are collected for an item are those of the item.
pub proof fn contexts_hold_their_item(
    item: LoopItemView,
    repo_root: Seq<char>,
    message: Option<Seq<char>>,
)
    ensures
        ({
            let context = context_of(item, repo_root, message);
            &&& context.counter == item.counter
            &&& context.counter_padded == padded_int_text(item.counter as int, 3)
            &&& context.item_id == item.item_id
            &&& context.iteration == item.iteration
            &&& context.iteration_index == item.iteration_index
            &&& context.repo_root == repo_root
            &&& context.notify_command == "agentflow notify --message "@ + double_quoted(
                "Need input for "@ + item.item_id,
            )
            &&& context.halt_command == "agentflow halt --message "@ + double_quoted(
                item.item_id + " is already complete; stopping flow."@,
            )
            &&& context.message == message
        }),
{
}

/// Whether an object holds collected variables under their names, with the given message, and nothing
/// else.
pub open spec fn holds_variables(
    variables: JsonView,
    context: TemplateContextView,
    message: Option<Seq<char>>,
) -> bool {
    &&& variables is Object
    &&& variables.member("counter"@) == Some(JsonView::Number(int_text(context.counter as int)))
    &&& variables.member("counter_padded"@) == Some(JsonView::Text(context.counter_padded))
    &&& variables.member("item_id"@) == Some(JsonView::Text(context.item_id))
    &&& variables.member("iteration"@) == Some(
        JsonView::Number(int_text(context.iteration as int)),
    )
    &&& variables.member("iteration_index"@) == Some(
        JsonView::Number(int_text(context.iteration_index as int)),
    )
    &&& variables.member("repo_root"@) == Some(JsonView::Text(context.repo_root))
    &&& variables.member("notify_command"@) == Some(JsonView::Text(context.notify_command))
    &&& variables.member("halt_command"@) == Some(JsonView::Text(context.halt_command))
    &&& variables.member("message"@) == (match message {
        Some(text) => Some(JsonView::Text(text)),
        None => None,
    })
    &&& forall|name: Seq<char>| #[trigger]
        variables->Object_0.contains_key(name) ==> name == "counter"@ || name == "counter_padded"@
            || name == "item_id"@ || name == "iteration"@ || name == "iteration_index"@ || name
            == "repo_root"@ || name == "notify_command"@ || name == "halt_command"@ || name
            == "message"@
}

/// Templates are rendered with the variables that were collected, under their names: prompts and pause
/// messages with the collected message, notification arguments with the message of the notification.
pub proof fn templates_get_the_collected_variables(context: TemplateContextView, message: Seq<char>)
    ensures
        holds_variables(prompt_context(context), context, context.message),
        holds_variables(notify_context(context, message), context, Some(message)),
{
    lemma_names_differ();
}

/// Notification arguments are rendered one by one; the first that does not render is the error.
pub proof fn arguments_are_rendered_one_by_one(command: Seq<Seq<char>>, variables: JsonView)
    ensures
        match rendered_argv(command, variables) {
            Ok(argv) => argv.len() == command.len() && forall|i: int|
                0 <= i < command.len() ==> strictly_rendered(#[trigger] command[i], variables)
                    == Some(argv[i]),
            Err(error) => exists|i: int|
                0 <= i < command.len() && strictly_rendered(
                    #[trigger] command[i],
                    variables,
                ) is None && error == "failed to render notify.command argv element "@
                    + debug_quoted(command[i]) && forall|j: int|
                    0 <= j < i ==> strictly_rendered(#[trigger] command[j], variables) is Some,
        },
{
    lemma_rendered_argv(command, variables);
}

/// A notification is decided by its command alone: nothing is done without one, an empty one and one
/// that does not render are reported, and any other is run.
pub proof fn commands_decide_about_notifications(
    notify: Option<NotifyConfigView>,
    context: TemplateContextView,
    message: Seq<char>,
)
    ensures
        ({
            let plan = notify_plan(notify, context, message);
            match notify {
                Some(NotifyConfigView { command: Some(command) }) => {
                    let rendered = rendered_argv(command, notify_context(context, message));
                    &&& command.len() == 0 ==> plan == NotifyPlanView::Report(
                        "notify.command is empty"@,
                    )
                    &&& command.len() > 0 && rendered is Ok ==> plan == NotifyPlanView::Run(
                        rendered->Ok_0,
                    )
                    &&& command.len() > 0 && rendered is Err ==> plan == NotifyPlanView::Report(
                        rendered->Err_0,
                    )
                },
                _ => plan is Nothing,
            }
        }),
{
}

/// A message about a failed command quotes what the command has written, and only that.
pub proof fn failed_commands_quote_their_output(
    label: Seq<char>,
    status: Seq<char>,
    stdout: Seq<u8>,
    stderr: Seq<u8>,
)
    ensures
        stdout.len() == 0 ==> output_text(label, stdout).len() == 0,
        stdout.len() > 0 ==> output_text(label, stdout) == "; "@ + label + ": "@ + lossy_text(
            stdout,
        ),
        command_failure(status, stdout, stderr) == "notify.command exited with status "@ + status
            + output_text("stdout"@, stdout) + output_text("stderr"@, stderr),
{
}

} // verus!

//! Strict templates: the variables they may name, and their rendering.

use handlebars::Handlebars;
use serde_json::Value;
use vstd::prelude::*;

use crate::config::{NotifyConfig, NotifyConfigView, PromptStep};
use crate::error::{outcome, AgentFlowError, ErrorView};
use crate::json::{json_insert, json_int, json_object, json_string, json_uint, json_view, JsonView};
use crate::loop_spec::{LoopItem, LoopItemView};
use crate::partials::{may_recurse, recursion_possible};
use crate::text::{int_text, nat_text, opt_text, padded_int_string, padded_int_text, texts};

verus! {

/// The variables of prompts, pause messages and notification arguments.
#[derive(Debug, Clone)]
pub struct TemplateContext {
    pub counter: i64,
    pub counter_padded: String,
    pub item_id: String,
    pub iteration: u64,
    pub iteration_index: u64,
    pub repo_root: String,
    pub notify_command: String,
    pub halt_command: String,
    pub message: Option<String>,
}

/// What a [`TemplateContext`] says.
pub struct TemplateContextView {
    pub counter: i64,
    pub counter_padded: Seq<char>,
    pub item_id: Seq<char>,
    pub iteration: u64,
    pub iteration_index: u64,
    pub repo_root: Seq<char>,
    pub notify_command: Seq<char>,
    pub halt_command: Seq<char>,
    pub message: Option<Seq<char>>,
}

impl View for TemplateContext {
    type V = TemplateContextView;

    open spec fn view(&self) -> TemplateContextView {
        TemplateContextView {
            counter: self.counter,
            counter_padded: self.counter_padded@,
            item_id: self.item_id@,
            iteration: self.iteration,
            iteration_index: self.iteration_index,
            repo_root: self.repo_root@,
            notify_command: self.notify_command@,
            halt_command: self.halt_command@,
            message: opt_text(self.message),
        }
    }
}

/// The width that `counter_padded` is filled up to.
pub const COUNTER_WIDTH: usize = 3;

/// What handlebars makes of a template: the rendered text, or nothing where it reports an error.
/// Nothing is escaped; `strict` says whether an unknown variable is an error.
pub uninterp spec fn handlebars_rendered(
    template: Seq<char>,
    context: JsonView,
    strict: bool,
) -> Option<Seq<char>>;

/// `handlebars::Handlebars::render_template`, on a fresh registry with the given strict mode and
/// the escape function `handlebars::no_escape`. Where it renders, the text is named by
/// [`handlebars_rendered`]. Left unsaid: the text of an error, which can list the entries of a hash
/// map in any order, and how deeply blocks may nest before the memory of the machine is exhausted. A
/// template whose inline partials may come to call themselves is left out, for handlebars may then
/// call them without end.
#[verifier::external_body]
fn render_unescaped(template: &str, context: &Value, strict: bool) -> (result: Result<
    String,
    String,
>)
    requires
        !may_recurse(template@),
    ensures
        (match result {
            Ok(text) => handlebars_rendered(template@, json_view(*context), strict) == Some(text@),
            Err(_) => handlebars_rendered(template@, json_view(*context), strict) is None,
        }),
{
    let mut registry = Handlebars::new();
    registry.set_strict_mode(strict);
    registry.register_escape_fn(handlebars::no_escape);
    registry.render_template(template, context).map_err(|error| error.to_string())
}

/// What strict rendering gives: the text, or nothing where the template does not render. A template
/// that might be rendered without end is not rendered at all.
pub open spec fn strictly_rendered(template: Seq<char>, context: JsonView) -> Option<Seq<char>> {
    if may_recurse(template) {
        None
    } else {
        handlebars_rendered(template, context, true)
    }
}

/// Whether a result is a rendered text, or a render error where there is none.
pub open spec fn renders_as(
    result: Result<String, AgentFlowError>,
    rendered: Option<Seq<char>>,
) -> bool {
    match result {
        Ok(text) => rendered == Some(text@),
        Err(error) => rendered is None && error@ is Render,
    }
}

/// Turns the result of a rendering into one with an error of this crate.
pub fn render_result(rendered: Result<String, String>) -> (result: Result<String, AgentFlowError>)
    ensures
        outcome(result) == (match rendered {
            Ok(text) => Ok::<Seq<char>, ErrorView>(text@),
            Err(error) => Err::<Seq<char>, ErrorView>(ErrorView::Render(error@)),
        }),
{
    match rendered {
        Ok(text) => Ok(text),
        Err(error) => Err(AgentFlowError::Render(error)),
    }
}

/// Renders a template; an unknown variable is an error, and nothing is escaped. A template whose
/// inline partials may come to call themselves is refused.
pub fn render_strict(template: &str, context: &Value) -> (result: Result<String, AgentFlowError>)
    ensures
        renders_as(result, strictly_rendered(template@, json_view(*context))),
{
    if recursion_possible(template) {
        return Err(
            AgentFlowError::Render("an inline partial must not call itself".to_owned()),
        );
    }
    render_result(render_unescaped(template, context, true))
}

/// The text with a backslash before each double quote and each backslash.
pub open spec fn escaped(text: Seq<char>) -> Seq<char>
    decreases text.len(),
{
    if text.len() == 0 {
        Seq::empty()
    } else if text.last() == '"' || text.last() == '\\' {
        escaped(text.drop_last()).push('\\').push(text.last())
    } else {
        escaped(text.drop_last()).push(text.last())
    }
}

/// The text between double quotes, with a backslash before each double quote and each backslash.
pub open spec fn double_quoted(text: Seq<char>) -> Seq<char> {
    (seq!['"'] + escaped(text)).push('"')
}

/// Quotes a text for a shell command line.
pub fn shell_double_quoted(value: &str) -> (quoted: String)
    ensures
        quoted@ == double_quoted(value@),
{
    let mut quoted = String::new();
    quoted.push('"');
    assert(quoted@ =~= seq!['"'] + escaped(value@.take(0)));
    for c in it: value.chars()
        invariant
            it.seq() == value@,
            quoted@ == seq!['"'] + escaped(value@.take(it.index() as int)),
    {
        let ghost done = value@.take(it.index() as int);
        let ghost next = value@.take(it.index() + 1);
        if c == '"' || c == '\\' {
            quoted.push('\\');
        }
        quoted.push(c);
        assert(next.drop_last() =~= done);
        assert(quoted@ =~= seq!['"'] + escaped(next));
    }
    assert(value@.take(value@.len() as int) =~= value@);
    quoted.push('"');
    quoted
}

/// The default message of a pause.
pub open spec fn notify_message(item_id: Seq<char>) -> Seq<char> {
    "Need input for "@ + item_id
}

/// The default message of a halt.
pub open spec fn halt_message(item_id: Seq<char>) -> Seq<char> {
    item_id + " is already complete; stopping flow."@
}

/// The message that the suggested notify command carries.
pub fn default_notify_message(item_id: &str) -> (message: String)
    ensures
        message@ == notify_message(item_id@),
{
    "Need input for ".to_owned().concat(item_id)
}

/// The message that the suggested halt command carries.
pub fn default_halt_message(item_id: &str) -> (message: String)
    ensures
        message@ == halt_message(item_id@),
{
    item_id.to_owned().concat(" is already complete; stopping flow.")
}

/// The variables of `loop.item_id`, as a JSON object.
pub open spec fn item_id_context(
    counter: i64,
    iteration: u64,
    iteration_index: u64,
    repo_root: Seq<char>,
) -> JsonView {
    JsonView::Object(
        Map::empty().insert("counter"@, JsonView::Number(int_text(counter as int))).insert(
            "counter_padded"@,
            JsonView::Text(padded_int_text(counter as int, COUNTER_WIDTH as int)),
        ).insert("iteration"@, JsonView::Number(nat_text(iteration as nat))).insert(
            "iteration_index"@,
            JsonView::Number(nat_text(iteration_index as nat)),
        ).insert("repo_root"@, JsonView::Text(repo_root)),
    )
}

/// The identifier of an item: `template` rendered with the counter, the iteration and the
/// repository root.
pub open spec fn rendered_item_id(
    template: Seq<char>,
    counter: i64,
    iteration: u64,
    iteration_index: u64,
    repo_root: Seq<char>,
) -> Option<Seq<char>> {
    strictly_rendered(template, item_id_context(counter, iteration, iteration_index, repo_root))
}

/// Renders the identifier of an item.
pub fn render_item_id(
    template: &str,
    counter: i64,
    iteration: u64,
    iteration_index: u64,
    repo_root: &str,
) -> (result: Result<String, AgentFlowError>)
    ensures
        renders_as(
            result,
            rendered_item_id(template@, counter, iteration, iteration_index, repo_root@),
        ),
{
    let mut context = json_object();
    json_insert(&mut context, "counter", json_int(counter));
    json_insert(
        &mut context,
        "counter_padded",
        json_string(padded_int_string(counter, COUNTER_WIDTH).as_str()),
    );
    json_insert(&mut context, "iteration", json_uint(iteration));
    json_insert(&mut context, "iteration_index", json_uint(iteration_index));
    json_insert(&mut context, "repo_root", json_string(repo_root));
    render_strict(template, &context)
}

/// The variables of an item, with the message of a pause or a halt where there is one.
pub open spec fn context_of(
    item: LoopItemView,
    repo_root: Seq<char>,
    message: Option<Seq<char>>,
) -> TemplateContextView {
    TemplateContextView {
        counter: item.counter,
        counter_padded: padded_int_text(item.counter as int, COUNTER_WIDTH as int),
        item_id: item.item_id,
        iteration: item.iteration,
        iteration_index: item.iteration_index,
        repo_root: repo_root,
        notify_command: "agentflow notify --message "@ + double_quoted(
            notify_message(item.item_id),
        ),
        halt_command: "agentflow halt --message "@ + double_quoted(halt_message(item.item_id)),
        message: message,
    }
}

/// Collects the variables of an item.
pub fn build_context(item: &LoopItem, repo_root: &str, message: Option<&str>) -> (context:
    TemplateContext)
    ensures
        context@ == context_of(
            item@,
            repo_root@,
            match message {
                Some(text) => Some(text@),
                None => None,
            },
        ),
{
    let notify = default_notify_message(item.item_id.as_str());
    let halt = default_halt_message(item.item_id.as_str());
    TemplateContext {
        counter: item.counter,
        counter_padded: padded_int_string(item.counter, COUNTER_WIDTH),
        item_id: item.item_id.clone(),
        iteration: item.iteration,
        iteration_index: item.iteration_index,
        repo_root: repo_root.to_owned(),
        notify_command: "agentflow notify --message ".to_owned().concat(
            shell_double_quoted(notify.as_str()).as_str(),
        ),
        halt_command: "agentflow halt --message ".to_owned().concat(
            shell_double_quoted(halt.as_str()).as_str(),
        ),
        message: match message {
            Some(text) => Some(text.to_owned()),
            None => None,
        },
    }
}

/// The members of a context but for the message.
pub open spec fn context_members(context: TemplateContextView) -> Map<Seq<char>, JsonView> {
    Map::empty().insert("counter"@, JsonView::Number(int_text(context.counter as int))).insert(
        "counter_padded"@,
        JsonView::Text(context.counter_padded),
    ).insert("item_id"@, JsonView::Text(context.item_id)).insert(
        "iteration"@,
        JsonView::Number(nat_text(context.iteration as nat)),
    ).insert("iteration_index"@, JsonView::Number(nat_text(context.iteration_index as nat))).insert(
        "repo_root"@,
        JsonView::Text(context.repo_root),
    ).insert("notify_command"@, JsonView::Text(context.notify_command)).insert(
        "halt_command"@,
        JsonView::Text(context.halt_command),
    )
}

/// The context of prompts and pause messages: a message is a variable only where there is one.
pub open spec fn prompt_context(context: TemplateContextView) -> JsonView {
    JsonView::Object(
        match context.message {
            Some(message) => context_members(context).insert("message"@, JsonView::Text(message)),
            None => context_members(context),
        },
    )
}

/// The context of notification arguments: all variables, and the given message.
pub open spec fn notify_context(context: TemplateContextView, message: Seq<char>) -> JsonView {
    JsonView::Object(context_members(context).insert("message"@, JsonView::Text(message)))
}

fn members_value(context: &TemplateContext) -> (value: Value)
    ensures
        json_view(value) == JsonView::Object(context_members(context@)),
{
    let mut value = json_object();
    json_insert(&mut value, "counter", json_int(context.counter));
    json_insert(&mut value, "counter_padded", json_string(context.counter_padded.as_str()));
    json_insert(&mut value, "item_id", json_string(context.item_id.as_str()));
    json_insert(&mut value, "iteration", json_uint(context.iteration));
    json_insert(&mut value, "iteration_index", json_uint(context.iteration_index));
    json_insert(&mut value, "repo_root", json_string(context.repo_root.as_str()));
    json_insert(&mut value, "notify_command", json_string(context.notify_command.as_str()));
    json_insert(&mut value, "halt_command", json_string(context.halt_command.as_str()));
    value
}

fn prompt_value(context: &TemplateContext) -> (value: Value)
    ensures
        json_view(value) == prompt_context(context@),
{
    let mut value = members_value(context);
    if let Some(message) = &context.message {
        json_insert(&mut value, "message", json_string(message.as_str()));
    }
    value
}

/// The JSON object that notification arguments are rendered with.
pub fn notify_value(context: &TemplateContext, message: &str) -> (value: Value)
    ensures
        json_view(value) == notify_context(context@, message@),
{
    let mut value = members_value(context);
    json_insert(&mut value, "message", json_string(message));
    value
}

/// Renders the text of a prompt.
pub fn render_prompt(step: &PromptStep, context: &TemplateContext) -> (result: Result<
    String,
    AgentFlowError,
>)
    ensures
        renders_as(result, strictly_rendered(step@.text, prompt_context(context@))),
{
    render_strict(step.text.as_str(), &prompt_value(context))
}

/// Renders the message of a pause.
pub fn render_message(template: &str, context: &TemplateContext) -> (result: Result<
    String,
    AgentFlowError,
>)
    ensures
        renders_as(result, strictly_rendered(template@, prompt_context(context@))),
{
    render_strict(template, &prompt_value(context))
}

/// The rendered templates, or nothing where one of them does not render.
pub open spec fn all_rendered(templates: Seq<Seq<char>>, context: JsonView) -> Option<Seq<Seq<char>>>
    decreases templates.len(),
{
    if templates.len() == 0 {
        Some(Seq::empty())
    } else {
        match (
            all_rendered(templates.drop_last(), context),
            strictly_rendered(templates.last(), context),
        ) {
            (Some(done), Some(text)) => Some(done.push(text)),
            _ => None,
        }
    }
}

/// Templates do not all render where the first of them do not.
proof fn lemma_first_error(templates: Seq<Seq<char>>, context: JsonView, n: int)
    requires
        0 <= n <= templates.len(),
        all_rendered(templates.take(n), context) is None,
    ensures
        all_rendered(templates, context) is None,
    decreases templates.len() - n,
{
    if n < templates.len() {
        assert(templates.take(n + 1).drop_last() =~= templates.take(n));
        lemma_first_error(templates, context, n + 1);
    } else {
        assert(templates.take(n) =~= templates);
    }
}

fn render_all(templates: &Vec<String>, context: &Value) -> (result: Result<
    Vec<String>,
    AgentFlowError,
>)
    ensures
        (match result {
            Ok(argv) => all_rendered(texts(templates@), json_view(*context)) == Some(texts(argv@)),
            Err(error) => {
                &&& all_rendered(texts(templates@), json_view(*context)) is None
                &&& error@ is Render
            },
        }),
{
    let ghost sources = texts(templates@);
    let mut argv: Vec<String> = Vec::new();
    assert(texts(argv@) =~= Seq::empty());
    for i in 0..templates.len()
        invariant
            sources == texts(templates@),
            all_rendered(sources.take(i as int), json_view(*context)) == Some(texts(argv@)),
    {
        let ghost before = argv@;
        assert(sources.take(i + 1).drop_last() =~= sources.take(i as int));
        match render_strict(templates[i].as_str(), context) {
            Ok(text) => {
                argv.push(text);
                assert(texts(argv@) =~= texts(before).push(text@));
            },
            Err(error) => {
                proof {
                    lemma_first_error(sources, json_view(*context), i + 1);
                }
                return Err(error);
            },
        }
    }
    assert(sources.take(sources.len() as int) =~= sources);
    Ok(argv)
}

/// The rendered arguments of the notification command, where one is configured, or nothing where an
/// argument does not render.
pub open spec fn notify_argv(
    notify: NotifyConfigView,
    context: TemplateContextView,
    message: Seq<char>,
) -> Option<Option<Seq<Seq<char>>>> {
    match notify.command {
        None => Some(None),
        Some(command) => match all_rendered(command, notify_context(context, message)) {
            Some(argv) => Some(Some(argv)),
            None => None,
        },
    }
}

/// Renders the arguments of the notification command.
pub fn render_notify_argv(notify: &NotifyConfig, context: &TemplateContext, message: &str) -> (result:
    Result<Option<Vec<String>>, AgentFlowError>)
    ensures
        (match result {
            Ok(Some(argv)) => notify_argv(notify@, context@, message@) == Some(
                Some(texts(argv@)),
            ),
            Ok(None) => notify_argv(notify@, context@, message@) == Some(
                None::<Seq<Seq<char>>>,
            ),
            Err(error) => {
                &&& notify_argv(notify@, context@, message@) is None
                &&& error@ is Render
            },
        }),
{
    match &notify.command {
        None => Ok(None),
        Some(command) => match render_all(command, &notify_value(context, message)) {
            Ok(argv) => Ok(Some(argv)),
            Err(error) => Err(error),
        },
    }
}

} // verus!

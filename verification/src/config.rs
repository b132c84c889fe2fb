//! The configuration of a flow: its shape, the overrides of a run, and its validation.

use vstd::prelude::*;

use crate::error::{outcome, tells_render_error, AgentFlowError, ErrorView, Failure};
use crate::json::JsonView;
use crate::loop_spec::{build_loop_plan, item_views, planned_items, LoopItem, LoopItemView};
use crate::template::{
    build_context, context_of, notify_argv, prompt_context, render_message, render_notify_argv,
    render_prompt, strictly_rendered, TemplateContext,
};
use crate::text::{
    blank, is_blank, joined, nat_string, nat_text, opt_text, same_text, texts,
};

verus! {

/// A whole configuration file.
#[derive(Debug)]
pub struct Config {
    pub provider: Provider,
    pub loop_: LoopConfig,
    pub notify: Option<NotifyConfig>,
    pub logs: LogConfig,
    pub sessions: SessionConfig,
    pub prompts: Vec<PromptStep>,
}

/// Who answers the prompts.
#[derive(Debug, Clone, Copy, PartialEq, Eq, Structural)]
pub enum Provider {
    Omp,
}

/// The counter loop: where it starts, how it is bounded, and how its items are named.
#[derive(Debug, Clone, PartialEq, Eq)]
pub struct LoopConfig {
    pub start: i64,
    pub end: Option<i64>,
    pub count: Option<u64>,
    pub step: i64,
    pub item_id: String,
}

/// The external notification command, as an argument vector.
#[derive(Debug, Clone, PartialEq, Eq)]
pub struct NotifyConfig {
    pub command: Option<Vec<String>>,
}

/// Whether verbose logs are kept.
#[derive(Debug, Clone, Copy, PartialEq, Eq, Structural)]
pub struct LogConfig {
    pub enabled: bool,
}

/// Whether agent sessions are kept.
#[derive(Debug, Clone, Copy, PartialEq, Eq, Structural)]
pub struct SessionConfig {
    pub enabled: bool,
}

/// One prompt of an item.
#[derive(Debug, Clone, PartialEq, Eq)]
pub struct PromptStep {
    pub id: String,
    pub text: String,
    pub new_session: bool,
    pub pause_after: bool,
    pub message: Option<String>,
}

/// The loop settings that a run replaces.
#[derive(Debug, Clone, Copy, PartialEq, Eq, Structural)]
pub struct LoopOverrides {
    pub start: Option<i64>,
    pub end: Option<i64>,
    pub count: Option<u64>,
}

impl Default for LogConfig {
    fn default() -> (config: Self)
        ensures
            !config.enabled,
    {
        LogConfig { enabled: false }
    }
}

impl Default for SessionConfig {
    fn default() -> (config: Self)
        ensures
            !config.enabled,
    {
        SessionConfig { enabled: false }
    }
}

impl Default for LoopOverrides {
    fn default() -> (overrides: Self)
        ensures
            overrides == (LoopOverrides { start: None, end: None, count: None }),
    {
        LoopOverrides { start: None, end: None, count: None }
    }
}

/// What a [`LoopConfig`] says.
pub struct LoopConfigView {
    pub start: i64,
    pub end: Option<i64>,
    pub count: Option<u64>,
    pub step: i64,
    pub item_id: Seq<char>,
}

/// What a [`PromptStep`] says.
pub struct PromptStepView {
    pub id: Seq<char>,
    pub text: Seq<char>,
    pub new_session: bool,
    pub pause_after: bool,
    pub message: Option<Seq<char>>,
}

/// What a [`NotifyConfig`] says.
pub struct NotifyConfigView {
    pub command: Option<Seq<Seq<char>>>,
}

/// What a [`Config`] says.
pub struct ConfigView {
    pub provider: Provider,
    pub loop_: LoopConfigView,
    pub notify: Option<NotifyConfigView>,
    pub logs: bool,
    pub sessions: bool,
    pub prompts: Seq<PromptStepView>,
}

impl View for LoopConfig {
    type V = LoopConfigView;

    open spec fn view(&self) -> LoopConfigView {
        LoopConfigView {
            start: self.start,
            end: self.end,
            count: self.count,
            step: self.step,
            item_id: self.item_id@,
        }
    }
}

impl View for PromptStep {
    type V = PromptStepView;

    open spec fn view(&self) -> PromptStepView {
        PromptStepView {
            id: self.id@,
            text: self.text@,
            new_session: self.new_session,
            pause_after: self.pause_after,
            message: opt_text(self.message),
        }
    }
}

impl View for NotifyConfig {
    type V = NotifyConfigView;

    open spec fn view(&self) -> NotifyConfigView {
        NotifyConfigView {
            command: match self.command {
                Some(argv) => Some(texts(argv@)),
                None => None,
            },
        }
    }
}

/// What the prompts of a sequence say.
pub open spec fn prompt_views(prompts: Seq<PromptStep>) -> Seq<PromptStepView> {
    prompts.map_values(|p: PromptStep| p@)
}

impl View for Config {
    type V = ConfigView;

    open spec fn view(&self) -> ConfigView {
        ConfigView {
            provider: self.provider,
            loop_: self.loop_@,
            notify: match self.notify {
                Some(notify) => Some(notify@),
                None => None,
            },
            logs: self.logs.enabled,
            sessions: self.sessions.enabled,
            prompts: prompt_views(self.prompts@),
        }
    }
}

/// The loop settings after the overrides: an end replaces a count, and a count replaces an end. Where
/// both are given, the count stands.
pub open spec fn overridden_loop(loop_: LoopConfigView, overrides: LoopOverrides) -> LoopConfigView {
    LoopConfigView {
        start: match overrides.start {
            Some(start) => start,
            None => loop_.start,
        },
        end: match (overrides.end, overrides.count) {
            (_, Some(count)) => None,
            (Some(end), None) => Some(end),
            (None, None) => loop_.end,
        },
        count: match (overrides.end, overrides.count) {
            (_, Some(count)) => Some(count),
            (Some(end), None) => None,
            (None, None) => loop_.count,
        },
        step: loop_.step,
        item_id: loop_.item_id,
    }
}

/// Replaces the loop settings that a run gives; everything else stays.
pub fn apply_overrides(config: &mut Config, overrides: &LoopOverrides)
    ensures
        final(config)@ == (ConfigView {
            loop_: overridden_loop(old(config)@.loop_, *overrides),
            ..old(config)@
        }),
{
    if let Some(start) = overrides.start {
        config.loop_.start = start;
    }
    if let Some(end) = overrides.end {
        config.loop_.end = Some(end);
        config.loop_.count = None;
    }
    if let Some(count) = overrides.count {
        config.loop_.count = Some(count);
        config.loop_.end = None;
    }
}

/// The message where the mistake was made, and nothing elsewhere.
pub open spec fn mistake(made: bool, message: Seq<char>) -> Seq<Seq<char>> {
    if made {
        seq![message]
    } else {
        Seq::empty()
    }
}

fn report(errors: &mut Vec<String>, made: bool, message: &str)
    ensures
        texts(final(errors)@) == texts(old(errors)@) + mistake(made, message@),
{
    let ghost before = errors@;
    if made {
        errors.push(message.to_owned());
    }
    proof {
        assert(texts(errors@) =~= texts(before) + mistake(made, message@));
    }
}

/// The mistakes of the loop settings.
pub open spec fn loop_mistakes(loop_: LoopConfigView) -> Seq<Seq<char>> {
    mistake(
        (loop_.end is Some) == (loop_.count is Some),
        "exactly one of loop.end or loop.count must be set"@,
    ) + mistake(loop_.count == Some(0u64), "loop.count must be greater than 0"@) + mistake(
        loop_.step <= 0,
        "loop.step must be greater than 0"@,
    ) + mistake(
        loop_.step > 0 && loop_.end is Some && loop_.end->0 < loop_.start,
        "loop.end must be greater than or equal to loop.start"@,
    ) + mistake(is_blank(loop_.item_id), "loop.item_id must not be empty"@)
}

/// Appends the mistakes of the loop settings.
pub fn validate_loop_config(loop_: &LoopConfig, errors: &mut Vec<String>)
    ensures
        texts(final(errors)@) == texts(old(errors)@) + loop_mistakes(loop_@),
{
    let ghost before = texts(errors@);
    report(
        errors,
        loop_.end.is_some() == loop_.count.is_some(),
        "exactly one of loop.end or loop.count must be set",
    );
    let zero = match loop_.count {
        Some(count) => count == 0,
        None => false,
    };
    report(errors, zero, "loop.count must be greater than 0");
    report(errors, loop_.step <= 0, "loop.step must be greater than 0");
    let backward = match loop_.end {
        Some(end) => loop_.step > 0 && end < loop_.start,
        None => false,
    };
    report(errors, backward, "loop.end must be greater than or equal to loop.start");
    report(errors, blank(loop_.item_id.as_str()), "loop.item_id must not be empty");
    proof {
        assert(texts(errors@) =~= before + loop_mistakes(loop_@));
    }
}

/// `prompts[index]` followed by the rest of a message.
pub open spec fn at_prompt(index: int, rest: Seq<char>) -> Seq<char> {
    "prompts["@ + nat_text(index as nat) + rest
}

fn at_prompt_string(index: usize, rest: &str) -> (text: String)
    ensures
        text@ == at_prompt(index as int, rest@),
{
    "prompts[".to_owned().concat(nat_string(index as u128).as_str()).concat(rest)
}

/// Whether an earlier prompt has the same identifier.
pub open spec fn repeats_id(prompts: Seq<PromptStepView>, index: int) -> bool {
    exists|j: int| 0 <= j < index && (#[trigger] prompts[j]).id == prompts[index].id
}

/// Whether a pause has a message to show.
pub open spec fn has_message(prompt: PromptStepView) -> bool {
    prompt.message is Some && !is_blank(prompt.message->0)
}

/// The mistakes of one prompt.
pub open spec fn prompt_mistakes(prompts: Seq<PromptStepView>, index: int) -> Seq<Seq<char>> {
    let prompt = prompts[index];
    (if is_blank(prompt.id) {
        seq![at_prompt(index, "].id must not be empty"@)]
    } else {
        mistake(repeats_id(prompts, index), "duplicate prompt id '"@ + prompt.id + "'"@)
    }) + mistake(is_blank(prompt.text), at_prompt(index, "].text must not be empty"@)) + mistake(
        prompt.pause_after && !has_message(prompt),
        at_prompt(index, "].message must be non-empty when pause_after is true"@),
    )
}

/// The mistakes of the first `n` prompts.
pub open spec fn first_prompt_mistakes(prompts: Seq<PromptStepView>, n: nat) -> Seq<Seq<char>>
    decreases n,
{
    if n == 0 {
        Seq::empty()
    } else {
        first_prompt_mistakes(prompts, (n - 1) as nat) + prompt_mistakes(prompts, n - 1)
    }
}

/// The mistakes of the prompts.
pub open spec fn prompts_mistakes(prompts: Seq<PromptStepView>) -> Seq<Seq<char>> {
    mistake(prompts.len() == 0, "prompts must not be empty"@) + first_prompt_mistakes(
        prompts,
        prompts.len(),
    )
}

fn id_repeats(prompts: &Vec<PromptStep>, index: usize) -> (b: bool)
    requires
        index < prompts.len(),
    ensures
        b == repeats_id(prompt_views(prompts@), index as int),
{
    let ghost views = prompt_views(prompts@);
    for j in 0..index
        invariant
            index < prompts.len(),
            views == prompt_views(prompts@),
            forall|k: int| 0 <= k < j ==> (#[trigger] views[k]).id != views[index as int].id,
    {
        if same_text(prompts[j].id.as_str(), prompts[index].id.as_str()) {
            assert(views[j as int].id == views[index as int].id);
            return true;
        }
        assert(views[j as int].id != views[index as int].id);
    }
    false
}

/// Appends the mistakes of the prompts.
pub fn validate_prompts(prompts: &Vec<PromptStep>, errors: &mut Vec<String>)
    ensures
        texts(final(errors)@) == texts(old(errors)@) + prompts_mistakes(prompt_views(prompts@)),
{
    let ghost before = texts(errors@);
    let ghost views = prompt_views(prompts@);
    report(errors, prompts.is_empty(), "prompts must not be empty");
    let ghost start = texts(errors@);
    assert(texts(errors@) =~= start + first_prompt_mistakes(views, 0));
    for index in 0..prompts.len()
        invariant
            views == prompt_views(prompts@),
            texts(errors@) == start + first_prompt_mistakes(views, index as nat),
    {
        let ghost done = texts(errors@);
        let prompt = &prompts[index];
        assert(views[index as int] == prompt@);
        if blank(prompt.id.as_str()) {
            report(errors, true, at_prompt_string(index, "].id must not be empty").as_str());
        } else {
            let repeated = id_repeats(prompts, index);
            report(
                errors,
                repeated,
                "duplicate prompt id '".to_owned().concat(prompt.id.as_str()).concat("'").as_str(),
            );
        }
        report(
            errors,
            blank(prompt.text.as_str()),
            at_prompt_string(index, "].text must not be empty").as_str(),
        );
        let named = match &prompt.message {
            Some(message) => !blank(message.as_str()),
            None => false,
        };
        report(
            errors,
            prompt.pause_after && !named,
            at_prompt_string(
                index,
                "].message must be non-empty when pause_after is true",
            ).as_str(),
        );
        proof {
            assert(texts(errors@) =~= done + prompt_mistakes(views, index as int));
            assert(texts(errors@) =~= start + first_prompt_mistakes(views, (index + 1) as nat));
        }
    }
    proof {
        assert(texts(errors@) =~= before + prompts_mistakes(views));
    }
}

/// The mistakes of the first `n` arguments of the notification command.
pub open spec fn argument_mistakes(command: Seq<Seq<char>>, n: nat) -> Seq<Seq<char>>
    decreases n,
{
    if n == 0 {
        Seq::empty()
    } else {
        argument_mistakes(command, (n - 1) as nat) + mistake(
            command[n - 1].len() == 0,
            "notify.command["@ + nat_text((n - 1) as nat) + "] must not be empty"@,
        )
    }
}

/// The mistakes of the notification settings.
pub open spec fn notify_mistakes(notify: Option<NotifyConfigView>) -> Seq<Seq<char>> {
    match notify {
        Some(NotifyConfigView { command: Some(command) }) => mistake(
            command.len() == 0,
            "notify.command must not be empty when set"@,
        ) + argument_mistakes(command, command.len()),
        _ => Seq::empty(),
    }
}

/// What optional notification settings say.
pub open spec fn opt_notify_view(notify: Option<NotifyConfig>) -> Option<NotifyConfigView> {
    match notify {
        Some(config) => Some(config@),
        None => None,
    }
}

/// Appends the mistakes of the notification settings.
pub fn validate_notify(notify: &Option<NotifyConfig>, errors: &mut Vec<String>)
    ensures
        texts(final(errors)@) == texts(old(errors)@) + notify_mistakes(opt_notify_view(*notify)),
{
    let ghost before = texts(errors@);
    if let Some(NotifyConfig { command: Some(command) }) = notify {
        let ghost views = texts(command@);
        report(errors, command.is_empty(), "notify.command must not be empty when set");
        let ghost start = texts(errors@);
        assert(texts(errors@) =~= start + argument_mistakes(views, 0));
        for index in 0..command.len()
            invariant
                views == texts(command@),
                texts(errors@) == start + argument_mistakes(views, index as nat),
        {
            report(
                errors,
                command[index].as_str().is_empty(),
                "notify.command[".to_owned().concat(nat_string(index as u128).as_str()).concat(
                    "] must not be empty",
                ).as_str(),
            );
            proof {
                assert(texts(errors@) =~= start + argument_mistakes(views, (index + 1) as nat));
            }
        }
        proof {
            assert(texts(errors@) =~= before + notify_mistakes(opt_notify_view(*notify)));
        }
    } else {
        proof {
            assert(texts(errors@) =~= before + notify_mistakes(opt_notify_view(*notify)));
        }
    }
}

/// The first of the first `n` prompts that pauses.
pub open spec fn first_pause(prompts: Seq<PromptStepView>, n: nat) -> Option<nat>
    decreases n,
{
    if n == 0 {
        None
    } else {
        match first_pause(prompts, (n - 1) as nat) {
            Some(index) => Some(index),
            None => if prompts[n - 1].pause_after {
                Some((n - 1) as nat)
            } else {
                None
            },
        }
    }
}

/// The mistakes of the session settings: a prompt that pauses needs sessions that are kept.
pub open spec fn session_mistakes(config: ConfigView) -> Seq<Seq<char>> {
    match first_pause(config.prompts, config.prompts.len()) {
        Some(index) => mistake(
            !config.sessions,
            "sessions.enabled must be true when prompts["@ + nat_text(index)
                + "].pause_after is true"@,
        ),
        None => Seq::empty(),
    }
}

/// An earlier pause stays the first.
proof fn lemma_first_pause_stays(prompts: Seq<PromptStepView>, m: nat, n: nat)
    requires
        m <= n,
        first_pause(prompts, m) is Some,
    ensures
        first_pause(prompts, n) == first_pause(prompts, m),
    decreases n,
{
    if m < n {
        lemma_first_pause_stays(prompts, m, (n - 1) as nat);
    }
}

/// Appends the mistakes of the session settings.
pub fn validate_session_config(config: &Config, errors: &mut Vec<String>)
    ensures
        texts(final(errors)@) == texts(old(errors)@) + session_mistakes(config@),
{
    let ghost before = texts(errors@);
    let ghost views = config@.prompts;
    if config.sessions.enabled {
        proof {
            assert(before =~= before + session_mistakes(config@));
        }
        return;
    }
    for index in 0..config.prompts.len()
        invariant
            views == prompt_views(config.prompts@),
            views == config@.prompts,
            !config.sessions.enabled,
            before == texts(old(errors)@),
            texts(errors@) == before,
            first_pause(views, index as nat) is None,
        ensures
            texts(errors@) == before,
            first_pause(views, views.len()) is None,
    {
        assert(views[index as int] == config.prompts[index as int]@);
        if config.prompts[index].pause_after {
            report(
                errors,
                true,
                "sessions.enabled must be true when prompts[".to_owned().concat(
                    nat_string(index as u128).as_str(),
                ).concat("].pause_after is true").as_str(),
            );
            proof {
                lemma_first_pause_stays(views, (index + 1) as nat, views.len());
            }
            return;
        }
    }
    proof {
        assert(before =~= before + session_mistakes(config@));
    }
}

/// How the message of a prompt text begins that does not render.
pub open spec fn prompt_failure_start(prompt_id: Seq<char>, item_id: Seq<char>) -> Seq<char> {
    "prompt '"@ + prompt_id + "' failed to render for item '"@ + item_id + "': "@
}

/// How the message of a pause message begins that does not render.
pub open spec fn message_failure_start(prompt_id: Seq<char>, item_id: Seq<char>) -> Seq<char> {
    "prompt '"@ + prompt_id + "' message failed to render for item '"@ + item_id + "': "@
}

/// How the message of a notification command begins that does not render.
pub open spec fn notify_failure_start(item_id: Seq<char>) -> Seq<char> {
    "notify.command failed to render for item '"@ + item_id + "': "@
}

/// The error of a rendering, where it failed.
pub open spec fn opt_error<T>(rendered: Result<T, AgentFlowError>) -> Option<ErrorView> {
    match rendered {
        Ok(_) => None,
        Err(error) => Some(error@),
    }
}

/// Reports a prompt text that did not render.
pub fn report_prompt(
    errors: &mut Vec<String>,
    prompt_id: &str,
    item_id: &str,
    rendered: Result<String, AgentFlowError>,
)
    ensures
        texts(final(errors)@) == texts(old(errors)@) + (match outcome(rendered) {
            Ok(text) => Seq::empty(),
            Err(error) => seq![prompt_failure_start(prompt_id@, item_id@) + error.message()],
        }),
{
    let ghost before = texts(errors@);
    match rendered {
        Ok(_) => {
            proof {
                assert(before =~= before + Seq::empty());
            }
        },
        Err(error) => {
            report(
                errors,
                true,
                "prompt '".to_owned().concat(prompt_id).concat(
                    "' failed to render for item '",
                ).concat(item_id).concat("': ").concat(error.message().as_str()).as_str(),
            );
        },
    }
}

/// Reports a pause message that did not render.
pub fn report_message(
    errors: &mut Vec<String>,
    prompt_id: &str,
    item_id: &str,
    rendered: Result<String, AgentFlowError>,
)
    ensures
        texts(final(errors)@) == texts(old(errors)@) + (match outcome(rendered) {
            Ok(text) => Seq::empty(),
            Err(error) => seq![message_failure_start(prompt_id@, item_id@) + error.message()],
        }),
{
    let ghost before = texts(errors@);
    match rendered {
        Ok(_) => {
            proof {
                assert(before =~= before + Seq::empty());
            }
        },
        Err(error) => {
            report(
                errors,
                true,
                "prompt '".to_owned().concat(prompt_id).concat(
                    "' message failed to render for item '",
                ).concat(item_id).concat("': ").concat(error.message().as_str()).as_str(),
            );
        },
    }
}

/// Reports a notification command that did not render.
pub fn report_notify(
    errors: &mut Vec<String>,
    item_id: &str,
    rendered: Result<Option<Vec<String>>, AgentFlowError>,
)
    ensures
        texts(final(errors)@) == texts(old(errors)@) + (match rendered {
            Ok(argv) => Seq::empty(),
            Err(error) => seq![notify_failure_start(item_id@) + error@.message()],
        }),
{
    let ghost before = texts(errors@);
    match rendered {
        Ok(_) => {
            proof {
                assert(before =~= before + Seq::empty());
            }
        },
        Err(error) => {
            report(
                errors,
                true,
                "notify.command failed to render for item '".to_owned().concat(item_id).concat(
                    "': ",
                ).concat(error.message().as_str()).as_str(),
            );
        },
    }
}

/// A mistake that only rendering shows: one whose message is known in full, or a template that does
/// not render, whose message begins with `before` and ends with the render error.
pub enum TemplateMistake {
    Told(Seq<char>),
    Render { before: Seq<char> },
}

/// Whether a message tells a mistake.
pub open spec fn tells(text: Seq<char>, mistake: TemplateMistake) -> bool {
    match mistake {
        TemplateMistake::Told(told) => text == told,
        TemplateMistake::Render { before } => tells_render_error(text, before),
    }
}

/// Whether messages tell mistakes, one for one.
pub open spec fn all_told(told: Seq<Seq<char>>, mistakes: Seq<TemplateMistake>) -> bool {
    &&& told.len() == mistakes.len()
    &&& forall|i: int| 0 <= i < told.len() ==> #[trigger] tells(told[i], mistakes[i])
}

/// Whether the messages that have been added to a list tell mistakes, one for one.
pub open spec fn tells_more(
    before: Seq<Seq<char>>,
    after: Seq<Seq<char>>,
    mistakes: Seq<TemplateMistake>,
) -> bool {
    exists|told: Seq<Seq<char>>| #[trigger] all_told(told, mistakes) && after == before + told
}

/// Mistakes that are told one after the other.
proof fn lemma_tells_more(
    before: Seq<Seq<char>>,
    between: Seq<Seq<char>>,
    after: Seq<Seq<char>>,
    first: Seq<TemplateMistake>,
    second: Seq<TemplateMistake>,
)
    requires
        tells_more(before, between, first),
        tells_more(between, after, second),
    ensures
        tells_more(before, after, first + second),
{
    let one = choose|told: Seq<Seq<char>>|
        #[trigger] all_told(told, first) && between == before + told;
    let other = choose|told: Seq<Seq<char>>|
        #[trigger] all_told(told, second) && after == between + told;
    let all = one + other;
    assert forall|i: int| 0 <= i < all.len() implies #[trigger] tells(
        all[i],
        (first + second)[i],
    ) by {
        if i < one.len() {
            assert(tells(one[i], first[i]));
        } else {
            assert(tells(other[i - one.len()], second[i - one.len()]));
        }
    }
    assert(all_told(all, first + second));
    assert(after =~= before + all);
}

/// No mistake is told by no message.
proof fn lemma_tells_nothing(before: Seq<Seq<char>>)
    ensures
        tells_more(before, before, Seq::empty()),
{
    let told = Seq::<Seq<char>>::empty();
    assert(all_told(told, Seq::empty()));
    assert(before =~= before + told);
}

/// One mistake is told by one message.
proof fn lemma_tells_one(before: Seq<Seq<char>>, text: Seq<char>, mistake: TemplateMistake)
    requires
        tells(text, mistake),
    ensures
        tells_more(before, before + seq![text], seq![mistake]),
{
    assert(all_told(seq![text], seq![mistake]));
}

/// A template that does not render for an item; `before` begins the message.
pub open spec fn unrendered(rendered: bool, before: Seq<char>) -> Seq<TemplateMistake> {
    if rendered {
        Seq::empty()
    } else {
        seq![TemplateMistake::Render { before }]
    }
}

/// What a report of a rendering adds.
proof fn lemma_reported(
    before: Seq<Seq<char>>,
    after: Seq<Seq<char>>,
    error: Option<ErrorView>,
    start: Seq<char>,
)
    requires
        error matches Some(e) ==> e is Render && after == before + seq![start + e.message()],
        error is None ==> after == before + Seq::empty(),
    ensures
        tells_more(before, after, unrendered(error is None, start)),
{
    match error {
        None => {
            assert(after =~= before);
            lemma_tells_nothing(before);
        },
        Some(e) => {
            assert(e == ErrorView::Render(e->Render_0));
            assert(tells_render_error(start + e.message(), start));
            lemma_tells_one(before, start + e.message(), TemplateMistake::Render { before: start });
        },
    }
}

/// The templates of one prompt that do not render for an item.
pub open spec fn prompt_template_mistakes(
    prompt: PromptStepView,
    item_id: Seq<char>,
    context: JsonView,
) -> Seq<TemplateMistake> {
    unrendered(
        strictly_rendered(prompt.text, context) is Some,
        prompt_failure_start(prompt.id, item_id),
    ) + unrendered(
        prompt.message is None || strictly_rendered(prompt.message->0, context) is Some,
        message_failure_start(prompt.id, item_id),
    )
}

/// The templates of the first `n` prompts that do not render for an item.
pub open spec fn prompts_template_mistakes(
    prompts: Seq<PromptStepView>,
    item_id: Seq<char>,
    context: JsonView,
    n: nat,
) -> Seq<TemplateMistake>
    decreases n,
{
    if n == 0 {
        Seq::empty()
    } else {
        prompts_template_mistakes(prompts, item_id, context, (n - 1) as nat)
            + prompt_template_mistakes(prompts[n - 1], item_id, context)
    }
}

/// The message that the notification command is tried with.
pub const TRIAL_MESSAGE: &'static str = "validation message";

/// The templates that do not render for an item.
pub open spec fn item_template_mistakes(
    config: ConfigView,
    repo_root: Seq<char>,
    item: LoopItemView,
) -> Seq<TemplateMistake> {
    let context = context_of(item, repo_root, None);
    prompts_template_mistakes(
        config.prompts,
        item.item_id,
        prompt_context(context),
        config.prompts.len(),
    ) + unrendered(
        config.notify is None || notify_argv(config.notify->0, context, TRIAL_MESSAGE@) is Some,
        notify_failure_start(item.item_id),
    )
}

/// The templates that do not render for the first `n` items.
pub open spec fn items_template_mistakes(
    config: ConfigView,
    repo_root: Seq<char>,
    items: Seq<LoopItemView>,
    n: nat,
) -> Seq<TemplateMistake>
    decreases n,
{
    if n == 0 {
        Seq::empty()
    } else {
        items_template_mistakes(config, repo_root, items, (n - 1) as nat) + item_template_mistakes(
            config,
            repo_root,
            items[n - 1],
        )
    }
}

/// The mistakes of the templates: the loop must expand, and every template must render for every
/// item.
pub open spec fn template_mistakes(config: ConfigView, repo_root: Seq<char>) -> Seq<
    TemplateMistake,
> {
    match planned_items(config.loop_, repo_root) {
        Err(Failure::Told(error)) => seq![TemplateMistake::Told(error.message())],
        Err(Failure::Render) => seq![TemplateMistake::Render { before: Seq::empty() }],
        Ok(items) => items_template_mistakes(config, repo_root, items, items.len()),
    }
}

fn validate_item_prompts(
    config: &Config,
    item: &LoopItem,
    context: &TemplateContext,
    errors: &mut Vec<String>,
)
    ensures
        tells_more(
            texts(old(errors)@),
            texts(final(errors)@),
            prompts_template_mistakes(
                config@.prompts,
                item@.item_id,
                prompt_context(context@),
                config@.prompts.len(),
            ),
        ),
{
    let ghost start = texts(errors@);
    let ghost prompts = config@.prompts;
    let ghost variables = prompt_context(context@);
    proof {
        lemma_tells_nothing(start);
    }
    for index in 0..config.prompts.len()
        invariant
            prompts == prompt_views(config.prompts@),
            prompts == config@.prompts,
            variables == prompt_context(context@),
            tells_more(
                start,
                texts(errors@),
                prompts_template_mistakes(prompts, item@.item_id, variables, index as nat),
            ),
    {
        let ghost done = texts(errors@);
        let prompt = &config.prompts[index];
        assert(prompts[index as int] == prompt@);
        let rendered = render_prompt(prompt, context);
        let ghost text_error = opt_error(rendered);
        report_prompt(errors, prompt.id.as_str(), item.item_id.as_str(), rendered);
        let ghost between = texts(errors@);
        proof {
            lemma_reported(
                done,
                between,
                text_error,
                prompt_failure_start(prompt@.id, item@.item_id),
            );
        }
        let ghost mut message_error = None;
        if let Some(message) = &prompt.message {
            let rendered = render_message(message.as_str(), context);
            proof {
                message_error = opt_error(rendered);
            }
            report_message(errors, prompt.id.as_str(), item.item_id.as_str(), rendered);
        } else {
            assert(between =~= between + Seq::empty());
        }
        proof {
            let after = texts(errors@);
            let message_start = message_failure_start(prompt@.id, item@.item_id);
            lemma_reported(between, after, message_error, message_start);
            let first = unrendered(
                text_error is None,
                prompt_failure_start(prompt@.id, item@.item_id),
            );
            let second = unrendered(message_error is None, message_start);
            lemma_tells_more(done, between, after, first, second);
            assert(first + second == prompt_template_mistakes(prompt@, item@.item_id, variables));
            lemma_tells_more(
                start,
                done,
                after,
                prompts_template_mistakes(prompts, item@.item_id, variables, index as nat),
                first + second,
            );
        }
    }
}

fn validate_item(config: &Config, repo_root: &str, item: &LoopItem, errors: &mut Vec<String>)
    ensures
        tells_more(
            texts(old(errors)@),
            texts(final(errors)@),
            item_template_mistakes(config@, repo_root@, item@),
        ),
{
    let ghost start = texts(errors@);
    let context = build_context(item, repo_root, None);
    validate_item_prompts(config, item, &context, errors);
    let ghost between = texts(errors@);
    let ghost mut error = None;
    if let Some(notify) = &config.notify {
        let rendered = render_notify_argv(notify, &context, TRIAL_MESSAGE);
        proof {
            error = opt_error(rendered);
        }
        report_notify(errors, item.item_id.as_str(), rendered);
    } else {
        assert(between =~= between + Seq::empty());
    }
    proof {
        let after = texts(errors@);
        let notify_start = notify_failure_start(item@.item_id);
        lemma_reported(between, after, error, notify_start);
        lemma_tells_more(
            start,
            between,
            after,
            prompts_template_mistakes(
                config@.prompts,
                item@.item_id,
                prompt_context(context@),
                config@.prompts.len(),
            ),
            unrendered(error is None, notify_start),
        );
    }
}

/// Appends the mistakes of the templates.
pub fn validate_templates(config: &Config, repo_root: &str, errors: &mut Vec<String>)
    ensures
        tells_more(
            texts(old(errors)@),
            texts(final(errors)@),
            template_mistakes(config@, repo_root@),
        ),
{
    let ghost start = texts(errors@);
    let plan = match build_loop_plan(config, repo_root) {
        Ok(plan) => plan,
        Err(error) => {
            report(errors, true, error.message().as_str());
            proof {
                let text = error@.message();
                if let ErrorView::Render(rest) = error@ {
                    assert(text =~= Seq::<char>::empty() + ErrorView::Render(rest).message());
                    assert(tells_render_error(text, Seq::empty()));
                }
                lemma_tells_one(start, text, template_mistakes(config@, repo_root@)[0]);
                assert(template_mistakes(config@, repo_root@) =~= seq![
                    template_mistakes(config@, repo_root@)[0],
                ]);
            }
            return;
        },
    };
    let ghost items = item_views(plan.items@);
    proof {
        lemma_tells_nothing(start);
    }
    for index in 0..plan.items.len()
        invariant
            items == item_views(plan.items@),
            tells_more(
                start,
                texts(errors@),
                items_template_mistakes(config@, repo_root@, items, index as nat),
            ),
    {
        let ghost done = texts(errors@);
        assert(items[index as int] == plan.items[index as int]@);
        validate_item(config, repo_root, &plan.items[index], errors);
        proof {
            lemma_tells_more(
                start,
                done,
                texts(errors@),
                items_template_mistakes(config@, repo_root@, items, index as nat),
                item_template_mistakes(config@, repo_root@, items[index as int]),
            );
        }
    }
}

/// The mistakes that can be seen without rendering a template.
pub open spec fn basic_mistakes(config: ConfigView) -> Seq<Seq<char>> {
    loop_mistakes(config.loop_) + prompts_mistakes(config.prompts) + notify_mistakes(config.notify)
        + session_mistakes(config)
}

/// Whether a configuration has no mistakes.
pub open spec fn config_accepted(config: ConfigView, repo_root: Seq<char>) -> bool {
    &&& basic_mistakes(config).len() == 0
    &&& template_mistakes(config, repo_root).len() == 0
}

/// Whether an error tells all mistakes of a configuration, one to a line. Templates are tried only
/// where there is no other mistake.
pub open spec fn tells_mistakes(error: ErrorView, config: ConfigView, repo_root: Seq<char>) -> bool {
    if basic_mistakes(config).len() > 0 {
        error == ErrorView::ConfigValidation(joined(basic_mistakes(config), "\n"@))
    } else {
        exists|told: Seq<Seq<char>>| #[trigger]
            all_told(told, template_mistakes(config, repo_root)) && error
                == ErrorView::ConfigValidation(joined(told, "\n"@))
    }
}

/// Checks a configuration.
pub fn validate_config(config: &Config, repo_root: &str) -> (result: Result<(), AgentFlowError>)
    ensures
        (match result {
            Ok(_) => config_accepted(config@, repo_root@),
            Err(error) => {
                &&& !config_accepted(config@, repo_root@)
                &&& tells_mistakes(error@, config@, repo_root@)
            },
        }),
{
    let mut errors: Vec<String> = Vec::new();
    assert(texts(errors@) =~= Seq::empty());
    match config.provider {
        Provider::Omp => {},
    }
    validate_loop_config(&config.loop_, &mut errors);
    validate_prompts(&config.prompts, &mut errors);
    validate_notify(&config.notify, &mut errors);
    validate_session_config(config, &mut errors);
    assert(texts(errors@) =~= basic_mistakes(config@));
    if errors.is_empty() {
        let ghost none = texts(errors@);
        validate_templates(config, repo_root, &mut errors);
        proof {
            let mistakes = template_mistakes(config@, repo_root@);
            let told = choose|told: Seq<Seq<char>>|
                #[trigger] all_told(told, mistakes) && texts(errors@) == none + told;
            assert(texts(errors@) =~= told);
            assert(all_told(texts(errors@), mistakes));
        }
    }
    assert(texts(errors@).len() == errors@.len());
    if errors.is_empty() {
        Ok(())
    } else {
        Err(AgentFlowError::config_validation(errors))
    }
}

} // verus!

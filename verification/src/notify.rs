//! The external notification command: its arguments, and what its outcome means.

use vstd::prelude::*;
use vstd::utf8::{decode_utf8, valid_utf8};

use crate::config::{opt_notify_view, NotifyConfig, NotifyConfigView};
use crate::json::{json_view, JsonView};
use crate::template::{
    notify_context, notify_value, render_strict, strictly_rendered, TemplateContext,
    TemplateContextView,
};
use crate::text::{nat_string, nat_text, opt_text, texts};

verus! {

/// How many seconds the notification command may take.
pub const NOTIFY_TIMEOUT_SECONDS: u64 = 30;

/// What `Debug` of `str` writes: the text between double quotes, with escapes.
pub uninterp spec fn debug_quoted(text: Seq<char>) -> Seq<char>;

/// `Debug` of `str`, named by [`debug_quoted`]. Which characters are escaped is left to the name.
#[verifier::external_body]
fn debug_text(text: &str) -> (quoted: String)
    ensures
        quoted@ == debug_quoted(text@),
{
    format!("{:?}", text)
}

/// What `String::from_utf8_lossy` makes of bytes.
pub uninterp spec fn lossy_text(bytes: Seq<u8>) -> Seq<char>;

/// `String::from_utf8_lossy`, named by [`lossy_text`]. Valid UTF-8 is decoded as it stands; what is
/// put in place of invalid bytes is left to the name.
#[verifier::external_body]
fn utf8_lossy(bytes: &[u8]) -> (text: String)
    ensures
        text@ == lossy_text(bytes@),
        valid_utf8(bytes@) ==> text@ == decode_utf8(bytes@),
{
    String::from_utf8_lossy(bytes).into_owned()
}

/// What is to be done about a notification.
#[derive(Debug, PartialEq, Eq)]
pub enum NotifyPlan {
    /// No command is configured.
    Nothing,
    /// The command cannot be run; the text says why.
    Report(String),
    /// The program to run, followed by its arguments.
    Run(Vec<String>),
}

/// What a [`NotifyPlan`] says.
pub enum NotifyPlanView {
    Nothing,
    Report(Seq<char>),
    Run(Seq<Seq<char>>),
}

impl View for NotifyPlan {
    type V = NotifyPlanView;

    open spec fn view(&self) -> NotifyPlanView {
        match self {
            NotifyPlan::Nothing => NotifyPlanView::Nothing,
            NotifyPlan::Report(text) => NotifyPlanView::Report(text@),
            NotifyPlan::Run(argv) => NotifyPlanView::Run(texts(argv@)),
        }
    }
}

/// The error of an argument that does not render.
pub open spec fn argument_failure(argument: Seq<char>) -> Seq<char> {
    "failed to render notify.command argv element "@ + debug_quoted(argument)
}

/// The rendered arguments, or the error of the first that does not render.
pub open spec fn rendered_argv(command: Seq<Seq<char>>, context: JsonView) -> Result<
    Seq<Seq<char>>,
    Seq<char>,
>
    decreases command.len(),
{
    if command.len() == 0 {
        Ok(Seq::empty())
    } else {
        match rendered_argv(command.drop_last(), context) {
            Err(error) => Err(error),
            Ok(done) => match strictly_rendered(command.last(), context) {
                None => Err(argument_failure(command.last())),
                Some(text) => Ok(done.push(text)),
            },
        }
    }
}

/// An error in rendering the first arguments is the error of rendering them all.
proof fn lemma_first_argv_error(command: Seq<Seq<char>>, context: JsonView, n: int)
    requires
        0 <= n <= command.len(),
        rendered_argv(command.take(n), context) is Err,
    ensures
        rendered_argv(command, context) == rendered_argv(command.take(n), context),
    decreases command.len() - n,
{
    if n < command.len() {
        assert(command.take(n + 1).drop_last() =~= command.take(n));
        lemma_first_argv_error(command, context, n + 1);
    } else {
        assert(command.take(n) =~= command);
    }
}

/// The outcome of rendering arguments.
pub open spec fn argv_result(result: Result<Vec<String>, String>) -> Result<
    Seq<Seq<char>>,
    Seq<char>,
> {
    match result {
        Ok(argv) => Ok(texts(argv@)),
        Err(error) => Err(error@),
    }
}

/// Renders the arguments of the notification command.
pub fn render_argv(command: &Vec<String>, context: &TemplateContext, message: &str) -> (result:
    Result<Vec<String>, String>)
    ensures
        argv_result(result) == rendered_argv(
            texts(command@),
            notify_context(context@, message@),
        ),
{
    let variables = notify_value(context, message);
    let ghost sources = texts(command@);
    let ghost named = notify_context(context@, message@);
    let mut argv: Vec<String> = Vec::new();
    assert(texts(argv@) =~= Seq::empty());
    for i in 0..command.len()
        invariant
            sources == texts(command@),
            named == notify_context(context@, message@),
            json_view(variables) == named,
            rendered_argv(sources.take(i as int), named) == Ok::<Seq<Seq<char>>, Seq<char>>(
                texts(argv@),
            ),
    {
        let ghost before = argv@;
        assert(sources.take(i + 1).drop_last() =~= sources.take(i as int));
        match render_strict(command[i].as_str(), &variables) {
            Ok(text) => {
                argv.push(text);
                assert(texts(argv@) =~= texts(before).push(text@));
            },
            Err(_) => {
                proof {
                    lemma_first_argv_error(sources, named, i + 1);
                }
                return Err(
                    "failed to render notify.command argv element ".to_owned().concat(
                        debug_text(command[i].as_str()).as_str(),
                    ),
                );
            },
        }
    }
    assert(sources.take(sources.len() as int) =~= sources);
    Ok(argv)
}

/// What is to be done about a notification. A command that does not render is reported, like one that
/// cannot be started.
pub open spec fn notify_plan(
    config: Option<NotifyConfigView>,
    context: TemplateContextView,
    message: Seq<char>,
) -> NotifyPlanView {
    match config {
        Some(NotifyConfigView { command: Some(command) }) => if command.len() == 0 {
            NotifyPlanView::Report("notify.command is empty"@)
        } else {
            match rendered_argv(command, notify_context(context, message)) {
                Ok(argv) => NotifyPlanView::Run(argv),
                Err(error) => NotifyPlanView::Report(error),
            }
        },
        _ => NotifyPlanView::Nothing,
    }
}

/// Decides what is to be done about a notification.
pub fn plan_notify(config: &Option<NotifyConfig>, context: &TemplateContext, message: &str) -> (plan:
    NotifyPlan)
    ensures
        plan@ == notify_plan(opt_notify_view(*config), context@, message@),
{
    match config {
        Some(NotifyConfig { command: Some(command) }) => {
            if command.is_empty() {
                return NotifyPlan::Report("notify.command is empty".to_owned());
            }
            match render_argv(command, context, message) {
                Ok(argv) => NotifyPlan::Run(argv),
                Err(error) => NotifyPlan::Report(error),
            }
        },
        _ => NotifyPlan::Nothing,
    }
}

/// How the notification command ended.
#[derive(Debug, PartialEq, Eq)]
pub enum NotifyEnd {
    /// It ran to its end.
    Exited { success: bool, status: String, stdout: Vec<u8>, stderr: Vec<u8> },
    /// It could not be started; the text says why.
    NotStarted(String),
    /// It took too long.
    TimedOut,
}

/// A labelled piece of output, and nothing where the output is empty.
pub open spec fn output_text(label: Seq<char>, bytes: Seq<u8>) -> Seq<char> {
    if bytes.len() == 0 {
        Seq::empty()
    } else {
        "; "@ + label + ": "@ + lossy_text(bytes)
    }
}

/// Appends a labelled piece of output to a message; empty output adds nothing.
pub fn append_output_text(message: &mut String, label: &str, bytes: &[u8])
    ensures
        final(message)@ == old(message)@ + output_text(label@, bytes@),
{
    let ghost before = message@;
    if bytes.len() != 0 {
        message.append("; ");
        message.append(label);
        message.append(": ");
        message.append(utf8_lossy(bytes).as_str());
    }
    proof {
        assert(message@ =~= before + output_text(label@, bytes@));
    }
}

/// The message of a command that exited without success.
pub open spec fn command_failure(status: Seq<char>, stdout: Seq<u8>, stderr: Seq<u8>) -> Seq<char> {
    "notify.command exited with status "@ + status + output_text("stdout"@, stdout) + output_text(
        "stderr"@,
        stderr,
    )
}

/// Describes a command that exited without success.
pub fn format_command_failure(status: &str, stdout: &[u8], stderr: &[u8]) -> (message: String)
    ensures
        message@ == command_failure(status@, stdout@, stderr@),
{
    let mut message = "notify.command exited with status ".to_owned().concat(status);
    append_output_text(&mut message, "stdout", stdout);
    append_output_text(&mut message, "stderr", stderr);
    message
}

/// What is told about the end of a notification command: nothing where it succeeded.
pub open spec fn notify_end_text(end: NotifyEnd) -> Option<Seq<char>> {
    match end {
        NotifyEnd::Exited { success, status, stdout, stderr } => if success {
            None
        } else {
            Some(command_failure(status@, stdout@, stderr@))
        },
        NotifyEnd::NotStarted(error) => Some("notify.command failed to start: "@ + error@),
        NotifyEnd::TimedOut => Some(
            "notify.command timed out after "@ + nat_text(NOTIFY_TIMEOUT_SECONDS as nat)
                + " seconds"@,
        ),
    }
}

/// Tells what went wrong with a notification command, if anything did.
pub fn notify_report(end: &NotifyEnd) -> (report: Option<String>)
    ensures
        opt_text(report) == notify_end_text(*end),
{
    match end {
        NotifyEnd::Exited { success, status, stdout, stderr } => {
            if *success {
                None
            } else {
                Some(format_command_failure(status.as_str(), stdout.as_slice(), stderr.as_slice()))
            }
        },
        NotifyEnd::NotStarted(error) => Some(
            "notify.command failed to start: ".to_owned().concat(error.as_str()),
        ),
        NotifyEnd::TimedOut => Some(
            "notify.command timed out after ".to_owned().concat(
                nat_string(NOTIFY_TIMEOUT_SECONDS as u128).as_str(),
            ).concat(" seconds"),
        ),
    }
}

} // verus!

//! Templates and their variables.

use agentflow::config::{NotifyConfig, PromptStep};
use agentflow::loop_spec::LoopItem;
use agentflow::notify::{
    append_output_text, format_command_failure, notify_report, plan_notify, render_argv, NotifyEnd,
    NotifyPlan,
};
use agentflow::partials::recursion_possible;
use agentflow::template::{
    build_context, default_halt_message, default_notify_message, render_item_id, render_message,
    render_notify_argv, render_prompt, render_result, shell_double_quoted,
};

fn item() -> LoopItem {
    LoopItem { counter: 14, item_id: "M14".to_owned(), iteration: 1, iteration_index: 0 }
}

#[test]
fn render_item_id_should_fail_for_unknown_variable() {
    let err = render_item_id("M{{missing}}", 14, 1, 0, "/repo");
    assert!(err.is_err());
}

#[test]
fn build_context_should_render_shell_commands_with_escaped_message() {
    let item = LoopItem {
        counter: 7,
        item_id: "M\\\"7".to_owned(),
        iteration: 1,
        iteration_index: 0,
    };
    let context = build_context(&item, "/repo", None);
    assert_eq!(
        context.notify_command,
        "agentflow notify --message \"Need input for M\\\\\\\"7\""
    );
}

#[test]
fn render_prompt_should_include_counter_padded_and_item_id() {
    let context = build_context(&item(), "/repo", None);
    let step = PromptStep {
        id: "p".to_owned(),
        text: "{{item_id}} {{counter_padded}}".to_owned(),
        new_session: false,
        pause_after: false,
        message: None,
    };
    let rendered = match render_prompt(&step, &context) {
        Ok(rendered) => rendered,
        Err(err) => panic!("{}", err.message()),
    };
    assert_eq!(rendered, "M14 014");
}

#[test]
fn render_notify_argv_should_render_message_without_shell() {
    let context = build_context(&item(), "/repo", None);
    let notify = NotifyConfig {
        command: Some(vec!["notify".to_owned(), "{{message}} {{item_id}}".to_owned()]),
    };
    let rendered = match render_notify_argv(&notify, &context, "hello \"there\"") {
        Ok(Some(argv)) => argv,
        Ok(None) => panic!("expected argv"),
        Err(err) => panic!("{}", err.message()),
    };
    assert_eq!(
        rendered,
        vec!["notify".to_owned(), "hello \"there\" M14".to_owned()]
    );
}

#[test]
fn all_variables_are_known_to_prompts() {
    let context = build_context(&item(), "/repo", None);
    assert_eq!(
        render_message(
            "{{counter}} {{counter_padded}} {{item_id}} {{iteration}} {{iteration_index}} \
             {{repo_root}} {{notify_command}} {{halt_command}}",
            &context,
        )
        .ok(),
        Some(
            "14 014 M14 1 0 /repo agentflow notify --message \"Need input for M14\" \
             agentflow halt --message \"M14 is already complete; stopping flow.\""
                .to_owned()
        )
    );
    assert!(render_message("{{message}}", &context).is_err());
    let context = build_context(&item(), "/repo", Some("<now> & \"here\""));
    assert_eq!(
        render_message("{{message}}", &context).ok(),
        Some("<now> & \"here\"".to_owned())
    );
}

#[test]
fn inline_partials_are_rendered() {
    let context = build_context(&item(), "/repo", None);
    let templates = [
        ("{{#*inline \"row\"}}[{{item_id}}]{{/inline}}{{> row}}{{> row}}", "[M14][M14]"),
        ("{{#*inline \"a\"}}x{{/inline}}{{#*inline \"b\"}}y{{/inline}}{{> a}}{{> b}}", "xy"),
        ("{{#*inline \"a\"}}x{{/inline}}{{#*inline \"b\"}}{{> a}}{{/inline}}{{> b}}", "x"),
        (
            "{{#*inline 'c'}}({{> b}}){{/inline}}{{#*inline \"b\"}}<{{#if counter}}{{> a}}{{/if}}>\
             {{/inline}}{{#*inline \"a\"}}{{counter}}{{/inline}}{{> c}}{{> b}}",
            "(<14>)<14>",
        ),
        (
            "{{#*inline \"box\"}}<{{> @partial-block}}>{{/inline}}{{#> box}}{{counter}}{{/box}}",
            "<14>",
        ),
        (
            "{{#*inline \"a\"}}{{#*inline \"b\"}}{{> a}}{{/inline}}x{{/inline}}{{> a}}",
            "x",
        ),
        (
            "{{! {{#*inline \"a\"}} }}\\{{> a}}{{#*inline \"a\"}}x{{/inline}}\
             {{!-- {{/inline}} --}}{{#*inline \"b\"}}{{> a}}{{/inline}}{{> b}}",
            " }}{{> a}}x",
        ),
        (
            "{{#*inline \"a\"}}{{{item_id}}}{{/inline}}{{#*inline \"b\"}}\
             {{lookup this \"item_id\"}}{{> a}}{{/inline}}{{> (lookup this \"repo_root\")}}",
            "",
        ),
        ("{{#> lost}}{{item_id}}{{/lost}}", "M14"),
    ];
    for (template, text) in templates {
        assert!(!recursion_possible(template), "{}", template);
        match render_message(template, &context) {
            Ok(rendered) => assert_eq!(rendered, text),
            Err(error) => {
                assert!(text.is_empty() && error.message().starts_with("render error: "));
            }
        }
    }
}

#[test]
fn inline_partials_must_not_call_themselves() {
    let context = build_context(&item(), "/repo", None);
    let templates = [
        "{{#*inline \"a\"}}{{> a}}{{/inline}}{{> a}}",
        "{{#*inline \"a\"}}{{> b}}{{/inline}}{{#*inline \"b\"}}{{> a}}{{/inline}}{{> a}}",
        "{{#*inline 'a'}}{{#if counter}}{{else}}{{#> a}}{{/a}}{{/if}}{{/inline}}{{> a}}",
        "{{ ~ # * inline \"a\" ~}}{{~ # > a}}{{/a}}{{~ / inline}}{{> a}}",
        "{{#*inline item_id}}{{> a}}{{/inline}}{{> M14}}",
        "{{#*inline \"a\"}}{{> (lookup this \"item_id\")}}{{/}}{{> a}}",
        "{{#*inline \"a\"}}{{!-- }}{{/inline}} --}}{{> a}}{{/inline}}{{> a}}",
        "{{#*inline \"a\"}}{{log \"}}{{/inline}}\"}}{{> a}}{{/inline}}{{> a}}",
        "{{#*inline \"a\"}}\\{{/inline}}{{> a}}{{/inline}}{{> a}}",
        "{{#*inline \"a\"}}\\\\{{> a}}{{/inline}}{{> a}}",
        "{{#*inline \"a\"}}{{{{raw}}}}{{/inline}}{{{{/raw}}}}{{> a}}{{/inline}}{{> a}}",
        "{{#*inline \"a\"}}{{[}}{{/inline}}]}}{{> a}}{{/inline}}{{> a}}",
    ];
    for template in templates {
        assert!(recursion_possible(template), "{}", template);
        match render_message(template, &context) {
            Err(error) => assert_eq!(
                error.message(),
                "render error: an inline partial must not call itself"
            ),
            Ok(text) => panic!("{}", text),
        }
    }
}

#[test]
fn default_messages_name_the_item() {
    assert_eq!(default_notify_message("M1"), "Need input for M1");
    assert_eq!(default_halt_message("M1"), "M1 is already complete; stopping flow.");
}

#[test]
fn quotes_and_backslashes_are_escaped() {
    assert_eq!(shell_double_quoted("a\"b\\c$d"), "\"a\\\"b\\\\c$d\"");
    assert_eq!(shell_double_quoted(""), "\"\"");
}

#[test]
fn a_rendering_keeps_its_text_or_its_error() {
    assert_eq!(render_result(Ok("a".to_owned())).ok(), Some("a".to_owned()));
    match render_result(Err("b".to_owned())) {
        Err(error) => assert_eq!(error.message(), "render error: b"),
        Ok(text) => panic!("{}", text),
    }
}

#[test]
fn a_notification_without_command_does_nothing() {
    let context = build_context(&item(), "/repo", Some("stop"));
    assert_eq!(plan_notify(&None, &context, "stop"), NotifyPlan::Nothing);
    assert_eq!(
        plan_notify(&Some(NotifyConfig { command: None }), &context, "stop"),
        NotifyPlan::Nothing
    );
    let notify = NotifyConfig { command: None };
    assert!(matches!(render_notify_argv(&notify, &context, "stop"), Ok(None)));
}

#[test]
fn a_notification_command_is_rendered() {
    let context = build_context(&item(), "/repo", Some("ignored"));
    let command = vec!["say".to_owned(), "{{item_id}}: {{message}}".to_owned()];
    assert_eq!(
        plan_notify(&Some(NotifyConfig { command: Some(command) }), &context, "stop"),
        NotifyPlan::Run(vec!["say".to_owned(), "M14: stop".to_owned()])
    );
    assert_eq!(
        plan_notify(&Some(NotifyConfig { command: Some(Vec::new()) }), &context, "stop"),
        NotifyPlan::Report("notify.command is empty".to_owned())
    );
}

#[test]
fn an_argument_that_does_not_render_is_quoted() {
    let context = build_context(&item(), "/repo", Some("stop"));
    let command = vec!["say".to_owned(), "\"{{lost}}\"".to_owned(), "{{gone}}".to_owned()];
    let error = "failed to render notify.command argv element \"\\\"{{lost}}\\\"\"".to_owned();
    assert_eq!(render_argv(&command, &context, "stop"), Err(error.clone()));
    assert_eq!(
        plan_notify(&Some(NotifyConfig { command: Some(command) }), &context, "stop"),
        NotifyPlan::Report(error)
    );
}

#[test]
fn the_end_of_a_notification_is_reported() {
    assert_eq!(
        notify_report(&NotifyEnd::Exited {
            success: true,
            status: "exit status: 0".to_owned(),
            stdout: b"hello".to_vec(),
            stderr: Vec::new(),
        }),
        None
    );
    assert_eq!(
        notify_report(&NotifyEnd::Exited {
            success: false,
            status: "exit status: 1".to_owned(),
            stdout: Vec::new(),
            stderr: b"no".to_vec(),
        }),
        Some("notify.command exited with status exit status: 1; stderr: no".to_owned())
    );
    assert_eq!(
        notify_report(&NotifyEnd::NotStarted("not found".to_owned())),
        Some("notify.command failed to start: not found".to_owned())
    );
    assert_eq!(
        notify_report(&NotifyEnd::TimedOut),
        Some("notify.command timed out after 30 seconds".to_owned())
    );
}

#[test]
fn output_that_is_not_text_is_shown_all_the_same() {
    assert_eq!(
        format_command_failure("signal: 9", &[b'o', 0xff, b'k'], b"\xc3\xa4"),
        "notify.command exited with status signal: 9; stdout: o\u{fffd}k; stderr: \u{e4}"
    );
    let mut message = "m".to_owned();
    append_output_text(&mut message, "stdout", b"");
    assert_eq!(message, "m");
}

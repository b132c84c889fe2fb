//! Checks of configurations.

use agentflow::config::{
    apply_overrides, report_message, report_notify, report_prompt, validate_config,
    validate_loop_config, validate_notify, validate_prompts, Config, LogConfig, LoopConfig,
    LoopOverrides, NotifyConfig, PromptStep, Provider, SessionConfig,
};
use agentflow::error::AgentFlowError;

fn valid_config() -> Config {
    Config {
        provider: Provider::Omp,
        loop_: LoopConfig {
            start: 1,
            end: None,
            count: Some(2),
            step: 1,
            item_id: "M{{counter}}".to_owned(),
        },
        notify: Some(NotifyConfig {
            command: Some(vec!["printf".to_owned(), "{{message}} {{item_id}}".to_owned()]),
        }),
        sessions: SessionConfig::default(),
        logs: LogConfig::default(),
        prompts: vec![PromptStep {
            id: "plan".to_owned(),
            text: "Do {{item_id}} from {{repo_root}}".to_owned(),
            new_session: false,
            pause_after: true,
            message: Some("Pause {{item_id}}".to_owned()),
        }],
    }
}

#[test]
fn validate_config_should_accept_valid_config() {
    let mut config = valid_config();
    config.sessions.enabled = true;
    let result = validate_config(&config, "/repo");
    assert!(result.is_ok());
}

#[test]
fn validate_config_should_collect_basic_errors() {
    let mut config = valid_config();
    config.loop_.end = Some(2);
    config.loop_.count = Some(0);
    config.loop_.step = 0;
    config.prompts.push(PromptStep {
        id: "plan".to_owned(),
        text: " ".to_owned(),
        new_session: false,
        pause_after: false,
        message: None,
    });
    let err = validate_config(&config, "/repo").err().map(|err| err.message());
    let err = err.unwrap_or_default();
    assert!(err.contains("exactly one of loop.end or loop.count"));
    assert!(err.contains("loop.count must be greater than 0"));
    assert!(err.contains("loop.step must be greater than 0"));
    assert!(err.contains("duplicate prompt id"));
    assert!(err.contains("text must not be empty"));
    assert!(err.contains("sessions.enabled must be true"));
    assert_eq!(
        err,
        "configuration validation failed:\n\
         exactly one of loop.end or loop.count must be set\n\
         loop.count must be greater than 0\n\
         loop.step must be greater than 0\n\
         duplicate prompt id 'plan'\n\
         prompts[1].text must not be empty\n\
         sessions.enabled must be true when prompts[0].pause_after is true"
    );
}

#[test]
fn validate_config_should_require_sessions_for_pause_after() {
    let config = valid_config();
    let err = validate_config(&config, "/repo").err().map(|err| err.message()).unwrap_or_default();

    assert!(err.contains("sessions.enabled must be true"));
}

#[test]
fn validate_config_should_fail_unknown_template_variables() {
    let mut config = valid_config();
    config.sessions.enabled = true;
    config.prompts[0].text = "{{missing}}".to_owned();
    let result = validate_config(&config, "/repo");
    assert!(result.is_err());
}

#[test]
fn apply_overrides_should_select_one_loop_bound() {
    let mut config = valid_config();
    apply_overrides(
        &mut config,
        &LoopOverrides { start: Some(10), end: Some(12), count: None },
    );
    assert_eq!(
        (config.loop_.start, config.loop_.end, config.loop_.count),
        (10, Some(12), None)
    );
}

#[test]
fn a_count_override_wins_over_an_end_override() {
    let mut config = valid_config();
    apply_overrides(
        &mut config,
        &LoopOverrides { start: None, end: Some(12), count: Some(3) },
    );
    assert_eq!(
        (config.loop_.start, config.loop_.end, config.loop_.count),
        (1, None, Some(3))
    );
    apply_overrides(&mut config, &LoopOverrides { start: None, end: None, count: None });
    assert_eq!(
        (config.loop_.start, config.loop_.end, config.loop_.count),
        (1, None, Some(3))
    );
}

#[test]
fn settings_are_off_by_default() {
    assert!(!LogConfig::default().enabled);
    assert!(!SessionConfig::default().enabled);
}

#[test]
fn an_end_before_the_start_is_told() {
    let mut errors = vec!["earlier".to_owned()];
    validate_loop_config(
        &LoopConfig { start: 3, end: Some(2), count: None, step: 1, item_id: " \t".to_owned() },
        &mut errors,
    );
    assert_eq!(
        errors,
        vec![
            "earlier".to_owned(),
            "loop.end must be greater than or equal to loop.start".to_owned(),
            "loop.item_id must not be empty".to_owned(),
        ]
    );
}

#[test]
fn incomplete_prompts_are_told_in_order() {
    let mut errors = Vec::new();
    validate_prompts(&Vec::new(), &mut errors);
    assert_eq!(errors, vec!["prompts must not be empty".to_owned()]);

    let prompts = vec![
        PromptStep {
            id: " ".to_owned(),
            text: "text".to_owned(),
            new_session: false,
            pause_after: true,
            message: Some("\n".to_owned()),
        },
        PromptStep {
            id: "a".to_owned(),
            text: String::new(),
            new_session: true,
            pause_after: true,
            message: None,
        },
    ];
    let mut errors = Vec::new();
    validate_prompts(&prompts, &mut errors);
    assert_eq!(
        errors,
        vec![
            "prompts[0].id must not be empty".to_owned(),
            "prompts[0].message must be non-empty when pause_after is true".to_owned(),
            "prompts[1].text must not be empty".to_owned(),
            "prompts[1].message must be non-empty when pause_after is true".to_owned(),
        ]
    );
}

#[test]
fn empty_notification_arguments_are_told() {
    let mut errors = Vec::new();
    validate_notify(&None, &mut errors);
    validate_notify(&Some(NotifyConfig { command: None }), &mut errors);
    assert!(errors.is_empty());
    validate_notify(&Some(NotifyConfig { command: Some(Vec::new()) }), &mut errors);
    validate_notify(
        &Some(NotifyConfig {
            command: Some(vec!["say".to_owned(), String::new(), " ".to_owned()]),
        }),
        &mut errors,
    );
    assert_eq!(
        errors,
        vec![
            "notify.command must not be empty when set".to_owned(),
            "notify.command[1] must not be empty".to_owned(),
        ]
    );
}

#[test]
fn templates_are_tried_for_every_item() {
    let mut config = valid_config();
    config.sessions.enabled = true;
    config.prompts[0].message = Some("{{nothing}}".to_owned());
    config.notify = Some(NotifyConfig { command: Some(vec!["{{lost}}".to_owned()]) });
    let message = match validate_config(&config, "/repo") {
        Ok(()) => panic!("the templates do not render"),
        Err(error) => error.message(),
    };
    let lines: Vec<&str> = message.lines().collect();
    assert_eq!(lines[0], "configuration validation failed:");
    assert!(message.contains("prompt 'plan' message failed to render for item 'M1': render error: "));
    assert!(message.contains("notify.command failed to render for item 'M1': render error: "));
    assert!(message.contains("prompt 'plan' message failed to render for item 'M2': render error: "));
    assert!(message.contains("notify.command failed to render for item 'M2': render error: "));
}

#[test]
fn a_loop_that_does_not_expand_is_told() {
    let mut config = valid_config();
    config.sessions.enabled = true;
    config.loop_.start = i64::MAX;
    match validate_config(&config, "/repo") {
        Err(AgentFlowError::ConfigValidation(text)) => {
            assert_eq!(text, "loop error: counter overflow while expanding count loop");
        }
        other => panic!("{:?}", other),
    }
}

#[test]
fn rendering_errors_are_reported_with_their_place() {
    let mut errors = Vec::new();
    report_prompt(&mut errors, "p", "M1", Ok("text".to_owned()));
    report_prompt(&mut errors, "p", "M1", Err(AgentFlowError::Render("bad".to_owned())));
    report_message(&mut errors, "p", "M2", Err(AgentFlowError::Render("worse".to_owned())));
    report_message(&mut errors, "p", "M2", Ok(String::new()));
    report_notify(&mut errors, "M3", Ok(None));
    report_notify(&mut errors, "M3", Err(AgentFlowError::Render("worst".to_owned())));
    assert_eq!(
        errors,
        vec![
            "prompt 'p' failed to render for item 'M1': render error: bad".to_owned(),
            "prompt 'p' message failed to render for item 'M2': render error: worse".to_owned(),
            "notify.command failed to render for item 'M3': render error: worst".to_owned(),
        ]
    );
}

#[test]
fn errors_have_messages() {
    assert_eq!(AgentFlowError::Loop("a".to_owned()).message(), "loop error: a");
    assert_eq!(AgentFlowError::Io("a".to_owned()).message(), "I/O error: a");
    assert_eq!(AgentFlowError::Json("a".to_owned()).message(), "JSON error: a");
    assert_eq!(AgentFlowError::Yaml("a".to_owned()).message(), "YAML error: a");
    assert_eq!(AgentFlowError::Render("a".to_owned()).message(), "render error: a");
    assert_eq!(
        AgentFlowError::config_validation(vec!["a".to_owned(), "b".to_owned()]).message(),
        "configuration validation failed:\na\nb"
    );
}

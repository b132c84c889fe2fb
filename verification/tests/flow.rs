//! The course of a run.

use agentflow::config::{
    Config, LogConfig, LoopConfig, NotifyConfig, PromptStep, Provider, SessionConfig,
};
use agentflow::flow::{fail_run, Flow, FlowAction, FlowEvent};
use agentflow::loop_spec::build_loop_plan;
use agentflow::rpc::SessionInfo;
use agentflow::runner::{
    current_state, ensure_resumable_status, failed_state, refuse_conflicting_state, resume_request,
    running_state, session_to_open, FlowRequest, Resumption,
};
use agentflow::smoke::{SmokeAction, SmokeEvent, SmokeTest};
use agentflow::state::{ControlEvent, RunStatus, State};

fn prompt(id: &str, new_session: bool, pause_after: bool) -> PromptStep {
    PromptStep {
        id: id.to_owned(),
        text: format!("{} {{{{item_id}}}}", id),
        new_session,
        pause_after,
        message: if pause_after { Some("look at {{item_id}}".to_owned()) } else { None },
    }
}

fn request(prompts: Vec<PromptStep>, notify: Option<NotifyConfig>) -> FlowRequest {
    let config = Config {
        provider: Provider::Omp,
        loop_: LoopConfig {
            start: 1,
            end: None,
            count: Some(2),
            step: 1,
            item_id: "M{{counter}}".to_owned(),
        },
        notify,
        sessions: SessionConfig { enabled: true },
        logs: LogConfig::default(),
        prompts,
    };
    let plan = match build_loop_plan(&config, "/repo") {
        Ok(plan) => plan,
        Err(error) => panic!("{}", error.message()),
    };
    FlowRequest {
        repo_root: "/repo".to_owned(),
        config_path: "/repo/.agentflow.yml".to_owned(),
        config,
        plan,
        run_id: "run".to_owned(),
        start_item_index: 0,
        start_prompt_index: 0,
        resume_session: None,
        resume_message: None,
    }
}

fn notify(message: &str) -> ControlEvent {
    ControlEvent::Notify { message: message.to_owned(), item_id: None, counter: None }
}

fn halt(message: &str) -> ControlEvent {
    ControlEvent::Halt { message: message.to_owned(), item_id: None, counter: None }
}

/// Drives a flow to its end. Each fetch of control events gets the next list; further fetches get
/// nothing. What was done is written down.
fn drive(request: &FlowRequest, controls: Vec<Vec<ControlEvent>>, report: Option<&str>) -> Vec<String> {
    let mut flow = match Flow::new(request) {
        Ok(flow) => flow,
        Err(error) => panic!("{}", error),
    };
    let mut controls = controls.into_iter();
    let mut log = Vec::new();
    let mut sessions = 0;
    let mut event = FlowEvent::Done;
    for _ in 0..1000 {
        let action = match flow.step(request, event) {
            Ok(action) => action,
            Err(error) => {
                log.push(format!("error {}", error));
                return log;
            }
        };
        event = match action {
            FlowAction::Output { item_id, record } => {
                log.push(format!("output {} {} to {}", item_id, record["from"], record["to"]));
                FlowEvent::Done
            }
            FlowAction::OpenSession { item_id, prompt_id, fresh, reason } => {
                sessions += 1;
                log.push(format!("session {} {} {} {}", item_id, prompt_id, fresh, reason));
                FlowEvent::Session(SessionInfo {
                    session_id: format!("s{}", sessions),
                    session_file: format!("/s{}", sessions),
                })
            }
            FlowAction::Save(state) => {
                log.push(format!(
                    "save {:?} {} {} {:?}",
                    state.status,
                    state.current.item_id,
                    state.current.prompt_id,
                    state.current.session_file
                ));
                FlowEvent::Done
            }
            FlowAction::Drain => FlowEvent::Controls(controls.next().unwrap_or_default()),
            FlowAction::Record { item_id, record } => {
                log.push(format!("record {} {}", item_id, record["text"]));
                FlowEvent::Done
            }
            FlowAction::Prompt { item_id, prompt_index, label, text } => {
                log.push(format!("prompt {} {} {} {}", item_id, prompt_index, label, text));
                FlowEvent::Done
            }
            FlowAction::Notify { argv } => {
                log.push(format!("notify {}", argv.join(" ")));
                FlowEvent::Notified(report.map(|text| text.to_owned()))
            }
            FlowAction::Stop { item_id, outputs, state } => {
                for output in &outputs {
                    log.push(format!("output {} {}", item_id, output["kind"]));
                }
                log.push(format!(
                    "stop {:?} {} {} {} {:?} {:?}",
                    state.status,
                    state.current.item_id,
                    state.current.prompt_index,
                    state.current.prompt_id,
                    state.pending_control,
                    state.last_error
                ));
                return log;
            }
            FlowAction::Complete { item_id, outputs, state } => {
                for record in &outputs {
                    log.push(format!("output {} {} to {}", item_id, record["from"], record["to"]));
                }
                log.push(format!("complete {:?} {}", state.status, state.current.prompt_id));
                match flow.step(request, FlowEvent::Done) {
                    Ok(FlowAction::Rest) => {}
                    other => panic!("{:?}", other),
                }
                return log;
            }
            FlowAction::Rest => return log,
        };
    }
    log
}

#[test]
fn every_prompt_of_every_item_is_sent_in_order() {
    let request = request(vec![prompt("plan", false, false), prompt("build", true, false)], None);
    assert_eq!(
        drive(&request, Vec::new(), None),
        vec![
            "session M1 plan false initial",
            "save Running M1 plan Some(\"/s1\")",
            "record M1 \"plan M1\"",
            "prompt M1 0 plan plan M1",
            "session M1 build true new_session",
            "save Running M1 build Some(\"/s2\")",
            "record M1 \"build M1\"",
            "prompt M1 1 build build M1",
            "session M2 plan true new_session",
            "save Running M2 plan Some(\"/s3\")",
            "record M2 \"plan M2\"",
            "prompt M2 0 plan plan M2",
            "session M2 build true new_session",
            "save Running M2 build Some(\"/s4\")",
            "record M2 \"build M2\"",
            "prompt M2 1 build build M2",
            "output M2 \"running\" to \"completed\"",
            "complete Completed build",
        ]
    );
}

#[test]
fn prompts_of_one_item_share_a_session() {
    let mut request = request(vec![prompt("a", false, false), prompt("b", false, false)], None);
    request.plan.items.truncate(1);
    assert_eq!(
        drive(&request, Vec::new(), None),
        vec![
            "session M1 a false initial",
            "save Running M1 a Some(\"/s1\")",
            "record M1 \"a M1\"",
            "prompt M1 0 a a M1",
            "save Running M1 b Some(\"/s1\")",
            "record M1 \"b M1\"",
            "prompt M1 1 b b M1",
            "output M1 \"running\" to \"completed\"",
            "complete Completed b",
        ]
    );
}

#[test]
fn a_pause_stops_before_the_next_prompt() {
    let request = request(vec![prompt("plan", false, true), prompt("build", false, false)], None);
    assert_eq!(
        drive(&request, Vec::new(), None),
        vec![
            "session M1 plan false initial".to_owned(),
            "save Running M1 plan Some(\"/s1\")".to_owned(),
            "record M1 \"plan M1\"".to_owned(),
            "prompt M1 0 plan plan M1".to_owned(),
            "output M1 \"state_transition\"".to_owned(),
            format!(
                "stop Paused M1 1 build {:?} None",
                Some(ControlEvent::Notify {
                    message: "look at M1".to_owned(),
                    item_id: Some("M1".to_owned()),
                    counter: Some(1),
                })
            ),
        ]
    );
}

#[test]
fn a_halt_during_a_prompt_stays_at_that_prompt() {
    let command = vec!["say".to_owned(), "{{message}}".to_owned()];
    let request = request(
        vec![prompt("plan", false, true), prompt("build", false, false)],
        Some(NotifyConfig { command: Some(command) }),
    );
    let controls = vec![Vec::new(), Vec::new(), Vec::new(), vec![halt("enough"), notify("late")]];
    let log = drive(&request, controls, Some("no speaker"));
    assert_eq!(
        log[4..],
        [
            "notify say enough".to_owned(),
            "output M1 \"control_event\"".to_owned(),
            "output M1 \"control_event\"".to_owned(),
            "output M1 \"error\"".to_owned(),
            "output M1 \"state_transition\"".to_owned(),
            format!(
                "stop Halted M1 0 plan {:?} Some(\"no speaker\")",
                Some(ControlEvent::Halt {
                    message: "enough".to_owned(),
                    item_id: Some("M1".to_owned()),
                    counter: Some(1),
                })
            ),
        ]
    );
}

#[test]
fn control_events_are_recorded_as_they_came() {
    let request = request(vec![prompt("plan", false, false)], None);
    let mut flow = match Flow::new(&request) {
        Ok(flow) => flow,
        Err(error) => panic!("{}", error),
    };
    assert!(matches!(flow.step(&request, FlowEvent::Done), Ok(FlowAction::Drain)));
    let events = vec![
        ControlEvent::Notify {
            message: "wait".to_owned(),
            item_id: Some("M9".to_owned()),
            counter: Some(-9),
        },
        halt("stop"),
    ];
    match flow.step(&request, FlowEvent::Controls(events)) {
        Ok(FlowAction::Stop { outputs, .. }) => {
            let lines: Vec<String> = outputs.iter().map(|output| output.to_string()).collect();
            assert_eq!(
                lines,
                vec![
                    "{\"event\":{\"counter\":-9,\"item_id\":\"M9\",\"message\":\"wait\",\
                     \"type\":\"notify\"},\"kind\":\"control_event\"}",
                    "{\"event\":{\"counter\":null,\"item_id\":null,\"message\":\"stop\",\
                     \"type\":\"halt\"},\"kind\":\"control_event\"}",
                    "{\"from\":\"running\",\"kind\":\"state_transition\",\"reason\":\"halt\",\
                     \"to\":\"halted\"}",
                ]
            );
        }
        other => panic!("{:?}", other),
    }
}

#[test]
fn control_events_count_before_anything_is_sent() {
    let request = request(vec![prompt("plan", false, false)], None);
    for waits in 0..3 {
        let mut controls: Vec<Vec<ControlEvent>> = vec![Vec::new(); waits];
        controls.push(vec![notify("wait")]);
        let log = drive(&request, controls, None);
        assert!(log.iter().all(|line| !line.starts_with("prompt ")), "{:?}", log);
        let last = &log[log.len() - 1];
        assert!(last.starts_with("stop Paused M1 0 plan "), "{}", last);
    }
}

#[test]
fn a_pause_after_the_last_prompt_of_an_item_leads_to_the_next_item() {
    let request = request(vec![prompt("plan", false, true)], None);
    let log = drive(&request, Vec::new(), None);
    assert!(log[log.len() - 1].starts_with("stop Paused M2 0 plan "));
    let mut last = request;
    last.start_item_index = 1;
    let log = drive(&last, Vec::new(), None);
    assert!(log[log.len() - 1].starts_with("stop Paused M2 1 <complete> "));
}

#[test]
fn a_run_resumes_with_the_message_of_the_user() {
    let mut request = request(vec![prompt("a", false, false), prompt("b", false, false)], None);
    request.plan.items.truncate(1);
    request.start_prompt_index = 1;
    request.resume_session =
        Some(Resumption { session_file: "/old".to_owned(), status: RunStatus::Paused });
    request.resume_message = Some("thanks".to_owned());
    assert_eq!(
        drive(&request, Vec::new(), None),
        vec![
            "output M1 \"paused\" to \"running\"",
            "session M1 b false resume",
            "save Running M1 b Some(\"/s1\")",
            "prompt M1 1 resume-message thanks",
            "save Running M1 b Some(\"/s1\")",
            "record M1 \"b M1\"",
            "prompt M1 1 b b M1",
            "output M1 \"running\" to \"completed\"",
            "complete Completed b",
        ]
    );
    let log = drive(&request, vec![vec![notify("again")]], None);
    assert!(log[log.len() - 1].starts_with("stop Paused M1 1 b "));
}

#[test]
fn a_run_that_resumes_at_an_item_opens_a_session_for_it() {
    let mut request = request(vec![prompt("a", false, false)], None);
    request.start_item_index = 1;
    request.resume_session =
        Some(Resumption { session_file: "/old".to_owned(), status: RunStatus::Paused });
    assert_eq!(
        drive(&request, Vec::new(), None),
        vec![
            "output M2 \"paused\" to \"running\"",
            "session M2 a false resume",
            "session M2 a true new_session",
            "save Running M2 a Some(\"/s2\")",
            "record M2 \"a M2\"",
            "prompt M2 0 a a M2",
            "output M2 \"running\" to \"completed\"",
            "complete Completed a",
        ]
    );
    request.start_prompt_index = 1;
    assert_eq!(
        drive(&request, Vec::new(), None),
        vec![
            "output M2 \"paused\" to \"running\"",
            "session M2 <complete> false resume",
            "output M2 \"running\" to \"completed\"",
            "complete Completed a",
        ]
    );
}

#[test]
fn a_run_must_start_at_one_of_its_items() {
    let mut request = request(vec![prompt("a", false, false)], None);
    request.start_item_index = 2;
    match Flow::new(&request) {
        Err(error) => assert_eq!(error, "resume item index is out of range"),
        Ok(flow) => panic!("{:?}", flow),
    }
}

#[test]
fn rendering_errors_end_a_run() {
    let mut broken = request(vec![prompt("a", false, false)], None);
    broken.config.prompts[0].text = "{{lost}}".to_owned();
    let log = drive(&broken, Vec::new(), None);
    assert!(log[log.len() - 1].starts_with("error render error: "), "{:?}", log);

    let mut silent = request(vec![prompt("a", false, true)], None);
    silent.config.prompts[0].message = None;
    let log = drive(&silent, Vec::new(), None);
    assert_eq!(log[log.len() - 1], "error pause_after prompt 'a' has no message");

    let mute = request(
        vec![prompt("a", false, true)],
        Some(NotifyConfig { command: Some(vec!["{{lost}}".to_owned()]) }),
    );
    for controls in [Vec::new(), vec![vec![halt("enough")]]] {
        let halts = !controls.is_empty();
        let log = drive(&mute, controls, None);
        assert_eq!(log[log.len() - 3..log.len() - 1], [
            "output M1 \"error\"".to_owned(),
            "output M1 \"state_transition\"".to_owned(),
        ]);
        let last = &log[log.len() - 1];
        let start = if halts { "stop Halted M1 " } else { "stop Paused M2 " };
        assert!(last.starts_with(start), "{}", last);
        assert!(
            last.ends_with(
                " Some(\"failed to render notify.command argv element \\\"{{lost}}\\\"\")"
            ),
            "{}",
            last
        );
    }
}

#[test]
fn an_event_must_answer_the_last_action() {
    let request = request(vec![prompt("a", false, false)], None);
    let mut flow = match Flow::new(&request) {
        Ok(flow) => flow,
        Err(error) => panic!("{}", error),
    };
    match flow.step(&request, FlowEvent::Notified(None)) {
        Err(error) => assert_eq!(error, "the event does not answer the last action"),
        Ok(action) => panic!("{:?}", action),
    }
    assert!(matches!(flow.step(&request, FlowEvent::Done), Ok(FlowAction::Drain)));
}

/// Drives a flow without control events until it stops, and gives the state that it leaves.
fn final_state(request: &FlowRequest) -> State {
    let mut flow = match Flow::new(request) {
        Ok(flow) => flow,
        Err(error) => panic!("{}", error),
    };
    let mut event = FlowEvent::Done;
    for _ in 0..1000 {
        event = match flow.step(request, event) {
            Ok(FlowAction::OpenSession { .. }) => FlowEvent::Session(SessionInfo {
                session_id: "s".to_owned(),
                session_file: "/s".to_owned(),
            }),
            Ok(FlowAction::Drain) => FlowEvent::Controls(Vec::new()),
            Ok(FlowAction::Notify { .. }) => FlowEvent::Notified(None),
            Ok(FlowAction::Stop { state, .. }) => return state,
            Ok(FlowAction::Complete { state, .. }) => return state,
            Ok(_) => FlowEvent::Done,
            Err(error) => panic!("{}", error),
        };
    }
    panic!("the flow does not end")
}

fn resumed(request: &FlowRequest, state: State) -> FlowRequest {
    let session_file = match session_to_open(&state) {
        Ok(file) => file,
        Err(_) => "/s".to_owned(),
    };
    let again = match build_loop_plan(&request.config, "/repo") {
        Ok(plan) => plan,
        Err(error) => panic!("{}", error.message()),
    };
    match resume_request(
        request.repo_root.clone(),
        request.config_path.clone(),
        Config {
            provider: request.config.provider,
            loop_: request.config.loop_.clone(),
            notify: request.config.notify.clone(),
            sessions: request.config.sessions,
            logs: request.config.logs,
            prompts: request.config.prompts.clone(),
        },
        again,
        state,
        session_file,
        None,
    ) {
        Ok(request) => request,
        Err(error) => panic!("{}", error),
    }
}

#[test]
fn a_pause_is_resumed_at_the_next_prompt() {
    let first = request(vec![prompt("plan", false, true), prompt("build", false, false)], None);
    let state = final_state(&first);
    assert_eq!(session_to_open(&state), Ok("/s".to_owned()));
    assert!(refuse_conflicting_state(&Some(final_state(&first))).is_err());
    assert_eq!(ensure_resumable_status(state.status), Ok(()));
    let second = resumed(&first, state);
    assert_eq!((second.start_item_index, second.start_prompt_index), (0, 1));
    let state = final_state(&second);
    assert_eq!((state.status, state.current.item_id.as_str()), (RunStatus::Paused, "M2"));
    let third = resumed(&second, state);
    assert_eq!((third.start_item_index, third.start_prompt_index), (1, 1));
    assert_eq!(final_state(&third).status, RunStatus::Completed);
}

#[test]
fn a_failure_is_resumed_at_its_prompt() {
    let request = request(vec![prompt("plan", false, false), prompt("build", false, false)], None);
    let item = request.plan.items[1].clone();
    let saved = running_state(&request, current_state(&item, 1, &request.config, None), None);
    let failed = failed_state(&request, Some(saved), &request.plan.items[0], "timeout");
    assert_eq!(refuse_conflicting_state(&Some(failed)), Ok(()));
    let saved = running_state(&request, current_state(&item, 1, &request.config, None), None);
    let failed = failed_state(&request, Some(saved), &request.plan.items[0], "timeout");
    let again = resumed(&request, failed);
    assert_eq!((again.start_item_index, again.start_prompt_index), (1, 1));
    assert_eq!(again.run_id, "run");
    assert_eq!(again.resume_session.map(|resumption| resumption.status), Some(RunStatus::Failed));
}

#[test]
fn a_failure_is_recorded_for_the_item_of_its_state() {
    let request = request(vec![prompt("plan", false, false)], None);
    let item = request.plan.items[1].clone();
    let saved = running_state(&request, current_state(&item, 0, &request.config, None), None);
    for (previous, named) in [(Some(saved), "M2"), (None, "M1")] {
        match fail_run(&request, previous, &request.plan.items[0], "timeout") {
            FlowAction::Stop { item_id, outputs, state } => {
                assert_eq!(item_id, named);
                assert_eq!(state.status, RunStatus::Failed);
                assert_eq!(state.last_error, Some("timeout".to_owned()));
                let lines: Vec<String> = outputs.iter().map(|line| line.to_string()).collect();
                assert_eq!(
                    lines,
                    vec![
                        "{\"from\":\"running\",\"kind\":\"state_transition\",\
                         \"reason\":\"error\",\"to\":\"failed\"}"
                    ]
                );
            }
            other => panic!("{:?}", other),
        }
    }
}

fn session(id: &str) -> SmokeEvent {
    SmokeEvent::Session(SessionInfo {
        session_id: id.to_owned(),
        session_file: format!("/{}", id),
    })
}

fn smoke(events: Vec<SmokeEvent>) -> Result<Vec<SmokeAction>, String> {
    let mut test = SmokeTest::Fresh;
    let mut actions = Vec::new();
    for event in events {
        let (next, action) = test.step(event)?;
        test = next;
        actions.push(action);
    }
    Ok(actions)
}

#[test]
fn the_smoke_test_passes_where_sessions_are_kept_apart() {
    let question = "What token did I ask you to remember?";
    assert_eq!(
        smoke(vec![
            SmokeEvent::Done,
            session("a"),
            SmokeEvent::Done,
            SmokeEvent::Done,
            SmokeEvent::Text("It is AGENTFLOW_SMOKE_TEST.".to_owned()),
            session("b"),
            SmokeEvent::Done,
            SmokeEvent::Text("None.".to_owned()),
        ]),
        Ok(vec![
            SmokeAction::Inspect,
            SmokeAction::Prompt("Remember AGENTFLOW_SMOKE_TEST.".to_owned()),
            SmokeAction::Prompt(question.to_owned()),
            SmokeAction::Read,
            SmokeAction::Renew,
            SmokeAction::Prompt(question.to_owned()),
            SmokeAction::Read,
            SmokeAction::Finish,
        ])
    );
}

#[test]
fn the_smoke_test_fails_where_they_are_not() {
    let begin = || vec![SmokeEvent::Done, session("a"), SmokeEvent::Done, SmokeEvent::Done];
    let mut events = begin();
    events.push(SmokeEvent::Text("no".to_owned()));
    assert_eq!(
        smoke(events),
        Err(
            "same-session smoke test failed; response did not contain AGENTFLOW_SMOKE_TEST: no"
                .to_owned()
        )
    );
    let mut events = begin();
    events.push(SmokeEvent::Text("AGENTFLOW_SMOKE_TEST".to_owned()));
    events.push(session("a"));
    assert_eq!(smoke(events), Err("new_session did not change sessionId".to_owned()));
    let mut events = begin();
    events.push(SmokeEvent::Text("AGENTFLOW_SMOKE_TEST".to_owned()));
    events.push(session("b"));
    events.push(SmokeEvent::Done);
    events.push(SmokeEvent::Text("xAGENTFLOW_SMOKE_TESTx".to_owned()));
    assert_eq!(
        smoke(events),
        Err(
            "new-session smoke test failed; response still contained prior token: \
             xAGENTFLOW_SMOKE_TESTx"
                .to_owned()
        )
    );
}

//! Starting, resuming and showing runs.

use agentflow::clock::{new_run_id, timestamp};
use agentflow::config::{
    Config, LogConfig, LoopConfig, LoopOverrides, PromptStep, Provider, SessionConfig,
};
use agentflow::files::latest_recorded_session_file;
use agentflow::loop_spec::{LoopItem, LoopPlan};
use agentflow::rpc::SessionInfo;
use agentflow::runner::{
    completed_state, completion_line, current_prompt_id, current_state, display_step,
    ensure_resumable_status, failed_state, find_resume_position,
    next_position_or_current, open_arguments, plan_run, prepare_config, progress_bar,
    progress_line, refuse_conflicting_state, resume_request, resume_session_file, run_request,
    running_state, sanitize_run_id, session_to_open, socket_name, status_lines,
    FlowRequest, Resumption,
};
use agentflow::state::{ControlEvent, CurrentState, RunStatus, State};

fn test_config() -> Config {
    Config {
        provider: Provider::Omp,
        loop_: LoopConfig {
            start: 1,
            end: None,
            count: Some(2),
            step: 1,
            item_id: "M{{counter}}".to_owned(),
        },
        notify: None,
        sessions: SessionConfig::default(),
        logs: LogConfig::default(),
        prompts: vec![
            PromptStep {
                id: "plan".to_owned(),
                text: "plan".to_owned(),
                new_session: false,
                pause_after: false,
                message: None,
            },
            PromptStep {
                id: "implement".to_owned(),
                text: "implement".to_owned(),
                new_session: true,
                pause_after: false,
                message: None,
            },
        ],
    }
}

fn test_plan() -> LoopPlan {
    LoopPlan {
        items: vec![
            LoopItem { counter: 1, item_id: "M1".to_owned(), iteration: 1, iteration_index: 0 },
            LoopItem { counter: 2, item_id: "M2".to_owned(), iteration: 2, iteration_index: 1 },
        ],
    }
}

fn position(item: &str, counter: i64, prompt_index: usize, session_file: Option<&str>) -> CurrentState {
    CurrentState {
        counter,
        item_id: item.to_owned(),
        iteration: counter as u64,
        prompt_index,
        prompt_id: "plan".to_owned(),
        session_id: None,
        session_file: session_file.map(|file| file.to_owned()),
    }
}

fn saved(status: RunStatus, current: CurrentState) -> State {
    State {
        schema_version: 1,
        run_id: "run-1".to_owned(),
        status,
        repo_root: "/repo".to_owned(),
        config_path: "/repo/.agentflow.yml".to_owned(),
        current,
        pending_control: None,
        last_error: None,
    }
}

fn request() -> FlowRequest {
    run_request(
        "/repo".to_owned(),
        "/repo/.agentflow.yml".to_owned(),
        test_config(),
        test_plan(),
        "run-1".to_owned(),
    )
}

#[test]
fn next_position_should_preserve_terminal_review_pause_without_replay_clamp() {
    let config = test_config();
    let plan = test_plan();
    let (item, prompt_index) =
        next_position_or_current(&plan, &config, &plan.items[1], config.prompts.len());

    assert_eq!(item.item_id, "M2");
    assert_eq!(prompt_index, config.prompts.len());
    assert_eq!(
        current_state(item, prompt_index, &config, None).prompt_id,
        "<complete>"
    );
}

#[test]
fn next_position_should_advance_to_next_item_after_item_prompt_end() {
    let config = test_config();
    let plan = test_plan();
    let (item, prompt_index) =
        next_position_or_current(&plan, &config, &plan.items[0], config.prompts.len());

    assert_eq!(item.item_id, "M2");
    assert_eq!(prompt_index, 0);
}

#[test]
fn a_position_within_the_prompts_is_kept() {
    let config = test_config();
    let plan = test_plan();
    let (item, prompt_index) = next_position_or_current(&plan, &config, &plan.items[0], 1);
    assert_eq!((item.item_id.as_str(), prompt_index), ("M1", 1));
    let stranger =
        LoopItem { counter: 9, item_id: "M9".to_owned(), iteration: 9, iteration_index: 8 };
    let (item, prompt_index) = next_position_or_current(&plan, &config, &stranger, 2);
    assert_eq!((item.item_id.as_str(), prompt_index), ("M9", 2));
}

#[test]
fn ensure_resumable_status_should_accept_paused_and_failed() -> Result<(), String> {
    ensure_resumable_status(RunStatus::Paused)?;
    ensure_resumable_status(RunStatus::Failed)?;

    Ok(())
}

#[test]
fn ensure_resumable_status_should_reject_terminal_and_running_states() {
    assert!(ensure_resumable_status(RunStatus::Running).is_err());
    assert!(ensure_resumable_status(RunStatus::Halted).is_err());
    assert!(ensure_resumable_status(RunStatus::Completed).is_err());
    assert_eq!(
        ensure_resumable_status(RunStatus::Halted),
        Err(
            "cannot resume run with status Halted; only paused or failed runs can resume"
                .to_owned()
        )
    );
}

#[test]
fn resume_session_file_should_fall_back_to_latest_session_record() {
    let contents = b"[{\"session_file\":\"/tmp/old-session.jsonl\"},\
                      {\"session_file\":\"/tmp/latest-session.jsonl\"}]";
    let recorded = match latest_recorded_session_file(contents) {
        Ok(recorded) => recorded,
        Err(error) => panic!("{}", error),
    };
    let current = position("M1", 1, 0, None);

    assert_eq!(
        resume_session_file(&current, recorded),
        Ok("/tmp/latest-session.jsonl".to_owned())
    );
    assert_eq!(
        resume_session_file(&position("M1", 1, 0, Some("/tmp/own")), Some("/tmp/other".to_owned())),
        Ok("/tmp/own".to_owned())
    );
    assert_eq!(
        resume_session_file(&current, None),
        Err(
            "resumable state is missing current.session_file and no recorded session exists for M1"
                .to_owned()
        )
    );
}

#[test]
fn find_resume_position_should_accept_complete_prompt_index() {
    let plan = test_plan();
    let current = CurrentState {
        counter: 2,
        item_id: "M2".to_owned(),
        iteration: 2,
        prompt_index: 2,
        prompt_id: "<complete>".to_owned(),
        session_id: None,
        session_file: Some("/tmp/session.jsonl".to_owned()),
    };

    let position = find_resume_position(&plan, &current).expect("position should resolve");
    assert_eq!(position, (1, 2));
}

#[test]
fn a_position_of_another_loop_is_refused() {
    let mut current = position("M2", 2, 0, None);
    current.iteration = 1;
    assert_eq!(
        find_resume_position(&test_plan(), &current),
        Err("saved state item 'M2' is not present in current loop".to_owned())
    );
}

#[test]
fn persist_failure_should_preserve_saved_resume_position() {
    let plan = test_plan();
    let session_file = "/tmp/recover-session.jsonl";
    let state = saved(
        RunStatus::Running,
        CurrentState {
            counter: 2,
            item_id: "M2".to_owned(),
            iteration: 2,
            prompt_index: 1,
            prompt_id: "implement".to_owned(),
            session_id: Some("session-2".to_owned()),
            session_file: Some(session_file.to_owned()),
        },
    );

    let failed = failed_state(&request(), Some(state), &plan.items[0], "rpc timeout");

    assert_eq!(failed.status, RunStatus::Failed);
    assert_eq!(failed.current.item_id, "M2");
    assert_eq!(failed.current.prompt_index, 1);
    assert_eq!(failed.current.session_file, Some(session_file.to_owned()));
    assert_eq!(failed.last_error.as_deref(), Some("rpc timeout"));
}

#[test]
fn a_failure_before_any_state_stands_at_the_start() {
    let plan = test_plan();
    let mut other = saved(RunStatus::Paused, position("M2", 2, 1, Some("/tmp/s")));
    other.run_id = "run-0".to_owned();
    other.pending_control =
        Some(ControlEvent::Halt { message: "h".to_owned(), item_id: None, counter: None });
    for previous in [None, Some(other)] {
        let failed = failed_state(&request(), previous, &plan.items[0], "no agent");
        assert_eq!(failed.run_id, "run-1");
        assert_eq!(failed.current.item_id, "M1");
        assert_eq!(failed.current.prompt_index, 0);
        assert_eq!(failed.current.prompt_id, "plan");
        assert_eq!(failed.current.session_file, None);
        assert_eq!(failed.pending_control, None);
        assert_eq!(failed.last_error.as_deref(), Some("no agent"));
    }
}

#[test]
fn progress_bar_should_fill_by_current_step() {
    assert_eq!(progress_bar(0, 5, 10), "[██░░░░░░░░]");
    assert_eq!(progress_bar(2, 5, 10), "[██████░░░░]");
    assert_eq!(progress_bar(4, 5, 10), "[██████████]");
}

#[test]
fn bars_are_rounded_up() {
    assert_eq!(progress_bar(0, 3, 10), "[████░░░░░░]");
    assert_eq!(progress_bar(9, 3, 4), "[████]");
    assert_eq!(progress_bar(0, 0, 2), "[██]");
    assert_eq!(progress_bar(0, 7, 0), "[]");
    assert_eq!(display_step(0, 0), 1);
    assert_eq!(display_step(usize::MAX, 3), 3);
    assert_eq!(display_step(1, 3), 2);
}

#[test]
fn lines_show_the_step() {
    assert_eq!(
        progress_line("M1", 0, 2, "plan", 12),
        "\r\u{1b}[2K⠹ M1 [████████████░░░░░░░░░░░░] step 1/2: plan"
    );
    assert_eq!(
        progress_line("M1", 1, 2, "plan", 9),
        "\r\u{1b}[2K⠏ M1 [████████████████████████] step 2/2: plan"
    );
    assert_eq!(completion_line("M1", 0, 2, "plan", true), "✓ M1 step 1/2 complete: plan");
    assert_eq!(completion_line("M1", 4, 0, "plan", false), "✗ M1 step 1/1 failed: plan");
}

#[test]
fn a_state_is_shown_line_by_line() {
    let mut state = saved(RunStatus::Paused, position("M2", 2, 1, Some("/tmp/s")));
    state.last_error = Some("late".to_owned());
    assert_eq!(
        status_lines(&state, Some("{\"type\":\"notify\"}")),
        vec![
            "status: Paused",
            "run_id: run-1",
            "item_id: M2",
            "counter: 2",
            "iteration: 2",
            "prompt_index: 1",
            "prompt_id: plan",
            "session_file: /tmp/s",
            "pending_control: {\"type\":\"notify\"}",
            "last_error: late",
        ]
    );
    let state = saved(RunStatus::Completed, position("M2", 2, 1, None));
    assert_eq!(status_lines(&state, None).len(), 7);
}

#[test]
fn only_paused_runs_with_a_session_are_opened() {
    let state = saved(RunStatus::Paused, position("M2", 2, 1, Some("/tmp/s")));
    assert_eq!(session_to_open(&state), Ok("/tmp/s".to_owned()));
    let state = saved(RunStatus::Paused, position("M2", 2, 1, None));
    assert_eq!(
        session_to_open(&state),
        Err("paused state is missing current.session_file".to_owned())
    );
    let state = saved(RunStatus::Failed, position("M2", 2, 1, Some("/tmp/s")));
    assert_eq!(
        session_to_open(&state),
        Err("cannot open run with status Failed; only paused runs can be opened".to_owned())
    );
    assert_eq!(open_arguments("/tmp/s"), vec!["--resume".to_owned(), "/tmp/s".to_owned()]);
}

#[test]
fn a_run_stands_in_the_way_of_another() {
    assert_eq!(refuse_conflicting_state(&None), Ok(()));
    for status in [RunStatus::Halted, RunStatus::Failed, RunStatus::Completed] {
        let state = saved(status, position("M1", 1, 0, None));
        assert_eq!(refuse_conflicting_state(&Some(state)), Ok(()));
    }
    let state = saved(RunStatus::Running, position("M1", 1, 0, None));
    assert_eq!(
        refuse_conflicting_state(&Some(state)),
        Err(
            "refusing to start: existing AgentFlow run 'run-1' is Running; use status/open/resume"
                .to_owned()
        )
    );
    let state = saved(RunStatus::Paused, position("M1", 1, 0, None));
    assert!(refuse_conflicting_state(&Some(state)).is_err());
}

#[test]
fn states_name_their_run() {
    let request = request();
    let plan = test_plan();
    let session = SessionInfo { session_id: "s".to_owned(), session_file: "/tmp/s".to_owned() };
    let current = current_state(&plan.items[1], 1, &request.config, Some(&session));
    let state = running_state(&request, current, None);
    assert_eq!(
        state,
        State {
            schema_version: 1,
            run_id: "run-1".to_owned(),
            status: RunStatus::Running,
            repo_root: "/repo".to_owned(),
            config_path: "/repo/.agentflow.yml".to_owned(),
            current: CurrentState {
                counter: 2,
                item_id: "M2".to_owned(),
                iteration: 2,
                prompt_index: 1,
                prompt_id: "implement".to_owned(),
                session_id: Some("s".to_owned()),
                session_file: Some("/tmp/s".to_owned()),
            },
            pending_control: None,
            last_error: None,
        }
    );
    let state = completed_state(&request, &plan.items[0]);
    assert_eq!(state.status, RunStatus::Completed);
    assert_eq!(state.current.item_id, "M1");
    assert_eq!(state.current.prompt_id, "implement");
    assert_eq!(state.current.session_file, None);
    assert_eq!(current_prompt_id(&request.config, 0), "plan");
    assert_eq!(current_prompt_id(&request.config, 2), "<complete>");
}

#[test]
fn runs_are_named_after_the_time_and_the_first_item() {
    assert_eq!(
        new_run_id(Some(1779378583), "M14"),
        Ok("2026-05-21T15-49-43Z-M14".to_owned())
    );
    assert_eq!(new_run_id(None, "M1"), Err("system clock is before UNIX_EPOCH".to_owned()));
    assert_eq!(sanitize_run_id("17-M/1 \u{e4}Z"), "17-M-1--Z");
    assert_eq!(socket_name("17-M:1"), "agentflow-17-M-1.sock");
}

#[test]
fn times_are_written_as_dates() {
    let times = [
        (0, "1970-01-01T00:00:00Z"),
        (1779378583, "2026-05-21T15:49:43Z"),
        (68169600, "1972-02-29T00:00:00Z"),
        (951782399, "2000-02-28T23:59:59Z"),
        (951782400, "2000-02-29T00:00:00Z"),
        (951868800, "2000-03-01T00:00:00Z"),
        (1709251199, "2024-02-29T23:59:59Z"),
        (1735689599, "2024-12-31T23:59:59Z"),
        (4107542400, "2100-03-01T00:00:00Z"),
        (12622780799, "2369-12-31T23:59:59Z"),
        (12622780800, "2370-01-01T00:00:00Z"),
        (253402300800, "10000-01-01T00:00:00Z"),
    ];
    for (seconds, text) in times {
        assert_eq!(timestamp(Some(seconds)), Ok(text.to_owned()));
    }
    assert_eq!(timestamp(None), Err("system clock is before UNIX_EPOCH".to_owned()));
    assert!(timestamp(Some(u64::MAX)).is_ok());
}

#[test]
fn a_new_run_starts_with_the_first_prompt() {
    let plan = match plan_run(&test_config(), "/repo") {
        Ok(plan) => plan,
        Err(error) => panic!("{}", error),
    };
    assert_eq!(plan, test_plan());
    let request = request();
    assert_eq!((request.start_item_index, request.start_prompt_index), (0, 0));
    assert_eq!((request.resume_session, request.resume_message), (None, None));
    let mut config = test_config();
    config.loop_.step = 0;
    assert_eq!(
        plan_run(&config, "/repo"),
        Err("loop error: loop.step must be greater than 0".to_owned())
    );
}

#[test]
fn a_paused_run_goes_on_where_it_stopped() {
    let state = saved(RunStatus::Paused, position("M2", 2, 1, Some("/tmp/s")));
    let request = match resume_request(
        "/repo".to_owned(),
        "/repo/.agentflow.yml".to_owned(),
        test_config(),
        test_plan(),
        state,
        "/tmp/s".to_owned(),
        Some("go on".to_owned()),
    ) {
        Ok(request) => request,
        Err(error) => panic!("{}", error),
    };
    assert_eq!((request.start_item_index, request.start_prompt_index), (1, 1));
    assert_eq!(request.run_id, "run-1");
    assert_eq!(
        request.resume_session,
        Some(Resumption { session_file: "/tmp/s".to_owned(), status: RunStatus::Paused })
    );
    assert_eq!(request.resume_message, Some("go on".to_owned()));
    let state = saved(RunStatus::Paused, position("M7", 7, 1, Some("/tmp/s")));
    assert!(resume_request(
        "/repo".to_owned(),
        "/repo/.agentflow.yml".to_owned(),
        test_config(),
        test_plan(),
        state,
        "/tmp/s".to_owned(),
        None,
    )
    .is_err());
}

#[test]
fn a_configuration_is_checked_with_its_overrides() {
    let overrides = LoopOverrides { start: Some(5), end: Some(6), count: None };
    match prepare_config(test_config(), &overrides, "/repo") {
        Ok(config) => {
            assert_eq!(
                (config.loop_.start, config.loop_.end, config.loop_.count),
                (5, Some(6), None)
            );
        }
        Err(error) => panic!("{}", error.message()),
    }
    let overrides = LoopOverrides { start: None, end: None, count: Some(0) };
    match prepare_config(test_config(), &overrides, "/repo") {
        Ok(_) => panic!("there are no items"),
        Err(error) => assert_eq!(
            error.message(),
            "configuration validation failed:\nloop.count must be greater than 0"
        ),
    }
}

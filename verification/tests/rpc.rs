//! The protocol of the agent.

use agentflow::exchange::{
    await_ready, retry_deadline, Exchange, RequestIds, RpcAction, RpcEvent, NANOS,
};
use agentflow::rpc::{
    append_capped_stderr_line, assistant_text_from_response, check_new_session, check_ready,
    check_switched_session, closed_in_retry_message, duration_from_env, frame_id, frame_type,
    is_retryable_busy_error, optional_session_info_from_response, parse_stdout_line,
    parse_timeout_seconds, required_non_empty_string, response_status, retry_delay, rpc_launch,
    session_info_from_response, should_disable_omp_session, EnvValue, RpcResponse, RpcTimeouts,
    SessionInfo, TimeoutKind, STDERR_BUFFER_LIMIT,
};
use agentflow::session::{
    frames_with_response, last_assistant_text_command, new_session_command, SessionStep,
    SessionTask,
};
use serde_json::Value;

fn json(text: &str) -> Value {
    match serde_json::from_str(text) {
        Ok(value) => value,
        Err(error) => panic!("{}", error),
    }
}

const BUSY: &str = "{\"id\":\"prompt-1\",\"success\":false,\"error\":\"Agent is already processing.\"}";

const TIMEOUTS: RpcTimeouts = RpcTimeouts { ready: 30, command: 300, prompt_idle: 1800 };

fn session(id: &str, file: &str) -> SessionInfo {
    SessionInfo { session_id: id.to_owned(), session_file: file.to_owned() }
}

#[test]
fn session_info_from_response_rejects_missing_session_file() {
    let response = json("{ \"success\": true, \"data\": { \"sessionId\": \"s1\" } }");

    assert!(session_info_from_response(&response).is_err());
    assert_eq!(optional_session_info_from_response(&response), None);
}

#[test]
fn assistant_text_from_response_accepts_strict_shape() -> Result<(), String> {
    let response = json("{ \"success\": true, \"data\": { \"text\": \"hello\" } }");

    assert_eq!(assistant_text_from_response(&response)?, "hello");
    Ok(())
}

#[test]
fn response_status_marks_busy_failure_retryable() -> Result<(), String> {
    let response = json(
        "{\"id\": \"prompt-90\", \"command\": \"prompt\", \"success\": false, \
         \"error\": \"Agent is already processing. Use steer() or followUp() to queue messages, or \
         wait for completion.\"}",
    );

    let status = response_status(response, Vec::new())?;

    assert!(matches!(status, RpcResponse::RetryableBusy { .. }));
    Ok(())
}

#[test]
fn response_status_rejects_non_retryable_failure() {
    let response = json(
        "{\"id\": \"prompt-91\", \"command\": \"prompt\", \"success\": false, \
         \"error\": \"malformed prompt\"}",
    );

    assert!(response_status(response, Vec::new()).is_err());
}

#[test]
fn retry_delay_should_exponentially_back_off_and_cap() {
    assert_eq!(retry_delay(0), 1);
    assert_eq!(retry_delay(1), 2);
    assert_eq!(retry_delay(4), 15);
    assert_eq!(retry_delay(10), 15);
}

#[test]
fn should_disable_omp_session_only_without_resume_or_persistence() {
    assert!(should_disable_omp_session(None, false));
    assert!(!should_disable_omp_session(None, true));
    assert!(!should_disable_omp_session(Some("/tmp/session.jsonl"), false));
}

#[test]
fn parse_timeout_seconds_accepts_positive_integer() -> Result<(), String> {
    assert_eq!(parse_timeout_seconds("TEST_TIMEOUT", " 42 ")?, 42);
    Ok(())
}

#[test]
fn parse_timeout_seconds_rejects_zero() {
    let error = parse_timeout_seconds("TEST_TIMEOUT", "0").unwrap_err();

    assert!(error.contains("greater than zero"));
}

#[test]
fn parse_timeout_seconds_rejects_non_integer() {
    let error = parse_timeout_seconds("TEST_TIMEOUT", "five").unwrap_err();

    assert!(error.contains("positive integer number of seconds"));
}

#[test]
fn numbers_are_read_as_the_standard_library_reads_them() {
    for text in ["+7", "007", "18446744073709551615", "18446744073709551616", "", "+", "-1", "1 2", "1_0"] {
        assert_eq!(
            parse_timeout_seconds("T", text).ok(),
            text.parse::<u64>().ok(),
            "{}",
            text
        );
    }
}

#[test]
fn the_answer_text_is_looked_for_in_three_places() {
    assert_eq!(assistant_text_from_response(&json("{\"data\":\"a\"}")), Ok("a".to_owned()));
    assert_eq!(
        assistant_text_from_response(&json("{\"data\":{\"text\":3},\"text\":\"b\"}")),
        Ok("b".to_owned())
    );
    assert_eq!(
        assistant_text_from_response(&json("{\"data\":null}")),
        Err("get_last_assistant_text response missing text".to_owned())
    );
}

#[test]
fn sessions_need_both_parts() {
    assert_eq!(
        session_info_from_response(&json("{\"data\":{\"sessionId\":\"s\",\"sessionFile\":\"/f\"}}")),
        Ok(session("s", "/f"))
    );
    assert_eq!(
        session_info_from_response(&json("{\"data\":[]}")),
        Err("get_state response missing data object".to_owned())
    );
    assert!(required_non_empty_string(Some(&json("\"\"")), "x").is_err());
    assert_eq!(required_non_empty_string(Some(&json("\"y\"")), "x"), Ok("y".to_owned()));
    assert!(check_new_session(&Some(session("s", "/f")), &session("s", "/g")).is_err());
    assert_eq!(check_new_session(&Some(session("s", "/f")), &session("t", "/g")), Ok(()));
    assert_eq!(check_new_session(&None, &session("s", "/f")), Ok(()));
    assert_eq!(check_switched_session(&session("s", "/a/./b"), "/a/b"), Ok(()));
    assert_eq!(
        check_switched_session(&session("s", "/a"), "/b"),
        Err("switch_session returned sessionFile /a, expected /b".to_owned())
    );
}

#[test]
fn timeouts_come_from_the_environment() {
    let absent = EnvValue::Absent;
    let set = EnvValue::Present(" 5 ".to_owned());
    assert_eq!(RpcTimeouts::from_env(&absent, &absent, &absent), Ok(TIMEOUTS));
    assert_eq!(
        RpcTimeouts::from_env(&absent, &set, &absent),
        Ok(RpcTimeouts { ready: 30, command: 5, prompt_idle: 1800 })
    );
    assert!(RpcTimeouts::from_env(&EnvValue::Present("x".to_owned()), &set, &absent).is_err());
    assert!(duration_from_env("N", &EnvValue::NotUnicode, 3).is_err());
    assert_eq!(TIMEOUTS.get(TimeoutKind::PromptIdle), 1800);
    assert_eq!(TimeoutKind::Ready.env_var(), "AGENTFLOW_OMP_READY_TIMEOUT_SECONDS");
}

#[test]
fn the_error_output_is_capped() {
    let mut buffer = String::new();
    append_capped_stderr_line(&mut buffer, "one");
    append_capped_stderr_line(&mut buffer, "two");
    assert!(buffer.starts_with("one"));
    assert!(buffer.contains("two"));
    let long = "\u{e4}".repeat(STDERR_BUFFER_LIMIT);
    append_capped_stderr_line(&mut buffer, &long);
    assert!(buffer.len() <= STDERR_BUFFER_LIMIT);
    assert!(buffer.len() > STDERR_BUFFER_LIMIT - 4);
    assert!(!buffer.contains("one"));
}

#[test]
fn frames_are_told_apart() {
    let frame = json("{\"type\":\"event\",\"id\":\"prompt-1\"}");
    assert_eq!(frame_type(&frame), Some("event"));
    assert_eq!(frame_id(&frame), Some("prompt-1"));
    assert_eq!(frame_type(&json("[]")), None);
    assert!(is_retryable_busy_error("Already processing"));
    assert!(!is_retryable_busy_error("idle"));
    assert_eq!(check_ready(&json("{\"type\":\"ready\"}")), Ok(()));
    assert!(check_ready(&frame).is_err());
    assert_eq!(parse_stdout_line("{\"type\": \"ready\"}"), Ok(json("{\"type\":\"ready\"}")));
    match parse_stdout_line("{x") {
        Ok(value) => panic!("{}", value),
        Err(error) => {
            assert!(error.starts_with("invalid json from omp stdout: "));
            assert!(error.ends_with("; line: {x"));
        }
    }
    assert_eq!(
        closed_in_retry_message("late"),
        "omp rpc process closed stdout while waiting to retry busy command; stderr: late"
    );
}

#[test]
fn the_process_is_told_its_session_and_its_item() {
    let launch = rpc_launch(None, false, "/s", "M1", -4);
    assert_eq!(launch.arguments, vec!["--mode", "rpc", "--no-session"]);
    assert_eq!(
        launch.variables,
        vec![
            ("AGENTFLOW_CONTROL_SOCKET".to_owned(), "/s".to_owned()),
            ("AGENTFLOW_ITEM_ID".to_owned(), "M1".to_owned()),
            ("AGENTFLOW_COUNTER".to_owned(), "-4".to_owned()),
        ]
    );
    let launch = rpc_launch(Some("/f"), false, "/s", "M1", 1);
    assert_eq!(launch.arguments, vec!["--mode", "rpc", "--resume", "/f"]);
    assert_eq!(rpc_launch(None, true, "/s", "M1", 1).arguments, vec!["--mode", "rpc"]);
}

#[test]
fn a_process_must_say_that_it_is_ready() {
    let ready = RpcEvent::Frame(json("{\"type\":\"ready\"}"));
    assert_eq!(await_ready(ready, "", &TIMEOUTS), Ok(()));
    assert_eq!(
        await_ready(RpcEvent::Frame(json("{\"type\": \"event\"}")), "", &TIMEOUTS),
        Err("expected omp ready frame, got {\"type\":\"event\"}".to_owned())
    );
    assert_eq!(
        await_ready(RpcEvent::Closed, "", &TIMEOUTS),
        Err("omp rpc process closed stdout while waiting for ready frame".to_owned())
    );
    assert_eq!(
        await_ready(RpcEvent::TimedOut, "", &TIMEOUTS),
        Err(
            "timed out after 30s waiting for omp rpc ready frame; set \
             AGENTFLOW_OMP_READY_TIMEOUT_SECONDS to a larger number of seconds if OMP is still \
             working"
                .to_owned()
        )
    );
    assert_eq!(
        await_ready(RpcEvent::Broken("bad".to_owned()), "", &TIMEOUTS),
        Err("bad".to_owned())
    );
}

fn step(exchange: &mut Exchange, ids: &mut RequestIds, now: u64, event: RpcEvent) -> RpcAction {
    match exchange.step(event, now, "", &TIMEOUTS, ids) {
        Ok(action) => action,
        Err(error) => panic!("{}", error),
    }
}

#[test]
fn a_command_is_answered() {
    let mut ids = RequestIds::new();
    let mut exchange = match Exchange::begin_command(json("{\"type\":\"get_state\"}"), true, 9) {
        Ok(exchange) => exchange,
        Err(error) => panic!("{}", error),
    };
    assert_eq!(exchange.open(&mut ids), "{\"id\":\"get_state-1\",\"type\":\"get_state\"}\n");
    let other = RpcEvent::Frame(json("{\"id\":\"get_state-9\"}"));
    assert_eq!(
        step(&mut exchange, &mut ids, 0, other),
        RpcAction::Wait(TimeoutKind::CommandResponse)
    );
    let answer = RpcEvent::Frame(json("{\"id\":\"get_state-1\",\"success\":true}"));
    assert_eq!(step(&mut exchange, &mut ids, 0, answer), RpcAction::Finish);
    let outcome = exchange.finish();
    assert_eq!(outcome.ack, Some(json("{\"id\":\"get_state-1\",\"success\":true}")));
    assert_eq!(outcome.frames, vec![json("{\"id\":\"get_state-9\"}")]);
    assert_eq!(ids.next_id, 2);
}

#[test]
fn a_command_keeps_the_identifier_it_has() {
    let mut ids = RequestIds::new();
    let command = json("{\"id\":\"mine\",\"type\":\"x\"}");
    let mut exchange = match Exchange::begin_command(command, false, 9) {
        Ok(exchange) => exchange,
        Err(error) => panic!("{}", error),
    };
    assert_eq!(exchange.open(&mut ids), "{\"id\":\"mine\",\"type\":\"x\"}\n");
    assert_eq!(ids.next_id, 1);
    match Exchange::begin_command(json("[]"), false, 9) {
        Ok(_) => panic!("a list is no command"),
        Err(error) => assert_eq!(error, "rpc command must be a JSON object"),
    }
}

#[test]
fn a_prompt_is_tried_again_while_the_agent_is_busy() {
    let mut ids = RequestIds::new();
    let second = NANOS as u64;
    let deadline = retry_deadline(0, 1800);
    assert_eq!(deadline, 1800 * NANOS);
    let mut exchange = Exchange::begin_prompt("go", true, deadline);
    assert_eq!(
        exchange.open(&mut ids),
        "{\"id\":\"prompt-1\",\"message\":\"go\",\"type\":\"prompt\"}\n"
    );
    assert_eq!(
        step(&mut exchange, &mut ids, second, RpcEvent::Frame(json(BUSY))),
        RpcAction::WaitUntil(2 * NANOS)
    );
    let noise = RpcEvent::Frame(json("{\"type\":\"noise\"}"));
    assert_eq!(
        step(&mut exchange, &mut ids, second + 1, noise),
        RpcAction::WaitUntil(2 * NANOS)
    );
    assert_eq!(
        step(&mut exchange, &mut ids, 2 * second, RpcEvent::TimedOut),
        RpcAction::Send("{\"id\":\"prompt-2\",\"message\":\"go\",\"type\":\"prompt\"}\n".to_owned())
    );
    let stale = RpcEvent::Frame(json("{\"id\":\"prompt-1\",\"success\":true}"));
    assert_eq!(
        step(&mut exchange, &mut ids, 2 * second, stale),
        RpcAction::Wait(TimeoutKind::CommandResponse)
    );
    let answer = RpcEvent::Frame(json("{\"id\":\"prompt-2\",\"success\":true}"));
    assert_eq!(
        step(&mut exchange, &mut ids, 2 * second, answer),
        RpcAction::Wait(TimeoutKind::PromptIdle)
    );
    let end = RpcEvent::Frame(json("{\"type\":\"agent_end\"}"));
    assert_eq!(step(&mut exchange, &mut ids, 3 * second, end), RpcAction::Finish);
    let outcome = exchange.finish();
    assert_eq!(outcome.ack, Some(json("{\"id\":\"prompt-2\",\"success\":true}")));
    assert_eq!(
        outcome.frames,
        vec![
            json(BUSY),
            json("{\"type\":\"noise\"}"),
            json("{\"id\":\"prompt-1\",\"success\":true}"),
            json("{\"type\":\"agent_end\"}"),
        ]
    );
}

fn fail(exchange: &mut Exchange, ids: &mut RequestIds, now: u64, event: RpcEvent) -> String {
    match exchange.step(event, now, "oops", &TIMEOUTS, ids) {
        Ok(action) => panic!("{:?}", action),
        Err(error) => error,
    }
}

#[test]
fn a_prompt_fails_where_the_agent_does() {
    let mut ids = RequestIds::new();
    let mut exchange = Exchange::begin_prompt("go", false, 5 * NANOS);
    exchange.open(&mut ids);
    assert_eq!(
        fail(&mut exchange, &mut ids, 0, RpcEvent::Frame(json("{\"type\":\"agent_end\"}"))),
        "agent_end arrived before prompt ack for prompt-1"
    );
    assert_eq!(
        fail(&mut exchange, &mut ids, 5 * NANOS as u64, RpcEvent::Frame(json(BUSY))),
        "omp rpc remained busy for 1800 seconds"
    );
    assert_eq!(
        fail(&mut exchange, &mut ids, 0, RpcEvent::Frame(json("{\"id\":\"prompt-1\",\"success\":false}"))),
        "rpc command failed: {\"id\":\"prompt-1\",\"success\":false}"
    );
    assert_eq!(
        fail(&mut exchange, &mut ids, 0, RpcEvent::TimedOut),
        "timed out after 300s waiting for omp rpc command response frame; stderr: oops; set \
         AGENTFLOW_OMP_COMMAND_TIMEOUT_SECONDS to a larger number of seconds if OMP is still \
         working"
    );
    assert_eq!(
        fail(&mut exchange, &mut ids, 0, RpcEvent::Closed),
        "omp rpc process closed stdout while waiting for command response frame; stderr: oops"
    );
    assert_eq!(
        fail(&mut exchange, &mut ids, 0, RpcEvent::Broken("bad line".to_owned())),
        "bad line"
    );
}

#[test]
fn a_new_session_takes_three_commands() {
    let first = json("{\"data\":{\"sessionId\":\"a\",\"sessionFile\":\"/a\"}}");
    let second = json("{\"success\":true}");
    let third = json("{\"data\":{\"sessionId\":\"b\",\"sessionFile\":\"/b\"}}");
    let noise = json("{\"type\":\"noise\"}");
    let task = SessionTask::Renew { collect: true };
    assert_eq!(task.command(), json("{\"type\":\"get_state\"}"));
    assert!(!task.collects());
    let task = match task.reply(first.clone(), Vec::new()) {
        Ok(SessionStep::Continue(task)) => task,
        other => panic!("{:?}", other),
    };
    assert_eq!(task.command(), json("{\"type\":\"new_session\"}"));
    assert!(task.collects());
    let task = match task.reply(second.clone(), vec![noise.clone()]) {
        Ok(SessionStep::Continue(task)) => task,
        other => panic!("{:?}", other),
    };
    assert_eq!(task.command(), json("{\"type\":\"get_state\"}"));
    match task.reply(third.clone(), vec![noise.clone()]) {
        Ok(SessionStep::Finished { info, frames }) => {
            assert_eq!(info, session("b", "/b"));
            assert_eq!(frames, vec![noise.clone(), second, noise, third]);
        }
        other => panic!("{:?}", other),
    }
    let task = SessionTask::Renewed {
        collect: false,
        previous: Some(session("a", "/old")),
        frames: Vec::new(),
    };
    match task.reply(first, Vec::new()) {
        Err(error) => assert_eq!(error, "new_session did not change sessionId"),
        other => panic!("{:?}", other),
    }
}

#[test]
fn sessions_are_looked_at_and_gone_back_to() {
    let answer = json("{\"data\":{\"sessionId\":\"a\",\"sessionFile\":\"/a\"}}");
    match (SessionTask::Inspect { collect: true }).reply(answer.clone(), Vec::new()) {
        Ok(SessionStep::Finished { info, frames }) => {
            assert_eq!(info, session("a", "/a"));
            assert_eq!(frames, vec![answer.clone()]);
        }
        other => panic!("{:?}", other),
    }
    let task = SessionTask::Switch { path: "/a".to_owned() };
    assert_eq!(task.command(), json("{\"type\":\"switch_session\",\"sessionPath\":\"/a\"}"));
    let task = match task.reply(json("{}"), Vec::new()) {
        Ok(SessionStep::Continue(task)) => task,
        other => panic!("{:?}", other),
    };
    assert_eq!(task.command(), json("{\"type\":\"get_state\"}"));
    assert!(matches!(
        task.reply(answer.clone(), Vec::new()),
        Ok(SessionStep::Finished { .. })
    ));
    let task = SessionTask::Switched { path: "/b".to_owned() };
    assert!(task.reply(answer, Vec::new()).is_err());
    assert_eq!(new_session_command(), json("{\"type\":\"new_session\"}"));
    assert_eq!(
        last_assistant_text_command(),
        json("{\"type\":\"get_last_assistant_text\"}")
    );
    assert_eq!(frames_with_response(false, Vec::new(), json("1")), Vec::<Value>::new());
    assert_eq!(frames_with_response(true, vec![json("0")], json("1")), vec![json("0"), json("1")]);
}

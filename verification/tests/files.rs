//! Paths and the contents of files.

use agentflow::cli::{Cli, Command, RunArgs};
use agentflow::files::{
    jsonl_line, latest_recorded_session_file, normalize_path, same_path, temporary_file_path,
    updated_sessions, AgentFlowPaths,
};
use agentflow::loop_spec::LoopItem;
use agentflow::records::{
    control_event_record, error_record, omp_frame_record, rendered_prompt_record, session_record,
    transition_record,
};
use agentflow::rpc::SessionInfo;
use agentflow::runner::resolve_path;
use agentflow::state::{ControlEvent, RunStatus};
use serde_json::Value;

fn json(text: &str) -> Value {
    match serde_json::from_str(text) {
        Ok(value) => value,
        Err(error) => panic!("{}", error),
    }
}

fn session(id: &str, file: &str) -> SessionInfo {
    SessionInfo { session_id: id.to_owned(), session_file: file.to_owned() }
}

#[test]
fn paths_should_match_agentflow_layout_without_override() {
    let paths = AgentFlowPaths::new("/repo".to_owned(), None);

    assert_eq!(paths.agentflow_dir, "/repo/.agentflow");
    assert_eq!(paths.state_path, "/repo/.agentflow/state.json");
    assert_eq!(paths.run_dir("M14"), "/repo/.agentflow/runs/M14");
    assert_eq!(
        paths.rendered_prompts_path("M14"),
        "/repo/.agentflow/runs/M14/rendered-prompts.jsonl"
    );
    assert_eq!(
        paths.outputs_path("M14"),
        "/repo/.agentflow/runs/M14/outputs.jsonl"
    );
    assert_eq!(
        paths.sessions_path("M14"),
        "/repo/.agentflow/runs/M14/sessions.json"
    );
}

#[test]
fn paths_should_use_state_override() {
    let paths = AgentFlowPaths::new("/repo".to_owned(), Some("/tmp/state.json".to_owned()));

    assert_eq!(paths.state_path, "/tmp/state.json");
    assert_eq!(paths.runs_dir, "/repo/.agentflow/runs");
}

#[test]
fn paths_of_the_command_line_are_seen_from_the_repository() {
    assert_eq!(resolve_path("/repo", "a/b"), "/repo/a/b");
    assert_eq!(resolve_path("/repo/", "a"), "/repo/a");
    assert_eq!(resolve_path("/repo", "/a"), "/a");
    let cli = Cli {
        config: ".agentflow.yml".to_owned(),
        repo_root: ".".to_owned(),
        omp: "omp".to_owned(),
        state: Some("s.json".to_owned()),
        command: Command::Run(RunArgs { start: Some(2), end: None, count: Some(4) }),
    };
    assert_eq!(cli.config_path("/repo"), "/repo/.agentflow.yml");
    let paths = cli.paths("/repo");
    assert_eq!(paths.state_path, "/repo/s.json");
    assert_eq!(paths.agentflow_dir, "/repo/.agentflow");
    let overrides = match cli.command {
        Command::Run(args) => args.overrides(),
        _ => RunArgs::default().overrides(),
    };
    assert_eq!((overrides.start, overrides.end, overrides.count), (Some(2), None, Some(4)));
    assert_eq!(RunArgs::default(), RunArgs { start: None, end: None, count: None });
}

#[test]
fn append_jsonl_should_create_parent_and_append_compact_json() {
    let mut text = jsonl_line(&json("{ \"kind\": \"first\" }"));
    text.push_str(&jsonl_line(&json("{ \"kind\": \"second\" }")));
    assert_eq!(text, "{\"kind\":\"first\"}\n{\"kind\":\"second\"}\n");
}

#[test]
fn a_record_is_one_line() {
    let line = jsonl_line(&json("{ \"text\": \"a\\nb\" }"));
    assert_eq!(line, "{\"text\":\"a\\nb\"}\n");
    assert_eq!(line.lines().count(), 1);
}

#[test]
fn record_session_should_rewrite_readable_json_array() {
    let first = match updated_sessions(None, json("{ \"session_id\": \"one\" }")) {
        Ok(bytes) => bytes,
        Err(error) => panic!("{:?}", error),
    };
    let second = match updated_sessions(Some(&first), json("{ \"session_id\": \"two\" }")) {
        Ok(bytes) => bytes,
        Err(error) => panic!("{:?}", error),
    };
    let records: Vec<Value> = match serde_json::from_slice(&second) {
        Ok(records) => records,
        Err(error) => panic!("{}", error),
    };
    assert_eq!(
        records,
        vec![json("{ \"session_id\": \"one\" }"), json("{ \"session_id\": \"two\" }")]
    );
    assert!(second.starts_with(b"[\n"));
    assert!(second.ends_with(b"]\n"));
}

#[test]
fn a_sessions_file_that_is_no_list_is_refused() {
    assert!(updated_sessions(Some(b"{}"), json("{}")).is_err());
    assert!(latest_recorded_session_file(b"").is_err());
}

#[test]
fn the_last_recorded_session_is_found_again() {
    let one = session_record("plan", &session("s1", "/tmp/one"), "17", "initial");
    let two = session_record("build", &session("s2", "/tmp/two \"x\"\n"), "18", "new_session");
    let bytes = match updated_sessions(None, one).and_then(|b| updated_sessions(Some(&b), two)) {
        Ok(bytes) => bytes,
        Err(error) => panic!("{:?}", error),
    };
    assert_eq!(
        latest_recorded_session_file(&bytes),
        Ok(Some("/tmp/two \"x\"\n".to_owned()))
    );
    assert_eq!(
        latest_recorded_session_file(
            b"[{\"session_file\":\"/a\"},{\"session_file\":\"\"},{\"session_file\":3},{}]"
        ),
        Ok(Some("/a".to_owned()))
    );
    assert_eq!(latest_recorded_session_file(b"[]"), Ok(None));
}

#[test]
fn records_hold_what_they_are_given() {
    let item = LoopItem { counter: -1, item_id: "M".to_owned(), iteration: 2, iteration_index: 1 };
    assert_eq!(
        rendered_prompt_record("run", &item, 3, "plan", Some(&session("s", "/f")), "do it"),
        json(
            "{\"run_id\":\"run\",\"item_id\":\"M\",\"counter\":-1,\"iteration\":2,\
             \"prompt_index\":3,\"prompt_id\":\"plan\",\"session_id\":\"s\",\
             \"session_file\":\"/f\",\"text\":\"do it\"}"
        )
    );
    assert_eq!(
        rendered_prompt_record("run", &item, 0, "plan", None, ""),
        json(
            "{\"run_id\":\"run\",\"item_id\":\"M\",\"counter\":-1,\"iteration\":2,\
             \"prompt_index\":0,\"prompt_id\":\"plan\",\"session_id\":null,\
             \"session_file\":null,\"text\":\"\"}"
        )
    );
    assert_eq!(
        omp_frame_record(json("{\"type\":\"agent_end\"}")),
        json("{\"kind\":\"omp_frame\",\"frame\":{\"type\":\"agent_end\"}}")
    );
    assert_eq!(error_record("bad"), json("{\"kind\":\"error\",\"message\":\"bad\"}"));
    assert_eq!(
        transition_record(RunStatus::Running, RunStatus::Paused, "notify"),
        json(
            "{\"kind\":\"state_transition\",\"from\":\"running\",\"to\":\"paused\",\
             \"reason\":\"notify\"}"
        )
    );
    for (status, name) in [
        (RunStatus::Running, "running"),
        (RunStatus::Paused, "paused"),
        (RunStatus::Halted, "halted"),
        (RunStatus::Failed, "failed"),
        (RunStatus::Completed, "completed"),
    ] {
        assert_eq!(transition_record(RunStatus::Running, status, "")["to"], name);
    }
    let event = ControlEvent::Notify {
        message: "m".to_owned(),
        item_id: Some("M14".to_owned()),
        counter: Some(14),
    };
    assert_eq!(
        control_event_record(&event),
        json(
            "{\"kind\":\"control_event\",\"event\":{\"type\":\"notify\",\"message\":\"m\",\
             \"item_id\":\"M14\",\"counter\":14}}"
        )
    );
    assert_eq!(
        session_record("plan", &session("s", "/f"), "17", "resume"),
        json(
            "{\"prompt_id\":\"plan\",\"session_id\":\"s\",\"session_file\":\"/f\",\
             \"started_at\":\"17\",\"reason\":\"resume\"}"
        )
    );
}

#[test]
fn a_state_is_written_beside_its_file_first() {
    assert_eq!(temporary_file_path("/r/state.json"), "/r/state.json.tmp");
    assert_eq!(temporary_file_path("/r/state"), "/r/state.tmp");
    assert_eq!(temporary_file_path("/r.d/.state"), "/r.d/.state.tmp");
}

#[test]
fn temporary_files_are_those_of_the_standard_library() {
    let paths = [
        "", "/", ".", "..", "a", "a.b", "a.", ".a", ".a.b", "a/b.c", "/a.b/c", "a/", "a.b//",
        "a/.", "a/./", "a.b/./.", "a/..", "../a.b", "./a", "//a.json", "a/...", "/.", "//.",
    ];
    for path in paths {
        let std_path = std::path::Path::new(path);
        let extension = match std_path.extension().and_then(|extension| extension.to_str()) {
            Some(extension) => format!("{}.tmp", extension),
            None => "tmp".to_owned(),
        };
        let expected = std_path.with_extension(extension);
        assert_eq!(Some(temporary_file_path(path).as_str()), expected.to_str(), "{}", path);
    }
}

#[test]
fn paths_are_equal_where_the_standard_library_says_so() {
    let paths = [
        "", "/", "//", "/.", ".", "./", "./.", "a", "./a", "a/", "a//", "a/.", "a/./b", "a/b",
        "a//b/", "/a", "//a", "/./a", "..", "../", "a/..", "a/../", ".a", "/a/b", "/a/./b/.",
    ];
    for a in paths {
        for b in paths {
            assert_eq!(
                same_path(a, b),
                std::path::Path::new(a) == std::path::Path::new(b),
                "{} {}",
                a,
                b
            );
        }
    }
    assert_eq!(normalize_path("//a/./b//."), "/a/b");
    assert_eq!(normalize_path("././a"), "./a");
}

#[test]
fn paths_are_joined_as_the_standard_library_joins_them() {
    for base in ["", "/", "a", "a/", "/a/b", "/a//"] {
        for part in ["", "b", "/b", "b/c", "../b"] {
            let expected = std::path::Path::new(base).join(part);
            assert_eq!(Some(resolve_path(base, part).as_str()), expected.to_str());
        }
    }
}

//! Plans of loops.

use agentflow::config::{Config, LogConfig, LoopConfig, Provider, SessionConfig};
use agentflow::error::AgentFlowError;
use agentflow::loop_spec::{build_loop_plan, name_item, LoopItem};

fn config(loop_: LoopConfig) -> Config {
    Config {
        provider: Provider::Omp,
        loop_,
        notify: None,
        sessions: SessionConfig::default(),
        logs: LogConfig::default(),
        prompts: vec![],
    }
}

#[test]
fn build_loop_plan_should_include_end_counter() {
    let plan = build_loop_plan(
        &config(LoopConfig {
            start: 1,
            end: Some(5),
            count: None,
            step: 2,
            item_id: "M{{counter}}".to_owned(),
        }),
        "/repo",
    );
    let items = match plan {
        Ok(plan) => plan.items,
        Err(err) => panic!("{}", err.message()),
    };
    assert_eq!(
        items,
        vec![
            LoopItem { counter: 1, item_id: "M1".to_owned(), iteration: 1, iteration_index: 0 },
            LoopItem { counter: 3, item_id: "M3".to_owned(), iteration: 2, iteration_index: 1 },
            LoopItem { counter: 5, item_id: "M5".to_owned(), iteration: 3, iteration_index: 2 },
        ]
    );
}

#[test]
fn build_loop_plan_should_yield_exact_count() {
    let plan = build_loop_plan(
        &config(LoopConfig {
            start: 4,
            end: None,
            count: Some(2),
            step: 3,
            item_id: "{{counter_padded}}".to_owned(),
        }),
        "/repo",
    );
    let item_ids = match plan {
        Ok(plan) => plan.items.into_iter().map(|item| item.item_id).collect::<Vec<_>>(),
        Err(err) => panic!("{}", err.message()),
    };
    assert_eq!(item_ids, vec!["004".to_owned(), "007".to_owned()]);
}

#[test]
fn build_loop_plan_should_fail_before_counter_overflow() {
    let err = build_loop_plan(
        &config(LoopConfig {
            start: i64::MAX,
            end: None,
            count: Some(2),
            step: 1,
            item_id: "{{counter}}".to_owned(),
        }),
        "/repo",
    );
    assert!(err.is_err());
}

fn failure(loop_: LoopConfig) -> String {
    match build_loop_plan(&config(loop_), "/repo") {
        Ok(plan) => panic!("{:?}", plan),
        Err(error) => error.message(),
    }
}

#[test]
fn loops_without_sound_bounds_are_refused() {
    let id = "x".to_owned();
    assert_eq!(
        failure(LoopConfig { start: 0, end: Some(1), count: None, step: 0, item_id: id.clone() }),
        "loop error: loop.step must be greater than 0"
    );
    assert_eq!(
        failure(LoopConfig { start: 0, end: None, count: Some(0), step: 1, item_id: id.clone() }),
        "loop error: loop.count must be greater than 0"
    );
    assert_eq!(
        failure(LoopConfig { start: 2, end: Some(1), count: None, step: 1, item_id: id.clone() }),
        "loop error: loop.end must be greater than or equal to loop.start"
    );
    assert_eq!(
        failure(LoopConfig { start: 0, end: None, count: None, step: 1, item_id: id.clone() }),
        "loop error: exactly one of loop.end or loop.count must be set"
    );
    assert_eq!(
        failure(LoopConfig { start: 0, end: Some(3), count: Some(1), step: 1, item_id: id }),
        "loop error: exactly one of loop.end or loop.count must be set"
    );
}

#[test]
fn an_end_loop_may_stand_on_the_largest_counter() {
    let plan = build_loop_plan(
        &config(LoopConfig {
            start: i64::MAX - 1,
            end: Some(i64::MAX),
            count: None,
            step: 1,
            item_id: "{{iteration}}/{{iteration_index}}".to_owned(),
        }),
        "/repo",
    );
    let ids: Vec<String> = match plan {
        Ok(plan) => plan.items.iter().map(|item| item.item_id.clone()).collect(),
        Err(err) => panic!("{}", err.message()),
    };
    assert_eq!(ids, vec!["1/0".to_owned(), "2/1".to_owned()]);
    assert_eq!(
        failure(LoopConfig {
            start: i64::MAX - 1,
            end: Some(i64::MAX),
            count: None,
            step: 2,
            item_id: "x".to_owned(),
        }),
        "loop error: counter overflow while expanding end loop"
    );
}

#[test]
fn identifiers_see_the_repository_and_must_not_be_blank() {
    let plan = build_loop_plan(
        &config(LoopConfig {
            start: -3,
            end: None,
            count: Some(1),
            step: 1,
            item_id: "{{repo_root}}:{{counter}}:{{counter_padded}}".to_owned(),
        }),
        "/a \"b\" <c>",
    );
    match plan {
        Ok(plan) => assert_eq!(plan.items[0].item_id, "/a \"b\" <c>:-3:-03"),
        Err(err) => panic!("{}", err.message()),
    }
    assert_eq!(
        failure(LoopConfig {
            start: 1,
            end: None,
            count: Some(1),
            step: 1,
            item_id: " ".to_owned(),
        }),
        "loop error: loop.item_id rendered an empty item id"
    );
}

#[test]
fn a_rendered_identifier_names_its_item() {
    assert_eq!(
        name_item(9, 4, Ok("M9".to_owned())).ok(),
        Some(LoopItem { counter: 9, item_id: "M9".to_owned(), iteration: 5, iteration_index: 4 })
    );
    assert!(name_item(9, 4, Ok("\t ".to_owned())).is_err());
    match name_item(9, 4, Err(AgentFlowError::Render("no".to_owned()))) {
        Err(AgentFlowError::Render(text)) => assert_eq!(text, "no"),
        other => panic!("{:?}", other),
    }
}

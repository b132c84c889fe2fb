//! Control events.

use agentflow::control::{
    check_control_payload, control_counter, control_event, control_event_for_item,
    control_message, control_socket, drain_control_events, merge_control_event,
    parse_control_response, ControlKind, ControlResponse, MAX_PAYLOAD_BYTES,
};
use agentflow::loop_spec::LoopItem;
use agentflow::state::ControlEvent;

fn notify(message: &str) -> ControlEvent {
    ControlEvent::Notify { message: message.to_owned(), item_id: None, counter: None }
}

fn halt(message: &str) -> ControlEvent {
    ControlEvent::Halt { message: message.to_owned(), item_id: None, counter: None }
}

#[test]
fn parse_control_response_accepts_success() {
    let decoded = Some(ControlResponse { success: true, error: None });
    assert!(parse_control_response(br#"{"success":true}"#, decoded).is_ok());
}

#[test]
fn parse_control_response_rejects_failure() {
    let decoded = Some(ControlResponse { success: false, error: Some("nope".to_owned()) });
    let result = parse_control_response(br#"{"success":false,"error":"nope"}"#, decoded);

    assert_eq!(result, Err("nope".to_owned()));
}

#[test]
fn answers_that_say_nothing_are_refused() {
    assert_eq!(parse_control_response(b"", None), Err("empty control response".to_owned()));
    assert_eq!(parse_control_response(b"x", None), Err("invalid control response".to_owned()));
    assert_eq!(
        parse_control_response(
            br#"{"success":false}"#,
            Some(ControlResponse { success: false, error: None })
        ),
        Err("control event rejected".to_owned())
    );
}

#[test]
fn answers_tell_how_an_event_was_taken() {
    let taken = ControlResponse::of(Ok(()));
    assert!(taken.success);
    assert_eq!(taken.error, None);
    let refused = ControlResponse::of(Err("full".to_owned()));
    assert!(!refused.success);
    assert_eq!(refused.error, Some("full".to_owned()));
}

#[test]
fn payloads_have_a_size() {
    assert_eq!(check_control_payload(b""), Err("empty control event".to_owned()));
    assert_eq!(check_control_payload(b"{}"), Ok(()));
    assert_eq!(check_control_payload(&vec![b' '; MAX_PAYLOAD_BYTES]), Ok(()));
    assert_eq!(
        check_control_payload(&vec![b' '; MAX_PAYLOAD_BYTES + 1]),
        Err(format!("control event exceeds {} bytes", MAX_PAYLOAD_BYTES))
    );
}

#[test]
fn events_name_the_item_that_they_are_sent_for() {
    assert_eq!(
        control_event(
            ControlKind::Notify,
            "m",
            Some("M14".to_owned()),
            control_counter(Some("14".to_owned()))
        ),
        ControlEvent::Notify {
            message: "m".to_owned(),
            item_id: Some("M14".to_owned()),
            counter: Some(14),
        }
    );
    assert_eq!(control_event(ControlKind::Notify, "a", None, None), notify("a"));
    assert_eq!(control_event(ControlKind::Halt, "b", None, None), halt("b"));
    assert_eq!(control_message(&notify("a")), "a");
    assert_eq!(control_message(&halt("b")), "b");
}

#[test]
fn counters_are_read_as_the_standard_library_reads_them() {
    assert_eq!(control_counter(None), None);
    let texts = [
        "0", "14", "+14", "-14", "-0", "007", "", "-", "+", "--1", "-+1", "+-1", " 1", "1 ", "1x",
        "\u{663}", "9223372036854775807", "9223372036854775808", "-9223372036854775808",
        "-9223372036854775809", "18446744073709551616", "-99999999999999999999",
    ];
    for text in texts {
        assert_eq!(control_counter(Some(text.to_owned())), text.parse::<i64>().ok(), "{}", text);
    }
}

#[test]
fn the_socket_must_be_set() {
    assert_eq!(
        control_socket(None),
        Err("AGENTFLOW_CONTROL_SOCKET is not set; no active AgentFlow run is reachable".to_owned())
    );
    assert_eq!(
        control_socket(Some(String::new())),
        Err("AGENTFLOW_CONTROL_SOCKET is empty".to_owned())
    );
    assert_eq!(control_socket(Some("/s".to_owned())), Ok("/s".to_owned()));
}

#[test]
fn control_event_for_item_should_replace_missing_or_stale_metadata() {
    let item =
        LoopItem { counter: 2, item_id: "M2".to_owned(), iteration: 2, iteration_index: 1 };
    let event = ControlEvent::Notify {
        message: "pause".to_owned(),
        item_id: Some("M1".to_owned()),
        counter: Some(1),
    };

    assert_eq!(
        control_event_for_item(event, &item),
        ControlEvent::Notify {
            message: "pause".to_owned(),
            item_id: Some("M2".to_owned()),
            counter: Some(2),
        }
    );
    assert_eq!(
        control_event_for_item(halt("stop"), &item),
        ControlEvent::Halt {
            message: "stop".to_owned(),
            item_id: Some("M2".to_owned()),
            counter: Some(2),
        }
    );
}

#[test]
fn a_halt_wins_over_notifications() {
    let events = vec![notify("a"), halt("b"), notify("c"), halt("d"), notify("e")];
    assert_eq!(drain_control_events(&events, None), Some(halt("d")));
    assert_eq!(drain_control_events(&vec![notify("a"), notify("b")], None), Some(notify("b")));
    assert_eq!(drain_control_events(&Vec::new(), None), None);
    assert_eq!(drain_control_events(&Vec::new(), Some(notify("p"))), Some(notify("p")));
    let mut pending = Some(halt("h"));
    merge_control_event(&mut pending, notify("n"));
    assert_eq!(pending, Some(halt("h")));
}

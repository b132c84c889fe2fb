//! Control events: how the agent asks a run to pause or to halt.

use vstd::prelude::*;

use crate::error::outcome;
use crate::loop_spec::{LoopItem, LoopItemView};
use crate::state::{opt_event, ControlEvent, ControlEventView};
use crate::text::{nat_string, nat_text, opt_text, parse_i64_text, parsed_i64};

verus! {

/// The largest control event that is read.
pub const MAX_PAYLOAD_BYTES: usize = 65536;

/// The answer to a control event.
#[derive(Debug, PartialEq, Eq)]
pub struct ControlResponse {
    pub success: bool,
    pub error: Option<String>,
}

impl ControlResponse {
    /// The answer to an event that was taken.
    pub fn success() -> (response: Self)
        ensures
            response.success,
            response.error is None,
    {
        ControlResponse { success: true, error: None }
    }

    /// The answer to an event that was refused.
    pub fn failure(error: String) -> (response: Self)
        ensures
            !response.success,
            opt_text(response.error) == Some(error@),
    {
        ControlResponse { success: false, error: Some(error) }
    }

    /// The answer to the outcome of taking an event.
    pub fn of(taken: Result<(), String>) -> (response: Self)
        ensures
            response.success == (taken is Ok),
            opt_text(response.error) == (match taken {
                Ok(_) => None,
                Err(error) => Some(error@),
            }),
    {
        match taken {
            Ok(_) => ControlResponse::success(),
            Err(error) => ControlResponse::failure(error),
        }
    }
}

/// The verdict on the size of a control event.
pub open spec fn payload_verdict(length: int) -> Result<(), Seq<char>> {
    if length == 0 {
        Err("empty control event"@)
    } else if length > MAX_PAYLOAD_BYTES {
        Err("control event exceeds "@ + nat_text(MAX_PAYLOAD_BYTES as nat) + " bytes"@)
    } else {
        Ok(())
    }
}

/// Checks the size of a control event, before it is decoded.
pub fn check_control_payload(payload: &[u8]) -> (result: Result<(), String>)
    ensures
        outcome(result) == payload_verdict(payload@.len() as int),
{
    if payload.len() == 0 {
        return Err("empty control event".to_owned());
    }
    if payload.len() > MAX_PAYLOAD_BYTES {
        return Err(
            "control event exceeds ".to_owned().concat(
                nat_string(MAX_PAYLOAD_BYTES as u128).as_str(),
            ).concat(" bytes"),
        );
    }
    Ok(())
}

/// What an answer means to the one who sent the event: `decoded` is what the payload holds, where
/// it holds an answer at all.
pub open spec fn response_verdict(
    payload: Seq<u8>,
    decoded: Option<(bool, Option<Seq<char>>)>,
) -> Result<(), Seq<char>> {
    if payload.len() == 0 {
        Err("empty control response"@)
    } else {
        match decoded {
            None => Err("invalid control response"@),
            Some((true, _)) => Ok(()),
            Some((false, Some(error))) => Err(error),
            Some((false, None)) => Err("control event rejected"@),
        }
    }
}

/// Judges the answer to a control event.
pub fn parse_control_response(payload: &[u8], decoded: Option<ControlResponse>) -> (result: Result<
    (),
    String,
>)
    ensures
        outcome(result) == response_verdict(
            payload@,
            match decoded {
                Some(response) => Some((response.success, opt_text(response.error))),
                None => None,
            },
        ),
{
    if payload.len() == 0 {
        return Err("empty control response".to_owned());
    }
    match decoded {
        None => Err("invalid control response".to_owned()),
        Some(response) => {
            if response.success {
                return Ok(());
            }
            match response.error {
                Some(error) => Err(error),
                None => Err("control event rejected".to_owned()),
            }
        },
    }
}

/// The two requests that an agent can make.
#[derive(Debug, Clone, Copy, PartialEq, Eq, Structural)]
pub enum ControlKind {
    Notify,
    Halt,
}

/// The event of a request, with the item and the counter that it is made for, where they are known.
pub fn control_event(
    kind: ControlKind,
    message: &str,
    item_id: Option<String>,
    counter: Option<i64>,
) -> (event: ControlEvent)
    ensures
        event@ == (match kind {
            ControlKind::Notify => ControlEventView::Notify {
                message: message@,
                item_id: opt_text(item_id),
                counter,
            },
            ControlKind::Halt => ControlEventView::Halt {
                message: message@,
                item_id: opt_text(item_id),
                counter,
            },
        }),
{
    match kind {
        ControlKind::Notify => ControlEvent::Notify {
            message: message.to_owned(),
            item_id,
            counter,
        },
        ControlKind::Halt => ControlEvent::Halt { message: message.to_owned(), item_id, counter },
    }
}

/// The counter that `AGENTFLOW_COUNTER` holds: nothing where the variable is unset or is no number.
pub fn control_counter(variable: Option<String>) -> (counter: Option<i64>)
    ensures
        counter == (match opt_text(variable) {
            None => None::<i64>,
            Some(text) => parsed_i64(text),
        }),
{
    match variable {
        None => None,
        Some(text) => parse_i64_text(text.as_str()),
    }
}

/// The socket that a control event goes to: the value of `AGENTFLOW_CONTROL_SOCKET`, which must be
/// set and not empty.
pub fn control_socket(variable: Option<String>) -> (result: Result<String, String>)
    ensures
        outcome(result) == (match opt_text(variable) {
            None => Err::<Seq<char>, Seq<char>>(
                "AGENTFLOW_CONTROL_SOCKET is not set; no active AgentFlow run is reachable"@,
            ),
            Some(socket) => if socket.len() == 0 {
                Err::<Seq<char>, Seq<char>>("AGENTFLOW_CONTROL_SOCKET is empty"@)
            } else {
                Ok::<Seq<char>, Seq<char>>(socket)
            },
        }),
{
    match variable {
        None => Err(
            "AGENTFLOW_CONTROL_SOCKET is not set; no active AgentFlow run is reachable".to_owned(),
        ),
        Some(socket) => {
            if socket.as_str().is_empty() {
                return Err("AGENTFLOW_CONTROL_SOCKET is empty".to_owned());
            }
            Ok(socket)
        },
    }
}

/// The pending event after one more has come: a halt always counts, a notify only where no halt is
/// pending.
pub open spec fn merged(pending: Option<ControlEventView>, event: ControlEventView) -> Option<
    ControlEventView,
> {
    match event {
        ControlEventView::Halt { .. } => Some(event),
        ControlEventView::Notify { .. } => match pending {
            Some(ControlEventView::Halt { .. }) => pending,
            _ => Some(event),
        },
    }
}

/// Takes one more event into the pending one.
pub fn merge_control_event(pending: &mut Option<ControlEvent>, event: ControlEvent)
    ensures
        opt_event(*final(pending)) == merged(opt_event(*old(pending)), event@),
{
    let keep = match &event {
        ControlEvent::Halt { .. } => false,
        ControlEvent::Notify { .. } => match &*pending {
            Some(ControlEvent::Halt { .. }) => true,
            _ => false,
        },
    };
    if !keep {
        *pending = Some(event);
    }
}

/// What a sequence of events says.
pub open spec fn event_views(events: Seq<ControlEvent>) -> Seq<ControlEventView> {
    events.map_values(|e: ControlEvent| e@)
}

/// A copy of events.
pub fn copy_events(events: &Vec<ControlEvent>) -> (copy: Vec<ControlEvent>)
    ensures
        event_views(copy@) == event_views(events@),
{
    let mut copy: Vec<ControlEvent> = Vec::new();
    for i in 0..events.len()
        invariant
            copy@ == events@.take(i as int),
    {
        copy.push(events[i].clone());
        assert(events@.take(i + 1) =~= events@.take(i as int).push(events@[i as int]));
    }
    assert(events@.take(events@.len() as int) =~= events@);
    copy
}

/// The pending event after all the events of a sequence have come.
pub open spec fn drained(events: Seq<ControlEventView>, pending: Option<ControlEventView>) -> Option<
    ControlEventView,
>
    decreases events.len(),
{
    if events.len() == 0 {
        pending
    } else {
        merged(drained(events.drop_last(), pending), events.last())
    }
}

/// Takes all waiting events into the pending one.
pub fn drain_control_events(events: &Vec<ControlEvent>, pending: Option<ControlEvent>) -> (result:
    Option<ControlEvent>)
    ensures
        opt_event(result) == drained(event_views(events@), opt_event(pending)),
{
    let ghost views = event_views(events@);
    let ghost start = opt_event(pending);
    let mut pending = pending;
    for i in 0..events.len()
        invariant
            views == event_views(events@),
            opt_event(pending) == drained(views.take(i as int), start),
    {
        assert(views.take(i + 1).drop_last() =~= views.take(i as int));
        merge_control_event(&mut pending, events[i].clone());
    }
    assert(views.take(views.len() as int) =~= views);
    pending
}

/// The message of an event.
pub open spec fn event_message(event: ControlEventView) -> Seq<char> {
    match event {
        ControlEventView::Notify { message, .. } => message,
        ControlEventView::Halt { message, .. } => message,
    }
}

/// The message of an event.
pub fn control_message(event: &ControlEvent) -> (message: &str)
    ensures
        message@ == event_message(event@),
{
    match event {
        ControlEvent::Notify { message, .. } => message.as_str(),
        ControlEvent::Halt { message, .. } => message.as_str(),
    }
}

/// The event with the item that the run stands at, whatever item it named.
pub open spec fn event_for_item(event: ControlEventView, item: LoopItemView) -> ControlEventView {
    match event {
        ControlEventView::Notify { message, .. } => ControlEventView::Notify {
            message,
            item_id: Some(item.item_id),
            counter: Some(item.counter),
        },
        ControlEventView::Halt { message, .. } => ControlEventView::Halt {
            message,
            item_id: Some(item.item_id),
            counter: Some(item.counter),
        },
    }
}

/// Gives an event the item that the run stands at.
pub fn control_event_for_item(event: ControlEvent, item: &LoopItem) -> (changed: ControlEvent)
    ensures
        changed@ == event_for_item(event@, item@),
{
    match event {
        ControlEvent::Notify { message, .. } => ControlEvent::Notify {
            message,
            item_id: Some(item.item_id.clone()),
            counter: Some(item.counter),
        },
        ControlEvent::Halt { message, .. } => ControlEvent::Halt {
            message,
            item_id: Some(item.item_id.clone()),
            counter: Some(item.counter),
        },
    }
}

} // verus!

//! What holds of every exchange with the agent, whatever the agent answers.

use vstd::prelude::*;

use crate::exchange::{
    number_after, request_id, ExchangeView, PhaseView, RpcActionView, RpcEventView,
};
use crate::json::JsonView;
use crate::rpc::{
    answers, has_type, is_busy, is_failure, retry_seconds, RpcTimeouts, RETRY_MAX_DELAY,
};
use crate::text::{digit_char, nat_text};

verus! {

/// What an exchange is given in one step.
pub struct StepInput {
    pub event: RpcEventView,
    pub now: u64,
    pub stderr: Seq<char>,
    /// The number of the next request.
    pub number: u64,
}

/// An exchange up to some step: the exchange before each input and after the last one, the inputs,
/// and the actions that followed them.
pub struct ExchangeTrace {
    pub states: Seq<ExchangeView>,
    pub inputs: Seq<StepInput>,
    pub actions: Seq<RpcActionView>,
}

impl ExchangeTrace {
    /// Whether the exchange took the step with the given index.
    pub open spec fn took(self, timeouts: RpcTimeouts, index: int) -> bool {
        let input = self.inputs[index];
        self.states[index].after(input.event, input.now, input.stderr, timeouts, input.number)
            == Ok::<(ExchangeView, RpcActionView), Seq<char>>(
            (self.states[index + 1], self.actions[index]),
        )
    }

    /// Whether this is the beginning of an exchange: nothing has been written and nothing has come.
    pub open spec fn is_run(self, timeouts: RpcTimeouts) -> bool {
        &&& self.states.len() == self.inputs.len() + 1
        &&& self.actions.len() == self.inputs.len()
        &&& self.states[0].phase is Unsent
        &&& self.states[0].frames == Seq::<JsonView>::empty()
        &&& self.states[0].response is None
        &&& forall|index: int|
            0 <= index < self.inputs.len() ==> #[trigger] self.took(timeouts, index)
    }

    /// Whether the request was taken in the given step: its answer came, and was no failure.
    pub open spec fn accepted(self, index: int) -> bool {
        &&& self.states[index].phase matches PhaseView::Awaiting { id }
        &&& self.inputs[index].event matches RpcEventView::Frame(frame)
        &&& answers(frame, id)
        &&& !is_failure(frame)
    }

    /// The frames that came in the first steps, without the answer that took the request. What comes
    /// before the request is written, or after the end, is not looked at.
    pub open spec fn seen(self, steps: int) -> Seq<JsonView>
        decreases steps,
    {
        if steps <= 0 {
            Seq::empty()
        } else {
            let index = steps - 1;
            match self.inputs[index].event {
                RpcEventView::Frame(frame) => if self.states[index].phase is Unsent
                    || self.states[index].phase is Done || self.accepted(index) {
                    self.seen(index)
                } else {
                    self.seen(index).push(frame)
                },
                _ => self.seen(index),
            }
        }
    }
}

/// A command is over exactly with its answer: the step that ends it brings the answer to the request
/// that was written last, and that answer is what the command has brought.
pub proof fn commands_end_with_their_answer(
    trace: ExchangeTrace,
    timeouts: RpcTimeouts,
    index: int,
)
    requires
        trace.is_run(timeouts),
        !trace.states[0].awaits_end,
        0 <= index < trace.inputs.len(),
        trace.actions[index] is Finish,
        !(trace.states[index].phase is Done),
    ensures
        trace.accepted(index),
        trace.inputs[index].event matches RpcEventView::Frame(frame)
            && trace.states[index + 1].response == Some(frame),
{
    lemma_shape_stays(trace, timeouts, index);
    assert(trace.took(timeouts, index));
}

/// A prompt is over only after its request was taken and the agent has then ended: the step that ends
/// it brings the end of the agent's turn, and an earlier step, which is returned, brought the answer.
/// The answer is kept where frames are.
pub proof fn prompts_end_after_their_answer(
    trace: ExchangeTrace,
    timeouts: RpcTimeouts,
    index: int,
) -> (ack: int)
    requires
        trace.is_run(timeouts),
        trace.states[0].awaits_end,
        0 <= index < trace.inputs.len(),
        trace.actions[index] is Finish,
        !(trace.states[index].phase is Done),
    ensures
        0 <= ack < index,
        trace.accepted(ack),
        trace.inputs[index].event matches RpcEventView::Frame(frame) && has_type(
            frame,
            "agent_end"@,
        ),
        trace.states[index + 1].response == (if trace.states[0].collect {
            Some(trace.inputs[ack].event->Frame_0)
        } else {
            None
        }),
{
    lemma_shape_stays(trace, timeouts, index);
    assert(trace.took(timeouts, index));
    lemma_running_was_accepted(trace, timeouts, index)
}

proof fn lemma_shape_stays(trace: ExchangeTrace, timeouts: RpcTimeouts, steps: int)
    requires
        trace.is_run(timeouts),
        0 <= steps <= trace.inputs.len(),
    ensures
        trace.states[steps].awaits_end == trace.states[0].awaits_end,
        trace.states[steps].collect == trace.states[0].collect,
        trace.states[steps].fixed_id == trace.states[0].fixed_id,
        trace.states[steps].name == trace.states[0].name,
        trace.states[steps].deadline == trace.states[0].deadline,
        trace.states[steps].phase matches PhaseView::Retrying { until } ==> until
            <= trace.states[0].deadline,
        !trace.states[0].awaits_end ==> !(trace.states[steps].phase is Running),
    decreases steps,
{
    if steps > 0 {
        lemma_shape_stays(trace, timeouts, steps - 1);
        assert(trace.took(timeouts, steps - 1));
    }
}

proof fn lemma_running_was_accepted(
    trace: ExchangeTrace,
    timeouts: RpcTimeouts,
    steps: int,
) -> (ack: int)
    requires
        trace.is_run(timeouts),
        trace.states[0].awaits_end,
        0 <= steps <= trace.inputs.len(),
        trace.states[steps].phase is Running,
    ensures
        0 <= ack < steps,
        trace.accepted(ack),
        trace.states[steps].response == (if trace.states[0].collect {
            Some(trace.inputs[ack].event->Frame_0)
        } else {
            None
        }),
    decreases steps,
{
    assert(trace.took(timeouts, steps - 1));
    lemma_shape_stays(trace, timeouts, steps - 1);
    if trace.states[steps - 1].phase is Running {
        lemma_running_was_accepted(trace, timeouts, steps - 1)
    } else {
        steps - 1
    }
}

/// The end of the agent's turn before the answer to the prompt is an error.
pub proof fn an_early_end_fails(
    exchange: ExchangeView,
    frame: JsonView,
    now: u64,
    stderr: Seq<char>,
    timeouts: RpcTimeouts,
    number: u64,
)
    requires
        exchange.awaits_end,
        exchange.phase is Awaiting,
        has_type(frame, "agent_end"@),
    ensures
        exchange.after(RpcEventView::Frame(frame), now, stderr, timeouts, number) == Err::<
            (ExchangeView, RpcActionView),
            Seq<char>,
        >("agent_end arrived before prompt ack for "@ + exchange.phase->Awaiting_id),
{
}

/// Where frames are kept, an exchange keeps every frame that comes, in order, but for the answer that
/// takes its request; where they are not, it keeps none.
pub proof fn frames_are_kept_in_order(trace: ExchangeTrace, timeouts: RpcTimeouts, steps: int)
    requires
        trace.is_run(timeouts),
        0 <= steps <= trace.inputs.len(),
    ensures
        trace.states[steps].frames == (if trace.states[0].collect {
            trace.seen(steps)
        } else {
            Seq::empty()
        }),
    decreases steps,
{
    if steps > 0 {
        frames_are_kept_in_order(trace, timeouts, steps - 1);
        lemma_shape_stays(trace, timeouts, steps - 1);
        assert(trace.took(timeouts, steps - 1));
    }
}

/// A busy agent is asked again no later than the deadline, and a busy answer at the deadline or after
/// it ends the exchange.
pub proof fn retries_keep_to_the_deadline(
    trace: ExchangeTrace,
    timeouts: RpcTimeouts,
    index: int,
    answer: JsonView,
    now: u64,
)
    requires
        trace.is_run(timeouts),
        0 <= index < trace.inputs.len(),
    ensures
        trace.actions[index] matches RpcActionView::WaitUntil(instant) ==> instant
            <= trace.states[0].deadline,
        is_failure(answer) && is_busy(answer) ==> (trace.states[index].answered(
            answer,
            now,
            timeouts,
        ) is Err <==> now >= trace.states[0].deadline),
{
    lemma_shape_stays(trace, timeouts, index);
    assert(trace.took(timeouts, index));
}

proof fn lemma_digits_differ(a: int, b: int)
    requires
        0 <= a < 10,
        0 <= b < 10,
        digit_char(a) == digit_char(b),
    ensures
        a == b,
{
}

proof fn lemma_numbers_differ(a: nat, b: nat)
    requires
        nat_text(a) == nat_text(b),
    ensures
        a == b,
    decreases a,
{
    if a < 10 && b < 10 {
        assert(nat_text(a)[0] == digit_char(a as int));
        assert(nat_text(b)[0] == digit_char(b as int));
        lemma_digits_differ(a as int, b as int);
    } else if a >= 10 && b >= 10 {
        assert(nat_text(a).last() == digit_char((a % 10) as int));
        assert(nat_text(b).last() == digit_char((b % 10) as int));
        assert(nat_text(a).drop_last() =~= nat_text(a / 10));
        assert(nat_text(b).drop_last() =~= nat_text(b / 10));
        lemma_digits_differ((a % 10) as int, (b % 10) as int);
        lemma_numbers_differ(a / 10, b / 10);
    } else if a < 10 {
        lemma_not_empty(b / 10);
        assert(nat_text(a).len() == 1);
        assert(nat_text(b).len() == nat_text(b / 10).len() + 1);
    } else {
        lemma_not_empty(a / 10);
        assert(nat_text(b).len() == 1);
        assert(nat_text(a).len() == nat_text(a / 10).len() + 1);
    }
}

proof fn lemma_not_empty(n: nat)
    ensures
        nat_text(n).len() > 0,
    decreases n,
{
    if n >= 10 {
        lemma_not_empty(n / 10);
    }
}

/// Requests with different numbers have different identifiers, so that the answer to one try is never
/// taken for the answer to another.
pub proof fn identifiers_differ(kind: Seq<char>, a: u64, b: u64)
    requires
        a != b,
    ensures
        request_id(kind, a) != request_id(kind, b),
{
    if request_id(kind, a) == request_id(kind, b) {
        let prefix = kind + "-"@;
        assert(nat_text(a as nat) =~= request_id(kind, a).skip(prefix.len() as int));
        assert(nat_text(b as nat) =~= request_id(kind, b).skip(prefix.len() as int));
        lemma_numbers_differ(a as nat, b as nat);
    }
}

/// Each try of a request without an identifier of its own is the same request with a new identifier,
/// as long as the numbers last.
pub proof fn retries_get_new_identifiers(exchange: ExchangeView, number: u64)
    requires
        exchange.fixed_id is None,
        exchange.outgoing is Object,
        number < u64::MAX,
    ensures
        ({
            let next = exchange.number_after_sent(number);
            let again = exchange.sent(number).resent(next).0;
            &&& exchange.sent(number).phase matches PhaseView::Awaiting { id }
            &&& again.phase matches PhaseView::Awaiting { id: new_id }
            &&& id != new_id
            &&& again.outgoing == JsonView::Object(
                exchange.outgoing->Object_0.insert("id"@, JsonView::Text(new_id)),
            )
        }),
{
    let next = number_after(number);
    identifiers_differ(exchange.name, number, next);
    let members = exchange.outgoing->Object_0;
    let old_id = JsonView::Text(request_id(exchange.name, number));
    let new_id = JsonView::Text(request_id(exchange.name, next));
    assert(members.insert("id"@, old_id).insert("id"@, new_id) =~= members.insert("id"@, new_id));
}

/// The delays between tries start at one second, double three times, and then stay at their maximum.
pub proof fn delays_rise(retry_count: int)
    requires
        retry_count >= 0,
    ensures
        retry_seconds(0) == 1,
        retry_count < 3 ==> retry_seconds(retry_count + 1) == 2 * retry_seconds(retry_count),
        retry_count > 3 ==> retry_seconds(retry_count) == RETRY_MAX_DELAY,
        retry_seconds(retry_count) <= retry_seconds(retry_count + 1) <= RETRY_MAX_DELAY,
{
}

} // verus!

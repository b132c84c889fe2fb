//! What each event does to an exchange with the agent.

use vstd::prelude::*;

use crate::exchange::{
    deadline_after, fresh_command, fresh_prompt, number_after, ready_verdict, request_id,
    ExchangeView, PhaseView, RpcActionView, RpcEventView,
};
use crate::exchange_laws::ExchangeTrace;
use crate::json::{json_compact, JsonView};
use crate::rpc::{busy_error, command_failed, RpcTimeouts, TimeoutKind};
use crate::text::{nat_text, occurs_in};

verus! {

/// The members of an object are what is found under their keys, and nothing is found elsewhere.
pub proof fn members_are_found_under_their_keys(
    members: Map<Seq<char>, JsonView>,
    key: Seq<char>,
    text: Seq<char>,
    b: bool,
    other: JsonView,
)
    ensures
        members.contains_key(key) ==> JsonView::Object(members).member(key) == Some(members[key]),
        !members.contains_key(key) ==> JsonView::Object(members).member(key) is None,
        !(other is Object) ==> other.member(key) is None && other.member_text(key) is None,
        JsonView::Object(members).member_text(key) == Some(text) <==> members.contains_key(key)
            && members[key] == JsonView::Text(text),
        other.text() == Some(text) <==> other == JsonView::Text(text),
        other.truth() == Some(b) <==> other == JsonView::Bool(b),
{
}

/// While the agent's turn is waited out, a frame that says that the turn has ended finishes the
/// prompt, whether or not frames are kept. Every other frame leaves the prompt where it is, and the
/// next frame is waited for. Either way the frame is kept exactly where frames are, and nothing else
/// of the exchange changes.
pub proof fn running_prompts_end_with_the_turn(
    exchange: ExchangeView,
    frame: JsonView,
    now: u64,
    stderr: Seq<char>,
    timeouts: RpcTimeouts,
    number: u64,
)
    requires
        exchange.phase is Running,
    ensures
        exchange.after(RpcEventView::Frame(frame), now, stderr, timeouts, number) matches Ok(
            (next, action),
        ) && {
            &&& frame.member_text("type"@) == Some("agent_end"@) ==> next.phase is Done
                && action is Finish
            &&& frame.member_text("type"@) != Some("agent_end"@) ==> next.phase is Running && action
                == RpcActionView::Wait(TimeoutKind::PromptIdle)
            &&& exchange.collect ==> next.frames == exchange.frames.push(frame)
            &&& !exchange.collect ==> next.frames == exchange.frames
            &&& next == (ExchangeView { phase: next.phase, frames: next.frames, ..exchange })
        },
{
}

/// What is no frame ends the wait for the end of the agent's turn with an error, which names what was
/// waited for.
pub proof fn running_prompts_fail_without_frames(
    exchange: ExchangeView,
    text: Seq<char>,
    now: u64,
    stderr: Seq<char>,
    timeouts: RpcTimeouts,
    number: u64,
)
    requires
        exchange.phase is Running,
    ensures
        exchange.after(RpcEventView::Broken(text), now, stderr, timeouts, number) == Err::<
            (ExchangeView, RpcActionView),
            Seq<char>,
        >(text),
        stderr.len() == 0 ==> exchange.after(RpcEventView::Closed, now, stderr, timeouts, number)
            == Err::<(ExchangeView, RpcActionView), Seq<char>>(
            "omp rpc process closed stdout while waiting for "@
                + "prompt progress or completion frame"@,
        ),
        stderr.len() > 0 ==> exchange.after(RpcEventView::Closed, now, stderr, timeouts, number)
            == Err::<(ExchangeView, RpcActionView), Seq<char>>(
            "omp rpc process closed stdout while waiting for "@
                + "prompt progress or completion frame"@ + ("; stderr: "@ + stderr),
        ),
        stderr.len() == 0 ==> exchange.after(RpcEventView::TimedOut, now, stderr, timeouts, number)
            == Err::<(ExchangeView, RpcActionView), Seq<char>>(
            "timed out after "@ + nat_text(timeouts.prompt_idle as nat) + "s waiting for omp rpc "@
                + "prompt progress or completion frame"@ + "; set "@
                + "AGENTFLOW_OMP_PROMPT_IDLE_TIMEOUT_SECONDS"@
                + " to a larger number of seconds if OMP is still working"@,
        ),
        stderr.len() > 0 ==> exchange.after(RpcEventView::TimedOut, now, stderr, timeouts, number)
            == Err::<(ExchangeView, RpcActionView), Seq<char>>(
            "timed out after "@ + nat_text(timeouts.prompt_idle as nat) + "s waiting for omp rpc "@
                + "prompt progress or completion frame"@ + ("; stderr: "@ + stderr) + "; set "@
                + "AGENTFLOW_OMP_PROMPT_IDLE_TIMEOUT_SECONDS"@
                + " to a larger number of seconds if OMP is still working"@,
        ),
{
    let s = "omp rpc process closed stdout while waiting for "@
        + "prompt progress or completion frame"@;
    let t = "timed out after "@ + nat_text(timeouts.prompt_idle as nat) + "s waiting for omp rpc "@
        + "prompt progress or completion frame"@;
    assert(s + Seq::<char>::empty() =~= s);
    assert(t + Seq::<char>::empty() =~= t);
}

/// What is no frame ends the wait for an answer with an error, which names what was waited for.
pub proof fn requests_fail_without_frames(
    exchange: ExchangeView,
    text: Seq<char>,
    now: u64,
    stderr: Seq<char>,
    timeouts: RpcTimeouts,
    number: u64,
)
    requires
        exchange.phase is Awaiting,
    ensures
        exchange.after(RpcEventView::Broken(text), now, stderr, timeouts, number) == Err::<
            (ExchangeView, RpcActionView),
            Seq<char>,
        >(text),
        stderr.len() == 0 ==> exchange.after(RpcEventView::Closed, now, stderr, timeouts, number)
            == Err::<(ExchangeView, RpcActionView), Seq<char>>(
            "omp rpc process closed stdout while waiting for "@ + "command response frame"@,
        ),
        stderr.len() > 0 ==> exchange.after(RpcEventView::Closed, now, stderr, timeouts, number)
            == Err::<(ExchangeView, RpcActionView), Seq<char>>(
            "omp rpc process closed stdout while waiting for "@ + "command response frame"@ + (
            "; stderr: "@ + stderr),
        ),
        stderr.len() == 0 ==> exchange.after(RpcEventView::TimedOut, now, stderr, timeouts, number)
            == Err::<(ExchangeView, RpcActionView), Seq<char>>(
            "timed out after "@ + nat_text(timeouts.command as nat) + "s waiting for omp rpc "@
                + "command response frame"@ + "; set "@ + "AGENTFLOW_OMP_COMMAND_TIMEOUT_SECONDS"@
                + " to a larger number of seconds if OMP is still working"@,
        ),
        stderr.len() > 0 ==> exchange.after(RpcEventView::TimedOut, now, stderr, timeouts, number)
            == Err::<(ExchangeView, RpcActionView), Seq<char>>(
            "timed out after "@ + nat_text(timeouts.command as nat) + "s waiting for omp rpc "@
                + "command response frame"@ + ("; stderr: "@ + stderr) + "; set "@
                + "AGENTFLOW_OMP_COMMAND_TIMEOUT_SECONDS"@
                + " to a larger number of seconds if OMP is still working"@,
        ),
{
    let s = "omp rpc process closed stdout while waiting for "@ + "command response frame"@;
    let t = "timed out after "@ + nat_text(timeouts.command as nat) + "s waiting for omp rpc "@
        + "command response frame"@;
    assert(s + Seq::<char>::empty() =~= s);
    assert(t + Seq::<char>::empty() =~= t);
}

/// A frame that does not carry the identifier of the request leaves the request waiting, unless it
/// ends the turn of a prompt that was not taken yet.
pub proof fn other_frames_leave_the_request_waiting(
    exchange: ExchangeView,
    id: Seq<char>,
    frame: JsonView,
    now: u64,
    stderr: Seq<char>,
    timeouts: RpcTimeouts,
    number: u64,
)
    requires
        exchange.phase == (PhaseView::Awaiting { id }),
        frame.member_text("id"@) != Some(id),
        !exchange.awaits_end || frame.member_text("type"@) != Some("agent_end"@),
    ensures
        exchange.after(RpcEventView::Frame(frame), now, stderr, timeouts, number) matches Ok(
            (next, action),
        ) && {
            &&& action == RpcActionView::Wait(TimeoutKind::CommandResponse)
            &&& exchange.collect ==> next.frames == exchange.frames.push(frame)
            &&& !exchange.collect ==> next.frames == exchange.frames
            &&& next == (ExchangeView { frames: next.frames, ..exchange })
        },
{
}

/// The end of the agent's turn before the prompt was taken is an error that names the request, even
/// where the frame carries the identifier of the request.
pub proof fn turns_do_not_end_before_they_begin(
    exchange: ExchangeView,
    id: Seq<char>,
    frame: JsonView,
    now: u64,
    stderr: Seq<char>,
    timeouts: RpcTimeouts,
    number: u64,
)
    requires
        exchange.phase == (PhaseView::Awaiting { id }),
        exchange.awaits_end,
        frame.member_text("type"@) == Some("agent_end"@),
    ensures
        exchange.after(RpcEventView::Frame(frame), now, stderr, timeouts, number) == Err::<
            (ExchangeView, RpcActionView),
            Seq<char>,
        >("agent_end arrived before prompt ack for "@ + id),
{
}

/// An answer that does not report a failure takes the request. A command is then over, and has
/// brought the answer; a prompt goes on until the agent's turn ends, and has the answer where frames
/// are kept.
pub proof fn answers_take_the_request(
    exchange: ExchangeView,
    id: Seq<char>,
    frame: JsonView,
    now: u64,
    stderr: Seq<char>,
    timeouts: RpcTimeouts,
    number: u64,
)
    requires
        exchange.phase == (PhaseView::Awaiting { id }),
        frame.member_text("id"@) == Some(id),
        frame.member("success"@) != Some(JsonView::Bool(false)),
    ensures
        !exchange.awaits_end ==> exchange.after(
            RpcEventView::Frame(frame),
            now,
            stderr,
            timeouts,
            number,
        ) == Ok::<(ExchangeView, RpcActionView), Seq<char>>(
            (
                ExchangeView { phase: PhaseView::Done, response: Some(frame), ..exchange },
                RpcActionView::Finish,
            ),
        ),
        exchange.awaits_end && frame.member_text("type"@) != Some("agent_end"@) ==> exchange.after(
            RpcEventView::Frame(frame),
            now,
            stderr,
            timeouts,
            number,
        ) == Ok::<(ExchangeView, RpcActionView), Seq<char>>(
            (
                ExchangeView {
                    phase: PhaseView::Running,
                    response: if exchange.collect {
                        Some(frame)
                    } else {
                        None
                    },
                    ..exchange
                },
                RpcActionView::Wait(TimeoutKind::PromptIdle),
            ),
        ),
{
}

/// An error speaks of a busy agent exactly where it holds one of two phrases.
pub proof fn busy_errors_say_so(error: Seq<char>)
    ensures
        busy_error(error) <==> occurs_in(error, "already processing"@) || occurs_in(
            error,
            "Already processing"@,
        ),
{
}

/// An answer that reports a failure for another reason than a busy agent ends the exchange with an
/// error that quotes the answer.
pub proof fn failures_end_the_exchange(
    exchange: ExchangeView,
    id: Seq<char>,
    frame: JsonView,
    now: u64,
    stderr: Seq<char>,
    timeouts: RpcTimeouts,
    number: u64,
)
    requires
        exchange.phase == (PhaseView::Awaiting { id }),
        !exchange.awaits_end || frame.member_text("type"@) != Some("agent_end"@),
        frame.member_text("id"@) == Some(id),
        frame.member("success"@) == Some(JsonView::Bool(false)),
        frame.member_text("error"@) matches Some(error) ==> !busy_error(error),
    ensures
        exchange.after(RpcEventView::Frame(frame), now, stderr, timeouts, number) == Err::<
            (ExchangeView, RpcActionView),
            Seq<char>,
        >("rpc command failed: "@ + json_compact(frame)),
{
}

/// The number of times that the request was written in the first steps.
pub open spec fn times_written(trace: ExchangeTrace, steps: int) -> int
    decreases steps,
{
    if steps <= 0 {
        0
    } else if trace.actions[steps - 1] is Send {
        times_written(trace, steps - 1) + 1
    } else {
        times_written(trace, steps - 1)
    }
}

proof fn lemma_tries_are_counted(trace: ExchangeTrace, timeouts: RpcTimeouts, steps: int)
    requires
        trace.is_run(timeouts),
        trace.states[0].retry_count == 0,
        0 <= steps <= trace.inputs.len(),
        steps <= usize::MAX,
    ensures
        0 <= times_written(trace, steps) <= steps,
        trace.states[steps].phase is Unsent <==> times_written(trace, steps) == 0,
        times_written(trace, steps) > 0 ==> trace.states[steps].retry_count == times_written(
            trace,
            steps,
        ) - 1,
        times_written(trace, steps) == 0 ==> trace.states[steps].retry_count == 0,
        trace.states[steps].deadline == trace.states[0].deadline,
    decreases steps,
{
    if steps > 0 {
        lemma_tries_are_counted(trace, timeouts, steps - 1);
        assert(trace.took(timeouts, steps - 1));
    }
}

/// A busy agent is given time before it is asked again: one second after the first try, two after the
/// second, four, eight, and fifteen after every further one, but never beyond the deadline. From the
/// deadline on the exchange fails instead.
pub proof fn busy_agents_are_asked_again(
    trace: ExchangeTrace,
    timeouts: RpcTimeouts,
    steps: int,
    frame: JsonView,
    now: u64,
    stderr: Seq<char>,
    number: u64,
)
    requires
        trace.is_run(timeouts),
        trace.states[0].retry_count == 0,
        0 <= steps <= trace.inputs.len(),
        steps <= usize::MAX,
        trace.states[steps].phase is Awaiting,
        !trace.states[steps].awaits_end || frame.member_text("type"@) != Some("agent_end"@),
        frame.member_text("id"@) == Some(trace.states[steps].phase->Awaiting_id),
        frame.member("success"@) == Some(JsonView::Bool(false)),
        frame.member_text("error"@) matches Some(error) && busy_error(error),
    ensures
        ({
            let before = trace.states[steps];
            let tries = times_written(trace, steps);
            let deadline = trace.states[0].deadline;
            let seconds: int = if tries == 1 {
                1
            } else if tries == 2 {
                2
            } else if tries == 3 {
                4
            } else if tries == 4 {
                8
            } else {
                15
            };
            let result = before.after(RpcEventView::Frame(frame), now, stderr, timeouts, number);
            &&& tries >= 1
            &&& now >= deadline ==> result == Err::<(ExchangeView, RpcActionView), Seq<char>>(
                "omp rpc remained busy for "@ + nat_text(timeouts.prompt_idle as nat)
                    + " seconds"@,
            )
            &&& now < deadline ==> (result matches Ok((next, RpcActionView::WaitUntil(instant)))
                && {
                &&& now + seconds * 1000000000 <= deadline ==> instant == now + seconds * 1000000000
                &&& now + seconds * 1000000000 > deadline ==> instant == deadline
                &&& next.phase == (PhaseView::Retrying { until: instant })
                &&& before.collect ==> next.frames == before.frames.push(frame)
                &&& !before.collect ==> next.frames == before.frames
                &&& next == (ExchangeView { phase: next.phase, frames: next.frames, ..before })
            })
        }),
{
    lemma_tries_are_counted(trace, timeouts, steps);
}

/// The fields of a request after it was written, and the line that it was written as. A request with
/// an identifier of its own is written as it is; another one gets the name of the request and the
/// number, in the place of an identifier that it may have.
pub open spec fn is_written(
    before: ExchangeView,
    next: ExchangeView,
    line: Seq<char>,
    number: u64,
) -> bool {
    &&& line == json_compact(next.outgoing) + "\n"@
    &&& next.name == before.name && next.fixed_id == before.fixed_id && next.awaits_end
        == before.awaits_end && next.collect == before.collect && next.response
        == before.response && next.deadline == before.deadline
    &&& before.fixed_id matches Some(id) ==> next.phase == (PhaseView::Awaiting { id })
        && next.outgoing == before.outgoing
    &&& before.fixed_id is None ==> {
        let id = before.name + "-"@ + nat_text(number as nat);
        &&& next.phase == (PhaseView::Awaiting { id })
        &&& next.outgoing.member("id"@) == Some(JsonView::Text(id))
        &&& next.outgoing is Object
        &&& forall|key: Seq<char>|
            key != "id"@ ==> #[trigger] next.outgoing.member(key) == before.outgoing.member(key)
    }
}

/// The first step of an exchange writes the request, whatever the event is.
pub proof fn requests_are_written_first(
    exchange: ExchangeView,
    event: RpcEventView,
    now: u64,
    stderr: Seq<char>,
    timeouts: RpcTimeouts,
    number: u64,
)
    requires
        exchange.phase is Unsent,
        exchange.outgoing is Object,
    ensures
        exchange.after(event, now, stderr, timeouts, number) matches Ok(
            (next, RpcActionView::Send(line)),
        ) && is_written(exchange, next, line, number) && next.frames == exchange.frames
            && next.retry_count == exchange.retry_count,
{
    lemma_written(exchange, number);
}

proof fn lemma_written(exchange: ExchangeView, number: u64)
    requires
        exchange.outgoing is Object,
    ensures
        is_written(exchange, exchange.sent(number), exchange.line(number), number),
{
    assert forall|key: Seq<char>| key != "id"@ && exchange.fixed_id is None implies #[trigger]
        exchange.sent(number).outgoing.member(key) == exchange.outgoing.member(key) by {}
}

/// A request that a busy agent did not take is written again when its time has come, and not before:
/// at a frame from that instant on, or when nothing has come until then.
pub proof fn busy_requests_are_written_again(
    exchange: ExchangeView,
    until: int,
    frame: JsonView,
    text: Seq<char>,
    now: u64,
    stderr: Seq<char>,
    timeouts: RpcTimeouts,
    number: u64,
)
    requires
        exchange.phase == (PhaseView::Retrying { until }),
        exchange.outgoing is Object,
    ensures
        exchange.after(RpcEventView::TimedOut, now, stderr, timeouts, number) matches Ok(
            (next, RpcActionView::Send(line)),
        ) && is_written(exchange, next, line, number) && next.frames == exchange.frames,
        now >= until ==> (exchange.after(
            RpcEventView::Frame(frame),
            now,
            stderr,
            timeouts,
            number,
        ) matches Ok((next, RpcActionView::Send(line))) && is_written(exchange, next, line, number)
            && (exchange.collect ==> next.frames == exchange.frames.push(frame)) && (
        !exchange.collect ==> next.frames == exchange.frames)),
        now < until ==> (exchange.after(
            RpcEventView::Frame(frame),
            now,
            stderr,
            timeouts,
            number,
        ) matches Ok((next, RpcActionView::WaitUntil(instant))) && instant == until && (
        exchange.collect ==> next.frames == exchange.frames.push(frame)) && (!exchange.collect
            ==> next.frames == exchange.frames) && next == (ExchangeView {
            frames: next.frames,
            ..exchange
        })),
        exchange.after(RpcEventView::Broken(text), now, stderr, timeouts, number) == Err::<
            (ExchangeView, RpcActionView),
            Seq<char>,
        >(text),
        stderr.len() == 0 ==> exchange.after(RpcEventView::Closed, now, stderr, timeouts, number)
            == Err::<(ExchangeView, RpcActionView), Seq<char>>(
            "omp rpc process closed stdout while waiting to retry busy command"@,
        ),
        stderr.len() > 0 ==> exchange.after(RpcEventView::Closed, now, stderr, timeouts, number)
            == Err::<(ExchangeView, RpcActionView), Seq<char>>(
            "omp rpc process closed stdout while waiting to retry busy command"@ + ("; stderr: "@
                + stderr),
        ),
{
    lemma_written(exchange.at_next_try(), number);
    lemma_written(exchange.with_frame(frame).at_next_try(), number);
    assert(is_written(exchange, exchange.resent(number).0, exchange.at_next_try().line(number), number));
    let s = "omp rpc process closed stdout while waiting to retry busy command"@;
    assert(s + Seq::<char>::empty() =~= s);
}

/// An exchange that is over stays as it is.
pub proof fn finished_exchanges_stay(
    exchange: ExchangeView,
    event: RpcEventView,
    now: u64,
    stderr: Seq<char>,
    timeouts: RpcTimeouts,
    number: u64,
)
    requires
        exchange.phase is Done,
    ensures
        exchange.after(event, now, stderr, timeouts, number) == Ok::<
            (ExchangeView, RpcActionView),
            Seq<char>,
        >((exchange, RpcActionView::Finish)),
{
}

/// Every written request without an identifier of its own uses one number up; the last number stays.
pub proof fn numbers_are_used_up(exchange: ExchangeView, number: u64)
    ensures
        exchange.fixed_id is Some ==> exchange.number_after_sent(number) == number,
        exchange.fixed_id is None && number < u64::MAX ==> exchange.number_after_sent(number)
            == number + 1,
        exchange.fixed_id is None ==> exchange.number_after_sent(u64::MAX) == u64::MAX,
{
}

/// A prompt asks the agent for nothing but the text, and ends with the agent's turn.
pub proof fn prompts_hold_their_text(text: Seq<char>, collect: bool, deadline: int)
    ensures
        ({
            let prompt = fresh_prompt(text, collect, deadline);
            &&& prompt.outgoing.member("type"@) == Some(JsonView::Text("prompt"@))
            &&& prompt.outgoing.member("message"@) == Some(JsonView::Text(text))
            &&& forall|key: Seq<char>|
                key != "type"@ && key != "message"@ ==> #[trigger] prompt.outgoing.member(key)
                    is None
            &&& prompt.name == "prompt"@
            &&& prompt.fixed_id is None
            &&& prompt.awaits_end
            &&& prompt.collect == collect
            &&& prompt.frames.len() == 0
            &&& prompt.response is None
            &&& prompt.phase is Unsent
            &&& prompt.deadline == deadline
            &&& prompt.retry_count == 0
        }),
{
    reveal_strlit("type");
    reveal_strlit("message");
    assert("type"@.len() != "message"@.len());
}

/// A command is sent as it is. Its type gives its identifiers their name, an identifier of its own
/// that is not empty is kept, and it ends with its answer. What is no object is no command.
pub proof fn commands_are_sent_as_they_are(command: JsonView, collect: bool, deadline: int)
    ensures
        !(command is Object) ==> fresh_command(command, collect, deadline) == Err::<
            ExchangeView,
            Seq<char>,
        >("rpc command must be a JSON object"@),
        command is Object ==> (fresh_command(command, collect, deadline) matches Ok(fresh) && {
            &&& fresh.outgoing == command
            &&& command.member_text("type"@) matches Some(kind) ==> fresh.name == kind
            &&& command.member_text("type"@) is None ==> fresh.name == "command"@
            &&& fresh.fixed_id matches Some(id) ==> id.len() > 0 && command.member_text("id"@)
                == Some(id)
            &&& fresh.fixed_id is None ==> (command.member_text("id"@) matches Some(id)
                ==> id.len() == 0)
            &&& !fresh.awaits_end
            &&& fresh.collect == collect
            &&& fresh.frames.len() == 0
            &&& fresh.response is None
            &&& fresh.phase is Unsent
            &&& fresh.deadline == deadline
            &&& fresh.retry_count == 0
        }),
{
}

/// A busy agent is given up the given number of seconds after now.
pub proof fn deadlines_lie_seconds_ahead(now: u64, idle_seconds: u64)
    ensures
        deadline_after(now, idle_seconds) == now + idle_seconds * 1000000000,
{
}

/// A process is ready exactly when its first event is a frame that says so; everything else is an
/// error that says what came.
pub proof fn processes_say_that_they_are_ready(
    frame: JsonView,
    text: Seq<char>,
    stderr: Seq<char>,
    timeouts: RpcTimeouts,
)
    ensures
        frame.member_text("type"@) == Some("ready"@) ==> ready_verdict(
            RpcEventView::Frame(frame),
            stderr,
            timeouts,
        ) is Ok,
        frame.member_text("type"@) != Some("ready"@) ==> ready_verdict(
            RpcEventView::Frame(frame),
            stderr,
            timeouts,
        ) == Err::<(), Seq<char>>("expected omp ready frame, got "@ + json_compact(frame)),
        ready_verdict(RpcEventView::Broken(text), stderr, timeouts) == Err::<(), Seq<char>>(text),
        stderr.len() == 0 ==> ready_verdict(RpcEventView::Closed, stderr, timeouts) == Err::<
            (),
            Seq<char>,
        >("omp rpc process closed stdout while waiting for "@ + "ready frame"@),
        stderr.len() > 0 ==> ready_verdict(RpcEventView::Closed, stderr, timeouts) == Err::<
            (),
            Seq<char>,
        >(
            "omp rpc process closed stdout while waiting for "@ + "ready frame"@ + ("; stderr: "@
                + stderr),
        ),
        stderr.len() == 0 ==> ready_verdict(RpcEventView::TimedOut, stderr, timeouts) == Err::<
            (),
            Seq<char>,
        >(
            "timed out after "@ + nat_text(timeouts.ready as nat) + "s waiting for omp rpc "@
                + "ready frame"@ + "; set "@ + "AGENTFLOW_OMP_READY_TIMEOUT_SECONDS"@
                + " to a larger number of seconds if OMP is still working"@,
        ),
        stderr.len() > 0 ==> ready_verdict(RpcEventView::TimedOut, stderr, timeouts) == Err::<
            (),
            Seq<char>,
        >(
            "timed out after "@ + nat_text(timeouts.ready as nat) + "s waiting for omp rpc "@
                + "ready frame"@ + ("; stderr: "@ + stderr) + "; set "@
                + "AGENTFLOW_OMP_READY_TIMEOUT_SECONDS"@
                + " to a larger number of seconds if OMP is still working"@,
        ),
{
    let s = "omp rpc process closed stdout while waiting for "@ + "ready frame"@;
    let t = "timed out after "@ + nat_text(timeouts.ready as nat) + "s waiting for omp rpc "@
        + "ready frame"@;
    assert(s + Seq::<char>::empty() =~= s);
    assert(t + Seq::<char>::empty() =~= t);
}

/// The error of a failed command quotes the whole answer.
pub proof fn failed_commands_quote_their_answer(answer: JsonView)
    ensures
        command_failed(answer) == "rpc command failed: "@ + json_compact(answer),
{
}

/// Identifiers hold the kind of the request and its number, and numbers follow each other.
pub proof fn identifiers_hold_their_number(kind: Seq<char>, number: u64)
    ensures
        request_id(kind, number) == kind + "-"@ + nat_text(number as nat),
        number < u64::MAX ==> number_after(number) == number + 1,
        number_after(u64::MAX) == u64::MAX,
{
}

/// A request that is written carries its identifier, is written on one line, and is otherwise what it
/// was.
pub proof fn written_requests_carry_their_identifier(exchange: ExchangeView, number: u64)
    requires
        exchange.outgoing is Object,
    ensures
        is_written(exchange, exchange.sent(number), exchange.line(number), number),
        exchange.sent(number).frames == exchange.frames,
        exchange.sent(number).retry_count == exchange.retry_count,
{
    lemma_written(exchange, number);
}

} // verus!

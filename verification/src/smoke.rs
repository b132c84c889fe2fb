//! The smoke test: whether the agent remembers within a session and forgets in a new one.

use vstd::prelude::*;

use crate::rpc::{SessionInfo, SessionInfoView};
use crate::text::{occurs_in, same_text, text_contains};

verus! {

/// What the agent is asked to remember.
pub const TOKEN: &'static str = "AGENTFLOW_SMOKE_TEST";

/// What the agent is asked in each session.
pub const QUESTION: &'static str = "What token did I ask you to remember?";

/// How far the test has come, and what it waits for.
#[derive(Debug)]
pub enum SmokeTest {
    /// Nothing has been done yet.
    Fresh,
    /// The session is being asked for.
    Inspecting,
    /// The agent is being told the token.
    Telling { initial: SessionInfo },
    /// The agent is being asked for the token.
    Asking { initial: SessionInfo },
    /// The answer of the agent is being fetched.
    Reading { initial: SessionInfo },
    /// A new session is being started.
    Renewing { initial: SessionInfo },
    /// The agent is being asked for the token in the new session.
    AskingAgain,
    /// The answer of the agent in the new session is being fetched.
    ReadingAgain,
    /// The test has passed.
    Passed,
}

/// What a [`SmokeTest`] says.
pub enum SmokeTestView {
    Fresh,
    Inspecting,
    Telling { initial: SessionInfoView },
    Asking { initial: SessionInfoView },
    Reading { initial: SessionInfoView },
    Renewing { initial: SessionInfoView },
    AskingAgain,
    ReadingAgain,
    Passed,
}

impl View for SmokeTest {
    type V = SmokeTestView;

    open spec fn view(&self) -> SmokeTestView {
        match self {
            SmokeTest::Fresh => SmokeTestView::Fresh,
            SmokeTest::Inspecting => SmokeTestView::Inspecting,
            SmokeTest::Telling { initial } => SmokeTestView::Telling { initial: initial@ },
            SmokeTest::Asking { initial } => SmokeTestView::Asking { initial: initial@ },
            SmokeTest::Reading { initial } => SmokeTestView::Reading { initial: initial@ },
            SmokeTest::Renewing { initial } => SmokeTestView::Renewing { initial: initial@ },
            SmokeTest::AskingAgain => SmokeTestView::AskingAgain,
            SmokeTest::ReadingAgain => SmokeTestView::ReadingAgain,
            SmokeTest::Passed => SmokeTestView::Passed,
        }
    }
}

/// What is to be done next.
#[derive(Debug, PartialEq, Eq)]
pub enum SmokeAction {
    /// Ask for the session; the answer is the session.
    Inspect,
    /// Send a text and wait until the agent has ended.
    Prompt(String),
    /// Fetch the agent's last answer; the answer is that text.
    Read,
    /// Start a new session; the answer is the session.
    Renew,
    /// Close the agent: the test has passed.
    Finish,
}

/// What a [`SmokeAction`] says.
pub enum SmokeActionView {
    Inspect,
    Prompt(Seq<char>),
    Read,
    Renew,
    Finish,
}

impl View for SmokeAction {
    type V = SmokeActionView;

    open spec fn view(&self) -> SmokeActionView {
        match self {
            SmokeAction::Inspect => SmokeActionView::Inspect,
            SmokeAction::Prompt(text) => SmokeActionView::Prompt(text@),
            SmokeAction::Read => SmokeActionView::Read,
            SmokeAction::Renew => SmokeActionView::Renew,
            SmokeAction::Finish => SmokeActionView::Finish,
        }
    }
}

/// The answer to an action. The first event of a test is `Done`.
#[derive(Debug)]
pub enum SmokeEvent {
    Done,
    Session(SessionInfo),
    Text(String),
}

/// What a [`SmokeEvent`] says.
pub enum SmokeEventView {
    Done,
    Session(SessionInfoView),
    Text(Seq<char>),
}

impl View for SmokeEvent {
    type V = SmokeEventView;

    open spec fn view(&self) -> SmokeEventView {
        match self {
            SmokeEvent::Done => SmokeEventView::Done,
            SmokeEvent::Session(info) => SmokeEventView::Session(info@),
            SmokeEvent::Text(text) => SmokeEventView::Text(text@),
        }
    }
}

/// The step that follows an event: the test and the action after it, or the error that the test
/// fails with.
pub open spec fn smoke_next(test: SmokeTestView, event: SmokeEventView) -> Result<
    (SmokeTestView, SmokeActionView),
    Seq<char>,
> {
    match (test, event) {
        (SmokeTestView::Fresh, SmokeEventView::Done) => Ok(
            (SmokeTestView::Inspecting, SmokeActionView::Inspect),
        ),
        (SmokeTestView::Inspecting, SmokeEventView::Session(initial)) => Ok(
            (
                SmokeTestView::Telling { initial },
                SmokeActionView::Prompt("Remember "@ + TOKEN@ + "."@),
            ),
        ),
        (SmokeTestView::Telling { initial }, SmokeEventView::Done) => Ok(
            (SmokeTestView::Asking { initial }, SmokeActionView::Prompt(QUESTION@)),
        ),
        (SmokeTestView::Asking { initial }, SmokeEventView::Done) => Ok(
            (SmokeTestView::Reading { initial }, SmokeActionView::Read),
        ),
        (SmokeTestView::Reading { initial }, SmokeEventView::Text(text)) => if occurs_in(
            text,
            TOKEN@,
        ) {
            Ok((SmokeTestView::Renewing { initial }, SmokeActionView::Renew))
        } else {
            Err(
                "same-session smoke test failed; response did not contain "@ + TOKEN@ + ": "@
                    + text,
            )
        },
        (SmokeTestView::Renewing { initial }, SmokeEventView::Session(current)) => if current.session_id
            == initial.session_id {
            Err("new_session did not change sessionId"@)
        } else {
            Ok((SmokeTestView::AskingAgain, SmokeActionView::Prompt(QUESTION@)))
        },
        (SmokeTestView::AskingAgain, SmokeEventView::Done) => Ok(
            (SmokeTestView::ReadingAgain, SmokeActionView::Read),
        ),
        (SmokeTestView::ReadingAgain, SmokeEventView::Text(text)) => if occurs_in(
            text,
            TOKEN@,
        ) {
            Err("new-session smoke test failed; response still contained prior token: "@ + text)
        } else {
            Ok((SmokeTestView::Passed, SmokeActionView::Finish))
        },
        _ => Err("the event does not answer the last action"@),
    }
}

/// What a step comes to.
pub open spec fn smoke_outcome(result: Result<(SmokeTest, SmokeAction), String>) -> Result<
    (SmokeTestView, SmokeActionView),
    Seq<char>,
> {
    match result {
        Ok(step) => Ok((step.0@, step.1@)),
        Err(error) => Err(error@),
    }
}

impl SmokeTest {
    /// Takes the answer to the last action and decides what is done next.
    pub fn step(self, event: SmokeEvent) -> (result: Result<(SmokeTest, SmokeAction), String>)
        ensures
            smoke_outcome(result) == smoke_next(self@, event@),
    {
        match (self, event) {
            (SmokeTest::Fresh, SmokeEvent::Done) => Ok(
                (SmokeTest::Inspecting, SmokeAction::Inspect),
            ),
            (SmokeTest::Inspecting, SmokeEvent::Session(initial)) => {
                let text = "Remember ".to_owned().concat(TOKEN).concat(".");
                Ok((SmokeTest::Telling { initial }, SmokeAction::Prompt(text)))
            },
            (SmokeTest::Telling { initial }, SmokeEvent::Done) => Ok(
                (SmokeTest::Asking { initial }, SmokeAction::Prompt(QUESTION.to_owned())),
            ),
            (SmokeTest::Asking { initial }, SmokeEvent::Done) => Ok(
                (SmokeTest::Reading { initial }, SmokeAction::Read),
            ),
            (SmokeTest::Reading { initial }, SmokeEvent::Text(text)) => {
                if !text_contains(text.as_str(), TOKEN) {
                    return Err(
                        "same-session smoke test failed; response did not contain ".to_owned().concat(
                            TOKEN,
                        ).concat(": ").concat(text.as_str()),
                    );
                }
                Ok((SmokeTest::Renewing { initial }, SmokeAction::Renew))
            },
            (SmokeTest::Renewing { initial }, SmokeEvent::Session(current)) => {
                if same_text(current.session_id.as_str(), initial.session_id.as_str()) {
                    return Err("new_session did not change sessionId".to_owned());
                }
                Ok((SmokeTest::AskingAgain, SmokeAction::Prompt(QUESTION.to_owned())))
            },
            (SmokeTest::AskingAgain, SmokeEvent::Done) => Ok(
                (SmokeTest::ReadingAgain, SmokeAction::Read),
            ),
            (SmokeTest::ReadingAgain, SmokeEvent::Text(text)) => {
                if text_contains(text.as_str(), TOKEN) {
                    return Err(
                        "new-session smoke test failed; response still contained prior token: ".to_owned().concat(
                            text.as_str(),
                        ),
                    );
                }
                Ok((SmokeTest::Passed, SmokeAction::Finish))
            },
            _ => Err("the event does not answer the last action".to_owned()),
        }
    }
}

/// Where a test is after some events; nowhere where it has failed.
pub open spec fn smoke_reached(events: Seq<SmokeEventView>) -> Option<SmokeTestView>
    decreases events.len(),
{
    if events.len() == 0 {
        Some(SmokeTestView::Fresh)
    } else {
        match smoke_reached(events.drop_last()) {
            None => None,
            Some(test) => match smoke_next(test, events.last()) {
                Ok(step) => Some(step.0),
                Err(_) => None,
            },
        }
    }
}

/// A test that passes has seen the token in the first session, has then seen a session with another
/// identifier, and has not seen the token there.
pub proof fn a_passed_test_saw_both_sessions(events: Seq<SmokeEventView>)
    requires
        smoke_reached(events) == Some(SmokeTestView::Passed),
    ensures
        events.len() == 8,
        events[1] is Session,
        events[4] matches SmokeEventView::Text(text) && occurs_in(text, TOKEN@),
        events[5] matches SmokeEventView::Session(current) && current.session_id
            != events[1]->Session_0.session_id,
        events[7] matches SmokeEventView::Text(text) && !occurs_in(text, TOKEN@),
{
    reveal_with_fuel(smoke_reached, 9);
    let before_second_text = events.drop_last();
    let before_second_question = before_second_text.drop_last();
    let before_renewal = before_second_question.drop_last();
    let before_text = before_renewal.drop_last();
    let before_question = before_text.drop_last();
    let before_telling = before_question.drop_last();
    let before_session = before_telling.drop_last();
    assert(smoke_reached(before_second_text) == Some(SmokeTestView::ReadingAgain));
    assert(smoke_reached(before_second_question) is Some);
    assert(smoke_reached(before_renewal) is Some);
    assert(smoke_reached(before_text) is Some);
    assert(smoke_reached(before_question) is Some);
    assert(smoke_reached(before_telling) is Some);
    assert(smoke_reached(before_session) is Some);
}

/// What the test asks of the agent: its session, to remember a token, which token that was, its
/// answer, a new session, the same question and the answer again. It fails where the token is not
/// remembered, where the session has not changed, and where the token is still known then.
pub proof fn the_test_asks_twice(initial: SessionInfoView, current: SessionInfoView, text: Seq<char>)
    ensures
        smoke_next(SmokeTestView::Fresh, SmokeEventView::Done) == Ok::<
            (SmokeTestView, SmokeActionView),
            Seq<char>,
        >((SmokeTestView::Inspecting, SmokeActionView::Inspect)),
        smoke_next(SmokeTestView::Inspecting, SmokeEventView::Session(initial)) == Ok::<
            (SmokeTestView, SmokeActionView),
            Seq<char>,
        >(
            (
                SmokeTestView::Telling { initial },
                SmokeActionView::Prompt("Remember "@ + "AGENTFLOW_SMOKE_TEST"@ + "."@),
            ),
        ),
        smoke_next((SmokeTestView::Telling { initial }), SmokeEventView::Done) == Ok::<
            (SmokeTestView, SmokeActionView),
            Seq<char>,
        >(
            (
                SmokeTestView::Asking { initial },
                SmokeActionView::Prompt("What token did I ask you to remember?"@),
            ),
        ),
        smoke_next((SmokeTestView::Asking { initial }), SmokeEventView::Done) == Ok::<
            (SmokeTestView, SmokeActionView),
            Seq<char>,
        >((SmokeTestView::Reading { initial }, SmokeActionView::Read)),
        occurs_in(text, "AGENTFLOW_SMOKE_TEST"@) ==> smoke_next(
            (SmokeTestView::Reading { initial }),
            SmokeEventView::Text(text),
        ) == Ok::<(SmokeTestView, SmokeActionView), Seq<char>>(
            (SmokeTestView::Renewing { initial }, SmokeActionView::Renew),
        ),
        !occurs_in(text, "AGENTFLOW_SMOKE_TEST"@) ==> smoke_next(
            (SmokeTestView::Reading { initial }),
            SmokeEventView::Text(text),
        ) == Err::<(SmokeTestView, SmokeActionView), Seq<char>>(
            "same-session smoke test failed; response did not contain "@ + "AGENTFLOW_SMOKE_TEST"@
                + ": "@ + text,
        ),
        current.session_id != initial.session_id ==> smoke_next(
            (SmokeTestView::Renewing { initial }),
            SmokeEventView::Session(current),
        ) == Ok::<(SmokeTestView, SmokeActionView), Seq<char>>(
            (
                SmokeTestView::AskingAgain,
                SmokeActionView::Prompt("What token did I ask you to remember?"@),
            ),
        ),
        current.session_id == initial.session_id ==> smoke_next(
            (SmokeTestView::Renewing { initial }),
            SmokeEventView::Session(current),
        ) == Err::<(SmokeTestView, SmokeActionView), Seq<char>>(
            "new_session did not change sessionId"@,
        ),
        smoke_next(SmokeTestView::AskingAgain, SmokeEventView::Done) == Ok::<
            (SmokeTestView, SmokeActionView),
            Seq<char>,
        >((SmokeTestView::ReadingAgain, SmokeActionView::Read)),
        !occurs_in(text, "AGENTFLOW_SMOKE_TEST"@) ==> smoke_next(
            SmokeTestView::ReadingAgain,
            SmokeEventView::Text(text),
        ) == Ok::<(SmokeTestView, SmokeActionView), Seq<char>>(
            (SmokeTestView::Passed, SmokeActionView::Finish),
        ),
        occurs_in(text, "AGENTFLOW_SMOKE_TEST"@) ==> smoke_next(
            SmokeTestView::ReadingAgain,
            SmokeEventView::Text(text),
        ) == Err::<(SmokeTestView, SmokeActionView), Seq<char>>(
            "new-session smoke test failed; response still contained prior token: "@ + text,
        ),
{
}

/// An agent that remembers the token within its session, changes the session when it is told to and
/// does not know the token there passes the test.
pub proof fn agents_that_remember_and_forget_pass(
    initial: SessionInfoView,
    current: SessionInfoView,
    first: Seq<char>,
    second: Seq<char>,
)
    requires
        current.session_id != initial.session_id,
        occurs_in(first, "AGENTFLOW_SMOKE_TEST"@),
        !occurs_in(second, "AGENTFLOW_SMOKE_TEST"@),
    ensures
        smoke_reached(
            seq![
                SmokeEventView::Done,
                SmokeEventView::Session(initial),
                SmokeEventView::Done,
                SmokeEventView::Done,
                SmokeEventView::Text(first),
                SmokeEventView::Session(current),
                SmokeEventView::Done,
                SmokeEventView::Text(second),
            ],
        ) == Some(SmokeTestView::Passed),
{
    let all = seq![
        SmokeEventView::Done,
        SmokeEventView::Session(initial),
        SmokeEventView::Done,
        SmokeEventView::Done,
        SmokeEventView::Text(first),
        SmokeEventView::Session(current),
        SmokeEventView::Done,
        SmokeEventView::Text(second),
    ];
    assert(smoke_reached(all.take(0)) == Some(SmokeTestView::Fresh));
    assert(all.take(1).drop_last() =~= all.take(0));
    assert(all.take(2).drop_last() =~= all.take(1));
    assert(all.take(3).drop_last() =~= all.take(2));
    assert(all.take(4).drop_last() =~= all.take(3));
    assert(all.take(5).drop_last() =~= all.take(4));
    assert(all.take(6).drop_last() =~= all.take(5));
    assert(all.take(7).drop_last() =~= all.take(6));
    assert(all.drop_last() =~= all.take(7));
    assert(smoke_reached(all.take(1)) == Some(SmokeTestView::Inspecting));
    assert(smoke_reached(all.take(2)) == Some(SmokeTestView::Telling { initial }));
    assert(smoke_reached(all.take(3)) == Some(SmokeTestView::Asking { initial }));
    assert(smoke_reached(all.take(4)) == Some(SmokeTestView::Reading { initial }));
    assert(smoke_reached(all.take(5)) == Some(SmokeTestView::Renewing { initial }));
    assert(smoke_reached(all.take(6)) == Some(SmokeTestView::AskingAgain));
    assert(smoke_reached(all.take(7)) == Some(SmokeTestView::ReadingAgain));
}

/// An event that does not answer the last action fails the test.
pub proof fn other_events_fail_the_test(test: SmokeTestView, event: SmokeEventView)
    requires
        event is Done ==> !(test is Fresh || test is Telling || test is Asking || test
            is AskingAgain),
        event is Session ==> !(test is Inspecting || test is Renewing),
        event is Text ==> !(test is Reading || test is ReadingAgain),
    ensures
        smoke_next(test, event) == Err::<(SmokeTestView, SmokeActionView), Seq<char>>(
            "the event does not answer the last action"@,
        ),
{
}

} // verus!

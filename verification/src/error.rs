//! The errors of configuration, loop planning and rendering.

use vstd::prelude::*;

use crate::text::{join, joined, texts};

verus! {

/// Why a configuration could not be loaded, checked or expanded.
#[derive(Debug)]
pub enum AgentFlowError {
    ConfigValidation(String),
    Loop(String),
    Io(String),
    Json(String),
    Yaml(String),
    Render(String),
}

/// What an [`AgentFlowError`] says.
pub enum ErrorView {
    ConfigValidation(Seq<char>),
    Loop(Seq<char>),
    Io(Seq<char>),
    Json(Seq<char>),
    Yaml(Seq<char>),
    Render(Seq<char>),
}

impl ErrorView {
    /// The message shown to the user.
    pub open spec fn message(self) -> Seq<char> {
        match self {
            ErrorView::ConfigValidation(text) => "configuration validation failed:\n"@ + text,
            ErrorView::Loop(text) => "loop error: "@ + text,
            ErrorView::Io(text) => "I/O error: "@ + text,
            ErrorView::Json(text) => "JSON error: "@ + text,
            ErrorView::Yaml(text) => "YAML error: "@ + text,
            ErrorView::Render(text) => "render error: "@ + text,
        }
    }
}

impl View for AgentFlowError {
    type V = ErrorView;

    open spec fn view(&self) -> ErrorView {
        match self {
            AgentFlowError::ConfigValidation(text) => ErrorView::ConfigValidation(text@),
            AgentFlowError::Loop(text) => ErrorView::Loop(text@),
            AgentFlowError::Io(text) => ErrorView::Io(text@),
            AgentFlowError::Json(text) => ErrorView::Json(text@),
            AgentFlowError::Yaml(text) => ErrorView::Yaml(text@),
            AgentFlowError::Render(text) => ErrorView::Render(text@),
        }
    }
}

/// A result, with its value and its error taken by their views.
pub open spec fn outcome<T: View, E: View>(result: Result<T, E>) -> Result<T::V, E::V> {
    match result {
        Ok(value) => Ok(value@),
        Err(error) => Err(error@),
    }
}

/// What is known of a failure: the error itself, or only that a template did not render. Which text a
/// render error carries is left open.
pub enum Failure<E> {
    Told(E),
    Render,
}

/// Whether an error is one that a failure allows.
pub open spec fn error_fits(error: ErrorView, failure: Failure<ErrorView>) -> bool {
    match failure {
        Failure::Told(told) => error == told,
        Failure::Render => error is Render,
    }
}

/// Whether a text is the message of a render error, behind `before`.
pub open spec fn tells_render_error(text: Seq<char>, before: Seq<char>) -> bool {
    exists|rest: Seq<char>| text == before + #[trigger] ErrorView::Render(rest).message()
}

/// Whether a message is one that a failure allows.
pub open spec fn message_fits(text: Seq<char>, failure: Failure<Seq<char>>) -> bool {
    match failure {
        Failure::Told(told) => text == told,
        Failure::Render => tells_render_error(text, Seq::empty()),
    }
}

/// The message of a failure.
pub open spec fn failure_message(failure: Failure<ErrorView>) -> Failure<Seq<char>> {
    match failure {
        Failure::Told(error) => Failure::Told(error.message()),
        Failure::Render => Failure::Render,
    }
}

/// The message of an error is one that its failure allows.
pub proof fn lemma_message_fits(error: ErrorView, failure: Failure<ErrorView>)
    requires
        error_fits(error, failure),
    ensures
        message_fits(error.message(), failure_message(failure)),
{
    if let ErrorView::Render(rest) = error {
        assert(error.message() =~= Seq::<char>::empty() + ErrorView::Render(rest).message());
    }
}

impl AgentFlowError {
    /// The error of a configuration with the given mistakes, one to a line.
    pub fn config_validation(errors: Vec<String>) -> (error: Self)
        ensures
            error@ == ErrorView::ConfigValidation(joined(texts(errors@), "\n"@)),
    {
        AgentFlowError::ConfigValidation(join(&errors, "\n"))
    }

    /// The message shown to the user.
    pub fn message(&self) -> (text: String)
        ensures
            text@ == self@.message(),
    {
        match self {
            AgentFlowError::ConfigValidation(text) => "configuration validation failed:\n".to_owned().concat(
                text.as_str(),
            ),
            AgentFlowError::Loop(text) => "loop error: ".to_owned().concat(text.as_str()),
            AgentFlowError::Io(text) => "I/O error: ".to_owned().concat(text.as_str()),
            AgentFlowError::Json(text) => "JSON error: ".to_owned().concat(text.as_str()),
            AgentFlowError::Yaml(text) => "YAML error: ".to_owned().concat(text.as_str()),
            AgentFlowError::Render(text) => "render error: ".to_owned().concat(text.as_str()),
        }
    }
}

} // verus!

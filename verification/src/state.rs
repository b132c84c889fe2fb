//! The state of a run that is kept on disk.

use vstd::prelude::*;

use crate::text::opt_text;

verus! {

/// The saved state of a run.
#[derive(Debug, PartialEq, Eq)]
pub struct State {
    pub schema_version: u32,
    pub run_id: String,
    pub status: RunStatus,
    pub repo_root: String,
    pub config_path: String,
    pub current: CurrentState,
    pub pending_control: Option<ControlEvent>,
    pub last_error: Option<String>,
}

/// Where a run stands.
#[derive(Debug, Clone, Copy, PartialEq, Eq, Structural)]
pub enum RunStatus {
    Running,
    Paused,
    Halted,
    Failed,
    Completed,
}

/// The item and the prompt that a run has come to.
#[derive(Debug, PartialEq, Eq)]
pub struct CurrentState {
    pub counter: i64,
    pub item_id: String,
    pub iteration: u64,
    pub prompt_index: usize,
    pub prompt_id: String,
    pub session_id: Option<String>,
    pub session_file: Option<String>,
}

/// A request of the agent to pause or to halt the run.
#[derive(Debug, PartialEq, Eq)]
pub enum ControlEvent {
    Notify { message: String, item_id: Option<String>, counter: Option<i64> },
    Halt { message: String, item_id: Option<String>, counter: Option<i64> },
}

/// What a [`CurrentState`] says.
pub struct CurrentStateView {
    pub counter: i64,
    pub item_id: Seq<char>,
    pub iteration: u64,
    pub prompt_index: int,
    pub prompt_id: Seq<char>,
    pub session_id: Option<Seq<char>>,
    pub session_file: Option<Seq<char>>,
}

/// What a [`ControlEvent`] says.
pub enum ControlEventView {
    Notify { message: Seq<char>, item_id: Option<Seq<char>>, counter: Option<i64> },
    Halt { message: Seq<char>, item_id: Option<Seq<char>>, counter: Option<i64> },
}

/// What a [`State`] says.
pub struct StateView {
    pub schema_version: u32,
    pub run_id: Seq<char>,
    pub status: RunStatus,
    pub repo_root: Seq<char>,
    pub config_path: Seq<char>,
    pub current: CurrentStateView,
    pub pending_control: Option<ControlEventView>,
    pub last_error: Option<Seq<char>>,
}

impl View for CurrentState {
    type V = CurrentStateView;

    open spec fn view(&self) -> CurrentStateView {
        CurrentStateView {
            counter: self.counter,
            item_id: self.item_id@,
            iteration: self.iteration,
            prompt_index: self.prompt_index as int,
            prompt_id: self.prompt_id@,
            session_id: opt_text(self.session_id),
            session_file: opt_text(self.session_file),
        }
    }
}

impl View for ControlEvent {
    type V = ControlEventView;

    open spec fn view(&self) -> ControlEventView {
        match self {
            ControlEvent::Notify { message, item_id, counter } => ControlEventView::Notify {
                message: message@,
                item_id: opt_text(*item_id),
                counter: *counter,
            },
            ControlEvent::Halt { message, item_id, counter } => ControlEventView::Halt {
                message: message@,
                item_id: opt_text(*item_id),
                counter: *counter,
            },
        }
    }
}

/// What an optional event says.
pub open spec fn opt_event(event: Option<ControlEvent>) -> Option<ControlEventView> {
    match event {
        Some(e) => Some(e@),
        None => None,
    }
}

impl View for State {
    type V = StateView;

    open spec fn view(&self) -> StateView {
        StateView {
            schema_version: self.schema_version,
            run_id: self.run_id@,
            status: self.status,
            repo_root: self.repo_root@,
            config_path: self.config_path@,
            current: self.current@,
            pending_control: opt_event(self.pending_control),
            last_error: opt_text(self.last_error),
        }
    }
}

/// A copy of an optional string.
pub fn copy_text(text: &Option<String>) -> (copy: Option<String>)
    ensures
        copy == *text,
{
    match text {
        Some(t) => Some(t.clone()),
        None => None,
    }
}

impl Clone for CurrentState {
    fn clone(&self) -> (copy: Self)
        ensures
            copy == *self,
    {
        CurrentState {
            counter: self.counter,
            item_id: self.item_id.clone(),
            iteration: self.iteration,
            prompt_index: self.prompt_index,
            prompt_id: self.prompt_id.clone(),
            session_id: copy_text(&self.session_id),
            session_file: copy_text(&self.session_file),
        }
    }
}

impl Clone for ControlEvent {
    fn clone(&self) -> (copy: Self)
        ensures
            copy == *self,
    {
        match self {
            ControlEvent::Notify { message, item_id, counter } => ControlEvent::Notify {
                message: message.clone(),
                item_id: copy_text(item_id),
                counter: *counter,
            },
            ControlEvent::Halt { message, item_id, counter } => ControlEvent::Halt {
                message: message.clone(),
                item_id: copy_text(item_id),
                counter: *counter,
            },
        }
    }
}

/// The name of a status in messages.
pub open spec fn status_text(status: RunStatus) -> Seq<char> {
    match status {
        RunStatus::Running => "Running"@,
        RunStatus::Paused => "Paused"@,
        RunStatus::Halted => "Halted"@,
        RunStatus::Failed => "Failed"@,
        RunStatus::Completed => "Completed"@,
    }
}

/// The name of a status in messages.
pub fn status_name(status: RunStatus) -> (name: &'static str)
    ensures
        name@ == status_text(status),
{
    match status {
        RunStatus::Running => "Running",
        RunStatus::Paused => "Paused",
        RunStatus::Halted => "Halted",
        RunStatus::Failed => "Failed",
        RunStatus::Completed => "Completed",
    }
}

/// The name of a status in records and files.
pub open spec fn status_tag(status: RunStatus) -> Seq<char> {
    match status {
        RunStatus::Running => "running"@,
        RunStatus::Paused => "paused"@,
        RunStatus::Halted => "halted"@,
        RunStatus::Failed => "failed"@,
        RunStatus::Completed => "completed"@,
    }
}

/// The name of a status in records and files.
pub fn status_tag_name(status: RunStatus) -> (name: &'static str)
    ensures
        name@ == status_tag(status),
{
    match status {
        RunStatus::Running => "running",
        RunStatus::Paused => "paused",
        RunStatus::Halted => "halted",
        RunStatus::Failed => "failed",
        RunStatus::Completed => "completed",
    }
}

} // verus!

//! What passes between an operation and the caller that carries it out.
//!
//! An operation is run by turns. The caller hands in the progress so far and
//! the event that just happened; the operation answers with a [`Step`]: the
//! progress to come back with, a line to print, and what to do next.

use crate::command::{Command, CommandView};
use crate::config::text_of;
use crate::failure::{Failure, FailureView, LookupFailure, LookupFailureView};
use vstd::prelude::*;

verus! {

/// How a program that was started came to its end.
#[derive(Clone, Debug, PartialEq, Eq)]
pub struct Exit {
    /// Its exit code; `None` where it ended without one, as when a signal
    /// ended it.
    pub code: Option<i32>,
    /// The way the system describes its exit status.
    pub status: String,
    /// What it wrote to its output, where that was collected.
    pub stdout: Vec<u8>,
}

/// Mathematical value of an [`Exit`].
pub ghost struct ExitView {
    pub code: Option<i32>,
    pub status: Seq<char>,
    pub stdout: Seq<u8>,
}

impl View for Exit {
    type V = ExitView;

    open spec fn view(&self) -> ExitView {
        ExitView { code: self.code, status: self.status@, stdout: self.stdout@ }
    }
}

impl ExitView {
    /// Whether the program succeeded: it ended with exit code zero.
    pub open spec fn success(self) -> bool {
        self.code == Some(0i32)
    }
}

impl Exit {
    /// Whether the program succeeded: it ended with exit code zero.
    pub fn success(&self) -> (zero: bool)
        ensures
            zero == self@.success(),
    {
        match self.code {
            Some(code) => code == 0,
            None => false,
        }
    }
}

/// What the caller reports back.
#[derive(Debug, PartialEq, Eq)]
pub enum Event {
    /// Nothing yet: the operation is to begin.
    Begin,
    /// The lookup that was asked for gave this.
    Looked(Result<String, LookupFailure>),
    /// The command that was asked for ended like this, or, with `None`, could
    /// not be started.
    Ran(Option<Exit>),
}

/// Mathematical value of an [`Event`].
pub ghost enum EventView {
    Begin,
    Looked(Result<Seq<char>, LookupFailureView>),
    Ran(Option<ExitView>),
}

impl EventView {
    /// How the command ended, where the event reports a command that ran.
    pub open spec fn exit(self) -> Option<ExitView> {
        match self {
            EventView::Ran(ran) => ran,
            _ => None,
        }
    }
}

impl View for Event {
    type V = EventView;

    open spec fn view(&self) -> EventView {
        match self {
            Event::Begin => EventView::Begin,
            Event::Looked(Ok(text)) => EventView::Looked(Ok(text@)),
            Event::Looked(Err(failure)) => EventView::Looked(Err(failure@)),
            Event::Ran(Some(exit)) => EventView::Ran(Some(exit@)),
            Event::Ran(None) => EventView::Ran(None),
        }
    }
}

/// How far an operation has come: what it is waiting for, and the name it
/// works on once that is known.
#[derive(Clone, Debug, PartialEq, Eq)]
pub enum Progress {
    /// Nothing has been done.
    Start,
    /// The name was asked for from `package.json`.
    AwaitingName,
    /// `git rev-parse --is-inside-work-tree` was asked for.
    AwaitingWorkTree(String),
    /// `git remote -v` was asked for.
    AwaitingRemotes(String),
    /// `git init` was asked for.
    AwaitingInit(String),
    /// `gh repo create` was asked for.
    AwaitingCreate(String),
    /// `git remote add origin` was asked for.
    AwaitingOrigin(String),
    /// `gh repo delete` was asked for.
    AwaitingDelete,
    /// The operation has ended.
    Finished,
}

/// Mathematical value of a [`Progress`].
pub ghost enum ProgressView {
    Start,
    AwaitingName,
    AwaitingWorkTree(Seq<char>),
    AwaitingRemotes(Seq<char>),
    AwaitingInit(Seq<char>),
    AwaitingCreate(Seq<char>),
    AwaitingOrigin(Seq<char>),
    AwaitingDelete,
    Finished,
}

impl ProgressView {
    /// Whether `event` answers what this progress is waiting for.
    pub open spec fn awaits(self, event: EventView) -> bool {
        match self {
            ProgressView::Start => event is Begin,
            ProgressView::AwaitingName => event is Looked,
            ProgressView::Finished => false,
            _ => event is Ran,
        }
    }
}

impl View for Progress {
    type V = ProgressView;

    open spec fn view(&self) -> ProgressView {
        match self {
            Progress::Start => ProgressView::Start,
            Progress::AwaitingName => ProgressView::AwaitingName,
            Progress::AwaitingWorkTree(name) => ProgressView::AwaitingWorkTree(name@),
            Progress::AwaitingRemotes(name) => ProgressView::AwaitingRemotes(name@),
            Progress::AwaitingInit(name) => ProgressView::AwaitingInit(name@),
            Progress::AwaitingCreate(name) => ProgressView::AwaitingCreate(name@),
            Progress::AwaitingOrigin(name) => ProgressView::AwaitingOrigin(name@),
            Progress::AwaitingDelete => ProgressView::AwaitingDelete,
            Progress::Finished => ProgressView::Finished,
        }
    }
}

/// What the caller is to do next.
#[derive(Debug, PartialEq, Eq)]
pub enum Action {
    /// Read the string under `key` from the JSON file at `path`, and report
    /// it with [`Event::Looked`].
    Lookup { path: String, key: String },
    /// Run the command, and report how it ended with [`Event::Ran`].
    Run(Command),
    /// Stop: the operation has succeeded or failed.
    Stop(Result<(), Failure>),
}

/// Mathematical value of an [`Action`].
pub ghost enum ActionView {
    Lookup { path: Seq<char>, key: Seq<char> },
    Run(CommandView),
    Stop(Result<(), FailureView>),
}

impl View for Action {
    type V = ActionView;

    open spec fn view(&self) -> ActionView {
        match self {
            Action::Lookup { path, key } => ActionView::Lookup { path: path@, key: key@ },
            Action::Run(command) => ActionView::Run(command@),
            Action::Stop(Ok(_)) => ActionView::Stop(Ok(())),
            Action::Stop(Err(failure)) => ActionView::Stop(Err(failure@)),
        }
    }
}

/// One turn of an operation.
#[derive(Debug, PartialEq, Eq)]
pub struct Step {
    /// The progress to hand in with the next event.
    pub state: Progress,
    /// A line to print before acting.
    pub notice: Option<String>,
    /// What to do.
    pub action: Action,
}

/// Mathematical value of a [`Step`].
pub ghost struct StepView {
    pub state: ProgressView,
    pub notice: Option<Seq<char>>,
    pub action: ActionView,
}

impl View for Step {
    type V = StepView;

    open spec fn view(&self) -> StepView {
        StepView { state: self.state@, notice: text_of(self.notice), action: self.action@ }
    }
}

/// Whether a turn and its model agree: both absent, or both the same step.
pub open spec fn turn_agrees(turn: Option<Step>, model: Option<StepView>) -> bool {
    match turn {
        Some(step) => model == Some(step@),
        None => model is None,
    }
}

impl StepView {
    /// The step that ends an operation in `failure`.
    pub open spec fn fail(failure: FailureView) -> StepView {
        StepView {
            state: ProgressView::Finished,
            notice: None,
            action: ActionView::Stop(Err(failure)),
        }
    }

    /// The step that ends an operation in success, printing `notice`.
    pub open spec fn succeed(notice: Option<Seq<char>>) -> StepView {
        StepView { state: ProgressView::Finished, notice, action: ActionView::Stop(Ok(())) }
    }

    /// The step that asks for a command.
    pub open spec fn run(
        state: ProgressView,
        notice: Option<Seq<char>>,
        command: CommandView,
    ) -> StepView {
        StepView { state, notice, action: ActionView::Run(command) }
    }

    /// The step that asks for the `name` of `package.json`.
    pub open spec fn ask_name() -> StepView {
        StepView {
            state: ProgressView::AwaitingName,
            notice: None,
            action: ActionView::Lookup { path: "package.json"@, key: "name"@ },
        }
    }

    /// Whether this step ends the operation.
    pub open spec fn is_last(self) -> bool {
        self.action is Stop
    }
}

impl Step {
    /// The step that ends an operation in `failure`.
    pub fn fail(failure: Failure) -> (step: Step)
        ensures
            step@ == StepView::fail(failure@),
    {
        Step { state: Progress::Finished, notice: None, action: Action::Stop(Err(failure)) }
    }

    /// The step that ends an operation in success, printing `notice`.
    pub fn succeed(notice: Option<String>) -> (step: Step)
        ensures
            step@ == StepView::succeed(text_of(notice)),
    {
        Step { state: Progress::Finished, notice, action: Action::Stop(Ok(())) }
    }

    /// The step that asks for a command.
    pub fn run(state: Progress, notice: Option<String>, command: Command) -> (step: Step)
        ensures
            step@ == StepView::run(state@, text_of(notice), command@),
    {
        Step { state, notice, action: Action::Run(command) }
    }

    /// The step that asks for the `name` of `package.json`.
    pub fn ask_name() -> (step: Step)
        ensures
            step@ == StepView::ask_name(),
    {
        Step {
            state: Progress::AwaitingName,
            notice: None,
            action: Action::Lookup {
                path: String::from_str("package.json"),
                key: String::from_str("name"),
            },
        }
    }
}

} // verus!

//! The three operations, each as a function from progress and event to the
//! next step.
//!
//! A caller starts with [`Progress::Start`] and [`Event::Begin`], carries out
//! the action of each step, and comes back with the step's progress and the
//! event that reports what happened, until a step says to stop. An event that
//! does not answer what the progress is waiting for gets no step.

use crate::command::{origin_url, repo_url, Command, CommandView};
use crate::config::{text_of, Config, ConfigView};
use crate::failure::{Call, Failure, FailureView, Field, Wanted};
use crate::session::{
    turn_agrees, Event, EventView, Exit, ExitView, Progress, ProgressView, Step, StepView,
};
use crate::text::{lists_remote, names_remote};
use vstd::prelude::*;

verus! {

/// The line printed before a working tree is created.
pub open spec fn no_tree_notice() -> Seq<char> {
    "No local repo detected, creating one for you..."@
}

/// The line printed before the remote repository is created.
pub open spec fn attempt_notice(name: Seq<char>) -> Seq<char> {
    "Attempting to create new repo "@ + name
}

/// The line printed once the remote repository is set up.
pub open spec fn created_notice(name: Seq<char>) -> Seq<char> {
    "Successfully created remote repo "@ + name
}

/// The line printed once the subdomain is set up.
pub open spec fn subdomain_notice(name: Seq<char>) -> Seq<char> {
    "Successfully created subdomain "@ + name + " at CONFIG_FILE_HOST_STRING"@
}

/// The step that asks whether the current directory is a working tree.
pub open spec fn query_tree(name: Seq<char>) -> StepView {
    StepView::run(ProgressView::AwaitingWorkTree(name), None, CommandView::work_tree_query())
}

/// The step that asks for the remote repository to be created.
pub open spec fn request_create(name: Seq<char>, public: bool) -> StepView {
    StepView::run(
        ProgressView::AwaitingCreate(name),
        Some(attempt_notice(name)),
        CommandView::create(name, public),
    )
}

/// The step after `gh repo create` has ended.
pub open spec fn after_create(cfg: ConfigView, name: Seq<char>, exit: ExitView) -> StepView {
    if !exit.success() {
        StepView::fail(FailureView::CommandFailed(Call::Create, exit.code, exit.status))
    } else {
        match cfg.gh_username {
            None => StepView::fail(FailureView::MissingField(Field::GithubUsername)),
            Some(account) => StepView::run(
                ProgressView::AwaitingOrigin(name),
                None,
                CommandView::add_origin(repo_url(account, name)),
            ),
        }
    }
}

/// One turn of creating a remote repository for the current directory.
///
/// The name is the one given, or else the `name` of `package.json`. A
/// directory that is a working tree must not have a remote called `origin`;
/// one that is no working tree is made one first. Then the remote repository
/// is created, and added to the working tree as `origin` under the account
/// of the configuration.
pub open spec fn repo_step(
    cfg: ConfigView,
    input: Option<Seq<char>>,
    public: bool,
    state: ProgressView,
    event: EventView,
) -> Option<StepView> {
    match (state, event) {
        (ProgressView::Start, EventView::Begin) => match input {
            Some(name) => Some(query_tree(name)),
            None => Some(StepView::ask_name()),
        },
        (ProgressView::AwaitingName, EventView::Looked(found)) => match found {
            Ok(name) => Some(query_tree(name)),
            Err(cause) => Some(StepView::fail(FailureView::NoName(Wanted::Repo, cause))),
        },
        (ProgressView::AwaitingWorkTree(name), EventView::Ran(ran)) => match ran {
            None => Some(StepView::fail(FailureView::CommandExec(Call::WorkTree))),
            Some(exit) => if exit.success() {
                Some(
                    StepView::run(
                        ProgressView::AwaitingRemotes(name),
                        None,
                        CommandView::remote_listing(),
                    ),
                )
            } else {
                Some(
                    StepView::run(
                        ProgressView::AwaitingInit(name),
                        Some(no_tree_notice()),
                        CommandView::init(),
                    ),
                )
            },
        },
        (ProgressView::AwaitingRemotes(name), EventView::Ran(ran)) => match ran {
            None => Some(StepView::fail(FailureView::CommandExec(Call::Remotes))),
            Some(exit) => if lists_remote(exit.stdout, "origin"@) {
                Some(StepView::fail(FailureView::DuplicateRemote))
            } else {
                Some(request_create(name, public))
            },
        },
        (ProgressView::AwaitingInit(name), EventView::Ran(ran)) => match ran {
            None => Some(StepView::fail(FailureView::CommandExec(Call::Init))),
            Some(_) => Some(request_create(name, public)),
        },
        (ProgressView::AwaitingCreate(name), EventView::Ran(ran)) => match ran {
            None => Some(StepView::fail(FailureView::CommandExec(Call::Create))),
            Some(exit) => Some(after_create(cfg, name, exit)),
        },
        (ProgressView::AwaitingOrigin(name), EventView::Ran(ran)) => match ran {
            None => Some(StepView::fail(FailureView::CommandExec(Call::AddOrigin))),
            Some(exit) => if exit.success() {
                Some(StepView::succeed(Some(created_notice(name))))
            } else {
                Some(
                    StepView::fail(
                        FailureView::CommandFailed(Call::AddOrigin, exit.code, exit.status),
                    ),
                )
            },
        },
        _ => None,
    }
}

/// One turn of deleting the remote repository called `name`.
pub open spec fn removal_step(name: Seq<char>, state: ProgressView, event: EventView) -> Option<
    StepView,
> {
    match (state, event) {
        (ProgressView::Start, EventView::Begin) => Some(
            StepView::run(ProgressView::AwaitingDelete, None, CommandView::delete(name)),
        ),
        (ProgressView::AwaitingDelete, EventView::Ran(ran)) => match ran {
            None => Some(StepView::fail(FailureView::CommandExec(Call::Delete))),
            Some(exit) => if exit.success() {
                Some(StepView::succeed(None))
            } else {
                Some(
                    StepView::fail(
                        FailureView::CommandFailed(Call::Delete, exit.code, exit.status),
                    ),
                )
            },
        },
        _ => None,
    }
}

/// One turn of setting up a subdomain: the name is resolved as for a
/// repository, and nothing else is done.
pub open spec fn subdomain_step(
    input: Option<Seq<char>>,
    state: ProgressView,
    event: EventView,
) -> Option<StepView> {
    match (state, event) {
        (ProgressView::Start, EventView::Begin) => match input {
            Some(name) => Some(StepView::succeed(Some(subdomain_notice(name)))),
            None => Some(StepView::ask_name()),
        },
        (ProgressView::AwaitingName, EventView::Looked(found)) => match found {
            Ok(name) => Some(StepView::succeed(Some(subdomain_notice(name)))),
            Err(cause) => Some(StepView::fail(FailureView::NoName(Wanted::Subdomain, cause))),
        },
        _ => None,
    }
}

fn joined(head: &str, tail: &str) -> (text: String)
    ensures
        text@ == head@ + tail@,
{
    let mut text = String::from_str(head);
    text.append(tail);
    text
}

fn ask_tree(name: String) -> (step: Step)
    ensures
        step@ == query_tree(name@),
{
    Step::run(Progress::AwaitingWorkTree(name), None, Command::work_tree_query())
}

fn ask_create(name: String, public: bool) -> (step: Step)
    ensures
        step@ == request_create(name@, public),
{
    let notice = joined("Attempting to create new repo ", name.as_str());
    let command = Command::create(name.as_str(), public);
    Step::run(Progress::AwaitingCreate(name), Some(notice), command)
}

fn failed(call: Call, exit: Exit) -> (step: Step)
    ensures
        step@ == StepView::fail(FailureView::CommandFailed(call, exit@.code, exit@.status)),
{
    Step::fail(Failure::CommandFailed(call, exit.code, exit.status))
}

fn created(cfg: &Config, name: String, exit: Exit) -> (step: Step)
    ensures
        step@ == after_create(cfg@, name@, exit@),
{
    if !exit.success() {
        return failed(Call::Create, exit);
    }
    match cfg.gh_username() {
        Err(failure) => Step::fail(failure),
        Ok(account) => {
            let url = origin_url(account, name.as_str());
            Step::run(Progress::AwaitingOrigin(name), None, Command::add_origin(url))
        },
    }
}

fn subdomain_done(name: &str) -> (step: Step)
    ensures
        step@ == StepView::succeed(Some(subdomain_notice(name@))),
{
    let mut notice = joined("Successfully created subdomain ", name);
    notice.append(" at CONFIG_FILE_HOST_STRING");
    Step::succeed(Some(notice))
}

/// Takes one turn of creating a remote repository for the current directory,
/// called `input_name` or, where none is given, as `package.json` says.
///
/// Returns the step that [`repo_step`] gives, and `None` exactly where the
/// event does not answer what `state` is waiting for.
pub fn new_remote_repo(
    cfg: &Config,
    input_name: &Option<String>,
    is_public: bool,
    state: Progress,
    event: Event,
) -> (turn: Option<Step>)
    ensures
        turn_agrees(turn, repo_step(cfg@, text_of(*input_name), is_public, state@, event@)),
{
    match (state, event) {
        (Progress::Start, Event::Begin) => match input_name {
            Some(name) => Some(ask_tree(name.clone())),
            None => Some(Step::ask_name()),
        },
        (Progress::AwaitingName, Event::Looked(found)) => match found {
            Ok(name) => Some(ask_tree(name)),
            Err(cause) => Some(Step::fail(Failure::NoName(Wanted::Repo, cause))),
        },
        (Progress::AwaitingWorkTree(name), Event::Ran(ran)) => match ran {
            None => Some(Step::fail(Failure::CommandExec(Call::WorkTree))),
            Some(exit) => if exit.success() {
                Some(Step::run(Progress::AwaitingRemotes(name), None, Command::remote_listing()))
            } else {
                let notice = String::from_str("No local repo detected, creating one for you...");
                Some(Step::run(Progress::AwaitingInit(name), Some(notice), Command::init()))
            },
        },
        (Progress::AwaitingRemotes(name), Event::Ran(ran)) => match ran {
            None => Some(Step::fail(Failure::CommandExec(Call::Remotes))),
            Some(exit) => if names_remote(exit.stdout.as_slice(), "origin") {
                Some(Step::fail(Failure::DuplicateRemote))
            } else {
                Some(ask_create(name, is_public))
            },
        },
        (Progress::AwaitingInit(name), Event::Ran(ran)) => match ran {
            None => Some(Step::fail(Failure::CommandExec(Call::Init))),
            Some(_) => Some(ask_create(name, is_public)),
        },
        (Progress::AwaitingCreate(name), Event::Ran(ran)) => match ran {
            None => Some(Step::fail(Failure::CommandExec(Call::Create))),
            Some(exit) => Some(created(cfg, name, exit)),
        },
        (Progress::AwaitingOrigin(name), Event::Ran(ran)) => match ran {
            None => Some(Step::fail(Failure::CommandExec(Call::AddOrigin))),
            Some(exit) => if exit.success() {
                let notice = joined("Successfully created remote repo ", name.as_str());
                Some(Step::succeed(Some(notice)))
            } else {
                Some(failed(Call::AddOrigin, exit))
            },
        },
        _ => None,
    }
}

/// Takes one turn of deleting the remote repository called `name`.
///
/// Returns the step that [`removal_step`] gives, and `None` exactly where
/// the event does not answer what `state` is waiting for.
pub fn remove_remote_repo(_cfg: &Config, name: &str, state: Progress, event: Event) -> (turn:
    Option<Step>)
    ensures
        turn_agrees(turn, removal_step(name@, state@, event@)),
{
    match (state, event) {
        (Progress::Start, Event::Begin) => Some(
            Step::run(Progress::AwaitingDelete, None, Command::delete(name)),
        ),
        (Progress::AwaitingDelete, Event::Ran(ran)) => match ran {
            None => Some(Step::fail(Failure::CommandExec(Call::Delete))),
            Some(exit) => if exit.success() {
                Some(Step::succeed(None))
            } else {
                Some(failed(Call::Delete, exit))
            },
        },
        _ => None,
    }
}

/// Takes one turn of setting up the subdomain called `input_name` or, where
/// none is given, as `package.json` says.
///
/// Returns the step that [`subdomain_step`] gives, and `None` exactly where
/// the event does not answer what `state` is waiting for.
pub fn create_vhost_subdomain(
    _cfg: &Config,
    input_name: &Option<String>,
    state: Progress,
    event: Event,
) -> (turn: Option<Step>)
    ensures
        turn_agrees(turn, subdomain_step(text_of(*input_name), state@, event@)),
{
    match (state, event) {
        (Progress::Start, Event::Begin) => match input_name {
            Some(name) => Some(subdomain_done(name.as_str())),
            None => Some(Step::ask_name()),
        },
        (Progress::AwaitingName, Event::Looked(found)) => match found {
            Ok(name) => Some(subdomain_done(name.as_str())),
            Err(cause) => Some(Step::fail(Failure::NoName(Wanted::Subdomain, cause))),
        },
        _ => None,
    }
}

} // verus!

//! What holds of the operations whatever the configuration, the names and
//! the outcomes of the commands.

use crate::command::CommandView;
use crate::config::ConfigView;
use crate::failure::{Call, FailureView, LookupFailureView, Wanted};
use crate::operations::{
    created_notice, no_tree_notice, query_tree, removal_step, repo_step, request_create,
    subdomain_step,
};
use crate::session::{ActionView, EventView, ExitView, ProgressView, StepView};
use crate::text::{lists_remote, occurs_at, occurs_in};
use vstd::prelude::*;

verus! {

/// How many turns of an operation lie behind a progress, at the least.
pub open spec fn rank(state: ProgressView) -> nat {
    match state {
        ProgressView::Start => 0,
        ProgressView::AwaitingName => 1,
        ProgressView::AwaitingWorkTree(_) => 2,
        ProgressView::AwaitingRemotes(_) => 3,
        ProgressView::AwaitingInit(_) => 3,
        ProgressView::AwaitingCreate(_) => 4,
        ProgressView::AwaitingOrigin(_) => 5,
        ProgressView::AwaitingDelete => 5,
        ProgressView::Finished => 6,
    }
}

/// Whether a step leads on from `state`: it is further along, and it stops
/// exactly when it finishes.
pub open spec fn leads_on(state: ProgressView, step: StepView) -> bool {
    &&& rank(state) < rank(step.state)
    &&& step.is_last() <==> step.state is Finished
}

/// Every turn of every operation leads on, so an operation ends within six
/// turns; and once it has finished, no event gets another step.
pub proof fn operations_end(
    cfg: ConfigView,
    input: Option<Seq<char>>,
    name: Seq<char>,
    public: bool,
    state: ProgressView,
    event: EventView,
)
    ensures
        repo_step(cfg, input, public, state, event) matches Some(step) ==> leads_on(state, step),
        removal_step(name, state, event) matches Some(step) ==> leads_on(state, step),
        subdomain_step(input, state, event) matches Some(step) ==> leads_on(state, step),
        state is Finished ==> repo_step(cfg, input, public, state, event) is None,
        state is Finished ==> removal_step(name, state, event) is None,
        state is Finished ==> subdomain_step(input, state, event) is None,
{
}

/// An operation takes a turn exactly on an event that answers what its
/// progress is waiting for, the progress being one that the operation itself
/// hands out.
pub proof fn turns_answer_events(
    cfg: ConfigView,
    input: Option<Seq<char>>,
    name: Seq<char>,
    public: bool,
    state: ProgressView,
    event: EventView,
)
    ensures
        repo_step(cfg, input, public, state, event) is Some <==> state.awaits(event) && !(state
            is AwaitingDelete),
        removal_step(name, state, event) is Some <==> state.awaits(event) && (state is Start
            || state is AwaitingDelete),
        subdomain_step(input, state, event) is Some <==> state.awaits(event) && (state is Start
            || state is AwaitingName),
{
}

/// Without a name given, creating a repository asks for the `name` of
/// `package.json`; where that lookup fails, for whatever cause, the
/// operation ends at once in a failure whose message mentions that no repo
/// name was given.
pub proof fn unnamed_repo_is_refused(cfg: ConfigView, public: bool, cause: LookupFailureView)
    ensures
        repo_step(cfg, None, public, ProgressView::Start, EventView::Begin) == Some(
            StepView::ask_name(),
        ),
        repo_step(cfg, None, public, ProgressView::AwaitingName, EventView::Looked(Err(cause)))
            == Some(StepView::fail(FailureView::NoName(Wanted::Repo, cause))),
        occurs_in(
            "no repo name was given"@,
            FailureView::NoName(Wanted::Repo, cause).message(),
        ),
{
    let needle = "no repo name was given"@;
    let message = "Error: no repo name was given, neither arg nor via package.json name"@;
    reveal_strlit("no repo name was given");
    reveal_strlit("Error: no repo name was given, neither arg nor via package.json name");
    assert(message.subrange(7, 29) =~= needle);
    assert(occurs_at(needle, message, 7));
}

/// Without a name given, setting up a subdomain fails in the same way, with a
/// message that mentions that no subdomain was given.
pub proof fn unnamed_subdomain_is_refused(cause: LookupFailureView)
    ensures
        subdomain_step(None, ProgressView::Start, EventView::Begin) == Some(StepView::ask_name()),
        subdomain_step(None, ProgressView::AwaitingName, EventView::Looked(Err(cause))) == Some(
            StepView::fail(FailureView::NoName(Wanted::Subdomain, cause)),
        ),
        occurs_in(
            "no subdomain was given"@,
            FailureView::NoName(Wanted::Subdomain, cause).message(),
        ),
{
    let needle = "no subdomain was given"@;
    let message = "Error: no subdomain was given, neither arg nor via package.json name"@;
    reveal_strlit("no subdomain was given");
    reveal_strlit("Error: no subdomain was given, neither arg nor via package.json name");
    assert(message.subrange(7, 29) =~= needle);
    assert(occurs_at(needle, message, 7));
}

/// A name read from `package.json` counts as a name given: the operation goes
/// on from it exactly as it begins with that name as its argument.
pub proof fn looked_up_name_is_used(cfg: ConfigView, public: bool, name: Seq<char>)
    ensures
        repo_step(cfg, None, public, ProgressView::AwaitingName, EventView::Looked(Ok(name)))
            == repo_step(cfg, Some(name), public, ProgressView::Start, EventView::Begin),
        repo_step(cfg, Some(name), public, ProgressView::Start, EventView::Begin) == Some(
            query_tree(name),
        ),
        subdomain_step(None, ProgressView::AwaitingName, EventView::Looked(Ok(name)))
            == subdomain_step(Some(name), ProgressView::Start, EventView::Begin),
{
}

/// In a working tree whose listing of remotes names a remote `origin`,
/// creating a repository lists the remotes, fails with `DuplicateRemote`, and
/// has finished: no event gets a further step, so no further command is asked
/// for.
pub proof fn existing_origin_is_refused(
    cfg: ConfigView,
    input: Option<Seq<char>>,
    public: bool,
    name: Seq<char>,
    tree: ExitView,
    remotes: ExitView,
)
    requires
        tree.success(),
        lists_remote(remotes.stdout, "origin"@),
    ensures
        repo_step(
            cfg,
            input,
            public,
            ProgressView::AwaitingWorkTree(name),
            EventView::Ran(Some(tree)),
        ) == Some(
            StepView::run(ProgressView::AwaitingRemotes(name), None, CommandView::remote_listing()),
        ),
        repo_step(
            cfg,
            input,
            public,
            ProgressView::AwaitingRemotes(name),
            EventView::Ran(Some(remotes)),
        ) == Some(StepView::fail(FailureView::DuplicateRemote)),
        FailureView::DuplicateRemote.message() == "Error: Remote repository already exists"@,
        forall|event: EventView|
            repo_step(cfg, input, public, StepView::fail(FailureView::DuplicateRemote).state, event)
                is None,
{
}

/// Once the remotes of a working tree are listed, creating a repository fails
/// with `DuplicateRemote` exactly when the listing names a remote `origin`,
/// and goes on to `gh repo create` exactly when it names none: what else the
/// listing holds, other remotes or the word `origin` inside an address,
/// decides nothing.
pub proof fn origin_alone_is_refused(
    cfg: ConfigView,
    input: Option<Seq<char>>,
    public: bool,
    name: Seq<char>,
    remotes: ExitView,
)
    ensures
        lists_remote(remotes.stdout, "origin"@) <==> repo_step(
            cfg,
            input,
            public,
            ProgressView::AwaitingRemotes(name),
            EventView::Ran(Some(remotes)),
        ) == Some(StepView::fail(FailureView::DuplicateRemote)),
        !lists_remote(remotes.stdout, "origin"@) <==> repo_step(
            cfg,
            input,
            public,
            ProgressView::AwaitingRemotes(name),
            EventView::Ran(Some(remotes)),
        ) == Some(request_create(name, public)),
{
}

/// A command has succeeded exactly when its exit code is zero. Deleting a
/// repository ends well on exit code zero of `gh repo delete` and fails on
/// any other end, with the exit code in the failure; and so does adding the
/// remote on the end of `git remote add`.
pub proof fn success_is_exit_code_zero(
    cfg: ConfigView,
    input: Option<Seq<char>>,
    public: bool,
    name: Seq<char>,
    exit: ExitView,
)
    ensures
        removal_step(name, ProgressView::AwaitingDelete, EventView::Ran(Some(exit))) == Some(
            if exit.code == Some(0i32) {
                StepView::succeed(None)
            } else {
                StepView::fail(FailureView::CommandFailed(Call::Delete, exit.code, exit.status))
            },
        ),
        repo_step(
            cfg,
            input,
            public,
            ProgressView::AwaitingOrigin(name),
            EventView::Ran(Some(exit)),
        ) == Some(
            if exit.code == Some(0i32) {
                StepView::succeed(Some(created_notice(name)))
            } else {
                StepView::fail(FailureView::CommandFailed(Call::AddOrigin, exit.code, exit.status))
            },
        ),
        exit.code != Some(0i32) ==> repo_step(
            cfg,
            input,
            public,
            ProgressView::AwaitingCreate(name),
            EventView::Ran(Some(exit)),
        ) == Some(StepView::fail(FailureView::CommandFailed(Call::Create, exit.code, exit.status))),
{
}

/// Outside a working tree, creating a repository asks for `git init`, and
/// only once that has run for `gh repo create`.
pub proof fn missing_tree_is_created_first(
    cfg: ConfigView,
    input: Option<Seq<char>>,
    public: bool,
    name: Seq<char>,
    tree: ExitView,
    init: ExitView,
)
    requires
        !tree.success(),
    ensures
        repo_step(
            cfg,
            input,
            public,
            ProgressView::AwaitingWorkTree(name),
            EventView::Ran(Some(tree)),
        ) == Some(
            StepView::run(
                ProgressView::AwaitingInit(name),
                Some(no_tree_notice()),
                CommandView::init(),
            ),
        ),
        repo_step(
            cfg,
            input,
            public,
            ProgressView::AwaitingInit(name),
            EventView::Ran(Some(init)),
        ) == Some(request_create(name, public)),
{
}

/// `gh repo create` is asked for only after `git init` has run, or after the
/// remotes of a working tree were listed and none is named `origin`; and each
/// of these two is asked for only on the answer whether the directory is a
/// working tree: the listing where it is one, `git init` where it is none.
pub proof fn create_comes_last(
    cfg: ConfigView,
    input: Option<Seq<char>>,
    public: bool,
    state: ProgressView,
    event: EventView,
)
    ensures
        repo_step(cfg, input, public, state, event) matches Some(step) ==> {
            &&& step.state is AwaitingCreate ==> event.exit() is Some && {
                ||| state is AwaitingInit
                ||| state is AwaitingRemotes && !lists_remote(event.exit()->0.stdout, "origin"@)
            }
            &&& step.state is AwaitingInit ==> state is AwaitingWorkTree && event.exit() is Some
                && !event.exit()->0.success()
            &&& step.state is AwaitingRemotes ==> state is AwaitingWorkTree && event.exit() is Some
                && event.exit()->0.success()
            &&& step.action is Run && step.action->Run_0.program == "/usr/bin/gh"@
                <==> step.state is AwaitingCreate
        },
{
    reveal_strlit("/usr/bin/gh");
    reveal_strlit("/usr/bin/git");
    assert("/usr/bin/gh"@.len() != "/usr/bin/git"@.len());
}

} // verus!

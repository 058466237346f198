//! The failures an operation can end in, and the text shown for each.

use vstd::prelude::*;

verus! {

/// A setting of the configuration file.
#[derive(Clone, Copy, Debug, PartialEq, Eq, Structural)]
pub enum Field {
    GithubUsername,
    SshUsername,
    SshHost,
}

/// What a name is being resolved for.
#[derive(Clone, Copy, Debug, PartialEq, Eq, Structural)]
pub enum Wanted {
    Repo,
    Subdomain,
}

/// One of the external invocations the operations ask for.
#[derive(Clone, Copy, Debug, PartialEq, Eq, Structural)]
pub enum Call {
    /// `git rev-parse --is-inside-work-tree`
    WorkTree,
    /// `git remote -v`
    Remotes,
    /// `git init`
    Init,
    /// `gh repo create`
    Create,
    /// `git remote add origin`
    AddOrigin,
    /// `gh repo delete`
    Delete,
}

/// Why a string could not be read from a JSON file.
#[derive(Clone, Debug, PartialEq, Eq)]
pub enum LookupFailure {
    /// The file at this path could not be opened.
    FileOpen(String),
    /// The file does not hold a JSON document.
    Parse,
    /// The document has no string under the key.
    Key,
}

/// Mathematical value of a [`LookupFailure`].
pub ghost enum LookupFailureView {
    FileOpen(Seq<char>),
    Parse,
    Key,
}

impl View for LookupFailure {
    type V = LookupFailureView;

    open spec fn view(&self) -> LookupFailureView {
        match self {
            LookupFailure::FileOpen(path) => LookupFailureView::FileOpen(path@),
            LookupFailure::Parse => LookupFailureView::Parse,
            LookupFailure::Key => LookupFailureView::Key,
        }
    }
}

impl LookupFailureView {
    /// The text shown for this failure.
    pub open spec fn message(self) -> Seq<char> {
        match self {
            LookupFailureView::FileOpen(path) => "Error: could not open file `"@ + path + "`"@,
            LookupFailureView::Parse => "Error: value could not be read from json file"@,
            LookupFailureView::Key => "Error: key not found"@,
        }
    }
}

impl LookupFailure {
    /// The text shown for this failure.
    pub fn message(&self) -> (text: String)
        ensures
            text@ == self@.message(),
    {
        match self {
            LookupFailure::FileOpen(path) => {
                let mut text = String::from_str("Error: could not open file `");
                text.append(path.as_str());
                text.append("`");
                text
            },
            LookupFailure::Parse => String::from_str(
                "Error: value could not be read from json file",
            ),
            LookupFailure::Key => String::from_str("Error: key not found"),
        }
    }
}

/// Why an operation, or loading the configuration, failed.
#[derive(Clone, Debug, PartialEq, Eq)]
pub enum Failure {
    /// The configuration file at this path could not be opened.
    FileOpen(String),
    /// The configuration file is not valid TOML of the expected shape.
    Parse,
    /// The configuration does not set this field.
    MissingField(Field),
    /// No name was given and none could be read from `package.json`.
    NoName(Wanted, LookupFailure),
    /// The program could not be started.
    CommandExec(Call),
    /// The program ran and reported failure: its exit code, if it has one,
    /// and the way the system describes its exit status.
    CommandFailed(Call, Option<i32>, String),
    /// The working tree already has a remote called `origin`.
    DuplicateRemote,
}

/// Mathematical value of an [`Failure`].
pub ghost enum FailureView {
    FileOpen(Seq<char>),
    Parse,
    MissingField(Field),
    NoName(Wanted, LookupFailureView),
    CommandExec(Call),
    CommandFailed(Call, Option<i32>, Seq<char>),
    DuplicateRemote,
}

impl View for Failure {
    type V = FailureView;

    open spec fn view(&self) -> FailureView {
        match self {
            Failure::FileOpen(path) => FailureView::FileOpen(path@),
            Failure::Parse => FailureView::Parse,
            Failure::MissingField(field) => FailureView::MissingField(*field),
            Failure::NoName(wanted, cause) => FailureView::NoName(*wanted, cause@),
            Failure::CommandExec(call) => FailureView::CommandExec(*call),
            Failure::CommandFailed(call, code, status) => FailureView::CommandFailed(
                *call,
                *code,
                status@,
            ),
            Failure::DuplicateRemote => FailureView::DuplicateRemote,
        }
    }
}

impl Field {
    /// The text shown when the configuration lacks this field.
    pub open spec fn missing_text(self) -> Seq<char> {
        match self {
            Field::GithubUsername => "No github username specified in config file"@,
            Field::SshUsername => "No ssh username specified in config file"@,
            Field::SshHost => "No ssh host specified in config file"@,
        }
    }

    /// The text shown when the configuration lacks this field.
    pub fn missing(&self) -> (text: &'static str)
        ensures
            text@ == self.missing_text(),
    {
        match self {
            Field::GithubUsername => "No github username specified in config file",
            Field::SshUsername => "No ssh username specified in config file",
            Field::SshHost => "No ssh host specified in config file",
        }
    }
}

impl Wanted {
    /// The text shown when no name of this kind could be found.
    pub open spec fn missing_text(self) -> Seq<char> {
        match self {
            Wanted::Repo =>
                "Error: no repo name was given, neither arg nor via package.json name"@,
            Wanted::Subdomain =>
                "Error: no subdomain was given, neither arg nor via package.json name"@,
        }
    }

    /// The text shown when no name of this kind could be found.
    pub fn missing(&self) -> (text: &'static str)
        ensures
            text@ == self.missing_text(),
    {
        match self {
            Wanted::Repo => "Error: no repo name was given, neither arg nor via package.json name",
            Wanted::Subdomain =>
                "Error: no subdomain was given, neither arg nor via package.json name",
        }
    }
}

impl Call {
    /// The text shown when the program of this invocation cannot be started.
    pub open spec fn unstarted_text(self) -> Seq<char> {
        match self {
            Call::WorkTree => "Error: Failed to execute 'git rev-parse --is-inside-work-tree"@,
            Call::Remotes => "Error: Failed to execute 'git remote -v'"@,
            Call::Init => "Error: Failed to 'git init'"@,
            Call::Create => "Error: Failed to execute 'gh repo create'"@,
            Call::AddOrigin => "Error: Failed to execute 'git remote add'"@,
            Call::Delete => "Error: Failed to execute 'gh repo delete --yes'"@,
        }
    }

    /// The text shown when the program of this invocation cannot be started.
    pub fn unstarted(&self) -> (text: &'static str)
        ensures
            text@ == self.unstarted_text(),
    {
        match self {
            Call::WorkTree => "Error: Failed to execute 'git rev-parse --is-inside-work-tree",
            Call::Remotes => "Error: Failed to execute 'git remote -v'",
            Call::Init => "Error: Failed to 'git init'",
            Call::Create => "Error: Failed to execute 'gh repo create'",
            Call::AddOrigin => "Error: Failed to execute 'git remote add'",
            Call::Delete => "Error: Failed to execute 'gh repo delete --yes'",
        }
    }

    /// How messages refer to this invocation.
    pub open spec fn label_text(self) -> Seq<char> {
        match self {
            Call::WorkTree => "git rev-parse --is-inside-work-tree"@,
            Call::Remotes => "git remote -v"@,
            Call::Init => "git init"@,
            Call::Create => "gh repo create"@,
            Call::AddOrigin => "git remote add"@,
            Call::Delete => "gh repo delete"@,
        }
    }

    /// How messages refer to this invocation.
    pub fn label(&self) -> (text: &'static str)
        ensures
            text@ == self.label_text(),
    {
        match self {
            Call::WorkTree => "git rev-parse --is-inside-work-tree",
            Call::Remotes => "git remote -v",
            Call::Init => "git init",
            Call::Create => "gh repo create",
            Call::AddOrigin => "git remote add",
            Call::Delete => "gh repo delete",
        }
    }
}

impl FailureView {
    /// The text shown for this failure. A missing name shows only that no name
    /// was found, not why the lookup failed.
    pub open spec fn message(self) -> Seq<char> {
        match self {
            FailureView::FileOpen(path) => "Error: could not open file `"@ + path + "`"@,
            FailureView::Parse => "Error: could not read toml file"@,
            FailureView::MissingField(field) => field.missing_text(),
            FailureView::NoName(wanted, _) => wanted.missing_text(),
            FailureView::CommandExec(call) => call.unstarted_text(),
            FailureView::CommandFailed(call, _, status) => "Error: '"@ + call.label_text()
                + "' failed with exit status "@ + status,
            FailureView::DuplicateRemote => "Error: Remote repository already exists"@,
        }
    }
}

impl Failure {
    /// The text shown for this failure.
    pub fn message(&self) -> (text: String)
        ensures
            text@ == self@.message(),
    {
        match self {
            Failure::FileOpen(path) => {
                let mut text = String::from_str("Error: could not open file `");
                text.append(path.as_str());
                text.append("`");
                text
            },
            Failure::Parse => String::from_str("Error: could not read toml file"),
            Failure::MissingField(field) => String::from_str(field.missing()),
            Failure::NoName(wanted, _) => String::from_str(wanted.missing()),
            Failure::CommandExec(call) => String::from_str(call.unstarted()),
            Failure::CommandFailed(call, _, status) => {
                let mut text = String::from_str("Error: '");
                text.append(call.label());
                text.append("' failed with exit status ");
                text.append(status.as_str());
                text
            },
            Failure::DuplicateRemote => String::from_str("Error: Remote repository already exists"),
        }
    }
}

} // verus!

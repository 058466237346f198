//! The external invocations, as program and arguments.

use vstd::prelude::*;

verus! {

/// A program to run with its arguments. Where `capture` is set the caller
/// collects what the program writes; otherwise the program writes to the
/// caller's own output.
#[derive(Clone, Debug, PartialEq, Eq)]
pub struct Command {
    pub program: String,
    pub args: Vec<String>,
    pub capture: bool,
}

/// Mathematical value of a [`Command`].
pub ghost struct CommandView {
    pub program: Seq<char>,
    pub args: Seq<Seq<char>>,
    pub capture: bool,
}

/// The texts of a list of strings.
pub open spec fn texts_of(strings: Seq<String>) -> Seq<Seq<char>> {
    Seq::new(strings.len(), |i: int| strings[i]@)
}

impl View for Command {
    type V = CommandView;

    open spec fn view(&self) -> CommandView {
        CommandView { program: self.program@, args: texts_of(self.args@), capture: self.capture }
    }
}

/// The address of a repository of `account` called `name`.
pub open spec fn repo_url(account: Seq<char>, name: Seq<char>) -> Seq<char> {
    "https://github.com/"@ + account + "/"@ + name
}

/// The address under which repositories are deleted.
pub open spec fn deletion_url(name: Seq<char>) -> Seq<char> {
    "https://github.com/protofarer/"@ + name
}

/// The flag that sets the visibility of a new repository.
pub open spec fn visibility_flag(public: bool) -> Seq<char> {
    if public {
        "--public"@
    } else {
        "--private"@
    }
}

impl CommandView {
    /// `git rev-parse --is-inside-work-tree`, output collected.
    pub open spec fn work_tree_query() -> CommandView {
        CommandView {
            program: "/usr/bin/git"@,
            args: seq!["rev-parse"@, "--is-inside-work-tree"@],
            capture: true,
        }
    }

    /// `git remote -v`, output collected.
    pub open spec fn remote_listing() -> CommandView {
        CommandView { program: "/usr/bin/git"@, args: seq!["remote"@, "-v"@], capture: true }
    }

    /// `git init`.
    pub open spec fn init() -> CommandView {
        CommandView { program: "/usr/bin/git"@, args: seq!["init"@], capture: false }
    }

    /// `gh repo create <name> --public` or `--private`.
    pub open spec fn create(name: Seq<char>, public: bool) -> CommandView {
        CommandView {
            program: "/usr/bin/gh"@,
            args: seq!["repo"@, "create"@, name, visibility_flag(public)],
            capture: false,
        }
    }

    /// `git remote add origin <url>`.
    pub open spec fn add_origin(url: Seq<char>) -> CommandView {
        CommandView {
            program: "/usr/bin/git"@,
            args: seq!["remote"@, "add"@, "origin"@, url],
            capture: false,
        }
    }

    /// `gh repo delete <url> --yes`, the address being that of `name`.
    pub open spec fn delete(name: Seq<char>) -> CommandView {
        CommandView {
            program: "/usr/bin/gh"@,
            args: seq!["repo"@, "delete"@, deletion_url(name), "--yes"@],
            capture: false,
        }
    }
}

/// The address of a repository of `account` called `name`.
pub fn origin_url(account: &str, name: &str) -> (url: String)
    ensures
        url@ == repo_url(account@, name@),
{
    let mut url = String::from_str("https://github.com/");
    url.append(account);
    url.append("/");
    url.append(name);
    url
}

fn assemble(program: &str, args: Vec<String>, capture: bool) -> (command: Command)
    ensures
        command@ == (CommandView { program: program@, args: texts_of(args@), capture }),
{
    Command { program: String::from_str(program), args, capture }
}

impl Command {
    /// `git rev-parse --is-inside-work-tree`, output collected.
    pub fn work_tree_query() -> (command: Command)
        ensures
            command@ == CommandView::work_tree_query(),
    {
        let args = vec![String::from_str("rev-parse"), String::from_str("--is-inside-work-tree")];
        assert(texts_of(args@) =~= CommandView::work_tree_query().args);
        assemble("/usr/bin/git", args, true)
    }

    /// `git remote -v`, output collected.
    pub fn remote_listing() -> (command: Command)
        ensures
            command@ == CommandView::remote_listing(),
    {
        let args = vec![String::from_str("remote"), String::from_str("-v")];
        assert(texts_of(args@) =~= CommandView::remote_listing().args);
        assemble("/usr/bin/git", args, true)
    }

    /// `git init`.
    pub fn init() -> (command: Command)
        ensures
            command@ == CommandView::init(),
    {
        let args = vec![String::from_str("init")];
        assert(texts_of(args@) =~= CommandView::init().args);
        assemble("/usr/bin/git", args, false)
    }

    /// `gh repo create <name> --public` or `--private`.
    pub fn create(name: &str, public: bool) -> (command: Command)
        ensures
            command@ == CommandView::create(name@, public),
    {
        let flag = if public {
            "--public"
        } else {
            "--private"
        };
        let args = vec![
            String::from_str("repo"),
            String::from_str("create"),
            String::from_str(name),
            String::from_str(flag),
        ];
        assert(texts_of(args@) =~= CommandView::create(name@, public).args);
        assemble("/usr/bin/gh", args, false)
    }

    /// `git remote add origin <url>`.
    pub fn add_origin(url: String) -> (command: Command)
        ensures
            command@ == CommandView::add_origin(url@),
    {
        let ghost address = url@;
        let args = vec![
            String::from_str("remote"),
            String::from_str("add"),
            String::from_str("origin"),
            url,
        ];
        assert(texts_of(args@) =~= CommandView::add_origin(address).args);
        assemble("/usr/bin/git", args, false)
    }

    /// `gh repo delete <url> --yes`, the address being that of `name`.
    pub fn delete(name: &str) -> (command: Command)
        ensures
            command@ == CommandView::delete(name@),
    {
        let mut url = String::from_str("https://github.com/protofarer/");
        url.append(name);
        let args = vec![
            String::from_str("repo"),
            String::from_str("delete"),
            url,
            String::from_str("--yes"),
        ];
        assert(texts_of(args@) =~= CommandView::delete(name@).args);
        assemble("/usr/bin/gh", args, false)
    }
}

} // verus!

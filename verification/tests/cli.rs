use kli::command::Command;
use kli::config::{Config, GithubParameters, Loaded, ParsedFile};
use kli::failure::{Call, Failure, LookupFailure, Wanted};
use kli::session::{Action, Event, Exit, Progress, Step};
use kli::{
    create_vhost_subdomain, new_remote_repo, read_json_value_from_file, remove_remote_repo,
};

/// A directory and the programs around it, as far as the operations can tell.
struct World {
    work_tree: bool,
    origin: bool,
    package_json: Option<Vec<u8>>,
    gh_exit_code: i32,
    missing_program: Option<&'static str>,
    other_remote: Option<&'static str>,
    ran: Vec<Command>,
    printed: Vec<String>,
}

impl World {
    fn empty_dir() -> World {
        World {
            work_tree: false,
            origin: false,
            package_json: None,
            gh_exit_code: 0,
            missing_program: None,
            other_remote: None,
            ran: Vec::new(),
            printed: Vec::new(),
        }
    }

    fn with_package_name(mut self, name: &str) -> World {
        self.package_json = Some(format!("{{ \"name\": \"{}\" }}\n", name).into_bytes());
        self
    }

    fn with_work_tree(mut self) -> World {
        self.work_tree = true;
        self
    }

    fn with_origin(mut self) -> World {
        self.work_tree = true;
        self.origin = true;
        self
    }

    fn exit(code: i32, stdout: &str) -> Option<Exit> {
        Some(Exit {
            code: Some(code),
            status: format!("exit status: {}", code),
            stdout: stdout.as_bytes().to_vec(),
        })
    }

    fn run(&mut self, command: Command) -> Option<Exit> {
        self.ran.push(command.clone());
        if self.missing_program == Some(command.program.as_str()) {
            return None;
        }
        let args: Vec<&str> = command.args.iter().map(String::as_str).collect();
        match (command.program.as_str(), args.as_slice()) {
            ("/usr/bin/git", ["rev-parse", "--is-inside-work-tree"]) => {
                if self.work_tree {
                    World::exit(0, "true\n")
                } else {
                    World::exit(128, "")
                }
            }
            ("/usr/bin/git", ["remote", "-v"]) => {
                let mut listing = String::new();
                if let Some(remote) = self.other_remote {
                    listing += &format!("{} (fetch)\n{} (push)\n", remote, remote);
                }
                if self.origin {
                    listing += "origin\thttps://github.com/protofarer/x (fetch)\n";
                    listing += "origin\thttps://github.com/protofarer/x (push)\n";
                }
                World::exit(0, &listing)
            }
            ("/usr/bin/git", ["init"]) => {
                self.work_tree = true;
                World::exit(0, "")
            }
            ("/usr/bin/gh", ["repo", "create", _, _]) => World::exit(self.gh_exit_code, ""),
            ("/usr/bin/gh", ["repo", "delete", _, "--yes"]) => World::exit(self.gh_exit_code, ""),
            ("/usr/bin/git", ["remote", "add", "origin", _]) => {
                if self.origin {
                    World::exit(3, "")
                } else {
                    self.origin = true;
                    World::exit(0, "")
                }
            }
            _ => panic!("unexpected command {:?}", command),
        }
    }

    /// Carries out the steps that `turn` gives until one says to stop.
    fn carry_out(&mut self, turn: impl Fn(Progress, Event) -> Option<Step>) -> Result<(), Failure> {
        let mut state = Progress::Start;
        let mut event = Event::Begin;
        for _ in 0..8 {
            let step = turn(state, event).unwrap();
            if let Some(line) = step.notice {
                self.printed.push(line);
            }
            state = step.state;
            event = match step.action {
                Action::Lookup { path, key } => {
                    assert_eq!(path, "package.json");
                    let contents = self.package_json.as_deref();
                    Event::Looked(read_json_value_from_file(&path, contents, &key))
                }
                Action::Run(command) => Event::Ran(self.run(command)),
                Action::Stop(result) => {
                    assert_eq!(state, Progress::Finished);
                    return result;
                }
            };
        }
        panic!("the operation did not end");
    }

    fn new_repo(&mut self, cfg: &Config, name: Option<&str>, public: bool) -> Result<(), Failure> {
        let name = name.map(String::from);
        self.carry_out(|state, event| new_remote_repo(cfg, &name, public, state, event))
    }

    fn new_subdomain(&mut self, cfg: &Config, name: Option<&str>) -> Result<(), Failure> {
        let name = name.map(String::from);
        self.carry_out(|state, event| create_vhost_subdomain(cfg, &name, state, event))
    }

    fn remove_repo(&mut self, cfg: &Config, name: &str) -> Result<(), Failure> {
        self.carry_out(|state, event| remove_remote_repo(cfg, name, state, event))
    }

    fn printed_contains(&self, text: &str) -> bool {
        self.printed.iter().any(|line| line.contains(text))
    }

    fn command_lines(&self) -> Vec<String> {
        self.ran.iter().map(|c| format!("{} {}", c.program, c.args.join(" "))).collect()
    }
}

fn config() -> Config {
    let file = ParsedFile {
        ssh: None,
        github: Some(GithubParameters { username: Some(String::from("protofarer")) }),
    };
    Config::new(None, Loaded::Parsed(file)).unwrap()
}

fn config_without_account() -> Config {
    Config::new(None, Loaded::Parsed(ParsedFile { ssh: None, github: None })).unwrap()
}

// * NEW REPO

#[test]
fn newrepo_n_localrepo_y_namearg() {
    let mut world = World::empty_dir();
    let project_name = "name_via_arg_0001";

    let result = world.new_repo(&config(), Some(project_name), false);

    assert!(world.printed_contains("No local repo detected"));
    assert!(world.printed_contains(&format!("Successfully created remote repo {}", project_name)));
    assert_eq!(result, Ok(()));
    assert!(world.work_tree);
    assert_eq!(
        world.command_lines(),
        [
            "/usr/bin/git rev-parse --is-inside-work-tree",
            "/usr/bin/git init",
            "/usr/bin/gh repo create name_via_arg_0001 --private",
            "/usr/bin/git remote add origin https://github.com/protofarer/name_via_arg_0001",
        ]
    );
    assert_eq!(
        world.printed,
        [
            "No local repo detected, creating one for you...",
            "Attempting to create new repo name_via_arg_0001",
            "Successfully created remote repo name_via_arg_0001",
        ]
    );
}

#[test]
fn newrepo_n_pkgjson_n_namearg() {
    let mut world = World::empty_dir();

    let failure = world.new_repo(&config(), None, false).unwrap_err();

    assert!(failure.message().contains("Error: no repo name was given"));
    assert_eq!(
        failure,
        Failure::NoName(Wanted::Repo, LookupFailure::FileOpen(String::from("package.json")))
    );
    assert!(world.ran.is_empty());
    assert!(world.printed.is_empty());
}

#[test]
fn newrepo_y_pkgjson_n_namearg() {
    let project_name = "name_via_json_0002";
    let mut world = World::empty_dir().with_work_tree().with_package_name(project_name);

    let result = world.new_repo(&config(), None, false);

    assert!(world.printed_contains(&format!("Successfully created remote repo {}", project_name)));
    assert_eq!(result, Ok(()));
    assert_eq!(
        world.command_lines(),
        [
            "/usr/bin/git rev-parse --is-inside-work-tree",
            "/usr/bin/git remote -v",
            "/usr/bin/gh repo create name_via_json_0002 --private",
            "/usr/bin/git remote add origin https://github.com/protofarer/name_via_json_0002",
        ]
    );
    assert!(!world.printed_contains("No local repo detected"));
}

#[test]
fn newrepo_n_pkgjson_y_namearg() {
    let mut world = World::empty_dir();
    let project_name = "name_via_arg_0003";

    let result = world.new_repo(&config(), Some(project_name), false);

    assert!(world.printed_contains(&format!("Successfully created remote repo {}", project_name)));
    assert_eq!(result, Ok(()));
}

#[test]
fn newrepo_y_pkgjson_y_namearg() {
    let mut world = World::empty_dir().with_package_name("pkgjson_project_name");
    let project_name = "name_via_arg_0004";

    let result = world.new_repo(&config(), Some(project_name), false);

    assert!(world.printed_contains(&format!("Successfully created remote repo {}", project_name)));
    assert_eq!(result, Ok(()));
    assert!(!world.command_lines().iter().any(|line| line.contains("pkgjson_project_name")));
}

#[test]
fn newrepo_remote_exists() {
    let mut world = World::empty_dir().with_origin();
    let project_name = "name_via_arg_0005";

    let failure = world.new_repo(&config(), Some(project_name), false).unwrap_err();

    assert!(failure.message().contains("Error: Remote repository already exists"));
    assert_eq!(failure, Failure::DuplicateRemote);
    assert_eq!(
        world.command_lines(),
        ["/usr/bin/git rev-parse --is-inside-work-tree", "/usr/bin/git remote -v"]
    );
    assert!(world.printed.is_empty());
}

// * NEW SUBDOMAIN

#[test]
fn newsubdomain_n_pkgjson_n_namearg() {
    let mut world = World::empty_dir();

    let failure = world.new_subdomain(&config(), None).unwrap_err();

    assert!(failure.message().contains("Error: no subdomain was given"));
    assert_eq!(
        failure,
        Failure::NoName(Wanted::Subdomain, LookupFailure::FileOpen(String::from("package.json")))
    );
}

#[test]
fn newsubdomain_y_pkgjson_n_namearg() {
    let subdomain_word = "subdomain_via_json";
    let mut world = World::empty_dir().with_package_name(subdomain_word);

    let result = world.new_subdomain(&config(), None);

    assert!(world.printed_contains(&format!("Successfully created subdomain {}", subdomain_word)));
    assert_eq!(result, Ok(()));
}

#[test]
fn newsubdomain_n_pkgjson_y_namearg() {
    let subdomain_word = "subdomain_via_arg";
    let mut world = World::empty_dir();

    let result = world.new_subdomain(&config(), Some(subdomain_word));

    assert!(world.printed_contains(&format!("Successfully created subdomain {}", subdomain_word)));
    assert_eq!(result, Ok(()));
    assert!(world.ran.is_empty());
}

#[test]
fn newsubdomain_y_pkgjson_y_namearg() {
    let subdomain_word = "subdomain_via_arg";
    let mut world = World::empty_dir().with_package_name("pkgjson_name");

    let result = world.new_subdomain(&config(), Some(subdomain_word));

    assert!(world.printed_contains(&format!("Successfully created subdomain {}", subdomain_word)));
    assert_eq!(result, Ok(()));
    assert_eq!(
        world.printed,
        ["Successfully created subdomain subdomain_via_arg at CONFIG_FILE_HOST_STRING"]
    );
}

// * Further runs

#[test]
fn public_repo_is_created_public() {
    let mut world = World::empty_dir().with_work_tree();
    assert_eq!(world.new_repo(&config(), Some("shown"), true), Ok(()));
    assert_eq!(world.command_lines()[2], "/usr/bin/gh repo create shown --public");
}

#[test]
fn package_json_without_name_gives_no_repo_name() {
    let mut world = World::empty_dir();
    world.package_json = Some(b"{ \"version\": \"1.0.0\" }".to_vec());
    assert_eq!(
        world.new_repo(&config(), None, false),
        Err(Failure::NoName(Wanted::Repo, LookupFailure::Key))
    );
    world.package_json = Some(b"not json".to_vec());
    assert_eq!(
        world.new_repo(&config(), None, false),
        Err(Failure::NoName(Wanted::Repo, LookupFailure::Parse))
    );
    assert_eq!(
        world.new_subdomain(&config(), None),
        Err(Failure::NoName(Wanted::Subdomain, LookupFailure::Parse))
    );
    assert!(world.ran.is_empty());
}

#[test]
fn failed_create_carries_the_exit_code() {
    let mut world = World::empty_dir().with_work_tree();
    world.gh_exit_code = 1;
    let failure = world.new_repo(&config(), Some("taken"), false).unwrap_err();
    assert_eq!(
        failure,
        Failure::CommandFailed(Call::Create, Some(1), String::from("exit status: 1"))
    );
    assert_eq!(
        failure.message(),
        "Error: 'gh repo create' failed with exit status exit status: 1"
    );
    assert_eq!(world.ran.len(), 3);
    assert!(!world.origin);
}

#[test]
fn missing_account_fails_after_the_repo_is_created() {
    let mut world = World::empty_dir().with_work_tree();
    let failure = world.new_repo(&config_without_account(), Some("orphan"), false).unwrap_err();
    assert_eq!(failure.message(), "No github username specified in config file");
    assert_eq!(world.command_lines().last().unwrap(), "/usr/bin/gh repo create orphan --private");
    assert!(!world.origin);
}

#[test]
fn program_that_cannot_start_is_reported() {
    let mut world = World::empty_dir();
    world.missing_program = Some("/usr/bin/git");
    assert_eq!(
        world.new_repo(&config(), Some("x"), false),
        Err(Failure::CommandExec(Call::WorkTree))
    );
    let mut world = World::empty_dir().with_work_tree();
    world.missing_program = Some("/usr/bin/gh");
    assert_eq!(
        world.new_repo(&config(), Some("x"), false),
        Err(Failure::CommandExec(Call::Create))
    );
    assert_eq!(world.remove_repo(&config(), "x"), Err(Failure::CommandExec(Call::Delete)));
}

#[test]
fn remove_repo_deletes_with_confirmation() {
    let mut world = World::empty_dir();
    assert_eq!(world.remove_repo(&config(), "old_project"), Ok(()));
    assert_eq!(
        world.command_lines(),
        ["/usr/bin/gh repo delete https://github.com/protofarer/old_project --yes"]
    );
    assert!(world.printed.is_empty());

    world.gh_exit_code = 4;
    let failure = world.remove_repo(&config(), "old_project").unwrap_err();
    assert_eq!(
        failure.message(),
        "Error: 'gh repo delete' failed with exit status exit status: 4"
    );
}

#[test]
fn event_out_of_turn_gets_no_step() {
    let cfg = config();
    let name = Some(String::from("x"));
    let ran = || Event::Ran(World::exit(0, ""));
    let looked = || Event::Looked(Ok(String::from("y")));
    let at = |text: &str| String::from(text);

    assert_eq!(new_remote_repo(&cfg, &name, false, Progress::Start, ran()), None);
    assert_eq!(new_remote_repo(&cfg, &name, false, Progress::Start, looked()), None);
    assert_eq!(new_remote_repo(&cfg, &name, false, Progress::AwaitingName, Event::Begin), None);
    assert_eq!(new_remote_repo(&cfg, &name, false, Progress::AwaitingName, ran()), None);
    assert_eq!(
        new_remote_repo(&cfg, &name, false, Progress::AwaitingCreate(at("x")), looked()),
        None
    );
    assert_eq!(
        new_remote_repo(&cfg, &name, false, Progress::AwaitingInit(at("x")), Event::Begin),
        None
    );
    assert_eq!(new_remote_repo(&cfg, &name, false, Progress::AwaitingDelete, ran()), None);
    for event in [Event::Begin, ran(), looked(), Event::Ran(None)] {
        assert_eq!(new_remote_repo(&cfg, &name, false, Progress::Finished, event), None);
    }

    assert_eq!(remove_remote_repo(&cfg, "x", Progress::Start, ran()), None);
    assert_eq!(remove_remote_repo(&cfg, "x", Progress::AwaitingDelete, Event::Begin), None);
    assert_eq!(remove_remote_repo(&cfg, "x", Progress::AwaitingName, looked()), None);
    assert_eq!(remove_remote_repo(&cfg, "x", Progress::Finished, ran()), None);

    assert_eq!(create_vhost_subdomain(&cfg, &name, Progress::Start, looked()), None);
    assert_eq!(create_vhost_subdomain(&cfg, &name, Progress::AwaitingName, ran()), None);
    assert_eq!(
        create_vhost_subdomain(&cfg, &name, Progress::AwaitingWorkTree(at("x")), ran()),
        None
    );
    assert_eq!(create_vhost_subdomain(&cfg, &name, Progress::Finished, Event::Begin), None);
}

#[test]
fn single_steps_of_new_repo() {
    let cfg = config();
    let none: Option<String> = None;
    let at = |text: &str| String::from(text);

    assert_eq!(
        new_remote_repo(&cfg, &none, false, Progress::Start, Event::Begin),
        Some(Step {
            state: Progress::AwaitingName,
            notice: None,
            action: Action::Lookup { path: at("package.json"), key: at("name") },
        })
    );
    assert_eq!(
        new_remote_repo(&cfg, &none, false, Progress::AwaitingName, Event::Looked(Ok(at("X")))),
        Some(Step {
            state: Progress::AwaitingWorkTree(at("X")),
            notice: None,
            action: Action::Run(Command {
                program: at("/usr/bin/git"),
                args: vec![at("rev-parse"), at("--is-inside-work-tree")],
                capture: true,
            }),
        })
    );
    assert_eq!(
        new_remote_repo(
            &cfg,
            &none,
            true,
            Progress::AwaitingInit(at("X")),
            Event::Ran(World::exit(1, ""))
        ),
        Some(Step {
            state: Progress::AwaitingCreate(at("X")),
            notice: Some(at("Attempting to create new repo X")),
            action: Action::Run(Command {
                program: at("/usr/bin/gh"),
                args: vec![at("repo"), at("create"), at("X"), at("--public")],
                capture: false,
            }),
        })
    );
    assert_eq!(
        new_remote_repo(
            &cfg,
            &none,
            true,
            Progress::AwaitingOrigin(at("X")),
            Event::Ran(World::exit(2, ""))
        ),
        Some(Step {
            state: Progress::Finished,
            notice: None,
            action: Action::Stop(Err(Failure::CommandFailed(
                Call::AddOrigin,
                Some(2),
                at("exit status: 2")
            ))),
        })
    );
}

fn listing(stdout: &[u8]) -> Event {
    Event::Ran(Some(Exit {
        code: Some(0),
        status: String::from("exit status: 0"),
        stdout: stdout.to_vec(),
    }))
}

fn after_listing(stdout: &[u8]) -> Step {
    let name = Some(String::from("x"));
    let waiting = Progress::AwaitingRemotes(String::from("x"));
    new_remote_repo(&config(), &name, false, waiting, listing(stdout)).unwrap()
}

fn is_duplicate(stdout: &[u8]) -> bool {
    let step = after_listing(stdout);
    if step.action == Action::Stop(Err(Failure::DuplicateRemote)) {
        assert_eq!(step.state, Progress::Finished);
        true
    } else {
        assert_eq!(step.state, Progress::AwaitingCreate(String::from("x")));
        false
    }
}

#[test]
fn remote_named_origin_is_a_duplicate() {
    assert!(is_duplicate(b"origin\thttps://github.com/a/b (fetch)\n"));
    assert!(is_duplicate(
        b"origin\thttps://github.com/a/b (fetch)\norigin\thttps://github.com/a/b (push)\n"
    ));
    assert!(is_duplicate(
        b"backup\t/srv/git/b (fetch)\nbackup\t/srv/git/b (push)\n\
          origin\thttps://github.com/a/b (fetch)\norigin\thttps://github.com/a/b (push)\n"
    ));
    assert!(is_duplicate(b"origin\t"));
    assert!(is_duplicate("caf\u{e9}\t/srv/caf\u{e9} (fetch)\norigin\t/srv/x (fetch)\n".as_bytes()));
}

#[test]
fn origin_elsewhere_in_the_listing_is_no_duplicate() {
    assert!(!is_duplicate(b""));
    assert!(!is_duplicate(
        b"upstream\thttps://github.com/a/origin-fork (fetch)\n\
          upstream\thttps://github.com/a/origin-fork (push)\n"
    ));
    assert!(!is_duplicate(b"origin2\thttps://github.com/a/b (fetch)\n"));
    assert!(!is_duplicate(b"my-origin\thttps://github.com/a/b (fetch)\n"));
    assert!(!is_duplicate(b"upstream\torigin\t(fetch)\n"));
    assert!(!is_duplicate(b"origin"));
    assert!(!is_duplicate(b"origin https://github.com/a/b (fetch)\n"));
    assert!(!is_duplicate(b"origi\nn\thttps://github.com/a/b (fetch)\n"));
}

#[test]
fn listing_that_is_not_text_names_no_remote() {
    assert!(!is_duplicate(b"origin\thttps://github.com/a/\xff (fetch)\n"));
    assert!(!is_duplicate(b"\x80\norigin\t/srv/x (fetch)\n"));
}

#[test]
fn address_that_holds_origin_does_not_stop_the_repo() {
    let mut world = World::empty_dir().with_work_tree();
    world.other_remote = Some("upstream\thttps://github.com/a/origin-fork");
    let file = ParsedFile {
        ssh: None,
        github: Some(GithubParameters { username: Some(String::from("a")) }),
    };
    let cfg = Config::new(None, Loaded::Parsed(file)).unwrap();

    assert_eq!(world.new_repo(&cfg, Some("p"), false), Ok(()));
    assert_eq!(
        world.command_lines(),
        [
            "/usr/bin/git rev-parse --is-inside-work-tree",
            "/usr/bin/git remote -v",
            "/usr/bin/gh repo create p --private",
            "/usr/bin/git remote add origin https://github.com/a/p",
        ]
    );
}

#[test]
fn success_is_exit_code_zero() {
    let cfg = config();
    let ended = |code: Option<i32>, status: &str| {
        Event::Ran(Some(Exit { code, status: String::from(status), stdout: Vec::new() }))
    };
    let delete = |event: Event| remove_remote_repo(&cfg, "x", Progress::AwaitingDelete, event);

    assert_eq!(delete(ended(Some(0), "exit status: 0")), Some(Step::succeed(None)));
    assert_eq!(
        delete(ended(Some(3), "exit status: 3")),
        Some(Step::fail(Failure::CommandFailed(
            Call::Delete,
            Some(3),
            String::from("exit status: 3")
        )))
    );
    assert_eq!(
        delete(ended(None, "signal: 9 (SIGKILL)")),
        Some(Step::fail(Failure::CommandFailed(
            Call::Delete,
            None,
            String::from("signal: 9 (SIGKILL)")
        )))
    );
    assert!(Exit { code: Some(0), status: String::new(), stdout: Vec::new() }.success());
    assert!(!Exit { code: Some(-1), status: String::new(), stdout: Vec::new() }.success());
    assert!(!Exit { code: None, status: String::new(), stdout: Vec::new() }.success());
}

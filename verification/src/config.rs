//! Account settings, as loaded from the configuration file.

use crate::failure::{Failure, FailureView, Field};
use vstd::prelude::*;

verus! {

/// The `[ssh]` table of the configuration file.
#[derive(Clone, Debug, PartialEq, Eq)]
pub struct SshParameters {
    pub username: Option<String>,
    pub host: Option<String>,
}

/// The `[github]` table of the configuration file.
#[derive(Clone, Debug, PartialEq, Eq)]
pub struct GithubParameters {
    pub username: Option<String>,
}

/// The configuration file as it was written: either table may be absent, and
/// so may each key of a table that is present.
#[derive(Clone, Debug, PartialEq, Eq)]
pub struct ParsedFile {
    pub ssh: Option<SshParameters>,
    pub github: Option<GithubParameters>,
}

/// What came of reading and parsing the configuration file.
#[derive(Clone, Debug, PartialEq, Eq)]
pub enum Loaded {
    /// The file could not be opened.
    Unopened,
    /// The file was read and is not valid TOML of the expected shape.
    Malformed,
    /// The file was read and parsed.
    Parsed(ParsedFile),
}

/// The settings in effect: each one is either set to a string or absent.
#[derive(Clone, Debug, PartialEq, Eq)]
pub struct Config {
    pub path: String,
    pub ssh_username: Option<String>,
    pub ssh_host: Option<String>,
    pub gh_username: Option<String>,
}

/// Mathematical value of a [`Config`].
pub ghost struct ConfigView {
    pub path: Seq<char>,
    pub ssh_username: Option<Seq<char>>,
    pub ssh_host: Option<Seq<char>>,
    pub gh_username: Option<Seq<char>>,
}

/// The text of an optional string.
pub open spec fn text_of(value: Option<String>) -> Option<Seq<char>> {
    match value {
        Some(text) => Some(text@),
        None => None,
    }
}

/// The text of an optional string slice.
pub open spec fn slice_text_of(value: Option<&str>) -> Option<Seq<char>> {
    match value {
        Some(text) => Some(text@),
        None => None,
    }
}

impl View for Config {
    type V = ConfigView;

    open spec fn view(&self) -> ConfigView {
        ConfigView {
            path: self.path@,
            ssh_username: text_of(self.ssh_username),
            ssh_host: text_of(self.ssh_host),
            gh_username: text_of(self.gh_username),
        }
    }
}

/// Where the configuration file is looked for when no other path is given.
pub open spec fn default_path() -> Seq<char> {
    "/home/kenny/.config/kli/config.toml"@
}

/// The path the configuration is read from.
pub open spec fn resolved_path(path: Option<Seq<char>>) -> Seq<char> {
    match path {
        Some(given) => given,
        None => default_path(),
    }
}

impl ParsedFile {
    /// The user name of the `[ssh]` table, if the table and the key are there.
    pub open spec fn ssh_username(self) -> Option<Seq<char>> {
        match self.ssh {
            Some(ssh) => text_of(ssh.username),
            None => None,
        }
    }

    /// The host of the `[ssh]` table, if the table and the key are there.
    pub open spec fn ssh_host(self) -> Option<Seq<char>> {
        match self.ssh {
            Some(ssh) => text_of(ssh.host),
            None => None,
        }
    }

    /// The user name of the `[github]` table, if the table and the key are
    /// there.
    pub open spec fn gh_username(self) -> Option<Seq<char>> {
        match self.github {
            Some(github) => text_of(github.username),
            None => None,
        }
    }

    /// The settings that this file gives, read from `path`.
    pub open spec fn settings(self, path: Seq<char>) -> ConfigView {
        ConfigView {
            path,
            ssh_username: self.ssh_username(),
            ssh_host: self.ssh_host(),
            gh_username: self.gh_username(),
        }
    }
}

/// The outcome of loading the configuration from `path`.
pub open spec fn load(path: Seq<char>, file: Loaded) -> Result<ConfigView, FailureView> {
    match file {
        Loaded::Unopened => Err(FailureView::FileOpen(path)),
        Loaded::Malformed => Err(FailureView::Parse),
        Loaded::Parsed(parsed) => Ok(parsed.settings(path)),
    }
}

impl ConfigView {
    /// The value of a field, if it is set.
    pub open spec fn get(self, field: Field) -> Option<Seq<char>> {
        match field {
            Field::GithubUsername => self.gh_username,
            Field::SshUsername => self.ssh_username,
            Field::SshHost => self.ssh_host,
        }
    }

    /// The value of a field, or the failure that names the field.
    pub open spec fn require(self, field: Field) -> Result<Seq<char>, FailureView> {
        match self.get(field) {
            Some(text) => Ok(text),
            None => Err(FailureView::MissingField(field)),
        }
    }
}

/// Whether the result of an accessor and its model agree.
pub open spec fn field_agrees(
    result: Result<&str, Failure>,
    model: Result<Seq<char>, FailureView>,
) -> bool {
    match result {
        Ok(text) => model == Ok::<Seq<char>, FailureView>(text@),
        Err(failure) => model == Err::<Seq<char>, FailureView>(failure@),
    }
}

/// The path the configuration is read from: the one given, or the default.
pub fn config_path(path: Option<&str>) -> (resolved: String)
    ensures
        resolved@ == resolved_path(slice_text_of(path)),
{
    match path {
        Some(given) => String::from_str(given),
        None => String::from_str("/home/kenny/.config/kli/config.toml"),
    }
}

fn required<'a>(value: &'a Option<String>, field: Field) -> (result: Result<&'a str, Failure>)
    ensures
        match text_of(*value) {
            Some(text) => result matches Ok(found) && found@ == text,
            None => result matches Err(failure) && failure@ == FailureView::MissingField(field),
        },
{
    match value {
        Some(text) => Ok(text.as_str()),
        None => Err(Failure::MissingField(field)),
    }
}

impl Config {
    /// Builds the settings from what came of loading the file at `path`, or
    /// at the default path where none is given.
    ///
    /// Fails with `FileOpen`, naming the path, where the file could not be
    /// opened, and with `Parse` where it was malformed. A file that was
    /// parsed always gives settings: a table or a key that it leaves out is
    /// absent from them.
    pub fn new(path: Option<&str>, file: Loaded) -> (result: Result<Config, Failure>)
        ensures
            match result {
                Ok(config) => load(resolved_path(slice_text_of(path)), file) == Ok::<
                    ConfigView,
                    FailureView,
                >(config@),
                Err(failure) => load(resolved_path(slice_text_of(path)), file) == Err::<
                    ConfigView,
                    FailureView,
                >(failure@),
            },
    {
        let path = config_path(path);
        match file {
            Loaded::Unopened => Err(Failure::FileOpen(path)),
            Loaded::Malformed => Err(Failure::Parse),
            Loaded::Parsed(parsed) => {
                let (ssh_username, ssh_host) = match parsed.ssh {
                    Some(ssh) => (ssh.username, ssh.host),
                    None => (None, None),
                };
                let gh_username = match parsed.github {
                    Some(github) => github.username,
                    None => None,
                };
                Ok(Config { path, ssh_username, ssh_host, gh_username })
            },
        }
    }

    /// The GitHub account, or `MissingField` where the file sets none.
    pub fn gh_username(&self) -> (result: Result<&str, Failure>)
        ensures
            field_agrees(result, self@.require(Field::GithubUsername)),
    {
        required(&self.gh_username, Field::GithubUsername)
    }

    /// The SSH user, or `MissingField` where the file sets none.
    pub fn ssh_username(&self) -> (result: Result<&str, Failure>)
        ensures
            field_agrees(result, self@.require(Field::SshUsername)),
    {
        required(&self.ssh_username, Field::SshUsername)
    }

    /// The SSH host, or `MissingField` where the file sets none.
    pub fn ssh_host(&self) -> (result: Result<&str, Failure>)
        ensures
            field_agrees(result, self@.require(Field::SshHost)),
    {
        required(&self.ssh_host, Field::SshHost)
    }
}

} // verus!

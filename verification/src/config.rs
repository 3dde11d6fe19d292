use vstd::prelude::*;
use crate::text::opt_text;

verus! {

/// Command-line options of the client.
#[derive(Debug)]
pub struct Args {
    /// Skip the version check at start-up.
    pub skip: bool,
    pub id: Option<String>,
    /// Configuration file given on the command line.
    pub config_path: Option<String>,
    /// Print nothing.
    pub quiet: bool,
    /// One of `off`, `error`, `warn`, `info`, `debug`, `trace`; `info` when absent.
    pub log_level: Option<String>,
    /// Wait for Enter before exiting (on unless `--no-stay-open` is given).
    pub stay_open: bool,
    pub player_id: Option<String>,
    pub password: Option<String>,
    pub command: Option<Commands>,
}

/// Options of the `mrs` command.
#[derive(Debug)]
pub struct ArgsMRS {
    pub addr: String,
    /// 21011 unless given.
    pub port: u16,
    pub room_id: u32,
    pub player_id: u16,
    pub watch: bool,
}

/// Options of the `als` command.
#[derive(Debug)]
pub struct ArgsALS {
    pub addr: Option<String>,
    pub port: Option<u16>,
    pub room_id: Option<String>,
    pub token: Option<String>,
    /// Off unless given.
    pub watch: bool,
}

/// Options of the `archive` command.
#[derive(Debug)]
pub struct ArgsArchive {
    /// File to save the archive list to; printed when absent.
    pub save_json: Option<String>,
    /// How many archives to fetch; 4 when not given.
    pub limit: Option<u32>,
}

/// The number of archives that the `archive` command fetches unless told otherwise.
pub const DEFAULT_ARCHIVE_LIMIT: u32 = 4;

impl ArgsArchive {
    /// The number of archives to fetch: the one given, or 4.
    pub fn archive_limit(&self) -> (n: u32)
        ensures
            n == match self.limit {
                Some(l) => l,
                None => DEFAULT_ARCHIVE_LIMIT,
            },
    {
        match self.limit {
            Some(l) => l,
            None => DEFAULT_ARCHIVE_LIMIT,
        }
    }
}

/// The client's subcommands.
#[derive(Debug)]
pub enum Commands {
    MRS(ArgsMRS),
    ALS(ArgsALS),
    Archive(ArgsArchive),
}

/// The port that the `mrs` command connects to unless told otherwise.
pub const DEFAULT_MRS_PORT: u16 = 21011;

/// The login state kept between runs.
#[derive(Clone, Debug, PartialEq, Eq)]
pub struct Credential {
    pub player_id: String,
    pub device_specific_id: String,
    pub session_token: Option<String>,
    pub res_version: String,
    pub client_version: String,
}

/// The configuration file's contents.
#[derive(Debug)]
pub struct Config {
    pub credential: Credential,
}

/// `base` extended by `component` as a Unix path (`/` separates components;
/// on Windows `PathBuf` would use `\`): an absolute component
/// replaces the base, and a separator is put between them unless the base is
/// empty or already ends with one.
pub open spec fn path_push(base: Seq<char>, component: Seq<char>) -> Seq<char> {
    if component.len() > 0 && component[0] == '/' {
        component
    } else if base.len() == 0 || base.last() == '/' {
        base + component
    } else {
        base + seq!['/'] + component
    }
}

/// The configuration file kept under a home directory: `.config/linkura-cli/config.json`.
pub open spec fn home_config_path(home: Seq<char>) -> Seq<char> {
    path_push(path_push(path_push(home, ".config"@), "linkura-cli"@), "config.json"@)
}

/// Extends a path by one component, as `PathBuf::push` does on Unix.
pub fn push_path(base: &String, component: &str) -> (p: String)
    ensures
        p@ == path_push(base@, component@),
{
    let n = component.unicode_len();
    if n > 0 && component.get_char(0) == '/' {
        return String::from_str(component);
    }
    let m = base.as_str().unicode_len();
    let mut p = base.clone();
    if m > 0 && base.as_str().get_char(m - 1) != '/' {
        p.append("/");
        proof { reveal_strlit("/"); }
    }
    p.append(component);
    p
}

/// Where the configuration is looked for, and where it is saved.
#[derive(Debug)]
pub struct ConfigManager {
    args_config_path: Option<String>,
    current_dir_config_path: String,
    home_dir_config_path: String,
    runtime_config_path: String,
}

/// The file that the configuration is read from: the one given on the command
/// line if it exists, else the one in the working directory if it exists, else
/// the one in the home directory if it exists; none when none of them exists.
pub open spec fn chosen_config(
    args: Option<Seq<char>>,
    args_exists: bool,
    current: Seq<char>,
    current_exists: bool,
    home: Seq<char>,
    home_exists: bool,
) -> Option<Seq<char>> {
    if args is Some && args_exists {
        args
    } else if current_exists {
        Some(current)
    } else if home_exists {
        Some(home)
    } else {
        None
    }
}

impl ConfigManager {
    /// The configuration file given on the command line.
    pub closed spec fn args_path(&self) -> Option<Seq<char>> {
        opt_text(self.args_config_path)
    }

    /// The configuration file in the working directory.
    pub closed spec fn current_path(&self) -> Seq<char> {
        self.current_dir_config_path@
    }

    /// The configuration file in the home directory.
    pub closed spec fn home_path(&self) -> Seq<char> {
        self.home_dir_config_path@
    }

    /// The configuration file in use: the one loaded, or where a new one is saved.
    pub closed spec fn runtime_path(&self) -> Seq<char> {
        self.runtime_config_path@
    }

    /// Sets up the three places a configuration may come from; until one is
    /// loaded, the one in the home directory is in use. `home` is the user's
    /// home directory, which must be known.
    pub fn new(args_path: Option<String>, home: Option<String>) -> (m: Self)
        requires
            home is Some,
        ensures
            m.args_path() == opt_text(args_path),
            m.current_path() == "linkura-cli_config.json"@,
            m.home_path() == home_config_path(home.unwrap()@),
            m.runtime_path() == m.home_path(),
    {
        let home_dir = match home {
            Some(h) => h,
            None => String::new(),
        };
        let config_dir = push_path(&home_dir, ".config");
        let app_dir = push_path(&config_dir, "linkura-cli");
        let home_dir_config_path = push_path(&app_dir, "config.json");
        let runtime_config_path = home_dir_config_path.clone();
        ConfigManager {
            args_config_path: args_path,
            current_dir_config_path: String::from_str("linkura-cli_config.json"),
            home_dir_config_path,
            runtime_config_path,
        }
    }

    /// The configuration file in use.
    pub fn get_config_path(&self) -> (p: &String)
        ensures
            p@ == self.runtime_path(),
    {
        &self.runtime_config_path
    }

    /// The configuration file given on the command line.
    pub fn args_config_path(&self) -> (p: Option<&String>)
        ensures
            match p {
                Some(s) => self.args_path() == Some(s@),
                None => self.args_path() is None,
            },
    {
        match &self.args_config_path {
            Some(s) => Some(s),
            None => None,
        }
    }

    /// The configuration file in the working directory.
    pub fn current_dir_config_path(&self) -> (p: &String)
        ensures
            p@ == self.current_path(),
    {
        &self.current_dir_config_path
    }

    /// The configuration file in the home directory.
    pub fn home_dir_config_path(&self) -> (p: &String)
        ensures
            p@ == self.home_path(),
    {
        &self.home_dir_config_path
    }

    /// Picks the configuration file to load, given which of the three
    /// candidates exist, and makes it the one in use; when none exists the
    /// file in use stays where it was.
    pub fn choose_config_path(&mut self, args_exists: bool, current_exists: bool, home_exists: bool) -> (chosen: Option<String>)
        ensures
            opt_text(chosen) == chosen_config(
                old(self).args_path(),
                args_exists,
                old(self).current_path(),
                current_exists,
                old(self).home_path(),
                home_exists,
            ),
            final(self).runtime_path() == match chosen {
                Some(p) => p@,
                None => old(self).runtime_path(),
            },
            final(self).args_path() == old(self).args_path(),
            final(self).current_path() == old(self).current_path(),
            final(self).home_path() == old(self).home_path(),
    {
        if args_exists {
            match &self.args_config_path {
                Some(p) => {
                    self.runtime_config_path = p.clone();
                    return Some(p.clone());
                },
                None => {},
            }
        }
        if current_exists {
            self.runtime_config_path = self.current_dir_config_path.clone();
            return Some(self.current_dir_config_path.clone());
        }
        if home_exists {
            self.runtime_config_path = self.home_dir_config_path.clone();
            return Some(self.home_dir_config_path.clone());
        }
        None
    }
}

/// How loading the configuration went.
#[derive(Clone, Copy, PartialEq, Eq, Debug)]
pub enum ConfigLoad {
    /// A file was chosen but could not be read or decoded.
    Failed,
    /// No configuration file exists.
    Missing,
    /// A configuration was read.
    Found,
}

/// What start-up does with the loaded configuration.
#[derive(Clone, Copy, PartialEq, Eq, Debug)]
pub enum StartupAction {
    /// Ask for credentials and build a new configuration.
    CreateCredential,
    /// Compare the stored versions with the ones the servers report.
    CheckVersions,
    /// Use the stored configuration as it is.
    UseStored,
}

/// Start-up builds a new configuration when none could be loaded, and checks
/// the stored versions of a loaded one unless told to skip that.
pub open spec fn spec_startup_action(load: ConfigLoad, skip_version_check: bool) -> StartupAction {
    match load {
        ConfigLoad::Found => if skip_version_check {
            StartupAction::UseStored
        } else {
            StartupAction::CheckVersions
        },
        _ => StartupAction::CreateCredential,
    }
}

/// Decides what start-up does with the outcome of loading the configuration.
pub fn startup_action(load: ConfigLoad, skip_version_check: bool) -> (a: StartupAction)
    ensures
        a == spec_startup_action(load, skip_version_check),
{
    match load {
        ConfigLoad::Found => if skip_version_check {
            StartupAction::UseStored
        } else {
            StartupAction::CheckVersions
        },
        ConfigLoad::Failed => StartupAction::CreateCredential,
        ConfigLoad::Missing => StartupAction::CreateCredential,
    }
}

/// A stored version replaced by the one a server reported.
#[derive(Debug, PartialEq, Eq)]
pub struct VersionChange {
    pub from: String,
    pub to: String,
}

/// The stored version after a check: the reported one when there is one.
pub open spec fn updated_version(stored: Seq<char>, reported: Option<Seq<char>>) -> Seq<char> {
    match reported {
        Some(r) => r,
        None => stored,
    }
}

/// Whether a check changes the stored version.
pub open spec fn version_changes(stored: Seq<char>, reported: Option<Seq<char>>) -> bool {
    reported is Some && reported.unwrap() != stored
}

/// Replaces a stored version by the reported one when they differ, and tells
/// what changed.
fn update_version(stored: &mut String, reported: Option<String>) -> (change: Option<VersionChange>)
    ensures
        final(stored)@ == updated_version(old(stored)@, opt_text(reported)),
        change is Some == version_changes(old(stored)@, opt_text(reported)),
        change matches Some(c) ==> c.from@ == old(stored)@ && c.to@ == final(stored)@,
{
    match reported {
        Some(r) => {
            if r != *stored {
                let from = stored.clone();
                *stored = r.clone();
                Some(VersionChange { from, to: r })
            } else {
                None
            }
        },
        None => None,
    }
}

impl Credential {
    /// Brings the stored resource and client versions up to the ones the
    /// servers reported, and tells which of them changed.
    pub fn apply_versions(&mut self, res_version: Option<String>, client_version: Option<String>) -> (changes: (
        Option<VersionChange>,
        Option<VersionChange>,
    ))
        ensures
            final(self).res_version@ == updated_version(old(self).res_version@, opt_text(res_version)),
            final(self).client_version@ == updated_version(old(self).client_version@, opt_text(client_version)),
            changes.0 is Some == version_changes(old(self).res_version@, opt_text(res_version)),
            changes.1 is Some == version_changes(old(self).client_version@, opt_text(client_version)),
            changes.0 matches Some(c) ==> c.from@ == old(self).res_version@ && c.to@ == final(self).res_version@,
            changes.1 matches Some(c) ==> c.from@ == old(self).client_version@ && c.to@ == final(self).client_version@,
            final(self).player_id == old(self).player_id,
            final(self).device_specific_id == old(self).device_specific_id,
            final(self).session_token == old(self).session_token,
    {
        let res_change = update_version(&mut self.res_version, res_version);
        let client_change = update_version(&mut self.client_version, client_version);
        (res_change, client_change)
    }
}

} // verus!

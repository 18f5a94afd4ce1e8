//! Where an application keeps its data, configuration, cache and home files.
//!
//! The project's directories come from the `directories` crate and depend on
//! the environment of the process; the home directory is looked up by the
//! caller, since that lookup reads a file of the user. Everything computed
//! from them is text: nothing here creates a directory; the caller does, and
//! reports how it went.

use directories::ProjectDirs;
use vstd::prelude::*;

use crate::error::{ApplicationError, ApplicationResult};
use crate::exit::CommonExitCodes;
use crate::sanitizer::{join, joined};

verus! {

/// A file of an application, by the directory it lives under and its path
/// below that directory.
#[derive(Debug)]
pub enum Entry<'a> {
    Data(&'a str),
    Config(&'a str),
    Cache(&'a str),
    Home(&'a str),
}

impl<'a> Entry<'a> {
    /// The name of the directory the entry lives under.
    pub open spec fn spec_repr(&self) -> Seq<char> {
        match self {
            Entry::Data(_) => "data"@,
            Entry::Config(_) => "config"@,
            Entry::Cache(_) => "cache"@,
            Entry::Home(_) => "home"@,
        }
    }

    /// The path of the entry below its directory.
    pub open spec fn spec_path(&self) -> Seq<char> {
        match self {
            Entry::Data(p) => p@,
            Entry::Config(p) => p@,
            Entry::Cache(p) => p@,
            Entry::Home(p) => p@,
        }
    }

    /// Whether the entry lives under the user's home directory, which is
    /// never created on the entry's behalf.
    pub open spec fn spec_is_home(&self) -> bool {
        self is Home
    }

    /// The name of the directory the entry lives under.
    pub fn get_repr(&self) -> (repr: &str)
        ensures
            repr@ == self.spec_repr(),
    {
        match self {
            Entry::Data(_) => "data",
            Entry::Config(_) => "config",
            Entry::Cache(_) => "cache",
            Entry::Home(_) => "home",
        }
    }

    /// The path of the entry below its directory.
    pub fn get_path(&self) -> (path: &str)
        ensures
            path@ == self.spec_path(),
    {
        match self {
            Entry::Data(p) => p,
            Entry::Config(p) => p,
            Entry::Cache(p) => p,
            Entry::Home(p) => p,
        }
    }

    /// Whether the entry lives under the user's home directory.
    pub fn is_home(&self) -> (home: bool)
        ensures
            home == self.spec_is_home(),
    {
        match self {
            Entry::Home(_) => true,
            _ => false,
        }
    }
}

/// The directories that the platform assigns to a project.
#[derive(Debug)]
pub struct ProjectLocations {
    pub data_local_dir: String,
    pub config_dir: String,
    pub cache_dir: String,
}

/// Calls [`directories::ProjectDirs::from`] and reads the three directories
/// that the library uses from what it returns.
///
/// Nothing is claimed of the result: it depends on the environment of the
/// process, and is absent where no home directory can be determined.
#[verifier::external_body]
pub(crate) fn project_locations(qualifier: &str, organization: &str, application: &str) -> (found: Option<
    ProjectLocations,
>) {
    match ProjectDirs::from(qualifier, organization, application) {
        Some(dirs) => Some(
            ProjectLocations {
                data_local_dir: dirs.data_local_dir().to_string_lossy().into_owned(),
                config_dir: dirs.config_dir().to_string_lossy().into_owned(),
                cache_dir: dirs.cache_dir().to_string_lossy().into_owned(),
            },
        ),
        None => None,
    }
}

/// The texts that a [`Paths`] holds.
pub struct PathsView {
    pub app_name: Seq<char>,
    pub data_local_dir: Seq<char>,
    pub config_dir: Seq<char>,
    pub cache_dir: Seq<char>,
    pub home_dir: Seq<char>,
}

impl PathsView {
    /// The platform directory that an entry lives under.
    pub open spec fn root_of(self, entry: Entry) -> Seq<char> {
        match entry {
            Entry::Data(_) => self.data_local_dir,
            Entry::Config(_) => self.config_dir,
            Entry::Cache(_) => self.cache_dir,
            Entry::Home(_) => self.home_dir,
        }
    }

    /// The application's own directory for an entry: the application's name
    /// below the platform directory.
    pub open spec fn base_dir(self, entry: Entry) -> Seq<char> {
        joined(self.root_of(entry), self.app_name)
    }

    /// The full path of an entry.
    pub open spec fn entry_path(self, entry: Entry) -> Seq<char> {
        joined(self.base_dir(entry), entry.spec_path())
    }
}

/// The paths of one application.
#[derive(Debug)]
pub struct Paths {
    app_name: String,
    project: ProjectLocations,
    home_dir: String,
}

impl View for Paths {
    type V = PathsView;

    closed spec fn view(&self) -> PathsView {
        PathsView {
            app_name: self.app_name@,
            data_local_dir: self.project.data_local_dir@,
            config_dir: self.project.config_dir@,
            cache_dir: self.project.cache_dir@,
            home_dir: self.home_dir@,
        }
    }
}

/// Whether `error` is the failure to set up with the given code and message.
pub open spec fn is_init_error(error: ApplicationError, code: int, message: Seq<char>) -> bool {
    &&& error is InitError
    &&& error.spec_exit_code() == code
    &&& error.spec_message() == message
}

/// Whether `paths` is what setting up the paths of `app_name` gives, when the
/// platform gave `project` and `home`.
pub open spec fn assembled(
    app_name: Seq<char>,
    project: Option<ProjectLocations>,
    home: Option<String>,
    paths: ApplicationResult<Paths>,
) -> bool {
    match (project, home) {
        (None, _) => paths is Err && is_init_error(
            paths->Err_0,
            CommonExitCodes::DirectoriesFailure.spec_code(),
            "Could not initialize ProjectDirs."@,
        ),
        (Some(_), None) => paths is Err && is_init_error(
            paths->Err_0,
            CommonExitCodes::DirectoriesFailure.spec_code(),
            "Could not initialize UserDirs."@,
        ),
        (Some(dirs), Some(home_dir)) => paths is Ok && paths->Ok_0@ == (PathsView {
            app_name,
            data_local_dir: dirs.data_local_dir@,
            config_dir: dirs.config_dir@,
            cache_dir: dirs.cache_dir@,
            home_dir: home_dir@,
        }),
    }
}

/// Whether `path` is what looking up a file gives that lies at `below` in
/// the application's directory under `root`, when creating that directory
/// went as `created` says. Where no directory is needed `created` does not
/// count.
pub open spec fn located(
    app_name: Seq<char>,
    root: Seq<char>,
    needs_dir: bool,
    below: Seq<char>,
    created: Result<(), String>,
    path: ApplicationResult<String>,
) -> bool {
    if needs_dir && created is Err {
        path is Err && is_init_error(
            path->Err_0,
            CommonExitCodes::StdFsFailure.spec_code(),
            "Could not create base directory. "@ + created->Err_0@,
        )
    } else {
        path is Ok && path->Ok_0@ == joined(joined(root, app_name), below)
    }
}

/// Whether `path` is what looking up `entry` gives. An entry under the home
/// directory needs no directory of its own.
pub open spec fn entry_found(
    paths: PathsView,
    entry: Entry,
    created: Result<(), String>,
    path: ApplicationResult<String>,
) -> bool {
    located(
        paths.app_name,
        paths.root_of(entry),
        !entry.spec_is_home(),
        entry.spec_path(),
        created,
        path,
    )
}

/// The name of the configuration file of an application: hidden by a leading
/// dot where it lies in the home directory.
pub open spec fn config_file_name(app_name: Seq<char>, home: bool) -> Seq<char> {
    if home {
        "."@ + app_name + ".config.toml"@
    } else {
        app_name + ".config.toml"@
    }
}

impl Paths {
    /// Sets up the paths of `app_name` from what the platform gave: fails
    /// where the project's directories are missing, then where the home
    /// directory is.
    pub fn assemble(app_name: &str, project: Option<ProjectLocations>, home: Option<String>) -> (paths:
        ApplicationResult<Paths>)
        ensures
            assembled(app_name@, project, home, paths),
    {
        let project = match project {
            Some(dirs) => dirs,
            None => {
                return Err(
                    ApplicationError::InitError {
                        exit_code: CommonExitCodes::DirectoriesFailure.code(),
                        message: "Could not initialize ProjectDirs.".to_owned(),
                    },
                );
            },
        };
        let home_dir = match home {
            Some(dir) => dir,
            None => {
                return Err(
                    ApplicationError::InitError {
                        exit_code: CommonExitCodes::DirectoriesFailure.code(),
                        message: "Could not initialize UserDirs.".to_owned(),
                    },
                );
            },
        };
        Ok(Paths { app_name: app_name.to_owned(), project, home_dir })
    }

    /// Sets up the paths of `app_name` from the directories that the
    /// platform gives the project and the home directory that the caller
    /// found, if any. Which project directories come back, and whether any
    /// do, is up to the environment: the result is what [`Paths::assemble`]
    /// makes of some answer of the platform and of `home`.
    pub fn new(app_name: &str, home: Option<String>) -> (paths: ApplicationResult<Paths>)
        ensures
            exists|project: Option<ProjectLocations>| assembled(app_name@, project, home, paths),
    {
        let project = project_locations("io.github", "erayerdin", "altbinutils");
        let paths = Paths::assemble(app_name, project, home);
        proof {
            assert(assembled(app_name@, project, home, paths));
        }
        paths
    }

    /// The application's own directory for an entry, which the caller creates
    /// before it looks the entry up unless the entry lives under the home
    /// directory.
    pub fn base_dir(&self, entry: &Entry) -> (dir: String)
        ensures
            dir@ == self@.base_dir(*entry),
    {
        let root = match entry {
            Entry::Data(_) => self.project.data_local_dir.as_str(),
            Entry::Config(_) => self.project.config_dir.as_str(),
            Entry::Cache(_) => self.project.cache_dir.as_str(),
            Entry::Home(_) => self.home_dir.as_str(),
        };
        join(root, self.app_name.as_str())
    }

    /// The full path of an entry. `created` tells how creating the
    /// application's directory for the entry went; a failure there fails the
    /// lookup, except for an entry under the home directory.
    pub fn get_entry(&self, entry: Entry, created: Result<(), String>) -> (path: ApplicationResult<
        String,
    >)
        ensures
            entry_found(self@, entry, created, path),
    {
        let base = self.base_dir(&entry);
        if !entry.is_home() {
            if let Err(reason) = &created {
                let mut message = "Could not create base directory. ".to_owned();
                message.append(reason.as_str());
                return Err(
                    ApplicationError::InitError {
                        exit_code: CommonExitCodes::StdFsFailure.code(),
                        message,
                    },
                );
            }
        }
        Ok(join(base.as_str(), entry.get_path()))
    }

    /// The name of the application's configuration file.
    pub fn config_file_name(&self, home: bool) -> (name: String)
        ensures
            name@ == config_file_name(self@.app_name, home),
    {
        let mut name = if home {
            ".".to_owned()
        } else {
            String::new()
        };
        name.append(self.app_name.as_str());
        name.append(".config.toml");
        proof {
            assert(Seq::<char>::empty() + self.app_name@ =~= self.app_name@);
        }
        name
    }
}

/// The path of the application's configuration file: in the home directory if
/// `home` is set, else in the configuration directory, whose creation went as
/// `created` says.
pub fn get_config_file(paths: &Paths, home: bool, created: Result<(), String>) -> (path:
    ApplicationResult<String>)
    ensures
        located(
            paths@.app_name,
            if home {
                paths@.home_dir
            } else {
                paths@.config_dir
            },
            !home,
            config_file_name(paths@.app_name, home),
            created,
            path,
        ),
{
    let file_name = paths.config_file_name(home);
    if home {
        paths.get_entry(Entry::Home(file_name.as_str()), created)
    } else {
        paths.get_entry(Entry::Config(file_name.as_str()), created)
    }
}

/// The path of the application's log file, in the cache directory, whose
/// creation went as `created` says.
pub fn get_log_file(paths: &Paths, created: Result<(), String>) -> (path: ApplicationResult<
    String,
>)
    ensures
        located(paths@.app_name, paths@.cache_dir, true, "app.log"@, created, path),
{
    paths.get_entry(Entry::Cache("app.log"), created)
}

} // verus!

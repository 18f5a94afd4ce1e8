//! The directories of an application, with owned entry paths.
//!
//! Like [`crate::paths`], but an entry owns its path, and a lookup can stop at
//! the directory that all applications share.

use vstd::prelude::*;

use crate::error::{ApplicationError, ApplicationResult};
use crate::exit::CommonExitCodes;
use crate::paths::{is_init_error, project_locations, ProjectLocations};
use crate::sanitizer::{join, joined};

verus! {

/// An entry in one of the application's directories.
#[derive(Debug)]
pub enum Entry {
    Data(String),
    Config(String),
    Cache(String),
    Home(String),
}

impl Entry {
    /// The path of the entry below its directory.
    pub open spec fn spec_path(&self) -> Seq<char> {
        match self {
            Entry::Data(p) => p@,
            Entry::Config(p) => p@,
            Entry::Cache(p) => p@,
            Entry::Home(p) => p@,
        }
    }

    /// A copy of the path of the entry below its directory.
    pub fn get_path(&self) -> (path: String)
        ensures
            path@ == self.spec_path(),
    {
        match self {
            Entry::Data(p) => p.clone(),
            Entry::Config(p) => p.clone(),
            Entry::Cache(p) => p.clone(),
            Entry::Home(p) => p.clone(),
        }
    }
}

/// The texts that an [`AppData`] holds.
pub struct AppDataView {
    pub app_name: Seq<char>,
    pub data_local_dir: Seq<char>,
    pub config_dir: Seq<char>,
    pub cache_dir: Seq<char>,
    pub home_dir: Seq<char>,
}

impl AppDataView {
    /// The platform directory that an entry lives under.
    pub open spec fn root_of(self, entry: Entry) -> Seq<char> {
        match entry {
            Entry::Data(_) => self.data_local_dir,
            Entry::Config(_) => self.config_dir,
            Entry::Cache(_) => self.cache_dir,
            Entry::Home(_) => self.home_dir,
        }
    }

    /// The path of an entry in the directory that all applications share.
    pub open spec fn shared_path(self, entry: Entry) -> Seq<char> {
        joined(self.root_of(entry), entry.spec_path())
    }

    /// The path of an entry: in the shared directory if `is_root` is set,
    /// else in the application's own directory below the shared path.
    pub open spec fn entry_path(self, entry: Entry, is_root: bool) -> Seq<char> {
        if is_root {
            self.shared_path(entry)
        } else {
            joined(joined(self.shared_path(entry), self.app_name), entry.spec_path())
        }
    }
}

/// The name that stands in for an application that gives none.
pub open spec fn default_app_name() -> Seq<char> {
    "altbinutils"@
}

/// Whether `data` is what setting up the directories of an application gives,
/// when the platform gave `project` and `home`. Each of the two failures has
/// an exit code of its own.
pub open spec fn assembled(
    app_name: Option<Seq<char>>,
    project: Option<ProjectLocations>,
    home: Option<String>,
    data: ApplicationResult<AppData>,
) -> bool {
    match (project, home) {
        (None, _) => data is Err && is_init_error(
            data->Err_0,
            CommonExitCodes::DirectoriesProjectDirsFailure.spec_code(),
            "Could not initialize ProjectDirs."@,
        ),
        (Some(_), None) => data is Err && is_init_error(
            data->Err_0,
            CommonExitCodes::DirectoriesUserDirsFailure.spec_code(),
            "Could not initialize UserDirs."@,
        ),
        (Some(dirs), Some(home_dir)) => data is Ok && data->Ok_0@ == (AppDataView {
            app_name: match app_name {
                Some(name) => name,
                None => default_app_name(),
            },
            data_local_dir: dirs.data_local_dir@,
            config_dir: dirs.config_dir@,
            cache_dir: dirs.cache_dir@,
            home_dir: home_dir@,
        }),
    }
}

/// The name of an optional application name.
pub open spec fn name_of(app_name: Option<&str>) -> Option<Seq<char>> {
    match app_name {
        Some(name) => Some(name@),
        None => None,
    }
}

/// The directories of one application.
#[derive(Debug)]
pub struct AppData {
    app_name: String,
    project: ProjectLocations,
    home_dir: String,
}

impl View for AppData {
    type V = AppDataView;

    closed spec fn view(&self) -> AppDataView {
        AppDataView {
            app_name: self.app_name@,
            data_local_dir: self.project.data_local_dir@,
            config_dir: self.project.config_dir@,
            cache_dir: self.project.cache_dir@,
            home_dir: self.home_dir@,
        }
    }
}

impl AppData {
    /// Sets up the directories of an application from what the platform gave:
    /// fails where the project's directories are missing, then where the home
    /// directory is. An application without a name gets the default one.
    pub fn assemble(
        app_name: Option<&str>,
        project: Option<ProjectLocations>,
        home: Option<String>,
    ) -> (data: ApplicationResult<AppData>)
        ensures
            assembled(name_of(app_name), project, home, data),
    {
        let project = match project {
            Some(dirs) => dirs,
            None => {
                return Err(
                    ApplicationError::InitError {
                        exit_code: CommonExitCodes::DirectoriesProjectDirsFailure.code(),
                        message: "Could not initialize ProjectDirs.".to_owned(),
                    },
                );
            },
        };
        let home_dir = match home {
            Some(dir) => dir,
            None => {
                return Err(
                    ApplicationError::InitError {
                        exit_code: CommonExitCodes::DirectoriesUserDirsFailure.code(),
                        message: "Could not initialize UserDirs.".to_owned(),
                    },
                );
            },
        };
        let app_name = match app_name {
            Some(name) => name.to_owned(),
            None => "altbinutils".to_owned(),
        };
        Ok(AppData { app_name, project, home_dir })
    }

    /// Sets up the directories of an application from the directories that
    /// the platform gives the project and the home directory that the caller
    /// found, if any. Which project directories come back, and whether any
    /// do, is up to the environment: the result is what
    /// [`AppData::assemble`] makes of some answer of the platform and of
    /// `home`.
    pub fn new(app_name: Option<&str>, home: Option<String>) -> (data: ApplicationResult<AppData>)
        ensures
            exists|project: Option<ProjectLocations>|
                assembled(name_of(app_name), project, home, data),
    {
        let project = project_locations("io.github", "erayerdin", "altbinutils");
        let data = AppData::assemble(app_name, project, home);
        proof {
            assert(assembled(name_of(app_name), project, home, data));
        }
        data
    }

    /// The path of an entry: in the directory that all applications share if
    /// `is_root` is set, else in the application's own directory.
    pub fn get_entry(&self, entry: Entry, is_root: bool) -> (path: String)
        ensures
            path@ == self@.entry_path(entry, is_root),
    {
        let root = match &entry {
            Entry::Data(_) => self.project.data_local_dir.as_str(),
            Entry::Config(_) => self.project.config_dir.as_str(),
            Entry::Cache(_) => self.project.cache_dir.as_str(),
            Entry::Home(_) => self.home_dir.as_str(),
        };
        let below = entry.get_path();
        let shared = join(root, below.as_str());
        if is_root {
            return shared;
        }
        let own = join(shared.as_str(), self.app_name.as_str());
        join(own.as_str(), below.as_str())
    }
}

} // verus!

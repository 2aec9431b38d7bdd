use vstd::prelude::*;

verus! {

/// `directories::ProjectDirs`, carried through opaquely.
#[verifier::external_type_specification]
#[verifier::external_body]
pub struct ExProjectDirs(directories::ProjectDirs);

/// `std::path::PathBuf`, carried through opaquely.
#[verifier::external_type_specification]
#[verifier::external_body]
pub struct ExPathBuf(std::path::PathBuf);

/// The qualifier used when none is given.
pub const DEFAULT_QUALIFIER: &'static str = "com.github";

/// Which OS-standard base directory a value lives under.
#[derive(Clone, Copy, Debug, PartialEq, Eq, Structural)]
pub enum DirectoryKind {
    /// The per-user configuration root (`$XDG_CONFIG_HOME` on Linux).
    Config,
    /// The per-user data root (`$XDG_DATA_HOME` on Linux).
    Data,
}

/// Where a persisted value lives: the application's three-part name, the file
/// name inside its directory, and which base directory is used.
pub struct Identity {
    pub qualifier: String,
    pub organization: String,
    pub application: String,
    pub name: String,
    pub kind: DirectoryKind,
}

impl Identity {
    /// Organization and application name are both non-empty.
    pub open spec fn wf(&self) -> bool {
        self.organization@.len() > 0 && self.application@.len() > 0
    }

    /// An identity with the given parts; `None` when the organization or the
    /// application name is empty.
    pub fn new(qualifier: &str, organization: &str, application: &str, name: &str, kind: DirectoryKind) -> (r: Option<Identity>)
        ensures
            r is Some <==> (organization@.len() > 0 && application@.len() > 0),
            r matches Some(id) ==> {
                &&& id.wf()
                &&& id.qualifier@ == qualifier@
                &&& id.organization@ == organization@
                &&& id.application@ == application@
                &&& id.name@ == name@
                &&& id.kind == kind
            },
    {
        if organization.is_empty() || application.is_empty() {
            return None;
        }
        Some(Identity {
            qualifier: qualifier.to_owned(),
            organization: organization.to_owned(),
            application: application.to_owned(),
            name: name.to_owned(),
            kind,
        })
    }

    /// Like `new`, with the default qualifier `com.github`.
    pub fn with_default_qualifier(organization: &str, application: &str, name: &str, kind: DirectoryKind) -> (r: Option<Identity>)
        ensures
            r is Some <==> (organization@.len() > 0 && application@.len() > 0),
            r matches Some(id) ==> {
                &&& id.wf()
                &&& id.qualifier@ == DEFAULT_QUALIFIER@
                &&& id.organization@ == organization@
                &&& id.application@ == application@
                &&& id.name@ == name@
                &&& id.kind == kind
            },
    {
        Identity::new(DEFAULT_QUALIFIER, organization, application, name, kind)
    }

    /// The OS-standard directory of this identity for its kind, not yet created;
    /// `None` when the host has no home directory to resolve it against.
    pub fn base_dir(&self) -> (r: Option<std::path::PathBuf>)
        requires
            self.wf(),
    {
        let dirs = match project_dirs(self.qualifier.as_str(), self.organization.as_str(), self.application.as_str()) {
            None => None,
            Some(d) => Some((config_dir(&d), data_dir(&d))),
        };
        resolved_dir(self.kind, dirs)
    }

    /// The file of this identity inside `dir`.
    pub fn file_in(&self, dir: &std::path::PathBuf) -> std::path::PathBuf {
        file_path(dir, self.name.as_str())
    }
}

/// The directory for `kind`, from the resolved project directories
/// (configuration root, data root); `None` when nothing was resolved.
pub fn resolved_dir(kind: DirectoryKind, dirs: Option<(std::path::PathBuf, std::path::PathBuf)>) -> (r: Option<std::path::PathBuf>)
    ensures
        match dirs {
            None => r is None,
            Some(p) => r == Some(
                match kind {
                    DirectoryKind::Config => p.0,
                    DirectoryKind::Data => p.1,
                },
            ),
        },
{
    match dirs {
        None => None,
        Some((config, data)) => match kind {
            DirectoryKind::Config => Some(config),
            DirectoryKind::Data => Some(data),
        },
    }
}

/// The file `name` inside `dir`.
pub fn file_path(dir: &std::path::PathBuf, name: &str) -> std::path::PathBuf {
    join(dir, name)
}

/// Relies on `directories::ProjectDirs::from`, which resolves the per-project
/// directories from the home directory and the environment; `None` without a home.
#[verifier::external_body]
fn project_dirs(qualifier: &str, organization: &str, application: &str) -> Option<directories::ProjectDirs> {
    directories::ProjectDirs::from(qualifier, organization, application)
}

/// Relies on `directories::ProjectDirs::config_dir`: the project's configuration directory.
#[verifier::external_body]
fn config_dir(dirs: &directories::ProjectDirs) -> std::path::PathBuf {
    dirs.config_dir().to_path_buf()
}

/// Relies on `directories::ProjectDirs::data_dir`: the project's data directory.
#[verifier::external_body]
fn data_dir(dirs: &directories::ProjectDirs) -> std::path::PathBuf {
    dirs.data_dir().to_path_buf()
}

/// Relies on `std::path::Path::join`: `name` appended to `dir` as one more component.
#[verifier::external_body]
fn join(dir: &std::path::PathBuf, name: &str) -> std::path::PathBuf {
    dir.join(name)
}

} // verus!

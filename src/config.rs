//! The launcher's configuration, from the values its environment supplies.
use vstd::prelude::*;
use crate::text::{join_path, path_join, str_eq};
use crate::update::UpdatePaths;

verus! {

/// Where the launcher keeps and installs things, and how it behaves.
#[derive(Debug, Clone)]
pub struct LauncherConfig {
    /// The managed data directory.
    pub data_dir: String,
    /// The managed virtual environment: `data_dir/venv`.
    pub venv_dir: String,
    /// The helper tool's binary: `data_dir/uv`.
    pub uv_path: String,
    /// The installed-version file: `data_dir/installed_version`.
    pub version_file: String,
    /// The directory of the installed launcher binary.
    pub bin_dir: String,
    /// The installed launcher binary: `bin_dir/concierge`.
    pub installed_bin: String,
    /// Whether the passive update check is off.
    pub skip_update: bool,
    /// The package installed into the virtual environment.
    pub package_name: String,
    /// Extras of the package to install, if any.
    pub pypi_extra: Option<String>,
}

/// Why no configuration could be made.
#[derive(Debug, Clone, Copy, PartialEq, Eq, Structural)]
pub enum ConfigError {
    /// No home directory, nor an override, to place files under.
    NoHomeDir,
}

/// What the environment says that the configuration depends on.
#[derive(Debug, Clone)]
pub struct ConfigSources {
    /// The data directory override (`CONCIERGE_DATA_DIR`).
    pub data_dir_override: Option<String>,
    /// The platform's local data directory.
    pub data_local_dir: Option<String>,
    /// The platform's directory for user executables.
    pub executable_dir: Option<String>,
    /// The user's home directory.
    pub home_dir: Option<String>,
    /// The value of `CONCIERGE_NO_UPDATE_CHECK`.
    pub no_update_check: Option<String>,
    /// The value of `CONCIERGE_EXTRA`.
    pub extra: Option<String>,
}

/// The data directory that `src` gives, if any.
pub open spec fn data_dir_of(src: ConfigSources) -> Option<Seq<char>> {
    match src.data_dir_override {
        Some(d) => Some(d@),
        None => match src.data_local_dir {
            Some(l) => Some(path_join(l@, "agentic-concierge"@)),
            None => None,
        },
    }
}

/// The executable directory that `src` gives, if any.
pub open spec fn bin_dir_of(src: ConfigSources) -> Option<Seq<char>> {
    match src.executable_dir {
        Some(d) => Some(d@),
        None => match src.home_dir {
            Some(h) => Some(path_join(path_join(h@, ".local"@), "bin"@)),
            None => None,
        },
    }
}

/// Makes the configuration from what the environment supplies.
pub fn launcher_config(src: ConfigSources) -> (r: Result<LauncherConfig, ConfigError>)
    ensures
        r is Err <==> data_dir_of(src) is None || bin_dir_of(src) is None,
        r is Err ==> r == Err::<LauncherConfig, ConfigError>(ConfigError::NoHomeDir),
        r matches Ok(c) ==> {
            &&& Some(c.data_dir@) == data_dir_of(src)
            &&& Some(c.bin_dir@) == bin_dir_of(src)
            &&& c.venv_dir@ == path_join(c.data_dir@, "venv"@)
            &&& c.uv_path@ == path_join(c.data_dir@, "uv"@)
            &&& c.version_file@ == path_join(c.data_dir@, "installed_version"@)
            &&& c.installed_bin@ == path_join(c.bin_dir@, "concierge"@)
            &&& c.skip_update == (src.no_update_check matches Some(v) && v@ == "1"@)
            &&& c.package_name@ == "agentic-concierge"@
            &&& c.pypi_extra == src.extra
        },
{
    let data_dir = match src.data_dir_override {
        Some(d) => d,
        None => match src.data_local_dir {
            Some(l) => join_path(l.as_str(), "agentic-concierge"),
            None => return Err(ConfigError::NoHomeDir),
        },
    };
    let bin_dir = match src.executable_dir {
        Some(d) => d,
        None => match src.home_dir {
            Some(h) => {
                let local = join_path(h.as_str(), ".local");
                join_path(local.as_str(), "bin")
            },
            None => return Err(ConfigError::NoHomeDir),
        },
    };
    let skip_update = match &src.no_update_check {
        Some(v) => str_eq(v.as_str(), "1"),
        None => false,
    };
    let venv_dir = join_path(data_dir.as_str(), "venv");
    let uv_path = join_path(data_dir.as_str(), "uv");
    let version_file = join_path(data_dir.as_str(), "installed_version");
    let installed_bin = join_path(bin_dir.as_str(), "concierge");
    Ok(LauncherConfig {
        data_dir,
        venv_dir,
        uv_path,
        version_file,
        bin_dir,
        installed_bin,
        skip_update,
        package_name: String::from_str("agentic-concierge"),
        pypi_extra: src.extra,
    })
}

impl LauncherConfig {
    /// The files of a self-update: the binary and its signature are staged in
    /// the data directory, and the installed binary is replaced.
    pub fn update_paths(&self) -> (r: UpdatePaths)
        ensures
            r.staging_binary@ == path_join(self.data_dir@, "concierge.new"@),
            r.staging_signature@ == path_join(self.data_dir@, "concierge.new.sig"@),
            r.installed@ == self.installed_bin@,
    {
        UpdatePaths {
            staging_binary: join_path(self.data_dir.as_str(), "concierge.new"),
            staging_signature: join_path(self.data_dir.as_str(), "concierge.new.sig"),
            installed: self.installed_bin.clone(),
        }
    }

    /// Where the helper tool is staged before it is renamed into place.
    pub fn uv_staging_path(&self) -> (r: String)
        ensures
            r@ == path_join(self.data_dir@, "uv.new"@),
    {
        join_path(self.data_dir.as_str(), "uv.new")
    }
}

} // verus!

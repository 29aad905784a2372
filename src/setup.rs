//! Decisions of the environment setup: which Python to use, and the commands
//! that create the managed virtual environment and install the package.
use vstd::prelude::*;
use crate::text::{
    concat3, contains, contains_seq, has_prefix, join_path, parse_u32, parse_u32_of, path_join,
    split_first, split_first_char, strip_prefix, trim, trim_ws,
};

verus! {

/// Why the environment could not be set up.
#[derive(Debug, Clone, PartialEq, Eq)]
pub enum SetupError {
    /// No Python of version 3.10 or later, and the helper tool could not be installed.
    NoPython,
    /// Creating the virtual environment failed.
    VenvCreation(String),
    /// Installing the package failed, with the installer's exit code and error output.
    PackageInstall { code: i32, stderr: String },
    /// The helper tool is missing after its installation.
    UvNotExecutable,
    /// Creating the data directory or writing the installed-version file failed.
    Filesystem,
    /// An event arrived that the setup was not waiting for.
    OutOfOrder,
}

/// A setup error, over plain values.
pub enum SetupErrorModel {
    NoPython,
    VenvCreation(Seq<char>),
    PackageInstall(i32, Seq<char>),
    UvNotExecutable,
    Filesystem,
    OutOfOrder,
}

impl View for SetupError {
    type V = SetupErrorModel;

    open spec fn view(&self) -> SetupErrorModel {
        match self {
            SetupError::NoPython => SetupErrorModel::NoPython,
            SetupError::VenvCreation(m) => SetupErrorModel::VenvCreation(m@),
            SetupError::PackageInstall { code, stderr } => SetupErrorModel::PackageInstall(
                *code,
                stderr@,
            ),
            SetupError::UvNotExecutable => SetupErrorModel::UvNotExecutable,
            SetupError::Filesystem => SetupErrorModel::Filesystem,
            SetupError::OutOfOrder => SetupErrorModel::OutOfOrder,
        }
    }
}

/// The major and minor version that `python --version` reports in `s`.
pub open spec fn python_version_of(s: Seq<char>) -> Option<(u32, u32)> {
    let t = trim_ws(s);
    if !has_prefix(t, "Python "@) {
        None
    } else {
        let u = trim_ws(t.subrange("Python "@.len() as int, t.len() as int));
        match split_first(u, '.') {
            None => None,
            Some((a, rest)) => {
                let b = match split_first(rest, '.') {
                    Some((b, _)) => b,
                    None => rest,
                };
                match (parse_u32_of(a), parse_u32_of(b)) {
                    (Some(x), Some(y)) => Some((x, y)),
                    _ => None,
                }
            },
        }
    }
}

/// Reads `Python X.Y[.Z]` into `(X, Y)`.
pub fn parse_python_version(s: &str) -> (r: Option<(u32, u32)>)
    ensures
        r == python_version_of(s@),
{
    let t = trim(s);
    let rest = match strip_prefix(t.as_str(), "Python ") {
        Some(rest) => rest,
        None => return None,
    };
    let u = trim(rest.as_str());
    let (a, tail) = match split_first_char(u.as_str(), '.') {
        Some(parts) => parts,
        None => return None,
    };
    let b = match split_first_char(tail.as_str(), '.') {
        Some((b, _)) => b,
        None => tail,
    };
    let major = match parse_u32(a.as_str()) {
        Some(x) => x,
        None => return None,
    };
    let minor = match parse_u32(b.as_str()) {
        Some(y) => y,
        None => return None,
    };
    Some((major, minor))
}

/// Whether a Python version is recent enough: 3.10 or later.
pub open spec fn python_supported(v: (u32, u32)) -> bool {
    v.0 > 3 || (v.0 == 3 && v.1 >= 10)
}

/// The output of `python --version` that names the version: standard
/// output where it mentions Python, standard error otherwise.
pub open spec fn version_output_of(stdout: Seq<char>, stderr: Seq<char>) -> Seq<char> {
    if contains_seq(stdout, "Python"@) {
        stdout
    } else {
        stderr
    }
}

/// Whether a run of `python --version` shows a usable interpreter.
pub open spec fn python_accepted(success: bool, stdout: Seq<char>, stderr: Seq<char>) -> bool {
    success && match python_version_of(version_output_of(stdout, stderr)) {
        Some(v) => python_supported(v),
        None => false,
    }
}

/// Decides from a run of `python --version` whether that interpreter will do.
pub fn accepts_python(success: bool, stdout: &str, stderr: &str) -> (r: bool)
    ensures
        r == python_accepted(success, stdout@, stderr@),
{
    if !success {
        return false;
    }
    let out = if contains(stdout, "Python") {
        stdout
    } else {
        stderr
    };
    match parse_python_version(out) {
        Some((major, minor)) => major > 3 || (major == 3 && minor >= 10),
        None => false,
    }
}

/// The path that `which` printed.
pub fn which_output_path(stdout: &str) -> (r: String)
    ensures
        r@ == trim_ws(stdout@),
{
    trim(stdout)
}

/// The version recorded in the installed-version file.
pub fn installed_version_from(contents: &str) -> (r: String)
    ensures
        r@ == trim_ws(contents@),
{
    trim(contents)
}

/// A program to run, with its arguments.
pub struct CommandSpec {
    pub program: String,
    pub args: Vec<String>,
}

pub open spec fn strings_view(v: Seq<String>) -> Seq<Seq<char>> {
    v.map_values(|s: String| s@)
}

pub open spec fn command_view(c: CommandSpec) -> (Seq<char>, Seq<Seq<char>>) {
    (c.program@, strings_view(c.args@))
}

/// The command that creates the virtual environment, over plain values.
pub open spec fn venv_command_of(python: Option<Seq<char>>, uv_path: Seq<char>, venv_dir: Seq<char>) -> (
    Seq<char>,
    Seq<Seq<char>>,
) {
    match python {
        Some(py) => (py, seq!["-m"@, "venv"@, venv_dir]),
        None => (uv_path, seq!["venv"@, "--python"@, "3.12"@, venv_dir]),
    }
}

/// The package to install, over plain values.
pub open spec fn package_spec_of(name: Seq<char>, extra: Option<Seq<char>>) -> Seq<char> {
    match extra {
        Some(x) => name + "["@ + x + "]"@,
        None => name,
    }
}

/// The command that installs `spec` into the virtual environment, over plain values.
pub open spec fn pip_command_of(venv_dir: Seq<char>, spec: Seq<char>) -> (Seq<char>, Seq<Seq<char>>) {
    (path_join(path_join(venv_dir, "bin"@), "pip"@), seq!["install"@, "--upgrade"@, spec])
}

/// The launcher entry point inside the virtual environment, over plain values.
pub open spec fn concierge_bin_of(venv_dir: Seq<char>) -> Seq<char> {
    path_join(path_join(venv_dir, "bin"@), "concierge"@)
}

/// The launcher entry point inside the virtual environment.
pub fn venv_concierge_bin(venv_dir: &str) -> (r: String)
    ensures
        r@ == concierge_bin_of(venv_dir@),
{
    let bin = join_path(venv_dir, "bin");
    join_path(bin.as_str(), "concierge")
}

/// The package installer inside the virtual environment.
pub fn venv_pip(venv_dir: &str) -> (r: String)
    ensures
        r@ == path_join(path_join(venv_dir@, "bin"@), "pip"@),
{
    let bin = join_path(venv_dir, "bin");
    join_path(bin.as_str(), "pip")
}

/// The command that creates the virtual environment: with the found Python's
/// `venv` module, or else with the helper tool and Python 3.12.
pub fn venv_command(python: &Option<String>, uv_path: &str, venv_dir: &str) -> (r: CommandSpec)
    ensures
        command_view(r) == venv_command_of(
            match python {
                Some(py) => Some(py@),
                None => None,
            },
            uv_path@,
            venv_dir@,
        ),
{
    let mut args: Vec<String> = Vec::new();
    match python {
        Some(py) => {
            args.push(String::from_str("-m"));
            args.push(String::from_str("venv"));
            args.push(String::from_str(venv_dir));
            assert(strings_view(args@) =~= seq!["-m"@, "venv"@, venv_dir@]);
            CommandSpec { program: py.clone(), args }
        },
        None => {
            args.push(String::from_str("venv"));
            args.push(String::from_str("--python"));
            args.push(String::from_str("3.12"));
            args.push(String::from_str(venv_dir));
            assert(strings_view(args@) =~= seq!["venv"@, "--python"@, "3.12"@, venv_dir@]);
            CommandSpec { program: String::from_str(uv_path), args }
        },
    }
}

/// The package to install: `name`, or `name[extra]` with an extra.
pub fn package_spec(name: &str, extra: &Option<String>) -> (r: String)
    ensures
        r@ == package_spec_of(
            name@,
            match extra {
                Some(x) => Some(x@),
                None => None,
            },
        ),
{
    match extra {
        Some(x) => {
            let mut r = concat3(name, "[", x.as_str());
            r.append("]");
            r
        },
        None => String::from_str(name),
    }
}

/// The package pinned to one version: `name==version`.
pub fn pinned_package_spec(name: &str, version: &str) -> (r: String)
    ensures
        r@ == name@ + "=="@ + version@,
{
    concat3(name, "==", version)
}

/// The command that installs or upgrades `spec` into the virtual environment.
pub fn pip_install_command(venv_dir: &str, spec: &str) -> (r: CommandSpec)
    ensures
        command_view(r) == pip_command_of(venv_dir@, spec@),
{
    let mut args: Vec<String> = Vec::new();
    args.push(String::from_str("install"));
    args.push(String::from_str("--upgrade"));
    args.push(String::from_str(spec));
    assert(strings_view(args@) =~= seq!["install"@, "--upgrade"@, spec@]);
    CommandSpec { program: venv_pip(venv_dir), args }
}

/// The outcome of creating the virtual environment; `with_uv` tells which
/// tool was used.
pub fn venv_outcome(success: bool, with_uv: bool) -> (r: Result<(), SetupError>)
    ensures
        success ==> r is Ok,
        !success && !with_uv ==> (r matches Err(SetupError::VenvCreation(m)) && m@
            == "venv creation failed"@),
        !success && with_uv ==> (r matches Err(SetupError::VenvCreation(m)) && m@
            == "uv venv creation failed"@),
{
    if success {
        Ok(())
    } else if with_uv {
        Err(SetupError::VenvCreation(String::from_str("uv venv creation failed")))
    } else {
        Err(SetupError::VenvCreation(String::from_str("venv creation failed")))
    }
}

/// The outcome of a package installation: its exit code (`-1` where there
/// is none) and error output on failure.
pub fn install_outcome(success: bool, code: Option<i32>, stderr: String) -> (r: Result<
    (),
    SetupError,
>)
    ensures
        success ==> r is Ok,
        !success ==> (r matches Err(SetupError::PackageInstall { code: c, stderr: e }) && e@
            == stderr@ && c == match code {
            Some(k) => k as int,
            None => -1int,
        }),
{
    if success {
        Ok(())
    } else {
        let c: i32 = match code {
            Some(k) => k,
            None => -1,
        };
        Err(SetupError::PackageInstall { code: c, stderr })
    }
}

} // verus!

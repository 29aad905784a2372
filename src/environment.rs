//! Setting up the managed environment: find a Python, or provision the helper
//! tool, create the virtual environment, and install the package.
use vstd::prelude::*;
use crate::config::LauncherConfig;
use crate::setup::{
    accepts_python, concierge_bin_of, install_outcome, package_spec, package_spec_of,
    pip_command_of, pip_install_command, python_accepted, venv_command, venv_command_of,
    venv_concierge_bin, venv_outcome, which_output_path, CommandSpec, SetupError, SetupErrorModel,
    command_view,
};
use crate::text::trim_ws;
use crate::version::LAUNCHER_VERSION;

verus! {

/// Where the setup stands.
#[derive(Debug, Clone, Copy, PartialEq, Eq, Structural)]
pub enum SetupStage {
    AwaitBinCheck,
    AwaitDataDir,
    AwaitProbe,
    AwaitWhich,
    AwaitTool,
    AwaitVenv,
    AwaitInstall,
    AwaitVersionFile,
    Finished,
}

/// The outcome of the action that the setup last asked for.
pub enum SetupEvent {
    /// Whether the checked path exists.
    Exists(bool),
    /// Whether a filesystem action, or provisioning the helper tool, succeeded.
    Done(bool),
    /// A run of `python --version`: whether it succeeded, and its two outputs.
    Probed { success: bool, stdout: String, stderr: String },
    /// What `which` printed, where it succeeded.
    Located(Option<String>),
    /// A command run: whether it started, whether it succeeded, its exit
    /// code, and its error output (or why it did not start).
    Ran { spawned: bool, success: bool, code: Option<i32>, output: String },
}

/// What the setup asks its caller to do next.
pub enum SetupAction {
    /// Check whether `path` exists.
    CheckExists { path: String },
    /// Create the directory `path` and its parents.
    CreateDir { path: String },
    /// Run `program --version`.
    ProbePython { program: String },
    /// Run `which name`.
    Which { name: String },
    /// Install the helper tool unless it is present.
    ProvisionTool,
    /// Run a command.
    Run { command: CommandSpec },
    /// Write `contents` to the file `path`.
    WriteFile { path: String, contents: String },
    /// End with the entry point's path, or the error.
    Finish { result: Result<String, SetupError> },
}

pub enum SetupEventModel {
    Exists(bool),
    Done(bool),
    Probed(bool, Seq<char>, Seq<char>),
    Located(Option<Seq<char>>),
    Ran(bool, bool, Option<i32>, Seq<char>),
}

pub enum SetupActionModel {
    CheckExists(Seq<char>),
    CreateDir(Seq<char>),
    ProbePython(Seq<char>),
    Which(Seq<char>),
    ProvisionTool,
    Run((Seq<char>, Seq<Seq<char>>)),
    WriteFile(Seq<char>, Seq<char>),
    Finish(Result<Seq<char>, SetupErrorModel>),
}

impl View for SetupEvent {
    type V = SetupEventModel;

    open spec fn view(&self) -> SetupEventModel {
        match self {
            SetupEvent::Exists(b) => SetupEventModel::Exists(*b),
            SetupEvent::Done(b) => SetupEventModel::Done(*b),
            SetupEvent::Probed { success, stdout, stderr } => SetupEventModel::Probed(
                *success,
                stdout@,
                stderr@,
            ),
            SetupEvent::Located(Some(p)) => SetupEventModel::Located(Some(p@)),
            SetupEvent::Located(None) => SetupEventModel::Located(None),
            SetupEvent::Ran { spawned, success, code, output } => SetupEventModel::Ran(
                *spawned,
                *success,
                *code,
                output@,
            ),
        }
    }
}

impl View for SetupAction {
    type V = SetupActionModel;

    open spec fn view(&self) -> SetupActionModel {
        match self {
            SetupAction::CheckExists { path } => SetupActionModel::CheckExists(path@),
            SetupAction::CreateDir { path } => SetupActionModel::CreateDir(path@),
            SetupAction::ProbePython { program } => SetupActionModel::ProbePython(program@),
            SetupAction::Which { name } => SetupActionModel::Which(name@),
            SetupAction::ProvisionTool => SetupActionModel::ProvisionTool,
            SetupAction::Run { command } => SetupActionModel::Run(command_view(*command)),
            SetupAction::WriteFile { path, contents } => SetupActionModel::WriteFile(
                path@,
                contents@,
            ),
            SetupAction::Finish { result: Ok(p) } => SetupActionModel::Finish(Ok(p@)),
            SetupAction::Finish { result: Err(e) } => SetupActionModel::Finish(Err(e@)),
        }
    }
}

/// The setup, over plain values.
pub struct SetupModel {
    pub stage: SetupStage,
    pub candidate: int,
    pub python: Option<Seq<char>>,
    pub data_dir: Seq<char>,
    pub venv_dir: Seq<char>,
    pub uv_path: Seq<char>,
    pub version_file: Seq<char>,
    pub package_name: Seq<char>,
    pub extra: Option<Seq<char>>,
}

/// The interpreter names tried, in order.
pub open spec fn python_candidate(i: int) -> Seq<char> {
    if i == 0 {
        "python3"@
    } else {
        "python"@
    }
}

pub open spec fn set_stage(s: SetupModel, stage: SetupStage) -> SetupModel {
    SetupModel { stage, ..s }
}

pub open spec fn setup_finish(s: SetupModel, r: Result<Seq<char>, SetupErrorModel>) -> (
    SetupModel,
    SetupActionModel,
) {
    (set_stage(s, SetupStage::Finished), SetupActionModel::Finish(r))
}

/// Try the next interpreter name, or provision the helper tool when none is left.
pub open spec fn next_candidate(s: SetupModel) -> (SetupModel, SetupActionModel) {
    if s.candidate + 1 < 2 {
        (
            SetupModel { stage: SetupStage::AwaitProbe, candidate: s.candidate + 1, ..s },
            SetupActionModel::ProbePython(python_candidate(s.candidate + 1)),
        )
    } else {
        (set_stage(s, SetupStage::AwaitTool), SetupActionModel::ProvisionTool)
    }
}

/// Create the virtual environment with `python`, or with the helper tool.
pub open spec fn create_venv(s: SetupModel, python: Option<Seq<char>>) -> (SetupModel, SetupActionModel) {
    (
        SetupModel { stage: SetupStage::AwaitVenv, python, ..s },
        SetupActionModel::Run(venv_command_of(python, s.uv_path, s.venv_dir)),
    )
}

/// The setup as it begins: check for an existing entry point.
pub open spec fn setup_begin(c: LauncherConfig) -> SetupModel {
    SetupModel {
        stage: SetupStage::AwaitBinCheck,
        candidate: 0,
        python: None,
        data_dir: c.data_dir@,
        venv_dir: c.venv_dir@,
        uv_path: c.uv_path@,
        version_file: c.version_file@,
        package_name: c.package_name@,
        extra: match c.pypi_extra {
            Some(x) => Some(x@),
            None => None,
        },
    }
}

/// One step of the setup: the next state and the action it asks for.
pub open spec fn setup_next(s: SetupModel, e: SetupEventModel) -> (SetupModel, SetupActionModel) {
    match (s.stage, e) {
        (SetupStage::AwaitBinCheck, SetupEventModel::Exists(true)) => setup_finish(
            s,
            Ok(concierge_bin_of(s.venv_dir)),
        ),
        (SetupStage::AwaitBinCheck, SetupEventModel::Exists(false)) => (
            set_stage(s, SetupStage::AwaitDataDir),
            SetupActionModel::CreateDir(s.data_dir),
        ),
        (SetupStage::AwaitDataDir, SetupEventModel::Done(true)) => (
            SetupModel { stage: SetupStage::AwaitProbe, candidate: 0, ..s },
            SetupActionModel::ProbePython(python_candidate(0)),
        ),
        (SetupStage::AwaitDataDir, SetupEventModel::Done(false)) => setup_finish(
            s,
            Err(SetupErrorModel::Filesystem),
        ),
        (SetupStage::AwaitProbe, SetupEventModel::Probed(ok, out, err)) => {
            if python_accepted(ok, out, err) {
                (
                    set_stage(s, SetupStage::AwaitWhich),
                    SetupActionModel::Which(python_candidate(s.candidate)),
                )
            } else {
                next_candidate(s)
            }
        },
        (SetupStage::AwaitWhich, SetupEventModel::Located(Some(out))) => create_venv(
            s,
            Some(trim_ws(out)),
        ),
        (SetupStage::AwaitWhich, SetupEventModel::Located(None)) => next_candidate(s),
        (SetupStage::AwaitTool, SetupEventModel::Done(true)) => create_venv(s, None),
        (SetupStage::AwaitTool, SetupEventModel::Done(false)) => setup_finish(
            s,
            Err(SetupErrorModel::NoPython),
        ),
        (SetupStage::AwaitVenv, SetupEventModel::Ran(spawned, success, _, out)) => {
            if !spawned {
                setup_finish(s, Err(SetupErrorModel::VenvCreation(out)))
            } else if !success {
                setup_finish(
                    s,
                    Err(SetupErrorModel::VenvCreation(
                        if s.python is None {
                            "uv venv creation failed"@
                        } else {
                            "venv creation failed"@
                        },
                    )),
                )
            } else {
                (
                    set_stage(s, SetupStage::AwaitInstall),
                    SetupActionModel::Run(
                        pip_command_of(s.venv_dir, package_spec_of(s.package_name, s.extra)),
                    ),
                )
            }
        },
        (SetupStage::AwaitInstall, SetupEventModel::Ran(spawned, success, code, out)) => {
            if !spawned {
                setup_finish(s, Err(SetupErrorModel::PackageInstall(-1i32, out)))
            } else if !success {
                setup_finish(
                    s,
                    Err(SetupErrorModel::PackageInstall(
                        match code {
                            Some(k) => k,
                            None => -1i32,
                        },
                        out,
                    )),
                )
            } else {
                (
                    set_stage(s, SetupStage::AwaitVersionFile),
                    SetupActionModel::WriteFile(s.version_file, LAUNCHER_VERSION@),
                )
            }
        },
        (SetupStage::AwaitVersionFile, SetupEventModel::Done(true)) => setup_finish(
            s,
            Ok(concierge_bin_of(s.venv_dir)),
        ),
        (SetupStage::AwaitVersionFile, SetupEventModel::Done(false)) => setup_finish(
            s,
            Err(SetupErrorModel::Filesystem),
        ),
        (SetupStage::Finished, _) => (s, SetupActionModel::Finish(Err(SetupErrorModel::OutOfOrder))),
        _ => setup_finish(s, Err(SetupErrorModel::OutOfOrder)),
    }
}

/// The state of one environment setup.
pub struct SetupFlow {
    stage: SetupStage,
    candidate: usize,
    python: Option<String>,
    data_dir: String,
    venv_dir: String,
    uv_path: String,
    version_file: String,
    package_name: String,
    extra: Option<String>,
}

impl View for SetupFlow {
    type V = SetupModel;

    closed spec fn view(&self) -> SetupModel {
        SetupModel {
            stage: self.stage,
            candidate: self.candidate as int,
            python: match self.python {
                Some(p) => Some(p@),
                None => None,
            },
            data_dir: self.data_dir@,
            venv_dir: self.venv_dir@,
            uv_path: self.uv_path@,
            version_file: self.version_file@,
            package_name: self.package_name@,
            extra: match self.extra {
                Some(x) => Some(x@),
                None => None,
            },
        }
    }
}

pub open spec fn wf_candidate(s: SetupModel) -> bool {
    0 <= s.candidate < 2
}

fn candidate_name(i: usize) -> (r: String)
    ensures
        r@ == python_candidate(i as int),
{
    if i == 0 {
        String::from_str("python3")
    } else {
        String::from_str("python")
    }
}

fn clone_opt(o: &Option<String>) -> (r: Option<String>)
    ensures
        match (o, r) {
            (Some(a), Some(b)) => a@ == b@,
            (None, None) => true,
            _ => false,
        },
{
    match o {
        Some(x) => Some(x.clone()),
        None => None,
    }
}

impl SetupFlow {
    /// Starts setting up the environment that `config` describes; the first
    /// action checks for an existing entry point.
    pub fn new(config: &LauncherConfig) -> (r: (SetupFlow, SetupAction))
        ensures
            r.0@ == setup_begin(*config),
            r.1@ == SetupActionModel::CheckExists(concierge_bin_of(config.venv_dir@)),
    {
        let flow = SetupFlow {
            stage: SetupStage::AwaitBinCheck,
            candidate: 0,
            python: None,
            data_dir: config.data_dir.clone(),
            venv_dir: config.venv_dir.clone(),
            uv_path: config.uv_path.clone(),
            version_file: config.version_file.clone(),
            package_name: config.package_name.clone(),
            extra: clone_opt(&config.pypi_extra),
        };
        let action = SetupAction::CheckExists { path: venv_concierge_bin(config.venv_dir.as_str()) };
        (flow, action)
    }

    /// The stage the setup has reached.
    pub fn stage(&self) -> (r: SetupStage)
        ensures
            r == self@.stage,
    {
        self.stage
    }

    fn finish_with(&mut self, result: Result<String, SetupError>) -> (a: SetupAction)
        ensures
            final(self)@ == set_stage(old(self)@, SetupStage::Finished),
            a == (SetupAction::Finish { result }),
    {
        self.stage = SetupStage::Finished;
        SetupAction::Finish { result }
    }

    fn next_candidate(&mut self) -> (a: SetupAction)
        requires
            wf_candidate(old(self)@),
        ensures
            (final(self)@, a@) == next_candidate(old(self)@),
    {
        if self.candidate + 1 < 2 {
            self.candidate = self.candidate + 1;
            self.stage = SetupStage::AwaitProbe;
            SetupAction::ProbePython { program: candidate_name(self.candidate) }
        } else {
            self.stage = SetupStage::AwaitTool;
            SetupAction::ProvisionTool
        }
    }

    fn create_venv(&mut self, python: Option<String>) -> (a: SetupAction)
        ensures
            (final(self)@, a@) == create_venv(
                old(self)@,
                match python {
                    Some(p) => Some(p@),
                    None => None,
                },
            ),
    {
        let command = venv_command(&python, self.uv_path.as_str(), self.venv_dir.as_str());
        self.python = python;
        self.stage = SetupStage::AwaitVenv;
        SetupAction::Run { command }
    }

    /// Takes the outcome of the last action and returns the next one.
    pub fn step(&mut self, event: SetupEvent) -> (a: SetupAction)
        requires
            wf_candidate(old(self)@),
        ensures
            (final(self)@, a@) == setup_next(old(self)@, event@),
            wf_candidate(final(self)@),
    {
        match (self.stage, event) {
            (SetupStage::AwaitBinCheck, SetupEvent::Exists(true)) => {
                let bin = venv_concierge_bin(self.venv_dir.as_str());
                self.finish_with(Ok(bin))
            },
            (SetupStage::AwaitBinCheck, SetupEvent::Exists(false)) => {
                self.stage = SetupStage::AwaitDataDir;
                SetupAction::CreateDir { path: self.data_dir.clone() }
            },
            (SetupStage::AwaitDataDir, SetupEvent::Done(true)) => {
                self.stage = SetupStage::AwaitProbe;
                self.candidate = 0;
                SetupAction::ProbePython { program: candidate_name(0) }
            },
            (SetupStage::AwaitDataDir, SetupEvent::Done(false)) => {
                self.finish_with(Err(SetupError::Filesystem))
            },
            (SetupStage::AwaitProbe, SetupEvent::Probed { success, stdout, stderr }) => {
                if accepts_python(success, stdout.as_str(), stderr.as_str()) {
                    self.stage = SetupStage::AwaitWhich;
                    SetupAction::Which { name: candidate_name(self.candidate) }
                } else {
                    self.next_candidate()
                }
            },
            (SetupStage::AwaitWhich, SetupEvent::Located(Some(out))) => {
                let path = which_output_path(out.as_str());
                self.create_venv(Some(path))
            },
            (SetupStage::AwaitWhich, SetupEvent::Located(None)) => self.next_candidate(),
            (SetupStage::AwaitTool, SetupEvent::Done(true)) => self.create_venv(None),
            (SetupStage::AwaitTool, SetupEvent::Done(false)) => {
                self.finish_with(Err(SetupError::NoPython))
            },
            (SetupStage::AwaitVenv, SetupEvent::Ran { spawned, success, code: _, output }) => {
                if !spawned {
                    self.finish_with(Err(SetupError::VenvCreation(output)))
                } else {
                    match venv_outcome(success, self.python.is_none()) {
                        Err(e) => self.finish_with(Err(e)),
                        Ok(()) => {
                            let spec = package_spec(self.package_name.as_str(), &self.extra);
                            self.stage = SetupStage::AwaitInstall;
                            SetupAction::Run {
                                command: pip_install_command(self.venv_dir.as_str(), spec.as_str()),
                            }
                        },
                    }
                }
            },
            (SetupStage::AwaitInstall, SetupEvent::Ran { spawned, success, code, output }) => {
                let outcome = if spawned {
                    install_outcome(success, code, output)
                } else {
                    install_outcome(false, None, output)
                };
                match outcome {
                    Err(e) => self.finish_with(Err(e)),
                    Ok(()) => {
                        self.stage = SetupStage::AwaitVersionFile;
                        SetupAction::WriteFile {
                            path: self.version_file.clone(),
                            contents: String::from_str(LAUNCHER_VERSION),
                        }
                    },
                }
            },
            (SetupStage::AwaitVersionFile, SetupEvent::Done(true)) => {
                let bin = venv_concierge_bin(self.venv_dir.as_str());
                self.finish_with(Ok(bin))
            },
            (SetupStage::AwaitVersionFile, SetupEvent::Done(false)) => {
                self.finish_with(Err(SetupError::Filesystem))
            },
            (SetupStage::Finished, _) => SetupAction::Finish { result: Err(SetupError::OutOfOrder) },
            _ => self.finish_with(Err(SetupError::OutOfOrder)),
        }
    }
}

} // verus!

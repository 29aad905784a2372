use launcher::config::LauncherConfig;
use launcher::environment::{SetupAction, SetupEvent, SetupFlow, SetupStage};
use launcher::setup::SetupError;

fn make_config(data_dir: &str) -> LauncherConfig {
    LauncherConfig {
        data_dir: data_dir.to_string(),
        venv_dir: format!("{data_dir}/venv"),
        uv_path: format!("{data_dir}/uv"),
        version_file: format!("{data_dir}/installed_version"),
        bin_dir: format!("{data_dir}/bin"),
        installed_bin: format!("{data_dir}/bin/concierge"),
        skip_update: false,
        package_name: "agentic-concierge".to_string(),
        pypi_extra: None,
    }
}

fn ran_ok() -> SetupEvent {
    SetupEvent::Ran { spawned: true, success: true, code: Some(0), output: String::new() }
}

fn probed(stdout: &str) -> SetupEvent {
    SetupEvent::Probed { success: true, stdout: stdout.to_string(), stderr: String::new() }
}

#[test]
fn ensure_environment_fast_path_returns_existing_binary() {
    let config = make_config("/d");
    let (mut flow, first) = SetupFlow::new(&config);
    assert!(matches!(&first, SetupAction::CheckExists { path } if path == "/d/venv/bin/concierge"));
    let a = flow.step(SetupEvent::Exists(true));
    assert!(matches!(a, SetupAction::Finish { result: Ok(p) } if p == "/d/venv/bin/concierge"));
    assert_eq!(flow.stage(), SetupStage::Finished);
}

#[test]
fn first_time_setup_with_system_python() {
    let config = make_config("/d");
    let (mut flow, _) = SetupFlow::new(&config);
    let a = flow.step(SetupEvent::Exists(false));
    assert!(matches!(&a, SetupAction::CreateDir { path } if path == "/d"));
    let b = flow.step(SetupEvent::Done(true));
    assert!(matches!(&b, SetupAction::ProbePython { program } if program == "python3"));
    let c = flow.step(probed("Python 3.12.2\n"));
    assert!(matches!(&c, SetupAction::Which { name } if name == "python3"));
    let d = flow.step(SetupEvent::Located(Some("/usr/bin/python3\n".to_string())));
    match &d {
        SetupAction::Run { command } => {
            assert_eq!(command.program, "/usr/bin/python3");
            assert_eq!(command.args, vec!["-m", "venv", "/d/venv"]);
        }
        _ => panic!("expected the venv command"),
    }
    let e = flow.step(ran_ok());
    match &e {
        SetupAction::Run { command } => {
            assert_eq!(command.program, "/d/venv/bin/pip");
            assert_eq!(command.args, vec!["install", "--upgrade", "agentic-concierge"]);
        }
        _ => panic!("expected the pip command"),
    }
    let f = flow.step(ran_ok());
    assert!(matches!(&f, SetupAction::WriteFile { path, contents }
        if path == "/d/installed_version" && contents == "0.1.0"));
    let g = flow.step(SetupEvent::Done(true));
    assert!(matches!(g, SetupAction::Finish { result: Ok(p) } if p == "/d/venv/bin/concierge"));
}

#[test]
fn old_python_falls_back_to_next_then_helper_tool() {
    let mut config = make_config("/d");
    config.pypi_extra = Some("mcp".to_string());
    let (mut flow, _) = SetupFlow::new(&config);
    flow.step(SetupEvent::Exists(false));
    flow.step(SetupEvent::Done(true));
    let a = flow.step(probed("Python 3.9.1"));
    assert!(matches!(&a, SetupAction::ProbePython { program } if program == "python"));
    let b = flow.step(SetupEvent::Probed {
        success: false,
        stdout: String::new(),
        stderr: String::new(),
    });
    assert!(matches!(b, SetupAction::ProvisionTool));
    let c = flow.step(SetupEvent::Done(true));
    match &c {
        SetupAction::Run { command } => {
            assert_eq!(command.program, "/d/uv");
            assert_eq!(command.args, vec!["venv", "--python", "3.12", "/d/venv"]);
        }
        _ => panic!("expected the uv venv command"),
    }
    let d = flow.step(SetupEvent::Ran { spawned: true, success: false, code: Some(1), output: String::new() });
    assert!(matches!(d, SetupAction::Finish { result: Err(SetupError::VenvCreation(m)) }
        if m == "uv venv creation failed"));
}

#[test]
fn which_failure_tries_next_candidate() {
    let (mut flow, _) = SetupFlow::new(&make_config("/d"));
    flow.step(SetupEvent::Exists(false));
    flow.step(SetupEvent::Done(true));
    flow.step(probed("Python 3.11.0"));
    let a = flow.step(SetupEvent::Located(None));
    assert!(matches!(&a, SetupAction::ProbePython { program } if program == "python"));
}

#[test]
fn helper_tool_failure_means_no_python() {
    let (mut flow, _) = SetupFlow::new(&make_config("/d"));
    flow.step(SetupEvent::Exists(false));
    flow.step(SetupEvent::Done(true));
    flow.step(probed("nothing"));
    flow.step(probed("nothing"));
    let a = flow.step(SetupEvent::Done(false));
    assert!(matches!(a, SetupAction::Finish { result: Err(SetupError::NoPython) }));
}

#[test]
fn package_install_failure_is_reported() {
    let mut config = make_config("/d");
    config.pypi_extra = Some("mcp,otel".to_string());
    let (mut flow, _) = SetupFlow::new(&config);
    flow.step(SetupEvent::Exists(false));
    flow.step(SetupEvent::Done(true));
    flow.step(probed("Python 3.10.0"));
    flow.step(SetupEvent::Located(Some("/usr/bin/python3".to_string())));
    let pip = flow.step(ran_ok());
    match &pip {
        SetupAction::Run { command } => {
            assert_eq!(command.args, vec!["install", "--upgrade", "agentic-concierge[mcp,otel]"]);
        }
        _ => panic!("expected the pip command"),
    }
    let a = flow.step(SetupEvent::Ran {
        spawned: true,
        success: false,
        code: None,
        output: "no network".to_string(),
    });
    assert!(matches!(a, SetupAction::Finish { result: Err(SetupError::PackageInstall { code: -1, stderr }) }
        if stderr == "no network"));
}

#[test]
fn data_dir_failure_is_reported() {
    let (mut flow, _) = SetupFlow::new(&make_config("/d"));
    flow.step(SetupEvent::Exists(false));
    let a = flow.step(SetupEvent::Done(false));
    assert!(matches!(a, SetupAction::Finish { result: Err(SetupError::Filesystem) }));
}

use launcher::config::{launcher_config, ConfigError, ConfigSources};
use launcher::release::ReleaseInfo;
use launcher::session::{
    forwarded_args, parse_launcher_args, update_advisory, update_mode, updated_message, UpdateMode,
};
use launcher::setup::{
    accepts_python, install_outcome, installed_version_from, package_spec, parse_python_version,
    pinned_package_spec, pip_install_command, venv_command, venv_concierge_bin, venv_outcome,
    which_output_path, SetupError,
};
use launcher::text::{parse_u32, trim};

fn sources(data_dir: Option<&str>, no_update: Option<&str>) -> ConfigSources {
    ConfigSources {
        data_dir_override: data_dir.map(|s| s.to_string()),
        data_local_dir: Some("/home/u/.local/share".to_string()),
        executable_dir: None,
        home_dir: Some("/home/u".to_string()),
        no_update_check: no_update.map(|s| s.to_string()),
        extra: None,
    }
}

#[test]
fn skip_update_true() {
    let config = launcher_config(sources(Some("/tmp/test-concierge-su1"), Some("1"))).unwrap();
    assert!(config.skip_update);
}

#[test]
fn skip_update_false_by_default() {
    let config = launcher_config(sources(Some("/tmp/test-concierge-su0"), None)).unwrap();
    assert!(!config.skip_update);
    let other = launcher_config(sources(None, Some("yes"))).unwrap();
    assert!(!other.skip_update);
}

#[test]
fn data_dir_under_home() {
    let config = launcher_config(sources(None, None)).unwrap();
    assert!(config.data_dir.starts_with("/home/u/.local/share"));
    assert!(config.data_dir.ends_with("agentic-concierge"));
}

#[test]
fn venv_dir_under_data_dir() {
    let config = launcher_config(sources(Some("/tmp/test-concierge-venv"), None)).unwrap();
    assert_eq!(config.venv_dir, format!("{}/venv", config.data_dir));
}

#[test]
fn env_override_respected() {
    let config = launcher_config(sources(Some("/tmp/test-override-12345"), None)).unwrap();
    assert_eq!(config.data_dir, "/tmp/test-override-12345");
}

#[test]
fn config_paths_and_fallbacks() {
    let config = launcher_config(sources(None, None)).unwrap();
    assert_eq!(config.data_dir, "/home/u/.local/share/agentic-concierge");
    assert_eq!(config.uv_path, "/home/u/.local/share/agentic-concierge/uv");
    assert_eq!(config.version_file, "/home/u/.local/share/agentic-concierge/installed_version");
    assert_eq!(config.bin_dir, "/home/u/.local/bin");
    assert_eq!(config.installed_bin, "/home/u/.local/bin/concierge");
    assert_eq!(config.package_name, "agentic-concierge");
    let paths = config.update_paths();
    assert_eq!(paths.staging_binary, "/home/u/.local/share/agentic-concierge/concierge.new");
    assert_eq!(paths.staging_signature, "/home/u/.local/share/agentic-concierge/concierge.new.sig");
    assert_eq!(paths.installed, "/home/u/.local/bin/concierge");
    assert_eq!(config.uv_staging_path(), "/home/u/.local/share/agentic-concierge/uv.new");
}

#[test]
fn no_home_dir_is_an_error() {
    let mut s = sources(None, None);
    s.data_local_dir = None;
    assert_eq!(launcher_config(s).err(), Some(ConfigError::NoHomeDir));
    let mut t = sources(Some("/d"), None);
    t.home_dir = None;
    assert_eq!(launcher_config(t).err(), Some(ConfigError::NoHomeDir));
}

#[test]
fn installed_version_reads_file_contents() {
    assert_eq!(installed_version_from("0.2.0\n"), "0.2.0");
}

#[test]
fn python_version_parsing() {
    assert_eq!(parse_python_version("Python 3.12.1\n"), Some((3, 12)));
    assert_eq!(parse_python_version("  Python   3.10  "), Some((3, 10)));
    assert_eq!(parse_python_version("Python 3.9"), Some((3, 9)));
    assert_eq!(parse_python_version("Python 3"), None);
    assert_eq!(parse_python_version("python 3.12.0"), None);
    assert_eq!(parse_python_version("Python 3.x.1"), None);
    assert_eq!(parse_python_version("Python 3.12.rc1"), Some((3, 12)));
    assert_eq!(parse_python_version(""), None);
}

#[test]
fn python_acceptance() {
    assert!(accepts_python(true, "Python 3.11.4\n", ""));
    assert!(accepts_python(true, "", "Python 3.10.0\n"));
    assert!(!accepts_python(true, "Python 3.9.18\n", ""));
    assert!(!accepts_python(false, "Python 3.12.0\n", ""));
    assert!(accepts_python(true, "Python 4.0.0", ""));
}

#[test]
fn decimal_parsing() {
    assert_eq!(parse_u32("0"), Some(0));
    assert_eq!(parse_u32("+7"), Some(7));
    assert_eq!(parse_u32("4294967295"), Some(u32::MAX));
    assert_eq!(parse_u32("4294967296"), None);
    assert_eq!(parse_u32("99999999999x"), None);
    assert_eq!(parse_u32(""), None);
    assert_eq!(parse_u32("+"), None);
    assert_eq!(parse_u32("-1"), None);
}

#[test]
fn whitespace_trimming() {
    assert_eq!(trim("\t a b \u{3000}\n"), "a b");
    assert_eq!(trim("   "), "");
    assert_eq!(which_output_path("/usr/bin/python3\n"), "/usr/bin/python3");
}

#[test]
fn setup_commands() {
    let py = venv_command(&Some("/usr/bin/python3".to_string()), "/d/uv", "/d/venv");
    assert_eq!(py.program, "/usr/bin/python3");
    assert_eq!(py.args, vec!["-m", "venv", "/d/venv"]);
    let uv = venv_command(&None, "/d/uv", "/d/venv");
    assert_eq!(uv.program, "/d/uv");
    assert_eq!(uv.args, vec!["venv", "--python", "3.12", "/d/venv"]);
    assert_eq!(package_spec("agentic-concierge", &None), "agentic-concierge");
    assert_eq!(
        package_spec("agentic-concierge", &Some("mcp,otel".to_string())),
        "agentic-concierge[mcp,otel]"
    );
    assert_eq!(pinned_package_spec("agentic-concierge", "0.3.1"), "agentic-concierge==0.3.1");
    let pip = pip_install_command("/d/venv", "pkg");
    assert_eq!(pip.program, "/d/venv/bin/pip");
    assert_eq!(pip.args, vec!["install", "--upgrade", "pkg"]);
    assert_eq!(venv_concierge_bin("/d/venv/"), "/d/venv/bin/concierge");
}

#[test]
fn setup_outcomes() {
    assert_eq!(venv_outcome(true, false), Ok(()));
    assert_eq!(
        venv_outcome(false, false),
        Err(SetupError::VenvCreation("venv creation failed".to_string()))
    );
    assert_eq!(
        venv_outcome(false, true),
        Err(SetupError::VenvCreation("uv venv creation failed".to_string()))
    );
    assert_eq!(
        install_outcome(false, None, "boom".to_string()),
        Err(SetupError::PackageInstall { code: -1, stderr: "boom".to_string() })
    );
    assert_eq!(
        install_outcome(false, Some(2), String::new()),
        Err(SetupError::PackageInstall { code: 2, stderr: String::new() })
    );
    assert_eq!(install_outcome(true, Some(0), String::new()), Ok(()));
}

#[test]
fn launcher_flag_handling() {
    let args = vec!["run".to_string(), "--self-update".to_string(), "-v".to_string()];
    assert!(parse_launcher_args(&args));
    assert_eq!(forwarded_args(&args), vec!["run".to_string(), "-v".to_string()]);
    let plain = vec!["--self-update=1".to_string()];
    assert!(!parse_launcher_args(&plain));
    assert_eq!(forwarded_args(&plain), plain);
}

#[test]
fn update_modes() {
    assert_eq!(update_mode(true, true), UpdateMode::Forced);
    assert_eq!(update_mode(false, false), UpdateMode::Passive);
    assert_eq!(update_mode(false, true), UpdateMode::Off);
}

#[test]
fn passive_check_advises_newer_release() {
    let release = Some(ReleaseInfo {
        version: "2.0.0".to_string(),
        download_url: "https://example.com/x".to_string(),
    });
    assert_eq!(
        update_advisory(&release, "1.9.0"),
        Some("[concierge] update available: v2.0.0 \u{2014} run --self-update".to_string())
    );
    assert_eq!(update_advisory(&release, "2.0.0"), None);
    assert_eq!(update_advisory(&None, "1.9.0"), None);
    assert_eq!(updated_message("2.0.0"), "[concierge] updated to v2.0.0");
}

use ed25519_dalek::{Signer, SigningKey};
use flate2::write::GzEncoder;
use flate2::Compression;
use launcher::archive::ArchiveError;
use launcher::flow::{FlowAction, FlowError, FlowEvent};
use launcher::provision::{uv_archive_url, ProvisionFlow, ProvisionStage};
use launcher::release::{Arch, FetchError};
use launcher::signature::{verify_binary_signature, VerificationError};
use launcher::update::{UpdateFlow, UpdatePaths, UpdateStage};

fn paths() -> UpdatePaths {
    UpdatePaths {
        staging_binary: "/data/concierge.new".to_string(),
        staging_signature: "/data/concierge.new.sig".to_string(),
        installed: "/bin/concierge".to_string(),
    }
}

fn keypair() -> (SigningKey, [u8; 32]) {
    let sk = SigningKey::from_bytes(&[1u8; 32]);
    let pk = sk.verifying_key().to_bytes();
    (sk, pk)
}

fn is_fetch(a: &FlowAction, want: &str) -> bool {
    matches!(a, FlowAction::Fetch { url } if url == want)
}

fn touches(a: &FlowAction, p: &str) -> bool {
    match a {
        FlowAction::Fetch { .. } => false,
        FlowAction::WriteFile { path, .. } => path == p,
        FlowAction::SetExecutable { path } => path == p,
        FlowAction::Rename { from, to } => from == p || to == p,
        FlowAction::Finish { remove, .. } => remove.iter().any(|r| r == p),
    }
}

/// Drives an update through downloads of `binary` and `sig`, with every
/// filesystem action succeeding; returns every action asked for.
fn run_update(binary: &[u8], sig: &[u8], anchor: [u8; 32]) -> Vec<FlowAction> {
    let (mut flow, first) =
        UpdateFlow::new("https://example.com/concierge".to_string(), paths(), anchor);
    assert!(is_fetch(&first, "https://example.com/concierge"));
    let mut actions = vec![first];
    let mut event = FlowEvent::Fetched(Ok(binary.to_vec()));
    loop {
        let a = flow.step(event);
        event = match &a {
            FlowAction::Fetch { url } => {
                assert_eq!(url, "https://example.com/concierge.sig");
                FlowEvent::Fetched(Ok(sig.to_vec()))
            }
            FlowAction::Finish { .. } => {
                actions.push(a);
                return actions;
            }
            _ => FlowEvent::Done(true),
        };
        actions.push(a);
    }
}

#[test]
fn test_apply_update_blocked_on_bad_sig() {
    let result = verify_binary_signature(b"fake binary", b"bad!");
    assert!(result.is_err(), "bad sig should be rejected");

    let actions = run_update(b"fake binary", b"bad!", [0u8; 32]);
    assert!(!actions.iter().any(|a| touches(a, "/bin/concierge")));
}

#[test]
fn update_installs_verified_binary() {
    let (sk, pk) = keypair();
    let binary = b"new launcher".to_vec();
    let sig = sk.sign(&binary).to_bytes();
    let actions = run_update(&binary, &sig, pk);
    assert_eq!(actions.len(), 7);
    assert!(matches!(&actions[1], FlowAction::WriteFile { path, contents }
        if path == "/data/concierge.new" && contents == &binary));
    assert!(matches!(&actions[3], FlowAction::WriteFile { path, contents }
        if path == "/data/concierge.new.sig" && contents == &sig.to_vec()));
    assert!(matches!(&actions[4], FlowAction::SetExecutable { path } if path == "/data/concierge.new"));
    assert!(matches!(&actions[5], FlowAction::Rename { from, to }
        if from == "/data/concierge.new" && to == "/bin/concierge"));
    assert!(matches!(&actions[6], FlowAction::Finish { remove, result: Ok(()) }
        if remove == &vec!["/data/concierge.new.sig".to_string()]));
}

#[test]
fn signature_over_other_bytes_aborts_and_cleans_up() {
    let (sk, pk) = keypair();
    let sig = sk.sign(b"the real binary").to_bytes();
    let actions = run_update(b"a different binary", &sig, pk);
    let last = actions.last().unwrap();
    assert!(matches!(last, FlowAction::Finish { remove, result }
        if remove == &vec!["/data/concierge.new".to_string(), "/data/concierge.new.sig".to_string()]
            && *result == Err(FlowError::Verification(VerificationError::SignatureMismatch))));
    assert!(!actions.iter().any(|a| touches(a, "/bin/concierge")));
}

#[test]
fn seven_byte_signature_aborts_as_malformed() {
    let (_sk, pk) = keypair();
    let actions = run_update(b"binary", b"7 bytes", pk);
    assert!(matches!(actions.last().unwrap(), FlowAction::Finish { result, .. }
        if *result == Err(FlowError::Verification(VerificationError::MalformedSignature))));
    assert!(!actions.iter().any(|a| touches(a, "/bin/concierge")));
}

#[test]
fn failed_binary_download_touches_nothing() {
    let (mut flow, _) = UpdateFlow::new("u".to_string(), paths(), [0u8; 32]);
    let a = flow.step(FlowEvent::Fetched(Err(FetchError::HttpStatus(404))));
    assert!(matches!(a, FlowAction::Finish { remove, result }
        if remove.is_empty() && result == Err(FlowError::Network(FetchError::HttpStatus(404)))));
    assert_eq!(flow.stage(), UpdateStage::Finished);
}

#[test]
fn failed_rename_removes_staged_files() {
    let (sk, pk) = keypair();
    let binary = b"bin".to_vec();
    let sig = sk.sign(&binary).to_bytes().to_vec();
    let (mut flow, _) = UpdateFlow::new("u".to_string(), paths(), pk);
    flow.step(FlowEvent::Fetched(Ok(binary)));
    flow.step(FlowEvent::Done(true));
    flow.step(FlowEvent::Fetched(Ok(sig)));
    flow.step(FlowEvent::Done(true));
    flow.step(FlowEvent::Done(true));
    assert_eq!(flow.stage(), UpdateStage::AwaitRename);
    let a = flow.step(FlowEvent::Done(false));
    assert!(matches!(a, FlowAction::Finish { remove, result: Err(FlowError::Install) }
        if remove.len() == 2));
}

#[test]
fn out_of_order_event_is_refused() {
    let (mut flow, _) = UpdateFlow::new("u".to_string(), paths(), [0u8; 32]);
    let a = flow.step(FlowEvent::Done(true));
    assert!(matches!(a, FlowAction::Finish { result: Err(FlowError::OutOfOrder), .. }));
    let b = flow.step(FlowEvent::Done(true));
    assert!(matches!(b, FlowAction::Finish { remove, result: Err(FlowError::OutOfOrder) }
        if remove.is_empty()));
}

fn make_tar_gz(filename: &str, content: &[u8]) -> Vec<u8> {
    let enc = GzEncoder::new(Vec::new(), Compression::default());
    let mut archive = tar::Builder::new(enc);
    let mut header = tar::Header::new_gnu();
    header.set_size(content.len() as u64);
    header.set_mode(0o755);
    header.set_cksum();
    archive.append_data(&mut header, filename, content).unwrap();
    archive.into_inner().unwrap().finish().unwrap()
}

#[test]
fn provisioning_without_tool_writes_nothing() {
    let (mut flow, first) = ProvisionFlow::new(
        "https://example.com/uv.tar.gz".to_string(),
        "/data/uv.new".to_string(),
        "/data/uv".to_string(),
    );
    assert!(is_fetch(&first, "https://example.com/uv.tar.gz"));
    let a = flow.step(FlowEvent::Fetched(Ok(make_tar_gz("not-uv", b"wrong binary"))));
    assert!(matches!(a, FlowAction::Finish { remove, result }
        if remove.is_empty() && result == Err(FlowError::Archive(ArchiveError::EntryNotFound))));
    assert_eq!(flow.stage(), ProvisionStage::Finished);
}

#[test]
fn provisioning_installs_tool_by_rename() {
    let (mut flow, _) = ProvisionFlow::new(
        "u".to_string(),
        "/data/uv.new".to_string(),
        "/data/uv".to_string(),
    );
    let a = flow.step(FlowEvent::Fetched(Ok(make_tar_gz("dist/uv", b"tool"))));
    assert!(matches!(&a, FlowAction::WriteFile { path, contents }
        if path == "/data/uv.new" && contents == b"tool"));
    let b = flow.step(FlowEvent::Done(true));
    assert!(matches!(&b, FlowAction::SetExecutable { path } if path == "/data/uv.new"));
    let c = flow.step(FlowEvent::Done(true));
    assert!(matches!(&c, FlowAction::Rename { from, to } if from == "/data/uv.new" && to == "/data/uv"));
    let d = flow.step(FlowEvent::Done(true));
    assert!(matches!(d, FlowAction::Finish { remove, result: Ok(()) } if remove.is_empty()));
}

#[test]
fn provisioning_write_failure_removes_staging() {
    let (mut flow, _) = ProvisionFlow::new(
        "u".to_string(),
        "/data/uv.new".to_string(),
        "/data/uv".to_string(),
    );
    flow.step(FlowEvent::Fetched(Ok(make_tar_gz("uv", b"tool"))));
    let a = flow.step(FlowEvent::Done(false));
    assert!(matches!(a, FlowAction::Finish { remove, result: Err(FlowError::Install) }
        if remove == vec!["/data/uv.new".to_string()]));
}

#[test]
fn uv_archive_url_per_arch() {
    assert_eq!(
        uv_archive_url(Arch::X86_64),
        "https://github.com/astral-sh/uv/releases/latest/download/uv-x86_64-unknown-linux-musl.tar.gz"
    );
    assert_eq!(
        uv_archive_url(Arch::Aarch64),
        "https://github.com/astral-sh/uv/releases/latest/download/uv-aarch64-unknown-linux-musl.tar.gz"
    );
}

/// A filesystem of whole files, on which each action is atomic.
fn apply(fs: &mut std::collections::HashMap<String, Vec<u8>>, a: &FlowAction) {
    match a {
        FlowAction::Fetch { .. } | FlowAction::SetExecutable { .. } => {}
        FlowAction::WriteFile { path, contents } => {
            fs.insert(path.clone(), contents.clone());
        }
        FlowAction::Rename { from, to } => {
            if let Some(c) = fs.remove(from) {
                fs.insert(to.clone(), c);
            }
        }
        FlowAction::Finish { remove, .. } => {
            for p in remove {
                fs.remove(p);
            }
        }
    }
}

#[test]
fn interruption_at_any_step_leaves_installed_binary_whole() {
    let (sk, pk) = keypair();
    let old = b"old launcher".to_vec();
    let new = b"new launcher, longer than the old one".to_vec();
    let sig = sk.sign(&new).to_bytes();
    let actions = run_update(&new, &sig, pk);
    for stop in 0..=actions.len() {
        let mut fs = std::collections::HashMap::new();
        fs.insert("/bin/concierge".to_string(), old.clone());
        for a in &actions[..stop] {
            apply(&mut fs, a);
        }
        let installed = fs.get("/bin/concierge").unwrap();
        assert!(installed == &old || installed == &new, "interrupted after {stop} actions");
    }
    let mut fs = std::collections::HashMap::new();
    fs.insert("/bin/concierge".to_string(), old.clone());
    for a in &actions {
        apply(&mut fs, a);
    }
    assert_eq!(fs.get("/bin/concierge"), Some(&new));
    assert_eq!(fs.len(), 1);
}

#[test]
fn interruption_of_a_rejected_update_keeps_old_binary() {
    let (sk, pk) = keypair();
    let old = b"old launcher".to_vec();
    let sig = sk.sign(b"what was signed").to_bytes();
    let actions = run_update(b"what was downloaded", &sig, pk);
    for stop in 0..=actions.len() {
        let mut fs = std::collections::HashMap::new();
        fs.insert("/bin/concierge".to_string(), old.clone());
        for a in &actions[..stop] {
            apply(&mut fs, a);
        }
        assert_eq!(fs.get("/bin/concierge"), Some(&old));
    }
}

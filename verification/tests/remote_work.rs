use russh::keys::ssh_key::public::{Ed25519PublicKey, KeyData};
use russh::keys::ssh_key::private::Ed25519Keypair;
use russh::keys::ssh_key::{LineEnding, PrivateKey, PublicKey};
use secret_service::config::{Secret, SecretType};
use secret_service::hostkeys::{
    begin_host_key_check, hostkeys_db_path, HostKeyAction, HostKeyCheck, HostKeyEvent, KeyLookup,
};
use secret_service::remote::{
    client_key_from_text, directory_plan, install_plan, secret_install_plan, target_directory_plan,
    ChannelEvent, DirectoryPlan, InstallStep, RemoteCommandError, RemoteCommandRun, SecretError,
};

fn secret(command: &str, target: &str) -> Secret {
    Secret {
        command: command.to_string(),
        target_path: target.to_string(),
        secret_type: SecretType::Command,
    }
}

fn dirs(plan: DirectoryPlan) -> Vec<String> {
    match plan {
        DirectoryPlan::EachMissing { dirs } => dirs,
        DirectoryPlan::Sudo { .. } => panic!("expected EachMissing"),
    }
}

#[test]
fn absolute_directory_is_created_outermost_first() {
    assert_eq!(dirs(directory_plan("/etc/app/keys", false)), vec!["/etc", "/etc/app", "/etc/app/keys"]);
    assert_eq!(dirs(directory_plan("/", false)), Vec::<String>::new());
}

#[test]
fn relative_directory_is_created_outermost_first() {
    assert_eq!(dirs(directory_plan("a/b", false)), vec!["a", "a/b"]);
    assert_eq!(dirs(directory_plan("", false)), Vec::<String>::new());
}

#[test]
fn root_directory_uses_sudo_mkdir() {
    match directory_plan("/etc/app", true) {
        DirectoryPlan::Sudo { command } => assert_eq!(command, "sudo mkdir -p /etc/app"),
        _ => panic!("expected Sudo"),
    }
}

#[test]
fn secret_directory_is_the_parent_of_its_target() {
    let (dir, plan) = target_directory_plan(&secret("x", "/srv/app/token"), false).unwrap();
    assert_eq!(dir, "/srv/app");
    assert_eq!(dirs(plan), vec!["/srv", "/srv/app"]);
    assert!(target_directory_plan(&secret("x", "/"), false).is_none());
}

fn describe(steps: &[InstallStep]) -> Vec<String> {
    steps
        .iter()
        .map(|s| match s {
            InstallStep::RunLocal { command } => format!("run {command}"),
            InstallStep::CreateDir { path } => format!("mkdir {path}"),
            InstallStep::CreateFile { path } => format!("create {path}"),
            InstallStep::WriteSecret { path } => format!("write {path}"),
            InstallStep::Remote { command } => format!("exec {command}"),
            InstallStep::RemoveDir { path } => format!("rmdir {path}"),
        })
        .collect()
}

#[test]
fn install_plan_without_root() {
    let steps = install_plan(&secret("pass show db", "/home/u/.db-pass"), "id-1", false).unwrap();
    assert_eq!(
        describe(&steps),
        vec![
            "run pass show db",
            "mkdir /tmp/id-1",
            "create /tmp/id-1/.db-pass",
            "write /tmp/id-1/.db-pass",
            "exec mv /tmp/id-1/.db-pass /home/u/.db-pass",
            "rmdir /tmp/id-1",
            "exec chmod 0400 /home/u/.db-pass",
        ]
    );
}

#[test]
fn install_plan_with_root() {
    let steps = install_plan(&secret("cat k", "/etc/k"), "abc", true).unwrap();
    assert_eq!(
        describe(&steps),
        vec![
            "run cat k",
            "mkdir /tmp/abc",
            "create /tmp/abc/k",
            "write /tmp/abc/k",
            "exec sudo mv /tmp/abc/k /etc/k",
            "rmdir /tmp/abc",
            "exec sudo chmod 0400 /etc/k",
            "exec sudo chown root:root /etc/k",
        ]
    );
}

#[test]
fn install_plan_needs_a_file_name() {
    let err = install_plan(&secret("cat k", "/etc/.."), "abc", false).unwrap_err();
    assert_eq!(err, SecretError::NoFileName);
    assert_eq!(err.message(), "Error extracting name from secret target path");
    assert!(secret_install_plan(&secret("cat k", "/"), false).is_err());
}

#[test]
fn install_plan_uses_a_fresh_uuid_directory() {
    let a = describe(&secret_install_plan(&secret("cat k", "/etc/k"), false).unwrap());
    let b = describe(&secret_install_plan(&secret("cat k", "/etc/k"), false).unwrap());
    let dir = a[1].strip_prefix("mkdir /tmp/").unwrap();
    assert_eq!(dir.len(), 36);
    assert!(dir.chars().enumerate().all(|(i, c)| if [8, 13, 18, 23].contains(&i) {
        c == '-'
    } else {
        c.is_ascii_hexdigit() && !c.is_ascii_uppercase()
    }));
    assert_eq!(dir.as_bytes()[14], b'4');
    assert!([b'8', b'9', b'a', b'b'].contains(&dir.as_bytes()[19]));
    assert_ne!(a[1], b[1]);
}

#[test]
fn remote_command_success() {
    let mut run = RemoteCommandRun::new();
    run.observe(ChannelEvent::Data(b"he".to_vec()));
    run.observe(ChannelEvent::ExtendedData(b"warning".to_vec()));
    run.observe(ChannelEvent::Data(b"llo".to_vec()));
    run.observe(ChannelEvent::ExitStatus(0));
    run.observe(ChannelEvent::Other);
    assert!(run.finish("echo hello").is_ok());
}

#[test]
fn remote_command_failure_keeps_output() {
    let mut run = RemoteCommandRun::new();
    run.observe(ChannelEvent::Data(b"he".to_vec()));
    run.observe(ChannelEvent::ExitStatus(0));
    run.observe(ChannelEvent::Data(b"llo".to_vec()));
    run.observe(ChannelEvent::ExitStatus(3));
    match run.finish("false") {
        Err(RemoteCommandError::Failed { command, code, output }) => {
            assert_eq!(command, "false");
            assert_eq!(code, 3);
            assert_eq!(output, b"hello".to_vec());
        }
        _ => panic!("expected Failed"),
    }
}

#[test]
fn remote_command_without_status() {
    let mut run = RemoteCommandRun::new();
    run.observe(ChannelEvent::Data(b"x".to_vec()));
    match run.finish("sleep 1") {
        Err(RemoteCommandError::NoExitStatus { command }) => assert_eq!(command, "sleep 1"),
        _ => panic!("expected NoExitStatus"),
    }
}

/// The OpenSSH text of an Ed25519 key derived from a fixed seed.
fn client_key_text() -> String {
    let pair = Ed25519Keypair::from_seed(&[42u8; 32]);
    let key = PrivateKey::from(pair);
    key.to_openssh(LineEnding::LF).unwrap().to_string()
}

#[test]
fn client_key_decoding() {
    assert!(client_key_from_text(&client_key_text()).is_ok());
    assert!(client_key_from_text("not a key").is_err());
}

fn server_key() -> PublicKey {
    PublicKey::from_openssh(
        "ssh-ed25519 AAAAC3NzaC1lZDI1NTE5AAAAIOhiHM0qifp1DZfTwX74eZBqcCKSzfP6dRbawnTdktHY",
    )
    .unwrap()
}

fn pinned_key(check: &HostKeyCheck) -> String {
    match check.step(&HostKeyEvent::Looked(KeyLookup::Row(None))) {
        HostKeyAction::Pin { key, .. } => key,
        _ => panic!("expected Pin"),
    }
}

#[test]
fn host_key_check_uses_sha256_fingerprint() {
    let wire = server_key().to_bytes().unwrap();
    let (check, first) = begin_host_key_check("web-1", &wire).unwrap();
    match first {
        HostKeyAction::Lookup { hostname } => assert_eq!(hostname, "web-1"),
        _ => panic!("expected Lookup"),
    }
    assert_eq!(pinned_key(&check), "SHA256:sSKumBLWkHiwiFy5YS+VEIZ+CYXy+m3pTJEaCY3SYwk");
    let other = PublicKey::from(KeyData::Ed25519(Ed25519PublicKey([7u8; 32])));
    let (check2, _) = begin_host_key_check("web-1", &other.to_bytes().unwrap()).unwrap();
    let fp2 = pinned_key(&check2);
    assert!(fp2.starts_with("SHA256:"));
    assert_eq!(fp2.len(), 50);
    assert_ne!(fp2, pinned_key(&check));
    let (check3, _) = begin_host_key_check("web-2", &wire).unwrap();
    assert_eq!(pinned_key(&check3), pinned_key(&check));
}

#[test]
fn host_key_check_refuses_non_keys() {
    assert!(begin_host_key_check("web-1", b"not a key").is_none());
    assert!(begin_host_key_check("web-1", &[]).is_none());
}

#[test]
fn hostkeys_db_lives_in_state_directory() {
    assert_eq!(hostkeys_db_path("/var/lib/secret-service"), "/var/lib/secret-service/hostkeys.db");
    assert_eq!(hostkeys_db_path("/var/lib/x/"), "/var/lib/x/hostkeys.db");
    assert_eq!(hostkeys_db_path(""), "hostkeys.db");
    assert_eq!(hostkeys_db_path("state"), "state/hostkeys.db");
}

use secret_service::args::{Args, ArgsError, Mode};
use secret_service::client::{
    identity_from_bytes, next_client_action, ClientAction, ClientError, ClientEvent,
};
use secret_service::command::{command_outcome, CommandError};
use secret_service::config::{
    AccessType, HostConfig, NamedEntries, SSHAccessConfig, Secret, SecretType,
};
use secret_service::server::{next_server_action, ServerAction, ServerEvent, CLIENT_PORT};
use secret_service::text::{client_bind_address, decimal_string, server_bind_address};

fn secret(command: &str, target: &str) -> Secret {
    Secret {
        command: command.to_string(),
        target_path: target.to_string(),
        secret_type: SecretType::Command,
    }
}

fn host(address: &str) -> HostConfig {
    HostConfig {
        access: AccessType::Ssh(SSHAccessConfig {
            address: address.to_string(),
            key: secret("cat key", "/unused"),
            username: "deploy".to_string(),
        }),
    }
}

fn args(mode: Mode, port: u16) -> Args {
    Args { mode, target: None, bind: None, config: None, port, root: false }
}

#[test]
fn decimal_renders_digits() {
    assert_eq!(decimal_string(0), "0");
    assert_eq!(decimal_string(7), "7");
    assert_eq!(decimal_string(10), "10");
    assert_eq!(decimal_string(41234), "41234");
    assert_eq!(decimal_string(u64::MAX), "18446744073709551615");
}

#[test]
fn bind_addresses() {
    assert_eq!(server_bind_address(41234), "0.0.0.0:41234");
    assert_eq!(server_bind_address(1), "0.0.0.0:1");
    assert_eq!(client_bind_address([192, 168, 0, 17], 41235), "192.168.0.17:41235");
    assert_eq!(client_bind_address([0, 0, 0, 0], 65535), "0.0.0.0:65535");
}

#[test]
fn mode_names() {
    assert_eq!(Mode::Server.to_string(), "server");
    assert_eq!(Mode::Client.to_string(), "client");
}

#[test]
fn zero_port_is_refused() {
    let err = args(Mode::Server, 0).validate().unwrap_err();
    assert_eq!(err, ArgsError::ZeroPort);
    assert_eq!(err.message(), "--port must be a non-zero value");
    assert_eq!(args(Mode::Client, 0).validate(), Err(ArgsError::ZeroPort));
}

#[test]
fn nonzero_port_selects_mode() {
    assert_eq!(args(Mode::Server, 41234).validate(), Ok(Mode::Server));
    assert_eq!(args(Mode::Client, 1).validate(), Ok(Mode::Client));
}

#[test]
fn named_entries_insert_and_get() {
    let mut hosts: NamedEntries<HostConfig> = NamedEntries::new();
    assert_eq!(hosts.len(), 0);
    hosts.insert("alpha".to_string(), host("10.0.0.1"));
    hosts.insert("beta".to_string(), host("10.0.0.2"));
    hosts.insert("alpha".to_string(), host("10.0.0.3"));
    assert_eq!(hosts.len(), 2);
    assert_eq!(hosts.names_vec(), vec!["alpha".to_string(), "beta".to_string()]);
    let AccessType::Ssh(a) = &hosts.get(&"alpha".to_string()).unwrap().access;
    assert_eq!(a.address, "10.0.0.3");
    let AccessType::Ssh(b) = &hosts.value_at(1).access;
    assert_eq!(b.address, "10.0.0.2");
    assert_eq!(hosts.name_at(0), "alpha");
    assert!(hosts.get(&"gamma".to_string()).is_none());
}

fn configured() -> NamedEntries<HostConfig> {
    let mut hosts = NamedEntries::new();
    hosts.insert("web-1".to_string(), host("192.0.2.10"));
    hosts
}

#[test]
fn server_handles_configured_host() {
    let hosts = configured();
    match next_server_action(&hosts, &ServerEvent::Received(b"web-1".to_vec())) {
        ServerAction::Handle { hostname } => assert_eq!(hostname, "web-1"),
        _ => panic!("expected Handle"),
    }
}

#[test]
fn server_drops_unknown_and_unreadable() {
    let hosts = configured();
    match next_server_action(&hosts, &ServerEvent::Received(b"web-2".to_vec())) {
        ServerAction::DropUnknownHost { name } => assert_eq!(name, "web-2"),
        _ => panic!("expected DropUnknownHost"),
    }
    assert!(matches!(
        next_server_action(&hosts, &ServerEvent::Received(vec![0xff, 0xfe])),
        ServerAction::DropUnreadable
    ));
    assert!(matches!(
        next_server_action(&hosts, &ServerEvent::ReceiveFailed),
        ServerAction::Listen
    ));
}

#[test]
fn server_replies_only_after_success() {
    let hosts = configured();
    match next_server_action(
        &hosts,
        &ServerEvent::Handled { hostname: "web-1".to_string(), ok: true },
    ) {
        ServerAction::Reply { hostname, port, payload } => {
            assert_eq!(hostname, "web-1");
            assert_eq!(port, CLIENT_PORT);
            assert_eq!(port, 41235);
            assert_eq!(payload, b"ok".to_vec());
        }
        _ => panic!("expected Reply"),
    }
    assert!(matches!(
        next_server_action(&hosts, &ServerEvent::Handled { hostname: "web-1".to_string(), ok: false }),
        ServerAction::Listen
    ));
}

#[test]
fn client_announces_until_answered() {
    let id = "büro-7".to_string();
    for ev in [ClientEvent::Started, ClientEvent::TimedOut] {
        match next_client_action(&id, ev) {
            ClientAction::Broadcast { payload } => assert_eq!(payload, "büro-7".as_bytes().to_vec()),
            ClientAction::Finish => panic!("expected Broadcast"),
        }
    }
    assert!(matches!(next_client_action(&id, ClientEvent::ReplyReceived), ClientAction::Finish));
}

#[test]
fn client_identity_must_be_utf8() {
    assert_eq!(identity_from_bytes(b"node-a"), Ok("node-a".to_string()));
    let err = identity_from_bytes(&[0x6e, 0xc3]).unwrap_err();
    assert_eq!(err, ClientError::HostnameNotUtf8);
    assert_eq!(err.message(), "hostname is not valid UTF-8");
}

#[test]
fn command_outcomes() {
    assert_eq!(
        command_outcome(true, Some(0), b"s3cr3t\n".to_vec(), vec![]).ok(),
        Some("s3cr3t\n".to_string())
    );
    match command_outcome(false, Some(2), b"out".to_vec(), b"err".to_vec()) {
        Err(CommandError::Failed { code, stdout, stderr }) => {
            assert_eq!(code, Some(2));
            assert_eq!(stdout, b"out".to_vec());
            assert_eq!(stderr, b"err".to_vec());
        }
        _ => panic!("expected Failed"),
    }
    assert!(matches!(
        command_outcome(true, Some(0), vec![0xc0], vec![]),
        Err(CommandError::OutputNotUtf8)
    ));
}

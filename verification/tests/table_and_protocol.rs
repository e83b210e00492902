use secret_service::client::{local_identity, next_client_action, ClientAction, ClientEvent};
use secret_service::config::{AccessType, HostConfig, NamedEntries, SSHAccessConfig, Secret, SecretType};
use secret_service::hostkeys::{
    HostKeyAction, HostKeyCheck, HostKeyEvent, KeyLookup, CREATE_TABLE_SQL, PIN_KEY_SQL,
    REGISTER_HOST_SQL, SELECT_KEY_SQL,
};
use secret_service::server::{next_server_action, ServerAction, ServerEvent};
use tokio_rusqlite::rusqlite::Connection;

fn lookup(conn: &Connection, host: &str) -> KeyLookup {
    let mut stmt = conn.prepare(SELECT_KEY_SQL).unwrap();
    let mut rows = stmt.query([host]).unwrap();
    match rows.next().unwrap() {
        Some(row) => KeyLookup::Row(row.get(0).unwrap()),
        None => KeyLookup::NoRow,
    }
}

fn register(conn: &Connection, hosts: &[&str]) {
    for h in hosts {
        conn.execute(REGISTER_HOST_SQL, [h]).unwrap();
    }
}

/// Runs a whole host-key check against the table.
fn authenticate(conn: &Connection, host: &str, key: &str) -> bool {
    let (check, mut action) = HostKeyCheck::new(host.to_string(), key.to_string());
    loop {
        action = match action {
            HostKeyAction::Lookup { hostname } => check.step(&HostKeyEvent::Looked(lookup(conn, &hostname))),
            HostKeyAction::Pin { hostname, key } => {
                let ok = conn.execute(PIN_KEY_SQL, [key.as_str(), hostname.as_str()]).is_ok();
                check.step(&HostKeyEvent::Pinned(ok))
            }
            HostKeyAction::Done(v) => return v,
        }
    }
}

#[test]
fn table_trust_on_first_use() {
    let conn = Connection::open_in_memory().unwrap();
    conn.execute(CREATE_TABLE_SQL, ()).unwrap();
    register(&conn, &["web-1", "web-2"]);
    assert!(!authenticate(&conn, "intruder", "SHA256:x"));
    assert!(matches!(lookup(&conn, "intruder"), KeyLookup::NoRow));
    assert!(authenticate(&conn, "web-1", "SHA256:a"));
    assert!(authenticate(&conn, "web-1", "SHA256:a"));
    assert!(!authenticate(&conn, "web-1", "SHA256:b"));
    assert!(authenticate(&conn, "web-2", "SHA256:b"));
}

#[test]
fn registering_again_keeps_pins() {
    let conn = Connection::open_in_memory().unwrap();
    conn.execute(CREATE_TABLE_SQL, ()).unwrap();
    register(&conn, &["web-1"]);
    assert!(authenticate(&conn, "web-1", "SHA256:a"));
    register(&conn, &["web-1", "web-3"]);
    match lookup(&conn, "web-1") {
        KeyLookup::Row(Some(k)) => assert_eq!(k, "SHA256:a"),
        _ => panic!("pin lost"),
    }
    assert!(matches!(lookup(&conn, "web-3"), KeyLookup::Row(None)));
    assert!(!authenticate(&conn, "web-1", "SHA256:z"));
}

fn host() -> HostConfig {
    HostConfig {
        access: AccessType::Ssh(SSHAccessConfig {
            address: "192.0.2.1".to_string(),
            key: Secret {
                command: "cat id".to_string(),
                target_path: "/x".to_string(),
                secret_type: SecretType::Command,
            },
            username: "root".to_string(),
        }),
    }
}

#[test]
fn announcement_is_handled_iff_configured() {
    let mut hosts = NamedEntries::new();
    hosts.insert("db-1".to_string(), host());
    for (name, configured) in [("db-1", true), ("db-2", false)] {
        let payload = match next_client_action(&name.to_string(), ClientEvent::TimedOut) {
            ClientAction::Broadcast { payload } => payload,
            ClientAction::Finish => panic!("expected Broadcast"),
        };
        match next_server_action(&hosts, &ServerEvent::Received(payload)) {
            ServerAction::Handle { hostname } => {
                assert!(configured);
                assert_eq!(hostname, name);
            }
            ServerAction::DropUnknownHost { name: n } => {
                assert!(!configured);
                assert_eq!(n, name);
            }
            _ => panic!("unexpected action"),
        }
    }
}

#[test]
fn local_identity_is_the_machine_hostname() {
    let expected = gethostname::gethostname().into_string();
    match (local_identity(), expected) {
        (Ok(name), Ok(e)) => assert_eq!(name, e),
        (Err(_), Err(_)) => {}
        _ => panic!("identity differs from the host name"),
    }
}

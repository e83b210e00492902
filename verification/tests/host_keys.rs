use secret_service::hostkeys::{HostKeyAction, HostKeyCheck, HostKeyEvent, KeyLookup};

fn check(host: &str, key: &str) -> HostKeyCheck {
    HostKeyCheck::new(host.to_string(), key.to_string()).0
}

fn verdict(action: HostKeyAction) -> Option<bool> {
    match action {
        HostKeyAction::Done(v) => Some(v),
        _ => None,
    }
}

#[test]
fn first_action_reads_the_row() {
    match HostKeyCheck::new("h".to_string(), "k".to_string()).1 {
        HostKeyAction::Lookup { hostname } => assert_eq!(hostname, "h"),
        _ => panic!("expected Lookup"),
    }
}

#[test]
fn unknown_or_unreadable_host_is_rejected() {
    let c = check("h", "SHA256:a");
    assert_eq!(verdict(c.step(&HostKeyEvent::Looked(KeyLookup::NoRow))), Some(false));
    assert_eq!(verdict(c.step(&HostKeyEvent::Looked(KeyLookup::Failed))), Some(false));
}

#[test]
fn first_contact_pins_presented_key() {
    let c = check("h", "SHA256:a");
    match c.step(&HostKeyEvent::Looked(KeyLookup::Row(None))) {
        HostKeyAction::Pin { hostname, key } => {
            assert_eq!(hostname, "h");
            assert_eq!(key, "SHA256:a");
        }
        _ => panic!("expected Pin"),
    }
    assert_eq!(verdict(c.step(&HostKeyEvent::Pinned(true))), Some(true));
    assert_eq!(verdict(c.step(&HostKeyEvent::Pinned(false))), Some(false));
}

#[test]
fn pinned_key_must_match() {
    let c = check("h", "SHA256:a");
    assert_eq!(
        verdict(c.step(&HostKeyEvent::Looked(KeyLookup::Row(Some("SHA256:a".to_string()))))),
        Some(true)
    );
    assert_eq!(
        verdict(c.step(&HostKeyEvent::Looked(KeyLookup::Row(Some("SHA256:b".to_string()))))),
        Some(false)
    );
}

/// A later contact presenting the same key succeeds and a different key
/// fails, once the first contact pinned the key.
#[test]
fn trust_on_first_use_sequence() {
    let mut table: Option<String> = None;
    let first = check("h", "SHA256:a");
    if let HostKeyAction::Pin { key, .. } = first.step(&HostKeyEvent::Looked(KeyLookup::Row(table.clone()))) {
        table = Some(key);
    }
    assert_eq!(verdict(first.step(&HostKeyEvent::Pinned(true))), Some(true));
    let same = check("h", "SHA256:a");
    assert_eq!(verdict(same.step(&HostKeyEvent::Looked(KeyLookup::Row(table.clone())))), Some(true));
    let other = check("h", "SHA256:b");
    assert_eq!(verdict(other.step(&HostKeyEvent::Looked(KeyLookup::Row(table.clone())))), Some(false));
}

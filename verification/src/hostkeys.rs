//! Trust-on-first-use pinning of the SSH host keys of known hosts.
//!
//! The server keeps a table with one row per configured host name.  A row
//! starts without a key; the first SSH connection to the host stores the
//! fingerprint of the key the host presented, and from then on only that
//! fingerprint is accepted.  The table itself lives in a database that the
//! application drives; this module decides what to ask it and what its
//! answers mean.
use russh::keys::ssh_key::PublicKey;
use vstd::prelude::*;
use vstd::string::*;

verus! {

/// The text of a SHA-256 key fingerprint: `SHA256:` and the 43 characters of
/// the unpadded Base64 encoding of the 32-byte digest.
pub open spec fn is_sha256_fingerprint_text(s: Seq<char>) -> bool {
    &&& s.len() == 50
    &&& s.subrange(0, 7) == seq!['S', 'H', 'A', '2', '5', '6', ':']
}

/// Whether `ssh_key::PublicKey::from_bytes` accepts these bytes as the SSH
/// wire encoding of a public key.
pub uninterp spec fn public_key_parses(key_wire: Seq<u8>) -> bool;

/// The text of the SHA-256 fingerprint of the public key whose SSH wire
/// encoding is `key_wire`, as `ssh_key` renders it.
pub uninterp spec fn sha256_fingerprint_spec(key_wire: Seq<u8>) -> Seq<char>;

/// Parses `key_wire` with `ssh_key::PublicKey::from_bytes`, then calls
/// `fingerprint` with `HashAlg::Sha256` and renders the result with its
/// `Display` impl, which writes the algorithm prefix, `:`, and the unpadded
/// Base64 of the 32-byte digest.  Parsing and hashing depend on the bytes
/// alone.  The digest is taken over the key's wire encoding, which `ssh_key`
/// expects to succeed for every key it holds (it panics otherwise).
#[verifier::external_body]
fn sha256_fingerprint(key_wire: &[u8]) -> (fp: Option<String>)
    ensures
        fp is Some <==> public_key_parses(key_wire@),
        fp matches Some(f) ==> f@ == sha256_fingerprint_spec(key_wire@) && is_sha256_fingerprint_text(
            f@,
        ),
{
    PublicKey::from_bytes(key_wire).ok().map(
        |k| k.fingerprint(russh::keys::ssh_key::HashAlg::Sha256).to_string(),
    )
}

/// What the host-key table answered when asked for one host's key.
#[derive(Debug)]
pub enum KeyLookup {
    /// The query itself failed.
    Failed,
    /// The host has no row: it is not a configured host.
    NoRow,
    /// The host's row, holding the pinned fingerprint if there is one.
    Row(Option<String>),
}

/// The mathematical content of a [`KeyLookup`].
pub enum KeyLookupView {
    Failed,
    NoRow,
    Row(Option<Seq<char>>),
}

impl View for KeyLookup {
    type V = KeyLookupView;

    open spec fn view(&self) -> KeyLookupView {
        match self {
            KeyLookup::Failed => KeyLookupView::Failed,
            KeyLookup::NoRow => KeyLookupView::NoRow,
            KeyLookup::Row(None) => KeyLookupView::Row(None),
            KeyLookup::Row(Some(k)) => KeyLookupView::Row(Some(k@)),
        }
    }
}

/// An answer of the host-key table, fed back into a [`HostKeyCheck`].
#[derive(Debug)]
pub enum HostKeyEvent {
    /// The answer to a [`HostKeyAction::Lookup`].
    Looked(KeyLookup),
    /// Whether the write asked for by a [`HostKeyAction::Pin`] succeeded.
    Pinned(bool),
}

pub enum HostKeyEventView {
    Looked(KeyLookupView),
    Pinned(bool),
}

impl View for HostKeyEvent {
    type V = HostKeyEventView;

    open spec fn view(&self) -> HostKeyEventView {
        match self {
            HostKeyEvent::Looked(l) => HostKeyEventView::Looked(l@),
            HostKeyEvent::Pinned(ok) => HostKeyEventView::Pinned(*ok),
        }
    }
}

/// What a [`HostKeyCheck`] asks of the host-key table next, or its verdict.
#[derive(Debug)]
pub enum HostKeyAction {
    /// Read the row of `hostname`.
    Lookup { hostname: String },
    /// Store `key` as the pinned fingerprint in the row of `hostname`.
    Pin { hostname: String, key: String },
    /// The check is over: whether the presented key is trusted.
    Done(bool),
}

pub enum HostKeyActionView {
    Lookup { hostname: Seq<char> },
    Pin { hostname: Seq<char>, key: Seq<char> },
    Done(bool),
}

impl View for HostKeyAction {
    type V = HostKeyActionView;

    open spec fn view(&self) -> HostKeyActionView {
        match self {
            HostKeyAction::Lookup { hostname } => HostKeyActionView::Lookup { hostname: hostname@ },
            HostKeyAction::Pin { hostname, key } => HostKeyActionView::Pin {
                hostname: hostname@,
                key: key@,
            },
            HostKeyAction::Done(b) => HostKeyActionView::Done(*b),
        }
    }
}

/// One check of a host's presented key against the host-key table.
pub struct HostKeyCheck {
    hostname: String,
    presented: String,
}

/// The step of a host-key check for `hostname` presenting `presented` once
/// `event` has come back from the table.
pub open spec fn host_key_step(
    hostname: Seq<char>,
    presented: Seq<char>,
    event: HostKeyEventView,
) -> HostKeyActionView {
    match event {
        HostKeyEventView::Looked(KeyLookupView::Row(None)) => HostKeyActionView::Pin {
            hostname,
            key: presented,
        },
        HostKeyEventView::Looked(KeyLookupView::Row(Some(pinned))) => HostKeyActionView::Done(
            pinned == presented,
        ),
        HostKeyEventView::Looked(_) => HostKeyActionView::Done(false),
        HostKeyEventView::Pinned(ok) => HostKeyActionView::Done(ok),
    }
}

impl HostKeyCheck {
    pub closed spec fn hostname(&self) -> Seq<char> {
        self.hostname@
    }

    pub closed spec fn presented(&self) -> Seq<char> {
        self.presented@
    }

    /// Starts checking the key fingerprint `presented` of `hostname`; the
    /// first thing to do is to read the host's row.
    pub fn new(hostname: String, presented: String) -> (res: (HostKeyCheck, HostKeyAction))
        ensures
            res.0.hostname() == hostname@,
            res.0.presented() == presented@,
            res.1@ == (HostKeyActionView::Lookup { hostname: hostname@ }),
    {
        let first = HostKeyAction::Lookup { hostname: hostname.clone() };
        (HostKeyCheck { hostname, presented }, first)
    }

    /// What to do once the table has answered with `event`.
    pub fn step(&self, event: &HostKeyEvent) -> (action: HostKeyAction)
        ensures
            action@ == host_key_step(self.hostname(), self.presented(), event@),
    {
        match event {
            HostKeyEvent::Looked(KeyLookup::Row(None)) => HostKeyAction::Pin {
                hostname: self.hostname.clone(),
                key: self.presented.clone(),
            },
            HostKeyEvent::Looked(KeyLookup::Row(Some(pinned))) => {
                HostKeyAction::Done(*pinned == self.presented)
            },
            HostKeyEvent::Looked(_) => HostKeyAction::Done(false),
            HostKeyEvent::Pinned(ok) => HostKeyAction::Done(*ok),
        }
    }
}

/// Starts checking the key that `hostname` presented during the SSH
/// handshake, given as its SSH wire encoding: the key's SHA-256 fingerprint
/// is what gets compared and pinned.  `None` when the bytes are not a public
/// key.
pub fn begin_host_key_check(hostname: &str, key_wire: &[u8]) -> (res: Option<
    (HostKeyCheck, HostKeyAction),
>)
    ensures
        res is Some <==> public_key_parses(key_wire@),
        res matches Some((check, first)) ==> {
            &&& check.hostname() == hostname@
            &&& check.presented() == sha256_fingerprint_spec(key_wire@)
            &&& is_sha256_fingerprint_text(check.presented())
            &&& first@ == (HostKeyActionView::Lookup { hostname: hostname@ })
        },
{
    match sha256_fingerprint(key_wire) {
        Some(fingerprint) => Some(HostKeyCheck::new(String::from_str(hostname), fingerprint)),
        None => None,
    }
}

/// The file that holds the host-key table, inside the service's state
/// directory.
pub const HOSTKEYS_DB_FILE: &'static str = "hostkeys.db";

/// Creates the host-key table if it does not exist yet.
pub const CREATE_TABLE_SQL: &'static str = "CREATE TABLE IF NOT EXISTS hostkeys (
                    hostname TEXT UNIQUE,
                    KEY TEXT,
                    updated_at DATETIME DEFAULT CURRENT_TIMESTAMP,
                    created_at DATETIME DEFAULT CURRENT_TIMESTAMP
                );";

/// Reads the pinned key of a host: the read that [`table_lookup`] describes.
pub const SELECT_KEY_SQL: &'static str = "SELECT key FROM hostkeys WHERE hostname = ?1";

/// Gives a host a row without a key unless it has one: one step of
/// [`table_register`].
pub const REGISTER_HOST_SQL: &'static str = "INSERT OR IGNORE INTO hostkeys (hostname) VALUES (?1)";

/// Pins a key for a host: the write that [`table_pin`] describes.
pub const PIN_KEY_SQL: &'static str = "UPDATE hostkeys SET key = ?1, updated_at = CURRENT_TIMESTAMP WHERE hostname = ?2";

/// The path that `std::path::Path::join` gives on Unix for a relative
/// `rel`: `rel` after `base`, with a `/` between them unless `base` is empty
/// or already ends in `/`.
pub open spec fn joined_path(base: Seq<char>, rel: Seq<char>) -> Seq<char> {
    if base.len() == 0 || base.last() == '/' {
        base + rel
    } else {
        base + seq!['/'] + rel
    }
}

/// Calls `std::path::Path::join` with a relative path.  As std documents,
/// a relative path is appended to the base with a separator if one is
/// needed, and on Unix the separator is `/`.  Joining UTF-8 paths yields a
/// UTF-8 path, so converting it back to text loses nothing.
#[verifier::external_body]
fn path_join(base: &str, rel: &str) -> (joined: String)
    requires
        rel@.len() > 0,
        rel@[0] != '/',
    ensures
        joined@ == joined_path(base@, rel@),
{
    std::path::Path::new(base).join(std::path::Path::new(rel)).to_string_lossy().into_owned()
}

/// The path of the host-key table's file inside `state_dir`.
pub fn hostkeys_db_path(state_dir: &str) -> (path: String)
    ensures
        path@ == joined_path(state_dir@, "hostkeys.db"@),
{
    proof {
        reveal_strlit("hostkeys.db");
    }
    path_join(state_dir, HOSTKEYS_DB_FILE)
}

/// The host-key table: host name to pinned fingerprint, if any.
pub type HostKeyTable = Map<Seq<char>, Option<Seq<char>>>;

/// The answer of a working table to a read of `host`'s row.
pub open spec fn table_lookup(table: HostKeyTable, host: Seq<char>) -> KeyLookupView {
    if table.contains_key(host) {
        KeyLookupView::Row(table[host])
    } else {
        KeyLookupView::NoRow
    }
}

/// The table after a successful write of `key` into `host`'s row; a host
/// without a row is left without one.
pub open spec fn table_pin(table: HostKeyTable, host: Seq<char>, key: Seq<char>) -> HostKeyTable {
    if table.contains_key(host) {
        table.insert(host, Some(key))
    } else {
        table
    }
}

/// The table after registering `hosts`: each host that has no row gets one
/// without a key, and existing rows are left as they are.
pub open spec fn table_register(table: HostKeyTable, hosts: Seq<Seq<char>>) -> HostKeyTable
    decreases hosts.len(),
{
    if hosts.len() == 0 {
        table
    } else {
        let t = table_register(table, hosts.drop_last());
        if t.contains_key(hosts.last()) {
            t
        } else {
            t.insert(hosts.last(), None)
        }
    }
}

/// A whole host-key check of `host` presenting `key` against a working
/// table: the verdict, and the table afterwards.
pub open spec fn check_against(table: HostKeyTable, host: Seq<char>, key: Seq<char>) -> (
    bool,
    HostKeyTable,
) {
    match host_key_step(host, key, HostKeyEventView::Looked(table_lookup(table, host))) {
        HostKeyActionView::Done(v) => (v, table),
        HostKeyActionView::Pin { hostname, key: k } => {
            match host_key_step(host, key, HostKeyEventView::Pinned(true)) {
                HostKeyActionView::Done(v) => (v, table_pin(table, hostname, k)),
                _ => (false, table),
            }
        },
        _ => (false, table),
    }
}

/// A host that has no row in the table is never trusted, and the check
/// leaves the table unchanged.
pub proof fn lemma_unknown_host_rejected(table: HostKeyTable, host: Seq<char>, key: Seq<char>)
    requires
        !table.contains_key(host),
    ensures
        check_against(table, host, key) == (false, table),
{
}

/// A known host without a pinned key is trusted on first contact, and the
/// key it presented becomes its pinned key.
pub proof fn lemma_first_contact_pins(table: HostKeyTable, host: Seq<char>, key: Seq<char>)
    requires
        table.contains_key(host),
        table[host] is None,
    ensures
        check_against(table, host, key) == (true, table.insert(host, Some(key))),
{
}

/// Once a key is pinned, a host is trusted exactly when it presents that
/// key, and no check changes the pinned key.
pub proof fn lemma_pinned_key_decides(
    table: HostKeyTable,
    host: Seq<char>,
    pinned: Seq<char>,
    key: Seq<char>,
)
    requires
        table.contains_key(host),
        table[host] == Some(pinned),
    ensures
        check_against(table, host, key) == (key == pinned, table),
{
}

/// Trust on first use: after a first contact with `first`, a later check
/// with `later` succeeds exactly when `later` is `first`.
pub proof fn lemma_trust_on_first_use(
    table: HostKeyTable,
    host: Seq<char>,
    first: Seq<char>,
    later: Seq<char>,
)
    requires
        table.contains_key(host),
        table[host] is None,
    ensures
        ({
            let (ok1, t1) = check_against(table, host, first);
            let (ok2, t2) = check_against(t1, host, later);
            ok1 && ok2 == (later == first) && t2 == t1
        }),
{
    lemma_first_contact_pins(table, host, first);
    let t1 = table.insert(host, Some(first));
    lemma_pinned_key_decides(t1, host, first, later);
}

/// A failed read of the table, or a failed write of the pin, never leads to
/// trust.
pub proof fn lemma_failures_reject(host: Seq<char>, key: Seq<char>)
    ensures
        host_key_step(host, key, HostKeyEventView::Looked(KeyLookupView::Failed))
            == HostKeyActionView::Done(false),
        host_key_step(host, key, HostKeyEventView::Pinned(false)) == HostKeyActionView::Done(false),
{
}

/// Registering hosts gives each of them a row, and keeps every row that
/// existed, pinned key included.
pub proof fn lemma_register_keeps_pins(table: HostKeyTable, hosts: Seq<Seq<char>>, h: Seq<char>)
    ensures
        table.contains_key(h) ==> table_register(table, hosts).contains_key(h)
            && table_register(table, hosts)[h] == table[h],
        hosts.contains(h) ==> table_register(table, hosts).contains_key(h),
        !table.contains_key(h) && hosts.contains(h) ==> table_register(table, hosts)[h] is None,
        !table.contains_key(h) && !hosts.contains(h) ==> !table_register(table, hosts).contains_key(h),
    decreases hosts.len(),
{
    if hosts.len() > 0 {
        lemma_register_keeps_pins(table, hosts.drop_last(), h);
        if hosts.contains(h) && h != hosts.last() {
            let i = choose|i: int| 0 <= i < hosts.len() && hosts[i] == h;
            assert(hosts.drop_last()[i] == h);
        }
        if hosts.drop_last().contains(h) {
            let i = choose|i: int| 0 <= i < hosts.drop_last().len() && hosts.drop_last()[i] == h;
            assert(hosts[i] == h);
        }
    }
}

} // verus!

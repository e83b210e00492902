//! The server's decisions: which datagram leads to placing secrets on which
//! host, and when the client is told that its secrets are in place.
use crate::client::client_step;
use crate::client::ClientActionView;
use crate::client::ClientEvent;
use crate::config::HostConfig;
use crate::config::NamedEntries;
use crate::text::utf8_text;
use vstd::prelude::*;
use vstd::utf8::*;

verus! {

/// The UDP port the server listens on unless told otherwise.
pub const SERVER_PORT: u16 = 41234;

/// The UDP port on which clients wait for the server's answer.
pub const CLIENT_PORT: u16 = 41235;

/// The largest datagram the server reads.
pub const MAX_DATAGRAM: usize = 4096;

/// What the server's socket delivered, or how handling a host ended.
#[derive(Debug)]
pub enum ServerEvent {
    /// A datagram arrived with this payload.
    Received(Vec<u8>),
    /// Reading from the socket failed.
    ReceiveFailed,
    /// Placing the secrets on `hostname` ended, successfully or not.
    Handled { hostname: String, ok: bool },
}

pub enum ServerEventView {
    Received(Seq<u8>),
    ReceiveFailed,
    Handled { hostname: Seq<char>, ok: bool },
}

impl View for ServerEvent {
    type V = ServerEventView;

    open spec fn view(&self) -> ServerEventView {
        match self {
            ServerEvent::Received(p) => ServerEventView::Received(p@),
            ServerEvent::ReceiveFailed => ServerEventView::ReceiveFailed,
            ServerEvent::Handled { hostname, ok } => ServerEventView::Handled {
                hostname: hostname@,
                ok: *ok,
            },
        }
    }
}

/// What the server does next.
#[derive(Debug)]
pub enum ServerAction {
    /// Wait for the next datagram.
    Listen,
    /// The datagram was not UTF-8 text: drop it and wait for the next one.
    DropUnreadable,
    /// The datagram named a host that is not configured: drop it.
    DropUnknownHost { name: String },
    /// Place the secrets on the configured host `hostname`.
    Handle { hostname: String },
    /// Tell the sender of the datagram, on `port`, that `hostname` is done,
    /// by sending `payload`; then wait for the next datagram.
    Reply { hostname: String, port: u16, payload: Vec<u8> },
}

pub enum ServerActionView {
    Listen,
    DropUnreadable,
    DropUnknownHost { name: Seq<char> },
    Handle { hostname: Seq<char> },
    Reply { hostname: Seq<char>, port: u16, payload: Seq<u8> },
}

impl View for ServerAction {
    type V = ServerActionView;

    open spec fn view(&self) -> ServerActionView {
        match self {
            ServerAction::Listen => ServerActionView::Listen,
            ServerAction::DropUnreadable => ServerActionView::DropUnreadable,
            ServerAction::DropUnknownHost { name } => ServerActionView::DropUnknownHost {
                name: name@,
            },
            ServerAction::Handle { hostname } => ServerActionView::Handle { hostname: hostname@ },
            ServerAction::Reply { hostname, port, payload } => ServerActionView::Reply {
                hostname: hostname@,
                port: *port,
                payload: payload@,
            },
        }
    }
}

/// The bytes of the reply `ok`.
pub open spec fn reply_payload() -> Seq<u8> {
    seq![0x6fu8, 0x6bu8]
}

/// The server's next action, given the configured hosts and an event.
pub open spec fn server_step(hosts: Map<Seq<char>, HostConfig>, event: ServerEventView) -> ServerActionView {
    match event {
        ServerEventView::Received(payload) => {
            if !valid_utf8(payload) {
                ServerActionView::DropUnreadable
            } else if hosts.contains_key(decode_utf8(payload)) {
                ServerActionView::Handle { hostname: decode_utf8(payload) }
            } else {
                ServerActionView::DropUnknownHost { name: decode_utf8(payload) }
            }
        },
        ServerEventView::ReceiveFailed => ServerActionView::Listen,
        ServerEventView::Handled { hostname, ok } => {
            if ok {
                ServerActionView::Reply { hostname, port: CLIENT_PORT, payload: reply_payload() }
            } else {
                ServerActionView::Listen
            }
        },
    }
}

/// Decides what the server does with `event`, given its configured hosts.
pub fn next_server_action(hosts: &NamedEntries<HostConfig>, event: &ServerEvent) -> (action:
    ServerAction)
    ensures
        action@ == server_step(hosts@, event@),
{
    match event {
        ServerEvent::Received(payload) => {
            match utf8_text(payload.as_slice()) {
                None => ServerAction::DropUnreadable,
                Some(name) => {
                    if hosts.get(&name).is_some() {
                        ServerAction::Handle { hostname: name }
                    } else {
                        ServerAction::DropUnknownHost { name }
                    }
                },
            }
        },
        ServerEvent::ReceiveFailed => ServerAction::Listen,
        ServerEvent::Handled { hostname, ok } => {
            if *ok {
                let payload: Vec<u8> = vec![0x6fu8, 0x6bu8];
                assert(payload@ =~= reply_payload());
                ServerAction::Reply { hostname: hostname.clone(), port: CLIENT_PORT, payload }
            } else {
                ServerAction::Listen
            }
        },
    }
}

/// A datagram carrying the UTF-8 encoding of a name leads to handling that
/// name exactly when it is a configured host; otherwise it is dropped as an
/// unknown host.
pub proof fn lemma_handles_configured_hosts(hosts: Map<Seq<char>, HostConfig>, name: Seq<char>)
    ensures
        server_step(hosts, ServerEventView::Received(encode_utf8(name))) == (if hosts.contains_key(
            name,
        ) {
            ServerActionView::Handle { hostname: name }
        } else {
            ServerActionView::DropUnknownHost { name }
        }),
{
    encode_utf8_valid_utf8(name);
    encode_utf8_decode_utf8(name);
}

/// What each event leads to, for every configuration: after placing the
/// secrets on a host succeeded, the server replies `ok` (the bytes `o`, `k`)
/// to the client port 41235 for that host; after it failed, and after a
/// failed read, it just waits; a datagram that is not UTF-8 text is dropped.
pub proof fn lemma_event_outcomes(hosts: Map<Seq<char>, HostConfig>, hostname: Seq<char>, payload: Seq<u8>)
    ensures
        server_step(hosts, ServerEventView::Handled { hostname, ok: true }) == (ServerActionView::Reply {
            hostname,
            port: 41235u16,
            payload: seq![0x6fu8, 0x6bu8],
        }),
        CLIENT_PORT == 41235u16,
        server_step(hosts, ServerEventView::Handled { hostname, ok: false }) == ServerActionView::Listen,
        server_step(hosts, ServerEventView::ReceiveFailed) == ServerActionView::Listen,
        !valid_utf8(payload) ==> server_step(hosts, ServerEventView::Received(payload))
            == ServerActionView::DropUnreadable,
        valid_utf8(payload) && hosts.contains_key(decode_utf8(payload)) ==> server_step(
            hosts,
            ServerEventView::Received(payload),
        ) == (ServerActionView::Handle { hostname: decode_utf8(payload) }),
        valid_utf8(payload) && !hosts.contains_key(decode_utf8(payload)) ==> server_step(
            hosts,
            ServerEventView::Received(payload),
        ) == (ServerActionView::DropUnknownHost { name: decode_utf8(payload) }),
{
}

/// Only a datagram that decodes to a configured host name is handled, and a
/// reply goes out only after handling a host succeeded, always to the
/// client port and always saying `ok`.
pub proof fn lemma_reply_only_after_success(hosts: Map<Seq<char>, HostConfig>, event: ServerEventView)
    ensures
        server_step(hosts, event) matches ServerActionView::Handle { hostname } ==> (event matches ServerEventView::Received(p)
            && valid_utf8(p) && hostname == decode_utf8(p) && hosts.contains_key(hostname)),
        server_step(hosts, event) matches ServerActionView::Reply { hostname, port, payload } ==> (
        event == ServerEventView::Handled { hostname, ok: true } && port == CLIENT_PORT && payload
            == reply_payload()),
{
}

/// The protocol end to end: the announcement a client sends, whether first
/// or after a silent interval, makes the server handle exactly the host the
/// client named, when that host is configured, and drop it otherwise.
pub proof fn lemma_announcement_handled_iff_configured(
    hosts: Map<Seq<char>, HostConfig>,
    identity: Seq<char>,
    event: ClientEvent,
)
    requires
        event != ClientEvent::ReplyReceived,
    ensures
        client_step(identity, event) matches ClientActionView::Broadcast { payload } && server_step(
            hosts,
            ServerEventView::Received(payload),
        ) == (if hosts.contains_key(identity) {
            ServerActionView::Handle { hostname: identity }
        } else {
            ServerActionView::DropUnknownHost { name: identity }
        }),
{
    lemma_handles_configured_hosts(hosts, identity);
}

} // verus!

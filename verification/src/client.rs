//! The client's decisions: it announces its host name to the server by UDP
//! broadcast, again after every silent interval, until any answer arrives.
use crate::text::utf8_text;
use vstd::prelude::*;
use vstd::string::*;
use vstd::utf8::*;

verus! {

/// The UDP port the client binds to unless told otherwise.
pub const CLIENT_BIND_PORT: u16 = 41235;

/// Seconds the client waits for an answer before announcing itself again.
pub const RETRY_SECONDS: u64 = 5;

/// Why the client cannot start.
#[derive(Debug, PartialEq, Eq, Structural)]
pub enum ClientError {
    /// The machine's host name is not UTF-8 text.
    HostnameNotUtf8,
}

impl ClientError {
    /// The message the client fails with.
    pub fn message(&self) -> (m: String)
        ensures
            m@ == "hostname is not valid UTF-8"@,
    {
        String::from_str("hostname is not valid UTF-8")
    }
}

/// Calls `gethostname::gethostname()` and hands out the bytes of the
/// `OsString` it returns (on Unix, the node name that `uname` reports).  What
/// the host name is depends on the machine, so nothing is stated of it.
#[verifier::external_body]
fn machine_hostname_bytes() -> (bytes: Vec<u8>) {
    gethostname::gethostname().as_encoded_bytes().to_vec()
}

/// The name a client announces, from the raw bytes of the machine's host
/// name: the text they encode, if they are UTF-8.
pub fn identity_from_bytes(bytes: &[u8]) -> (res: Result<String, ClientError>)
    ensures
        res is Ok <==> valid_utf8(bytes@),
        res matches Ok(name) ==> name@ == decode_utf8(bytes@),
        res matches Err(e) ==> e == ClientError::HostnameNotUtf8,
{
    match utf8_text(bytes) {
        Some(name) => Ok(name),
        None => Err(ClientError::HostnameNotUtf8),
    }
}

/// The name this machine announces: its host name, if that is UTF-8 text.
pub fn local_identity() -> (res: Result<String, ClientError>)
    ensures
        res matches Err(e) ==> e == ClientError::HostnameNotUtf8,
{
    let bytes = machine_hostname_bytes();
    identity_from_bytes(bytes.as_slice())
}

/// What happened to the client.
#[derive(Clone, Copy, Debug, PartialEq, Eq, Structural)]
pub enum ClientEvent {
    /// The socket is bound; nothing has been sent yet.
    Started,
    /// Some datagram arrived on the client's socket.
    ReplyReceived,
    /// The retry interval passed without an answer.
    TimedOut,
}

/// What the client does next.
#[derive(Debug)]
pub enum ClientAction {
    /// Broadcast `payload` to the server's address, then wait for an answer
    /// for at most the retry interval.
    Broadcast { payload: Vec<u8> },
    /// Stop: the server has answered.
    Finish,
}

pub enum ClientActionView {
    Broadcast { payload: Seq<u8> },
    Finish,
}

impl View for ClientAction {
    type V = ClientActionView;

    open spec fn view(&self) -> ClientActionView {
        match self {
            ClientAction::Broadcast { payload } => ClientActionView::Broadcast { payload: payload@ },
            ClientAction::Finish => ClientActionView::Finish,
        }
    }
}

/// The client's next action, for a client announcing `identity`.
pub open spec fn client_step(identity: Seq<char>, event: ClientEvent) -> ClientActionView {
    match event {
        ClientEvent::ReplyReceived => ClientActionView::Finish,
        _ => ClientActionView::Broadcast { payload: encode_utf8(identity) },
    }
}

/// Decides what a client announcing `identity` does after `event`.
pub fn next_client_action(identity: &String, event: ClientEvent) -> (action: ClientAction)
    ensures
        action@ == client_step(identity@, event),
{
    match event {
        ClientEvent::ReplyReceived => ClientAction::Finish,
        _ => ClientAction::Broadcast { payload: identity.as_str().as_bytes_vec() },
    }
}

/// Every announcement carries the UTF-8 encoding of the identity, which the
/// server decodes back to the identity itself; the client stops exactly when
/// an answer arrives.
pub proof fn lemma_announcement_round_trip(identity: Seq<char>, event: ClientEvent)
    ensures
        client_step(identity, event) matches ClientActionView::Broadcast { payload } ==> valid_utf8(
            payload,
        ) && decode_utf8(payload) == identity,
        client_step(identity, event) is Finish <==> event == ClientEvent::ReplyReceived,
{
    encode_utf8_valid_utf8(identity);
    encode_utf8_decode_utf8(identity);
}

} // verus!

//! The server's side of a client's connection: the handshake, the requests it
//! reads and the updates it forwards.
use vstd::prelude::*;

use crate::client::{GameUpdateData, TcpUpdate};
use crate::bytes::ne_u16_bytes;
use crate::lobby::{
    client_bytes, response_bytes, update_bytes, Client, Game, Lobby, LobbyConnectionAcceptResponse, LobbyUpdateData,
};
use crate::package::{package_of_code, LobbyUpdate, PackageType};
use crate::client::connect_package_bytes;
use crate::text::{lossy_decode, string_from_utf8_lossy, utf8_bytes};

verus! {

/// The address of a peer, as plain values: whether it is an IPv6 address, and
/// its bits (an IPv4 address in the low 32 bits).
#[derive(Debug, Clone, Copy, PartialEq, Eq, Structural)]
pub struct PeerAddr {
    pub is_v6: bool,
    pub bits: u128,
}

/// An event that the server's manager broadcasts to every connection.
#[derive(Debug, Clone)]
pub enum EventBroadcast {
    Connected { addr: PeerAddr, client: Client },
    Disconnected(u16),
    ConnectionInterrupt(u16),
    Reconnected { addr: PeerAddr, client: Client },
    Multiconnect(PeerAddr),
    Message { client_id: u16, content: String },
    GameCreation(Game),
    GameDeletion(u16),
    GameEntry { client_id: u16, game_id: u16 },
    GameExit(u16),
}

/// What a connection that waits for its client's id does on an event.
#[derive(Debug, Clone, Copy, PartialEq, Eq, Structural)]
pub enum HandshakeStep {
    /// The client joined, or came back, under this id.
    Accept(u16),
    /// The peer is connected already: refuse it.
    Deny,
    /// The event is about another peer, or no connection at all.
    Wait,
}

/// What a waiting connection does on an event, given whether the event's
/// address is its peer's: a connection or reconnection of its peer gives the
/// client's id, a second connection from its peer is refused, anything else is
/// waited past.
pub open spec fn handshake_step_of(event: EventBroadcast, same_peer: bool) -> HandshakeStep {
    match event {
        EventBroadcast::Connected { client, .. } => if same_peer {
            HandshakeStep::Accept(client.client_id)
        } else {
            HandshakeStep::Wait
        },
        EventBroadcast::Reconnected { client, .. } => if same_peer {
            HandshakeStep::Accept(client.client_id)
        } else {
            HandshakeStep::Wait
        },
        EventBroadcast::Multiconnect(_) => if same_peer {
            HandshakeStep::Deny
        } else {
            HandshakeStep::Wait
        },
        _ => HandshakeStep::Wait,
    }
}

/// The address an event is about, if it carries one.
pub open spec fn event_addr(event: EventBroadcast) -> Option<PeerAddr> {
    match event {
        EventBroadcast::Connected { addr, .. } => Some(addr),
        EventBroadcast::Reconnected { addr, .. } => Some(addr),
        EventBroadcast::Multiconnect(addr) => Some(addr),
        _ => None,
    }
}

/// What the connection to the peer at `addr` does on an event while it waits
/// for its client's id: the step for whether the event is about that peer.
pub fn handshake_step(event: &EventBroadcast, addr: &PeerAddr) -> (step: HandshakeStep)
    ensures
        step == handshake_step_of(
            *event,
            match event_addr(*event) {
                Some(a) => a == *addr,
                None => false,
            },
        ),
        step != HandshakeStep::Wait ==> event_addr(*event) == Some(*addr),
{
    match event {
        EventBroadcast::Connected { addr: event_addr, client } => {
            if *event_addr == *addr {
                HandshakeStep::Accept(client.client_id)
            } else {
                HandshakeStep::Wait
            }
        },
        EventBroadcast::Reconnected { addr: event_addr, client } => {
            if *event_addr == *addr {
                HandshakeStep::Accept(client.client_id)
            } else {
                HandshakeStep::Wait
            }
        },
        EventBroadcast::Multiconnect(event_addr) => {
            if *event_addr == *addr {
                HandshakeStep::Deny
            } else {
                HandshakeStep::Wait
            }
        },
        _ => HandshakeStep::Wait,
    }
}

/// A waiting connection takes an id only from a connection or reconnection of
/// its own peer, and it is the id of the client that event carries; it is
/// refused only on a second connection from its own peer; any event about
/// another peer is waited past.
pub proof fn lemma_handshake_only_own_peer(event: EventBroadcast, same_peer: bool)
    ensures
        !same_peer ==> handshake_step_of(event, same_peer) == HandshakeStep::Wait,
        handshake_step_of(event, same_peer) matches HandshakeStep::Accept(id) ==> same_peer && (
        (event matches EventBroadcast::Connected { client, .. } && client.client_id == id) || (
        event matches EventBroadcast::Reconnected { client, .. } && client.client_id == id)),
        handshake_step_of(event, same_peer) == HandshakeStep::Deny ==> same_peer
            && event is Multiconnect,
        same_peer ==> (event matches EventBroadcast::Connected { client, .. } ==> handshake_step_of(
            event,
            same_peer,
        ) == HandshakeStep::Accept(client.client_id)),
        same_peer ==> (event matches EventBroadcast::Reconnected { client, .. } ==> handshake_step_of(
            event,
            same_peer,
        ) == HandshakeStep::Accept(client.client_id)),
{
}

/// The answer that accepts a client: its id, no games counted, the number of
/// clients (modulo 65536), then the games and clients of the lobby.
pub open spec fn accept_answer(client_id: u16, clients: Vec<Client>, games: Vec<Game>) -> LobbyConnectionAcceptResponse {
    LobbyConnectionAcceptResponse {
        client_id,
        lobby: Lobby {
            client_count: (clients@.len() % 65536) as u16,
            game_count: 0,
            clients,
            games,
        },
    }
}

/// The bytes that accept a client into the lobby.
pub fn accept_response_for(client_id: u16, clients: Vec<Client>, games: Vec<Game>) -> (bytes: Vec<u8>)
    ensures
        bytes@ == response_bytes(accept_answer(client_id, clients, games)),
{
    let client_count = (clients.len() % 65536) as u16;
    let response = LobbyConnectionAcceptResponse {
        client_id,
        lobby: Lobby { client_count, game_count: 0, clients, games },
    };
    response.to_bytes()
}

/// What a connected client asks for with the byte it sent.
#[derive(Debug, Clone, Copy, PartialEq, Eq, Structural)]
pub enum ClientRequest {
    /// Nothing could be read: the connection is gone.
    ConnectionLost,
    /// The client leaves the lobby.
    Disconnect,
    /// The client sends a chat line; its length and text follow.
    Message,
    /// Any other byte.
    Unknown,
}

/// What a connected client asks for: nothing read means the connection is
/// gone; otherwise the byte's package kind decides.
pub fn classify_request(n_read: usize, byte: u8) -> (r: ClientRequest)
    ensures
        n_read == 0 ==> r == ClientRequest::ConnectionLost,
        n_read != 0 ==> r == (if package_of_code(byte) == PackageType::LobbyDisconnect {
            ClientRequest::Disconnect
        } else if package_of_code(byte) == PackageType::LobbyUpdate(LobbyUpdate::Message) {
            ClientRequest::Message
        } else {
            ClientRequest::Unknown
        }),
        n_read != 0 ==> (r == ClientRequest::Disconnect <==> byte == 1),
        n_read != 0 ==> (r == ClientRequest::Message <==> byte == 8),
        r == ClientRequest::ConnectionLost <==> n_read == 0,
{
    if n_read == 0 {
        return ClientRequest::ConnectionLost;
    }
    match PackageType::from(byte) {
        PackageType::LobbyDisconnect => ClientRequest::Disconnect,
        PackageType::LobbyUpdate(LobbyUpdate::Message) => ClientRequest::Message,
        _ => ClientRequest::Unknown,
    }
}

/// `u` is the update that a connection forwards for an event: the lobby's
/// changes for connections, disconnections, interruptions, reconnections (by
/// id) and chat lines (with their length modulo 256), the games' changes for
/// the game events, nothing for a second connection from a peer.
pub open spec fn forwarded_update(event: EventBroadcast, u: Option<TcpUpdate>) -> bool {
    match event {
        EventBroadcast::Connected { client, .. } => u == Some(
            TcpUpdate::LobbyUpdate(LobbyUpdateData::Connect(client)),
        ),
        EventBroadcast::Disconnected(id) => u == Some(
            TcpUpdate::LobbyUpdate(LobbyUpdateData::Disconnect(id)),
        ),
        EventBroadcast::ConnectionInterrupt(id) => u == Some(
            TcpUpdate::LobbyUpdate(LobbyUpdateData::ConnectionInterrupt(id)),
        ),
        EventBroadcast::Reconnected { client, .. } => u == Some(
            TcpUpdate::LobbyUpdate(LobbyUpdateData::Reconnect(client.client_id)),
        ),
        EventBroadcast::Multiconnect(_) => u is None,
        EventBroadcast::Message { client_id, content } => u == Some(
            TcpUpdate::LobbyUpdate(
                LobbyUpdateData::Message {
                    sender: client_id,
                    length: (utf8_bytes(content@).len() % 256) as u8,
                    content,
                },
            ),
        ),
        EventBroadcast::GameCreation(g) => u == Some(
            TcpUpdate::GameUpdate(GameUpdateData::Creation(g)),
        ),
        EventBroadcast::GameDeletion(id) => u == Some(
            TcpUpdate::GameUpdate(GameUpdateData::Deletion(id)),
        ),
        EventBroadcast::GameEntry { client_id, game_id } => u == Some(
            TcpUpdate::GameUpdate(GameUpdateData::Entry { client_id, game_id }),
        ),
        EventBroadcast::GameExit(id) => u == Some(TcpUpdate::GameUpdate(GameUpdateData::Exit(id))),
    }
}

/// Each event reaches the clients as the update of its own kind, about the
/// same client: on the wire a connection is announced with code 4 followed by
/// the client, a departure with code 5, an interruption with code 6 and a
/// reconnection with code 7, each followed by the client's id, and a chat line
/// with code 8 carrying its sender and text; the game events become the game
/// updates about the same game or client; a second connection from a peer is
/// not forwarded.
pub proof fn lemma_forwarded_update_kind(event: EventBroadcast, u: Option<TcpUpdate>)
    requires
        forwarded_update(event, u),
    ensures
        match event {
            EventBroadcast::Connected { client, .. } => u matches Some(TcpUpdate::LobbyUpdate(d))
                && update_bytes(d) == seq![4u8] + client_bytes(client),
            EventBroadcast::Disconnected(id) => u matches Some(TcpUpdate::LobbyUpdate(d))
                && update_bytes(d) == seq![5u8] + ne_u16_bytes(id),
            EventBroadcast::ConnectionInterrupt(id) => u matches Some(TcpUpdate::LobbyUpdate(d))
                && update_bytes(d) == seq![6u8] + ne_u16_bytes(id),
            EventBroadcast::Reconnected { client, .. } => u matches Some(TcpUpdate::LobbyUpdate(d))
                && update_bytes(d) == seq![7u8] + ne_u16_bytes(client.client_id),
            EventBroadcast::Multiconnect(_) => u is None,
            EventBroadcast::Message { client_id, content } => u matches Some(
                TcpUpdate::LobbyUpdate(LobbyUpdateData::Message { sender, content: text, .. }),
            ) && sender == client_id && text == content && update_bytes(
                LobbyUpdateData::Message { sender, length: 0, content: text },
            ) == seq![8u8],
            EventBroadcast::GameCreation(g) => u matches Some(
                TcpUpdate::GameUpdate(GameUpdateData::Creation(h)),
            ) && h == g,
            EventBroadcast::GameDeletion(id) => u matches Some(
                TcpUpdate::GameUpdate(GameUpdateData::Deletion(i)),
            ) && i == id,
            EventBroadcast::GameEntry { client_id, game_id } => u matches Some(
                TcpUpdate::GameUpdate(GameUpdateData::Entry { client_id: c, game_id: g }),
            ) && c == client_id && g == game_id,
            EventBroadcast::GameExit(id) => u matches Some(
                TcpUpdate::GameUpdate(GameUpdateData::Exit(i)),
            ) && i == id,
        },
{
    match event {
        EventBroadcast::Connected { client, .. } => {
            assert(update_bytes(LobbyUpdateData::Connect(client)) =~= seq![4u8] + client_bytes(client));
        },
        EventBroadcast::Disconnected(id) => {
            assert(update_bytes(LobbyUpdateData::Disconnect(id)) =~= seq![5u8] + ne_u16_bytes(id));
        },
        EventBroadcast::ConnectionInterrupt(id) => {
            assert(update_bytes(LobbyUpdateData::ConnectionInterrupt(id)) =~= seq![6u8] + ne_u16_bytes(id));
        },
        EventBroadcast::Reconnected { client, .. } => {
            assert(update_bytes(LobbyUpdateData::Reconnect(client.client_id)) =~= seq![7u8]
                + ne_u16_bytes(client.client_id));
        },
        EventBroadcast::Message { client_id, content } => {
            assert(update_bytes(LobbyUpdateData::Message { sender: client_id, length: 0, content })
                =~= seq![8u8]);
        },
        _ => {},
    }
}

/// The update that a connection forwards to its client for a broadcast event.
pub fn update_for_event(event: EventBroadcast) -> (u: Option<TcpUpdate>)
    ensures
        forwarded_update(event, u),
{
    match event {
        EventBroadcast::Connected { client, .. } => Some(
            TcpUpdate::LobbyUpdate(LobbyUpdateData::Connect(client)),
        ),
        EventBroadcast::Disconnected(client_id) => Some(
            TcpUpdate::LobbyUpdate(LobbyUpdateData::Disconnect(client_id)),
        ),
        EventBroadcast::ConnectionInterrupt(client_id) => Some(
            TcpUpdate::LobbyUpdate(LobbyUpdateData::ConnectionInterrupt(client_id)),
        ),
        EventBroadcast::Reconnected { client, .. } => Some(
            TcpUpdate::LobbyUpdate(LobbyUpdateData::Reconnect(client.client_id)),
        ),
        EventBroadcast::Multiconnect(_) => None,
        EventBroadcast::Message { client_id, content } => {
            let length = (content.as_str().as_bytes().len() % 256) as u8;
            Some(
                TcpUpdate::LobbyUpdate(
                    LobbyUpdateData::Message { sender: client_id, length, content },
                ),
            )
        },
        EventBroadcast::GameCreation(game) => Some(
            TcpUpdate::GameUpdate(GameUpdateData::Creation(game)),
        ),
        EventBroadcast::GameDeletion(host_id) => Some(
            TcpUpdate::GameUpdate(GameUpdateData::Deletion(host_id)),
        ),
        EventBroadcast::GameEntry { client_id, game_id } => Some(
            TcpUpdate::GameUpdate(GameUpdateData::Entry { client_id, game_id }),
        ),
        EventBroadcast::GameExit(client_id) => Some(
            TcpUpdate::GameUpdate(GameUpdateData::Exit(client_id)),
        ),
    }
}

/// The name in a join request: its first byte must announce a connection;
/// the name bytes (as many as the request's second byte says) are decoded
/// lossily. Any other first byte is no join request.
pub fn join_request_name(first: u8, name: &[u8]) -> (r: Option<String>)
    ensures
        r is Some <==> package_of_code(first) == PackageType::LobbyConnect,
        r matches Some(n) ==> n@ == lossy_decode(name@),
{
    match PackageType::from(first) {
        PackageType::LobbyConnect => Some(string_from_utf8_lossy(name)),
        _ => None,
    }
}

/// The text of a chat request: the bytes that follow its length byte,
/// decoded lossily.
pub fn chat_request_text(text: &[u8]) -> (s: String)
    ensures
        s@ == lossy_decode(text@),
{
    string_from_utf8_lossy(text)
}

/// The server reads back the name that a client's join request carries, for
/// every name of at most 255 bytes.
pub proof fn lemma_join_request_roundtrip(name: Seq<char>)
    requires
        utf8_bytes(name).len() <= 255,
    ensures
        ({
            let b = connect_package_bytes(name);
            &&& 2 <= b.len()
            &&& package_of_code(b[0]) == PackageType::LobbyConnect
            &&& 2 + b[1] == b.len()
            &&& lossy_decode(b.subrange(2, 2 + b[1])) == name
        }),
{
    let b = connect_package_bytes(name);
    assert(b.subrange(2, 2 + b[1]) =~= utf8_bytes(name));
    crate::text::lemma_lossy_decode_encode(name);
}

} // verus!

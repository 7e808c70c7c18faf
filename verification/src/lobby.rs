//! Clients, games and lobbies, and how the server writes them on the wire.
use vstd::prelude::*;

use crate::bytes::{ne_u16_bytes, ne_u16_value, push_all, push_u16_ne, u16_from_ne_bytes};
use crate::package::{package_code, LobbyUpdate, PackageType};
use crate::text::{lossy_decode, string_from_utf8_lossy, utf8_bytes};

verus! {

/// Whether a client is active, or idle for a number of whole seconds.
#[derive(Debug, Clone, Copy, PartialEq, Eq, Structural)]
pub enum ClientStatus {
    Idle(u64),
    Active,
}

/// A client of the lobby.
#[derive(Debug, Clone, PartialEq, Eq)]
pub struct Client {
    pub client_id: u16,
    pub in_game: bool,
    pub status: ClientStatus,
    pub name: String,
}

/// A game hosted in the lobby.
#[derive(Debug, Clone, PartialEq, Eq)]
pub struct Game {
    pub game_id: u16,
    pub host_id: u16,
    pub password: bool,
    pub game_name: String,
    pub clients: Vec<u16>,
}

/// The lobby as a client sees it.
#[derive(Debug, Clone, PartialEq, Eq)]
pub struct Lobby {
    pub client_count: u16,
    pub game_count: u16,
    pub clients: Vec<Client>,
    pub games: Vec<Game>,
}

/// The server's answer to an accepted connection.
#[derive(Debug, Clone, PartialEq, Eq)]
pub struct LobbyConnectionAcceptResponse {
    pub client_id: u16,
    pub lobby: Lobby,
}

/// A change of the lobby that the server announces to every client.
#[derive(Debug, Clone, PartialEq, Eq)]
pub enum LobbyUpdateData {
    Connect(Client),
    Disconnect(u16),
    ConnectionInterrupt(u16),
    Reconnect(u16),
    Message { sender: u16, length: u8, content: String },
}

/// One byte for a flag: 1 for true, 0 for false.
pub open spec fn flag_byte(b: bool) -> u8 {
    if b {
        1
    } else {
        0
    }
}

/// A length as one byte: the length modulo 256.
pub open spec fn len_byte(n: int) -> u8 {
    (n % 256) as u8
}

/// The status bytes: 1 for an active client; 0 and the seconds modulo 256 for an idle one.
pub open spec fn status_bytes(s: ClientStatus) -> Seq<u8> {
    match s {
        ClientStatus::Active => seq![1u8],
        ClientStatus::Idle(secs) => seq![0u8, (secs % 256) as u8],
    }
}

/// A client on the wire: id, in-game flag, length of the name, status, name.
pub open spec fn client_bytes(c: Client) -> Seq<u8> {
    let name = utf8_bytes(c.name@);
    ne_u16_bytes(c.client_id) + seq![flag_byte(c.in_game)] + seq![len_byte(name.len() as int)]
        + status_bytes(c.status) + name
}

/// The ids of a list, each in native byte order, one after the other.
pub open spec fn u16_list_bytes(ids: Seq<u16>) -> Seq<u8>
    decreases ids.len(),
{
    if ids.len() == 0 {
        seq![]
    } else {
        u16_list_bytes(ids.drop_last()) + ne_u16_bytes(ids.last())
    }
}

/// A game on the wire: id, host, password flag, length of the name, name,
/// number of clients, the clients' ids.
pub open spec fn game_bytes(g: Game) -> Seq<u8> {
    let name = utf8_bytes(g.game_name@);
    ne_u16_bytes(g.game_id) + ne_u16_bytes(g.host_id) + seq![flag_byte(g.password)] + seq![
        len_byte(name.len() as int),
    ] + name + seq![len_byte(g.clients@.len() as int)] + u16_list_bytes(g.clients@)
}

/// Several clients on the wire, one after the other.
pub open spec fn clients_bytes(cs: Seq<Client>) -> Seq<u8>
    decreases cs.len(),
{
    if cs.len() == 0 {
        seq![]
    } else {
        clients_bytes(cs.drop_last()) + client_bytes(cs.last())
    }
}

/// Several games on the wire, one after the other.
pub open spec fn games_bytes(gs: Seq<Game>) -> Seq<u8>
    decreases gs.len(),
{
    if gs.len() == 0 {
        seq![]
    } else {
        games_bytes(gs.drop_last()) + game_bytes(gs.last())
    }
}

/// The accept answer on the wire: its package byte, the client's id, the counts
/// of games and clients, then the games and the clients.
pub open spec fn response_bytes(r: LobbyConnectionAcceptResponse) -> Seq<u8> {
    seq![package_code(PackageType::LobbyConnectionAccept)] + ne_u16_bytes(r.client_id)
        + ne_u16_bytes(r.lobby.game_count) + ne_u16_bytes(r.lobby.client_count) + games_bytes(
        r.lobby.games@,
    ) + clients_bytes(r.lobby.clients@)
}

/// The kind of a lobby change.
pub open spec fn update_kind(d: LobbyUpdateData) -> LobbyUpdate {
    match d {
        LobbyUpdateData::Connect(_) => LobbyUpdate::Connect,
        LobbyUpdateData::Disconnect(_) => LobbyUpdate::Disconnect,
        LobbyUpdateData::ConnectionInterrupt(_) => LobbyUpdate::ConnectionInterrupt,
        LobbyUpdateData::Reconnect(_) => LobbyUpdate::Reconnect,
        LobbyUpdateData::Message { .. } => LobbyUpdate::Message,
    }
}

/// A lobby change on the wire: its package byte, then the client for a
/// connection, the client's id for a disconnection, an interruption or a
/// reconnection, and nothing more for a message.
pub open spec fn update_bytes(d: LobbyUpdateData) -> Seq<u8> {
    seq![package_code(PackageType::LobbyUpdate(update_kind(d)))] + match d {
        LobbyUpdateData::Connect(c) => client_bytes(c),
        LobbyUpdateData::Disconnect(id) => ne_u16_bytes(id),
        LobbyUpdateData::ConnectionInterrupt(id) => ne_u16_bytes(id),
        LobbyUpdateData::Reconnect(id) => ne_u16_bytes(id),
        LobbyUpdateData::Message { .. } => seq![],
    }
}

/// `c` is what a client header and the name bytes that follow it read as: the
/// id from the first two bytes, in game when the third is 1, active when the
/// fifth is 1 and else idle for no seconds, the name decoded lossily.
pub open spec fn client_read_as(header: Seq<u8>, name: Seq<u8>, c: Client) -> bool {
    &&& c.client_id == ne_u16_value(header[0], header[1])
    &&& c.in_game == (header[2] == 1)
    &&& c.status == (if header[4] == 1 {
        ClientStatus::Active
    } else {
        ClientStatus::Idle(0)
    })
    &&& c.name@ == lossy_decode(name)
}

/// The ids that `2 * n` bytes hold, two bytes each in native order.
pub open spec fn u16_list_of(bytes: Seq<u8>, n: nat) -> Seq<u16> {
    Seq::new(n, |i: int| ne_u16_value(bytes[2 * i], bytes[2 * i + 1]))
}

/// `g` is what a game header, the name bytes and the client bytes that follow
/// it read as: id and host from the first four bytes, a password when the fifth
/// is 1, the name decoded lossily, as many client ids as the seventh byte says.
pub open spec fn game_read_as(header: Seq<u8>, name: Seq<u8>, clients: Seq<u8>, g: Game) -> bool {
    &&& g.game_id == ne_u16_value(header[0], header[1])
    &&& g.host_id == ne_u16_value(header[2], header[3])
    &&& g.password == (header[4] == 1)
    &&& g.game_name@ == lossy_decode(name)
    &&& g.clients@ == u16_list_of(clients, header[6] as nat)
}

/// UTF-8 bytes of a string.
fn string_bytes(s: &String) -> (b: &[u8])
    ensures
        b@ == utf8_bytes(s@),
{
    s.as_str().as_bytes()
}

/// A length as one byte: the length modulo 256.
fn len_as_byte(n: usize) -> (b: u8)
    ensures
        b == len_byte(n as int),
{
    (n % 256) as u8
}

impl Client {
    /// A new, active client with id 0 that is not in a game.
    pub fn new(name: String) -> (c: Client)
        ensures
            c.client_id == 0,
            !c.in_game,
            c.status == ClientStatus::Active,
            c.name == name,
    {
        Client { client_id: 0, in_game: false, status: ClientStatus::Active, name }
    }

    /// The client as the server writes it.
    pub fn to_bytes(&self) -> (bytes: Vec<u8>)
        ensures
            bytes@ == client_bytes(*self),
    {
        let mut bytes: Vec<u8> = Vec::new();
        push_u16_ne(&mut bytes, self.client_id);
        bytes.push(if self.in_game { 1 } else { 0 });
        let name = string_bytes(&self.name);
        bytes.push(len_as_byte(name.len()));
        match self.status {
            ClientStatus::Active => bytes.push(1),
            ClientStatus::Idle(secs) => {
                bytes.push(0);
                bytes.push((secs % 256) as u8);
            },
        }
        push_all(&mut bytes, name);
        assert(bytes@ =~= client_bytes(*self));
        bytes
    }

    /// The client that a five-byte header and the name bytes after it describe.
    /// An idle client is read as idle for no seconds, and its name is read from
    /// the byte right after the header.
    pub fn from(header: [u8; 5], name: &[u8]) -> (c: Client)
        ensures
            client_read_as(header@, name@, c),
    {
        let client_id = u16_from_ne_bytes([header[0], header[1]]);
        let in_game = header[2] == 1;
        let status = if header[4] == 1 {
            ClientStatus::Active
        } else {
            ClientStatus::Idle(0)
        };
        let name = string_from_utf8_lossy(name);
        Client { client_id, in_game, status, name }
    }
}

impl Game {
    /// The game as the server writes it.
    pub fn to_bytes(&self) -> (bytes: Vec<u8>)
        ensures
            bytes@ == game_bytes(*self),
    {
        let mut bytes: Vec<u8> = Vec::new();
        push_u16_ne(&mut bytes, self.game_id);
        push_u16_ne(&mut bytes, self.host_id);
        bytes.push(if self.password { 1 } else { 0 });
        let name = string_bytes(&self.game_name);
        bytes.push(len_as_byte(name.len()));
        push_all(&mut bytes, name);
        bytes.push(len_as_byte(self.clients.len()));
        let ghost prefix = bytes@;
        let mut i: usize = 0;
        while i < self.clients.len()
            invariant
                i <= self.clients@.len(),
                bytes@ == prefix + u16_list_bytes(self.clients@.take(i as int)),
            decreases self.clients@.len() - i,
        {
            push_u16_ne(&mut bytes, self.clients[i]);
            i = i + 1;
            assert(self.clients@.take(i as int).drop_last() =~= self.clients@.take(i - 1));
        }
        assert(self.clients@.take(i as int) =~= self.clients@);
        assert(bytes@ =~= game_bytes(*self));
        bytes
    }

    /// The game that a seven-byte header, the name bytes and the client bytes
    /// after them describe; the seventh header byte is the number of clients.
    pub fn from(header: [u8; 7], name: &[u8], clients: &[u8]) -> (g: Game)
        requires
            clients@.len() == 2 * header@[6],
        ensures
            game_read_as(header@, name@, clients@, g),
    {
        let game_id = u16_from_ne_bytes([header[0], header[1]]);
        let host_id = u16_from_ne_bytes([header[2], header[3]]);
        let game_name = string_from_utf8_lossy(name);
        let mut ids: Vec<u16> = Vec::new();
        let count = header[6];
        let mut i: u8 = 0;
        while i < count
            invariant
                i <= count,
                count == header@[6],
                clients@.len() == 2 * count,
                ids@ == u16_list_of(clients@, i as nat),
            decreases count - i,
        {
            let k: usize = 2 * (i as usize);
            ids.push(u16_from_ne_bytes([clients[k], clients[k + 1]]));
            i = i + 1;
            assert(ids@ =~= u16_list_of(clients@, i as nat));
        }
        Game {
            game_id,
            host_id,
            password: header[4] == 1,
            game_name,
            clients: ids,
        }
    }
}

/// No two clients share an id.
pub open spec fn unique_client_ids(cs: Seq<Client>) -> bool {
    forall|i: int, j: int| 0 <= i < cs.len() && 0 <= j < cs.len() && i != j ==> cs[i].client_id != cs[j].client_id
}

/// No two games share an id.
pub open spec fn unique_game_ids(gs: Seq<Game>) -> bool {
    forall|i: int, j: int| 0 <= i < gs.len() && 0 <= j < gs.len() && i != j ==> gs[i].game_id != gs[j].game_id
}

impl Lobby {
    /// No two clients share an id, nor two games: the lobby holds each client
    /// and each game under its id.
    pub open spec fn well_formed(&self) -> bool {
        &&& unique_client_ids(self.clients@)
        &&& unique_game_ids(self.games@)
    }
}

impl LobbyConnectionAcceptResponse {
    /// The answer as the server writes it.
    pub fn to_bytes(&self) -> (bytes: Vec<u8>)
        ensures
            bytes@ == response_bytes(*self),
    {
        let mut bytes: Vec<u8> = Vec::new();
        bytes.push(PackageType::LobbyConnectionAccept.to_byte());
        push_u16_ne(&mut bytes, self.client_id);
        push_u16_ne(&mut bytes, self.lobby.game_count);
        push_u16_ne(&mut bytes, self.lobby.client_count);
        let ghost head = bytes@;
        let mut i: usize = 0;
        while i < self.lobby.games.len()
            invariant
                i <= self.lobby.games@.len(),
                bytes@ == head + games_bytes(self.lobby.games@.take(i as int)),
            decreases self.lobby.games@.len() - i,
        {
            let g = self.lobby.games[i].to_bytes();
            push_all(&mut bytes, g.as_slice());
            i = i + 1;
            assert(self.lobby.games@.take(i as int).drop_last() =~= self.lobby.games@.take(i - 1));
        }
        assert(self.lobby.games@.take(i as int) =~= self.lobby.games@);
        let ghost mid = bytes@;
        let mut j: usize = 0;
        while j < self.lobby.clients.len()
            invariant
                j <= self.lobby.clients@.len(),
                bytes@ == mid + clients_bytes(self.lobby.clients@.take(j as int)),
            decreases self.lobby.clients@.len() - j,
        {
            let c = self.lobby.clients[j].to_bytes();
            push_all(&mut bytes, c.as_slice());
            j = j + 1;
            assert(self.lobby.clients@.take(j as int).drop_last() =~= self.lobby.clients@.take(
                j - 1,
            ));
        }
        assert(self.lobby.clients@.take(j as int) =~= self.lobby.clients@);
        assert(bytes@ =~= response_bytes(*self));
        bytes
    }

    /// The answer that the six bytes after the package byte describe: the
    /// client's id, the number of games, the number of clients, and a lobby with
    /// neither clients nor games yet.
    pub fn from(bytes: &[u8]) -> (r: LobbyConnectionAcceptResponse)
        requires
            bytes@.len() >= 6,
        ensures
            r.client_id == ne_u16_value(bytes@[0], bytes@[1]),
            r.lobby.game_count == ne_u16_value(bytes@[2], bytes@[3]),
            r.lobby.client_count == ne_u16_value(bytes@[4], bytes@[5]),
            r.lobby.clients@.len() == 0,
            r.lobby.games@.len() == 0,
    {
        let client_id = u16_from_ne_bytes([bytes[0], bytes[1]]);
        let game_count = u16_from_ne_bytes([bytes[2], bytes[3]]);
        let client_count = u16_from_ne_bytes([bytes[4], bytes[5]]);
        LobbyConnectionAcceptResponse {
            client_id,
            lobby: Lobby { game_count, client_count, games: Vec::new(), clients: Vec::new() },
        }
    }
}

impl LobbyUpdate {
    /// The kind of a lobby change.
    pub fn from(value: &LobbyUpdateData) -> (u: LobbyUpdate)
        ensures
            u == update_kind(*value),
    {
        match value {
            LobbyUpdateData::Connect(_) => LobbyUpdate::Connect,
            LobbyUpdateData::Disconnect(_) => LobbyUpdate::Disconnect,
            LobbyUpdateData::ConnectionInterrupt(_) => LobbyUpdate::ConnectionInterrupt,
            LobbyUpdateData::Reconnect(_) => LobbyUpdate::Reconnect,
            LobbyUpdateData::Message { .. } => LobbyUpdate::Message,
        }
    }
}

impl LobbyUpdateData {
    /// The change as the server writes it to each client.
    pub fn to_bytes(&self) -> (bytes: Vec<u8>)
        ensures
            bytes@ == update_bytes(*self),
    {
        let mut bytes: Vec<u8> = Vec::new();
        bytes.push(PackageType::LobbyUpdate(LobbyUpdate::from(self)).to_byte());
        match self {
            LobbyUpdateData::Connect(client) => {
                let c = client.to_bytes();
                push_all(&mut bytes, c.as_slice());
            },
            LobbyUpdateData::Disconnect(client_id) => push_u16_ne(&mut bytes, *client_id),
            LobbyUpdateData::ConnectionInterrupt(client_id) => push_u16_ne(&mut bytes, *client_id),
            LobbyUpdateData::Reconnect(client_id) => push_u16_ne(&mut bytes, *client_id),
            _ => {},
        }
        assert(bytes@ =~= update_bytes(*self));
        bytes
    }
}

/// The UTF-8 encoding of a text made only of NUL characters is as many zero bytes.
proof fn lemma_nul_text_bytes(s: Seq<char>)
    requires
        forall|i: int| 0 <= i < s.len() ==> s[i] == '\0',
    ensures
        utf8_bytes(s) =~= Seq::new(s.len(), |i: int| 0u8),
    decreases s.len(),
{
    if s.len() > 0 {
        lemma_nul_text_bytes(s.drop_first());
        let z: u32 = s[0] as u32;
        assert(z == 0);
        assert(z & 0x7F == 0u32) by (bit_vector)
            requires
                z == 0,
        ;
    }
}

/// Reading a client back from the bytes the server writes for it gives the
/// same client, for every client whose name takes at most 255 bytes and that
/// is active, or idle for no seconds with a name of NUL characters only. (Any
/// other idle client is read as idle for no seconds, from the byte after the
/// header, so its name shifts by one byte.)
pub proof fn lemma_client_roundtrip(c: Client)
    requires
        utf8_bytes(c.name@).len() <= 255,
        c.status == ClientStatus::Active || (c.status == ClientStatus::Idle(0) && forall|i: int|
            0 <= i < c.name@.len() ==> c.name@[i] == '\0'),
    ensures
        ({
            let b = client_bytes(c);
            &&& 5 + b[3] <= b.len()
            &&& client_read_as(b.take(5), b.subrange(5, 5 + b[3]), c)
        }),
{
    let b = client_bytes(c);
    let name = utf8_bytes(c.name@);
    crate::bytes::lemma_ne_u16_roundtrip(c.client_id);
    crate::text::lemma_lossy_decode_encode(c.name@);
    if c.status == ClientStatus::Active {
        assert(b.subrange(5, 5 + b[3]) =~= name);
    } else {
        lemma_nul_text_bytes(c.name@);
        assert(b.subrange(5, 5 + b[3]) =~= name);
    }
}

/// The bytes of a list of ids hold, two by two, the native-order bytes of each id.
proof fn lemma_u16_list_bytes(ids: Seq<u16>)
    ensures
        u16_list_bytes(ids).len() == 2 * ids.len(),
        forall|i: int|
            0 <= i < ids.len() ==> #[trigger] u16_list_bytes(ids)[2 * i] == ne_u16_bytes(ids[i])[0]
                && u16_list_bytes(ids)[2 * i + 1] == ne_u16_bytes(ids[i])[1],
    decreases ids.len(),
{
    if ids.len() > 0 {
        let front = ids.drop_last();
        lemma_u16_list_bytes(front);
        crate::bytes::lemma_ne_u16_roundtrip(ids.last());
        let b = u16_list_bytes(ids);
        assert(b == u16_list_bytes(front) + ne_u16_bytes(ids.last()));
        assert forall|i: int| 0 <= i < ids.len() implies #[trigger] b[2 * i] == ne_u16_bytes(
            ids[i],
        )[0] && b[2 * i + 1] == ne_u16_bytes(ids[i])[1] by {
            if i < front.len() {
                assert(front[i] == ids[i]);
                assert(u16_list_bytes(front)[2 * i] == ne_u16_bytes(front[i])[0]);
            } else {
                assert(i == front.len());
            }
        }
    }
}

/// Reading the ids back from the bytes of a list of ids gives the list.
proof fn lemma_u16_list_roundtrip(ids: Seq<u16>)
    ensures
        u16_list_of(u16_list_bytes(ids), ids.len()) =~= ids,
{
    lemma_u16_list_bytes(ids);
    assert forall|i: int| 0 <= i < ids.len() implies u16_list_of(
        u16_list_bytes(ids),
        ids.len(),
    )[i] == ids[i] by {
        crate::bytes::lemma_ne_u16_roundtrip(ids[i]);
        assert(u16_list_bytes(ids)[2 * i] == ne_u16_bytes(ids[i])[0]);
    }
}

/// Reading a game back from the bytes the server writes for it gives the same
/// game, for every game with at most 255 clients, a name of at most 255 bytes,
/// and a name whose every byte equals the number of clients (an empty name, in
/// particular). The reader takes the byte after the length of the name for the
/// number of clients, so any other name is read shifted.
pub proof fn lemma_game_roundtrip(g: Game)
    requires
        utf8_bytes(g.game_name@).len() <= 255,
        g.clients@.len() <= 255,
        forall|i: int|
            0 <= i < utf8_bytes(g.game_name@).len() ==> utf8_bytes(g.game_name@)[i]
                == g.clients@.len(),
    ensures
        ({
            let b = game_bytes(g);
            let h = b.take(7);
            &&& 7 <= b.len()
            &&& 7 + h[5] + 2 * h[6] <= b.len()
            &&& game_read_as(
                h,
                b.subrange(7, 7 + h[5]),
                b.subrange(7 + h[5], 7 + h[5] + 2 * h[6]),
                g,
            )
        }),
{
    let b = game_bytes(g);
    let name = utf8_bytes(g.game_name@);
    let n = g.clients@.len();
    let l = name.len();
    crate::bytes::lemma_ne_u16_roundtrip(g.game_id);
    crate::bytes::lemma_ne_u16_roundtrip(g.host_id);
    crate::text::lemma_lossy_decode_encode(g.game_name@);
    lemma_u16_list_bytes(g.clients@);
    lemma_u16_list_roundtrip(g.clients@);
    let h = b.take(7);
    assert(h[5] == l);
    assert(h[6] == n);
    assert(b.subrange(7, 7 + h[5]) =~= name);
    assert(b.subrange(7 + h[5], 7 + h[5] + 2 * h[6]) =~= u16_list_bytes(g.clients@));
}

/// The accept answer starts with the byte that announces an accepted
/// connection, and its next six bytes read as the client's id and the counts
/// of games and clients.
pub proof fn lemma_response_header(r: LobbyConnectionAcceptResponse)
    ensures
        ({
            let b = response_bytes(r);
            &&& 7 <= b.len()
            &&& crate::package::package_of_code(b[0]) == PackageType::LobbyConnectionAccept
            &&& ne_u16_value(b[1], b[2]) == r.client_id
            &&& ne_u16_value(b[3], b[4]) == r.lobby.game_count
            &&& ne_u16_value(b[5], b[6]) == r.lobby.client_count
        }),
{
    crate::bytes::lemma_ne_u16_roundtrip(r.client_id);
    crate::bytes::lemma_ne_u16_roundtrip(r.lobby.game_count);
    crate::bytes::lemma_ne_u16_roundtrip(r.lobby.client_count);
}

/// The first byte of a lobby change announces its kind, and a change about
/// one client carries that client's id in the next two bytes.
pub proof fn lemma_update_header(d: LobbyUpdateData)
    ensures
        ({
            let b = update_bytes(d);
            &&& 1 <= b.len()
            &&& crate::package::package_of_code(b[0]) == PackageType::LobbyUpdate(update_kind(d))
            &&& match d {
                LobbyUpdateData::Disconnect(id) => 3 <= b.len() && ne_u16_value(b[1], b[2]) == id,
                LobbyUpdateData::ConnectionInterrupt(id) => 3 <= b.len() && ne_u16_value(b[1], b[2]) == id,
                LobbyUpdateData::Reconnect(id) => 3 <= b.len() && ne_u16_value(b[1], b[2]) == id,
                LobbyUpdateData::Connect(c) => 3 <= b.len() && ne_u16_value(b[1], b[2]) == c.client_id,
                LobbyUpdateData::Message { .. } => b.len() == 1,
            }
        }),
{
    match d {
        LobbyUpdateData::Disconnect(id) => crate::bytes::lemma_ne_u16_roundtrip(id),
        LobbyUpdateData::ConnectionInterrupt(id) => crate::bytes::lemma_ne_u16_roundtrip(id),
        LobbyUpdateData::Reconnect(id) => crate::bytes::lemma_ne_u16_roundtrip(id),
        LobbyUpdateData::Connect(c) => crate::bytes::lemma_ne_u16_roundtrip(c.client_id),
        LobbyUpdateData::Message { .. } => {},
    }
}

} // verus!

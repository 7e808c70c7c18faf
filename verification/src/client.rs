//! What a client sends and receives, and how it opens a connection to the lobby.
use vstd::prelude::*;

use crate::bytes::ne_u16_value;
use crate::lobby::{len_byte, Game, LobbyConnectionAcceptResponse, LobbyUpdateData};
use crate::package::{package_code, package_of_code, PackageType};
use crate::text::utf8_bytes;

verus! {

/// A request that the client sends over its connection.
#[derive(Debug, Clone, PartialEq, Eq)]
pub enum TcpPackage {
    Disconnect,
    Message(String),
    GameCreation { name: String, with_password: bool },
    GameDeletion,
    GameEntry(u16),
    GameExit,
}

/// A change of the games in the lobby.
#[derive(Debug, Clone, PartialEq, Eq)]
pub enum GameUpdateData {
    Creation(Game),
    Deletion(u16),
    Entry { client_id: u16, game_id: u16 },
    Exit(u16),
}

/// An update that the client receives over its connection.
#[derive(Debug, Clone, PartialEq, Eq)]
pub enum TcpUpdate {
    LobbyUpdate(LobbyUpdateData),
    GameUpdate(GameUpdateData),
}

/// Why a connection to the lobby failed.
#[derive(Debug, Clone, Copy, PartialEq, Eq, Structural)]
pub enum LobbyConnectionErrorReason {
    ConnectionDenied,
    InvalidResponse,
    NetworkError,
    Timeout,
}

/// A failed connection to the lobby.
#[derive(Debug, Clone, Copy, PartialEq, Eq, Structural)]
pub struct LobbyConnectionError(pub LobbyConnectionErrorReason);

impl LobbyConnectionError {
    /// The text shown to the player for this failure.
    pub fn message(&self) -> (m: &'static str)
        ensures
            self.0 == LobbyConnectionErrorReason::ConnectionDenied ==> m@
                == "Connection refused! Can't connect to lobby."@,
            self.0 == LobbyConnectionErrorReason::InvalidResponse ==> m@
                == "Got an invalid response from server."@,
            self.0 == LobbyConnectionErrorReason::NetworkError ==> m@
                == "Server unreachable. Check your internet connection."@,
            self.0 == LobbyConnectionErrorReason::Timeout ==> m@
                == "Timeout reached, took too long to connect to lobby."@,
    {
        match self.0 {
            LobbyConnectionErrorReason::ConnectionDenied => "Connection refused! Can't connect to lobby.",
            LobbyConnectionErrorReason::InvalidResponse => "Got an invalid response from server.",
            LobbyConnectionErrorReason::NetworkError => "Server unreachable. Check your internet connection.",
            LobbyConnectionErrorReason::Timeout => "Timeout reached, took too long to connect to lobby.",
        }
    }
}

/// The request to join the lobby: its package byte, the length of the name
/// modulo 256, and the name.
pub open spec fn connect_package_bytes(name: Seq<char>) -> Seq<u8> {
    seq![package_code(PackageType::LobbyConnect)] + seq![len_byte(utf8_bytes(name).len() as int)]
        + utf8_bytes(name)
}

/// The request a client sends to join the lobby under `sender_name`.
pub fn lobby_connect_package(sender_name: &String) -> (package: Vec<u8>)
    ensures
        package@ == connect_package_bytes(sender_name@),
{
    let mut package: Vec<u8> = Vec::new();
    package.push(PackageType::LobbyConnect.to_byte());
    let name = sender_name.as_str().as_bytes();
    package.push((name.len() % 256) as u8);
    crate::bytes::push_all(&mut package, name);
    assert(package@ =~= connect_package_bytes(sender_name@));
    package
}

/// What the first seven bytes of the server's answer to a join request mean:
/// an accepted connection, whose next six bytes hold the client's id and the
/// counts of games and clients; a denied connection; or an answer that is
/// neither.
pub fn accept_response(buf: [u8; 7]) -> (r: Result<LobbyConnectionAcceptResponse, LobbyConnectionError>)
    ensures
        package_of_code(buf@[0]) == PackageType::LobbyConnectionAccept <==> r is Ok,
        package_of_code(buf@[0]) == PackageType::LobbyConnectionDeny <==> r == Err::<
            LobbyConnectionAcceptResponse,
            LobbyConnectionError,
        >(LobbyConnectionError(LobbyConnectionErrorReason::ConnectionDenied)),
        (package_of_code(buf@[0]) != PackageType::LobbyConnectionAccept && package_of_code(buf@[0])
            != PackageType::LobbyConnectionDeny) <==> r == Err::<
            LobbyConnectionAcceptResponse,
            LobbyConnectionError,
        >(LobbyConnectionError(LobbyConnectionErrorReason::InvalidResponse)),
        r matches Ok(resp) ==> {
            &&& resp.client_id == ne_u16_value(buf@[1], buf@[2])
            &&& resp.lobby.game_count == ne_u16_value(buf@[3], buf@[4])
            &&& resp.lobby.client_count == ne_u16_value(buf@[5], buf@[6])
            &&& resp.lobby.clients@.len() == 0
            &&& resp.lobby.games@.len() == 0
        },
{
    match PackageType::from(buf[0]) {
        PackageType::LobbyConnectionAccept => {},
        PackageType::LobbyConnectionDeny => {
            return Err(LobbyConnectionError(LobbyConnectionErrorReason::ConnectionDenied));
        },
        _ => {
            return Err(LobbyConnectionError(LobbyConnectionErrorReason::InvalidResponse));
        },
    }
    let rest = [buf[1], buf[2], buf[3], buf[4], buf[5], buf[6]];
    Ok(LobbyConnectionAcceptResponse::from(&rest))
}

/// Leaving a game for the lobby: the host closes the game, anyone else leaves
/// it; the player is then in no game.
pub fn return_to_lobby(own_game: &mut Option<u16>, hosting: bool) -> (request: TcpPackage)
    ensures
        request == (if hosting {
            TcpPackage::GameDeletion
        } else {
            TcpPackage::GameExit
        }),
        *final(own_game) == None::<u16>,
{
    *own_game = None;
    if hosting {
        TcpPackage::GameDeletion
    } else {
        TcpPackage::GameExit
    }
}

} // verus!

use yggdrasil::client::{accept_response, lobby_connect_package, return_to_lobby, TcpPackage, LobbyConnectionError, LobbyConnectionErrorReason};
use yggdrasil::lobby::{Client, ClientStatus, Game, Lobby, LobbyConnectionAcceptResponse, LobbyUpdateData};
use yggdrasil::package::{LobbyUpdate, PackageType};

fn ne(x: u16) -> [u8; 2] {
    x.to_ne_bytes()
}

#[test]
fn it_works() {
    assert!(true);
}

#[test]
fn package_codes_round_trip() {
    let kinds = [
        PackageType::LobbyConnect,
        PackageType::LobbyDisconnect,
        PackageType::LobbyConnectionAccept,
        PackageType::LobbyConnectionDeny,
        PackageType::LobbyUpdate(LobbyUpdate::Connect),
        PackageType::LobbyUpdate(LobbyUpdate::Disconnect),
        PackageType::LobbyUpdate(LobbyUpdate::ConnectionInterrupt),
        PackageType::LobbyUpdate(LobbyUpdate::Reconnect),
        PackageType::LobbyUpdate(LobbyUpdate::Message),
        PackageType::InvalidPackage,
    ];
    let codes = [0u8, 1, 2, 3, 4, 5, 6, 7, 8, 255];
    for (k, c) in kinds.iter().zip(codes.iter()) {
        assert_eq!(k.to_byte(), *c);
        assert_eq!(PackageType::from(*c), *k);
    }
}

#[test]
fn unknown_bytes_are_invalid_packages() {
    for b in 9u8..255 {
        assert_eq!(PackageType::from(b), PackageType::InvalidPackage);
    }
}

#[test]
fn new_client_is_active_with_id_zero() {
    let c = Client::new("stk0".to_string());
    assert_eq!(c.client_id, 0);
    assert!(!c.in_game);
    assert_eq!(c.status, ClientStatus::Active);
    assert_eq!(c.name, "stk0");
}

#[test]
fn client_bytes_layout() {
    let c = Client { client_id: 513, in_game: true, status: ClientStatus::Active, name: "ab".to_string() };
    let b = c.to_bytes();
    let id = ne(513);
    assert_eq!(b, vec![id[0], id[1], 1, 2, 1, b'a', b'b']);
    let idle = Client { client_id: 7, in_game: false, status: ClientStatus::Idle(300), name: "é".to_string() };
    let b = idle.to_bytes();
    let id = ne(7);
    assert_eq!(b, vec![id[0], id[1], 0, 2, 0, 44, 0xc3, 0xa9]);
}

#[test]
fn active_client_round_trip() {
    let c = Client { client_id: 4242, in_game: true, status: ClientStatus::Active, name: "Jön".to_string() };
    let b = c.to_bytes();
    let header = [b[0], b[1], b[2], b[3], b[4]];
    let name_len = b[3] as usize;
    let back = Client::from(header, &b[5..5 + name_len]);
    assert_eq!(back, c);
}

#[test]
fn idle_client_is_read_shifted() {
    let c = Client { client_id: 9, in_game: false, status: ClientStatus::Idle(5), name: "ab".to_string() };
    let b = c.to_bytes();
    let header = [b[0], b[1], b[2], b[3], b[4]];
    let back = Client::from(header, &b[5..5 + b[3] as usize]);
    assert_eq!(back.client_id, 9);
    assert_eq!(back.status, ClientStatus::Idle(0));
    assert_eq!(back.name, "\u{5}a");
}

#[test]
fn lossy_names_replace_invalid_bytes() {
    let id = ne(1);
    let back = Client::from([id[0], id[1], 0, 1, 1], &[0xff]);
    assert_eq!(back.name, "\u{fffd}");
}

#[test]
fn game_bytes_layout() {
    let g = Game { game_id: 3, host_id: 4, password: true, game_name: "g".to_string(), clients: vec![4, 9] };
    let b = g.to_bytes();
    let (a, h, c4, c9) = (ne(3), ne(4), ne(4), ne(9));
    assert_eq!(b, vec![a[0], a[1], h[0], h[1], 1, 1, b'g', 2, c4[0], c4[1], c9[0], c9[1]]);
}

#[test]
fn game_without_name_round_trip() {
    let g = Game { game_id: 300, host_id: 2, password: false, game_name: String::new(), clients: vec![2, 77, 65535] };
    let b = g.to_bytes();
    let header = [b[0], b[1], b[2], b[3], b[4], b[5], b[6]];
    let nl = b[5] as usize;
    let n = b[6] as usize;
    let back = Game::from(header, &b[7..7 + nl], &b[7 + nl..7 + nl + 2 * n]);
    assert_eq!(back, g);
}

#[test]
fn game_with_name_is_read_shifted() {
    let g = Game { game_id: 1, host_id: 2, password: false, game_name: "ab".to_string(), clients: vec![] };
    let b = g.to_bytes();
    let header = [b[0], b[1], b[2], b[3], b[4], b[5], b[6]];
    assert_eq!(header[6], b'a');
    let nl = b[5] as usize;
    let n = b[6] as usize;
    let clients: Vec<u8> = vec![0; 2 * n];
    let back = Game::from(header, &b[7..7 + nl], &clients);
    assert_eq!(back.game_name, "b\u{0}");
    assert_eq!(back.clients.len(), 97);
}

#[test]
fn response_header_round_trip() {
    let r = LobbyConnectionAcceptResponse {
        client_id: 12,
        lobby: Lobby {
            client_count: 1,
            game_count: 0,
            clients: vec![Client::new("x".to_string())],
            games: vec![],
        },
    };
    let b = r.to_bytes();
    assert_eq!(b[0], 2);
    let back = LobbyConnectionAcceptResponse::from(&b[1..]);
    assert_eq!(back.client_id, 12);
    assert_eq!(back.lobby.client_count, 1);
    assert_eq!(back.lobby.game_count, 0);
    assert!(back.lobby.clients.is_empty());
    let mut expected = vec![2u8];
    expected.extend_from_slice(&ne(12));
    expected.extend_from_slice(&ne(0));
    expected.extend_from_slice(&ne(1));
    expected.extend_from_slice(&Client::new("x".to_string()).to_bytes());
    assert_eq!(b, expected);
}

#[test]
fn accept_deny_and_invalid_answers() {
    let id = ne(5);
    let gc = ne(2);
    let cc = ne(3);
    let ok = accept_response([2, id[0], id[1], gc[0], gc[1], cc[0], cc[1]]).unwrap();
    assert_eq!(ok.client_id, 5);
    assert_eq!(ok.lobby.game_count, 2);
    assert_eq!(ok.lobby.client_count, 3);
    assert_eq!(
        accept_response([3, 0, 0, 0, 0, 0, 0]),
        Err(LobbyConnectionError(LobbyConnectionErrorReason::ConnectionDenied))
    );
    assert_eq!(
        accept_response([4, 0, 0, 0, 0, 0, 0]),
        Err(LobbyConnectionError(LobbyConnectionErrorReason::InvalidResponse))
    );
    assert_eq!(
        accept_response([200, 0, 0, 0, 0, 0, 0]),
        Err(LobbyConnectionError(LobbyConnectionErrorReason::InvalidResponse))
    );
}

#[test]
fn connect_package_layout() {
    assert_eq!(lobby_connect_package(&"stk0".to_string()), vec![0, 4, b's', b't', b'k', b'0']);
    let long: String = std::iter::repeat('x').take(300).collect();
    let p = lobby_connect_package(&long);
    assert_eq!(p[1], 44);
    assert_eq!(p.len(), 302);
}

#[test]
fn error_messages() {
    assert_eq!(
        LobbyConnectionError(LobbyConnectionErrorReason::ConnectionDenied).message(),
        "Connection refused! Can't connect to lobby."
    );
    assert_eq!(
        LobbyConnectionError(LobbyConnectionErrorReason::InvalidResponse).message(),
        "Got an invalid response from server."
    );
    assert_eq!(
        LobbyConnectionError(LobbyConnectionErrorReason::NetworkError).message(),
        "Server unreachable. Check your internet connection."
    );
    assert_eq!(
        LobbyConnectionError(LobbyConnectionErrorReason::Timeout).message(),
        "Timeout reached, took too long to connect to lobby."
    );
}

#[test]
fn update_bytes_announce_their_kind() {
    let id = ne(17);
    assert_eq!(LobbyUpdateData::Disconnect(17).to_bytes(), vec![5, id[0], id[1]]);
    assert_eq!(LobbyUpdateData::ConnectionInterrupt(17).to_bytes(), vec![6, id[0], id[1]]);
    assert_eq!(LobbyUpdateData::Reconnect(17).to_bytes(), vec![7, id[0], id[1]]);
    let msg = LobbyUpdateData::Message { sender: 1, length: 2, content: "hi".to_string() };
    assert_eq!(msg.to_bytes(), vec![8]);
    assert_eq!(LobbyUpdate::from(&msg), LobbyUpdate::Message);
    let c = Client::new("a".to_string());
    let mut expected = vec![4u8];
    expected.extend_from_slice(&c.to_bytes());
    assert_eq!(LobbyUpdateData::Connect(c.clone()).to_bytes(), expected);
    assert_eq!(LobbyUpdate::from(&LobbyUpdateData::Connect(c)), LobbyUpdate::Connect);
}

#[test]
fn leaving_a_game() {
    let mut g = Some(3);
    assert_eq!(return_to_lobby(&mut g, true), TcpPackage::GameDeletion);
    assert_eq!(g, None);
    let mut g = Some(4);
    assert_eq!(return_to_lobby(&mut g, false), TcpPackage::GameExit);
    assert_eq!(g, None);
}

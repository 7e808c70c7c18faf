use yggdrasil::client::{GameUpdateData, TcpUpdate};
use yggdrasil::lobby::{Client, ClientStatus, Game, Lobby, LobbyUpdateData};
use yggdrasil::client::accept_response;
use yggdrasil::lobby_events::{
    apply_lobby_updates, build_lobby_details, get_lobby_events, join_lobby, LobbyAction, LobbyActionKind, LobbyEvents,
};
use yggdrasil::server::{accept_response_for, chat_request_text, classify_request, handshake_step, join_request_name, update_for_event, ClientRequest, EventBroadcast, HandshakeStep, PeerAddr};

fn client(id: u16, name: &str) -> Client {
    Client { client_id: id, in_game: false, status: ClientStatus::Active, name: name.to_string() }
}

fn peer(n: u128) -> PeerAddr {
    PeerAddr { is_v6: false, bits: n }
}

fn lobby() -> Lobby {
    Lobby {
        client_count: 2,
        game_count: 1,
        clients: vec![client(1, "me"), client(2, "bob")],
        games: vec![Game { game_id: 10, host_id: 2, password: false, game_name: "arena".to_string(), clients: vec![2] }],
    }
}

fn act(kind: LobbyActionKind, id: u16, text: &str) -> LobbyAction {
    LobbyAction { kind, id, text: text.to_string() }
}

fn msgs(e: &LobbyEvents) -> Vec<&str> {
    e.messages.iter().map(|m| m.as_str()).collect()
}

#[test]
fn connection_is_added_and_shown() {
    let mut l = lobby();
    let mut own = None;
    let e = get_lobby_events(&mut l, 1, &mut own, TcpUpdate::LobbyUpdate(LobbyUpdateData::Connect(client(345, "eve"))), true, false);
    assert_eq!(msgs(&e), vec!["[INFO] eve joined the lobby as #345"]);
    assert_eq!(e.actions, vec![act(LobbyActionKind::ShowClient, 345, "eve (#345)")]);
    assert_eq!(l.clients.len(), 3);
    let e = get_lobby_events(&mut l, 1, &mut own, TcpUpdate::LobbyUpdate(LobbyUpdateData::Connect(client(2, "bobby"))), false, false);
    assert!(e.actions.is_empty());
    assert_eq!(l.clients.len(), 3);
    assert_eq!(l.clients[1].name, "bobby");
}

#[test]
fn disconnect_interrupt_and_reconnect() {
    let mut l = lobby();
    let mut own = None;
    let e = get_lobby_events(&mut l, 1, &mut own, TcpUpdate::LobbyUpdate(LobbyUpdateData::ConnectionInterrupt(2)), true, false);
    assert_eq!(msgs(&e), vec!["[INFO] connection to bob was interrupted"]);
    assert_eq!(e.actions, vec![act(LobbyActionKind::DimClient, 2, "")]);
    assert_eq!(l.clients[1].status, ClientStatus::Idle(0));
    let e = get_lobby_events(&mut l, 1, &mut own, TcpUpdate::LobbyUpdate(LobbyUpdateData::Reconnect(2)), true, false);
    assert_eq!(msgs(&e), vec!["[INFO] bob reconnected to the lobby"]);
    assert_eq!(l.clients[1].status, ClientStatus::Active);
    let e = get_lobby_events(&mut l, 1, &mut own, TcpUpdate::LobbyUpdate(LobbyUpdateData::Reconnect(99)), true, false);
    assert!(e.messages.is_empty() && e.actions.is_empty());
    let e = get_lobby_events(&mut l, 1, &mut own, TcpUpdate::LobbyUpdate(LobbyUpdateData::Disconnect(2)), true, false);
    assert_eq!(msgs(&e), vec!["[INFO] bob disconnected from the lobby"]);
    assert_eq!(e.actions, vec![act(LobbyActionKind::HideClient, 2, "")]);
    assert_eq!(l.clients.len(), 1);
}

#[test]
fn chat_lines_of_others_only() {
    let mut l = lobby();
    let mut own = None;
    let m = LobbyUpdateData::Message { sender: 2, length: 2, content: "hi".to_string() };
    let e = get_lobby_events(&mut l, 1, &mut own, TcpUpdate::LobbyUpdate(m), true, false);
    assert_eq!(msgs(&e), vec!["bob: hi"]);
    let m = LobbyUpdateData::Message { sender: 1, length: 2, content: "hi".to_string() };
    let e = get_lobby_events(&mut l, 1, &mut own, TcpUpdate::LobbyUpdate(m), true, false);
    assert!(e.messages.is_empty());
}

#[test]
fn hosting_and_closing_games() {
    let mut l = lobby();
    let mut own = None;
    let g = Game { game_id: 11, host_id: 1, password: false, game_name: "duel".to_string(), clients: vec![1] };
    let e = get_lobby_events(&mut l, 1, &mut own, TcpUpdate::GameUpdate(GameUpdateData::Creation(g)), true, true);
    assert_eq!(msgs(&e), vec!["[INFO] me hosted game duel (#11)"]);
    assert_eq!(e.actions, vec![act(LobbyActionKind::ShowGame, 11, "duel (#11)")]);
    assert_eq!(own, Some(11));
    assert_eq!(l.games.len(), 2);
    let e = get_lobby_events(&mut l, 1, &mut own, TcpUpdate::GameUpdate(GameUpdateData::Entry { client_id: 2, game_id: 11 }), false, true);
    assert_eq!(msgs(&e), vec!["[INFO] client#2 joined game duel (#11)"]);
    assert_eq!(e.actions, vec![act(LobbyActionKind::SpawnPlayer, 2, "bob"), act(LobbyActionKind::ShareWorld, 11, "")]);
    assert_eq!(l.games[1].clients, vec![1, 2]);
    let e = get_lobby_events(&mut l, 1, &mut own, TcpUpdate::GameUpdate(GameUpdateData::Exit(2)), false, true);
    assert_eq!(msgs(&e), vec!["[INFO] client#2 left game arena (#10)"]);
    assert!(e.actions.is_empty());
    assert!(l.games[0].clients.is_empty());
    let e = get_lobby_events(&mut l, 1, &mut own, TcpUpdate::GameUpdate(GameUpdateData::Exit(2)), false, true);
    assert_eq!(msgs(&e), vec!["[INFO] client#2 left game duel (#11)"]);
    assert_eq!(e.actions, vec![act(LobbyActionKind::DespawnPlayer, 2, "")]);
    let e = get_lobby_events(&mut l, 1, &mut own, TcpUpdate::GameUpdate(GameUpdateData::Deletion(11)), false, false);
    assert_eq!(msgs(&e), vec!["[INFO] game duel (#11) was deleted", "[INFO] Host closed your game!"]);
    assert_eq!(e.actions, vec![act(LobbyActionKind::ReturnToLobby, 11, "")]);
    assert_eq!(l.games.len(), 1);
    let e = get_lobby_events(&mut l, 1, &mut own, TcpUpdate::GameUpdate(GameUpdateData::Deletion(10)), true, false);
    assert_eq!(msgs(&e), vec!["[INFO] game arena (#10) was deleted"]);
    assert_eq!(e.actions, vec![act(LobbyActionKind::HideGame, 10, "")]);
}

#[test]
fn entry_into_unknown_game_changes_nothing() {
    let mut l = lobby();
    let mut own = Some(10);
    let e = get_lobby_events(&mut l, 1, &mut own, TcpUpdate::GameUpdate(GameUpdateData::Entry { client_id: 2, game_id: 99 }), false, false);
    assert!(e.messages.is_empty() && e.actions.is_empty());
    assert_eq!(l, lobby());
}

#[test]
fn lobby_details_list() {
    let mut l = lobby();
    l.clients[1].status = ClientStatus::Idle(3);
    let a = build_lobby_details(&l);
    assert_eq!(
        a,
        vec![
            act(LobbyActionKind::ShowClient, 1, "me (#1)"),
            act(LobbyActionKind::ShowClient, 2, "bob (#2)"),
            act(LobbyActionKind::DimClient, 2, ""),
            act(LobbyActionKind::ShowGame, 10, "arena (#10)"),
        ]
    );
}

#[test]
fn server_handshake() {
    let c = client(7, "x");
    assert_eq!(handshake_step(&EventBroadcast::Connected { addr: peer(1), client: c.clone() }, &peer(1)), HandshakeStep::Accept(7));
    assert_eq!(handshake_step(&EventBroadcast::Connected { addr: peer(2), client: c.clone() }, &peer(1)), HandshakeStep::Wait);
    assert_eq!(handshake_step(&EventBroadcast::Reconnected { addr: peer(1), client: c.clone() }, &peer(1)), HandshakeStep::Accept(7));
    assert_eq!(handshake_step(&EventBroadcast::Multiconnect(peer(1)), &peer(1)), HandshakeStep::Deny);
    assert_eq!(handshake_step(&EventBroadcast::Disconnected(7), &peer(1)), HandshakeStep::Wait);
}

#[test]
fn server_requests_and_updates() {
    assert_eq!(classify_request(0, 1), ClientRequest::ConnectionLost);
    assert_eq!(classify_request(1, 1), ClientRequest::Disconnect);
    assert_eq!(classify_request(1, 8), ClientRequest::Message);
    assert_eq!(classify_request(1, 3), ClientRequest::Unknown);
    assert_eq!(update_for_event(EventBroadcast::Multiconnect(peer(3))), None);
    assert_eq!(
        update_for_event(EventBroadcast::Message { client_id: 4, content: "héllo".to_string() }),
        Some(TcpUpdate::LobbyUpdate(LobbyUpdateData::Message { sender: 4, length: 6, content: "héllo".to_string() }))
    );
    assert_eq!(
        update_for_event(EventBroadcast::Reconnected { addr: peer(0), client: client(5, "y") }),
        Some(TcpUpdate::LobbyUpdate(LobbyUpdateData::Reconnect(5)))
    );
    assert_eq!(update_for_event(EventBroadcast::GameExit(5)), Some(TcpUpdate::GameUpdate(GameUpdateData::Exit(5))));
    let b = accept_response_for(9, vec![client(9, "z")], vec![]);
    let id = 9u16.to_ne_bytes();
    let cnt = 1u16.to_ne_bytes();
    let mut expected = vec![2u8, id[0], id[1], 0, 0, cnt[0], cnt[1]];
    expected.extend_from_slice(&client(9, "z").to_bytes());
    assert_eq!(b, expected);
}

#[test]
fn batch_of_updates_in_order() {
    let mut l = lobby();
    let mut own = None;
    let mut pending = vec!["[INFO] earlier".to_string()];
    let updates = vec![
        TcpUpdate::LobbyUpdate(LobbyUpdateData::Connect(client(3, "eve"))),
        TcpUpdate::LobbyUpdate(LobbyUpdateData::Message { sender: 3, length: 2, content: "yo".to_string() }),
        TcpUpdate::LobbyUpdate(LobbyUpdateData::Disconnect(3)),
    ];
    let actions = apply_lobby_updates(&mut l, 1, &mut own, updates, true, false, &mut pending);
    assert_eq!(
        pending,
        vec![
            "[INFO] earlier".to_string(),
            "[INFO] eve joined the lobby as #3".to_string(),
            "eve: yo".to_string(),
            "[INFO] eve disconnected from the lobby".to_string(),
        ]
    );
    assert_eq!(actions, vec![act(LobbyActionKind::ShowClient, 3, "eve (#3)"), act(LobbyActionKind::HideClient, 3, "")]);
    assert_eq!(l, lobby());
}

#[test]
fn join_and_chat_requests() {
    assert_eq!(join_request_name(0, b"stk0"), Some("stk0".to_string()));
    assert_eq!(join_request_name(1, b"stk0"), None);
    assert_eq!(join_request_name(0, &[0x66, 0xff]), Some("f\u{fffd}".to_string()));
    assert_eq!(chat_request_text("héllo".as_bytes()), "héllo");
}

#[test]
fn joined_lobby_holds_the_announced_clients() {
    let mut header = [2u8, 0, 0, 0, 0, 0, 0];
    header[1..3].copy_from_slice(&7u16.to_ne_bytes());
    header[3..5].copy_from_slice(&4u16.to_ne_bytes());
    header[5..7].copy_from_slice(&2u16.to_ne_bytes());
    let response = accept_response(header).unwrap();
    assert_eq!(response.client_id, 7);
    let l = join_lobby(response, vec![client(3, "ann"), client(9, "zed")]);
    assert_eq!(l.client_count, 2);
    assert_eq!(l.game_count, 4);
    assert!(l.games.is_empty());
    assert_eq!(l.clients, vec![client(3, "ann"), client(9, "zed")]);
}

#[test]
fn joined_lobby_keys_clients_by_id() {
    let response = accept_response([2, 1, 0, 0, 0, 3, 0]).unwrap();
    let l = join_lobby(response, vec![client(3, "ann"), client(9, "zed"), client(3, "anna")]);
    assert_eq!(l.clients, vec![client(3, "anna"), client(9, "zed")]);
}

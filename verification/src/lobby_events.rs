//! How a client keeps its picture of the lobby up to date from the server's updates.
use vstd::prelude::*;

use crate::client::{GameUpdateData, TcpUpdate};
use crate::lobby::{unique_client_ids, unique_game_ids, Client, ClientStatus, Game, Lobby, LobbyConnectionAcceptResponse, LobbyUpdateData};
use crate::text::push_char;
use crate::chat::texts;

verus! {

/// The character of a decimal digit.
pub open spec fn digit_char(d: int) -> char {
    if d == 0 {
        '0'
    } else if d == 1 {
        '1'
    } else if d == 2 {
        '2'
    } else if d == 3 {
        '3'
    } else if d == 4 {
        '4'
    } else if d == 5 {
        '5'
    } else if d == 6 {
        '6'
    } else if d == 7 {
        '7'
    } else if d == 8 {
        '8'
    } else {
        '9'
    }
}

/// The decimal digits of a number, most significant first, without leading zeros.
pub open spec fn decimal(n: nat) -> Seq<char>
    decreases n,
{
    if n < 10 {
        seq![digit_char(n as int)]
    } else {
        decimal(n / 10).push(digit_char((n % 10) as int))
    }
}

/// The character of a decimal digit.
fn digit(d: u16) -> (c: char)
    requires
        d < 10,
    ensures
        c == digit_char(d as int),
{
    match d {
        0 => '0',
        1 => '1',
        2 => '2',
        3 => '3',
        4 => '4',
        5 => '5',
        6 => '6',
        7 => '7',
        8 => '8',
        _ => '9',
    }
}

/// Appends the decimal digits of `n`.
fn push_decimal(s: &mut String, n: u16)
    ensures
        final(s)@ == old(s)@ + decimal(n as nat),
    decreases n,
{
    let ghost start = s@;
    if n >= 10 {
        push_decimal(s, n / 10);
    }
    push_char(s, digit(n % 10));
    assert(s@ =~= start + decimal(n as nat));
}

/// Something the game shows or does because of an update.
#[derive(Debug, Clone, Copy, PartialEq, Eq, Structural)]
pub enum LobbyActionKind {
    /// Show a client in the lobby's list, with a label.
    ShowClient,
    /// Remove a client from the list.
    HideClient,
    /// Grey out a client whose connection was interrupted.
    DimClient,
    /// Show a reconnected client normally again.
    BrightenClient,
    /// Show a game in the lobby's list, with a label.
    ShowGame,
    /// Remove a game from the list.
    HideGame,
    /// Go back to the lobby, the game having been closed.
    ReturnToLobby,
    /// Bring a player into the running game, with a name.
    SpawnPlayer,
    /// Take a player out of the running game.
    DespawnPlayer,
    /// Send the world to the players of the hosted game.
    ShareWorld,
}

/// An action, the id of the client or game it is about, and its text (a
/// label or a name; empty when the action needs none).
#[derive(Debug, Clone, PartialEq, Eq)]
pub struct LobbyAction {
    pub kind: LobbyActionKind,
    pub id: u16,
    pub text: String,
}

/// The chat lines and the actions that an update leads to.
#[derive(Debug, Clone, PartialEq, Eq)]
pub struct LobbyEvents {
    pub messages: Vec<String>,
    pub actions: Vec<LobbyAction>,
}

impl View for LobbyEvents {
    type V = (Seq<Seq<char>>, Seq<(LobbyActionKind, u16, Seq<char>)>);

    /// The chat lines as texts and the actions as plain values.
    open spec fn view(&self) -> Self::V {
        (self.messages@.map_values(|m: String| m@), self.actions@.map_values(|a: LobbyAction| action_view(a)))
    }
}

/// An action as plain values.
pub open spec fn action_view(a: LobbyAction) -> (LobbyActionKind, u16, Seq<char>) {
    (a.kind, a.id, a.text@)
}

/// Whether a client with the id is known.
pub open spec fn has_client(cs: Seq<Client>, id: u16) -> bool {
    exists|i: int| 0 <= i < cs.len() && cs[i].client_id == id
}

/// The position of the client with the id.
pub open spec fn client_index(cs: Seq<Client>, id: u16) -> int {
    choose|i: int| 0 <= i < cs.len() && cs[i].client_id == id
}

/// Whether a game with the id is known.
pub open spec fn has_game(gs: Seq<Game>, id: u16) -> bool {
    exists|i: int| 0 <= i < gs.len() && gs[i].game_id == id
}

/// The position of the game with the id.
pub open spec fn game_index(gs: Seq<Game>, id: u16) -> int {
    choose|i: int| 0 <= i < gs.len() && gs[i].game_id == id
}

/// `k` is the first game that the client plays in.
pub open spec fn first_game_of(gs: Seq<Game>, cid: u16, k: int) -> bool {
    &&& 0 <= k < gs.len()
    &&& gs[k].clients@.contains(cid)
    &&& forall|j: int| 0 <= j < k ==> !gs[j].clients@.contains(cid)
}

/// Whether the client plays in some game.
pub open spec fn plays_in_a_game(gs: Seq<Game>, cid: u16) -> bool {
    exists|k: int| 0 <= k < gs.len() && gs[k].clients@.contains(cid)
}

/// The clients with `c` added, or put in place of the client with its id.
pub open spec fn with_client(cs: Seq<Client>, c: Client) -> Seq<Client> {
    if has_client(cs, c.client_id) {
        cs.update(client_index(cs, c.client_id), c)
    } else {
        cs.push(c)
    }
}

/// The games with `g` added, or put in place of the game with its id.
pub open spec fn with_game(gs: Seq<Game>, g: Game) -> Seq<Game> {
    if has_game(gs, g.game_id) {
        gs.update(game_index(gs, g.game_id), g)
    } else {
        gs.push(g)
    }
}

/// The label of a client or a game in the lobby's lists: its name, then its id.
pub open spec fn labeled(name: Seq<char>, id: u16) -> Seq<char> {
    name + " (#"@ + decimal(id as nat) + ")"@
}

/// An action with no text.
pub open spec fn bare(kind: LobbyActionKind, id: u16) -> (LobbyActionKind, u16, Seq<char>) {
    (kind, id, Seq::<char>::empty())
}

/// `after` is `before` with the game at `k` in place, its players being
/// `players`.
pub open spec fn game_players_changed(before: Seq<Game>, after: Seq<Game>, k: int, players: Seq<u16>) -> bool {
    &&& after.len() == before.len()
    &&& forall|j: int| 0 <= j < before.len() && j != k ==> after[j] == before[j]
    &&& after[k].game_id == before[k].game_id
    &&& after[k].host_id == before[k].host_id
    &&& after[k].password == before[k].password
    &&& after[k].game_name == before[k].game_name
    &&& after[k].clients@ == players
}

/// Whether an update can be applied: the clients and games that the update
/// names are known where the game looks them up without a fallback.
pub open spec fn update_allowed(lobby: Lobby, own_id: u16, own_game: Option<u16>, update: TcpUpdate) -> bool {
    match update {
        TcpUpdate::LobbyUpdate(d) => match d {
            LobbyUpdateData::Disconnect(id) => has_client(lobby.clients@, id),
            LobbyUpdateData::Message { sender, .. } => sender != own_id ==> has_client(
                lobby.clients@,
                sender,
            ),
            _ => true,
        },
        TcpUpdate::GameUpdate(g) => match g {
            GameUpdateData::Creation(game) => has_client(lobby.clients@, game.host_id),
            GameUpdateData::Deletion(id) => has_game(lobby.games@, id),
            GameUpdateData::Entry { client_id, game_id } => (has_game(lobby.games@, game_id)
                && own_game == Some(game_id) && client_id != own_id) ==> has_client(
                lobby.clients@,
                client_id,
            ),
            GameUpdateData::Exit(_) => true,
        },
    }
}

/// What an update does to the lobby, to the game the player is in, to the chat
/// and to the screen.
pub open spec fn update_applied(
    before: Lobby,
    after: Lobby,
    own_id: u16,
    game_before: Option<u16>,
    game_after: Option<u16>,
    update: TcpUpdate,
    in_lobby: bool,
    hosting: bool,
    msgs: Seq<Seq<char>>,
    acts: Seq<(LobbyActionKind, u16, Seq<char>)>,
) -> bool {
    let cs = before.clients@;
    let gs = before.games@;
    &&& after.client_count == before.client_count
    &&& after.game_count == before.game_count
    &&& match update {
        TcpUpdate::LobbyUpdate(d) => {
            &&& after.games@ == gs
            &&& game_after == game_before
            &&& match d {
                LobbyUpdateData::Connect(c) => {
                    &&& after.clients@ == with_client(cs, c)
                    &&& msgs == seq![
                        "[INFO] "@ + c.name@ + " joined the lobby as #"@ + decimal(
                            c.client_id as nat,
                        ),
                    ]
                    &&& acts == (if in_lobby {
                        seq![
                            (LobbyActionKind::ShowClient, c.client_id, labeled(c.name@, c.client_id)),
                        ]
                    } else {
                        seq![]
                    })
                },
                LobbyUpdateData::Disconnect(id) => {
                    let k = client_index(cs, id);
                    &&& after.clients@ == cs.remove(k)
                    &&& msgs == seq!["[INFO] "@ + cs[k].name@ + " disconnected from the lobby"@]
                    &&& acts == (if in_lobby {
                        seq![bare(LobbyActionKind::HideClient, id)]
                    } else {
                        seq![]
                    })
                },
                LobbyUpdateData::ConnectionInterrupt(id) => if has_client(cs, id) {
                    let k = client_index(cs, id);
                    &&& after.clients@ == cs.update(
                        k,
                        Client { status: ClientStatus::Idle(0), ..cs[k] },
                    )
                    &&& msgs == seq!["[INFO] connection to "@ + cs[k].name@ + " was interrupted"@]
                    &&& acts == (if in_lobby {
                        seq![bare(LobbyActionKind::DimClient, id)]
                    } else {
                        seq![]
                    })
                } else {
                    after.clients@ == cs && msgs == Seq::<Seq<char>>::empty() && acts.len() == 0
                },
                LobbyUpdateData::Reconnect(id) => if has_client(cs, id) {
                    let k = client_index(cs, id);
                    &&& after.clients@ == cs.update(
                        k,
                        Client { status: ClientStatus::Active, ..cs[k] },
                    )
                    &&& msgs == seq!["[INFO] "@ + cs[k].name@ + " reconnected to the lobby"@]
                    &&& acts == (if in_lobby {
                        seq![bare(LobbyActionKind::BrightenClient, id)]
                    } else {
                        seq![]
                    })
                } else {
                    after.clients@ == cs && msgs == Seq::<Seq<char>>::empty() && acts.len() == 0
                },
                LobbyUpdateData::Message { sender, content, .. } => {
                    &&& after.clients@ == cs
                    &&& acts.len() == 0
                    &&& msgs == (if sender != own_id {
                        seq![cs[client_index(cs, sender)].name@ + ": "@ + content@]
                    } else {
                        seq![]
                    })
                },
            }
        },
        TcpUpdate::GameUpdate(gu) => {
            &&& after.clients@ == cs
            &&& match gu {
                GameUpdateData::Creation(g) => {
                    &&& after.games@ == with_game(gs, g)
                    &&& game_after == (if g.host_id == own_id {
                        Some(g.game_id)
                    } else {
                        game_before
                    })
                    &&& msgs == seq![
                        "[INFO] "@ + cs[client_index(cs, g.host_id)].name@ + " hosted game "@
                            + g.game_name@ + " (#"@ + decimal(g.game_id as nat) + ")"@,
                    ]
                    &&& acts == (if in_lobby {
                        seq![(LobbyActionKind::ShowGame, g.game_id, labeled(g.game_name@, g.game_id))]
                    } else {
                        seq![]
                    })
                },
                GameUpdateData::Deletion(id) => {
                    let k = game_index(gs, id);
                    let closed = !in_lobby && gs[k].clients@.contains(own_id);
                    &&& after.games@ == gs.remove(k)
                    &&& game_after == game_before
                    &&& msgs == seq![
                        "[INFO] game "@ + gs[k].game_name@ + " (#"@ + decimal(id as nat)
                            + ") was deleted"@,
                    ] + (if closed {
                        seq!["[INFO] Host closed your game!"@]
                    } else {
                        seq![]
                    })
                    &&& acts == (if in_lobby {
                        seq![bare(LobbyActionKind::HideGame, id)]
                    } else if closed {
                        seq![bare(LobbyActionKind::ReturnToLobby, id)]
                    } else {
                        seq![]
                    })
                },
                GameUpdateData::Entry { client_id, game_id } => {
                    &&& game_after == game_before
                    &&& if has_game(gs, game_id) {
                        let k = game_index(gs, game_id);
                        let own = game_before == Some(game_id);
                        &&& game_players_changed(gs, after.games@, k, gs[k].clients@.push(client_id))
                        &&& msgs == seq![
                            "[INFO] client#"@ + decimal(client_id as nat) + " joined game "@
                                + gs[k].game_name@ + " (#"@ + decimal(game_id as nat) + ")"@,
                        ]
                        &&& acts == (if own && client_id != own_id {
                            seq![
                                (
                                    LobbyActionKind::SpawnPlayer,
                                    client_id,
                                    cs[client_index(cs, client_id)].name@,
                                ),
                            ]
                        } else {
                            seq![]
                        }) + (if own && hosting {
                            seq![bare(LobbyActionKind::ShareWorld, game_id)]
                        } else {
                            seq![]
                        })
                    } else {
                        after.games@ == gs && msgs == Seq::<Seq<char>>::empty() && acts.len() == 0
                    }
                },
                GameUpdateData::Exit(client_id) => {
                    &&& game_after == game_before
                    &&& if plays_in_a_game(gs, client_id) {
                        exists|k: int|
                            {
                                &&& first_game_of(gs, client_id, k)
                                &&& game_players_changed(
                                    gs,
                                    after.games@,
                                    k,
                                    gs[k].clients@.filter(|x: u16| x != client_id),
                                )
                                &&& msgs == seq![
                                    "[INFO] client#"@ + decimal(client_id as nat) + " left game "@
                                        + gs[k].game_name@ + " (#"@ + decimal(gs[k].game_id as nat)
                                        + ")"@,
                                ]
                                &&& acts == (if game_before == Some(gs[k].game_id) {
                                    seq![bare(LobbyActionKind::DespawnPlayer, client_id)]
                                } else {
                                    seq![]
                                })
                            }
                    } else {
                        after.games@ == gs && msgs == Seq::<Seq<char>>::empty() && acts.len() == 0
                    }
                },
            }
        },
    }
}

/// With unique ids, the client found under an id is the one at its position.
proof fn lemma_client_index(cs: Seq<Client>, id: u16, k: int)
    requires
        unique_client_ids(cs),
        0 <= k < cs.len(),
        cs[k].client_id == id,
    ensures
        has_client(cs, id),
        client_index(cs, id) == k,
{
}

/// With unique ids, the game found under an id is the one at its position.
proof fn lemma_game_index(gs: Seq<Game>, id: u16, k: int)
    requires
        unique_game_ids(gs),
        0 <= k < gs.len(),
        gs[k].game_id == id,
    ensures
        has_game(gs, id),
        game_index(gs, id) == k,
{
}

/// The position of the client with the id, if one is known.
fn find_client(cs: &Vec<Client>, id: u16) -> (r: Option<usize>)
    ensures
        r matches Some(k) ==> k < cs@.len() && cs@[k as int].client_id == id,
        r is None ==> !has_client(cs@, id),
{
    let mut i: usize = 0;
    while i < cs.len()
        invariant
            i <= cs@.len(),
            forall|j: int| 0 <= j < i ==> cs@[j].client_id != id,
        decreases cs@.len() - i,
    {
        if cs[i].client_id == id {
            return Some(i);
        }
        i = i + 1;
    }
    None
}

/// The position of the game with the id, if one is known.
fn find_game(gs: &Vec<Game>, id: u16) -> (r: Option<usize>)
    ensures
        r matches Some(k) ==> k < gs@.len() && gs@[k as int].game_id == id,
        r is None ==> !has_game(gs@, id),
{
    let mut i: usize = 0;
    while i < gs.len()
        invariant
            i <= gs@.len(),
            forall|j: int| 0 <= j < i ==> gs@[j].game_id != id,
        decreases gs@.len() - i,
    {
        if gs[i].game_id == id {
            return Some(i);
        }
        i = i + 1;
    }
    None
}

/// Whether the id is in the list.
fn contains_id(ids: &Vec<u16>, id: u16) -> (b: bool)
    ensures
        b == ids@.contains(id),
{
    let mut i: usize = 0;
    while i < ids.len()
        invariant
            i <= ids@.len(),
            forall|j: int| 0 <= j < i ==> ids@[j] != id,
        decreases ids@.len() - i,
    {
        if ids[i] == id {
            return true;
        }
        i = i + 1;
    }
    false
}

/// The position of the first game the client plays in, if any.
fn find_game_of_player(gs: &Vec<Game>, cid: u16) -> (r: Option<usize>)
    ensures
        r matches Some(k) ==> first_game_of(gs@, cid, k as int),
        r is None ==> !plays_in_a_game(gs@, cid),
{
    let mut i: usize = 0;
    while i < gs.len()
        invariant
            i <= gs@.len(),
            forall|j: int| 0 <= j < i ==> !gs@[j].clients@.contains(cid),
        decreases gs@.len() - i,
    {
        if contains_id(&gs[i].clients, cid) {
            return Some(i);
        }
        i = i + 1;
    }
    None
}

/// The ids other than `x`, in order.
fn without(ids: &Vec<u16>, x: u16) -> (r: Vec<u16>)
    ensures
        r@ == ids@.filter(|y: u16| y != x),
{
    let mut r: Vec<u16> = Vec::new();
    let mut i: usize = 0;
    while i < ids.len()
        invariant
            i <= ids@.len(),
            r@ == ids@.take(i as int).filter(|y: u16| y != x),
        decreases ids@.len() - i,
    {
        proof {
            reveal(Seq::filter);
            assert(ids@.take(i + 1).drop_last() =~= ids@.take(i as int));
        }
        if ids[i] != x {
            r.push(ids[i]);
        }
        i = i + 1;
    }
    assert(ids@.take(i as int) =~= ids@);
    r
}

/// Puts a client in the list, in place of the one with its id if there is one.
fn put_client(cs: &mut Vec<Client>, c: Client)
    requires
        unique_client_ids(old(cs)@),
    ensures
        final(cs)@ == with_client(old(cs)@, c),
        unique_client_ids(final(cs)@),
{
    match find_client(cs, c.client_id) {
        Some(k) => {
            proof {
                lemma_client_index(cs@, c.client_id, k as int);
            }
            cs.set(k, c);
        },
        None => {
            cs.push(c);
        },
    }
}

/// Puts a game in the list, in place of the one with its id if there is one.
fn put_game(gs: &mut Vec<Game>, g: Game)
    requires
        unique_game_ids(old(gs)@),
    ensures
        final(gs)@ == with_game(old(gs)@, g),
        unique_game_ids(final(gs)@),
{
    match find_game(gs, g.game_id) {
        Some(k) => {
            proof {
                lemma_game_index(gs@, g.game_id, k as int);
            }
            gs.set(k, g);
        },
        None => {
            gs.push(g);
        },
    }
}

/// The label of a client or game: its name, then its id.
fn label(name: &String, id: u16) -> (l: String)
    ensures
        l@ == labeled(name@, id),
{
    let mut l = String::new();
    l.append(name.as_str());
    l.append(" (#");
    push_decimal(&mut l, id);
    l.append(")");
    assert(l@ =~= labeled(name@, id));
    l
}

/// An action that needs no text.
fn bare_action(kind: LobbyActionKind, id: u16) -> (a: LobbyAction)
    ensures
        action_view(a) == bare(kind, id),
{
    LobbyAction { kind, id, text: String::new() }
}

/// The chat lines of the events, as texts.
pub open spec fn messages_view(e: LobbyEvents) -> Seq<Seq<char>> {
    e.messages@.map_values(|m: String| m@)
}

/// The actions of the events, as plain values.
pub open spec fn actions_view(e: LobbyEvents) -> Seq<(LobbyActionKind, u16, Seq<char>)> {
    e.actions@.map_values(|a: LobbyAction| action_view(a))
}

/// Events of one chat line and at most one action.
fn events_of(m: String, a: Option<LobbyAction>) -> (e: LobbyEvents)
    ensures
        messages_view(e) == seq![m@],
        actions_view(e) == (match a {
            Some(a) => seq![action_view(a)],
            None => Seq::empty(),
        }),
{
    let ghost mv = m@;
    let mut messages: Vec<String> = Vec::new();
    messages.push(m);
    let mut actions: Vec<LobbyAction> = Vec::new();
    match a {
        Some(a) => actions.push(a),
        None => {},
    }
    let e = LobbyEvents { messages, actions };
    assert(messages_view(e) =~= seq![mv]);
    assert(actions_view(e) =~= (match a {
        Some(a) => seq![action_view(a)],
        None => Seq::empty(),
    }));
    e
}

/// No chat line and no action.
fn no_events() -> (e: LobbyEvents)
    ensures
        messages_view(e) == Seq::<Seq<char>>::empty(),
        actions_view(e).len() == 0,
{
    let e = LobbyEvents { messages: Vec::new(), actions: Vec::new() };
    assert(messages_view(e) =~= Seq::<Seq<char>>::empty());
    e
}

/// A client joined the lobby.
fn on_connect(lobby: &mut Lobby, c: Client, in_lobby: bool) -> (e: LobbyEvents)
    requires
        old(lobby).well_formed(),
    ensures
        final(lobby).well_formed(),
        final(lobby).client_count == old(lobby).client_count,
        final(lobby).game_count == old(lobby).game_count,
        final(lobby).games@ == old(lobby).games@,
        final(lobby).clients@ == with_client(old(lobby).clients@, c),
        messages_view(e) == seq![
            "[INFO] "@ + c.name@ + " joined the lobby as #"@ + decimal(c.client_id as nat),
        ],
        actions_view(e) == (if in_lobby {
            seq![(LobbyActionKind::ShowClient, c.client_id, labeled(c.name@, c.client_id))]
        } else {
            seq![]
        }),
{
    let id = c.client_id;
    let mut m = String::new();
    m.append("[INFO] ");
    m.append(c.name.as_str());
    m.append(" joined the lobby as #");
    push_decimal(&mut m, id);
    assert(m@ =~= "[INFO] "@ + c.name@ + " joined the lobby as #"@ + decimal(id as nat));
    let action = if in_lobby {
        Some(LobbyAction { kind: LobbyActionKind::ShowClient, id, text: label(&c.name, id) })
    } else {
        None
    };
    put_client(&mut lobby.clients, c);
    events_of(m, action)
}

/// A client left the lobby.
fn on_disconnect(lobby: &mut Lobby, id: u16, in_lobby: bool) -> (e: LobbyEvents)
    requires
        old(lobby).well_formed(),
        has_client(old(lobby).clients@, id),
    ensures
        final(lobby).well_formed(),
        final(lobby).client_count == old(lobby).client_count,
        final(lobby).game_count == old(lobby).game_count,
        final(lobby).games@ == old(lobby).games@,
        ({
            let cs = old(lobby).clients@;
            let k = client_index(cs, id);
            &&& final(lobby).clients@ == cs.remove(k)
            &&& messages_view(e) == seq![
                "[INFO] "@ + cs[k].name@ + " disconnected from the lobby"@,
            ]
            &&& actions_view(e) == (if in_lobby {
                seq![bare(LobbyActionKind::HideClient, id)]
            } else {
                seq![]
            })
        }),
{
    let k = match find_client(&lobby.clients, id) {
        Some(k) => k,
        None => {
            return vstd::pervasive::unreached();
        },
    };
    proof {
        lemma_client_index(lobby.clients@, id, k as int);
    }
    let gone = lobby.clients.remove(k);
    let mut m = String::new();
    m.append("[INFO] ");
    m.append(gone.name.as_str());
    m.append(" disconnected from the lobby");
    assert(m@ =~= "[INFO] "@ + gone.name@ + " disconnected from the lobby"@);
    let action = if in_lobby {
        Some(bare_action(LobbyActionKind::HideClient, id))
    } else {
        None
    };
    events_of(m, action)
}

/// A client's connection was interrupted, or came back.
fn on_status(lobby: &mut Lobby, id: u16, back: bool, in_lobby: bool) -> (e: LobbyEvents)
    requires
        old(lobby).well_formed(),
    ensures
        final(lobby).well_formed(),
        final(lobby).client_count == old(lobby).client_count,
        final(lobby).game_count == old(lobby).game_count,
        final(lobby).games@ == old(lobby).games@,
        ({
            let cs = old(lobby).clients@;
            if has_client(cs, id) {
                let k = client_index(cs, id);
                &&& final(lobby).clients@ == cs.update(
                    k,
                    Client {
                        status: if back {
                            ClientStatus::Active
                        } else {
                            ClientStatus::Idle(0)
                        },
                        ..cs[k]
                    },
                )
                &&& messages_view(e) == (if back {
                    seq!["[INFO] "@ + cs[k].name@ + " reconnected to the lobby"@]
                } else {
                    seq!["[INFO] connection to "@ + cs[k].name@ + " was interrupted"@]
                })
                &&& actions_view(e) == (if in_lobby {
                    seq![
                        bare(
                            if back {
                                LobbyActionKind::BrightenClient
                            } else {
                                LobbyActionKind::DimClient
                            },
                            id,
                        ),
                    ]
                } else {
                    seq![]
                })
            } else {
                final(lobby).clients@ == cs && messages_view(e) == Seq::<Seq<char>>::empty()
                    && actions_view(e).len() == 0
            }
        }),
{
    let k = match find_client(&lobby.clients, id) {
        Some(k) => k,
        None => {
            return no_events();
        },
    };
    proof {
        lemma_client_index(lobby.clients@, id, k as int);
    }
    let ghost cs = lobby.clients@;
    let mut c = lobby.clients.remove(k);
    c.status = if back {
        ClientStatus::Active
    } else {
        ClientStatus::Idle(0)
    };
    let mut m = String::new();
    if back {
        m.append("[INFO] ");
        m.append(c.name.as_str());
        m.append(" reconnected to the lobby");
        assert(m@ =~= "[INFO] "@ + c.name@ + " reconnected to the lobby"@);
    } else {
        m.append("[INFO] connection to ");
        m.append(c.name.as_str());
        m.append(" was interrupted");
        assert(m@ =~= "[INFO] connection to "@ + c.name@ + " was interrupted"@);
    }
    lobby.clients.insert(k, c);
    assert(lobby.clients@ =~= cs.update(k as int, c));
    let action = if in_lobby {
        Some(
            bare_action(
                if back {
                    LobbyActionKind::BrightenClient
                } else {
                    LobbyActionKind::DimClient
                },
                id,
            ),
        )
    } else {
        None
    };
    events_of(m, action)
}

/// A client wrote in the lobby's chat.
fn on_message(lobby: &Lobby, own_id: u16, sender: u16, content: &String) -> (e: LobbyEvents)
    requires
        sender != own_id ==> has_client(lobby.clients@, sender),
        lobby.well_formed(),
    ensures
        actions_view(e).len() == 0,
        messages_view(e) == (if sender != own_id {
            seq![lobby.clients@[client_index(lobby.clients@, sender)].name@ + ": "@ + content@]
        } else {
            seq![]
        }),
{
    if sender == own_id {
        return no_events();
    }
    let k = match find_client(&lobby.clients, sender) {
        Some(k) => k,
        None => {
            return vstd::pervasive::unreached();
        },
    };
    proof {
        lemma_client_index(lobby.clients@, sender, k as int);
    }
    let mut m = String::new();
    m.append(lobby.clients[k].name.as_str());
    m.append(": ");
    m.append(content.as_str());
    assert(m@ =~= lobby.clients@[k as int].name@ + ": "@ + content@);
    events_of(m, None)
}

/// A client hosted a game.
fn on_creation(lobby: &mut Lobby, own_id: u16, own_game: &mut Option<u16>, g: Game, in_lobby: bool) -> (e: LobbyEvents)
    requires
        old(lobby).well_formed(),
        has_client(old(lobby).clients@, g.host_id),
    ensures
        final(lobby).well_formed(),
        final(lobby).client_count == old(lobby).client_count,
        final(lobby).game_count == old(lobby).game_count,
        final(lobby).clients@ == old(lobby).clients@,
        final(lobby).games@ == with_game(old(lobby).games@, g),
        *final(own_game) == (if g.host_id == own_id {
            Some(g.game_id)
        } else {
            *old(own_game)
        }),
        messages_view(e) == seq![
            "[INFO] "@ + old(lobby).clients@[client_index(old(lobby).clients@, g.host_id)].name@
                + " hosted game "@ + g.game_name@ + " (#"@ + decimal(g.game_id as nat) + ")"@,
        ],
        actions_view(e) == (if in_lobby {
            seq![(LobbyActionKind::ShowGame, g.game_id, labeled(g.game_name@, g.game_id))]
        } else {
            seq![]
        }),
{
    let k = match find_client(&lobby.clients, g.host_id) {
        Some(k) => k,
        None => {
            return vstd::pervasive::unreached();
        },
    };
    proof {
        lemma_client_index(lobby.clients@, g.host_id, k as int);
    }
    let mut m = String::new();
    m.append("[INFO] ");
    m.append(lobby.clients[k].name.as_str());
    m.append(" hosted game ");
    m.append(g.game_name.as_str());
    m.append(" (#");
    push_decimal(&mut m, g.game_id);
    m.append(")");
    assert(m@ =~= "[INFO] "@ + lobby.clients@[k as int].name@ + " hosted game "@ + g.game_name@
        + " (#"@ + decimal(g.game_id as nat) + ")"@);
    let action = if in_lobby {
        Some(
            LobbyAction {
                kind: LobbyActionKind::ShowGame,
                id: g.game_id,
                text: label(&g.game_name, g.game_id),
            },
        )
    } else {
        None
    };
    if g.host_id == own_id {
        *own_game = Some(g.game_id);
    }
    put_game(&mut lobby.games, g);
    events_of(m, action)
}

/// A game was closed.
fn on_deletion(lobby: &mut Lobby, own_id: u16, id: u16, in_lobby: bool) -> (e: LobbyEvents)
    requires
        old(lobby).well_formed(),
        has_game(old(lobby).games@, id),
    ensures
        final(lobby).well_formed(),
        final(lobby).client_count == old(lobby).client_count,
        final(lobby).game_count == old(lobby).game_count,
        final(lobby).clients@ == old(lobby).clients@,
        ({
            let gs = old(lobby).games@;
            let k = game_index(gs, id);
            let closed = !in_lobby && gs[k].clients@.contains(own_id);
            &&& final(lobby).games@ == gs.remove(k)
            &&& messages_view(e) == seq![
                "[INFO] game "@ + gs[k].game_name@ + " (#"@ + decimal(id as nat) + ") was deleted"@,
            ] + (if closed {
                seq!["[INFO] Host closed your game!"@]
            } else {
                seq![]
            })
            &&& actions_view(e) == (if in_lobby {
                seq![bare(LobbyActionKind::HideGame, id)]
            } else if closed {
                seq![bare(LobbyActionKind::ReturnToLobby, id)]
            } else {
                seq![]
            })
        }),
{
    let k = match find_game(&lobby.games, id) {
        Some(k) => k,
        None => {
            return vstd::pervasive::unreached();
        },
    };
    proof {
        lemma_game_index(lobby.games@, id, k as int);
    }
    let game = lobby.games.remove(k);
    let mut m = String::new();
    m.append("[INFO] game ");
    m.append(game.game_name.as_str());
    m.append(" (#");
    push_decimal(&mut m, id);
    m.append(") was deleted");
    let ghost first = m@;
    assert(first =~= "[INFO] game "@ + game.game_name@ + " (#"@ + decimal(id as nat) + ") was deleted"@);
    let mut messages: Vec<String> = Vec::new();
    messages.push(m);
    let mut actions: Vec<LobbyAction> = Vec::new();
    let closed = !in_lobby && contains_id(&game.clients, own_id);
    if in_lobby {
        actions.push(bare_action(LobbyActionKind::HideGame, id));
    } else if closed {
        let mut note = String::new();
        note.append("[INFO] Host closed your game!");
        messages.push(note);
        actions.push(bare_action(LobbyActionKind::ReturnToLobby, id));
    }
    let e = LobbyEvents { messages, actions };
    assert(messages_view(e) =~= seq![first] + (if closed {
        seq!["[INFO] Host closed your game!"@]
    } else {
        seq![]
    }));
    assert(actions_view(e) =~= (if in_lobby {
        seq![bare(LobbyActionKind::HideGame, id)]
    } else if closed {
        seq![bare(LobbyActionKind::ReturnToLobby, id)]
    } else {
        seq![]
    }));
    e
}

/// A client joined a game.
fn on_entry(
    lobby: &mut Lobby,
    own_id: u16,
    own_game: Option<u16>,
    client_id: u16,
    game_id: u16,
    hosting: bool,
) -> (e: LobbyEvents)
    requires
        old(lobby).well_formed(),
        (has_game(old(lobby).games@, game_id) && own_game == Some(game_id) && client_id != own_id)
            ==> has_client(old(lobby).clients@, client_id),
    ensures
        final(lobby).well_formed(),
        final(lobby).client_count == old(lobby).client_count,
        final(lobby).game_count == old(lobby).game_count,
        final(lobby).clients@ == old(lobby).clients@,
        ({
            let gs = old(lobby).games@;
            let cs = old(lobby).clients@;
            if has_game(gs, game_id) {
                let k = game_index(gs, game_id);
                let own = own_game == Some(game_id);
                &&& game_players_changed(gs, final(lobby).games@, k, gs[k].clients@.push(client_id))
                &&& messages_view(e) == seq![
                    "[INFO] client#"@ + decimal(client_id as nat) + " joined game "@
                        + gs[k].game_name@ + " (#"@ + decimal(game_id as nat) + ")"@,
                ]
                &&& actions_view(e) == (if own && client_id != own_id {
                    seq![
                        (
                            LobbyActionKind::SpawnPlayer,
                            client_id,
                            cs[client_index(cs, client_id)].name@,
                        ),
                    ]
                } else {
                    seq![]
                }) + (if own && hosting {
                    seq![bare(LobbyActionKind::ShareWorld, game_id)]
                } else {
                    seq![]
                })
            } else {
                final(lobby).games@ == gs && messages_view(e) == Seq::<Seq<char>>::empty()
                    && actions_view(e).len() == 0
            }
        }),
{
    let k = match find_game(&lobby.games, game_id) {
        Some(k) => k,
        None => {
            return no_events();
        },
    };
    proof {
        lemma_game_index(lobby.games@, game_id, k as int);
    }
    let ghost gs = lobby.games@;
    let mut game = lobby.games.remove(k);
    game.clients.push(client_id);
    let mut m = String::new();
    m.append("[INFO] client#");
    push_decimal(&mut m, client_id);
    m.append(" joined game ");
    m.append(game.game_name.as_str());
    m.append(" (#");
    push_decimal(&mut m, game_id);
    m.append(")");
    let ghost text = m@;
    assert(text =~= "[INFO] client#"@ + decimal(client_id as nat) + " joined game "@
        + game.game_name@ + " (#"@ + decimal(game_id as nat) + ")"@);
    let own = match own_game {
        Some(g) => g == game.game_id,
        None => false,
    };
    let mut actions: Vec<LobbyAction> = Vec::new();
    if own {
        if client_id != own_id {
            let j = match find_client(&lobby.clients, client_id) {
                Some(j) => j,
                None => {
                    return vstd::pervasive::unreached();
                },
            };
            proof {
                lemma_client_index(lobby.clients@, client_id, j as int);
            }
            actions.push(
                LobbyAction {
                    kind: LobbyActionKind::SpawnPlayer,
                    id: client_id,
                    text: lobby.clients[j].name.clone(),
                },
            );
        }
        if hosting {
            actions.push(bare_action(LobbyActionKind::ShareWorld, game_id));
        }
    }
    lobby.games.insert(k, game);
    let mut messages: Vec<String> = Vec::new();
    messages.push(m);
    let e = LobbyEvents { messages, actions };
    assert(messages_view(e) =~= seq![text]);
    assert(actions_view(e) =~= (if own && client_id != own_id {
        seq![
            (
                LobbyActionKind::SpawnPlayer,
                client_id,
                old(lobby).clients@[client_index(old(lobby).clients@, client_id)].name@,
            ),
        ]
    } else {
        seq![]
    }) + (if own && hosting {
        seq![bare(LobbyActionKind::ShareWorld, game_id)]
    } else {
        seq![]
    }));
    assert(game_players_changed(gs, lobby.games@, k as int, gs[k as int].clients@.push(client_id)));
    e
}

/// A client left the game it played in.
fn on_exit(lobby: &mut Lobby, own_game: Option<u16>, client_id: u16) -> (e: LobbyEvents)
    requires
        old(lobby).well_formed(),
    ensures
        final(lobby).well_formed(),
        final(lobby).client_count == old(lobby).client_count,
        final(lobby).game_count == old(lobby).game_count,
        final(lobby).clients@ == old(lobby).clients@,
        ({
            let gs = old(lobby).games@;
            if plays_in_a_game(gs, client_id) {
                exists|k: int|
                    {
                        &&& first_game_of(gs, client_id, k)
                        &&& game_players_changed(
                            gs,
                            final(lobby).games@,
                            k,
                            gs[k].clients@.filter(|x: u16| x != client_id),
                        )
                        &&& messages_view(e) == seq![
                            "[INFO] client#"@ + decimal(client_id as nat) + " left game "@
                                + gs[k].game_name@ + " (#"@ + decimal(gs[k].game_id as nat)
                                + ")"@,
                        ]
                        &&& actions_view(e) == (if own_game == Some(gs[k].game_id) {
                            seq![bare(LobbyActionKind::DespawnPlayer, client_id)]
                        } else {
                            seq![]
                        })
                    }
            } else {
                final(lobby).games@ == gs && messages_view(e) == Seq::<Seq<char>>::empty()
                    && actions_view(e).len() == 0
            }
        }),
{
    let k = match find_game_of_player(&lobby.games, client_id) {
        Some(k) => k,
        None => {
            return no_events();
        },
    };
    let ghost gs = lobby.games@;
    let mut game = lobby.games.remove(k);
    game.clients = without(&game.clients, client_id);
    let mut m = String::new();
    m.append("[INFO] client#");
    push_decimal(&mut m, client_id);
    m.append(" left game ");
    m.append(game.game_name.as_str());
    m.append(" (#");
    push_decimal(&mut m, game.game_id);
    m.append(")");
    assert(m@ =~= "[INFO] client#"@ + decimal(client_id as nat) + " left game "@ + game.game_name@
        + " (#"@ + decimal(game.game_id as nat) + ")"@);
    let own = match own_game {
        Some(g) => g == game.game_id,
        None => false,
    };
    let action = if own {
        Some(bare_action(LobbyActionKind::DespawnPlayer, client_id))
    } else {
        None
    };
    lobby.games.insert(k, game);
    let e = events_of(m, action);
    assert(game_players_changed(
        gs,
        lobby.games@,
        k as int,
        gs[k as int].clients@.filter(|x: u16| x != client_id),
    ));
    e
}

/// Applies an update from the server to the lobby as this client sees it.
/// `own_id` is this client's id, `own_game` the game it plays in (set when it
/// hosts a new game), `in_lobby` whether the lobby's screen is shown and
/// `hosting` whether this client hosts its game. The result holds the chat
/// lines and the actions for the screen and the game.
pub fn get_lobby_events(
    lobby: &mut Lobby,
    own_id: u16,
    own_game: &mut Option<u16>,
    update: TcpUpdate,
    in_lobby: bool,
    hosting: bool,
) -> (e: LobbyEvents)
    requires
        old(lobby).well_formed(),
        update_allowed(*old(lobby), own_id, *old(own_game), update),
    ensures
        final(lobby).well_formed(),
        update_applied(
            *old(lobby),
            *final(lobby),
            own_id,
            *old(own_game),
            *final(own_game),
            update,
            in_lobby,
            hosting,
            messages_view(e),
            actions_view(e),
        ),
        *final(own_game) != *old(own_game) ==> (update matches TcpUpdate::GameUpdate(
            GameUpdateData::Creation(g),
        ) && g.host_id == own_id && *final(own_game) == Some(g.game_id)),
{
    match update {
        TcpUpdate::LobbyUpdate(d) => match d {
            LobbyUpdateData::Connect(c) => on_connect(lobby, c, in_lobby),
            LobbyUpdateData::Disconnect(id) => on_disconnect(lobby, id, in_lobby),
            LobbyUpdateData::ConnectionInterrupt(id) => on_status(lobby, id, false, in_lobby),
            LobbyUpdateData::Reconnect(id) => on_status(lobby, id, true, in_lobby),
            LobbyUpdateData::Message { sender, content, .. } => on_message(
                lobby,
                own_id,
                sender,
                &content,
            ),
        },
        TcpUpdate::GameUpdate(g) => match g {
            GameUpdateData::Creation(game) => on_creation(lobby, own_id, own_game, game, in_lobby),
            GameUpdateData::Deletion(id) => on_deletion(lobby, own_id, id, in_lobby),
            GameUpdateData::Entry { client_id, game_id } => on_entry(
                lobby,
                own_id,
                *own_game,
                client_id,
                game_id,
                hosting,
            ),
            GameUpdateData::Exit(client_id) => on_exit(lobby, *own_game, client_id),
        },
    }
}

/// The entries of one client in the lobby's list: its label, greyed out when idle.
pub open spec fn client_entries(c: Client) -> Seq<(LobbyActionKind, u16, Seq<char>)> {
    seq![(LobbyActionKind::ShowClient, c.client_id, labeled(c.name@, c.client_id))] + match c.status {
        ClientStatus::Idle(_) => seq![bare(LobbyActionKind::DimClient, c.client_id)],
        ClientStatus::Active => Seq::empty(),
    }
}

/// The entries of the clients, in order.
pub open spec fn clients_entries(cs: Seq<Client>) -> Seq<(LobbyActionKind, u16, Seq<char>)>
    decreases cs.len(),
{
    if cs.len() == 0 {
        Seq::empty()
    } else {
        clients_entries(cs.drop_last()) + client_entries(cs.last())
    }
}

/// The entries of the games, in order: each game's label.
pub open spec fn games_entries(gs: Seq<Game>) -> Seq<(LobbyActionKind, u16, Seq<char>)>
    decreases gs.len(),
{
    if gs.len() == 0 {
        Seq::empty()
    } else {
        games_entries(gs.drop_last()).push(
            (LobbyActionKind::ShowGame, gs.last().game_id, labeled(gs.last().game_name@, gs.last().game_id)),
        )
    }
}

/// What the lobby's screen shows on entering it: every client, greyed out when
/// idle, then every game.
pub fn build_lobby_details(lobby: &Lobby) -> (actions: Vec<LobbyAction>)
    ensures
        actions@.map_values(|a: LobbyAction| action_view(a)) == clients_entries(lobby.clients@)
            + games_entries(lobby.games@),
{
    let mut actions: Vec<LobbyAction> = Vec::new();
    let mut i: usize = 0;
    while i < lobby.clients.len()
        invariant
            i <= lobby.clients@.len(),
            actions@.map_values(|a: LobbyAction| action_view(a)) == clients_entries(
                lobby.clients@.take(i as int),
            ),
        decreases lobby.clients@.len() - i,
    {
        let c = &lobby.clients[i];
        let ghost before = actions@.map_values(|a: LobbyAction| action_view(a));
        actions.push(
            LobbyAction {
                kind: LobbyActionKind::ShowClient,
                id: c.client_id,
                text: label(&c.name, c.client_id),
            },
        );
        match c.status {
            ClientStatus::Idle(_) => actions.push(bare_action(LobbyActionKind::DimClient, c.client_id)),
            ClientStatus::Active => {},
        }
        assert(lobby.clients@.take(i + 1).drop_last() =~= lobby.clients@.take(i as int));
        assert(actions@.map_values(|a: LobbyAction| action_view(a)) =~= before + client_entries(*c));
        i = i + 1;
    }
    assert(lobby.clients@.take(i as int) =~= lobby.clients@);
    let ghost head = actions@.map_values(|a: LobbyAction| action_view(a));
    let mut j: usize = 0;
    while j < lobby.games.len()
        invariant
            j <= lobby.games@.len(),
            actions@.map_values(|a: LobbyAction| action_view(a)) == head + games_entries(
                lobby.games@.take(j as int),
            ),
        decreases lobby.games@.len() - j,
    {
        let g = &lobby.games[j];
        let ghost before = actions@.map_values(|a: LobbyAction| action_view(a));
        actions.push(
            LobbyAction {
                kind: LobbyActionKind::ShowGame,
                id: g.game_id,
                text: label(&g.game_name, g.game_id),
            },
        );
        assert(lobby.games@.take(j + 1).drop_last() =~= lobby.games@.take(j as int));
        assert(actions@.map_values(|a: LobbyAction| action_view(a)) =~= before.push(
            (LobbyActionKind::ShowGame, g.game_id, labeled(g.game_name@, g.game_id)),
        ));
        j = j + 1;
    }
    assert(lobby.games@.take(j as int) =~= lobby.games@);
    actions
}

/// A client that joins and then leaves the lobby leaves the list of clients
/// as it was.
pub proof fn lemma_join_then_leave(cs: Seq<Client>, c: Client)
    requires
        unique_client_ids(cs),
        !has_client(cs, c.client_id),
    ensures
        with_client(cs, c).remove(client_index(with_client(cs, c), c.client_id)) =~= cs,
{
    let after = with_client(cs, c);
    assert(after == cs.push(c));
    lemma_client_index(after, c.client_id, cs.len() as int);
}

/// An active client whose connection is interrupted and then comes back is
/// as it was.
pub proof fn lemma_interrupt_then_reconnect(cs: Seq<Client>, id: u16)
    requires
        unique_client_ids(cs),
        has_client(cs, id),
        cs[client_index(cs, id)].status == ClientStatus::Active,
    ensures
        ({
            let k = client_index(cs, id);
            let dimmed = cs.update(k, Client { status: ClientStatus::Idle(0), ..cs[k] });
            let k2 = client_index(dimmed, id);
            dimmed.update(k2, Client { status: ClientStatus::Active, ..dimmed[k2] }) =~= cs
        }),
{
    let k = client_index(cs, id);
    let dimmed = cs.update(k, Client { status: ClientStatus::Idle(0), ..cs[k] });
    lemma_client_index(dimmed, id, k);
}

/// A client that plays in no game, joins one and leaves again leaves the
/// game's players as they were.
pub proof fn lemma_enter_then_exit(players: Seq<u16>, cid: u16)
    requires
        !players.contains(cid),
    ensures
        players.push(cid).filter(|x: u16| x != cid) =~= players,
{
    let f = |x: u16| x != cid;
    reveal(Seq::filter);
    assert(players.push(cid).drop_last() =~= players);
    assert(players.filter(f) =~= players) by {
        lemma_filter_keeps_all(players, cid);
    }
}

/// Removing an id that does not occur keeps the list.
proof fn lemma_filter_keeps_all(players: Seq<u16>, cid: u16)
    requires
        !players.contains(cid),
    ensures
        players.filter(|x: u16| x != cid) =~= players,
    decreases players.len(),
{
    reveal(Seq::filter);
    if players.len() > 0 {
        let front = players.drop_last();
        assert(!front.contains(cid)) by {
            if front.contains(cid) {
                let i = choose|i: int| 0 <= i < front.len() && front[i] == cid;
                assert(players[i] == cid);
            }
        }
        lemma_filter_keeps_all(front, cid);
        assert(players.last() != cid) by {
            if players.last() == cid {
                assert(players[players.len() - 1] == cid);
            }
        }
        assert(front.push(players.last()) =~= players);
    }
}

impl Lobby {
    /// Records a client under its id, in place of any client with that id.
    pub fn insert_client(&mut self, c: Client)
        requires
            old(self).well_formed(),
        ensures
            final(self).well_formed(),
            final(self).clients@ == with_client(old(self).clients@, c),
            final(self).games@ == old(self).games@,
            final(self).client_count == old(self).client_count,
            final(self).game_count == old(self).game_count,
    {
        put_client(&mut self.clients, c);
    }
}

/// The game this player plays in changes on one update only: a game that this
/// player hosts is created, and the player's game becomes that game. A game
/// created by anyone else leaves the player's game as it was.
pub proof fn lemma_own_game_changes_only_by_hosting(
    before: Lobby,
    after: Lobby,
    own_id: u16,
    game_before: Option<u16>,
    game_after: Option<u16>,
    update: TcpUpdate,
    in_lobby: bool,
    hosting: bool,
    msgs: Seq<Seq<char>>,
    acts: Seq<(LobbyActionKind, u16, Seq<char>)>,
)
    requires
        update_applied(before, after, own_id, game_before, game_after, update, in_lobby, hosting, msgs, acts),
    ensures
        game_after != game_before ==> (update matches TcpUpdate::GameUpdate(GameUpdateData::Creation(g))
            && g.host_id == own_id && game_after == Some(g.game_id)),
        update matches TcpUpdate::GameUpdate(GameUpdateData::Creation(g)) ==> (g.host_id != own_id
            ==> game_after == game_before) && (g.host_id == own_id ==> game_after == Some(g.game_id)),
{
}

/// What the lobby's updates do to its clients: a connection makes the new
/// client known under its id and keeps every client with another id; a
/// departure removes the client with that id and keeps every other client; an
/// interruption marks the client idle and a reconnection marks it active, its
/// id, name and game flag kept; the game updates and chat lines keep the
/// clients as they were.
pub proof fn lemma_updates_on_clients(
    before: Lobby,
    after: Lobby,
    own_id: u16,
    game_before: Option<u16>,
    game_after: Option<u16>,
    update: TcpUpdate,
    in_lobby: bool,
    hosting: bool,
    msgs: Seq<Seq<char>>,
    acts: Seq<(LobbyActionKind, u16, Seq<char>)>,
)
    requires
        before.well_formed(),
        update_allowed(before, own_id, game_before, update),
        update_applied(before, after, own_id, game_before, game_after, update, in_lobby, hosting, msgs, acts),
    ensures
        update matches TcpUpdate::LobbyUpdate(LobbyUpdateData::Connect(c)) ==> {
            &&& after.clients@.contains(c)
            &&& forall|i: int|
                0 <= i < before.clients@.len() && before.clients@[i].client_id != c.client_id
                    ==> after.clients@.contains(#[trigger] before.clients@[i])
        },
        update matches TcpUpdate::LobbyUpdate(LobbyUpdateData::Disconnect(id)) ==> {
            &&& !has_client(after.clients@, id)
            &&& forall|i: int|
                0 <= i < before.clients@.len() && before.clients@[i].client_id != id
                    ==> after.clients@.contains(#[trigger] before.clients@[i])
        },
        update matches TcpUpdate::LobbyUpdate(LobbyUpdateData::ConnectionInterrupt(id)) ==> (
        forall|i: int|
            0 <= i < before.clients@.len() && #[trigger] before.clients@[i].client_id == id
                ==> after.clients@.contains(
                Client { status: ClientStatus::Idle(0), ..before.clients@[i] },
            )),
        update matches TcpUpdate::LobbyUpdate(LobbyUpdateData::Reconnect(id)) ==> (forall|i: int|
            0 <= i < before.clients@.len() && #[trigger] before.clients@[i].client_id == id
                ==> after.clients@.contains(Client { status: ClientStatus::Active, ..before.clients@[i] })),
        update is GameUpdate ==> after.clients@ == before.clients@,
        update matches TcpUpdate::LobbyUpdate(LobbyUpdateData::Message { .. }) ==> after.clients@
            == before.clients@,
{
    let cs = before.clients@;
    match update {
        TcpUpdate::LobbyUpdate(LobbyUpdateData::Connect(c)) => {
            if has_client(cs, c.client_id) {
                let k = client_index(cs, c.client_id);
                assert(after.clients@[k] == c);
                assert forall|i: int|
                    0 <= i < cs.len() && cs[i].client_id != c.client_id implies after.clients@.contains(
                    #[trigger] cs[i],
                ) by {
                    assert(after.clients@[i] == cs[i]);
                }
            } else {
                assert(after.clients@[cs.len() as int] == c);
                assert forall|i: int|
                    0 <= i < cs.len() && cs[i].client_id != c.client_id implies after.clients@.contains(
                    #[trigger] cs[i],
                ) by {
                    assert(after.clients@[i] == cs[i]);
                }
            }
        },
        TcpUpdate::LobbyUpdate(LobbyUpdateData::Disconnect(id)) => {
            let k = client_index(cs, id);
            assert(cs[k].client_id == id);
            assert(!has_client(after.clients@, id)) by {
                if has_client(after.clients@, id) {
                    let j = choose|j: int| 0 <= j < after.clients@.len() && after.clients@[j].client_id == id;
                    if j < k {
                        assert(cs[j].client_id == id);
                    } else {
                        assert(cs[j + 1].client_id == id);
                    }
                }
            }
            assert forall|i: int|
                0 <= i < cs.len() && cs[i].client_id != id implies after.clients@.contains(#[trigger] cs[i]) by {
                if i < k {
                    assert(after.clients@[i] == cs[i]);
                } else {
                    assert(i != k);
                    assert(after.clients@[i - 1] == cs[i]);
                }
            }
        },
        TcpUpdate::LobbyUpdate(LobbyUpdateData::ConnectionInterrupt(id)) => {
            assert forall|i: int|
                0 <= i < cs.len() && #[trigger] cs[i].client_id == id implies after.clients@.contains(
                Client { status: ClientStatus::Idle(0), ..cs[i] },
            ) by {
                let k = client_index(cs, id);
                assert(cs[k].client_id == id);
                assert(k == i);
                assert(after.clients@[k] == Client { status: ClientStatus::Idle(0), ..cs[i] });
            }
        },
        TcpUpdate::LobbyUpdate(LobbyUpdateData::Reconnect(id)) => {
            assert forall|i: int|
                0 <= i < cs.len() && #[trigger] cs[i].client_id == id implies after.clients@.contains(
                Client { status: ClientStatus::Active, ..cs[i] },
            ) by {
                let k = client_index(cs, id);
                assert(cs[k].client_id == id);
                assert(k == i);
                assert(after.clients@[k] == Client { status: ClientStatus::Active, ..cs[i] });
            }
        },
        _ => {},
    }
}

/// What the game updates do to the lobby's games: a created game becomes known
/// and every game with another id stays; a deleted game is gone and every
/// other game stays; the lobby's own updates keep the games as they were.
pub proof fn lemma_updates_on_games(
    before: Lobby,
    after: Lobby,
    own_id: u16,
    game_before: Option<u16>,
    game_after: Option<u16>,
    update: TcpUpdate,
    in_lobby: bool,
    hosting: bool,
    msgs: Seq<Seq<char>>,
    acts: Seq<(LobbyActionKind, u16, Seq<char>)>,
)
    requires
        before.well_formed(),
        update_allowed(before, own_id, game_before, update),
        update_applied(before, after, own_id, game_before, game_after, update, in_lobby, hosting, msgs, acts),
    ensures
        update matches TcpUpdate::GameUpdate(GameUpdateData::Creation(g)) ==> {
            &&& after.games@.contains(g)
            &&& forall|i: int|
                0 <= i < before.games@.len() && before.games@[i].game_id != g.game_id
                    ==> after.games@.contains(#[trigger] before.games@[i])
        },
        update matches TcpUpdate::GameUpdate(GameUpdateData::Deletion(id)) ==> {
            &&& !has_game(after.games@, id)
            &&& forall|i: int|
                0 <= i < before.games@.len() && before.games@[i].game_id != id
                    ==> after.games@.contains(#[trigger] before.games@[i])
        },
        update is LobbyUpdate ==> after.games@ == before.games@,
{
    let gs = before.games@;
    match update {
        TcpUpdate::GameUpdate(GameUpdateData::Creation(g)) => {
            if has_game(gs, g.game_id) {
                let k = game_index(gs, g.game_id);
                assert(after.games@[k] == g);
            } else {
                assert(after.games@[gs.len() as int] == g);
            }
            assert forall|i: int|
                0 <= i < gs.len() && gs[i].game_id != g.game_id implies after.games@.contains(#[trigger] gs[i]) by {
                assert(after.games@[i] == gs[i]);
            }
        },
        TcpUpdate::GameUpdate(GameUpdateData::Deletion(id)) => {
            let k = game_index(gs, id);
            assert(gs[k].game_id == id);
            assert(!has_game(after.games@, id)) by {
                if has_game(after.games@, id) {
                    let j = choose|j: int| 0 <= j < after.games@.len() && after.games@[j].game_id == id;
                    if j < k {
                        assert(gs[j].game_id == id);
                    } else {
                        assert(gs[j + 1].game_id == id);
                    }
                }
            }
            assert forall|i: int|
                0 <= i < gs.len() && gs[i].game_id != id implies after.games@.contains(#[trigger] gs[i]) by {
                if i < k {
                    assert(after.games@[i] == gs[i]);
                } else {
                    assert(after.games@[i - 1] == gs[i]);
                }
            }
        },
        _ => {},
    }
}

/// The clients after each of `new` is recorded under its id, in order.
pub open spec fn with_clients(cs: Seq<Client>, new: Seq<Client>) -> Seq<Client>
    decreases new.len(),
{
    if new.len() == 0 {
        cs
    } else {
        with_client(with_clients(cs, new.drop_last()), new.last())
    }
}

/// Clients with distinct ids, recorded one after another into no clients,
/// are exactly those clients, in order.
pub proof fn lemma_with_distinct_clients(new: Seq<Client>)
    requires
        unique_client_ids(new),
    ensures
        with_clients(Seq::empty(), new) == new,
    decreases new.len(),
{
    if new.len() > 0 {
        let front = new.drop_last();
        assert(unique_client_ids(front));
        lemma_with_distinct_clients(front);
        assert(!has_client(front, new.last().client_id)) by {
            if has_client(front, new.last().client_id) {
                let i = choose|i: int| 0 <= i < front.len() && front[i].client_id == new.last().client_id;
                assert(new[i].client_id == new[new.len() - 1].client_id);
            }
        }
        assert(front.push(new.last()) =~= new);
    }
}

/// The lobby a client sees once it has joined: the accepted answer's lobby,
/// with each client that the server announced after the answer recorded under
/// its id, in the order they came. Announced clients with distinct ids, after
/// an answer that lists no clients, make up exactly the lobby's clients.
pub fn join_lobby(response: LobbyConnectionAcceptResponse, announced: Vec<Client>) -> (lobby: Lobby)
    requires
        response.lobby.well_formed(),
    ensures
        lobby.well_formed(),
        lobby.client_count == response.lobby.client_count,
        lobby.game_count == response.lobby.game_count,
        lobby.games@ == response.lobby.games@,
        lobby.clients@ == with_clients(response.lobby.clients@, announced@),
        response.lobby.clients@.len() == 0 && unique_client_ids(announced@) ==> lobby.clients@
            == announced@,
{
    let mut lobby = response.lobby;
    let ghost l0 = lobby;
    let ghost a0 = announced@;
    let mut rest = announced;
    while rest.len() > 0
        invariant
            rest@.len() <= a0.len(),
            rest@ == a0.skip(a0.len() - rest@.len()),
            lobby.well_formed(),
            lobby.client_count == l0.client_count,
            lobby.game_count == l0.game_count,
            lobby.games@ == l0.games@,
            lobby.clients@ == with_clients(l0.clients@, a0.take(a0.len() - rest@.len())),
        decreases rest@.len(),
    {
        let ghost k = a0.len() - rest@.len();
        assert(a0.take(k + 1).drop_last() =~= a0.take(k));
        assert(a0[k] == rest@[0]);
        let c = rest.remove(0);
        lobby.insert_client(c);
        assert(rest@ =~= a0.skip(k + 1));
    }
    assert(a0.take(a0.len() as int) =~= a0);
    proof {
        if l0.clients@.len() == 0 && unique_client_ids(a0) {
            assert(l0.clients@ =~= Seq::<Client>::empty());
            lemma_with_distinct_clients(a0);
        }
    }
    lobby
}

/// An action, as plain values, per action of a list.
pub open spec fn action_views(v: Seq<LobbyAction>) -> Seq<(LobbyActionKind, u16, Seq<char>)> {
    v.map_values(|a: LobbyAction| action_view(a))
}

/// Step `i` of a trace applies update `i`: `lobbies[i + 1]` and
/// `games[i + 1]` follow from `lobbies[i]` and `games[i]` with the chat
/// lines `msgs[i]` and the actions `acts[i]`.
pub open spec fn trace_step(
    lobbies: Seq<Lobby>,
    games: Seq<Option<u16>>,
    msgs: Seq<Seq<Seq<char>>>,
    acts: Seq<Seq<(LobbyActionKind, u16, Seq<char>)>>,
    own_id: u16,
    updates: Seq<TcpUpdate>,
    in_lobby: bool,
    hosting: bool,
    i: int,
) -> bool {
    update_applied(
        lobbies[i],
        lobbies[i + 1],
        own_id,
        games[i],
        games[i + 1],
        updates[i],
        in_lobby,
        hosting,
        msgs[i],
        acts[i],
    )
}

/// The states, chat lines and actions of applying the first `n` updates in
/// order, from `lobby` and `own_game`.
pub open spec fn is_trace(
    lobby: Lobby,
    own_game: Option<u16>,
    own_id: u16,
    updates: Seq<TcpUpdate>,
    in_lobby: bool,
    hosting: bool,
    lobbies: Seq<Lobby>,
    games: Seq<Option<u16>>,
    msgs: Seq<Seq<Seq<char>>>,
    acts: Seq<Seq<(LobbyActionKind, u16, Seq<char>)>>,
    n: int,
) -> bool {
    &&& 0 <= n <= updates.len()
    &&& lobbies.len() == n + 1
    &&& games.len() == n + 1
    &&& msgs.len() == n
    &&& acts.len() == n
    &&& lobbies[0] == lobby
    &&& games[0] == own_game
    &&& forall|i: int|
        0 <= i < n ==> #[trigger] trace_step(lobbies, games, msgs, acts, own_id, updates, in_lobby, hosting, i)
}

/// Whether each update of a batch can be applied to the state that the
/// updates before it lead to.
pub open spec fn updates_allowed(
    lobby: Lobby,
    own_game: Option<u16>,
    own_id: u16,
    updates: Seq<TcpUpdate>,
    in_lobby: bool,
    hosting: bool,
) -> bool {
    forall|
        lobbies: Seq<Lobby>,
        games: Seq<Option<u16>>,
        msgs: Seq<Seq<Seq<char>>>,
        acts: Seq<Seq<(LobbyActionKind, u16, Seq<char>)>>,
        n: int,
    |
        #[trigger] is_trace(lobby, own_game, own_id, updates, in_lobby, hosting, lobbies, games, msgs, acts, n)
            && n < updates.len() ==> update_allowed(lobbies[n], own_id, games[n], updates[n])
}

/// Applies the updates that arrived since the last frame, in the order they
/// arrived. Their chat lines are appended to `pending`, in order, and their
/// actions returned, in order; nothing else of `pending` changes.
pub fn apply_lobby_updates(
    lobby: &mut Lobby,
    own_id: u16,
    own_game: &mut Option<u16>,
    updates: Vec<TcpUpdate>,
    in_lobby: bool,
    hosting: bool,
    pending: &mut Vec<String>,
) -> (actions: Vec<LobbyAction>)
    requires
        old(lobby).well_formed(),
        updates_allowed(*old(lobby), *old(own_game), own_id, updates@, in_lobby, hosting),
    ensures
        final(lobby).well_formed(),
        exists|
            lobbies: Seq<Lobby>,
            games: Seq<Option<u16>>,
            msgs: Seq<Seq<Seq<char>>>,
            acts: Seq<Seq<(LobbyActionKind, u16, Seq<char>)>>,
        |
            {
                &&& is_trace(
                    *old(lobby),
                    *old(own_game),
                    own_id,
                    updates@,
                    in_lobby,
                    hosting,
                    lobbies,
                    games,
                    msgs,
                    acts,
                    updates@.len() as int,
                )
                &&& *final(lobby) == lobbies[updates@.len() as int]
                &&& *final(own_game) == games[updates@.len() as int]
                &&& texts(final(pending)@) == texts(old(pending)@) + msgs.flatten()
                &&& action_views(actions@) == acts.flatten()
            },
{
    let ghost all = updates@;
    let ghost l0 = *lobby;
    let ghost g0 = *own_game;
    let ghost p0 = texts(pending@);
    let ghost mut lobbies: Seq<Lobby> = seq![*lobby];
    let ghost mut games: Seq<Option<u16>> = seq![*own_game];
    let ghost mut msgs: Seq<Seq<Seq<char>>> = Seq::empty();
    let ghost mut acts: Seq<Seq<(LobbyActionKind, u16, Seq<char>)>> = Seq::empty();
    let mut updates = updates;
    let mut actions: Vec<LobbyAction> = Vec::new();
    let n = updates.len();
    let mut i: usize = 0;
    while i < n
        invariant
            n == all.len(),
            i <= n,
            updates@ == all.skip(i as int),
            lobby.well_formed(),
            updates_allowed(l0, g0, own_id, all, in_lobby, hosting),
            is_trace(l0, g0, own_id, all, in_lobby, hosting, lobbies, games, msgs, acts, i as int),
            *lobby == lobbies[i as int],
            *own_game == games[i as int],
            texts(pending@) == p0 + msgs.flatten(),
            action_views(actions@) == acts.flatten(),
        decreases n - i,
    {
        assert(updates@.len() > 0);
        let u = updates.remove(0);
        assert(u == all[i as int]);
        assert(updates@ =~= all.skip(i + 1));
        assert(update_allowed(lobbies[i as int], own_id, games[i as int], all[i as int]));
        let e = get_lobby_events(lobby, own_id, own_game, u, in_lobby, hosting);
        let ghost m = messages_view(e);
        let ghost a = actions_view(e);
        let ghost old_lobbies = lobbies;
        let ghost old_games = games;
        let ghost old_msgs = msgs;
        let ghost old_acts = acts;
        proof {
            lobbies = lobbies.push(*lobby);
            games = games.push(*own_game);
            msgs = msgs.push(m);
            acts = acts.push(a);
            old_msgs.lemma_flatten_push(m);
            old_acts.lemma_flatten_push(a);
            assert forall|j: int| 0 <= j < i + 1 implies #[trigger] trace_step(
                lobbies,
                games,
                msgs,
                acts,
                own_id,
                all,
                in_lobby,
                hosting,
                j,
            ) by {
                if j < i {
                    assert(trace_step(old_lobbies, old_games, old_msgs, old_acts, own_id, all, in_lobby, hosting, j));
                    assert(lobbies[j] == old_lobbies[j] && lobbies[j + 1] == old_lobbies[j + 1]);
                    assert(games[j] == old_games[j] && games[j + 1] == old_games[j + 1]);
                    assert(msgs[j] == old_msgs[j] && acts[j] == old_acts[j]);
                }
            }
        }
        let LobbyEvents { messages, actions: new_actions } = e;
        let mut k: usize = 0;
        let ghost pm = texts(pending@);
        while k < messages.len()
            invariant
                k <= messages@.len(),
                texts(messages@) == m,
                texts(pending@) == pm + m.take(k as int),
            decreases messages@.len() - k,
        {
            let ghost before = pending@;
            pending.push(messages[k].clone());
            assert(texts(pending@) =~= texts(before).push(messages@[k as int]@));
            k = k + 1;
            assert(m.take(k as int) =~= m.take(k - 1).push(m[k - 1]));
        }
        assert(m.take(k as int) =~= m);
        let ghost pa = action_views(actions@);
        let mut j: usize = 0;
        while j < new_actions.len()
            invariant
                j <= new_actions@.len(),
                action_views(new_actions@) == a,
                action_views(actions@) == pa + a.take(j as int),
            decreases new_actions@.len() - j,
        {
            let ghost before = actions@;
            let x = &new_actions[j];
            actions.push(LobbyAction { kind: x.kind, id: x.id, text: x.text.clone() });
            assert(action_views(actions@) =~= action_views(before).push(action_view(new_actions@[j as int])));
            j = j + 1;
            assert(a.take(j as int) =~= a.take(j - 1).push(a[j - 1]));
        }
        assert(a.take(j as int) =~= a);
        i = i + 1;
    }
    actions
}

} // verus!

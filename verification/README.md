# yggdrasil

The rules of the Yggdrasil game's lobby and chat, verified with Verus.

- `src/package.rs`, `src/lobby.rs`, `src/client.rs`, `src/server.rs`: the lobby
  protocol — package codes, how clients, games and answers are written and read,
  the join handshake, and what the server forwards to each client.
- `src/lobby_events.rs`: how a client keeps its picture of the lobby current.
- `src/commands.rs`, `src/settings.rs`, `src/chat.rs`: chat commands, what they
  do to the settings, line editing and the bounded chat history.
- `src/input.rs`: walking animations, camera and chat switches, debug shortcuts.
- `src/bytes.rs`, `src/text.rs`: byte order and text conversions from std.
- `app/`: the network client and the server's per-connection task (tokio)
  around the library. The server's manager of clients and games is not part of
  this project, so `app/server.rs` takes it as an argument.

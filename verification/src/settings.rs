//! The player's settings and what each command does to them.
use vstd::prelude::*;

use crate::commands::{GameCommand, SettingToggle, SettingValue};

verus! {

/// The settings of the game.
#[derive(Debug, Clone, PartialEq, Eq)]
pub struct Settings {
    pub local_lobby: bool,
    pub music_enabled: bool,
    pub sfx_enabled: bool,
    pub hitboxes_enabled: bool,
    pub debug_hud_enabled: bool,
    pub lobby_url: String,
}

/// What the game does besides changing the settings when it runs a command.
#[derive(Debug, Clone, PartialEq, Eq)]
pub struct CommandEffects {
    /// Pause or resume every playing music.
    pub toggle_music: bool,
    /// Switch the drawing of hitboxes.
    pub toggle_debug_render: bool,
    /// Show (`Some(true)`) or hide (`Some(false)`) the debug display.
    pub debug_hud: Option<bool>,
    /// The line shown in the chat.
    pub message: String,
}

/// The text of a flag.
pub open spec fn bool_text(b: bool) -> Seq<char> {
    if b {
        "true"@
    } else {
        "false"@
    }
}

/// The chat line that reports a setting's new value.
pub open spec fn info_line(setting: Seq<char>, value: Seq<char>) -> Seq<char> {
    "[INFO] "@ + setting + " has been set to "@ + value
}

/// The chat line that reports an address that does not resolve.
pub open spec fn bad_url_line(addr: Seq<char>) -> Seq<char> {
    "[FAIL] "@ + addr + " is not a valid URL (of type 127.0.0.1:9983)"@
}

/// The settings after a command; `url_valid` tells whether the address of a
/// `lobby_url` command resolves.
pub open spec fn settings_after(s: Settings, c: GameCommand, url_valid: bool) -> Settings {
    match c {
        GameCommand::Toggle(t) => match t {
            SettingToggle::LobbyMode => Settings { local_lobby: !s.local_lobby, ..s },
            SettingToggle::Music => Settings { music_enabled: !s.music_enabled, ..s },
            SettingToggle::Sfx => Settings { sfx_enabled: !s.sfx_enabled, ..s },
            SettingToggle::Hitboxes => Settings { hitboxes_enabled: !s.hitboxes_enabled, ..s },
            SettingToggle::Debug => Settings { debug_hud_enabled: !s.debug_hud_enabled, ..s },
        },
        GameCommand::Assign(v) => match v {
            SettingValue::LobbyUrl(addr) => if url_valid {
                Settings { lobby_url: addr, ..s }
            } else {
                s
            },
            SettingValue::LobbyMode(b) => Settings { local_lobby: b, ..s },
        },
    }
}

/// The chat line that a command leaves, given the settings after it.
pub open spec fn command_line(after: Settings, c: GameCommand, url_valid: bool) -> Seq<char> {
    match c {
        GameCommand::Toggle(t) => match t {
            SettingToggle::LobbyMode => info_line("local_lobby"@, bool_text(after.local_lobby)),
            SettingToggle::Music => info_line("music_enabled"@, bool_text(after.music_enabled)),
            SettingToggle::Sfx => info_line("sfx_enabled"@, bool_text(after.sfx_enabled)),
            SettingToggle::Hitboxes => info_line(
                "hitboxes_enabled"@,
                bool_text(after.hitboxes_enabled),
            ),
            SettingToggle::Debug => info_line(
                "debug_hud_enabled"@,
                bool_text(after.debug_hud_enabled),
            ),
        },
        GameCommand::Assign(v) => match v {
            SettingValue::LobbyUrl(addr) => if url_valid {
                info_line("lobby_url"@, after.lobby_url@)
            } else {
                bad_url_line(addr@)
            },
            SettingValue::LobbyMode(_) => info_line("local_lobby"@, bool_text(after.local_lobby)),
        },
    }
}

/// `e` is what a command does besides changing the settings: the music and the
/// hitboxes are switched by their toggles, the debug display follows the new
/// flag when the game is running, and the chat line reports the change.
pub open spec fn effects_of(
    before: Settings,
    c: GameCommand,
    in_game: bool,
    url_valid: bool,
    e: CommandEffects,
) -> bool {
    &&& e.toggle_music == (c == GameCommand::Toggle(SettingToggle::Music))
    &&& e.toggle_debug_render == (c == GameCommand::Toggle(SettingToggle::Hitboxes))
    &&& e.debug_hud == (if c == GameCommand::Toggle(SettingToggle::Debug) && in_game {
        Some(!before.debug_hud_enabled)
    } else {
        None::<bool>
    })
    &&& e.message@ == command_line(settings_after(before, c, url_valid), c, url_valid)
}

/// The text of a flag.
fn bool_str(b: bool) -> (s: &'static str)
    ensures
        s@ == bool_text(b),
{
    if b {
        "true"
    } else {
        "false"
    }
}

/// The chat line that reports a setting's new value.
fn info_message(setting: &str, value: &str) -> (m: String)
    ensures
        m@ == info_line(setting@, value@),
{
    let mut m = String::new();
    m.append("[INFO] ");
    m.append(setting);
    m.append(" has been set to ");
    m.append(value);
    assert(m@ =~= info_line(setting@, value@));
    m
}

impl Settings {
    /// Runs one command: changes the settings and says what else to do.
    /// `in_game` tells whether a game is running, `url_valid` whether the
    /// address of a `lobby_url` command resolves.
    pub fn execute(&mut self, command: &GameCommand, in_game: bool, url_valid: bool) -> (e:
        CommandEffects)
        ensures
            *final(self) == settings_after(*old(self), *command, url_valid),
            effects_of(*old(self), *command, in_game, url_valid, e),
            *command matches GameCommand::Assign(SettingValue::LobbyMode(b)) ==> final(self).local_lobby == b,
    {
        let mut toggle_music = false;
        let mut toggle_debug_render = false;
        let mut debug_hud: Option<bool> = None;
        let message;
        match command {
            GameCommand::Toggle(setting) => match setting {
                SettingToggle::LobbyMode => {
                    self.local_lobby = !self.local_lobby;
                    message = info_message("local_lobby", bool_str(self.local_lobby));
                },
                SettingToggle::Music => {
                    self.music_enabled = !self.music_enabled;
                    toggle_music = true;
                    message = info_message("music_enabled", bool_str(self.music_enabled));
                },
                SettingToggle::Sfx => {
                    self.sfx_enabled = !self.sfx_enabled;
                    message = info_message("sfx_enabled", bool_str(self.sfx_enabled));
                },
                SettingToggle::Hitboxes => {
                    self.hitboxes_enabled = !self.hitboxes_enabled;
                    toggle_debug_render = true;
                    message = info_message("hitboxes_enabled", bool_str(self.hitboxes_enabled));
                },
                SettingToggle::Debug => {
                    self.debug_hud_enabled = !self.debug_hud_enabled;
                    if in_game {
                        debug_hud = Some(self.debug_hud_enabled);
                    }
                    message = info_message("debug_hud_enabled", bool_str(self.debug_hud_enabled));
                },
            },
            GameCommand::Assign(setting) => match setting {
                SettingValue::LobbyUrl(addr) => {
                    if url_valid {
                        self.lobby_url = addr.clone();
                        message = info_message("lobby_url", self.lobby_url.as_str());
                    } else {
                        let mut m = String::new();
                        m.append("[FAIL] ");
                        m.append(addr.as_str());
                        m.append(" is not a valid URL (of type 127.0.0.1:9983)");
                        assert(m@ =~= bad_url_line(addr@));
                        message = m;
                    }
                },
                SettingValue::LobbyMode(value) => {
                    self.local_lobby = *value;
                    message = info_message("local_lobby", bool_str(self.local_lobby));
                },
            },
        }
        CommandEffects { toggle_music, toggle_debug_render, debug_hud, message }
    }
}

/// Runs the commands in order; `urls_valid[i]` tells whether the address of
/// the `i`-th command resolves (it matters for `lobby_url` commands only).
pub fn execute_cmds(
    settings: &mut Settings,
    commands: &Vec<GameCommand>,
    in_game: bool,
    urls_valid: &Vec<bool>,
) -> (effects: Vec<CommandEffects>)
    requires
        urls_valid@.len() == commands@.len(),
    ensures
        effects@.len() == commands@.len(),
        forall|i: int|
            0 <= i < commands@.len() ==> effects_of(
                settings_through(*old(settings), commands@, urls_valid@, i),
                commands@[i],
                in_game,
                urls_valid@[i],
                #[trigger] effects@[i],
            ),
        *final(settings) == settings_through(*old(settings), commands@, urls_valid@, commands@.len() as int),
{
    let ghost start = *settings;
    let mut effects: Vec<CommandEffects> = Vec::new();
    let mut i: usize = 0;
    while i < commands.len()
        invariant
            i <= commands@.len(),
            urls_valid@.len() == commands@.len(),
            effects@.len() == i,
            *settings == settings_through(start, commands@, urls_valid@, i as int),
            forall|j: int|
                0 <= j < i ==> effects_of(
                    settings_through(start, commands@, urls_valid@, j),
                    commands@[j],
                    in_game,
                    urls_valid@[j],
                    #[trigger] effects@[j],
                ),
        decreases commands@.len() - i,
    {
        let e = settings.execute(&commands[i], in_game, urls_valid[i]);
        effects.push(e);
        i = i + 1;
    }
    effects
}

/// The settings after the first `n` commands.
pub open spec fn settings_through(s: Settings, cmds: Seq<GameCommand>, urls_valid: Seq<bool>, n: int) -> Settings
    decreases n,
{
    if n <= 0 {
        s
    } else {
        settings_after(settings_through(s, cmds, urls_valid, n - 1), cmds[n - 1], urls_valid[n - 1])
    }
}

/// Toggling a setting twice leaves the settings as they were.
pub proof fn lemma_toggle_twice(s: Settings, t: SettingToggle, url_valid: bool)
    ensures
        settings_after(
            settings_after(s, GameCommand::Toggle(t), url_valid),
            GameCommand::Toggle(t),
            url_valid,
        ) == s,
{
}

/// Setting the lobby mode twice to the same value is the same as setting it once.
pub proof fn lemma_set_lobby_mode_idempotent(s: Settings, b: bool, url_valid: bool)
    ensures
        ({
            let c = GameCommand::Assign(SettingValue::LobbyMode(b));
            settings_after(settings_after(s, c, url_valid), c, url_valid) == settings_after(
                s,
                c,
                url_valid,
            )
        }),
{
}

/// Setting the lobby mode to a value makes it that value, whatever it was
/// before; no other setting changes, and the chat line reports the value set.
pub proof fn lemma_assign_lobby_mode(s: Settings, b: bool, url_valid: bool)
    ensures
        ({
            let c = GameCommand::Assign(SettingValue::LobbyMode(b));
            let after = settings_after(s, c, url_valid);
            &&& after.local_lobby == b
            &&& after.music_enabled == s.music_enabled
            &&& after.sfx_enabled == s.sfx_enabled
            &&& after.hitboxes_enabled == s.hitboxes_enabled
            &&& after.debug_hud_enabled == s.debug_hud_enabled
            &&& after.lobby_url == s.lobby_url
            &&& command_line(after, c, url_valid) == "[INFO] local_lobby has been set to "@ + (if b {
                "true"@
            } else {
                "false"@
            })
        }),
{
    reveal_strlit("[INFO] ");
    reveal_strlit("local_lobby");
    reveal_strlit(" has been set to ");
    reveal_strlit("[INFO] local_lobby has been set to ");
    assert("[INFO] "@ + "local_lobby"@ + " has been set to "@ =~= "[INFO] local_lobby has been set to "@);
}

/// Setting the lobby's address makes it that address when it resolves and
/// changes nothing when it does not; no other setting changes.
pub proof fn lemma_assign_lobby_url(s: Settings, addr: String, url_valid: bool)
    ensures
        ({
            let after = settings_after(s, GameCommand::Assign(SettingValue::LobbyUrl(addr)), url_valid);
            &&& after.lobby_url == (if url_valid {
                addr
            } else {
                s.lobby_url
            })
            &&& after.local_lobby == s.local_lobby
            &&& after.music_enabled == s.music_enabled
            &&& after.sfx_enabled == s.sfx_enabled
            &&& after.hitboxes_enabled == s.hitboxes_enabled
            &&& after.debug_hud_enabled == s.debug_hud_enabled
        }),
{
}

/// A toggle flips exactly its own flag: the settings after it differ from
/// those before in that flag alone, which is the negation of its old value.
pub proof fn lemma_toggle_flips_one(s: Settings, t: SettingToggle, url_valid: bool)
    ensures
        ({
            let after = settings_after(s, GameCommand::Toggle(t), url_valid);
            &&& after.local_lobby == (s.local_lobby != (t == SettingToggle::LobbyMode))
            &&& after.music_enabled == (s.music_enabled != (t == SettingToggle::Music))
            &&& after.sfx_enabled == (s.sfx_enabled != (t == SettingToggle::Sfx))
            &&& after.hitboxes_enabled == (s.hitboxes_enabled != (t == SettingToggle::Hitboxes))
            &&& after.debug_hud_enabled == (s.debug_hud_enabled != (t == SettingToggle::Debug))
            &&& after.lobby_url == s.lobby_url
        }),
{
}

} // verus!

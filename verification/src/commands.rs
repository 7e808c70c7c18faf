//! Chat commands: how a typed line becomes a command.
use vstd::prelude::*;

use crate::text::{char_is_whitespace, chars_of, is_white_space};

verus! {

/// A setting that a command switches on or off.
#[derive(Debug, Clone, Copy, PartialEq, Eq, Structural)]
pub enum SettingToggle {
    LobbyMode,
    Music,
    Sfx,
    Hitboxes,
    Debug,
}

/// A setting that a command sets to a value.
#[derive(Debug, Clone, PartialEq, Eq)]
pub enum SettingValue {
    LobbyMode(bool),
    LobbyUrl(String),
}

/// A command typed into the chat.
#[derive(Debug, Clone, PartialEq, Eq)]
pub enum GameCommand {
    Toggle(SettingToggle),
    Assign(SettingValue),
}

/// The words of a text, the word being built being `cur`: maximal runs of
/// characters that are not white space.
pub open spec fn split_from(s: Seq<char>, cur: Seq<char>) -> Seq<Seq<char>>
    decreases s.len(),
{
    if s.len() == 0 {
        if cur.len() == 0 {
            seq![]
        } else {
            seq![cur]
        }
    } else if is_white_space(s[0]) {
        if cur.len() == 0 {
            split_from(s.drop_first(), seq![])
        } else {
            seq![cur] + split_from(s.drop_first(), seq![])
        }
    } else {
        split_from(s.drop_first(), cur.push(s[0]))
    }
}

/// The words of a text, as `str::split_whitespace` gives them.
pub open spec fn words(s: Seq<char>) -> Seq<Seq<char>> {
    split_from(s, seq![])
}

/// The words of `s`, in order.
fn split_whitespace(s: &Vec<char>, start: usize) -> (toks: Vec<Vec<char>>)
    requires
        start <= s@.len(),
    ensures
        toks@.map_values(|t: Vec<char>| t@) == words(s@.skip(start as int)),
{
    let mut toks: Vec<Vec<char>> = Vec::new();
    let mut cur: Vec<char> = Vec::new();
    let mut i: usize = start;
    while i < s.len()
        invariant
            start <= i <= s@.len(),
            words(s@.skip(start as int)) == toks@.map_values(|t: Vec<char>| t@) + split_from(
                s@.skip(i as int),
                cur@,
            ),
        decreases s@.len() - i,
    {
        let c = s[i];
        let ghost rest = s@.skip(i as int);
        assert(rest.drop_first() =~= s@.skip(i + 1));
        if char_is_whitespace(c) {
            if cur.len() > 0 {
                let ghost before = toks@.map_values(|t: Vec<char>| t@);
                toks.push(cur);
                cur = Vec::new();
                assert(toks@.map_values(|t: Vec<char>| t@) =~= before.push(
                    toks@[toks@.len() - 1]@,
                ));
                assert(cur@ =~= Seq::<char>::empty());
            } else {
                assert(cur@ =~= Seq::<char>::empty());
            }
        } else {
            cur.push(c);
        }
        i = i + 1;
    }
    assert(s@.skip(i as int) =~= Seq::<char>::empty());
    if cur.len() > 0 {
        let ghost before = toks@.map_values(|t: Vec<char>| t@);
        toks.push(cur);
        assert(toks@.map_values(|t: Vec<char>| t@) =~= before.push(toks@[toks@.len() - 1]@));
    }
    assert(toks@.map_values(|t: Vec<char>| t@) =~= words(s@.skip(start as int)));
    toks
}

/// Whether a word is the given keyword.
fn is_word(tok: &Vec<char>, kw: &str) -> (b: bool)
    ensures
        b == (tok@ == kw@),
{
    let k = chars_of(kw);
    if tok.len() != k.len() {
        return false;
    }
    let mut i: usize = 0;
    while i < k.len()
        invariant
            tok@.len() == k@.len(),
            k@ == kw@,
            i <= k@.len(),
            forall|j: int| 0 <= j < i ==> tok@[j] == k@[j],
        decreases k@.len() - i,
    {
        if tok[i] != k[i] {
            assert(tok@[i as int] != kw@[i as int]);
            return false;
        }
        i = i + 1;
    }
    assert(tok@ =~= k@);
    true
}

/// `r` failed with the message `msg`.
pub open spec fn fails_with(r: Result<GameCommand, &'static str>, msg: &'static str) -> bool {
    r matches Err(e) && e@ == msg@
}

/// `r` is the command `c`.
pub open spec fn is_command(r: Result<GameCommand, &'static str>, c: GameCommand) -> bool {
    r == Ok::<GameCommand, &'static str>(c)
}

/// The words that stand for a true value of the lobby mode.
pub open spec fn true_word(w: Seq<char>) -> bool {
    w == "true"@ || w == "1"@ || w == "True"@ || w == "Local"@ || w == "local"@
}

/// The words that stand for a false value of the lobby mode.
pub open spec fn false_word(w: Seq<char>) -> bool {
    w == "false"@ || w == "0"@ || w == "False"@ || w == "Normal"@ || w == "normal"@
}

/// What the words of a command line, after its first character, mean.
pub open spec fn command_of_words(w: Seq<Seq<char>>, r: Result<GameCommand, &'static str>) -> bool {
    if w.len() == 0 {
        fails_with(r, "No command has been entered!")
    } else if w[0] == "toggle"@ {
        if w.len() < 2 {
            fails_with(r, "Command 'toggle' requires a setting")
        } else if w[1] == "lobby_mode"@ {
            is_command(r, GameCommand::Toggle(SettingToggle::LobbyMode))
        } else if w[1] == "music"@ || w[1] == "music_enabled"@ {
            is_command(r, GameCommand::Toggle(SettingToggle::Music))
        } else if w[1] == "sfx"@ || w[1] == "sfx_enabled"@ {
            is_command(r, GameCommand::Toggle(SettingToggle::Sfx))
        } else if w[1] == "hitboxes"@ || w[1] == "hitboxes_enabled"@ {
            is_command(r, GameCommand::Toggle(SettingToggle::Hitboxes))
        } else if w[1] == "debug"@ {
            is_command(r, GameCommand::Toggle(SettingToggle::Debug))
        } else {
            fails_with(r, "Invalid setting")
        }
    } else if w[0] == "set"@ {
        if w.len() < 2 {
            fails_with(r, "Command 'set' requires a setting")
        } else if w[1] == "lobby_url"@ || w[1] == "lobby_mode"@ {
            if w.len() < 3 {
                fails_with(r, "Command 'set' needs a value")
            } else if w[1] == "lobby_url"@ {
                r matches Ok(GameCommand::Assign(SettingValue::LobbyUrl(url))) && url@ == w[2]
            } else if true_word(w[2]) {
                is_command(r, GameCommand::Assign(SettingValue::LobbyMode(true)))
            } else if false_word(w[2]) {
                is_command(r, GameCommand::Assign(SettingValue::LobbyMode(false)))
            } else {
                fails_with(r, "Value needs to be a boolean")
            }
        } else {
            fails_with(r, "Invalid setting")
        }
    } else {
        fails_with(r, "Invalid command")
    }
}

/// A string with the given characters.
fn string_of(chars: &Vec<char>) -> (s: String)
    ensures
        s@ == chars@,
{
    let mut s = String::new();
    let mut i: usize = 0;
    while i < chars.len()
        invariant
            i <= chars@.len(),
            s@ == chars@.take(i as int),
        decreases chars@.len() - i,
    {
        crate::text::push_char(&mut s, chars[i]);
        i = i + 1;
        assert(s@ =~= chars@.take(i as int));
    }
    assert(chars@.take(i as int) =~= chars@);
    s
}

impl GameCommand {
    /// The command that a chat line stands for. The line's first character
    /// (the command prefix) is dropped and the rest is split into words at
    /// white space; the first word names the command, the next its setting,
    /// the third its value.
    pub fn try_from(value: String) -> (r: Result<GameCommand, &'static str>)
        requires
            value@.len() > 0,
        ensures
            command_of_words(words(value@.drop_first()), r),
    {
        let chars = chars_of(value.as_str());
        let w = split_whitespace(&chars, 1);
        let ghost ws = w@.map_values(|t: Vec<char>| t@);
        assert(chars@.skip(1) =~= value@.drop_first());
        assert(ws.len() == w@.len());
        if w.len() == 0 {
            return Err("No command has been entered!");
        }
        assert(ws[0] == w@[0]@);
        if is_word(&w[0], "toggle") {
            if w.len() < 2 {
                return Err("Command 'toggle' requires a setting");
            }
            assert(ws[1] == w@[1]@);
            let setting = &w[1];
            if is_word(setting, "lobby_mode") {
                Ok(GameCommand::Toggle(SettingToggle::LobbyMode))
            } else if is_word(setting, "music") || is_word(setting, "music_enabled") {
                Ok(GameCommand::Toggle(SettingToggle::Music))
            } else if is_word(setting, "sfx") || is_word(setting, "sfx_enabled") {
                Ok(GameCommand::Toggle(SettingToggle::Sfx))
            } else if is_word(setting, "hitboxes") || is_word(setting, "hitboxes_enabled") {
                Ok(GameCommand::Toggle(SettingToggle::Hitboxes))
            } else if is_word(setting, "debug") {
                Ok(GameCommand::Toggle(SettingToggle::Debug))
            } else {
                Err("Invalid setting")
            }
        } else if is_word(&w[0], "set") {
            if w.len() < 2 {
                return Err("Command 'set' requires a setting");
            }
            assert(ws[1] == w@[1]@);
            let setting = &w[1];
            let is_url = is_word(setting, "lobby_url");
            if is_url || is_word(setting, "lobby_mode") {
                if w.len() < 3 {
                    return Err("Command 'set' needs a value");
                }
                assert(ws[2] == w@[2]@);
                let value = &w[2];
                if is_url {
                    Ok(GameCommand::Assign(SettingValue::LobbyUrl(string_of(value))))
                } else if is_word(value, "true") || is_word(value, "1") || is_word(value, "True")
                    || is_word(value, "Local") || is_word(value, "local") {
                    Ok(GameCommand::Assign(SettingValue::LobbyMode(true)))
                } else if is_word(value, "false") || is_word(value, "0") || is_word(value, "False")
                    || is_word(value, "Normal") || is_word(value, "normal") {
                    Ok(GameCommand::Assign(SettingValue::LobbyMode(false)))
                } else {
                    Err("Value needs to be a boolean")
                }
            } else {
                Err("Invalid setting")
            }
        } else {
            Err("Invalid command")
        }
    }
}

} // verus!

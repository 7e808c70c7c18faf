use yggdrasil::chat::{
    command_input, command_keys, dump_pending_messages, edit_line, get_chat_input, push_message, spawn_pending_messages,
    CommandInput, TextKey, MAX_CHAT_MESSAGES,
};
use yggdrasil::commands::{GameCommand, SettingToggle, SettingValue};
use yggdrasil::settings::{execute_cmds, CommandEffects, Settings};
use std::collections::VecDeque;

fn parse(s: &str) -> Result<GameCommand, &'static str> {
    GameCommand::try_from(s.to_string())
}

fn settings() -> Settings {
    Settings {
        local_lobby: false,
        music_enabled: true,
        sfx_enabled: true,
        hitboxes_enabled: false,
        debug_hud_enabled: false,
        lobby_url: "91.108.102.51:9983".to_string(),
    }
}

#[test]
fn toggle_commands() {
    assert_eq!(parse("/toggle lobby_mode"), Ok(GameCommand::Toggle(SettingToggle::LobbyMode)));
    assert_eq!(parse("/toggle music"), Ok(GameCommand::Toggle(SettingToggle::Music)));
    assert_eq!(parse("/toggle music_enabled"), Ok(GameCommand::Toggle(SettingToggle::Music)));
    assert_eq!(parse("/toggle sfx"), Ok(GameCommand::Toggle(SettingToggle::Sfx)));
    assert_eq!(parse("/toggle sfx_enabled"), Ok(GameCommand::Toggle(SettingToggle::Sfx)));
    assert_eq!(parse("/toggle hitboxes"), Ok(GameCommand::Toggle(SettingToggle::Hitboxes)));
    assert_eq!(parse("/toggle hitboxes_enabled"), Ok(GameCommand::Toggle(SettingToggle::Hitboxes)));
    assert_eq!(parse("/toggle debug"), Ok(GameCommand::Toggle(SettingToggle::Debug)));
    assert_eq!(parse("/  toggle \t debug  extra"), Ok(GameCommand::Toggle(SettingToggle::Debug)));
}

#[test]
fn set_commands() {
    assert_eq!(
        parse("/set lobby_url 127.0.0.1:9983"),
        Ok(GameCommand::Assign(SettingValue::LobbyUrl("127.0.0.1:9983".to_string())))
    );
    for v in ["true", "1", "True", "Local", "local"] {
        assert_eq!(parse(&format!("/set lobby_mode {v}")), Ok(GameCommand::Assign(SettingValue::LobbyMode(true))));
    }
    for v in ["false", "0", "False", "Normal", "normal"] {
        assert_eq!(parse(&format!("/set lobby_mode {v}")), Ok(GameCommand::Assign(SettingValue::LobbyMode(false))));
    }
}

#[test]
fn command_errors() {
    assert_eq!(parse("/"), Err("No command has been entered!"));
    assert_eq!(parse("/   "), Err("No command has been entered!"));
    assert_eq!(parse("/toggle"), Err("Command 'toggle' requires a setting"));
    assert_eq!(parse("/toggle volume"), Err("Invalid setting"));
    assert_eq!(parse("/set"), Err("Command 'set' requires a setting"));
    assert_eq!(parse("/set volume 3"), Err("Invalid setting"));
    assert_eq!(parse("/set lobby_url"), Err("Command 'set' needs a value"));
    assert_eq!(parse("/set lobby_mode maybe"), Err("Value needs to be a boolean"));
    assert_eq!(parse("/jump"), Err("Invalid command"));
    assert_eq!(parse("xtoggle music"), Ok(GameCommand::Toggle(SettingToggle::Music)));
}

#[test]
fn execute_toggle_messages() {
    let mut s = settings();
    let e = s.execute(&GameCommand::Toggle(SettingToggle::Music), true, false);
    assert!(!s.music_enabled);
    assert_eq!(
        e,
        CommandEffects {
            toggle_music: true,
            toggle_debug_render: false,
            debug_hud: None,
            message: "[INFO] music_enabled has been set to false".to_string(),
        }
    );
    let e = s.execute(&GameCommand::Toggle(SettingToggle::Hitboxes), false, false);
    assert!(s.hitboxes_enabled && e.toggle_debug_render);
    assert_eq!(e.message, "[INFO] hitboxes_enabled has been set to true");
    let e = s.execute(&GameCommand::Toggle(SettingToggle::Debug), true, false);
    assert_eq!(e.debug_hud, Some(true));
    assert_eq!(e.message, "[INFO] debug_hud_enabled has been set to true");
    let e = s.execute(&GameCommand::Toggle(SettingToggle::Debug), false, false);
    assert_eq!(e.debug_hud, None);
    assert!(!s.debug_hud_enabled);
    let e = s.execute(&GameCommand::Toggle(SettingToggle::Sfx), false, false);
    assert_eq!(e.message, "[INFO] sfx_enabled has been set to false");
    let e = s.execute(&GameCommand::Toggle(SettingToggle::LobbyMode), false, false);
    assert_eq!(e.message, "[INFO] local_lobby has been set to true");
}

#[test]
fn execute_set_commands() {
    let mut s = settings();
    let e = s.execute(&GameCommand::Assign(SettingValue::LobbyUrl("localhost:1".to_string())), false, true);
    assert_eq!(s.lobby_url, "localhost:1");
    assert_eq!(e.message, "[INFO] lobby_url has been set to localhost:1");
    let e = s.execute(&GameCommand::Assign(SettingValue::LobbyUrl("nowhere".to_string())), false, false);
    assert_eq!(s.lobby_url, "localhost:1");
    assert_eq!(e.message, "[FAIL] nowhere is not a valid URL (of type 127.0.0.1:9983)");
    let e = s.execute(&GameCommand::Assign(SettingValue::LobbyMode(true)), false, false);
    assert!(s.local_lobby);
    assert_eq!(e.message, "[INFO] local_lobby has been set to true");
}

#[test]
fn toggling_twice_restores_settings() {
    for t in [SettingToggle::LobbyMode, SettingToggle::Music, SettingToggle::Sfx, SettingToggle::Hitboxes, SettingToggle::Debug] {
        let mut s = settings();
        let cmds = vec![GameCommand::Toggle(t), GameCommand::Toggle(t)];
        let effects = execute_cmds(&mut s, &cmds, true, &vec![false, false]);
        assert_eq!(effects.len(), 2);
        assert_eq!(s, settings());
    }
}

#[test]
fn line_editing() {
    let mut b = String::from("ab");
    edit_line(&mut b, &TextKey::Space);
    assert_eq!(b, "ab ");
    edit_line(&mut b, &TextKey::Character("xy".to_string()));
    assert_eq!(b, "ab xy");
    edit_line(&mut b, &TextKey::Backspace);
    assert_eq!(b, "ab x");
    edit_line(&mut b, &TextKey::Enter);
    edit_line(&mut b, &TextKey::Other);
    assert_eq!(b, "ab x");
    let mut e = String::new();
    edit_line(&mut e, &TextKey::Backspace);
    assert_eq!(e, "");
}

#[test]
fn chat_keeps_fifty_lines() {
    let mut h: VecDeque<u32> = VecDeque::new();
    for i in 0..50u32 {
        assert_eq!(push_message(&mut h, i), None);
    }
    assert_eq!(h.len(), MAX_CHAT_MESSAGES);
    assert_eq!(push_message(&mut h, 50), Some(0));
    assert_eq!(h.len(), 50);
    assert_eq!(h.front(), Some(&1));
    assert_eq!(h.back(), Some(&50));
}

#[test]
fn command_line_keys() {
    let mut b = String::from("/toggle musi");
    assert_eq!(command_input(&mut b, &TextKey::Character("c".to_string())), CommandInput::Continue);
    assert_eq!(command_input(&mut b, &TextKey::Enter), CommandInput::Submit(Ok(GameCommand::Toggle(SettingToggle::Music))));
    assert_eq!(b, "");
    let mut b = String::from("/nope");
    assert_eq!(command_input(&mut b, &TextKey::Enter), CommandInput::Submit(Err("[FAIL] Invalid command".to_string())));
    let mut b = String::from("/");
    assert_eq!(command_input(&mut b, &TextKey::Backspace), CommandInput::Leave);
    let mut b = String::from("/a");
    assert_eq!(command_input(&mut b, &TextKey::Backspace), CommandInput::Continue);
    assert_eq!(b, "/");
}

#[test]
fn chat_keys_of_a_frame() {
    let mut history: VecDeque<String> = (0..49).map(|i| format!("m{i}")).collect();
    let mut buffer = String::from("h");
    let keys = vec![
        TextKey::Character("i".to_string()),
        TextKey::Enter,
        TextKey::Character("x".to_string()),
        TextKey::Space,
        TextKey::Enter,
        TextKey::Character("ab".to_string()),
        TextKey::Backspace,
        TextKey::Other,
    ];
    let out = get_chat_input(&mut buffer, &mut history, &keys);
    assert_eq!(buffer, "a");
    assert_eq!(history.len(), 50);
    assert_eq!(history.front().map(|s| s.as_str()), Some("m1"));
    assert_eq!(history[48], "hi");
    assert_eq!(history[49], "x ");
    assert_eq!(out.dropped, vec!["m0".to_string()]);
    assert_eq!(out.shown, Some("a".to_string()));
    let out = get_chat_input(&mut buffer, &mut history, &vec![TextKey::Enter]);
    assert_eq!(out.shown, Some("Start typing ...".to_string()));
    assert_eq!(buffer, "");
    let out = get_chat_input(&mut buffer, &mut history, &vec![]);
    assert_eq!(out.shown, None);
}

fn chars(s: &str) -> Vec<TextKey> {
    s.chars().map(|c| if c == ' ' { TextKey::Space } else { TextKey::Character(c.to_string()) }).collect()
}

#[test]
fn command_keys_submit_and_skip_the_rest() {
    let mut line = "/".to_string();
    let mut keys = chars("toggle music");
    keys.push(TextKey::Enter);
    keys.push(TextKey::Character("x".to_string()));
    keys.push(TextKey::Backspace);
    let mut pending = vec!["earlier".to_string()];
    let out = command_keys(&mut line, &keys, &mut pending);
    assert_eq!(out.command, Some(GameCommand::Toggle(SettingToggle::Music)));
    assert_eq!(out.shown.as_deref(), Some("Start typing..."));
    assert!(out.back_to_chat);
    assert_eq!(out.used, 13);
    assert_eq!(line, "");
    assert_eq!(pending, vec!["earlier".to_string()]);
}

#[test]
fn command_keys_failure_goes_to_pending() {
    let mut line = "/ju".to_string();
    let keys = vec![TextKey::Character("mp".to_string()), TextKey::Enter];
    let mut pending = Vec::new();
    let out = command_keys(&mut line, &keys, &mut pending);
    assert_eq!(out.command, None);
    assert!(out.back_to_chat);
    assert_eq!(out.used, 2);
    assert_eq!(pending, vec!["[FAIL] Invalid command".to_string()]);
    assert_eq!(line, "");
}

#[test]
fn command_keys_backspace_to_empty_leaves() {
    let mut line = "/t".to_string();
    let keys = vec![TextKey::Backspace, TextKey::Other, TextKey::Backspace, TextKey::Space, TextKey::Enter];
    let mut pending = Vec::new();
    let out = command_keys(&mut line, &keys, &mut pending);
    assert_eq!(out.used, 3);
    assert!(out.back_to_chat);
    assert_eq!(out.command, None);
    assert_eq!(out.shown.as_deref(), Some(""));
    assert_eq!(line, "");
    assert!(pending.is_empty());
}

#[test]
fn command_keys_without_end_keep_typing() {
    let mut line = "/se".to_string();
    let keys = vec![TextKey::Character("t".to_string()), TextKey::Other, TextKey::Space];
    let mut pending = Vec::new();
    let out = command_keys(&mut line, &keys, &mut pending);
    assert_eq!(out.used, 3);
    assert!(!out.back_to_chat);
    assert_eq!(out.command, None);
    assert_eq!(out.shown.as_deref(), Some("/set "));
    assert_eq!(line, "/set ");

    let mut line = "/x".to_string();
    let out = command_keys(&mut line, &vec![TextKey::Other], &mut pending);
    assert_eq!(out.shown, None);
    assert_eq!(out.used, 1);
    assert_eq!(line, "/x");
}

#[test]
fn pending_messages_keep_last_fifty() {
    let mut history: VecDeque<String> = (0..48).map(|i| format!("old {i}")).collect();
    let mut pending: Vec<String> = (0..5).map(|i| format!("new {i}")).collect();
    let dropped = spawn_pending_messages(&mut pending, &mut history);
    assert!(pending.is_empty());
    assert_eq!(history.len(), MAX_CHAT_MESSAGES);
    assert_eq!(dropped, vec!["old 0".to_string(), "old 1".to_string(), "old 2".to_string()]);
    assert_eq!(history.front().map(|s| s.as_str()), Some("old 3"));
    assert_eq!(history.back().map(|s| s.as_str()), Some("new 4"));
}

#[test]
fn pending_messages_into_short_history() {
    let mut history: VecDeque<String> = VecDeque::new();
    let mut pending = vec!["a".to_string(), "b".to_string()];
    let dropped = spawn_pending_messages(&mut pending, &mut history);
    assert!(dropped.is_empty() && pending.is_empty());
    assert_eq!(history, VecDeque::from(vec!["a".to_string(), "b".to_string()]));
}

#[test]
fn dumped_messages_are_not_bounded() {
    let mut history: VecDeque<String> = (0..50).map(|i| format!("old {i}")).collect();
    let mut pending = vec!["x".to_string(), "y".to_string()];
    dump_pending_messages(&mut pending, &mut history);
    assert!(pending.is_empty());
    assert_eq!(history.len(), 52);
    assert_eq!(history[50], "x");
    assert_eq!(history[51], "y");
}

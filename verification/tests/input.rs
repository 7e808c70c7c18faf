use yggdrasil::commands::{GameCommand, SettingToggle};
use yggdrasil::input::{toggle_debug, AnimationState, CameraState, ChatState, WalkDirection};

#[test]
fn directions_from_keys() {
    assert_eq!(WalkDirection::from_keys(true, false, false, false), Some(WalkDirection::Forward));
    assert_eq!(WalkDirection::from_keys(true, true, false, false), Some(WalkDirection::ForwardLeft));
    assert_eq!(WalkDirection::from_keys(true, false, false, true), Some(WalkDirection::ForwardRight));
    assert_eq!(WalkDirection::from_keys(true, true, false, true), Some(WalkDirection::Forward));
    assert_eq!(WalkDirection::from_keys(false, false, true, false), Some(WalkDirection::Back));
    assert_eq!(WalkDirection::from_keys(false, true, true, false), Some(WalkDirection::BackLeft));
    assert_eq!(WalkDirection::from_keys(false, false, true, true), Some(WalkDirection::BackRight));
    assert_eq!(WalkDirection::from_keys(false, true, false, false), Some(WalkDirection::Left));
    assert_eq!(WalkDirection::from_keys(false, false, false, true), Some(WalkDirection::Right));
    assert_eq!(WalkDirection::from_keys(false, true, false, true), Some(WalkDirection::Left));
    assert_eq!(WalkDirection::from_keys(true, false, true, false), None);
    assert_eq!(WalkDirection::from_keys(true, true, true, false), Some(WalkDirection::Left));
    assert_eq!(WalkDirection::from_keys(false, false, false, false), None);
}

#[test]
fn animation_from_input() {
    let none = [false; 5];
    assert_eq!(AnimationState::from_input(none, none, [true, false, false, false, false]), None);
    assert_eq!(
        AnimationState::from_input([true, false, false, false, false], none, [true, false, false, false, false]),
        Some(AnimationState::Walk(WalkDirection::Forward))
    );
    assert_eq!(
        AnimationState::from_input(none, [false, false, false, false, true], [true, true, false, false, true]),
        Some(AnimationState::Sprint(WalkDirection::ForwardLeft))
    );
    assert_eq!(
        AnimationState::from_input(none, [true, false, false, false, false], none),
        Some(AnimationState::Idle)
    );
}

#[test]
fn animation_nodes() {
    let nodes = vec!["idle", "sprint", "walk"];
    assert_eq!(AnimationState::Idle.get_node(&nodes), "idle");
    assert_eq!(AnimationState::Sprint(WalkDirection::Back).get_node(&nodes), "sprint");
    assert_eq!(AnimationState::Walk(WalkDirection::Left).get_node(&nodes), "walk");
}

#[test]
fn camera_and_chat_switches() {
    assert_eq!(CameraState::Normal.toggled(), CameraState::Eagle);
    assert_eq!(CameraState::Eagle.toggled().toggled(), CameraState::Eagle);
    assert_eq!(ChatState::Open.next_on_keys(true, true), Some(ChatState::Closed));
    assert_eq!(ChatState::Open.next_on_keys(false, true), None);
    assert_eq!(ChatState::Closed.next_on_keys(true, true), Some(ChatState::Open));
    assert_eq!(ChatState::Unpresent.next_on_keys(false, true), Some(ChatState::Open));
    assert_eq!(ChatState::Closed.next_on_keys(true, false), None);
}

#[test]
fn debug_shortcuts() {
    assert_eq!(toggle_debug(true, true, false, true), Some(GameCommand::Toggle(SettingToggle::Debug)));
    assert_eq!(toggle_debug(false, true, false, true), Some(GameCommand::Toggle(SettingToggle::Hitboxes)));
    assert_eq!(toggle_debug(false, false, true, true), Some(GameCommand::Toggle(SettingToggle::Hitboxes)));
    assert_eq!(toggle_debug(false, false, false, true), None);
    assert_eq!(toggle_debug(false, true, true, false), None);
}

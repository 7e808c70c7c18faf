//! Keyboard rules: walking animations, camera and chat switches, debug shortcuts.
use vstd::prelude::*;

use crate::commands::{GameCommand, SettingToggle};

verus! {

/// The direction a character walks in, relative to the camera.
#[derive(Debug, Clone, Copy, PartialEq, Eq, Structural)]
pub enum WalkDirection {
    Forward,
    Back,
    Left,
    Right,
    ForwardLeft,
    ForwardRight,
    BackLeft,
    BackRight,
}

/// What a character's animation shows.
#[derive(Debug, Clone, Copy, PartialEq, Eq, Structural)]
pub enum AnimationState {
    Idle,
    Walk(WalkDirection),
    Sprint(WalkDirection),
}

/// The direction that the held keys W, A, S, D ask for. Forward or back wins
/// when exactly one of W and S is held, turned left or right by exactly one of
/// A and D; otherwise A asks for left and D for right, and with both A and D
/// held it is left (the test reads `a || d && (!a || !d)`, which is `a || d`);
/// no key asks for nothing.
pub open spec fn direction_of_keys(w: bool, a: bool, s: bool, d: bool) -> Option<WalkDirection> {
    if w && !s {
        Some(
            if a && !d {
                WalkDirection::ForwardLeft
            } else if !a && d {
                WalkDirection::ForwardRight
            } else {
                WalkDirection::Forward
            },
        )
    } else if s && !w {
        Some(
            if a && !d {
                WalkDirection::BackLeft
            } else if !a && d {
                WalkDirection::BackRight
            } else {
                WalkDirection::Back
            },
        )
    } else if a {
        Some(WalkDirection::Left)
    } else if d {
        Some(WalkDirection::Right)
    } else {
        None
    }
}

impl WalkDirection {
    /// The direction that the held keys W, A, S, D ask for.
    pub fn from_keys(w: bool, a: bool, s: bool, d: bool) -> (r: Option<WalkDirection>)
        ensures
            r == direction_of_keys(w, a, s, d),
    {
        if w && !s {
            return Some(
                match (a, d) {
                    (true, false) => WalkDirection::ForwardLeft,
                    (false, true) => WalkDirection::ForwardRight,
                    _ => WalkDirection::Forward,
                },
            );
        } else if s && !w {
            return Some(
                match (a, d) {
                    (true, false) => WalkDirection::BackLeft,
                    (false, true) => WalkDirection::BackRight,
                    _ => WalkDirection::Back,
                },
            );
        } else if a || d && (!a || !d) {
            return Some(
                match a {
                    true => WalkDirection::Left,
                    false => WalkDirection::Right,
                },
            );
        }
        None
    }
}

/// The position of an animation among the loaded animations: idle first,
/// sprint second, walk third.
pub open spec fn node_index(s: AnimationState) -> int {
    match s {
        AnimationState::Idle => 0,
        AnimationState::Walk(_) => 2,
        AnimationState::Sprint(_) => 1,
    }
}

/// The animation that the keys ask for, when one of them changed: the keys
/// are, in order, W, A, S, D and left Shift. Nothing changes while no key is
/// pressed or released; otherwise the held keys give a direction, walked in or,
/// with Shift held, sprinted in, and no direction means standing idle.
pub open spec fn animation_of_keys(
    just_pressed: Seq<bool>,
    just_released: Seq<bool>,
    pressed: Seq<bool>,
) -> Option<AnimationState> {
    if exists|i: int| 0 <= i < 5 && (just_pressed[i] || just_released[i]) {
        Some(
            match direction_of_keys(pressed[0], pressed[1], pressed[2], pressed[3]) {
                Some(dir) => if pressed[4] {
                    AnimationState::Sprint(dir)
                } else {
                    AnimationState::Walk(dir)
                },
                None => AnimationState::Idle,
            },
        )
    } else {
        None
    }
}

impl AnimationState {
    /// The loaded animation that shows this state.
    pub fn get_node<T: Copy>(&self, animations: &Vec<T>) -> (node: T)
        requires
            node_index(*self) < animations@.len(),
        ensures
            node == animations@[node_index(*self)],
    {
        animations[match self {
            AnimationState::Idle => 0,
            AnimationState::Walk(_) => 2,
            AnimationState::Sprint(_) => 1,
        }]
    }

    /// The animation that the keys ask for (W, A, S, D, left Shift), or nothing
    /// when none of them was just pressed or released.
    pub fn from_input(just_pressed: [bool; 5], just_released: [bool; 5], pressed: [bool; 5]) -> (r:
        Option<AnimationState>)
        ensures
            r == animation_of_keys(just_pressed@, just_released@, pressed@),
    {
        let mut changed = false;
        let mut i: usize = 0;
        while i < 5
            invariant
                i <= 5,
                changed == exists|j: int| 0 <= j < i && (just_pressed@[j] || just_released@[j]),
            decreases 5 - i,
        {
            if just_pressed[i] || just_released[i] {
                changed = true;
            }
            i = i + 1;
        }
        if changed {
            let dir = WalkDirection::from_keys(pressed[0], pressed[1], pressed[2], pressed[3]);
            return Some(
                match dir {
                    Some(dir) => match pressed[4] {
                        true => AnimationState::Sprint(dir),
                        false => AnimationState::Walk(dir),
                    },
                    None => AnimationState::Idle,
                },
            );
        }
        None
    }
}

/// The view of the camera.
#[derive(Debug, Clone, Copy, PartialEq, Eq, Structural)]
pub enum CameraState {
    Normal,
    Eagle,
}

/// The other view.
pub open spec fn other_view(c: CameraState) -> CameraState {
    match c {
        CameraState::Normal => CameraState::Eagle,
        CameraState::Eagle => CameraState::Normal,
    }
}

impl CameraState {
    /// The other view, which the V key switches to.
    pub fn toggled(&self) -> (c: CameraState)
        ensures
            c == other_view(*self),
    {
        match self {
            CameraState::Normal => CameraState::Eagle,
            CameraState::Eagle => CameraState::Normal,
        }
    }
}

/// Whether the chat window is open, closed, or not there at all.
#[derive(Debug, Clone, Copy, PartialEq, Eq, Structural)]
pub enum ChatState {
    Open,
    Closed,
    Unpresent,
}

impl ChatState {
    /// Where the chat goes when keys are pressed: an open chat closes on
    /// Escape, any other opens on Enter; otherwise it stays.
    pub fn next_on_keys(&self, escape_pressed: bool, enter_pressed: bool) -> (next: Option<ChatState>)
        ensures
            *self == ChatState::Open ==> next == (if escape_pressed {
                Some(ChatState::Closed)
            } else {
                None::<ChatState>
            }),
            *self != ChatState::Open ==> next == (if enter_pressed {
                Some(ChatState::Open)
            } else {
                None::<ChatState>
            }),
    {
        if *self == ChatState::Open {
            if escape_pressed {
                return Some(ChatState::Closed);
            }
        } else {
            if enter_pressed {
                return Some(ChatState::Open);
            }
        }
        None
    }
}

/// The command that the debug shortcuts ask for: F3 switches the debug display;
/// otherwise B with Ctrl or Alt held switches the hitboxes.
pub fn toggle_debug(f3_pressed: bool, ctrl_held: bool, alt_held: bool, b_pressed: bool) -> (c: Option<
    GameCommand,
>)
    ensures
        c == (if f3_pressed {
            Some(GameCommand::Toggle(SettingToggle::Debug))
        } else if (ctrl_held || alt_held) && b_pressed {
            Some(GameCommand::Toggle(SettingToggle::Hitboxes))
        } else {
            None::<GameCommand>
        }),
{
    if f3_pressed {
        Some(GameCommand::Toggle(SettingToggle::Debug))
    } else if (ctrl_held || alt_held) && b_pressed {
        Some(GameCommand::Toggle(SettingToggle::Hitboxes))
    } else {
        None
    }
}

/// Switching the camera view changes it, and switching twice gives it back.
pub proof fn lemma_camera_toggle_twice(c: CameraState)
    ensures
        other_view(c) != c,
        other_view(other_view(c)) == c,
{
}

/// Each of the five keys (W, A, S, D, left Shift) counts: when any one of them
/// was just pressed or just released, an animation is picked; when none was,
/// none is. The animation picked depends on the held keys alone, not on which
/// key changed.
pub proof fn lemma_animation_on_any_key(
    just_pressed: Seq<bool>,
    just_released: Seq<bool>,
    pressed: Seq<bool>,
    other_pressed: Seq<bool>,
    other_released: Seq<bool>,
    i: int,
    j: int,
)
    requires
        0 <= i < 5,
        0 <= j < 5,
        just_pressed[i] || just_released[i],
        other_pressed[j] || other_released[j],
    ensures
        animation_of_keys(just_pressed, just_released, pressed) is Some,
        animation_of_keys(just_pressed, just_released, pressed) == animation_of_keys(
            other_pressed,
            other_released,
            pressed,
        ),
{
}

/// When none of the five keys was just pressed or released, no animation is
/// picked.
pub proof fn lemma_no_key_no_animation(just_pressed: Seq<bool>, just_released: Seq<bool>, pressed: Seq<bool>)
    requires
        forall|i: int| 0 <= i < 5 ==> !just_pressed[i] && !just_released[i],
    ensures
        animation_of_keys(just_pressed, just_released, pressed) is None,
{
}

/// Pressing only D, with W, A and S not held, walks right, or sprints right
/// with Shift held; pressing only A likewise goes left.
pub proof fn lemma_single_side_key(just_pressed: Seq<bool>, just_released: Seq<bool>, pressed: Seq<bool>, k: int)
    requires
        k == 1 || k == 3,
        just_pressed[k],
        !pressed[0],
        !pressed[2],
        pressed[k],
        !pressed[4 - k],
    ensures
        animation_of_keys(just_pressed, just_released, pressed) == Some(
            if pressed[4] {
                AnimationState::Sprint(if k == 1 { WalkDirection::Left } else { WalkDirection::Right })
            } else {
                AnimationState::Walk(if k == 1 { WalkDirection::Left } else { WalkDirection::Right })
            },
        ),
{
}

} // verus!

use vstd::prelude::*;

use crate::text::{contains, spec_contains, text_eq};

verus! {

/// The kind of controller the player last used.
#[derive(Clone, Copy, Debug, PartialEq, Eq, Structural)]
pub enum ControllerType {
    /// Nothing used yet.
    Unset,
    Keyboard,
    PlayStation,
    Xbox,
    /// A gamepad of an unrecognized kind.
    Unknown,
}

/// The kind of a gamepad, from its name: Xbox pads, PlayStation pads, and
/// Nintendo pads (shown with Xbox hints); anything else is unknown.
pub open spec fn spec_controller_from_joy_name(n: Seq<char>) -> ControllerType {
    if spec_contains(n, "xbox"@) {
        ControllerType::Xbox
    } else if spec_contains(n, "playstation"@) || spec_contains(n, "ps"@) || spec_contains(
        n,
        "dualsense"@,
    ) {
        ControllerType::PlayStation
    } else if spec_contains(n, "nintendo"@) || spec_contains(n, "switch"@) {
        ControllerType::Xbox
    } else {
        ControllerType::Unknown
    }
}

/// The kind of a gamepad, from the name the engine reports for it.
pub fn get_controller_type(joy_name: &str) -> (c: ControllerType)
    ensures
        c == spec_controller_from_joy_name(joy_name@),
{
    if contains(joy_name, "xbox") {
        ControllerType::Xbox
    } else if contains(joy_name, "playstation") || contains(joy_name, "ps") || contains(
        joy_name,
        "dualsense",
    ) {
        ControllerType::PlayStation
    } else if contains(joy_name, "nintendo") || contains(joy_name, "switch") {
        ControllerType::Xbox
    } else {
        ControllerType::Unknown
    }
}

/// The sprite frame showing the button for `hint` on `controller`; frame 0
/// for anything the hint table does not list.
pub open spec fn spec_hint_frame(controller: ControllerType, hint: Seq<char>) -> i32 {
    match controller {
        ControllerType::Keyboard => if hint == "interact"@ {
            15
        } else if hint == "attack"@ {
            10
        } else if hint == "jump"@ {
            9
        } else if hint == "dash"@ {
            11
        } else if hint == "up"@ {
            13
        } else {
            0
        },
        ControllerType::PlayStation => if hint == "interact"@ {
            0
        } else if hint == "attack"@ {
            2
        } else if hint == "jump"@ {
            1
        } else if hint == "dash"@ {
            3
        } else if hint == "up"@ {
            4
        } else {
            0
        },
        ControllerType::Xbox => if hint == "interact"@ {
            8
        } else if hint == "attack"@ {
            3
        } else if hint == "jump"@ {
            5
        } else if hint == "dash"@ {
            6
        } else if hint == "up"@ {
            4
        } else {
            0
        },
        _ => 0,
    }
}

/// The sprite frame showing the button for `hint` on `controller`.
pub fn get_hint_frame(controller: ControllerType, hint: &str) -> (f: i32)
    ensures
        f == spec_hint_frame(controller, hint@),
{
    let (interact, attack, jump, dash, up): (i32, i32, i32, i32, i32) = match controller {
        ControllerType::Keyboard => (15, 10, 9, 11, 13),
        ControllerType::PlayStation => (0, 2, 1, 3, 4),
        ControllerType::Xbox => (8, 3, 5, 6, 4),
        _ => {
            return 0;
        },
    };
    if text_eq(hint, "interact") {
        interact
    } else if text_eq(hint, "attack") {
        attack
    } else if text_eq(hint, "jump") {
        jump
    } else if text_eq(hint, "dash") {
        dash
    } else if text_eq(hint, "up") {
        up
    } else {
        0
    }
}

/// What the hint sprite shows after the hint changes to `hint`: only the
/// `interact` hint is shown, with its frame for `controller`; any other
/// hint hides the sprite.
pub fn on_hint_change(controller: ControllerType, hint: &str) -> (frame: Option<i32>)
    ensures
        hint@ == "interact"@ ==> frame == Some(spec_hint_frame(controller, hint@)),
        hint@ != "interact"@ ==> frame is None,
{
    if text_eq(hint, "interact") {
        Some(get_hint_frame(controller, hint))
    } else {
        None
    }
}

} // verus!

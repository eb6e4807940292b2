use vstd::prelude::*;

use crate::entities::door::DoorAnimation;

verus! {

/// What flipping a switch does.
#[derive(Clone, Copy)]
pub struct SwitchOutcome {
    /// The switch sprite is mirrored afterwards.
    pub flip_h: bool,
    /// The door animation to play and the open flag to store, when the
    /// switch has a door.
    pub door: Option<(DoorAnimation, bool)>,
}

/// What flipping a switch does.
pub open spec fn spec_on_switch(was_flipped: bool, has_door: bool) -> SwitchOutcome {
    SwitchOutcome {
        flip_h: !was_flipped,
        door: if !has_door {
            None
        } else if was_flipped {
            Some((DoorAnimation::Close, false))
        } else {
            Some((DoorAnimation::Open, true))
        },
    }
}

/// Flipping a switch whose sprite is mirrored (`was_flipped`) or not: the
/// sprite turns over; an attached door closes when the sprite was mirrored
/// and opens otherwise, and the door's open state is stored.
pub fn on_switch(was_flipped: bool, has_door: bool) -> (r: SwitchOutcome)
    ensures
        r == spec_on_switch(was_flipped, has_door),
{
    let door = if has_door {
        if was_flipped {
            Some((DoorAnimation::Close, false))
        } else {
            Some((DoorAnimation::Open, true))
        }
    } else {
        None
    };
    SwitchOutcome { flip_h: !was_flipped, door }
}

/// The door's stored open state always equals the switch sprite's mirrored
/// state after a flip, and flipping twice restores the sprite and the door.
pub proof fn lemma_switch_door_follows_sprite(was_flipped: bool)
    ensures
        spec_on_switch(was_flipped, true).door matches Some((_, open)) && open == spec_on_switch(
            was_flipped,
            true,
        ).flip_h,
        spec_on_switch(spec_on_switch(was_flipped, true).flip_h, true).flip_h == was_flipped,
        spec_on_switch(spec_on_switch(was_flipped, true).flip_h, true).door
            == spec_on_switch(!was_flipped, true).door,
{
}

/// The key a switch stores its door under: the scene's identifier and the
/// switch node's name, joined by a slash.
pub fn unique_uid(root_uid: &str, name: &str) -> (s: String)
    ensures
        s@ == root_uid@ + "/"@ + name@,
{
    let mut s = root_uid.to_owned();
    s.append("/");
    s.append(name);
    s
}

/// On entering the tree: a door stored as open is shown open and the
/// switch stays inert; otherwise the switch listens for the player.
pub fn on_ready(stored_open: bool) -> (listen: bool)
    ensures
        listen == !stored_open,
{
    !stored_open
}

} // verus!

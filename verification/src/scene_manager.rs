use vstd::prelude::*;

use crate::level_transition::Side;

verus! {

/// The screen extents the fade panel slides over, in pixels.
pub const FADE_WIDTH: i32 = 480;

pub const FADE_HEIGHT: i32 = 270;

/// Where the fade panel starts (and ends) for a transition through `dir`.
pub open spec fn spec_fade_position(dir: Side) -> (int, int) {
    match dir {
        Side::Left => (-480, 0),
        Side::Right => (480, 0),
        Side::Top => (0, -270),
        Side::Bottom => (0, 270),
    }
}

/// Where the fade panel starts (and ends) for a transition through `dir`:
/// one screen width or height off in that direction.
pub fn get_fade_position(dir: Side) -> (r: (i32, i32))
    ensures
        (r.0 as int, r.1 as int) == spec_fade_position(dir),
{
    match dir {
        Side::Left => (-FADE_WIDTH, 0),
        Side::Right => (FADE_WIDTH, 0),
        Side::Top => (0, -FADE_HEIGHT),
        Side::Bottom => (0, FADE_HEIGHT),
    }
}

/// Transitions through opposite sides fade from opposite directions.
pub proof fn lemma_opposite_sides_fade_oppositely(dir: Side)
    ensures
        spec_fade_position(dir.spec_opposite()).0 == -spec_fade_position(dir).0,
        spec_fade_position(dir.spec_opposite()).1 == -spec_fade_position(dir).1,
{
}

/// Where the pause menu is.
#[derive(Clone, Copy, Debug, PartialEq, Eq, Structural)]
pub enum PauseMenuState {
    /// Never created.
    Missing,
    /// Created and shown.
    Shown,
    /// Created and taken off the tree.
    Hidden,
}

/// What toggling pause does to the menu.
#[derive(Clone, Copy, Debug, PartialEq, Eq, Structural)]
pub enum PauseAction {
    /// Load the menu scene and add it to the tree.
    Create,
    /// Take the menu off the tree.
    Dismiss,
    /// Put the menu back on the tree.
    Show,
}

/// Toggling pause: the menu is created the first time, then taken off and
/// put back on the tree in turn.
pub fn toggle_pause(menu: PauseMenuState) -> (r: PauseAction)
    ensures
        menu == PauseMenuState::Missing ==> r == PauseAction::Create,
        menu == PauseMenuState::Shown ==> r == PauseAction::Dismiss,
        menu == PauseMenuState::Hidden ==> r == PauseAction::Show,
{
    match menu {
        PauseMenuState::Missing => PauseAction::Create,
        PauseMenuState::Shown => PauseAction::Dismiss,
        PauseMenuState::Hidden => PauseAction::Show,
    }
}

/// At the end of the game a shown pause menu is toggled away; otherwise nothing happens.
pub fn on_game_end(menu: PauseMenuState) -> (r: Option<PauseAction>)
    ensures
        menu == PauseMenuState::Shown ==> r == Some(PauseAction::Dismiss),
        menu != PauseMenuState::Shown ==> r is None,
{
    if menu == PauseMenuState::Shown {
        Some(toggle_pause(menu))
    } else {
        None
    }
}

} // verus!

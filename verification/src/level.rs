use vstd::prelude::*;

verus! {

/// The lighting theme of a level.
#[derive(Clone, Copy, PartialEq, Eq, Structural)]
pub enum SceneTheme {
    Light,
    Dark,
}

impl SceneTheme {
    /// The player's own light shines only in dark levels.
    pub fn player_light_enabled(&self) -> (on: bool)
        ensures
            on == (*self == SceneTheme::Dark),
    {
        match self {
            SceneTheme::Light => false,
            SceneTheme::Dark => true,
        }
    }
}

} // verus!

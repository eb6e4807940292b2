//! Game rules of the Forge platformer: the player's state machine, the
//! enemy decision logic, save slots and persistent flags, and the small
//! pieces of level, audio and entity logic that decide what the engine does.

pub mod math;
pub mod text;
pub mod managers;
pub mod states;
pub mod player;
pub mod monster;
pub mod level;
pub mod level_transition;
pub mod scene_manager;
pub mod transition_mark;
pub mod entities;

pub mod ability_pickup;
pub mod door;
pub mod dummy;
pub mod edge_detector;
pub mod input_hints;
pub mod switch;
pub mod audio_tirgger;

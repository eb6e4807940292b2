pub mod audio_manager;
pub mod save;
pub mod visual_effect;

use forge_lib::managers::audio_manager::{ui_stream, UIAudio, UiSounds};
use forge_lib::entities::audio_tirgger::AudioEffectType;
use forge_lib::managers::audio_manager::{
    get_next_track, get_track_player, plan_music, reverb_setting, MusicPlayer, ReverbSetting, Track,
};
use forge_lib::managers::save::{
    has_saved_point, save_path, PersistentData, SaveCommand, SaveError, SaveKey, SaveSlots, DEFAULT_SCENE,
};
use forge_lib::managers::visual_effect::VisualEffectType;

#[test]
fn save_paths_and_keys() {
    assert_eq!(save_path(2), "user://save_2.sav");
    assert_eq!(save_path(255), "user://save_255.sav");
    let mut s = SaveSlots::new();
    assert_eq!(s.get_save_path(), "user://save_1.sav");
    assert_eq!(s.unhandled_key_input(SaveKey::Key3), None);
    assert_eq!(s.current_slot, 3);
    assert_eq!(s.unhandled_key_input(SaveKey::Key0), Some(SaveCommand::CreateNewGame));
    assert_eq!(s.unhandled_key_input(SaveKey::Key8), Some(SaveCommand::SaveGame));
    assert_eq!(s.unhandled_key_input(SaveKey::Key9), Some(SaveCommand::LoadGame));
    assert_eq!(s.unhandled_key_input(SaveKey::Other), None);
    assert_eq!(s.current_slot, 3);
    assert_eq!(DEFAULT_SCENE, "uid://bowrs0wcn2oy6");
}

#[test]
fn new_game_refuses_taken_slot() {
    let mut s = SaveSlots::new();
    assert_eq!(s.start_on_slot(2, true), Err(SaveError::SlotTaken(2)));
    assert_eq!(s.current_slot, 1);
    assert_eq!(s.start_on_slot(2, false), Ok(()));
    assert_eq!(s.current_slot, 2);
    s.load_from_slot(3);
    assert_eq!(s.current_slot, 3);
}

#[test]
fn saved_point_checks_slots_zero_to_two() {
    assert!(!has_saved_point(&[false, false, false]));
    assert!(has_saved_point(&[false, false, true]));
    assert!(has_saved_point(&[true, false, false]));
}

#[test]
fn persistent_flags_read_back_what_was_written() {
    let mut d = PersistentData::new();
    assert_eq!(d.get("a/door"), None);
    assert!(!d.get_persisdent_data("a/door".to_string(), false));
    assert_eq!(d.get("a/door"), Some(false));
    d.set_persisdent_data("a/door".to_string(), true);
    assert!(d.get_persisdent_data("a/door".to_string(), false));
    d.set_persisdent_data("b/door".to_string(), false);
    let e = d.entries();
    assert_eq!(e, vec![("a/door".to_string(), true), ("b/door".to_string(), false)]);
    d.set_persisdent_data("a/door".to_string(), false);
    let e = d.entries();
    assert_eq!(e, vec![("a/door".to_string(), false), ("b/door".to_string(), false)]);
}

#[test]
fn music_tracks_alternate() {
    assert_eq!(get_next_track(Track::Unset), Track::First);
    assert_eq!(get_next_track(Track::First), Track::Last);
    assert_eq!(get_next_track(Track::Last), Track::First);
    assert_eq!(get_track_player(Track::Unset), MusicPlayer::Music);
    assert_eq!(get_track_player(Track::First), MusicPlayer::MusicBackup);
    assert_eq!(plan_music(Track::First, Some("res://a.ogg"), "res://a.ogg"), None);
    assert_eq!(plan_music(Track::First, Some("res://a.ogg"), "res://b.ogg"), Some(Track::Last));
    assert_eq!(plan_music(Track::Unset, None, "res://b.ogg"), Some(Track::First));
}

#[test]
fn reverb_sizes() {
    assert_eq!(reverb_setting(AudioEffectType::NoEffect), ReverbSetting::Disabled);
    assert_eq!(reverb_setting(AudioEffectType::SMALL), ReverbSetting::RoomSize(20));
    assert_eq!(reverb_setting(AudioEffectType::MEDUIM), ReverbSetting::RoomSize(50));
    assert_eq!(reverb_setting(AudioEffectType::LARGE), ReverbSetting::RoomSize(80));
    assert_eq!(VisualEffectType::Land.animation_name(), "land");
}

#[test]
fn ui_sounds_by_type() {
    let s = UiSounds { ui_bloop: Some(1), ui_error: None, ui_select: Some(3), ui_success: Some(4), ui_woosh: Some(5) };
    assert_eq!(*ui_stream(&s, UIAudio::Bloop), Some(1));
    assert_eq!(*ui_stream(&s, UIAudio::Error), None);
    assert_eq!(*ui_stream(&s, UIAudio::Woosh), Some(5));
    assert_eq!(*ui_stream(&s, UIAudio::Success), Some(4));
}

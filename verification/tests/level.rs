use forge_lib::level::SceneTheme;
use forge_lib::level_transition::{area_scale, Side};
use forge_lib::math::{sat_add, sat_sub, wrapi};
use forge_lib::scene_manager::{get_fade_position, on_game_end, toggle_pause, PauseAction, PauseMenuState};
use forge_lib::text::{contains, decimal, text_eq};
use forge_lib::transition_mark::{get_offset, on_new_scene_ready};

#[test]
fn fade_positions() {
    assert_eq!(get_fade_position(Side::Left), (-480, 0));
    assert_eq!(get_fade_position(Side::Right), (480, 0));
    assert_eq!(get_fade_position(Side::Top), (0, -270));
    assert_eq!(get_fade_position(Side::Bottom), (0, 270));
}

#[test]
fn transition_area_scales() {
    assert_eq!(area_scale(Side::Left, 3), (1, -3));
    assert_eq!(area_scale(Side::Right, 3), (-1, -3));
    assert_eq!(area_scale(Side::Bottom, 4), (-4, -1));
    assert_eq!(area_scale(Side::Top, 4), (-4, 1));
    assert_eq!(area_scale(Side::Top, i32::MIN), (2147483648, 1));
}

#[test]
fn markers_place_the_player() {
    assert_eq!(get_offset(false, (10.0f32, 20.0f32), (1.0, 2.0), Side::Left), (10.0, 2.0));
    assert_eq!(get_offset(false, (10.0f32, 20.0f32), (1.0, 2.0), Side::Bottom), (1.0, 20.0));
    assert_eq!(get_offset(true, (10.0f32, 20.0f32), (1.0, 2.0), Side::Bottom), (10.0, 20.0));
    assert_eq!(on_new_scene_ready("Door1", "Door2", false, (1, 1), (2, 2), Side::Top), None);
    assert_eq!(on_new_scene_ready("Door1", "Door1", false, (1, 1), (2, 2), Side::Top), Some((2, 1)));
}

#[test]
fn pause_menu_cycle() {
    assert_eq!(toggle_pause(PauseMenuState::Missing), PauseAction::Create);
    assert_eq!(toggle_pause(PauseMenuState::Shown), PauseAction::Dismiss);
    assert_eq!(toggle_pause(PauseMenuState::Hidden), PauseAction::Show);
    assert_eq!(on_game_end(PauseMenuState::Shown), Some(PauseAction::Dismiss));
    assert_eq!(on_game_end(PauseMenuState::Hidden), None);
    assert_eq!(on_game_end(PauseMenuState::Missing), None);
}

#[test]
fn theme_light() {
    assert!(SceneTheme::Dark.player_light_enabled());
    assert!(!SceneTheme::Light.player_light_enabled());
}

#[test]
fn wrapi_matches_godot() {
    assert_eq!(wrapi(2, 0, 2), 0);
    assert_eq!(wrapi(1, 0, 2), 1);
    assert_eq!(wrapi(-1, 0, 3), 2);
    assert_eq!(wrapi(7, 5, 5), 5);
    assert_eq!(wrapi(1, 0, -2), -1);
    assert_eq!(wrapi(-1, 0, -2), -1);
    assert_eq!(wrapi(2, 0, -2), 0);
    assert_eq!(wrapi(i64::MAX, i64::MIN, i64::MAX), i64::MIN);
}

#[test]
fn saturating_time() {
    assert_eq!(sat_add(i64::MAX, 1), i64::MAX);
    assert_eq!(sat_sub(i64::MIN, 1), i64::MIN);
    assert_eq!(sat_sub(10, 3), 7);
}

#[test]
fn text_helpers() {
    assert!(contains("dualsense edge", "sense"));
    assert!(contains("abc", ""));
    assert!(!contains("ab", "abc"));
    assert!(text_eq("é", "é"));
    assert!(!text_eq("a", "b"));
    assert_eq!(decimal(-305), "-305");
    assert_eq!(decimal(0), "0");
    assert_eq!(decimal(1_000_070), "1000070");
    assert_eq!(decimal(i64::MIN), i64::MIN.to_string());
    assert_eq!(decimal(i64::MAX), i64::MAX.to_string());
}

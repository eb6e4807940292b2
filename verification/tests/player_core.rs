use forge_lib::player::{tick_timers, ButtonState, PlayerCore, PolledInput, FRAME_EVENT_LIMIT};
use forge_lib::states::event::{InputAction, StateEvent, TimerName};
use forge_lib::states::idle::IdelState;
use forge_lib::states::{BodyFacts, PlayerEffect, PlayerState};

fn still() -> ButtonState {
    ButtonState { just_pressed: false, pressed: false, just_released: false }
}

fn no_input() -> PolledInput {
    PolledInput { jump: still(), attack: still(), down: still() }
}

fn body() -> BodyFacts {
    BodyFacts {
        axis: 0,
        on_floor: true,
        vertical_speed_low: true,
        rising_fast: false,
        not_rising: true,
        falling: false,
        on_one_way_platform: false,
    }
}

#[test]
fn frame_queues_input_then_physics_then_timeouts() {
    let mut p: PlayerCore<u32> = PlayerCore::new();
    p.start_timer(TimerName::Hurt, 10_000);
    p.start_timer(TimerName::Attack, 50_000);
    let mut input = no_input();
    input.jump = ButtonState { just_pressed: true, pressed: true, just_released: false };
    input.down = ButtonState { just_pressed: false, pressed: false, just_released: true };
    p.begin_frame(input, 16_000);
    let mut kinds = Vec::new();
    while let Some(e) = p.next_event() {
        kinds.push(match e {
            StateEvent::InputJustPressed { action: InputAction::Jump } => "jp_jump",
            StateEvent::InputPressed { action: InputAction::Jump } => "p_jump",
            StateEvent::InputJustRelease { action: InputAction::Down } => "jr_down",
            StateEvent::Physics { delta_us: 16_000 } => "physics",
            StateEvent::TimerTimeout { timer_name: TimerName::Hurt } => "hurt_timeout",
            _ => "other",
        });
    }
    assert_eq!(kinds, vec!["jp_jump", "p_jump", "jr_down", "physics", "hurt_timeout"]);
    assert_eq!(p.timers.len(), 1);
    assert_eq!(p.timers[0].1, 34_000);
}

#[test]
fn at_most_fifty_events_per_frame() {
    let mut p: PlayerCore<u32> = PlayerCore::new();
    for _ in 0..60 {
        p.event_queue.push_back(StateEvent::Heal);
    }
    p.begin_frame(no_input(), 1);
    let mut n = 0;
    while p.next_event().is_some() {
        n += 1;
    }
    assert_eq!(n, FRAME_EVENT_LIMIT);
    assert_eq!(p.event_queue.len(), 61 - 51);
    assert!(p.next_event().is_none());
    p.begin_frame(no_input(), 1);
    assert!(p.next_event().is_some());
}

#[test]
fn attack_state_timer_runs_out_into_idle() {
    let mut p: PlayerCore<u32> = PlayerCore::new();
    let _ = p.switch_state(PlayerState::Idle(IdelState::new()));
    p.end_frame(true, 16_000);
    let _ = p.handle(body(), StateEvent::InputJustPressed { action: InputAction::Attack });
    assert!(matches!(p.current_state, Some(PlayerState::Attack(_))));
    assert_eq!(p.timers.len(), 1);
    p.begin_frame(no_input(), 400_000);
    let mut switched = false;
    while let Some(e) = p.next_event() {
        let _ = p.handle(body(), e);
        if matches!(p.current_state, Some(PlayerState::Idle(_))) {
            switched = true;
        }
    }
    assert!(switched);
    assert!(p.timers.is_empty());
}

#[test]
fn invincibility_swallows_a_second_hit() {
    let mut p: PlayerCore<u32> = PlayerCore::new();
    let _ = p.switch_state(PlayerState::Idle(IdelState::new()));
    let _ = p.handle(body(), StateEvent::InputJustPressed { action: InputAction::Attack });
    let out = p.handle(body(), StateEvent::TakeDamage { damage: 4 });
    assert!(matches!(out[0], PlayerEffect::ApplyDamage(4)));
    assert!(p.is_invincible);
    let out = p.handle(body(), StateEvent::TakeDamage { damage: 5 });
    assert!(out.iter().all(|e| !matches!(e, PlayerEffect::ApplyDamage(_))));
    p.begin_frame(no_input(), 250_000);
    assert!(!p.is_invincible);
    assert_eq!(p.apply_damage(9), Some(9));
    assert_eq!(p.apply_damage(9), None);
}

#[test]
fn coyote_time_allows_a_late_jump() {
    let mut p: PlayerCore<u32> = PlayerCore::new();
    let _ = p.switch_state(PlayerState::Idle(IdelState::new()));
    p.end_frame(true, 16_000);
    p.end_frame(false, 50_000);
    assert_eq!(p.coyote_timer, 30_000);
    let out = p.handle(body(), StateEvent::InputJustPressed { action: InputAction::Jump });
    assert!(matches!(p.current_state, Some(PlayerState::Jump(_))));
    assert!(matches!(out[0], PlayerEffect::Launch(100)));
    p.end_frame(false, 50_000);
    assert_eq!(p.coyote_timer, 0);
}

#[test]
fn event_without_state_is_dropped() {
    let mut p: PlayerCore<u32> = PlayerCore::new();
    let out = p.handle(body(), StateEvent::InputJustPressed { action: InputAction::Attack });
    assert!(out.is_empty());
    assert!(p.current_state.is_none());
}

#[test]
fn tick_splits_running_and_expired() {
    let timers = vec![(TimerName::Attack, 5), (TimerName::Hurt, 20), (TimerName::Other("x".to_string()), 10)];
    let (kept, expired) = tick_timers(timers, 10);
    assert_eq!(kept.len(), 1);
    assert_eq!(kept[0].1, 10);
    assert!(matches!(expired[0], TimerName::Attack));
    assert!(matches!(&expired[1], TimerName::Other(s) if s == "x"));
}

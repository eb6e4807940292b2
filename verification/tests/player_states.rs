use forge_lib::states::attack::AttackState;
use forge_lib::states::crouch::CrouchState;
use forge_lib::states::crouch_attack::CrouchAttack;
use forge_lib::states::dash::DashState;
use forge_lib::states::die::DieState;
use forge_lib::states::event::{InputAction, StateEvent, TimerName};
use forge_lib::states::fall::FallState;
use forge_lib::states::hurt::HurtState;
use forge_lib::states::idle::IdelState;
use forge_lib::states::jump::JumpState;
use forge_lib::states::morph::MorphState;
use forge_lib::states::run::RunState;
use forge_lib::states::slam::SlamState;
use forge_lib::states::{BodyFacts, PlayerAnimation, PlayerContext, PlayerEffect, PlayerState, Speed};

fn body() -> BodyFacts {
    BodyFacts {
        axis: 0,
        on_floor: true,
        vertical_speed_low: true,
        rising_fast: false,
        not_rising: true,
        falling: false,
        on_one_way_platform: false,
    }
}

fn ctx(body: BodyFacts, coyote: bool) -> PlayerContext {
    PlayerContext { body, coyote_active: coyote }
}

fn pressed(a: InputAction) -> StateEvent<u32> {
    StateEvent::InputJustPressed { action: a }
}

#[test]
fn die_state_new_ignores_everything() {
    let mut d = DieState::new();
    let e: Vec<PlayerEffect<u32>> = d.enter();
    assert_eq!(e.len(), 2);
    assert!(matches!(e[0], PlayerEffect::SetHorizontalSpeed(Speed::Zero)));
    assert!(matches!(e[1], PlayerEffect::PlayAnimation(PlayerAnimation::Die)));
    let (next, eff) = d.handle_event(&ctx(body(), true), pressed(InputAction::Jump));
    assert!(next.is_none());
    assert!(eff.is_empty());
    let (next, eff) = d.handle_event(&ctx(body(), true), StateEvent::TakeDamage { damage: 5u32 });
    assert!(next.is_none());
    assert!(eff.is_empty());
}

#[test]
fn idle_jumps_only_with_coyote_time() {
    let mut s = IdelState::new();
    let (next, _) = s.handle_event(&ctx(body(), true), pressed(InputAction::Jump));
    assert!(matches!(next, Some(PlayerState::Jump(JumpState { velocity_percent: 100, jump_count: 0 }))));
    let (next, _) = s.handle_event(&ctx(body(), false), pressed(InputAction::Jump));
    assert!(next.is_none());
}

#[test]
fn idle_reacts_to_input_and_damage() {
    let mut s = IdelState::new();
    let (n, _) = s.handle_event(&ctx(body(), false), pressed(InputAction::Attack));
    assert!(matches!(n, Some(PlayerState::Attack(AttackState { combo: 0, .. }))));
    let (n, _) = s.handle_event::<u32>(&ctx(body(), false), StateEvent::InputPressed { action: InputAction::Down });
    assert!(matches!(n, Some(PlayerState::Crouch(_))));
    let (n, _) = s.handle_event(&ctx(body(), false), pressed(InputAction::Dash));
    assert!(matches!(n, Some(PlayerState::Dash(_))));
    let (n, _) = s.handle_event(&ctx(body(), false), pressed(InputAction::Roll));
    assert!(matches!(n, Some(PlayerState::Morph(_))));
    let (n, e) = s.handle_event(&ctx(body(), false), StateEvent::TakeDamage { damage: 3u32 });
    assert!(matches!(n, Some(PlayerState::Hurt(HurtState { duration: 500_000, .. }))));
    assert!(e.is_empty());
    let mut b = body();
    b.axis = -1;
    let (n, _) = s.handle_event::<u32>(&ctx(b, false), StateEvent::Physics { delta_us: 16_000 });
    assert!(matches!(n, Some(PlayerState::Run(RunState { direction: -1 }))));
}

#[test]
fn idle_breath_timer_wraps_after_half_a_second() {
    let mut s = IdelState::new();
    let (n, _) = s.handle_event::<u32>(&ctx(body(), false), StateEvent::Physics { delta_us: 400_000 });
    assert!(n.is_none());
    assert_eq!(s.breath_timer, 400_000);
    let _ = s.handle_event::<u32>(&ctx(body(), false), StateEvent::Physics { delta_us: 200_000 });
    assert_eq!(s.breath_timer, 0);
}

#[test]
fn run_stops_falls_and_steers() {
    let mut s = RunState::new(1);
    let mut b = body();
    b.axis = 1;
    let (n, e) = s.handle_event::<u32>(&ctx(b, false), StateEvent::Physics { delta_us: 10 });
    assert!(n.is_none());
    assert!(matches!(e[0], PlayerEffect::SetHorizontalSpeed(Speed::Axis(100))));
    let (n, _) = s.handle_event::<u32>(&ctx(body(), false), StateEvent::Physics { delta_us: 10 });
    assert!(matches!(n, Some(PlayerState::Idle(_))));
    let mut air = body();
    air.on_floor = false;
    let (n, _) = s.handle_event::<u32>(&ctx(air, false), StateEvent::Physics { delta_us: 10 });
    assert!(matches!(n, Some(PlayerState::Fall(FallState { duration: 80_000, time: 0 }))));
}

#[test]
fn jump_enter_launches_and_double_jump_is_weaker() {
    let mut j = JumpState::new(100, 0);
    let e: Vec<PlayerEffect<u32>> = j.enter();
    assert!(matches!(e[0], PlayerEffect::Launch(100)));
    let mut air = body();
    air.on_floor = false;
    let (n, _) = j.handle_event(&ctx(air, false), pressed(InputAction::Jump));
    assert!(matches!(n, Some(PlayerState::Jump(JumpState { velocity_percent: 90, jump_count: 1 }))));
}

#[test]
fn second_air_jump_is_refused() {
    let mut j = JumpState::new(90, 1);
    let mut air = body();
    air.on_floor = false;
    let (n, e) = j.handle_event(&ctx(air, true), pressed(InputAction::Jump));
    assert!(n.is_none());
    assert!(e.is_empty());
}

#[test]
fn jump_release_halves_only_fast_rise() {
    let mut j = JumpState::new(100, 0);
    let mut b = body();
    b.rising_fast = true;
    let (_, e) = j.handle_event::<u32>(&ctx(b, false), StateEvent::InputJustRelease { action: InputAction::Jump });
    assert!(matches!(e[0], PlayerEffect::HalveVerticalVelocity));
    let (_, e) = j.handle_event::<u32>(&ctx(body(), false), StateEvent::InputJustRelease { action: InputAction::Jump });
    assert!(e.is_empty());
}

#[test]
fn jump_dash_needs_low_vertical_speed() {
    let mut j = JumpState::new(100, 0);
    let mut b = body();
    b.vertical_speed_low = false;
    let (n, _) = j.handle_event(&ctx(b, false), pressed(InputAction::Dash));
    assert!(n.is_none());
    let (n, _) = j.handle_event(&ctx(body(), false), pressed(InputAction::Dash));
    assert!(matches!(n, Some(PlayerState::Dash(_))));
    let (n, _) = j.handle_event::<u32>(&ctx(body(), false), StateEvent::InputPressed { action: InputAction::Down });
    assert!(matches!(n, Some(PlayerState::Slam(_))));
}

#[test]
fn fall_lands_after_grace_time() {
    let mut f = FallState::new();
    let _: Vec<PlayerEffect<u32>> = f.enter();
    assert_eq!(f.time, 80_000);
    let (n, _) = f.handle_event::<u32>(&ctx(body(), false), StateEvent::Physics { delta_us: 50_000 });
    assert!(n.is_none());
    let (n, e) = f.handle_event::<u32>(&ctx(body(), false), StateEvent::Physics { delta_us: 50_000 });
    assert!(matches!(n, Some(PlayerState::Idle(_))));
    assert!(matches!(e.last(), Some(PlayerEffect::ShowVisualEffect(_))));
}

#[test]
fn attack_spawns_hitbox_once_and_combo_chains_once() {
    let mut a = AttackState::new(0);
    let e: Vec<PlayerEffect<u32>> = a.enter();
    assert!(matches!(e[1], PlayerEffect::StartTimer(TimerName::Attack, 350_000)));
    let (_, e) = a.handle_event::<u32>(&ctx(body(), false), StateEvent::Physics { delta_us: 100_000 });
    assert!(e.is_empty());
    let (_, e) = a.handle_event::<u32>(&ctx(body(), false), StateEvent::Physics { delta_us: 30_000 });
    assert!(matches!(e[0], PlayerEffect::SpawnAttackHitbox(30)));
    let (_, e) = a.handle_event::<u32>(&ctx(body(), false), StateEvent::Physics { delta_us: 30_000 });
    assert!(e.is_empty());
    let (n, _) = a.handle_event(&ctx(body(), false), pressed(InputAction::Attack));
    assert!(matches!(n, Some(PlayerState::Attack(AttackState { combo: 1, .. }))));
    let mut b = AttackState::new(1);
    let (n, _) = b.handle_event(&ctx(body(), false), pressed(InputAction::Attack));
    assert!(n.is_none());
}

#[test]
fn attack_timeout_and_damage() {
    let mut a = AttackState::new(0);
    let (n, _) = a.handle_event::<u32>(&ctx(body(), false), StateEvent::TimerTimeout { timer_name: TimerName::Hurt });
    assert!(n.is_none());
    let (n, _) = a.handle_event::<u32>(&ctx(body(), false), StateEvent::TimerTimeout { timer_name: TimerName::Attack });
    assert!(matches!(n, Some(PlayerState::Idle(_))));
    let (n, e) = a.handle_event(&ctx(body(), false), StateEvent::TakeDamage { damage: 7u32 });
    assert!(matches!(n, Some(PlayerState::Hurt(HurtState { duration: 300_000, .. }))));
    assert!(matches!(e[0], PlayerEffect::ApplyDamage(7)));
}

#[test]
fn names_spelled_out_act_like_the_named_values() {
    let mut a = AttackState::new(0);
    let other = TimerName::Other("attack_timer".to_owned());
    assert_eq!(other.name(), "attack_timer");
    let (n, _) = a.handle_event::<u32>(&ctx(body(), false), StateEvent::TimerTimeout { timer_name: other });
    assert!(matches!(n, Some(PlayerState::Idle(_))));
    let mut h = HurtState::new(500_000);
    let (n, _) = h.handle_event::<u32>(
        &ctx(body(), false),
        StateEvent::TimerTimeout { timer_name: TimerName::Other("hurt_timer".to_owned()) },
    );
    assert!(matches!(n, Some(PlayerState::Idle(_))));
    let mut i = IdelState::new();
    let (n, _) = i.handle_event::<u32>(&ctx(body(), true), pressed(InputAction::Other("jump".to_owned())));
    assert!(matches!(n, Some(PlayerState::Jump(_))));
    let (n, _) = i.handle_event::<u32>(&ctx(body(), false), pressed(InputAction::Other("jumps".to_owned())));
    assert!(n.is_none());
}

#[test]
fn crouch_drops_through_one_way_platforms() {
    let mut c = CrouchState::new();
    let mut b = body();
    b.on_one_way_platform = true;
    let (n, e) = c.handle_event::<u32>(&ctx(b, false), pressed(InputAction::Jump));
    assert!(matches!(n, Some(PlayerState::Fall(_))));
    assert!(matches!(e[0], PlayerEffect::PrepareFall));
    let (n, e) = c.handle_event::<u32>(&ctx(body(), false), pressed(InputAction::Jump));
    assert!(matches!(n, Some(PlayerState::Jump(_))));
    assert!(e.is_empty());
    let (n, _) = c.handle_event::<u32>(&ctx(body(), false), StateEvent::InputJustRelease { action: InputAction::Down });
    assert!(matches!(n, Some(PlayerState::Idle(_))));
}

#[test]
fn crouch_attack_combo_wraps() {
    let mut c = CrouchAttack::new(1);
    let _: Vec<PlayerEffect<u32>> = c.enter();
    let _ = c.handle_event::<u32>(&ctx(body(), false), StateEvent::Physics { delta_us: 250_000 });
    let _ = c.handle_event::<u32>(&ctx(body(), false), pressed(InputAction::Attack));
    assert!(c.comboing);
    let (n, _) = c.handle_event::<u32>(&ctx(body(), false), StateEvent::Physics { delta_us: 100_000 });
    assert!(matches!(n, Some(PlayerState::CrouchAttack(CrouchAttack { combo: 0, .. }))));
    let mut early = CrouchAttack::new(0);
    let _ = early.handle_event::<u32>(&ctx(body(), false), StateEvent::Physics { delta_us: 100_000 });
    let _ = early.handle_event::<u32>(&ctx(body(), false), pressed(InputAction::Attack));
    assert!(!early.comboing);
    let (n, _) = early.handle_event::<u32>(&ctx(body(), false), StateEvent::Physics { delta_us: 250_000 });
    assert!(matches!(n, Some(PlayerState::Crouch(_))));
}

#[test]
fn dash_leaves_shadows_and_ends() {
    let mut d = DashState::new();
    let e: Vec<PlayerEffect<u32>> = d.enter();
    assert_eq!(e.len(), 7);
    assert!(matches!(e[1], PlayerEffect::SetHorizontalSpeed(Speed::Facing(200))));
    let (n, e) = d.handle_event::<u32>(&ctx(body(), false), StateEvent::Physics { delta_us: 50_000 });
    assert!(n.is_none());
    assert!(matches!(e[1], PlayerEffect::CreateTailShadow));
    let mut air = body();
    air.on_floor = false;
    let (n, _) = d.handle_event::<u32>(&ctx(air, false), StateEvent::Physics { delta_us: 300_000 });
    assert!(matches!(n, Some(PlayerState::Fall(_))));
    let x: Vec<PlayerEffect<u32>> = d.exit();
    assert!(matches!(x[1], PlayerEffect::SetAlpha(100)));
}

#[test]
fn hurt_recovers_on_its_timer_and_absorbs_hits() {
    let mut h = HurtState::new(500_000);
    let mut b = body();
    b.axis = 1;
    let (n, _) = h.handle_event::<u32>(&ctx(b, false), StateEvent::TimerTimeout { timer_name: TimerName::Hurt });
    assert!(matches!(n, Some(PlayerState::Run(_))));
    let (n, e) = h.handle_event(&ctx(b, false), StateEvent::TakeDamage { damage: 2u32 });
    assert!(n.is_none());
    assert!(matches!(e[0], PlayerEffect::ApplyDamage(2)));
}

#[test]
fn morph_and_slam() {
    let mut m = MorphState::new();
    let _: Vec<PlayerEffect<u32>> = m.enter();
    let (n, e) = m.handle_event::<u32>(&ctx(body(), false), StateEvent::Physics { delta_us: 900_000 });
    assert!(matches!(n, Some(PlayerState::Idle(_))));
    assert!(matches!(e[0], PlayerEffect::SetHorizontalSpeed(Speed::Facing(150))));
    let mut s = SlamState::new();
    let _: Vec<PlayerEffect<u32>> = s.enter();
    let mut air = body();
    air.on_floor = false;
    let (n, e) = s.handle_event::<u32>(&ctx(air, false), StateEvent::Physics { delta_us: 10_000 });
    assert!(n.is_none());
    assert!(matches!(e.last(), Some(PlayerEffect::SetVerticalSpeed(Speed::Base(200)))));
    let x: Vec<PlayerEffect<u32>> = s.exit();
    assert!(matches!(x[3], PlayerEffect::CameraShake(10)));
}

#[test]
fn animation_names() {
    assert_eq!(PlayerAnimation::Attack(1).name(), "attack_1");
    assert_eq!(PlayerAnimation::CrouchAttack(0).name(), "crouch_attack_0");
    assert_eq!(PlayerAnimation::CrouchAttack(-12).name(), "crouch_attack_-12");
    assert_eq!(PlayerAnimation::Ball.name(), "ball");
}

#[test]
fn input_actions_from_names() {
    assert!(matches!(InputAction::from_name("jump"), InputAction::Jump));
    assert!(matches!(InputAction::from_name("roll"), InputAction::Roll));
    match InputAction::from_name("left") {
        InputAction::Other(s) => assert_eq!(s, "left"),
        _ => panic!("expected another action"),
    }
    assert!(matches!(TimerName::from_name("hurt_timer"), TimerName::Hurt));
    assert_eq!(TimerName::Attack.name(), "attack_timer");
}

use vstd::prelude::*;

use crate::managers::visual_effect::VisualEffectType;
use crate::text::decimal;

pub mod attack;
pub mod crouch;
pub mod crouch_attack;
pub mod dash;
pub mod die;
pub mod event;
pub mod fall;
pub mod hurt;
pub mod idle;
pub mod jump;
pub mod morph;
pub mod run;
pub mod slam;

use attack::AttackState;
use crouch::CrouchState;
use crouch_attack::CrouchAttack;
use dash::DashState;
use die::DieState;
use event::{InputAction, StateEvent, TimerName};
use fall::FallState;
use hurt::HurtState;
use idle::IdelState;
use jump::JumpState;
use morph::MorphState;
use run::RunState;
use slam::SlamState;

verus! {

/// What the engine reports of the player's body when an event is handled.
#[derive(Clone, Copy)]
pub struct BodyFacts {
    /// Sign of the horizontal input axis: -1, 0 or 1.
    pub axis: i8,
    /// The body stands on the floor.
    pub on_floor: bool,
    /// The vertical speed is below 80% of the run speed in magnitude.
    pub vertical_speed_low: bool,
    /// The body moves up faster than 50 px/s.
    pub rising_fast: bool,
    /// The vertical velocity is zero or downwards.
    pub not_rising: bool,
    /// The vertical velocity is strictly downwards.
    pub falling: bool,
    /// The body stands on a one-way platform.
    pub on_one_way_platform: bool,
}

/// Everything a state consults besides the event itself.
#[derive(Clone, Copy)]
pub struct PlayerContext {
    pub body: BodyFacts,
    /// The coyote timer has time left, so a jump is still allowed.
    pub coyote_active: bool,
}

/// The player's animations.
#[derive(Clone, Copy, PartialEq, Eq, Structural)]
pub enum PlayerAnimation {
    Idle,
    Run,
    Jump,
    Fall,
    Attack(u32),
    Crouch,
    CrouchAttack(i64),
    Dash,
    Die,
    Hurt,
    Ball,
    Slam,
}

impl PlayerAnimation {
    /// The animation's name in the animation player.
    pub open spec fn spec_name(self) -> Seq<char> {
        match self {
            PlayerAnimation::Idle => "idle"@,
            PlayerAnimation::Run => "run"@,
            PlayerAnimation::Jump => "jump"@,
            PlayerAnimation::Fall => "fall"@,
            PlayerAnimation::Attack(c) => "attack_"@ + crate::text::spec_decimal(c as int),
            PlayerAnimation::Crouch => "crouch"@,
            PlayerAnimation::CrouchAttack(c) => "crouch_attack_"@ + crate::text::spec_decimal(
                c as int,
            ),
            PlayerAnimation::Dash => "dash"@,
            PlayerAnimation::Die => "die"@,
            PlayerAnimation::Hurt => "hurt"@,
            PlayerAnimation::Ball => "ball"@,
            PlayerAnimation::Slam => "slam"@,
        }
    }

    /// The animation's name in the animation player.
    pub fn name(&self) -> (s: String)
        ensures
            s@ == self.spec_name(),
    {
        match self {
            PlayerAnimation::Idle => "idle".to_owned(),
            PlayerAnimation::Run => "run".to_owned(),
            PlayerAnimation::Jump => "jump".to_owned(),
            PlayerAnimation::Fall => "fall".to_owned(),
            PlayerAnimation::Attack(c) => {
                let mut s = "attack_".to_owned();
                let d = decimal(*c as i64);
                s.append(d.as_str());
                s
            },
            PlayerAnimation::Crouch => "crouch".to_owned(),
            PlayerAnimation::CrouchAttack(c) => {
                let mut s = "crouch_attack_".to_owned();
                let d = decimal(*c);
                s.append(d.as_str());
                s
            },
            PlayerAnimation::Dash => "dash".to_owned(),
            PlayerAnimation::Die => "die".to_owned(),
            PlayerAnimation::Hurt => "hurt".to_owned(),
            PlayerAnimation::Ball => "ball".to_owned(),
            PlayerAnimation::Slam => "slam".to_owned(),
        }
    }
}

/// The sounds the player's states ask for.
#[derive(Clone, Copy, PartialEq, Eq, Structural)]
pub enum SoundCue {
    Jump,
    Dash,
    Morph,
    Slam,
}

impl SoundCue {
    /// The sound's name.
    pub fn name(&self) -> (s: &'static str)
        ensures
            *self == SoundCue::Jump ==> s@ == "jump"@,
            *self == SoundCue::Dash ==> s@ == "dash"@,
            *self == SoundCue::Morph ==> s@ == "morph"@,
            *self == SoundCue::Slam ==> s@ == "slam"@,
    {
        match self {
            SoundCue::Jump => "jump",
            SoundCue::Dash => "dash",
            SoundCue::Morph => "morph",
            SoundCue::Slam => "slam",
        }
    }
}

/// A speed given as a percentage of the player's run speed.
#[derive(Clone, Copy, PartialEq, Eq, Structural)]
pub enum Speed {
    /// Standing still on this axis.
    Zero,
    /// The percentage of the run speed, times the horizontal input axis.
    Axis(u32),
    /// The percentage of the run speed, in the direction the player faces.
    Facing(u32),
    /// The percentage of the run speed, positive (down or right).
    Base(u32),
}

/// What the engine has to do on behalf of the player's states, in order.
pub enum PlayerEffect<D> {
    PlayAnimation(PlayerAnimation),
    /// `Player::play_sound`.
    PlaySound(SoundCue),
    /// `Player::play_sound_effect`.
    PlaySoundEffect(SoundCue),
    /// A dust effect at the player's position.
    ShowVisualEffect(VisualEffectType),
    CameraShake(u32),
    SetHorizontalSpeed(Speed),
    SetVerticalSpeed(Speed),
    /// Vertical velocity set to this percentage of the jump velocity.
    Launch(u32),
    /// Vertical velocity halved.
    HalveVerticalVelocity,
    /// Modulate alpha, in percent.
    SetAlpha(u32),
    SetPlayerDisabled(bool),
    SetGravityDisabled(bool),
    SetAttackEnabled(bool),
    SetMorphRoll(bool),
    SetSlamActive(bool),
    CreateTailShadow,
    /// Step down through a one-way platform.
    PrepareFall,
    /// Attack hitbox with this damage.
    SpawnAttackHitbox(u32),
    /// A player timer started, with its duration in microseconds.
    StartTimer(TimerName, i64),
    /// Damage to apply to the player.
    ApplyDamage(D),
}

/// The state the player is in, with that state's own data.
pub enum PlayerState {
    Idle(IdelState),
    Run(RunState),
    Jump(JumpState),
    Fall(FallState),
    Attack(AttackState),
    Crouch(CrouchState),
    CrouchAttack(CrouchAttack),
    Dash(DashState),
    Die(DieState),
    Hurt(HurtState),
    Morph(MorphState),
    Slam(SlamState),
}

impl PlayerState {
    /// The data each state keeps within the range the machine can reach:
    /// at most one jump before the current one, and combo steps 0 and 1.
    pub open spec fn wf(self) -> bool {
        match self {
            PlayerState::Jump(j) => j.jump_count <= 1,
            PlayerState::Attack(a) => a.combo <= 1,
            PlayerState::CrouchAttack(c) => 0 <= c.combo < 2,
            _ => true,
        }
    }

    /// The state after entering it, and the effects of entering.
    pub open spec fn spec_enter<D>(self) -> (PlayerState, Seq<PlayerEffect<D>>) {
        match self {
            PlayerState::Idle(s) => (self, IdelState::spec_enter()),
            PlayerState::Run(s) => (self, RunState::spec_enter()),
            PlayerState::Jump(s) => (self, s.spec_enter()),
            PlayerState::Fall(s) => (
                PlayerState::Fall(FallState { time: s.duration, ..s }),
                FallState::spec_enter(),
            ),
            PlayerState::Attack(s) => (self, s.spec_enter()),
            PlayerState::Crouch(s) => (self, CrouchState::spec_enter()),
            PlayerState::CrouchAttack(s) => (
                PlayerState::CrouchAttack(CrouchAttack { time: 0, comboing: false, ..s }),
                s.spec_enter(),
            ),
            PlayerState::Dash(s) => (
                PlayerState::Dash(DashState { time: s.duration, effect_time: s.effect_time_gap, ..s }),
                DashState::spec_enter(),
            ),
            PlayerState::Die(s) => (self, DieState::spec_enter()),
            PlayerState::Hurt(s) => (self, s.spec_enter()),
            PlayerState::Morph(s) => (
                PlayerState::Morph(MorphState { time: s.duration, ..s }),
                MorphState::spec_enter(),
            ),
            PlayerState::Slam(s) => (
                PlayerState::Slam(SlamState { effect_time: s.effect_delay, ..s }),
                SlamState::spec_enter(),
            ),
        }
    }

    /// The effects of leaving the state.
    pub open spec fn spec_exit<D>(self) -> Seq<PlayerEffect<D>> {
        match self {
            PlayerState::CrouchAttack(_) => CrouchAttack::spec_exit(),
            PlayerState::Dash(_) => DashState::spec_exit(),
            PlayerState::Morph(_) => MorphState::spec_exit(),
            PlayerState::Slam(_) => SlamState::spec_exit(),
            _ => seq![],
        }
    }

    /// The state after `event`, the state to switch to, and the effects.
    pub open spec fn spec_handle<D>(self, ctx: PlayerContext, event: StateEvent<D>) -> (
        PlayerState,
        Option<PlayerState>,
        Seq<PlayerEffect<D>>,
    ) {
        match self {
            PlayerState::Idle(s) => {
                let r = s.spec_handle(ctx, event);
                (PlayerState::Idle(r.0), r.1, r.2)
            },
            PlayerState::Run(s) => {
                let r = s.spec_handle(ctx, event);
                (PlayerState::Run(r.0), r.1, r.2)
            },
            PlayerState::Jump(s) => {
                let r = s.spec_handle(ctx, event);
                (PlayerState::Jump(r.0), r.1, r.2)
            },
            PlayerState::Fall(s) => {
                let r = s.spec_handle(ctx, event);
                (PlayerState::Fall(r.0), r.1, r.2)
            },
            PlayerState::Attack(s) => {
                let r = s.spec_handle(ctx, event);
                (PlayerState::Attack(r.0), r.1, r.2)
            },
            PlayerState::Crouch(s) => {
                let r = s.spec_handle(ctx, event);
                (self, r.0, r.1)
            },
            PlayerState::CrouchAttack(s) => {
                let r = s.spec_handle(ctx, event);
                (PlayerState::CrouchAttack(r.0), r.1, r.2)
            },
            PlayerState::Dash(s) => {
                let r = s.spec_handle(ctx, event);
                (PlayerState::Dash(r.0), r.1, r.2)
            },
            PlayerState::Die(_) => (self, None, seq![]),
            PlayerState::Hurt(s) => {
                let r = s.spec_handle(ctx, event);
                (PlayerState::Hurt(r.0), r.1, r.2)
            },
            PlayerState::Morph(s) => {
                let r = s.spec_handle(ctx, event);
                (PlayerState::Morph(r.0), r.1, r.2)
            },
            PlayerState::Slam(s) => {
                let r = s.spec_handle(ctx, event);
                (PlayerState::Slam(r.0), r.1, r.2)
            },
        }
    }

    /// Enters the state: sets up its data and returns what the engine must do.
    pub fn enter<D>(&mut self) -> (e: Vec<PlayerEffect<D>>)
        ensures
            *final(self) == old(self).spec_enter::<D>().0,
            e@ == old(self).spec_enter::<D>().1,
    {
        match self {
            PlayerState::Idle(s) => s.enter(),
            PlayerState::Run(s) => s.enter(),
            PlayerState::Jump(s) => s.enter(),
            PlayerState::Fall(s) => s.enter(),
            PlayerState::Attack(s) => s.enter(),
            PlayerState::Crouch(s) => s.enter(),
            PlayerState::CrouchAttack(s) => s.enter(),
            PlayerState::Dash(s) => s.enter(),
            PlayerState::Die(s) => s.enter(),
            PlayerState::Hurt(s) => s.enter(),
            PlayerState::Morph(s) => s.enter(),
            PlayerState::Slam(s) => s.enter(),
        }
    }

    /// Leaves the state and returns what the engine must do.
    pub fn exit<D>(&mut self) -> (e: Vec<PlayerEffect<D>>)
        ensures
            *final(self) == *old(self),
            e@ == old(self).spec_exit::<D>(),
    {
        match self {
            PlayerState::CrouchAttack(s) => s.exit(),
            PlayerState::Dash(s) => s.exit(),
            PlayerState::Morph(s) => s.exit(),
            PlayerState::Slam(s) => s.exit(),
            _ => Vec::new(),
        }
    }

    /// Handles `event` in the current state; returns the state to switch to,
    /// if any, and what the engine must do.
    pub fn handle_event<D>(&mut self, ctx: &PlayerContext, event: StateEvent<D>) -> (r: (
        Option<PlayerState>,
        Vec<PlayerEffect<D>>,
    ))
        requires
            old(self).wf(),
        ensures
            ({
                let s = old(self).spec_handle(*ctx, event);
                *final(self) == s.0 && r.0 == s.1 && r.1@ == s.2
            }),
    {
        match self {
            PlayerState::Idle(s) => s.handle_event(ctx, event),
            PlayerState::Run(s) => s.handle_event(ctx, event),
            PlayerState::Jump(s) => s.handle_event(ctx, event),
            PlayerState::Fall(s) => s.handle_event(ctx, event),
            PlayerState::Attack(s) => s.handle_event(ctx, event),
            PlayerState::Crouch(s) => s.handle_event(ctx, event),
            PlayerState::CrouchAttack(s) => s.handle_event(ctx, event),
            PlayerState::Dash(s) => s.handle_event(ctx, event),
            PlayerState::Die(s) => s.handle_event(ctx, event),
            PlayerState::Hurt(s) => s.handle_event(ctx, event),
            PlayerState::Morph(s) => s.handle_event(ctx, event),
            PlayerState::Slam(s) => s.handle_event(ctx, event),
        }
    }
}

/// Every state the machine switches to keeps its data in range, and
/// handling an event or entering keeps the current state's data in range.
pub proof fn lemma_transitions_keep_wf<D>(s: PlayerState, ctx: PlayerContext, event: StateEvent<D>)
    requires
        s.wf(),
    ensures
        s.spec_handle(ctx, event).0.wf(),
        s.spec_handle(ctx, event).1 matches Some(n) ==> n.wf() && n.spec_enter::<D>().0.wf(),
        s.spec_enter::<D>().0.wf(),
{
    if let PlayerState::CrouchAttack(c) = s {
        crate::math::lemma_wrapi_range(c.combo + 1, 0, 2);
    }
}

/// A jump made in the air cannot be followed by another one: in a jump
/// that is already the second, pressing jump switches to no state.
pub proof fn lemma_double_jump_once<D>(j: JumpState, ctx: PlayerContext, action: InputAction)
    requires
        j.jump_count >= 1,
        action.spec_is_jump(),
    ensures
        PlayerState::Jump(j).spec_handle(ctx, StateEvent::<D>::InputJustPressed { action }).1 is None,
{
    reveal_strlit("jump");
    reveal_strlit("dash");
    reveal_strlit("attack");
    assert("jump"@[0] != "dash"@[0]);
    assert("jump"@.len() != "attack"@.len());
}

/// Death is final: the dead state ignores every event.
pub proof fn lemma_death_is_final<D>(d: DieState, ctx: PlayerContext, event: StateEvent<D>)
    ensures
        PlayerState::Die(d).spec_handle(ctx, event) == (
            PlayerState::Die(d),
            Option::<PlayerState>::None,
            Seq::<PlayerEffect<D>>::empty(),
        ),
{
}

/// The crouch-attack combo alternates between steps 0 and 1.
pub proof fn lemma_crouch_combo_alternates(c: CrouchAttack)
    requires
        0 <= c.combo < 2,
    ensures
        c.spec_next_combo() == 1 - c.combo,
{
}

/// A jump lands on any physics frame in which the body stands on the floor
/// and is not moving up: into running in the direction held, or into
/// idling when no direction is held. Off the floor it never lands.
pub proof fn lemma_jump_lands<D>(j: JumpState, ctx: PlayerContext, delta_us: i64)
    ensures
        ctx.body.on_floor && ctx.body.not_rising ==> j.spec_handle::<D>(
            ctx,
            StateEvent::Physics { delta_us },
        ).1 == Some(
            if ctx.body.axis != 0 {
                PlayerState::Run(RunState { direction: ctx.body.axis })
            } else {
                PlayerState::Idle(IdelState { breath_timer: 0 })
            },
        ),
        !ctx.body.on_floor ==> !(j.spec_handle::<D>(ctx, StateEvent::Physics { delta_us }).1 matches Some(
            PlayerState::Run(_),
        )) && !(j.spec_handle::<D>(ctx, StateEvent::Physics { delta_us }).1 matches Some(
            PlayerState::Idle(_),
        )),
{
}

/// When the flinch timer runs out, the player runs in the direction held or
/// idles if standing on the floor, and falls (with a fresh landing grace
/// time) if not.
pub proof fn lemma_hurt_recovers_by_footing<D>(h: HurtState, ctx: PlayerContext, timer_name: TimerName)
    requires
        timer_name.spec_is_hurt(),
    ensures
        h.spec_handle::<D>(ctx, StateEvent::TimerTimeout { timer_name }).1 == Some(
            if !ctx.body.on_floor {
                PlayerState::Fall(FallState { duration: 80_000, time: 0 })
            } else if ctx.body.axis != 0 {
                PlayerState::Run(RunState { direction: ctx.body.axis })
            } else {
                PlayerState::Idle(IdelState { breath_timer: 0 })
            },
        ),
{
}

/// A slam ends, into idling, on the first physics frame with the body on
/// the floor, and goes on in the air.
pub proof fn lemma_slam_ends_on_floor<D>(s: SlamState, ctx: PlayerContext, delta_us: i64)
    ensures
        ctx.body.on_floor ==> s.spec_handle::<D>(ctx, StateEvent::Physics { delta_us }).1 == Some(
            PlayerState::Idle(IdelState { breath_timer: 0 }),
        ),
        !ctx.body.on_floor ==> s.spec_handle::<D>(ctx, StateEvent::Physics { delta_us }).1 is None,
{
}

} // verus!

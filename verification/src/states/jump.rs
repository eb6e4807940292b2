use vstd::prelude::*;

use crate::managers::visual_effect::VisualEffectType;
use crate::states::attack::AttackState;
use crate::states::dash::DashState;
use crate::states::event::{InputAction, StateEvent};
use crate::states::fall::FallState;
use crate::states::hurt::HurtState;
use crate::states::idle::IdelState;
use crate::states::run::RunState;
use crate::states::slam::SlamState;
use crate::states::{PlayerAnimation, PlayerContext, PlayerEffect, PlayerState, SoundCue, Speed};

verus! {

/// In the air after a jump.
pub struct JumpState {
    /// Launch velocity, as a percentage of the player's jump velocity.
    pub velocity_percent: u32,
    /// Jumps already made before this one: 0 for the first, 1 for the double jump.
    pub jump_count: u32,
}

impl JumpState {
    pub fn new(velocity_percent: u32, count: u32) -> (s: Self)
        ensures
            s.velocity_percent == velocity_percent,
            s.jump_count == count,
    {
        JumpState { velocity_percent, jump_count: count }
    }

    pub open spec fn spec_enter<D>(self) -> Seq<PlayerEffect<D>> {
        seq![
            PlayerEffect::Launch(self.velocity_percent),
            PlayerEffect::PlaySound(SoundCue::Jump),
            PlayerEffect::PlayAnimation(PlayerAnimation::Jump),
            PlayerEffect::ShowVisualEffect(VisualEffectType::Jump),
        ]
    }

    /// Launches the player upwards, with sound, animation and a dust puff.
    pub fn enter<D>(&mut self) -> (e: Vec<PlayerEffect<D>>)
        ensures
            *final(self) == *old(self),
            e@ == old(self).spec_enter::<D>(),
    {
        let mut e = Vec::new();
        e.push(PlayerEffect::Launch(self.velocity_percent));
        e.push(PlayerEffect::PlaySound(SoundCue::Jump));
        e.push(PlayerEffect::PlayAnimation(PlayerAnimation::Jump));
        e.push(PlayerEffect::ShowVisualEffect(VisualEffectType::Jump));
        e
    }

    /// The state after `event`, the state to switch to, and the effects.
    pub open spec fn spec_handle<D>(self, ctx: PlayerContext, event: StateEvent<D>) -> (
        JumpState,
        Option<PlayerState>,
        Seq<PlayerEffect<D>>,
    ) {
        match event {
            StateEvent::InputJustPressed { action } => {
                if action.spec_is_jump() && self.jump_count < 1 {
                    (
                        self,
                        Some(PlayerState::Jump(JumpState { velocity_percent: 90, jump_count: (self.jump_count + 1) as u32 })),
                        seq![],
                    )
                } else if action.spec_is_dash() {
                    if ctx.body.vertical_speed_low {
                        (self, Some(PlayerState::Dash(DashState::spec_new())), seq![])
                    } else {
                        (self, None, seq![])
                    }
                } else if action.spec_is_attack() {
                    (self, Some(PlayerState::Attack(AttackState::spec_new(0))), seq![])
                } else {
                    (self, None, seq![])
                }
            },
            StateEvent::InputPressed { action } => {
                if action.spec_is_down() && ctx.body.vertical_speed_low {
                    (self, Some(PlayerState::Slam(SlamState::spec_new())), seq![])
                } else {
                    (self, None, seq![])
                }
            },
            StateEvent::InputJustRelease { action } => {
                if action.spec_is_jump() && ctx.body.rising_fast {
                    (self, None, seq![PlayerEffect::HalveVerticalVelocity])
                } else {
                    (self, None, seq![])
                }
            },
            StateEvent::Physics { .. } => {
                if ctx.body.on_floor && ctx.body.not_rising {
                    if ctx.body.axis != 0 {
                        (self, Some(PlayerState::Run(RunState { direction: ctx.body.axis })), seq![])
                    } else {
                        (self, Some(PlayerState::Idle(IdelState { breath_timer: 0 })), seq![])
                    }
                } else if !ctx.body.on_floor && ctx.body.falling {
                    (self, Some(PlayerState::Fall(FallState::spec_new())), seq![])
                } else if ctx.body.axis != 0 {
                    (self, None, seq![PlayerEffect::SetHorizontalSpeed(Speed::Axis(80))])
                } else {
                    (self, None, seq![])
                }
            },
            StateEvent::TakeDamage { .. } => (
                self,
                Some(PlayerState::Hurt(HurtState::spec_new(500_000))),
                seq![],
            ),
            _ => (self, None, seq![]),
        }
    }

    /// Reacts to `event`: double-jumps once, dashes or slams while the
    /// vertical speed is low, attacks, cuts the jump short on release, lands,
    /// starts falling, steers in the air, and flinches when hit.
    pub fn handle_event<D>(&mut self, ctx: &PlayerContext, event: StateEvent<D>) -> (r: (
        Option<PlayerState>,
        Vec<PlayerEffect<D>>,
    ))
        ensures
            ({
                let s = old(self).spec_handle(*ctx, event);
                *final(self) == s.0 && r.0 == s.1 && r.1@ == s.2
            }),
    {
        let mut e: Vec<PlayerEffect<D>> = Vec::new();
        match event {
            StateEvent::InputJustPressed { action } => {
                if action.is_jump() && self.jump_count < 1 {
                    (Some(PlayerState::Jump(JumpState::new(90, self.jump_count + 1))), e)
                } else if action.is_dash() {
                    if ctx.body.vertical_speed_low {
                        (Some(PlayerState::Dash(DashState::new())), e)
                    } else {
                        (None, e)
                    }
                } else if action.is_attack() {
                    (Some(PlayerState::Attack(AttackState::new(0))), e)
                } else {
                    (None, e)
                }
            },
            StateEvent::InputPressed { action } => {
                if action.is_down() && ctx.body.vertical_speed_low {
                    (Some(PlayerState::Slam(SlamState::new())), e)
                } else {
                    (None, e)
                }
            },
            StateEvent::InputJustRelease { action } => {
                if action.is_jump() && ctx.body.rising_fast {
                    e.push(PlayerEffect::HalveVerticalVelocity);
                }
                (None, e)
            },
            StateEvent::Physics { .. } => {
                if ctx.body.on_floor && ctx.body.not_rising {
                    if ctx.body.axis != 0 {
                        return (Some(PlayerState::Run(RunState::new(ctx.body.axis))), e);
                    } else {
                        return (Some(PlayerState::Idle(IdelState::new())), e);
                    }
                }
                if !ctx.body.on_floor && ctx.body.falling {
                    return (Some(PlayerState::Fall(FallState::new())), e);
                }
                if ctx.body.axis != 0 {
                    e.push(PlayerEffect::SetHorizontalSpeed(Speed::Axis(80)));
                }
                (None, e)
            },
            StateEvent::TakeDamage { .. } => (Some(PlayerState::Hurt(HurtState::new(500_000))), e),
            _ => (None, e),
        }
    }
}

} // verus!

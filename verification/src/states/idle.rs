use vstd::prelude::*;

use crate::math::{sat_add, spec_clamp_i64};
use crate::states::attack::AttackState;
use crate::states::crouch::CrouchState;
use crate::states::dash::DashState;
use crate::states::event::{InputAction, StateEvent};
use crate::states::hurt::HurtState;
use crate::states::jump::JumpState;
use crate::states::morph::MorphState;
use crate::states::run::RunState;
use crate::states::{PlayerAnimation, PlayerContext, PlayerEffect, PlayerState, Speed};

verus! {

/// Standing still.
pub struct IdelState {
    /// Microseconds since the last breath, reset after half a second.
    pub breath_timer: i64,
}

impl IdelState {
    pub fn new() -> (s: Self)
        ensures
            s.breath_timer == 0,
    {
        IdelState { breath_timer: 0 }
    }

    pub open spec fn spec_enter<D>() -> Seq<PlayerEffect<D>> {
        seq![
            PlayerEffect::SetHorizontalSpeed(Speed::Zero),
            PlayerEffect::PlayAnimation(PlayerAnimation::Idle),
        ]
    }

    /// Stops the player and plays the idle animation.
    pub fn enter<D>(&mut self) -> (e: Vec<PlayerEffect<D>>)
        ensures
            *final(self) == *old(self),
            e@ == Self::spec_enter::<D>(),
    {
        let mut e = Vec::new();
        e.push(PlayerEffect::SetHorizontalSpeed(Speed::Zero));
        e.push(PlayerEffect::PlayAnimation(PlayerAnimation::Idle));
        e
    }

    /// The state after `event`, the state to switch to, and the effects.
    pub open spec fn spec_handle<D>(self, ctx: PlayerContext, event: StateEvent<D>) -> (
        IdelState,
        Option<PlayerState>,
        Seq<PlayerEffect<D>>,
    ) {
        match event {
            StateEvent::InputJustPressed { action } => {
                if action.spec_is_jump() && ctx.coyote_active {
                    (self, Some(PlayerState::Jump(JumpState { velocity_percent: 100, jump_count: 0 })), seq![])
                } else if action.spec_is_attack() {
                    (self, Some(PlayerState::Attack(AttackState::spec_new(0))), seq![])
                } else if action.spec_is_dash() {
                    (self, Some(PlayerState::Dash(DashState::spec_new())), seq![])
                } else if action.spec_is_roll() {
                    (self, Some(PlayerState::Morph(MorphState::spec_new())), seq![])
                } else {
                    (self, None, seq![])
                }
            },
            StateEvent::InputPressed { action } => {
                if action.spec_is_down() {
                    (self, Some(PlayerState::Crouch(CrouchState {  })), seq![])
                } else {
                    (self, None, seq![])
                }
            },
            StateEvent::Physics { delta_us } => {
                if ctx.body.axis != 0 {
                    (self, Some(PlayerState::Run(RunState { direction: ctx.body.axis })), seq![])
                } else {
                    let t = spec_clamp_i64(self.breath_timer + delta_us);
                    (IdelState { breath_timer: if t > 500_000 { 0 } else { t } }, None, seq![])
                }
            },
            StateEvent::TakeDamage { .. } => (
                self,
                Some(PlayerState::Hurt(HurtState::spec_new(500_000))),
                seq![],
            ),
            _ => (self, None, seq![]),
        }
    }

    /// Reacts to `event`: jumps while the coyote time lasts, attacks,
    /// crouches, dashes, rolls, runs on horizontal input, and flinches when hit.
    pub fn handle_event<D>(&mut self, ctx: &PlayerContext, event: StateEvent<D>) -> (r: (
        Option<PlayerState>,
        Vec<PlayerEffect<D>>,
    ))
        ensures
            ({
                let s = old(self).spec_handle(*ctx, event);
                *final(self) == s.0 && r.0 == s.1 && r.1@ == s.2
            }),
    {
        let e: Vec<PlayerEffect<D>> = Vec::new();
        match event {
            StateEvent::InputJustPressed { action } => {
                if action.is_jump() && ctx.coyote_active {
                    (Some(PlayerState::Jump(JumpState::new(100, 0))), e)
                } else if action.is_attack() {
                    (Some(PlayerState::Attack(AttackState::new(0))), e)
                } else if action.is_dash() {
                    (Some(PlayerState::Dash(DashState::new())), e)
                } else if action.is_roll() {
                    (Some(PlayerState::Morph(MorphState::new())), e)
                } else {
                    (None, e)
                }
            },
            StateEvent::InputPressed { action } => {
                if action.is_down() {
                    (Some(PlayerState::Crouch(CrouchState::new())), e)
                } else {
                    (None, e)
                }
            },
            StateEvent::Physics { delta_us } => {
                if ctx.body.axis != 0 {
                    (Some(PlayerState::Run(RunState::new(ctx.body.axis))), e)
                } else {
                    let t = sat_add(self.breath_timer, delta_us);
                    self.breath_timer = if t > 500_000 { 0 } else { t };
                    (None, e)
                }
            },
            StateEvent::TakeDamage { .. } => (Some(PlayerState::Hurt(HurtState::new(500_000))), e),
            _ => (None, e),
        }
    }
}

} // verus!

use vstd::prelude::*;

use crate::states::attack::AttackState;
use crate::states::dash::DashState;
use crate::states::event::{InputAction, StateEvent};
use crate::states::fall::FallState;
use crate::states::hurt::HurtState;
use crate::states::idle::IdelState;
use crate::states::jump::JumpState;
use crate::states::morph::MorphState;
use crate::states::{PlayerAnimation, PlayerContext, PlayerEffect, PlayerState, Speed};

verus! {

/// Running along the floor.
pub struct RunState {
    /// Sign of the horizontal input the run last followed.
    pub direction: i8,
}

impl RunState {
    pub fn new(dir: i8) -> (s: Self)
        ensures
            s.direction == dir,
    {
        RunState { direction: dir }
    }

    pub open spec fn spec_enter<D>() -> Seq<PlayerEffect<D>> {
        seq![PlayerEffect::PlayAnimation(PlayerAnimation::Run)]
    }

    /// Plays the run animation.
    pub fn enter<D>(&mut self) -> (e: Vec<PlayerEffect<D>>)
        ensures
            *final(self) == *old(self),
            e@ == Self::spec_enter::<D>(),
    {
        let mut e = Vec::new();
        e.push(PlayerEffect::PlayAnimation(PlayerAnimation::Run));
        e
    }

    /// The state after `event`, the state to switch to, and the effects.
    pub open spec fn spec_handle<D>(self, ctx: PlayerContext, event: StateEvent<D>) -> (
        RunState,
        Option<PlayerState>,
        Seq<PlayerEffect<D>>,
    ) {
        match event {
            StateEvent::InputJustPressed { action } => {
                if action.spec_is_jump() && ctx.coyote_active {
                    (self, Some(PlayerState::Jump(JumpState { velocity_percent: 100, jump_count: 0 })), seq![])
                } else if action.spec_is_attack() {
                    (self, Some(PlayerState::Attack(AttackState::spec_new(0))), seq![])
                } else if action.spec_is_dash() {
                    (self, Some(PlayerState::Dash(DashState::spec_new())), seq![])
                } else if action.spec_is_roll() {
                    (self, Some(PlayerState::Morph(MorphState::spec_new())), seq![])
                } else {
                    (self, None, seq![])
                }
            },
            StateEvent::Physics { .. } => {
                if ctx.body.on_floor && ctx.body.axis == 0 {
                    (self, Some(PlayerState::Idle(IdelState { breath_timer: 0 })), seq![])
                } else if !ctx.body.on_floor {
                    (self, Some(PlayerState::Fall(FallState::spec_new())), seq![])
                } else {
                    (
                        RunState { direction: ctx.body.axis },
                        None,
                        seq![PlayerEffect::SetHorizontalSpeed(Speed::Axis(100))],
                    )
                }
            },
            StateEvent::TakeDamage { .. } => (
                self,
                Some(PlayerState::Hurt(HurtState::spec_new(500_000))),
                seq![],
            ),
            _ => (self, None, seq![]),
        }
    }

    /// Reacts to `event`: jumps while the coyote time lasts, attacks, dashes,
    /// rolls, stops without input, falls off ledges, follows the input axis,
    /// and flinches when hit.
    pub fn handle_event<D>(&mut self, ctx: &PlayerContext, event: StateEvent<D>) -> (r: (
        Option<PlayerState>,
        Vec<PlayerEffect<D>>,
    ))
        ensures
            ({
                let s = old(self).spec_handle(*ctx, event);
                *final(self) == s.0 && r.0 == s.1 && r.1@ == s.2
            }),
    {
        let mut e: Vec<PlayerEffect<D>> = Vec::new();
        match event {
            StateEvent::InputJustPressed { action } => {
                if action.is_jump() && ctx.coyote_active {
                    (Some(PlayerState::Jump(JumpState::new(100, 0))), e)
                } else if action.is_attack() {
                    (Some(PlayerState::Attack(AttackState::new(0))), e)
                } else if action.is_dash() {
                    (Some(PlayerState::Dash(DashState::new())), e)
                } else if action.is_roll() {
                    (Some(PlayerState::Morph(MorphState::new())), e)
                } else {
                    (None, e)
                }
            },
            StateEvent::Physics { .. } => {
                if ctx.body.on_floor {
                    if ctx.body.axis == 0 {
                        return (Some(PlayerState::Idle(IdelState::new())), e);
                    }
                } else {
                    return (Some(PlayerState::Fall(FallState::new())), e);
                }
                e.push(PlayerEffect::SetHorizontalSpeed(Speed::Axis(100)));
                self.direction = ctx.body.axis;
                (None, e)
            },
            StateEvent::TakeDamage { .. } => (Some(PlayerState::Hurt(HurtState::new(500_000))), e),
            _ => (None, e),
        }
    }
}

} // verus!

use vstd::prelude::*;

use crate::states::event::{InputAction, StateEvent};
use crate::states::fall::FallState;
use crate::states::idle::IdelState;
use crate::states::jump::JumpState;
use crate::states::{PlayerAnimation, PlayerContext, PlayerEffect, PlayerState};

verus! {

/// Crouching while `down` is held.
pub struct CrouchState {}

impl CrouchState {
    pub fn new() -> (s: Self)
        ensures
            s == (CrouchState {  }),
    {
        CrouchState {  }
    }

    pub open spec fn spec_enter<D>() -> Seq<PlayerEffect<D>> {
        seq![PlayerEffect::PlayAnimation(PlayerAnimation::Crouch)]
    }

    /// Plays the crouch animation.
    pub fn enter<D>(&mut self) -> (e: Vec<PlayerEffect<D>>)
        ensures
            *final(self) == *old(self),
            e@ == Self::spec_enter::<D>(),
    {
        let mut e = Vec::new();
        e.push(PlayerEffect::PlayAnimation(PlayerAnimation::Crouch));
        e
    }

    /// The state to switch to after `event`, and the effects.
    pub open spec fn spec_handle<D>(self, ctx: PlayerContext, event: StateEvent<D>) -> (
        Option<PlayerState>,
        Seq<PlayerEffect<D>>,
    ) {
        match event {
            StateEvent::InputJustPressed { action } => {
                if action.spec_is_jump() {
                    if ctx.body.on_one_way_platform {
                        (Some(PlayerState::Fall(FallState::spec_new())), seq![PlayerEffect::PrepareFall])
                    } else {
                        (Some(PlayerState::Jump(JumpState { velocity_percent: 100, jump_count: 0 })), seq![])
                    }
                } else {
                    (None, seq![])
                }
            },
            StateEvent::InputJustRelease { action } => {
                if action.spec_is_down() {
                    (Some(PlayerState::Idle(IdelState { breath_timer: 0 })), seq![])
                } else {
                    (None, seq![])
                }
            },
            _ => (None, seq![]),
        }
    }

    /// Reacts to `event`: drops through a one-way platform or jumps, and
    /// stands up when `down` is released.
    pub fn handle_event<D>(&mut self, ctx: &PlayerContext, event: StateEvent<D>) -> (r: (
        Option<PlayerState>,
        Vec<PlayerEffect<D>>,
    ))
        ensures
            *final(self) == *old(self),
            ({
                let s = old(self).spec_handle(*ctx, event);
                r.0 == s.0 && r.1@ == s.1
            }),
    {
        let mut e: Vec<PlayerEffect<D>> = Vec::new();
        match event {
            StateEvent::InputJustPressed { action } => {
                if action.is_jump() {
                    if ctx.body.on_one_way_platform {
                        e.push(PlayerEffect::PrepareFall);
                        return (Some(PlayerState::Fall(FallState::new())), e);
                    }
                    (Some(PlayerState::Jump(JumpState::new(100, 0))), e)
                } else {
                    (None, e)
                }
            },
            StateEvent::InputJustRelease { action } => {
                if action.is_down() {
                    (Some(PlayerState::Idle(IdelState::new())), e)
                } else {
                    (None, e)
                }
            },
            _ => (None, e),
        }
    }
}

} // verus!

use vstd::prelude::*;

use crate::managers::visual_effect::VisualEffectType;
use crate::math::{sat_sub, spec_clamp_i64};
use crate::states::attack::AttackState;
use crate::states::event::{InputAction, StateEvent};
use crate::states::idle::IdelState;
use crate::states::{PlayerAnimation, PlayerContext, PlayerEffect, PlayerState, Speed};

verus! {

/// Falling; landing is only accepted once a short grace time has passed.
pub struct FallState {
    /// Grace time before landing counts, in microseconds.
    pub duration: i64,
    /// Grace time left, in microseconds.
    pub time: i64,
}

impl FallState {
    pub open spec fn spec_new() -> FallState {
        FallState { duration: 80_000, time: 0 }
    }

    pub fn new() -> (s: Self)
        ensures
            s == Self::spec_new(),
    {
        FallState { duration: 80_000, time: 0 }
    }

    pub open spec fn spec_enter<D>() -> Seq<PlayerEffect<D>> {
        seq![PlayerEffect::PlayAnimation(PlayerAnimation::Fall)]
    }

    /// Restarts the grace time and plays the fall animation.
    pub fn enter<D>(&mut self) -> (e: Vec<PlayerEffect<D>>)
        ensures
            *final(self) == (FallState { time: old(self).duration, ..*old(self) }),
            e@ == Self::spec_enter::<D>(),
    {
        self.time = self.duration;
        let mut e = Vec::new();
        e.push(PlayerEffect::PlayAnimation(PlayerAnimation::Fall));
        e
    }

    /// The state after `event`, the state to switch to, and the effects.
    pub open spec fn spec_handle<D>(self, ctx: PlayerContext, event: StateEvent<D>) -> (
        FallState,
        Option<PlayerState>,
        Seq<PlayerEffect<D>>,
    ) {
        match event {
            StateEvent::Physics { delta_us } => {
                let steer: Seq<PlayerEffect<D>> = if ctx.body.axis != 0 {
                    seq![PlayerEffect::SetHorizontalSpeed(Speed::Axis(80))]
                } else {
                    seq![]
                };
                let s = FallState { time: spec_clamp_i64(self.time - delta_us), ..self };
                if s.time <= 0 && ctx.body.on_floor {
                    (
                        s,
                        Some(PlayerState::Idle(IdelState { breath_timer: 0 })),
                        steer.push(PlayerEffect::ShowVisualEffect(VisualEffectType::Land)),
                    )
                } else {
                    (s, None, steer)
                }
            },
            StateEvent::InputJustPressed { action } => {
                if action.spec_is_attack() {
                    (self, Some(PlayerState::Attack(AttackState::spec_new(0))), seq![])
                } else {
                    (self, None, seq![])
                }
            },
            _ => (self, None, seq![]),
        }
    }

    /// Reacts to `event`: steers in the air, lands once the grace time is
    /// over and the floor is reached, and attacks.
    pub fn handle_event<D>(&mut self, ctx: &PlayerContext, event: StateEvent<D>) -> (r: (
        Option<PlayerState>,
        Vec<PlayerEffect<D>>,
    ))
        ensures
            ({
                let s = old(self).spec_handle(*ctx, event);
                *final(self) == s.0 && r.0 == s.1 && r.1@ == s.2
            }),
    {
        let mut e: Vec<PlayerEffect<D>> = Vec::new();
        match event {
            StateEvent::Physics { delta_us } => {
                if ctx.body.axis != 0 {
                    e.push(PlayerEffect::SetHorizontalSpeed(Speed::Axis(80)));
                }
                self.time = sat_sub(self.time, delta_us);
                if self.time <= 0 {
                    if ctx.body.on_floor {
                        e.push(PlayerEffect::ShowVisualEffect(VisualEffectType::Land));
                        return (Some(PlayerState::Idle(IdelState::new())), e);
                    }
                }
                (None, e)
            },
            StateEvent::InputJustPressed { action } => {
                if action.is_attack() {
                    (Some(PlayerState::Attack(AttackState::new(0))), e)
                } else {
                    (None, e)
                }
            },
            _ => (None, e),
        }
    }
}

} // verus!

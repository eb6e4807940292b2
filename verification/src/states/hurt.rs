use vstd::prelude::*;

use crate::states::event::{StateEvent, TimerName};
use crate::states::fall::FallState;
use crate::states::idle::IdelState;
use crate::states::run::RunState;
use crate::states::{PlayerAnimation, PlayerContext, PlayerEffect, PlayerState};

verus! {

/// Flinching after a hit, until the hurt timer runs out.
pub struct HurtState {
    /// Microseconds spent flinching since the last hit.
    pub timer: i64,
    /// Length of the flinch, in microseconds.
    pub duration: i64,
}

impl HurtState {
    pub open spec fn spec_new(duration: i64) -> HurtState {
        HurtState { timer: 0, duration }
    }

    pub fn new(duration: i64) -> (s: Self)
        ensures
            s == Self::spec_new(duration),
    {
        HurtState { timer: 0, duration }
    }

    pub open spec fn spec_enter<D>(self) -> Seq<PlayerEffect<D>> {
        seq![
            PlayerEffect::PlayAnimation(PlayerAnimation::Hurt),
            PlayerEffect::StartTimer(TimerName::Hurt, self.duration),
        ]
    }

    /// Plays the hurt animation and starts the hurt timer.
    pub fn enter<D>(&mut self) -> (e: Vec<PlayerEffect<D>>)
        ensures
            *final(self) == *old(self),
            e@ == old(self).spec_enter::<D>(),
    {
        let mut e = Vec::new();
        e.push(PlayerEffect::PlayAnimation(PlayerAnimation::Hurt));
        e.push(PlayerEffect::StartTimer(TimerName::Hurt, self.duration));
        e
    }

    /// The state after `event`, the state to switch to, and the effects.
    pub open spec fn spec_handle<D>(self, ctx: PlayerContext, event: StateEvent<D>) -> (
        HurtState,
        Option<PlayerState>,
        Seq<PlayerEffect<D>>,
    ) {
        match event {
            StateEvent::TimerTimeout { timer_name } => {
                if timer_name.spec_is_hurt() {
                    if ctx.body.on_floor {
                        if ctx.body.axis != 0 {
                            (self, Some(PlayerState::Run(RunState { direction: ctx.body.axis })), seq![])
                        } else {
                            (self, Some(PlayerState::Idle(IdelState { breath_timer: 0 })), seq![])
                        }
                    } else {
                        (self, Some(PlayerState::Fall(FallState::spec_new())), seq![])
                    }
                } else {
                    (self, None, seq![])
                }
            },
            StateEvent::TakeDamage { damage } => (
                HurtState { timer: 0, ..self },
                None,
                seq![PlayerEffect::ApplyDamage(damage)],
            ),
            _ => (self, None, seq![]),
        }
    }

    /// Reacts to `event`: recovers into running, idling or falling when the
    /// hurt timer runs out, and takes the damage of further hits.
    pub fn handle_event<D>(&mut self, ctx: &PlayerContext, event: StateEvent<D>) -> (r: (
        Option<PlayerState>,
        Vec<PlayerEffect<D>>,
    ))
        ensures
            ({
                let s = old(self).spec_handle(*ctx, event);
                *final(self) == s.0 && r.0 == s.1 && r.1@ == s.2
            }),
    {
        let mut e: Vec<PlayerEffect<D>> = Vec::new();
        match event {
            StateEvent::TimerTimeout { timer_name } => {
                if timer_name.is_hurt() {
                    if ctx.body.on_floor {
                        if ctx.body.axis != 0 {
                            (Some(PlayerState::Run(RunState::new(ctx.body.axis))), e)
                        } else {
                            (Some(PlayerState::Idle(IdelState::new())), e)
                        }
                    } else {
                        (Some(PlayerState::Fall(FallState::new())), e)
                    }
                } else {
                    (None, e)
                }
            },
            StateEvent::TakeDamage { damage } => {
                e.push(PlayerEffect::ApplyDamage(damage));
                self.timer = 0;
                (None, e)
            },
            _ => (None, e),
        }
    }
}

} // verus!

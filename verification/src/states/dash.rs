use vstd::prelude::*;

use crate::math::{sat_sub, spec_clamp_i64};
use crate::states::event::{InputAction, StateEvent};
use crate::states::fall::FallState;
use crate::states::idle::IdelState;
use crate::states::slam::SlamState;
use crate::states::{PlayerAnimation, PlayerContext, PlayerEffect, PlayerState, SoundCue, Speed};

verus! {

/// A horizontal dash at twice the run speed, leaving a trail of shadows.
pub struct DashState {
    /// Dash time left, in microseconds.
    pub time: i64,
    /// Length of the dash, in microseconds.
    pub duration: i64,
    /// Time left until the next shadow, in microseconds.
    pub effect_time: i64,
    /// Time between two shadows, in microseconds.
    pub effect_time_gap: i64,
}

impl DashState {
    pub open spec fn spec_new() -> DashState {
        DashState { time: 0, duration: 300_000, effect_time: 0, effect_time_gap: 50_000 }
    }

    pub fn new() -> (s: Self)
        ensures
            s == Self::spec_new(),
    {
        DashState { time: 0, duration: 300_000, effect_time: 0, effect_time_gap: 50_000 }
    }

    pub open spec fn spec_enter<D>() -> Seq<PlayerEffect<D>> {
        seq![
            PlayerEffect::SetAlpha(20),
            PlayerEffect::SetHorizontalSpeed(Speed::Facing(200)),
            PlayerEffect::SetPlayerDisabled(true),
            PlayerEffect::PlayAnimation(PlayerAnimation::Dash),
            PlayerEffect::SetVerticalSpeed(Speed::Zero),
            PlayerEffect::PlaySoundEffect(SoundCue::Dash),
            PlayerEffect::SetGravityDisabled(true),
        ]
    }

    /// Starts the dash: fades the player, pushes it forward, makes it
    /// untouchable and weightless.
    pub fn enter<D>(&mut self) -> (e: Vec<PlayerEffect<D>>)
        ensures
            *final(self) == (DashState {
                time: old(self).duration,
                effect_time: old(self).effect_time_gap,
                ..*old(self)
            }),
            e@ == Self::spec_enter::<D>(),
    {
        self.time = self.duration;
        self.effect_time = self.effect_time_gap;
        let mut e = Vec::new();
        e.push(PlayerEffect::SetAlpha(20));
        e.push(PlayerEffect::SetHorizontalSpeed(Speed::Facing(200)));
        e.push(PlayerEffect::SetPlayerDisabled(true));
        e.push(PlayerEffect::PlayAnimation(PlayerAnimation::Dash));
        e.push(PlayerEffect::SetVerticalSpeed(Speed::Zero));
        e.push(PlayerEffect::PlaySoundEffect(SoundCue::Dash));
        e.push(PlayerEffect::SetGravityDisabled(true));
        e
    }

    pub open spec fn spec_exit<D>() -> Seq<PlayerEffect<D>> {
        seq![
            PlayerEffect::SetPlayerDisabled(false),
            PlayerEffect::SetAlpha(100),
            PlayerEffect::SetGravityDisabled(false),
            PlayerEffect::SetHorizontalSpeed(Speed::Zero),
        ]
    }

    /// Ends the dash: the player is solid, opaque, heavy and still again.
    pub fn exit<D>(&mut self) -> (e: Vec<PlayerEffect<D>>)
        ensures
            *final(self) == *old(self),
            e@ == Self::spec_exit::<D>(),
    {
        let mut e = Vec::new();
        e.push(PlayerEffect::SetPlayerDisabled(false));
        e.push(PlayerEffect::SetAlpha(100));
        e.push(PlayerEffect::SetGravityDisabled(false));
        e.push(PlayerEffect::SetHorizontalSpeed(Speed::Zero));
        e
    }

    /// The state after `event`, the state to switch to, and the effects.
    pub open spec fn spec_handle<D>(self, ctx: PlayerContext, event: StateEvent<D>) -> (
        DashState,
        Option<PlayerState>,
        Seq<PlayerEffect<D>>,
    ) {
        match event {
            StateEvent::Physics { delta_us } => {
                let time = spec_clamp_i64(self.time - delta_us);
                let et = spec_clamp_i64(self.effect_time - delta_us);
                let shadow = et <= 0;
                let s = DashState {
                    time,
                    effect_time: if shadow { self.effect_time_gap } else { et },
                    ..self
                };
                let e: Seq<PlayerEffect<D>> = if shadow {
                    seq![PlayerEffect::SetVerticalSpeed(Speed::Zero), PlayerEffect::CreateTailShadow]
                } else {
                    seq![PlayerEffect::SetVerticalSpeed(Speed::Zero)]
                };
                if time <= 0 {
                    if ctx.body.on_floor {
                        (s, Some(PlayerState::Idle(IdelState { breath_timer: 0 })), e)
                    } else {
                        (s, Some(PlayerState::Fall(FallState::spec_new())), e)
                    }
                } else {
                    (s, None, e)
                }
            },
            StateEvent::InputJustRelease { action } => {
                if action.spec_is_down() {
                    (self, Some(PlayerState::Slam(SlamState::spec_new())), seq![])
                } else {
                    (self, None, seq![])
                }
            },
            _ => (self, None, seq![]),
        }
    }

    /// Reacts to `event`: holds the height, drops shadows at a fixed pace,
    /// ends on the floor or falling, and turns into a slam when `down` is released.
    pub fn handle_event<D>(&mut self, ctx: &PlayerContext, event: StateEvent<D>) -> (r: (
        Option<PlayerState>,
        Vec<PlayerEffect<D>>,
    ))
        ensures
            ({
                let s = old(self).spec_handle(*ctx, event);
                *final(self) == s.0 && r.0 == s.1 && r.1@ == s.2
            }),
    {
        let mut e: Vec<PlayerEffect<D>> = Vec::new();
        match event {
            StateEvent::Physics { delta_us } => {
                self.time = sat_sub(self.time, delta_us);
                e.push(PlayerEffect::SetVerticalSpeed(Speed::Zero));
                self.effect_time = sat_sub(self.effect_time, delta_us);
                if self.effect_time <= 0 {
                    e.push(PlayerEffect::CreateTailShadow);
                    self.effect_time = self.effect_time_gap;
                }
                if self.time <= 0 {
                    if ctx.body.on_floor {
                        return (Some(PlayerState::Idle(IdelState::new())), e);
                    } else {
                        return (Some(PlayerState::Fall(FallState::new())), e);
                    }
                }
                (None, e)
            },
            StateEvent::InputJustRelease { action } => {
                if action.is_down() {
                    (Some(PlayerState::Slam(SlamState::new())), e)
                } else {
                    (None, e)
                }
            },
            _ => (None, e),
        }
    }
}

} // verus!

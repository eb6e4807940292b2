use vstd::prelude::*;

use crate::math::{sat_sub, spec_clamp_i64};
use crate::states::event::StateEvent;
use crate::states::fall::FallState;
use crate::states::idle::IdelState;
use crate::states::{PlayerAnimation, PlayerContext, PlayerEffect, PlayerState, SoundCue, Speed};

verus! {

/// Rolled into a ball, moving forward at one and a half times the run speed.
pub struct MorphState {
    /// Length of the roll, in microseconds.
    pub duration: i64,
    /// Roll time left, in microseconds.
    pub time: i64,
}

impl MorphState {
    pub open spec fn spec_new() -> MorphState {
        MorphState { duration: 800_000, time: 0 }
    }

    pub fn new() -> (s: Self)
        ensures
            s == Self::spec_new(),
    {
        MorphState { duration: 800_000, time: 0 }
    }

    pub open spec fn spec_enter<D>() -> Seq<PlayerEffect<D>> {
        seq![
            PlayerEffect::PlayAnimation(PlayerAnimation::Ball),
            PlayerEffect::SetMorphRoll(true),
            PlayerEffect::PlaySoundEffect(SoundCue::Morph),
        ]
    }

    /// Starts the roll.
    pub fn enter<D>(&mut self) -> (e: Vec<PlayerEffect<D>>)
        ensures
            *final(self) == (MorphState { time: old(self).duration, ..*old(self) }),
            e@ == Self::spec_enter::<D>(),
    {
        self.time = self.duration;
        let mut e = Vec::new();
        e.push(PlayerEffect::PlayAnimation(PlayerAnimation::Ball));
        e.push(PlayerEffect::SetMorphRoll(true));
        e.push(PlayerEffect::PlaySoundEffect(SoundCue::Morph));
        e
    }

    pub open spec fn spec_exit<D>() -> Seq<PlayerEffect<D>> {
        seq![PlayerEffect::SetMorphRoll(false)]
    }

    /// Ends the roll.
    pub fn exit<D>(&mut self) -> (e: Vec<PlayerEffect<D>>)
        ensures
            *final(self) == *old(self),
            e@ == Self::spec_exit::<D>(),
    {
        let mut e = Vec::new();
        e.push(PlayerEffect::SetMorphRoll(false));
        e
    }

    /// The state after `event`, the state to switch to, and the effects.
    pub open spec fn spec_handle<D>(self, ctx: PlayerContext, event: StateEvent<D>) -> (
        MorphState,
        Option<PlayerState>,
        Seq<PlayerEffect<D>>,
    ) {
        match event {
            StateEvent::Physics { delta_us } => {
                let s = MorphState { time: spec_clamp_i64(self.time - delta_us), ..self };
                let e: Seq<PlayerEffect<D>> = seq![PlayerEffect::SetHorizontalSpeed(Speed::Facing(150))];
                if s.time <= 0 {
                    if ctx.body.on_floor {
                        (s, Some(PlayerState::Idle(IdelState { breath_timer: 0 })), e)
                    } else {
                        (s, Some(PlayerState::Fall(FallState::spec_new())), e)
                    }
                } else {
                    (s, None, e)
                }
            },
            _ => (self, None, seq![]),
        }
    }

    /// Reacts to `event`: rolls forward until the roll time is used up.
    pub fn handle_event<D>(&mut self, ctx: &PlayerContext, event: StateEvent<D>) -> (r: (
        Option<PlayerState>,
        Vec<PlayerEffect<D>>,
    ))
        ensures
            ({
                let s = old(self).spec_handle(*ctx, event);
                *final(self) == s.0 && r.0 == s.1 && r.1@ == s.2
            }),
    {
        let mut e: Vec<PlayerEffect<D>> = Vec::new();
        match event {
            StateEvent::Physics { delta_us } => {
                self.time = sat_sub(self.time, delta_us);
                e.push(PlayerEffect::SetHorizontalSpeed(Speed::Facing(150)));
                if self.time <= 0 {
                    if ctx.body.on_floor {
                        return (Some(PlayerState::Idle(IdelState::new())), e);
                    } else {
                        return (Some(PlayerState::Fall(FallState::new())), e);
                    }
                }
                (None, e)
            },
            _ => (None, e),
        }
    }
}

} // verus!

use vstd::prelude::*;

use crate::managers::visual_effect::VisualEffectType;
use crate::math::{sat_sub, spec_clamp_i64};
use crate::states::event::StateEvent;
use crate::states::idle::IdelState;
use crate::states::{PlayerAnimation, PlayerContext, PlayerEffect, PlayerState, SoundCue, Speed};

verus! {

/// A ground slam: straight down at twice the run speed until the floor.
pub struct SlamState {
    /// Time between two shadows, in microseconds.
    pub effect_delay: i64,
    /// Time left until the next shadow, in microseconds.
    pub effect_time: i64,
}

impl SlamState {
    pub open spec fn spec_new() -> SlamState {
        SlamState { effect_delay: 50_000, effect_time: 0 }
    }

    pub fn new() -> (s: Self)
        ensures
            s == Self::spec_new(),
    {
        SlamState { effect_delay: 50_000, effect_time: 0 }
    }

    pub open spec fn spec_enter<D>() -> Seq<PlayerEffect<D>> {
        seq![PlayerEffect::PlayAnimation(PlayerAnimation::Slam), PlayerEffect::SetSlamActive(true)]
    }

    /// Starts the slam.
    pub fn enter<D>(&mut self) -> (e: Vec<PlayerEffect<D>>)
        ensures
            *final(self) == (SlamState { effect_time: old(self).effect_delay, ..*old(self) }),
            e@ == Self::spec_enter::<D>(),
    {
        self.effect_time = self.effect_delay;
        let mut e = Vec::new();
        e.push(PlayerEffect::PlayAnimation(PlayerAnimation::Slam));
        e.push(PlayerEffect::SetSlamActive(true));
        e
    }

    pub open spec fn spec_exit<D>() -> Seq<PlayerEffect<D>> {
        seq![
            PlayerEffect::SetSlamActive(false),
            PlayerEffect::PlaySoundEffect(SoundCue::Slam),
            PlayerEffect::ShowVisualEffect(VisualEffectType::Hit),
            PlayerEffect::CameraShake(10),
        ]
    }

    /// Ends the slam with a sound, a hit effect and a camera shake.
    pub fn exit<D>(&mut self) -> (e: Vec<PlayerEffect<D>>)
        ensures
            *final(self) == *old(self),
            e@ == Self::spec_exit::<D>(),
    {
        let mut e = Vec::new();
        e.push(PlayerEffect::SetSlamActive(false));
        e.push(PlayerEffect::PlaySoundEffect(SoundCue::Slam));
        e.push(PlayerEffect::ShowVisualEffect(VisualEffectType::Hit));
        e.push(PlayerEffect::CameraShake(10));
        e
    }

    /// The state after `event`, the state to switch to, and the effects.
    pub open spec fn spec_handle<D>(self, ctx: PlayerContext, event: StateEvent<D>) -> (
        SlamState,
        Option<PlayerState>,
        Seq<PlayerEffect<D>>,
    ) {
        match event {
            StateEvent::Physics { delta_us } => {
                let et = spec_clamp_i64(self.effect_time - delta_us);
                let shadow = et <= 0;
                let s = SlamState { effect_time: if shadow { self.effect_delay } else { et }, ..self };
                let move_down: Seq<PlayerEffect<D>> = seq![
                    PlayerEffect::SetHorizontalSpeed(Speed::Zero),
                    PlayerEffect::SetVerticalSpeed(Speed::Base(200)),
                ];
                let e = if shadow {
                    seq![PlayerEffect::CreateTailShadow] + move_down
                } else {
                    move_down
                };
                if ctx.body.on_floor {
                    (s, Some(PlayerState::Idle(IdelState { breath_timer: 0 })), e)
                } else {
                    (s, None, e)
                }
            },
            _ => (self, None, seq![]),
        }
    }

    /// Reacts to `event`: drives the player down and ends on the floor.
    pub fn handle_event<D>(&mut self, ctx: &PlayerContext, event: StateEvent<D>) -> (r: (
        Option<PlayerState>,
        Vec<PlayerEffect<D>>,
    ))
        ensures
            ({
                let s = old(self).spec_handle(*ctx, event);
                *final(self) == s.0 && r.0 == s.1 && r.1@ == s.2
            }),
    {
        let mut e: Vec<PlayerEffect<D>> = Vec::new();
        match event {
            StateEvent::Physics { delta_us } => {
                self.effect_time = sat_sub(self.effect_time, delta_us);
                if self.effect_time <= 0 {
                    self.effect_time = self.effect_delay;
                    e.push(PlayerEffect::CreateTailShadow);
                }
                e.push(PlayerEffect::SetHorizontalSpeed(Speed::Zero));
                e.push(PlayerEffect::SetVerticalSpeed(Speed::Base(200)));
                if ctx.body.on_floor {
                    return (Some(PlayerState::Idle(IdelState::new())), e);
                }
                (None, e)
            },
            _ => (None, e),
        }
    }
}

} // verus!

use vstd::prelude::*;

use crate::math::{sat_add, spec_clamp_i64, spec_wrapi, wrapi};
use crate::states::crouch::CrouchState;
use crate::states::dash::DashState;
use crate::states::event::{InputAction, StateEvent};
use crate::states::fall::FallState;
use crate::states::idle::IdelState;
use crate::states::jump::JumpState;
use crate::states::{PlayerAnimation, PlayerContext, PlayerEffect, PlayerState};

verus! {

/// An attack from a crouch; pressing attack late in the swing chains the next step.
pub struct CrouchAttack {
    /// Combo step, wrapping between 0 and 1.
    pub combo: i64,
    /// Length of the swing, in microseconds.
    pub duration: i64,
    /// Microseconds since the swing started.
    pub time: i64,
    /// The next combo step was requested.
    pub comboing: bool,
}

impl CrouchAttack {
    pub open spec fn spec_new(combo: i64) -> CrouchAttack {
        CrouchAttack { combo, duration: 300_000, time: 0, comboing: false }
    }

    pub fn new(combo: i64) -> (s: Self)
        ensures
            s == Self::spec_new(combo),
    {
        CrouchAttack { combo, duration: 300_000, time: 0, comboing: false }
    }

    /// The combo step after this one.
    pub open spec fn spec_next_combo(self) -> i64 {
        spec_wrapi(self.combo + 1, 0, 2) as i64
    }

    fn get_next_combo(&self) -> (c: i64)
        requires
            self.combo < i64::MAX,
        ensures
            c == self.spec_next_combo(),
            0 <= c < 2,
    {
        let next_combo = wrapi(self.combo + 1, 0, 2);
        next_combo
    }

    pub open spec fn spec_enter<D>(self) -> Seq<PlayerEffect<D>> {
        seq![
            PlayerEffect::PlayAnimation(PlayerAnimation::CrouchAttack(self.combo)),
            PlayerEffect::SetAttackEnabled(true),
        ]
    }

    /// Restarts the swing, plays its animation and enables the attack area.
    pub fn enter<D>(&mut self) -> (e: Vec<PlayerEffect<D>>)
        ensures
            *final(self) == (CrouchAttack { time: 0, comboing: false, ..*old(self) }),
            e@ == old(self).spec_enter::<D>(),
    {
        let mut e = Vec::new();
        e.push(PlayerEffect::PlayAnimation(PlayerAnimation::CrouchAttack(self.combo)));
        self.time = 0;
        self.comboing = false;
        e.push(PlayerEffect::SetAttackEnabled(true));
        e
    }

    pub open spec fn spec_exit<D>() -> Seq<PlayerEffect<D>> {
        seq![PlayerEffect::SetAttackEnabled(false)]
    }

    /// Disables the attack area.
    pub fn exit<D>(&mut self) -> (e: Vec<PlayerEffect<D>>)
        ensures
            *final(self) == *old(self),
            e@ == Self::spec_exit::<D>(),
    {
        let mut e = Vec::new();
        e.push(PlayerEffect::SetAttackEnabled(false));
        e
    }

    /// The state after `event`, the state to switch to, and the effects.
    pub open spec fn spec_handle<D>(self, ctx: PlayerContext, event: StateEvent<D>) -> (
        CrouchAttack,
        Option<PlayerState>,
        Seq<PlayerEffect<D>>,
    ) {
        match event {
            StateEvent::Physics { delta_us } => {
                let s = CrouchAttack { time: spec_clamp_i64(self.time + delta_us), ..self };
                if s.time > s.duration {
                    if s.comboing {
                        (s, Some(PlayerState::CrouchAttack(CrouchAttack::spec_new(self.spec_next_combo()))), seq![])
                    } else {
                        (s, Some(PlayerState::Crouch(CrouchState {  })), seq![])
                    }
                } else {
                    (s, None, seq![])
                }
            },
            StateEvent::InputJustPressed { action } => {
                if action.spec_is_jump() {
                    if ctx.body.on_one_way_platform {
                        (self, Some(PlayerState::Fall(FallState::spec_new())), seq![PlayerEffect::PrepareFall])
                    } else {
                        (self, Some(PlayerState::Jump(JumpState { velocity_percent: 100, jump_count: 0 })), seq![])
                    }
                } else if action.spec_is_dash() {
                    (self, Some(PlayerState::Dash(DashState::spec_new())), seq![])
                } else if action.spec_is_attack() {
                    if self.time * 10 > self.duration * 7 {
                        (CrouchAttack { comboing: true, ..self }, None, seq![])
                    } else {
                        (self, None, seq![])
                    }
                } else {
                    (self, None, seq![])
                }
            },
            StateEvent::InputJustRelease { action } => {
                if action.spec_is_down() {
                    (self, Some(PlayerState::Idle(IdelState { breath_timer: 0 })), seq![])
                } else {
                    (self, None, seq![])
                }
            },
            _ => (self, None, seq![]),
        }
    }

    /// Reacts to `event`: ends the swing into the next combo step or back to
    /// crouching, drops through or jumps, dashes, stands up, and records a
    /// late attack press as a combo request.
    pub fn handle_event<D>(&mut self, ctx: &PlayerContext, event: StateEvent<D>) -> (r: (
        Option<PlayerState>,
        Vec<PlayerEffect<D>>,
    ))
        requires
            (event matches StateEvent::Physics { delta_us } && old(self).comboing && spec_clamp_i64(
                old(self).time + delta_us,
            ) > old(self).duration) ==> old(self).combo < i64::MAX,
        ensures
            ({
                let s = old(self).spec_handle(*ctx, event);
                *final(self) == s.0 && r.0 == s.1 && r.1@ == s.2
            }),
    {
        let mut e: Vec<PlayerEffect<D>> = Vec::new();
        match event {
            StateEvent::Physics { delta_us } => {
                self.time = sat_add(self.time, delta_us);
                if self.time > self.duration {
                    if self.comboing {
                        let next_combo = self.get_next_combo();
                        return (Some(PlayerState::CrouchAttack(CrouchAttack::new(next_combo))), e);
                    } else {
                        return (Some(PlayerState::Crouch(CrouchState::new())), e);
                    }
                }
                (None, e)
            },
            StateEvent::InputJustPressed { action } => {
                if action.is_jump() {
                    if ctx.body.on_one_way_platform {
                        e.push(PlayerEffect::PrepareFall);
                        return (Some(PlayerState::Fall(FallState::new())), e);
                    }
                    (Some(PlayerState::Jump(JumpState::new(100, 0))), e)
                } else if action.is_dash() {
                    (Some(PlayerState::Dash(DashState::new())), e)
                } else if action.is_attack() {
                    if (self.time as i128) * 10 > (self.duration as i128) * 7 {
                        self.comboing = true;
                    }
                    (None, e)
                } else {
                    (None, e)
                }
            },
            StateEvent::InputJustRelease { action } => {
                if action.is_down() {
                    (Some(PlayerState::Idle(IdelState::new())), e)
                } else {
                    (None, e)
                }
            },
            _ => (None, e),
        }
    }
}

} // verus!

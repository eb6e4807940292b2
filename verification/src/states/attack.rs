use vstd::prelude::*;

use crate::math::{sat_add, spec_clamp_i64};
use crate::states::event::{InputAction, StateEvent, TimerName};
use crate::states::hurt::HurtState;
use crate::states::idle::IdelState;
use crate::states::run::RunState;
use crate::states::{PlayerAnimation, PlayerContext, PlayerEffect, PlayerState};

verus! {

/// A standing attack; a second press within the attack chains the next combo step.
pub struct AttackState {
    /// Combo step: 0 for the first swing, 1 for the follow-up.
    pub combo: u32,
    /// The hitbox of this swing was spawned.
    pub hitbox_spawned: bool,
    /// Microseconds since the swing started.
    pub timer: i64,
    /// Length of the swing, in microseconds.
    pub duration: i64,
}

impl AttackState {
    pub open spec fn spec_new(combo: u32) -> AttackState {
        AttackState { combo, hitbox_spawned: false, timer: 0, duration: 350_000 }
    }

    pub fn new(combo: u32) -> (s: Self)
        ensures
            s == Self::spec_new(combo),
    {
        AttackState { combo, hitbox_spawned: false, timer: 0, duration: 350_000 }
    }

    pub open spec fn spec_enter<D>(self) -> Seq<PlayerEffect<D>> {
        seq![
            PlayerEffect::PlayAnimation(PlayerAnimation::Attack(self.combo)),
            PlayerEffect::StartTimer(TimerName::Attack, self.duration),
        ]
    }

    /// Plays this combo step's animation and starts the attack timer.
    pub fn enter<D>(&mut self) -> (e: Vec<PlayerEffect<D>>)
        ensures
            *final(self) == *old(self),
            e@ == old(self).spec_enter::<D>(),
    {
        let mut e = Vec::new();
        e.push(PlayerEffect::PlayAnimation(PlayerAnimation::Attack(self.combo)));
        e.push(PlayerEffect::StartTimer(TimerName::Attack, self.duration));
        e
    }

    /// The state after `event`, the state to switch to, and the effects.
    pub open spec fn spec_handle<D>(self, ctx: PlayerContext, event: StateEvent<D>) -> (
        AttackState,
        Option<PlayerState>,
        Seq<PlayerEffect<D>>,
    ) {
        match event {
            StateEvent::Physics { delta_us } => {
                let t = spec_clamp_i64(self.timer + delta_us);
                if !self.hitbox_spawned && t > 120_000 {
                    (
                        AttackState { timer: t, hitbox_spawned: true, ..self },
                        None,
                        seq![PlayerEffect::SpawnAttackHitbox(30)],
                    )
                } else {
                    (AttackState { timer: t, ..self }, None, seq![])
                }
            },
            StateEvent::InputJustPressed { action } => {
                if action.spec_is_attack() && self.combo < 1 {
                    (self, Some(PlayerState::Attack(AttackState::spec_new((self.combo + 1) as u32))), seq![])
                } else {
                    (self, None, seq![])
                }
            },
            StateEvent::TimerTimeout { timer_name } => {
                if timer_name.spec_is_attack() {
                    if ctx.body.axis != 0 {
                        (self, Some(PlayerState::Run(RunState { direction: ctx.body.axis })), seq![])
                    } else {
                        (self, Some(PlayerState::Idle(IdelState { breath_timer: 0 })), seq![])
                    }
                } else {
                    (self, None, seq![])
                }
            },
            StateEvent::TakeDamage { damage } => (
                self,
                Some(PlayerState::Hurt(HurtState::spec_new(300_000))),
                seq![PlayerEffect::ApplyDamage(damage)],
            ),
            _ => (self, None, seq![]),
        }
    }

    /// Reacts to `event`: spawns the hitbox 0.12 s into the swing, chains the
    /// next combo step, returns to running or idling when the attack timer
    /// runs out, and takes the damage of a hit.
    pub fn handle_event<D>(&mut self, ctx: &PlayerContext, event: StateEvent<D>) -> (r: (
        Option<PlayerState>,
        Vec<PlayerEffect<D>>,
    ))
        ensures
            ({
                let s = old(self).spec_handle(*ctx, event);
                *final(self) == s.0 && r.0 == s.1 && r.1@ == s.2
            }),
    {
        let mut e: Vec<PlayerEffect<D>> = Vec::new();
        match event {
            StateEvent::Physics { delta_us } => {
                self.timer = sat_add(self.timer, delta_us);
                if !self.hitbox_spawned && self.timer > 120_000 {
                    self.hitbox_spawned = true;
                    e.push(PlayerEffect::SpawnAttackHitbox(30));
                }
                (None, e)
            },
            StateEvent::InputJustPressed { action } => {
                if action.is_attack() && self.combo < 1 {
                    (Some(PlayerState::Attack(AttackState::new(self.combo + 1))), e)
                } else {
                    (None, e)
                }
            },
            StateEvent::TimerTimeout { timer_name } => {
                if timer_name.is_attack() {
                    if ctx.body.axis != 0 {
                        (Some(PlayerState::Run(RunState::new(ctx.body.axis))), e)
                    } else {
                        (Some(PlayerState::Idle(IdelState::new())), e)
                    }
                } else {
                    (None, e)
                }
            },
            StateEvent::TakeDamage { damage } => {
                e.push(PlayerEffect::ApplyDamage(damage));
                (Some(PlayerState::Hurt(HurtState::new(300_000))), e)
            },
            _ => (None, e),
        }
    }
}

/// The summed time of `deltas`, in microseconds.
pub open spec fn spec_total(deltas: Seq<i64>) -> int
    decreases deltas.len(),
{
    if deltas.len() == 0 {
        0
    } else {
        spec_total(deltas.drop_last()) + deltas.last()
    }
}

/// The attack state after physics frames of `deltas` microseconds, in order.
pub open spec fn spec_after_frames<D>(s: AttackState, ctx: PlayerContext, deltas: Seq<i64>) -> AttackState
    decreases deltas.len(),
{
    if deltas.len() == 0 {
        s
    } else {
        spec_after_frames::<D>(s, ctx, deltas.drop_last()).spec_handle::<D>(
            ctx,
            StateEvent::Physics { delta_us: deltas.last() },
        ).0
    }
}

/// After the first `j` frames of a swing, the timer holds their summed time
/// (saturating) and the hitbox is out exactly when that sum passed 0.12 s.
proof fn lemma_frames_so_far<D>(combo: u32, ctx: PlayerContext, deltas: Seq<i64>, j: int)
    requires
        forall|i: int| 0 <= i < deltas.len() ==> deltas[i] >= 0,
        0 <= j <= deltas.len(),
    ensures
        spec_total(deltas.take(j)) >= 0,
        spec_after_frames::<D>(AttackState::spec_new(combo), ctx, deltas.take(j)) == (AttackState {
            combo,
            hitbox_spawned: spec_total(deltas.take(j)) > 120_000,
            timer: spec_clamp_i64(spec_total(deltas.take(j))),
            duration: 350_000,
        }),
    decreases j,
{
    if j > 0 {
        lemma_frames_so_far::<D>(combo, ctx, deltas, j - 1);
        assert(deltas.take(j).drop_last() =~= deltas.take(j - 1));
        assert(deltas.take(j).last() == deltas[j - 1]);
    }
}

/// In a swing started by `AttackState::new(combo)`, the physics frames never
/// leave the state, and the attack hitbox is spawned exactly once: in the
/// first frame whose summed time since the swing started passes 0.12 s.
pub proof fn lemma_hitbox_spawns_once<D>(combo: u32, ctx: PlayerContext, deltas: Seq<i64>, j: int)
    requires
        forall|i: int| 0 <= i < deltas.len() ==> deltas[i] >= 0,
        0 <= j < deltas.len(),
    ensures
        ({
            let before = spec_after_frames::<D>(AttackState::spec_new(combo), ctx, deltas.take(j));
            let step = before.spec_handle::<D>(ctx, StateEvent::Physics { delta_us: deltas[j] });
            &&& step.1 is None
            &&& step.2 == if spec_total(deltas.take(j)) <= 120_000 < spec_total(deltas.take(j + 1)) {
                seq![PlayerEffect::<D>::SpawnAttackHitbox(30)]
            } else {
                Seq::<PlayerEffect<D>>::empty()
            }
            &&& step.0.hitbox_spawned == (spec_total(deltas.take(j + 1)) > 120_000)
        }),
{
    lemma_frames_so_far::<D>(combo, ctx, deltas, j);
    lemma_frames_so_far::<D>(combo, ctx, deltas, j + 1);
    assert(deltas.take(j + 1).drop_last() =~= deltas.take(j));
    assert(deltas.take(j + 1).last() == deltas[j]);
}

} // verus!

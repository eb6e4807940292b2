use std::collections::VecDeque;

use vstd::prelude::*;

use crate::math::{sat_sub, spec_clamp_i64};
use crate::states::event::{InputAction, StateEvent, TimerName};
use crate::states::{BodyFacts, PlayerContext, PlayerEffect, PlayerState};

verus! {

/// At most this many queued events are handled in one physics frame.
pub const FRAME_EVENT_LIMIT: u32 = 50;

/// How long the player stays invincible after a hit, in microseconds.
pub const INVINCIBLE_US: i64 = 200_000;

/// How long a jump is still allowed after leaving the floor, in microseconds.
pub const COYOTE_US: i64 = 80_000;

/// The state of one polled button in a physics frame.
#[derive(Clone, Copy)]
pub struct ButtonState {
    pub just_pressed: bool,
    pub pressed: bool,
    pub just_released: bool,
}

/// The buttons the player polls every physics frame.
#[derive(Clone, Copy)]
pub struct PolledInput {
    pub jump: ButtonState,
    pub attack: ButtonState,
    pub down: ButtonState,
}

/// The events one polled button produces, in order: just pressed, pressed,
/// just released.
pub open spec fn spec_button_events<D>(b: ButtonState, action: InputAction) -> Seq<StateEvent<D>> {
    let a: Seq<StateEvent<D>> = if b.just_pressed {
        seq![StateEvent::InputJustPressed { action }]
    } else {
        seq![]
    };
    let p: Seq<StateEvent<D>> = if b.pressed {
        seq![StateEvent::InputPressed { action }]
    } else {
        seq![]
    };
    let r: Seq<StateEvent<D>> = if b.just_released {
        seq![StateEvent::InputJustRelease { action }]
    } else {
        seq![]
    };
    a + p + r
}

/// The input events of a frame: jump, then attack, then down.
pub open spec fn spec_input_events<D>(input: PolledInput) -> Seq<StateEvent<D>> {
    spec_button_events(input.jump, InputAction::Jump) + spec_button_events(
        input.attack,
        InputAction::Attack,
    ) + spec_button_events(input.down, InputAction::Down)
}

/// Timers after `delta_us` more microseconds: the ones still running, with
/// their time decreased, and the names of those that ran out, both in the
/// order the timers were started.
pub open spec fn spec_tick(timers: Seq<(TimerName, i64)>, delta_us: i64) -> (
    Seq<(TimerName, i64)>,
    Seq<TimerName>,
)
    decreases timers.len(),
{
    if timers.len() == 0 {
        (seq![], seq![])
    } else {
        let r = spec_tick(timers.drop_last(), delta_us);
        let (name, remaining) = timers.last();
        let left = spec_clamp_i64(remaining - delta_us);
        if left <= 0 {
            (r.0, r.1.push(name))
        } else {
            (r.0.push((name, left)), r.1)
        }
    }
}

/// The timeout events for timers that ran out.
pub open spec fn spec_timeouts<D>(names: Seq<TimerName>) -> Seq<StateEvent<D>> {
    names.map_values(|n: TimerName| StateEvent::TimerTimeout { timer_name: n })
}

/// What the player logic keeps of the effects of a step, and how it changes:
/// started timers join the timer list, damage lands only while the player is
/// not invincible (and makes it invincible); everything else is for the engine.
pub open spec fn spec_settle<D>(
    timers: Seq<(TimerName, i64)>,
    invincible: bool,
    invincible_timer: i64,
    effects: Seq<PlayerEffect<D>>,
) -> (Seq<(TimerName, i64)>, bool, i64, Seq<PlayerEffect<D>>)
    decreases effects.len(),
{
    if effects.len() == 0 {
        (timers, invincible, invincible_timer, seq![])
    } else {
        let r = spec_settle(timers, invincible, invincible_timer, effects.drop_last());
        match effects.last() {
            PlayerEffect::StartTimer(n, d) => (r.0.push((n, d)), r.1, r.2, r.3),
            PlayerEffect::ApplyDamage(x) => {
                if r.1 {
                    r
                } else {
                    (r.0, true, INVINCIBLE_US, r.3.push(PlayerEffect::ApplyDamage(x)))
                }
            },
            e => (r.0, r.1, r.2, r.3.push(e)),
        }
    }
}

/// The state after one event and the effects, including those of leaving
/// the old state and entering the new one.
pub open spec fn spec_dispatch<D>(state: PlayerState, ctx: PlayerContext, event: StateEvent<D>) -> (
    PlayerState,
    Seq<PlayerEffect<D>>,
) {
    let h = state.spec_handle(ctx, event);
    match h.1 {
        Some(next) => {
            let en = next.spec_enter::<D>();
            (en.0, h.2 + h.0.spec_exit::<D>() + en.1)
        },
        None => (h.0, h.2),
    }
}

/// The player's rules apart from physics: its state, queued events,
/// timers, invincibility after a hit and coyote time.
pub struct PlayerCore<D> {
    pub current_state: Option<PlayerState>,
    pub event_queue: VecDeque<StateEvent<D>>,
    /// Running timers with the microseconds they have left.
    pub timers: Vec<(TimerName, i64)>,
    pub is_invincible: bool,
    /// Invincibility left, in microseconds.
    pub invincible_timer: i64,
    /// Coyote time left, in microseconds.
    pub coyote_timer: i64,
    pub coyote_duration: i64,
    /// Events taken from the queue in the current frame.
    pub handled_this_frame: u32,
}

impl<D> PlayerCore<D> {
    /// The current state, if any, keeps its data in range.
    pub open spec fn wf(self) -> bool {
        self.current_state matches Some(s) ==> s.wf()
    }

    /// What the states see besides the event.
    pub open spec fn spec_context(self, body: BodyFacts) -> PlayerContext {
        PlayerContext { body, coyote_active: self.coyote_timer > 0 }
    }

    /// A player with no state yet, nothing queued and no timers.
    pub fn new() -> (p: Self)
        ensures
            p.current_state is None,
            p.event_queue@ == Seq::<StateEvent<D>>::empty(),
            p.timers@ == Seq::<(TimerName, i64)>::empty(),
            !p.is_invincible,
            p.invincible_timer == 0,
            p.coyote_timer == 0,
            p.coyote_duration == COYOTE_US,
            p.handled_this_frame == 0,
            p.wf(),
    {
        PlayerCore {
            current_state: None,
            event_queue: VecDeque::new(),
            timers: Vec::new(),
            is_invincible: false,
            invincible_timer: 0,
            coyote_timer: 0,
            coyote_duration: COYOTE_US,
            handled_this_frame: 0,
        }
    }

    /// Starts a timer of `duration_us` microseconds.
    pub fn start_timer(&mut self, name: TimerName, duration_us: i64)
        ensures
            final(self).timers@ == old(self).timers@.push((name, duration_us)),
            final(self).current_state == old(self).current_state,
            final(self).event_queue@ == old(self).event_queue@,
            final(self).is_invincible == old(self).is_invincible,
            final(self).invincible_timer == old(self).invincible_timer,
            final(self).coyote_timer == old(self).coyote_timer,
            final(self).coyote_duration == old(self).coyote_duration,
            final(self).handled_this_frame == old(self).handled_this_frame,
    {
        self.timers.push((name, duration_us));
    }

    /// A hit with `damage`: ignored while invincible; otherwise the player
    /// becomes invincible for a while and the damage is handed back to be applied.
    pub fn apply_damage(&mut self, damage: D) -> (landed: Option<D>)
        ensures
            old(self).is_invincible ==> landed is None && final(self).is_invincible
                && final(self).invincible_timer == old(self).invincible_timer,
            !old(self).is_invincible ==> landed == Some(damage) && final(self).is_invincible
                && final(self).invincible_timer == INVINCIBLE_US,
            final(self).timers@ == old(self).timers@,
            final(self).current_state == old(self).current_state,
            final(self).event_queue@ == old(self).event_queue@,
            final(self).coyote_timer == old(self).coyote_timer,
            final(self).coyote_duration == old(self).coyote_duration,
            final(self).handled_this_frame == old(self).handled_this_frame,
    {
        if self.is_invincible {
            return None;
        }
        self.is_invincible = true;
        self.invincible_timer = INVINCIBLE_US;
        Some(damage)
    }

    /// Keeps the timers and hits among `effects` and returns the rest, in order.
    fn settle(&mut self, effects: Vec<PlayerEffect<D>>) -> (out: Vec<PlayerEffect<D>>)
        ensures
            ({
                let s = spec_settle(
                    old(self).timers@,
                    old(self).is_invincible,
                    old(self).invincible_timer,
                    effects@,
                );
                &&& final(self).timers@ == s.0
                &&& final(self).is_invincible == s.1
                &&& final(self).invincible_timer == s.2
                &&& out@ == s.3
            }),
            final(self).current_state == old(self).current_state,
            final(self).event_queue@ == old(self).event_queue@,
            final(self).coyote_timer == old(self).coyote_timer,
            final(self).coyote_duration == old(self).coyote_duration,
            final(self).handled_this_frame == old(self).handled_this_frame,
    {
        let ghost all = effects@;
        let ghost t0 = self.timers@;
        let ghost i0 = self.is_invincible;
        let ghost it0 = self.invincible_timer;
        let mut rest = effects;
        let mut out: Vec<PlayerEffect<D>> = Vec::new();
        let n = rest.len();
        let mut i: usize = 0;
        while i < n
            invariant
                n == all.len(),
                i <= n,
                rest@ == all.skip(i as int),
                ({
                    let s = spec_settle(t0, i0, it0, all.take(i as int));
                    &&& self.timers@ == s.0
                    &&& self.is_invincible == s.1
                    &&& self.invincible_timer == s.2
                    &&& out@ == s.3
                }),
                self.current_state == old(self).current_state,
                self.event_queue@ == old(self).event_queue@,
                self.coyote_timer == old(self).coyote_timer,
                self.coyote_duration == old(self).coyote_duration,
                self.handled_this_frame == old(self).handled_this_frame,
            decreases n - i,
        {
            let e = rest.remove(0);
            proof {
                assert(all.take(i + 1).drop_last() =~= all.take(i as int));
                assert(all.take(i + 1).last() == all[i as int]);
                assert(all.skip(i as int)[0] == all[i as int]);
                assert(all.skip(i as int).remove(0) =~= all.skip(i + 1));
            }
            match e {
                PlayerEffect::StartTimer(name, d) => {
                    self.start_timer(name, d);
                },
                PlayerEffect::ApplyDamage(x) => {
                    if let Some(x) = self.apply_damage(x) {
                        out.push(PlayerEffect::ApplyDamage(x));
                    }
                },
                other => {
                    out.push(other);
                },
            }
            i = i + 1;
        }
        proof {
            assert(all.take(n as int) =~= all);
        }
        out
    }

    /// Switches to `state` and enters it; returns what the engine must do.
    pub fn switch_state(&mut self, state: PlayerState) -> (out: Vec<PlayerEffect<D>>)
        requires
            state.wf(),
        ensures
            ({
                let en = state.spec_enter::<D>();
                let s = spec_settle(
                    old(self).timers@,
                    old(self).is_invincible,
                    old(self).invincible_timer,
                    en.1,
                );
                &&& final(self).current_state == Some(en.0)
                &&& final(self).timers@ == s.0
                &&& final(self).is_invincible == s.1
                &&& final(self).invincible_timer == s.2
                &&& out@ == s.3
            }),
            final(self).event_queue@ == old(self).event_queue@,
            final(self).coyote_timer == old(self).coyote_timer,
            final(self).coyote_duration == old(self).coyote_duration,
            final(self).handled_this_frame == old(self).handled_this_frame,
            final(self).wf(),
    {
        let mut state = state;
        let e = state.enter();
        proof {
            crate::states::lemma_transitions_keep_wf::<D>(
                state,
                PlayerContext { body: arbitrary(), coyote_active: false },
                StateEvent::BodyEntered,
            );
        }
        self.current_state = Some(state);
        self.settle(e)
    }

    /// Handles one event in the current state with the body as the engine
    /// reports it now; returns what the engine must do. Without a state the
    /// event is dropped.
    pub fn handle(&mut self, body: BodyFacts, event: StateEvent<D>) -> (out: Vec<PlayerEffect<D>>)
        requires
            old(self).wf(),
        ensures
            final(self).wf(),
            final(self).event_queue@ == old(self).event_queue@,
            final(self).coyote_timer == old(self).coyote_timer,
            final(self).coyote_duration == old(self).coyote_duration,
            final(self).handled_this_frame == old(self).handled_this_frame,
            match old(self).current_state {
                None => {
                    &&& final(self).current_state is None
                    &&& final(self).timers@ == old(self).timers@
                    &&& final(self).is_invincible == old(self).is_invincible
                    &&& final(self).invincible_timer == old(self).invincible_timer
                    &&& out@ == Seq::<PlayerEffect<D>>::empty()
                },
                Some(cur) => {
                    let d = spec_dispatch(cur, old(self).spec_context(body), event);
                    let s = spec_settle(
                        old(self).timers@,
                        old(self).is_invincible,
                        old(self).invincible_timer,
                        d.1,
                    );
                    &&& final(self).current_state == Some(d.0)
                    &&& final(self).timers@ == s.0
                    &&& final(self).is_invincible == s.1
                    &&& final(self).invincible_timer == s.2
                    &&& out@ == s.3
                },
            },
    {
        let ctx = PlayerContext { body, coyote_active: self.coyote_timer > 0 };
        match self.current_state.take() {
            None => Vec::new(),
            Some(mut state) => {
                let ghost cur = state;
                proof {
                    crate::states::lemma_transitions_keep_wf::<D>(cur, ctx, event);
                }
                let (next, mut effects) = state.handle_event(&ctx, event);
                match next {
                    Some(mut new_state) => {
                        let mut ex = state.exit();
                        effects.append(&mut ex);
                        let mut en = new_state.enter();
                        effects.append(&mut en);
                        self.current_state = Some(new_state);
                    },
                    None => {
                        self.current_state = Some(state);
                    },
                }
                self.settle(effects)
            },
        }
    }

    /// Starts a physics frame of `delta_us` microseconds: queues the input
    /// events, a physics event and a timeout for each timer that runs out,
    /// counts down the invincibility, and opens a new event budget.
    pub fn begin_frame(&mut self, input: PolledInput, delta_us: i64)
        ensures
            ({
                let t = spec_tick(old(self).timers@, delta_us);
                &&& final(self).event_queue@ == old(self).event_queue@ + spec_input_events::<D>(input)
                    + seq![StateEvent::Physics { delta_us }] + spec_timeouts::<D>(t.1)
                &&& final(self).timers@ == t.0
            }),
            old(self).is_invincible ==> {
                let left = spec_clamp_i64(old(self).invincible_timer - delta_us);
                &&& final(self).invincible_timer == left
                &&& final(self).is_invincible == (left > 0)
            },
            !old(self).is_invincible ==> !final(self).is_invincible
                && final(self).invincible_timer == old(self).invincible_timer,
            final(self).handled_this_frame == 0,
            final(self).current_state == old(self).current_state,
            final(self).coyote_timer == old(self).coyote_timer,
            final(self).coyote_duration == old(self).coyote_duration,
    {
        self.queue_input(input);
        self.event_queue.push_back(StateEvent::Physics { delta_us });
        let mut old_timers: Vec<(TimerName, i64)> = Vec::new();
        std::mem::swap(&mut old_timers, &mut self.timers);
        let (kept, expired) = tick_timers(old_timers, delta_us);
        self.timers = kept;
        self.queue_timeouts(expired);
        if self.is_invincible {
            self.invincible_timer = sat_sub(self.invincible_timer, delta_us);
            if self.invincible_timer <= 0 {
                self.is_invincible = false;
            }
        }
        self.handled_this_frame = 0;
    }

    /// Queues the input events of a frame.
    #[verifier::rlimit(60)]
    fn queue_input(&mut self, input: PolledInput)
        ensures
            final(self).event_queue@ == old(self).event_queue@ + spec_input_events::<D>(input),
            final(self).timers@ == old(self).timers@,
            final(self).current_state == old(self).current_state,
            final(self).is_invincible == old(self).is_invincible,
            final(self).invincible_timer == old(self).invincible_timer,
            final(self).coyote_timer == old(self).coyote_timer,
            final(self).coyote_duration == old(self).coyote_duration,
            final(self).handled_this_frame == old(self).handled_this_frame,
    {
        let ghost q0 = self.event_queue@;
        let ghost a = spec_button_events::<D>(input.jump, InputAction::Jump);
        let ghost b = spec_button_events::<D>(input.attack, InputAction::Attack);
        let ghost c = spec_button_events::<D>(input.down, InputAction::Down);
        self.push_button(input.jump, 0);
        assert(self.event_queue@ == q0 + a);
        self.push_button(input.attack, 1);
        assert(self.event_queue@ == q0 + a + b);
        self.push_button(input.down, 2);
        assert(self.event_queue@ == q0 + a + b + c);
        proof {
            assert(q0 + a + b + c =~= q0 + (a + b + c));
        }
    }

    /// Queues a timeout event for each of `names`, in order.
    fn queue_timeouts(&mut self, names: Vec<TimerName>)
        ensures
            final(self).event_queue@ == old(self).event_queue@ + spec_timeouts::<D>(names@),
            final(self).timers@ == old(self).timers@,
            final(self).current_state == old(self).current_state,
            final(self).is_invincible == old(self).is_invincible,
            final(self).invincible_timer == old(self).invincible_timer,
            final(self).coyote_timer == old(self).coyote_timer,
            final(self).coyote_duration == old(self).coyote_duration,
            final(self).handled_this_frame == old(self).handled_this_frame,
    {
        let ghost before = self.event_queue@;
        let ghost all = names@;
        let mut rest = names;
        let n = rest.len();
        let mut i: usize = 0;
        while i < n
            invariant
                n == all.len(),
                i <= n,
                rest@ == all.skip(i as int),
                self.event_queue@ == before + spec_timeouts::<D>(all.take(i as int)),
                self.timers@ == old(self).timers@,
                self.current_state == old(self).current_state,
                self.is_invincible == old(self).is_invincible,
                self.invincible_timer == old(self).invincible_timer,
                self.coyote_timer == old(self).coyote_timer,
                self.coyote_duration == old(self).coyote_duration,
                self.handled_this_frame == old(self).handled_this_frame,
            decreases n - i,
        {
            let name = rest.remove(0);
            proof {
                assert(all.skip(i as int)[0] == all[i as int]);
                assert(all.skip(i as int).remove(0) =~= all.skip(i + 1));
                assert(spec_timeouts::<D>(all.take(i + 1)) =~= spec_timeouts::<D>(all.take(i as int)).push(
                    StateEvent::TimerTimeout { timer_name: all[i as int] },
                ));
            }
            self.event_queue.push_back(StateEvent::TimerTimeout { timer_name: name });
            i = i + 1;
        }
        proof {
            assert(all.take(n as int) =~= all);
        }
    }

    /// Queues the events of one polled button.
    fn push_button(&mut self, b: ButtonState, which: u8)
        requires
            which < 3,
        ensures
            final(self).event_queue@ == old(self).event_queue@ + spec_button_events::<D>(
                b,
                spec_polled(which),
            ),
            final(self).timers@ == old(self).timers@,
            final(self).current_state == old(self).current_state,
            final(self).is_invincible == old(self).is_invincible,
            final(self).invincible_timer == old(self).invincible_timer,
            final(self).coyote_timer == old(self).coyote_timer,
            final(self).coyote_duration == old(self).coyote_duration,
            final(self).handled_this_frame == old(self).handled_this_frame,
    {
        let ghost f = spec_polled(which);
        if b.just_pressed {
            self.event_queue.push_back(StateEvent::InputJustPressed { action: polled(which) });
        }
        if b.pressed {
            self.event_queue.push_back(StateEvent::InputPressed { action: polled(which) });
        }
        if b.just_released {
            self.event_queue.push_back(StateEvent::InputJustRelease { action: polled(which) });
        }
        proof {
            assert(final(self).event_queue@ =~= old(self).event_queue@ + spec_button_events::<D>(b, f));
        }
    }

    /// Takes the next queued event of this frame. Once the frame's budget of
    /// events is used up, the event that would exceed it is dropped and
    /// nothing more is handed out until the next frame.
    pub fn next_event(&mut self) -> (r: Option<StateEvent<D>>)
        ensures
            old(self).handled_this_frame > FRAME_EVENT_LIMIT ==> r is None && *final(self) == *old(
                self,
            ),
            old(self).handled_this_frame <= FRAME_EVENT_LIMIT && old(self).event_queue@.len() == 0
                ==> r is None && final(self).handled_this_frame == old(self).handled_this_frame
                && final(self).event_queue@ == old(self).event_queue@,
            old(self).handled_this_frame <= FRAME_EVENT_LIMIT && old(self).event_queue@.len() > 0
                ==> final(self).event_queue@ == old(self).event_queue@.drop_first()
                && final(self).handled_this_frame == old(self).handled_this_frame + 1
                && (if final(self).handled_this_frame <= FRAME_EVENT_LIMIT {
                r == Some(old(self).event_queue@[0])
            } else {
                r is None
            }),
            r is Some ==> final(self).handled_this_frame <= FRAME_EVENT_LIMIT,
            final(self).current_state == old(self).current_state,
            final(self).timers@ == old(self).timers@,
            final(self).is_invincible == old(self).is_invincible,
            final(self).invincible_timer == old(self).invincible_timer,
            final(self).coyote_timer == old(self).coyote_timer,
            final(self).coyote_duration == old(self).coyote_duration,
    {
        if self.handled_this_frame > FRAME_EVENT_LIMIT {
            return None;
        }
        match self.event_queue.pop_front() {
            None => None,
            Some(event) => {
                self.handled_this_frame = self.handled_this_frame + 1;
                if self.handled_this_frame > FRAME_EVENT_LIMIT {
                    None
                } else {
                    Some(event)
                }
            },
        }
    }

    /// Ends a physics frame: on the floor the coyote time is full again,
    /// in the air it runs down to zero.
    pub fn end_frame(&mut self, on_floor: bool, delta_us: i64)
        ensures
            on_floor ==> final(self).coyote_timer == old(self).coyote_duration,
            !on_floor ==> final(self).coyote_timer == (if spec_clamp_i64(
                old(self).coyote_timer - delta_us,
            ) > 0 {
                spec_clamp_i64(old(self).coyote_timer - delta_us)
            } else {
                0
            }),
            final(self).current_state == old(self).current_state,
            final(self).event_queue@ == old(self).event_queue@,
            final(self).timers@ == old(self).timers@,
            final(self).is_invincible == old(self).is_invincible,
            final(self).invincible_timer == old(self).invincible_timer,
            final(self).coyote_duration == old(self).coyote_duration,
            final(self).handled_this_frame == old(self).handled_this_frame,
    {
        if on_floor {
            self.coyote_timer = self.coyote_duration;
        } else {
            let left = sat_sub(self.coyote_timer, delta_us);
            self.coyote_timer = if left > 0 { left } else { 0 };
        }
    }
}

/// The polled action with index `which`: jump, attack or down.
pub open spec fn spec_polled(which: u8) -> InputAction {
    if which == 0 {
        InputAction::Jump
    } else if which == 1 {
        InputAction::Attack
    } else {
        InputAction::Down
    }
}

/// The polled action with index `which`: jump, attack or down.
fn polled(which: u8) -> (a: InputAction)
    requires
        which < 3,
    ensures
        a == spec_polled(which),
{
    if which == 0 {
        InputAction::Jump
    } else if which == 1 {
        InputAction::Attack
    } else {
        InputAction::Down
    }
}

/// Counts `delta_us` microseconds off every timer; returns the timers still
/// running and the names of those that ran out.
pub fn tick_timers(timers: Vec<(TimerName, i64)>, delta_us: i64) -> (r: (
    Vec<(TimerName, i64)>,
    Vec<TimerName>,
))
    ensures
        (r.0@, r.1@) == spec_tick(timers@, delta_us),
{
    let ghost all = timers@;
    let mut rest = timers;
    let mut kept: Vec<(TimerName, i64)> = Vec::new();
    let mut expired: Vec<TimerName> = Vec::new();
    let n = rest.len();
    let mut i: usize = 0;
    while i < n
        invariant
            n == all.len(),
            i <= n,
            rest@ == all.skip(i as int),
            (kept@, expired@) == spec_tick(all.take(i as int), delta_us),
        decreases n - i,
    {
        let (name, remaining) = rest.remove(0);
        proof {
            assert(all.take(i + 1).drop_last() =~= all.take(i as int));
            assert(all.skip(i as int)[0] == all[i as int]);
            assert(all.skip(i as int).remove(0) =~= all.skip(i + 1));
        }
        let left = sat_sub(remaining, delta_us);
        if left <= 0 {
            expired.push(name);
        } else {
            kept.push((name, left));
        }
        i = i + 1;
    }
    proof {
        assert(all.take(n as int) =~= all);
    }
    (kept, expired)
}

/// Timers still running after a tick all have time left.
pub proof fn lemma_tick_keeps_running_timers(timers: Seq<(TimerName, i64)>, delta_us: i64)
    ensures
        forall|k: int|
            0 <= k < spec_tick(timers, delta_us).0.len() ==> #[trigger] spec_tick(
                timers,
                delta_us,
            ).0[k].1 > 0,
        spec_tick(timers, delta_us).0.len() + spec_tick(timers, delta_us).1.len() == timers.len(),
    decreases timers.len(),
{
    if timers.len() > 0 {
        lemma_tick_keeps_running_timers(timers.drop_last(), delta_us);
    }
}

/// A hit within the invincibility window after another hit does not land:
/// of two damage effects settled together, only the first reaches the engine.
pub proof fn lemma_second_hit_is_ignored<D>(
    timers: Seq<(TimerName, i64)>,
    invincible_timer: i64,
    a: D,
    b: D,
)
    ensures
        spec_settle(
            timers,
            false,
            invincible_timer,
            seq![PlayerEffect::ApplyDamage(a), PlayerEffect::ApplyDamage(b)],
        ).3 == seq![PlayerEffect::ApplyDamage(a)],
        spec_settle(timers, true, invincible_timer, seq![PlayerEffect::ApplyDamage(a)]).3
            == Seq::<PlayerEffect<D>>::empty(),
{
    let two = seq![PlayerEffect::ApplyDamage(a), PlayerEffect::ApplyDamage(b)];
    let one = seq![PlayerEffect::ApplyDamage(a)];
    let none = Seq::<PlayerEffect<D>>::empty();
    assert(two.drop_last() =~= one);
    assert(one.drop_last() =~= none);
    assert(spec_settle(timers, false, invincible_timer, none).3 =~= none);
    assert(spec_settle(timers, false, invincible_timer, one).3 =~= one);
    assert(spec_settle(timers, true, invincible_timer, none).3 =~= none);
    assert(spec_settle(timers, true, invincible_timer, one).3 =~= none);
}

/// The state current after dispatching `events` in order from `cur`, the
/// `i`-th with context `ctxs[i]`, and the effects of all of them in order.
/// Each event goes to the state current at that moment; without a state,
/// events are dropped.
pub open spec fn spec_dispatch_all<D>(
    cur: Option<PlayerState>,
    ctxs: Seq<PlayerContext>,
    events: Seq<StateEvent<D>>,
) -> (Option<PlayerState>, Seq<PlayerEffect<D>>)
    decreases events.len(),
{
    if events.len() == 0 {
        (cur, Seq::empty())
    } else {
        let r = spec_dispatch_all(cur, ctxs, events.drop_last());
        match r.0 {
            None => (None, r.1),
            Some(s) => {
                let d = spec_dispatch(s, ctxs[events.len() - 1], events.last());
                (Some(d.0), r.1 + d.1)
            },
        }
    }
}

/// A frame's events are handled one after another by whatever state is
/// current: with a state the player always has one afterwards, each event
/// that switches leaves the old state before entering the new one, and
/// every valid state stays valid; without a state every event is dropped
/// and nothing happens.
pub proof fn lemma_frame_dispatch<D>(
    cur: Option<PlayerState>,
    ctxs: Seq<PlayerContext>,
    events: Seq<StateEvent<D>>,
)
    ensures
        cur is Some ==> spec_dispatch_all(cur, ctxs, events).0 is Some,
        (cur matches Some(s) && s.wf()) ==> (spec_dispatch_all(cur, ctxs, events).0 matches Some(n)
            && n.wf()),
        cur is None ==> spec_dispatch_all(cur, ctxs, events) == (
            Option::<PlayerState>::None,
            Seq::<PlayerEffect<D>>::empty(),
        ),
        events.len() > 0 ==> match spec_dispatch_all(cur, ctxs, events.drop_last()).0 {
            Some(s) => {
                let h = s.spec_handle(ctxs[events.len() - 1], events.last());
                spec_dispatch_all(cur, ctxs, events).1 == spec_dispatch_all(
                    cur,
                    ctxs,
                    events.drop_last(),
                ).1 + match h.1 {
                    Some(next) => h.2 + h.0.spec_exit::<D>() + next.spec_enter::<D>().1,
                    None => h.2,
                }
            },
            None => true,
        },
    decreases events.len(),
{
    if events.len() > 0 {
        lemma_frame_dispatch(cur, ctxs, events.drop_last());
        let r = spec_dispatch_all(cur, ctxs, events.drop_last());
        if let Some(s) = r.0 {
            if s.wf() {
                crate::states::lemma_transitions_keep_wf::<D>(
                    s,
                    ctxs[events.len() - 1],
                    events.last(),
                );
            }
        }
        if cur is None {
            assert(r.1 + Seq::<PlayerEffect<D>>::empty() =~= r.1);
        }
    }
}

/// How many hits (`ApplyDamage` effects) `effects` holds.
pub open spec fn spec_hit_count<D>(effects: Seq<PlayerEffect<D>>) -> nat
    decreases effects.len(),
{
    if effects.len() == 0 {
        0
    } else {
        spec_hit_count(effects.drop_last()) + if effects.last() is ApplyDamage {
            1nat
        } else {
            0nat
        }
    }
}

/// Settling a step's effects agrees with `apply_damage`: once a hit reaches
/// the engine the player is invincible for the full window of
/// `INVINCIBLE_US`; at most one hit of a step lands, and one does exactly
/// when the player was not invincible and the step holds a hit; while
/// invincible no hit lands and the window is left as it was; and a step
/// without a landed hit leaves invincibility alone.
pub proof fn lemma_settled_hit_starts_invincibility<D>(
    timers: Seq<(TimerName, i64)>,
    invincible: bool,
    invincible_timer: i64,
    effects: Seq<PlayerEffect<D>>,
)
    ensures
        ({
            let s = spec_settle(timers, invincible, invincible_timer, effects);
            &&& spec_hit_count(s.3) > 0 ==> s.1 && s.2 == INVINCIBLE_US
            &&& spec_hit_count(s.3) <= 1
            &&& invincible ==> spec_hit_count(s.3) == 0 && s.1 && s.2 == invincible_timer
            &&& !invincible ==> spec_hit_count(s.3) == (if spec_hit_count(effects) > 0 {
                1nat
            } else {
                0nat
            })
            &&& spec_hit_count(s.3) == 0 ==> s.1 == invincible && s.2 == invincible_timer
        }),
    decreases effects.len(),
{
    if effects.len() > 0 {
        let prefix = effects.drop_last();
        lemma_settled_hit_starts_invincibility(timers, invincible, invincible_timer, prefix);
        let r = spec_settle(timers, invincible, invincible_timer, prefix);
        let e = effects.last();
        assert(r.3.push(e).drop_last() =~= r.3);
    }
}

} // verus!

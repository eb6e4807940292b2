use vstd::prelude::*;

use crate::states::event::StateEvent;
use crate::states::{PlayerAnimation, PlayerContext, PlayerEffect, PlayerState, Speed};

verus! {

/// Dead: nothing moves the player any more.
pub struct DieState {}

impl DieState {
    pub fn new() -> (s: Self)
        ensures
            s == (DieState {  }),
    {
        DieState {  }
    }

    pub open spec fn spec_enter<D>() -> Seq<PlayerEffect<D>> {
        seq![
            PlayerEffect::SetHorizontalSpeed(Speed::Zero),
            PlayerEffect::PlayAnimation(PlayerAnimation::Die),
        ]
    }

    /// Stops the player and plays the death animation.
    pub fn enter<D>(&mut self) -> (e: Vec<PlayerEffect<D>>)
        ensures
            *final(self) == *old(self),
            e@ == Self::spec_enter::<D>(),
    {
        let mut e = Vec::new();
        e.push(PlayerEffect::SetHorizontalSpeed(Speed::Zero));
        e.push(PlayerEffect::PlayAnimation(PlayerAnimation::Die));
        e
    }

    /// Ignores every event.
    pub fn handle_event<D>(&mut self, _ctx: &PlayerContext, _event: StateEvent<D>) -> (r: (
        Option<PlayerState>,
        Vec<PlayerEffect<D>>,
    ))
        ensures
            *final(self) == *old(self),
            r.0 is None,
            r.1@ == Seq::<PlayerEffect<D>>::empty(),
    {
        (None, Vec::new())
    }
}

} // verus!

use vstd::prelude::*;

use crate::text::text_eq;

verus! {

/// The door's animations.
#[derive(Clone, Copy, Debug, PartialEq, Eq, Structural)]
pub enum DoorAnimation {
    Open,
    Close,
    Opened,
    Closed,
}

impl DoorAnimation {
    pub open spec fn spec_name(self) -> Seq<char> {
        match self {
            DoorAnimation::Open => "open"@,
            DoorAnimation::Close => "close"@,
            DoorAnimation::Opened => "opened"@,
            DoorAnimation::Closed => "closed"@,
        }
    }

    /// The animation's name in the animation player.
    pub fn name(&self) -> (s: &'static str)
        ensures
            s@ == self.spec_name(),
    {
        match self {
            DoorAnimation::Open => "open",
            DoorAnimation::Close => "close",
            DoorAnimation::Opened => "opened",
            DoorAnimation::Closed => "closed",
        }
    }
}

/// The animation that follows when `finished` ends: an opening door stays
/// open, a closing door stays closed, anything else is left as it is.
pub fn on_animation_finished(finished: &str) -> (next: Option<DoorAnimation>)
    ensures
        finished@ == "open"@ ==> next == Some(DoorAnimation::Opened),
        finished@ == "close"@ ==> next == Some(DoorAnimation::Closed),
        finished@ != "open"@ && finished@ != "close"@ ==> next is None,
{
    proof {
        reveal_strlit("open");
        reveal_strlit("close");
        assert("open"@.len() != "close"@.len());
    }
    if text_eq(finished, "open") {
        Some(DoorAnimation::Opened)
    } else if text_eq(finished, "close") {
        Some(DoorAnimation::Closed)
    } else {
        None
    }
}

} // verus!

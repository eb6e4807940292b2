use vstd::prelude::*;

verus! {

/// The kinds of dust effects the visual effect manager can spawn.
#[derive(Clone, Copy, Debug, PartialEq, Eq, Structural)]
pub enum VisualEffectType {
    Jump,
    Land,
    Hit,
}

impl VisualEffectType {
    /// Name of the animation that plays the effect.
    pub open spec fn spec_animation_name(self) -> Seq<char> {
        match self {
            VisualEffectType::Jump => "jump"@,
            VisualEffectType::Land => "land"@,
            VisualEffectType::Hit => "hit"@,
        }
    }

    /// Name of the animation that plays the effect.
    pub fn animation_name(&self) -> (name: &'static str)
        ensures
            name@ == self.spec_animation_name(),
    {
        match self {
            VisualEffectType::Jump => "jump",
            VisualEffectType::Land => "land",
            VisualEffectType::Hit => "hit",
        }
    }
}

} // verus!

use vstd::prelude::*;

verus! {

/// The abilities a pickup can grant.
#[derive(Clone, Copy, Debug, PartialEq, Eq, Structural)]
pub enum AbilityType {
    DoubleJump,
    Slam,
    Dash,
    MorphRoll,
}

impl AbilityType {
    pub open spec fn spec_animation_name(self) -> Seq<char> {
        match self {
            AbilityType::DoubleJump => "double_jump"@,
            AbilityType::Slam => "slam"@,
            AbilityType::Dash => "dash"@,
            AbilityType::MorphRoll => "morph_roll"@,
        }
    }

    /// The animation the pickup plays to show its ability.
    pub fn animation_name(&self) -> (s: &'static str)
        ensures
            s@ == self.spec_animation_name(),
    {
        match self {
            AbilityType::DoubleJump => "double_jump",
            AbilityType::Slam => "slam",
            AbilityType::Dash => "dash",
            AbilityType::MorphRoll => "morph_roll",
        }
    }
}

} // verus!

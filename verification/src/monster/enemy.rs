use vstd::prelude::*;

use crate::text::text_eq;

verus! {

/// Which of the nodes an enemy needs are among its children.
#[derive(Clone, Copy)]
pub struct EnemyParts {
    pub animation_player: bool,
    pub sprite: bool,
    pub damage_area: bool,
    pub attack_area: bool,
    pub state_machine: bool,
    pub decision_engine: bool,
}

/// The editor warnings for the missing parts, in a fixed order.
pub open spec fn spec_configuration_warnings(p: EnemyParts) -> Seq<Seq<char>> {
    let w0: Seq<Seq<char>> = if p.animation_player { seq![] } else { seq!["Requires an AnimationPlayer!"@] };
    let w1 = if p.sprite { w0 } else { w0.push("Requires a Sprite2D!"@) };
    let w2 = if p.damage_area { w1 } else { w1.push("Requires a DamageArea node!"@) };
    let w3 = if p.attack_area { w2 } else { w2.push("Requires a AttackArea node!"@) };
    let w4 = if p.state_machine { w3 } else { w3.push("Requires a EnemyStateMachine node!"@) };
    if p.decision_engine { w4 } else { w4.push("Requires a DecisionEngine node!"@) }
}

/// The editor warnings for an enemy with the given parts.
pub fn configuration_warnings(p: EnemyParts) -> (w: Vec<&'static str>)
    ensures
        w@.map_values(|s: &'static str| s@) == spec_configuration_warnings(p),
{
    let mut w: Vec<&'static str> = Vec::new();
    if !p.animation_player {
        w.push("Requires an AnimationPlayer!");
    }
    if !p.sprite {
        w.push("Requires a Sprite2D!");
    }
    if !p.damage_area {
        w.push("Requires a DamageArea node!");
    }
    if !p.attack_area {
        w.push("Requires a AttackArea node!");
    }
    if !p.state_machine {
        w.push("Requires a EnemyStateMachine node!");
    }
    if !p.decision_engine {
        w.push("Requires a DecisionEngine node!");
    }
    proof {
        assert(w@.map_values(|s: &'static str| s@) =~= spec_configuration_warnings(p));
    }
    w
}

/// How an enemy plays an animation by name.
#[derive(Clone, Copy, Debug, PartialEq, Eq, Structural)]
pub enum AnimationCommand {
    /// The animation is already playing: seek it back to the start.
    Restart,
    /// Start playing it.
    Play,
    /// The animation player has no such animation.
    Missing,
}

/// How to play `anim_name` when the animation player has it (`has_animation`)
/// and currently plays `current`: restart it if it is the current one,
/// play it otherwise; report it missing when the player lacks it.
pub fn play_animation(has_animation: bool, current: &str, anim_name: &str) -> (c: AnimationCommand)
    ensures
        !has_animation ==> c == AnimationCommand::Missing,
        has_animation && current@ == anim_name@ ==> c == AnimationCommand::Restart,
        has_animation && current@ != anim_name@ ==> c == AnimationCommand::Play,
{
    if has_animation {
        if text_eq(current, anim_name) {
            AnimationCommand::Restart
        } else {
            AnimationCommand::Play
        }
    } else {
        AnimationCommand::Missing
    }
}

} // verus!

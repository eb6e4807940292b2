use vstd::prelude::*;

use crate::text::text_eq;

verus! {

/// What the decision engine reads of an enemy's blackboard.
#[derive(Clone, Copy)]
pub struct BlackboardFacts {
    /// A hit was registered and not yet consumed.
    pub has_damage_source: bool,
    /// The enemy's health is zero or less.
    pub health_depleted: bool,
    /// The enemy may pick a new behaviour.
    pub can_decide: bool,
}

/// The behaviours an enemy can be told to switch to.
#[derive(Clone, Copy, Debug, PartialEq, Eq, Structural)]
pub enum EnemyIntent {
    Death,
    Stun,
    Walk,
}

impl EnemyIntent {
    pub open spec fn spec_name(self) -> Seq<char> {
        match self {
            EnemyIntent::Death => "death"@,
            EnemyIntent::Stun => "stun"@,
            EnemyIntent::Walk => "walk"@,
        }
    }

    /// The name of the state node that implements the behaviour.
    pub fn name(&self) -> (s: &'static str)
        ensures
            s@ == self.spec_name(),
    {
        match self {
            EnemyIntent::Death => "death",
            EnemyIntent::Stun => "stun",
            EnemyIntent::Walk => "walk",
        }
    }
}

/// Picks an enemy's next behaviour from its blackboard.
pub struct DecisionEngine {
    /// The behaviour the engine considers current, by name.
    pub current_state: Option<String>,
}

/// The behaviour to switch to, if any.
pub open spec fn spec_decide(current: Option<Seq<char>>, board: Option<BlackboardFacts>) -> Option<
    EnemyIntent,
> {
    match board {
        None => Some(EnemyIntent::Walk),
        Some(b) => {
            if b.has_damage_source {
                if b.health_depleted {
                    Some(EnemyIntent::Death)
                } else {
                    Some(EnemyIntent::Stun)
                }
            } else if current == Some("death"@) {
                None
            } else if !b.can_decide {
                None
            } else {
                Some(EnemyIntent::Walk)
            }
        },
    }
}

impl DecisionEngine {
    pub fn new() -> (d: Self)
        ensures
            d.current_state is None,
    {
        DecisionEngine { current_state: None }
    }

    /// The name of the current behaviour, if any.
    pub open spec fn current_name(self) -> Option<Seq<char>> {
        match self.current_state {
            Some(s) => Some(s@),
            None => None,
        }
    }

    /// Decides the next behaviour: a fresh hit means death when the health
    /// is gone and a stun otherwise; a dead enemy, or one that may not
    /// decide, keeps its behaviour; anything else walks. Without a
    /// blackboard the enemy walks.
    pub fn decide(&self, board: Option<BlackboardFacts>) -> (r: Option<EnemyIntent>)
        ensures
            r == spec_decide(self.current_name(), board),
            board is Some && board.unwrap().has_damage_source ==> r is Some && (r == Some(
                EnemyIntent::Death,
            ) <==> board.unwrap().health_depleted),
    {
        if let Some(b) = board {
            if b.has_damage_source {
                if b.health_depleted {
                    return Some(EnemyIntent::Death);
                } else {
                    return Some(EnemyIntent::Stun);
                }
            }
            match &self.current_state {
                Some(a) => {
                    if text_eq(a.as_str(), "death") {
                        return None;
                    }
                },
                None => {},
            }
            if !b.can_decide {
                return None;
            }
        }
        Some(EnemyIntent::Walk)
    }
}

} // verus!

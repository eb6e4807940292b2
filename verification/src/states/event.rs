use vstd::prelude::*;

use crate::text::text_eq;

verus! {

/// The input actions the player states react to.
pub enum InputAction {
    Jump,
    Attack,
    Down,
    Dash,
    Roll,
    /// Any other action, by its name.
    Other(String),
}

impl InputAction {
    /// The action is `jump`, however it was built.
    pub open spec fn spec_is_jump(&self) -> bool {
        *self is Jump || (*self matches InputAction::Other(s) && s@ == "jump"@)
    }

    /// The action is `attack`, however it was built.
    pub open spec fn spec_is_attack(&self) -> bool {
        *self is Attack || (*self matches InputAction::Other(s) && s@ == "attack"@)
    }

    /// The action is `down`, however it was built.
    pub open spec fn spec_is_down(&self) -> bool {
        *self is Down || (*self matches InputAction::Other(s) && s@ == "down"@)
    }

    /// The action is `dash`, however it was built.
    pub open spec fn spec_is_dash(&self) -> bool {
        *self is Dash || (*self matches InputAction::Other(s) && s@ == "dash"@)
    }

    /// The action is `roll`, however it was built.
    pub open spec fn spec_is_roll(&self) -> bool {
        *self is Roll || (*self matches InputAction::Other(s) && s@ == "roll"@)
    }

    /// Whether the action is named `jump`.
    pub fn is_jump(&self) -> (r: bool)
        ensures
            r == self.spec_is_jump(),
    {
        match self {
            InputAction::Jump => true,
            InputAction::Other(s) => text_eq(s.as_str(), "jump"),
            _ => false,
        }
    }

    /// Whether the action is named `attack`.
    pub fn is_attack(&self) -> (r: bool)
        ensures
            r == self.spec_is_attack(),
    {
        match self {
            InputAction::Attack => true,
            InputAction::Other(s) => text_eq(s.as_str(), "attack"),
            _ => false,
        }
    }

    /// Whether the action is named `down`.
    pub fn is_down(&self) -> (r: bool)
        ensures
            r == self.spec_is_down(),
    {
        match self {
            InputAction::Down => true,
            InputAction::Other(s) => text_eq(s.as_str(), "down"),
            _ => false,
        }
    }

    /// Whether the action is named `dash`.
    pub fn is_dash(&self) -> (r: bool)
        ensures
            r == self.spec_is_dash(),
    {
        match self {
            InputAction::Dash => true,
            InputAction::Other(s) => text_eq(s.as_str(), "dash"),
            _ => false,
        }
    }

    /// Whether the action is named `roll`.
    pub fn is_roll(&self) -> (r: bool)
        ensures
            r == self.spec_is_roll(),
    {
        match self {
            InputAction::Roll => true,
            InputAction::Other(s) => text_eq(s.as_str(), "roll"),
            _ => false,
        }
    }

    /// The action named `name` in the input map.
    pub fn from_name(name: &str) -> (a: InputAction)
        ensures
            name@ == "jump"@ ==> a is Jump,
            name@ != "jump"@ && name@ == "attack"@ ==> a is Attack,
            name@ != "jump"@ && name@ != "attack"@ && name@ == "down"@ ==> a is Down,
            name@ != "jump"@ && name@ != "attack"@ && name@ != "down"@ && name@ == "dash"@
                ==> a is Dash,
            name@ != "jump"@ && name@ != "attack"@ && name@ != "down"@ && name@ != "dash"@
                && name@ == "roll"@ ==> a is Roll,
            name@ != "jump"@ && name@ != "attack"@ && name@ != "down"@ && name@ != "dash"@
                && name@ != "roll"@ ==> (a matches InputAction::Other(s) && s@ == name@),
    {
        if text_eq(name, "jump") {
            InputAction::Jump
        } else if text_eq(name, "attack") {
            InputAction::Attack
        } else if text_eq(name, "down") {
            InputAction::Down
        } else if text_eq(name, "dash") {
            InputAction::Dash
        } else if text_eq(name, "roll") {
            InputAction::Roll
        } else {
            InputAction::Other(name.to_owned())
        }
    }
}

/// The names of the timers the player states start.
pub enum TimerName {
    /// `attack_timer`
    Attack,
    /// `hurt_timer`
    Hurt,
    /// Any other timer, by its name.
    Other(String),
}

impl TimerName {
    /// The timer is `attack_timer`, however it was built.
    pub open spec fn spec_is_attack(&self) -> bool {
        *self is Attack || (*self matches TimerName::Other(s) && s@ == "attack_timer"@)
    }

    /// The timer is `hurt_timer`, however it was built.
    pub open spec fn spec_is_hurt(&self) -> bool {
        *self is Hurt || (*self matches TimerName::Other(s) && s@ == "hurt_timer"@)
    }

    /// Whether the timer is named `attack_timer`.
    pub fn is_attack(&self) -> (r: bool)
        ensures
            r == self.spec_is_attack(),
    {
        match self {
            TimerName::Attack => true,
            TimerName::Other(s) => text_eq(s.as_str(), "attack_timer"),
            _ => false,
        }
    }

    /// Whether the timer is named `hurt_timer`.
    pub fn is_hurt(&self) -> (r: bool)
        ensures
            r == self.spec_is_hurt(),
    {
        match self {
            TimerName::Hurt => true,
            TimerName::Other(s) => text_eq(s.as_str(), "hurt_timer"),
            _ => false,
        }
    }

    /// The timer named `name`.
    pub fn from_name(name: &str) -> (t: TimerName)
        ensures
            name@ == "attack_timer"@ ==> t is Attack,
            name@ != "attack_timer"@ && name@ == "hurt_timer"@ ==> t is Hurt,
            name@ != "attack_timer"@ && name@ != "hurt_timer"@ ==> (t matches TimerName::Other(
                s,
            ) && s@ == name@),
    {
        if text_eq(name, "attack_timer") {
            TimerName::Attack
        } else if text_eq(name, "hurt_timer") {
            TimerName::Hurt
        } else {
            TimerName::Other(name.to_owned())
        }
    }

    /// The timer's name.
    pub fn name(&self) -> (s: String)
        ensures
            self is Attack ==> s@ == "attack_timer"@,
            self is Hurt ==> s@ == "hurt_timer"@,
            self matches TimerName::Other(n) ==> s@ == n@,
    {
        match self {
            TimerName::Attack => "attack_timer".to_owned(),
            TimerName::Hurt => "hurt_timer".to_owned(),
            TimerName::Other(n) => n.clone(),
        }
    }
}

/// What happens to the player: input, time passing, timers, animation and
/// physics callbacks, and damage. `D` is the damage a hit carries, handed on
/// untouched to whoever applies it.
pub enum StateEvent<D> {
    /// A physics frame of `delta_us` microseconds.
    Physics { delta_us: i64 },
    InputJustPressed { action: InputAction },
    InputJustRelease { action: InputAction },
    InputPressed { action: InputAction },
    InputRelease { action: InputAction },
    TimerTimeout { timer_name: TimerName },
    AnimationFinished { animation_name: String },
    AnimationFrameChanged { frame: i32 },
    BodyEntered,
    AreaEntered,
    TakeDamage { damage: D },
    Heal,
    PickupItem { item_type: String },
}

} // verus!

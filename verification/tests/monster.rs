use forge_lib::monster::enemy::{play_animation, AnimationCommand};
use forge_lib::monster::decision_engine::{BlackboardFacts, DecisionEngine, EnemyIntent};
use forge_lib::monster::enemy::{configuration_warnings, EnemyParts};
use forge_lib::monster::enemy_state_machine::{EnemyStateMachine, StateCall, StateNode};

fn facts(hit: bool, dead: bool, can: bool) -> BlackboardFacts {
    BlackboardFacts { has_damage_source: hit, health_depleted: dead, can_decide: can }
}

#[test]
fn decision_engine_decides() {
    let d = DecisionEngine::new();
    assert_eq!(d.decide(None), Some(EnemyIntent::Walk));
    assert_eq!(d.decide(Some(facts(true, true, false))), Some(EnemyIntent::Death));
    assert_eq!(d.decide(Some(facts(true, false, false))), Some(EnemyIntent::Stun));
    assert_eq!(d.decide(Some(facts(false, false, false))), None);
    assert_eq!(d.decide(Some(facts(false, false, true))), Some(EnemyIntent::Walk));
    let dead = DecisionEngine { current_state: Some("death".to_string()) };
    assert_eq!(dead.decide(Some(facts(false, false, true))), None);
    assert_eq!(dead.decide(Some(facts(true, false, true))), Some(EnemyIntent::Stun));
    assert_eq!(EnemyIntent::Walk.name(), "walk");
}

fn node(name: &str, id: u32, group: bool, exit: bool) -> StateNode<u32> {
    StateNode {
        name: name.to_string(),
        node: id,
        in_state_group: group,
        has_enter: true,
        has_exit: exit,
        has_re_enter: true,
        has_update: true,
        has_handle_input: false,
    }
}

#[test]
fn state_machine_switches_between_named_states() {
    let mut m: EnemyStateMachine<u32> = EnemyStateMachine::new();
    let calls = m.setup(
        vec![node("walk", 1, true, true), node("decor", 2, false, true), node("death", 3, true, false), node("walk", 4, true, true)],
        "walk",
    );
    assert_eq!(m.states.len(), 2);
    assert_eq!(*m.node(0), 4);
    assert_eq!(calls, vec![StateCall::Enter(0)]);
    assert_eq!(m.get_current_state_name(), "walk");
    assert_eq!(m.change_state("walk"), vec![StateCall::ReEnter(0)]);
    assert_eq!(m.change_state("fly"), vec![]);
    assert_eq!(m.get_current_state_name(), "walk");
    assert_eq!(m.change_state("death"), vec![StateCall::Exit(0), StateCall::Enter(1)]);
    assert_eq!(m.prev_state, Some(0));
    assert_eq!(m.get_current_state_name(), "death");
    assert_eq!(m.update_target(), Some(1));
    assert_eq!(m.input_target(), None);
    assert_eq!(m.change_state("walk"), vec![StateCall::Enter(0)]);
    assert_eq!(m.prev_state, Some(0));
}

#[test]
fn state_machine_without_init_state_stays_empty() {
    let mut m: EnemyStateMachine<u32> = EnemyStateMachine::new();
    let calls = m.setup(vec![node("walk", 1, true, true)], "");
    assert!(calls.is_empty());
    assert_eq!(m.get_current_state_name(), "");
    assert_eq!(m.update_target(), None);
}

#[test]
fn enemy_warnings_list_missing_parts() {
    let all = EnemyParts {
        animation_player: true,
        sprite: true,
        damage_area: true,
        attack_area: true,
        state_machine: true,
        decision_engine: true,
    };
    assert!(configuration_warnings(all).is_empty());
    let mut some = all;
    some.sprite = false;
    some.decision_engine = false;
    assert_eq!(
        configuration_warnings(some),
        vec!["Requires a Sprite2D!", "Requires a DecisionEngine node!"]
    );
}

#[test]
fn enemy_animation_commands() {
    assert_eq!(play_animation(true, "walk", "walk"), AnimationCommand::Restart);
    assert_eq!(play_animation(true, "walk", "death"), AnimationCommand::Play);
    assert_eq!(play_animation(false, "walk", "fly"), AnimationCommand::Missing);
}

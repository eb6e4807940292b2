pub mod decision_engine;
pub mod enemy;
pub mod enemy_state_machine;

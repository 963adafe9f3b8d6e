pub mod player_manager;
pub mod shared_systems;

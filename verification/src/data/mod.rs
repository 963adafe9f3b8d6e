pub mod characters;
pub mod game_state;
pub mod save;
pub mod shop;
pub mod replay;

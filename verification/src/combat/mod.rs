pub mod combos;
pub mod inputs;
pub mod boss_system;
pub mod character_movesets;
pub mod combo_system;
pub mod integration;
pub mod supers;
pub mod plane_system;

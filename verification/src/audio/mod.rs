pub mod music;
pub mod sfx;
pub mod mixer;

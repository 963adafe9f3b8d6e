pub mod comp;
pub mod world;

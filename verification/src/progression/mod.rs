pub mod account_level;
pub mod achievements;
pub mod challenges;
pub mod character_mastery;
pub mod skill_tree;

//! Game rules of the Bas Veeg Arc beat 'em up, with their contracts: the
//! shop, progression (levels, prestige, achievements, challenges, mastery,
//! skill trees), co-op slots and the team combo, entity bookkeeping, combo
//! recognition and counting, the input buffer, frame data and movesets, super
//! moves, the plane, boss phases, training-mode recording, match replays and
//! statistics, and the audio mixer's channels and music crossfades.

pub mod audio;
pub mod combat;
pub mod coop;
pub mod data;
pub mod ecs;
pub mod progression;
mod rng;

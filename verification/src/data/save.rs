use vstd::prelude::*;
use vstd::string::StringExecFns;

verus! {

/// Story progress of a save.
pub struct StoryProgress {
    pub current_chapter: u32,
    pub completed_chapters: Vec<u32>,
    pub boss_defeats: Vec<String>,
    pub difficulty: Difficulty,
}

/// What a save has unlocked.
pub struct Unlocks {
    pub characters: Vec<String>,
    pub stages: Vec<String>,
    pub music_tracks: Vec<String>,
    pub gallery_items: Vec<String>,
}

#[derive(Clone, Copy, Debug, PartialEq, Eq, Structural)]
pub enum Difficulty {
    Story,
    Normal,
    Hard,
    Extreme,
}

#[derive(Clone, Copy, Debug, PartialEq, Eq, Structural)]
pub enum ColorblindMode {
    /// No colour filter.
    Off,
    Protanopia,
    Deuteranopia,
    Tritanopia,
}

/// The texts of a list of strings.
pub open spec fn texts(v: Seq<String>) -> Seq<Seq<char>> {
    v.map_values(|s: String| s@)
}

fn one(s: &str) -> (v: Vec<String>)
    ensures
        texts(v@) == seq![s@],
{
    let mut v: Vec<String> = Vec::new();
    v.push(String::from_str(s));
    assert(texts(v@) =~= seq![s@]);
    v
}

impl StoryProgress {
    /// Story progress of a new save: chapter 0, nothing completed, Normal.
    pub fn new_game() -> (p: StoryProgress)
        ensures
            p.current_chapter == 0,
            p.completed_chapters@.len() == 0,
            p.boss_defeats@.len() == 0,
            p.difficulty == Difficulty::Normal,
    {
        StoryProgress {
            current_chapter: 0,
            completed_chapters: Vec::new(),
            boss_defeats: Vec::new(),
            difficulty: Difficulty::Normal,
        }
    }
}

impl Unlocks {
    /// Unlocks of a new save: Bas, the Art Room and the main theme.
    pub fn new_game() -> (u: Unlocks)
        ensures
            texts(u.characters@) == seq!["Bas"@],
            texts(u.stages@) == seq!["Art Room"@],
            texts(u.music_tracks@) == seq!["Main Theme"@],
            u.gallery_items@.len() == 0,
    {
        Unlocks {
            characters: one("Bas"),
            stages: one("Art Room"),
            music_tracks: one("Main Theme"),
            gallery_items: Vec::new(),
        }
    }
}

} // verus!

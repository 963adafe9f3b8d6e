use vstd::prelude::*;
use vstd::string::StringExecFns;
use crate::combat::inputs::InputAction;

verus! {

/// A named input sequence. The window is in milliseconds, the damage
/// scaling in hundredths (`90` stands for ×0.90), the meter gain in whole
/// meter points.
pub struct Combo {
    pub name: String,
    pub sequence: Vec<InputAction>,
    pub window: u32,
    pub damage_scaling: u32,
    pub meter_gain: u32,
}

/// Rank of a running combo by its hit count.
#[derive(Clone, Copy, Debug, PartialEq, Eq, Structural)]
pub enum ComboRank {
    D,
    C,
    B,
    A,
    S,
    SS,
    SSS,
    Legendary,
}

/// The rank a combo of `hits` hits has.
pub open spec fn rank_for_hits(hits: u32) -> ComboRank {
    if hits <= 2 {
        ComboRank::D
    } else if hits <= 5 {
        ComboRank::C
    } else if hits <= 9 {
        ComboRank::B
    } else if hits <= 14 {
        ComboRank::A
    } else if hits <= 19 {
        ComboRank::S
    } else if hits <= 29 {
        ComboRank::SS
    } else if hits <= 49 {
        ComboRank::SSS
    } else {
        ComboRank::Legendary
    }
}

/// Position of a rank, from 0 for D.
pub open spec fn rank_order(r: ComboRank) -> int {
    match r {
        ComboRank::D => 0,
        ComboRank::C => 1,
        ComboRank::B => 2,
        ComboRank::A => 3,
        ComboRank::S => 4,
        ComboRank::SS => 5,
        ComboRank::SSS => 6,
        ComboRank::Legendary => 7,
    }
}

impl ComboRank {
    /// The rank of a combo of `hits` hits: D up to 2, C up to 5, B up to 9,
    /// A up to 14, S up to 19, SS up to 29, SSS up to 49, Legendary beyond.
    pub fn from_hits(hits: u32) -> (r: ComboRank)
        ensures
            r == rank_for_hits(hits),
    {
        if hits <= 2 {
            ComboRank::D
        } else if hits <= 5 {
            ComboRank::C
        } else if hits <= 9 {
            ComboRank::B
        } else if hits <= 14 {
            ComboRank::A
        } else if hits <= 19 {
            ComboRank::S
        } else if hits <= 29 {
            ComboRank::SS
        } else if hits <= 49 {
            ComboRank::SSS
        } else {
            ComboRank::Legendary
        }
    }
}

/// More hits never lower the rank.
pub proof fn law_rank_monotone(a: u32, b: u32)
    requires
        a <= b,
    ensures
        rank_order(rank_for_hits(a)) <= rank_order(rank_for_hits(b)),
{
}

/// The recent inputs end with `sequence`.
pub open spec fn ends_with(inputs: Seq<InputAction>, sequence: Seq<InputAction>) -> bool {
    inputs.len() >= sequence.len() && inputs.subrange(inputs.len() - sequence.len(), inputs.len() as int) == sequence
}

/// First combo, at or after position `i`, whose sequence the inputs end with.
pub open spec fn first_match_from(combos: Seq<Combo>, inputs: Seq<InputAction>, i: int) -> Option<int>
    decreases combos.len() - i,
{
    if i < 0 || i >= combos.len() {
        None
    } else if ends_with(inputs, combos[i].sequence@) {
        Some(i)
    } else {
        first_match_from(combos, inputs, i + 1)
    }
}

/// The combos of the fighting system, in the order they are tried: name,
/// input sequence, window (ms), damage scaling (hundredths), meter gain.
pub open spec fn combo_table() -> Seq<(Seq<char>, Seq<InputAction>, u32, u32, u32)> {
    seq![
        ("Basic Chain"@, seq![InputAction::LightAttack, InputAction::LightAttack, InputAction::HeavyAttack], 1000u32, 90u32, 10u32),
        ("Speed Blitz"@, seq![InputAction::LightAttack, InputAction::LightAttack, InputAction::LightAttack, InputAction::LightAttack], 800u32, 80u32, 15u32),
        ("Launcher"@, seq![InputAction::Down, InputAction::HeavyAttack], 500u32, 100u32, 15u32),
        ("Air Juggle"@, seq![InputAction::Up, InputAction::LightAttack, InputAction::HeavyAttack], 600u32, 110u32, 20u32),
        ("Paint Rush"@, seq![InputAction::Special, InputAction::LightAttack, InputAction::Special], 1200u32, 85u32, 20u32),
        ("Veeg Buster"@, seq![InputAction::HeavyAttack, InputAction::HeavyAttack, InputAction::Special], 1000u32, 120u32, 25u32),
        ("Dutch Destroyer"@, seq![InputAction::Left, InputAction::Right, InputAction::LightAttack, InputAction::HeavyAttack], 800u32, 130u32, 30u32),
        ("Ultimate Veeg"@, seq![InputAction::Down, InputAction::Down, InputAction::Super], 1000u32, 150u32, 0u32),
        ("Bas Rage Mode"@, seq![InputAction::Special, InputAction::Special, InputAction::Super], 1000u32, 200u32, 0u32),
    ]
}

/// `c` is the combo that the table entry `e` describes.
pub open spec fn is_combo(c: Combo, e: (Seq<char>, Seq<InputAction>, u32, u32, u32)) -> bool {
    &&& c.name@ == e.0
    &&& c.sequence@ == e.1
    &&& c.window == e.2
    &&& c.damage_scaling == e.3
    &&& c.meter_gain == e.4
}

/// The combo being landed: its hits, its rank and the best rank it reached,
/// and how many special moves and perfectly timed hits it holds. (Its
/// damage, score multiplier and timer are fractional and kept by the game
/// alongside.)
#[derive(Clone, Copy, Debug, PartialEq, Eq, Structural)]
pub struct ActiveCombo {
    pub hits: u32,
    pub rank: ComboRank,
    pub highest_rank_achieved: ComboRank,
    pub special_moves_used: u32,
    pub perfect_timing_count: u32,
}

/// The combo list of the fighting system, the combo being landed, and the
/// juggle counter. (Damage scaling, hitstun decay and the combo meter are
/// fractional and kept by the game alongside.)
pub struct ComboManager {
    pub active_combo: Option<ActiveCombo>,
    pub combo_list: Vec<Combo>,
    pub special_cancel_available: bool,
    pub juggle_count: u32,
    pub max_juggle: u32,
}

/// The higher of two ranks.
pub open spec fn higher_rank(a: ComboRank, b: ComboRank) -> ComboRank {
    if rank_order(b) > rank_order(a) {
        b
    } else {
        a
    }
}

/// The combo after one more hit, special or perfectly timed as flagged: a
/// new combo of one hit when none was running.
pub open spec fn hit_combo(c: Option<ActiveCombo>, is_special: bool, perfect_timing: bool) -> ActiveCombo {
    match c {
        Some(a) => {
            let hits = (a.hits + 1) as u32;
            ActiveCombo {
                hits,
                rank: rank_for_hits(hits),
                highest_rank_achieved: higher_rank(a.highest_rank_achieved, rank_for_hits(hits)),
                special_moves_used: (a.special_moves_used + if is_special { 1int } else { 0int }) as u32,
                perfect_timing_count: (a.perfect_timing_count + if perfect_timing { 1int } else { 0int }) as u32,
            }
        },
        None => ActiveCombo {
            hits: 1,
            rank: ComboRank::D,
            highest_rank_achieved: ComboRank::D,
            special_moves_used: if is_special { 1 } else { 0 },
            perfect_timing_count: if perfect_timing { 1 } else { 0 },
        },
    }
}

/// The counters of the running combo can take one more hit.
pub open spec fn room_for_hit(c: Option<ActiveCombo>) -> bool {
    c matches Some(a) ==> a.hits < u32::MAX && a.special_moves_used < u32::MAX && a.perfect_timing_count < u32::MAX
}

fn combo(name: &str, sequence: Vec<InputAction>, window: u32, damage_scaling: u32, meter_gain: u32) -> (c: Combo)
    ensures
        c.name@ == name@,
        c.sequence == sequence,
        c.window == window,
        c.damage_scaling == damage_scaling,
        c.meter_gain == meter_gain,
{
    Combo { name: String::from_str(name), sequence, window, damage_scaling, meter_gain }
}

impl ComboManager {
    /// The nine combos: basic chains, launchers, specials and ultimates, as
    /// `combo_table` lists them.
    pub fn new() -> (m: ComboManager)
        ensures
            m.active_combo is None,
            m.special_cancel_available,
            m.juggle_count == 0,
            m.max_juggle == 5,
            m.combo_list@.len() == combo_table().len(),
            forall|k: int| 0 <= k < combo_table().len() ==> #[trigger] is_combo(m.combo_list@[k], combo_table()[k]),
    {
        ComboManager {
            active_combo: None,
            combo_list: Self::create_combo_list(),
            special_cancel_available: true,
            juggle_count: 0,
            max_juggle: 5,
        }
    }

    fn create_combo_list() -> (v: Vec<Combo>)
        ensures
            v@.len() == combo_table().len(),
            forall|k: int| 0 <= k < combo_table().len() ==> #[trigger] is_combo(v@[k], combo_table()[k]),
    {
        let mut v: Vec<Combo> = Vec::new();
        v.push(combo("Basic Chain",
            vec![InputAction::LightAttack, InputAction::LightAttack, InputAction::HeavyAttack], 1000, 90, 10));
        v.push(combo("Speed Blitz",
            vec![InputAction::LightAttack, InputAction::LightAttack, InputAction::LightAttack, InputAction::LightAttack],
            800, 80, 15));
        v.push(combo("Launcher", vec![InputAction::Down, InputAction::HeavyAttack], 500, 100, 15));
        v.push(combo("Air Juggle", vec![InputAction::Up, InputAction::LightAttack, InputAction::HeavyAttack], 600, 110, 20));
        v.push(combo("Paint Rush", vec![InputAction::Special, InputAction::LightAttack, InputAction::Special], 1200, 85, 20));
        v.push(combo("Veeg Buster", vec![InputAction::HeavyAttack, InputAction::HeavyAttack, InputAction::Special], 1000, 120, 25));
        v.push(combo("Dutch Destroyer",
            vec![InputAction::Left, InputAction::Right, InputAction::LightAttack, InputAction::HeavyAttack], 800, 130, 30));
        v.push(combo("Ultimate Veeg", vec![InputAction::Down, InputAction::Down, InputAction::Super], 1000, 150, 0));
        v.push(combo("Bas Rage Mode", vec![InputAction::Special, InputAction::Special, InputAction::Super], 1000, 200, 0));
        proof {
            let t = combo_table();
            assert(is_combo(v@[0], t[0]));
            assert(is_combo(v@[1], t[1]));
            assert(is_combo(v@[2], t[2]));
            assert(is_combo(v@[3], t[3]));
            assert(is_combo(v@[4], t[4]));
            assert(is_combo(v@[5], t[5]));
            assert(is_combo(v@[6], t[6]));
            assert(is_combo(v@[7], t[7]));
            assert(is_combo(v@[8], t[8]));
        }
        v
    }

    /// Counts a landed hit: the running combo gains a hit, takes the rank of
    /// its new count and keeps the best rank it reached, and counts the hit
    /// as special or perfectly timed as flagged; without a running combo a
    /// new one of one hit starts at rank D.
    pub fn register_hit(&mut self, is_special: bool, perfect_timing: bool)
        requires
            room_for_hit(old(self).active_combo),
        ensures
            final(self).active_combo == Some(hit_combo(old(self).active_combo, is_special, perfect_timing)),
            final(self).combo_list == old(self).combo_list,
            final(self).special_cancel_available == old(self).special_cancel_available,
            final(self).juggle_count == old(self).juggle_count,
            final(self).max_juggle == old(self).max_juggle,
    {
        match self.active_combo {
            Some(a) => {
                let hits = a.hits + 1;
                let rank = ComboRank::from_hits(hits);
                let highest = if Self::rank_position(rank) > Self::rank_position(a.highest_rank_achieved) {
                    rank
                } else {
                    a.highest_rank_achieved
                };
                self.active_combo = Some(ActiveCombo {
                    hits,
                    rank,
                    highest_rank_achieved: highest,
                    special_moves_used: if is_special { a.special_moves_used + 1 } else { a.special_moves_used },
                    perfect_timing_count: if perfect_timing { a.perfect_timing_count + 1 } else { a.perfect_timing_count },
                });
            },
            None => {
                self.active_combo = Some(ActiveCombo {
                    hits: 1,
                    rank: ComboRank::D,
                    highest_rank_achieved: ComboRank::D,
                    special_moves_used: if is_special { 1 } else { 0 },
                    perfect_timing_count: if perfect_timing { 1 } else { 0 },
                });
            },
        }
    }

    fn rank_position(r: ComboRank) -> (i: u32)
        ensures
            i == rank_order(r),
    {
        match r {
            ComboRank::D => 0,
            ComboRank::C => 1,
            ComboRank::B => 2,
            ComboRank::A => 3,
            ComboRank::S => 4,
            ComboRank::SS => 5,
            ComboRank::SSS => 6,
            ComboRank::Legendary => 7,
        }
    }

    /// Drops the running combo.
    pub fn reset(&mut self)
        ensures
            final(self).active_combo is None,
            final(self).combo_list == old(self).combo_list,
            final(self).special_cancel_available == old(self).special_cancel_available,
            final(self).juggle_count == old(self).juggle_count,
            final(self).max_juggle == old(self).max_juggle,
    {
        self.active_combo = None;
    }

    /// Counts a juggle; once the count passes the maximum the running combo
    /// drops. The count itself is not cleared by that.
    pub fn register_juggle(&mut self)
        requires
            old(self).juggle_count < u32::MAX,
        ensures
            final(self).juggle_count == old(self).juggle_count + 1,
            final(self).active_combo == if final(self).juggle_count > old(self).max_juggle {
                None
            } else {
                old(self).active_combo
            },
            final(self).combo_list == old(self).combo_list,
            final(self).special_cancel_available == old(self).special_cancel_available,
            final(self).max_juggle == old(self).max_juggle,
    {
        self.juggle_count = self.juggle_count + 1;
        if self.juggle_count > self.max_juggle {
            self.reset();
        }
    }

    /// The rank of the running combo, if any.
    pub fn get_combo_rank(&self) -> (r: Option<ComboRank>)
        ensures
            r == match self.active_combo {
                Some(a) => Some(a.rank),
                None => None,
            },
    {
        match self.active_combo {
            Some(a) => Some(a.rank),
            None => None,
        }
    }

    /// The hits of the running combo; 0 without one.
    pub fn get_combo_hits(&self) -> (n: u32)
        ensures
            n == match self.active_combo {
                Some(a) => a.hits,
                None => 0,
            },
    {
        match self.active_combo {
            Some(a) => a.hits,
            None => 0,
        }
    }

    /// Whether a combo is running.
    pub fn is_combo_active(&self) -> (b: bool)
        ensures
            b == (self.active_combo is Some),
    {
        self.active_combo.is_some()
    }

    /// Whether the recent inputs end with `sequence`.
    pub fn matches_sequence(inputs: &[InputAction], sequence: &[InputAction]) -> (r: bool)
        ensures
            r == ends_with(inputs@, sequence@),
    {
        if inputs.len() < sequence.len() {
            return false;
        }
        let start = inputs.len() - sequence.len();
        let mut i: usize = 0;
        while i < sequence.len()
            invariant
                0 <= i <= sequence@.len(),
                start == inputs@.len() - sequence@.len(),
                start + sequence.len() == inputs.len(),
                forall|j: int| 0 <= j < i ==> inputs@[start + j] == sequence@[j],
            decreases sequence@.len() - i,
        {
            if inputs[start + i] != sequence[i] {
                assert(inputs@.subrange(start as int, inputs@.len() as int)[i as int] != sequence@[i as int]);
                return false;
            }
            i = i + 1;
        }
        assert(inputs@.subrange(start as int, inputs@.len() as int) =~= sequence@);
        true
    }

    /// The first combo of the list whose sequence the recent inputs end with.
    pub fn check_combo(&self, inputs: &[InputAction]) -> (r: Option<&Combo>)
        ensures
            match first_match_from(self.combo_list@, inputs@, 0) {
                Some(k) => r is Some && *(r->0) == self.combo_list@[k],
                None => r is None,
            },
    {
        let mut i: usize = 0;
        while i < self.combo_list.len()
            invariant
                0 <= i <= self.combo_list@.len(),
                first_match_from(self.combo_list@, inputs@, 0) == first_match_from(self.combo_list@, inputs@, i as int),
            decreases self.combo_list@.len() - i,
        {
            let c = &self.combo_list[i];
            if Self::matches_sequence(inputs, c.sequence.as_slice()) {
                return Some(c);
            }
            i = i + 1;
        }
        None
    }
}

/// During a combo the best rank reached never goes down, and it is never
/// below the current rank; every hit adds exactly one to the count.
pub proof fn law_highest_rank_kept(c: Option<ActiveCombo>, is_special: bool, perfect_timing: bool)
    requires
        room_for_hit(c),
        c matches Some(a) ==> rank_order(a.rank) <= rank_order(a.highest_rank_achieved),
    ensures
        ({
            let n = hit_combo(c, is_special, perfect_timing);
            &&& rank_order(n.rank) <= rank_order(n.highest_rank_achieved)
            &&& c matches Some(a) ==> rank_order(a.highest_rank_achieved) <= rank_order(n.highest_rank_achieved)
                && n.hits == a.hits + 1
        }),
{
}

} // verus!

use vstd::prelude::*;
use crate::combat::integration::frames_after;

verus! {

/// Style rank of a combo performance, from D up to SSS.
#[derive(Clone, Copy, Debug, PartialEq, Eq, Structural, PartialOrd, Ord)]
pub enum StyleRank {
    D,
    C,
    B,
    A,
    S,
    SS,
    SSS,
}

/// Position of a style rank, from 0 for D.
pub open spec fn style_order(r: StyleRank) -> int {
    match r {
        StyleRank::D => 0,
        StyleRank::C => 1,
        StyleRank::B => 2,
        StyleRank::A => 3,
        StyleRank::S => 4,
        StyleRank::SS => 5,
        StyleRank::SSS => 6,
    }
}

/// Kind of move landed in a combo.
#[derive(Clone, Copy, Debug, PartialEq, Eq, Structural)]
pub enum MoveType {
    LightAttack,
    HeavyAttack,
    SpecialAttack,
    Launcher,
    AirAttack,
    Ability,
    Finisher,
}

/// Finishers a combo can be closed with, from the basic one up.
#[derive(Clone, Copy, Debug, PartialEq, Eq, Structural)]
pub enum ComboFinisher {
    Basic,
    Advanced,
    Super,
    Ultra,
    Ultimate,
}

impl ComboFinisher {
    /// Only the two strongest finishers stun.
    pub fn applies_stun(&self) -> (b: bool)
        ensures
            b == (*self is Ultra || *self is Ultimate),
    {
        match self {
            ComboFinisher::Ultra | ComboFinisher::Ultimate => true,
            _ => false,
        }
    }

    /// The finisher's name.
    pub fn to_string(&self) -> (s: &'static str)
        ensures
            s@ == match *self {
                ComboFinisher::Basic => "Basic Finisher"@,
                ComboFinisher::Advanced => "Advanced Finisher"@,
                ComboFinisher::Super => "Super Finisher"@,
                ComboFinisher::Ultra => "Ultra Finisher"@,
                ComboFinisher::Ultimate => "Ultimate Finisher"@,
            },
    {
        match self {
            ComboFinisher::Basic => "Basic Finisher",
            ComboFinisher::Advanced => "Advanced Finisher",
            ComboFinisher::Super => "Super Finisher",
            ComboFinisher::Ultra => "Ultra Finisher",
            ComboFinisher::Ultimate => "Ultimate Finisher",
        }
    }
}

impl StyleRank {
    /// The rank's letters.
    pub fn to_string(&self) -> (s: &'static str)
        ensures
            s@ == match *self {
                StyleRank::D => "D"@,
                StyleRank::C => "C"@,
                StyleRank::B => "B"@,
                StyleRank::A => "A"@,
                StyleRank::S => "S"@,
                StyleRank::SS => "SS"@,
                StyleRank::SSS => "SSS"@,
            },
    {
        match self {
            StyleRank::D => "D",
            StyleRank::C => "C",
            StyleRank::B => "B",
            StyleRank::A => "A",
            StyleRank::S => "S",
            StyleRank::SS => "SS",
            StyleRank::SSS => "SSS",
        }
    }

    /// The title shown beside the rank.
    pub fn get_title(&self) -> (s: &'static str)
        ensures
            s@ == match *self {
                StyleRank::D => "Dull"@,
                StyleRank::C => "Decent"@,
                StyleRank::B => "Badass"@,
                StyleRank::A => "Awesome"@,
                StyleRank::S => "Stylish"@,
                StyleRank::SS => "Smoking Sexy Style"@,
                StyleRank::SSS => "Sensational!"@,
            },
    {
        match self {
            StyleRank::D => "Dull",
            StyleRank::C => "Decent",
            StyleRank::B => "Badass",
            StyleRank::A => "Awesome",
            StyleRank::S => "Stylish",
            StyleRank::SS => "Smoking Sexy Style",
            StyleRank::SSS => "Sensational!",
        }
    }
}

impl MoveType {
    /// The move kind's name.
    pub fn to_string(&self) -> (s: &'static str)
        ensures
            s@ == match *self {
                MoveType::LightAttack => "Light Attack"@,
                MoveType::HeavyAttack => "Heavy Attack"@,
                MoveType::SpecialAttack => "Special Attack"@,
                MoveType::Launcher => "Launcher"@,
                MoveType::AirAttack => "Air Attack"@,
                MoveType::Ability => "Ability"@,
                MoveType::Finisher => "Finisher"@,
            },
    {
        match self {
            MoveType::LightAttack => "Light Attack",
            MoveType::HeavyAttack => "Heavy Attack",
            MoveType::SpecialAttack => "Special Attack",
            MoveType::Launcher => "Launcher",
            MoveType::AirAttack => "Air Attack",
            MoveType::Ability => "Ability",
            MoveType::Finisher => "Finisher",
        }
    }
}

/// The finisher a combo at `rank` ends in, once it may end in one: basic at
/// B, advanced at A, super at S, ultra at SS, ultimate at SSS.
pub open spec fn finisher_of(rank: StyleRank) -> Option<ComboFinisher> {
    match rank {
        StyleRank::B => Some(ComboFinisher::Basic),
        StyleRank::A => Some(ComboFinisher::Advanced),
        StyleRank::S => Some(ComboFinisher::Super),
        StyleRank::SS => Some(ComboFinisher::Ultra),
        StyleRank::SSS => Some(ComboFinisher::Ultimate),
        _ => None,
    }
}

/// Whether a combo of `combo_count` hits at `style_rank` may end in a
/// finisher: at least ten hits and rank B or better.
pub fn can_use_finisher(combo_count: u32, style_rank: StyleRank) -> (b: bool)
    ensures
        b == (combo_count >= 10 && style_order(style_rank) >= 2),
{
    let at_least_b = match style_rank {
        StyleRank::D | StyleRank::C => false,
        _ => true,
    };
    combo_count >= 10 && at_least_b
}

/// The finisher a combo of `combo_count` hits at `style_rank` ends in; `None`
/// when it may not end in one.
pub fn finisher_for(combo_count: u32, style_rank: StyleRank) -> (f: Option<ComboFinisher>)
    ensures
        f == if combo_count >= 10 && style_order(style_rank) >= 2 { finisher_of(style_rank) } else { None },
        f is Some <==> (combo_count >= 10 && style_order(style_rank) >= 2),
{
    if !can_use_finisher(combo_count, style_rank) {
        return None;
    }
    match style_rank {
        StyleRank::B => Some(ComboFinisher::Basic),
        StyleRank::A => Some(ComboFinisher::Advanced),
        StyleRank::S => Some(ComboFinisher::Super),
        StyleRank::SS => Some(ComboFinisher::Ultra),
        StyleRank::SSS => Some(ComboFinisher::Ultimate),
        _ => None,
    }
}

/// The move types in the order a combo breakdown lists them.
pub open spec fn move_type_at(k: int) -> MoveType {
    if k == 0 {
        MoveType::LightAttack
    } else if k == 1 {
        MoveType::HeavyAttack
    } else if k == 2 {
        MoveType::SpecialAttack
    } else if k == 3 {
        MoveType::Launcher
    } else if k == 4 {
        MoveType::AirAttack
    } else if k == 5 {
        MoveType::Ability
    } else {
        MoveType::Finisher
    }
}

/// Position of a move type in a breakdown.
pub open spec fn move_type_index(t: MoveType) -> int {
    match t {
        MoveType::LightAttack => 0,
        MoveType::HeavyAttack => 1,
        MoveType::SpecialAttack => 2,
        MoveType::Launcher => 3,
        MoveType::AirAttack => 4,
        MoveType::Ability => 5,
        MoveType::Finisher => 6,
    }
}

/// How often `t` occurs in `moves`.
pub open spec fn occurrences(moves: Seq<MoveType>, t: MoveType) -> nat
    decreases moves.len(),
{
    if moves.len() == 0 {
        0
    } else {
        occurrences(moves.drop_last(), t) + if moves.last() == t { 1nat } else { 0nat }
    }
}

/// The breakdown of `moves` from the `k`-th move type on: each type that
/// occurs, in order, with how often it occurs.
pub open spec fn breakdown_from(moves: Seq<MoveType>, k: int) -> Seq<(MoveType, u32)>
    decreases 7 - k,
{
    if k >= 7 || k < 0 {
        Seq::empty()
    } else {
        let n = occurrences(moves, move_type_at(k));
        let rest = breakdown_from(moves, k + 1);
        if n > 0 {
            seq![(move_type_at(k), n as u32)] + rest
        } else {
            rest
        }
    }
}

proof fn lemma_occurrences_le(moves: Seq<MoveType>, t: MoveType)
    ensures
        occurrences(moves, t) <= moves.len(),
    decreases moves.len(),
{
    if moves.len() > 0 {
        lemma_occurrences_le(moves.drop_last(), t);
    }
}

fn type_index(t: MoveType) -> (k: usize)
    ensures
        k == move_type_index(t),
        move_type_at(k as int) == t,
{
    match t {
        MoveType::LightAttack => 0,
        MoveType::HeavyAttack => 1,
        MoveType::SpecialAttack => 2,
        MoveType::Launcher => 3,
        MoveType::AirAttack => 4,
        MoveType::Ability => 5,
        MoveType::Finisher => 6,
    }
}

fn type_at(k: usize) -> (t: MoveType)
    requires
        k < 7,
    ensures
        t == move_type_at(k as int),
{
    if k == 0 {
        MoveType::LightAttack
    } else if k == 1 {
        MoveType::HeavyAttack
    } else if k == 2 {
        MoveType::SpecialAttack
    } else if k == 3 {
        MoveType::Launcher
    } else if k == 4 {
        MoveType::AirAttack
    } else if k == 5 {
        MoveType::Ability
    } else {
        MoveType::Finisher
    }
}

/// The breakdown of a combo's moves: each move type that occurs, in the
/// order light, heavy, special, launcher, air, ability, finisher, with how
/// often it occurs.
pub fn get_move_breakdown(moves: &Vec<MoveType>) -> (r: Vec<(MoveType, u32)>)
    requires
        moves@.len() <= u32::MAX,
    ensures
        r@ == breakdown_from(moves@, 0),
{
    let mut counts: Vec<u32> = Vec::new();
    let mut k: usize = 0;
    while k < 7
        invariant
            k <= 7,
            counts@.len() == k,
            forall|q: int| 0 <= q < k ==> #[trigger] counts@[q] == 0,
        decreases 7 - k,
    {
        counts.push(0);
        k += 1;
    }
    let mut j: usize = 0;
    while j < moves.len()
        invariant
            j <= moves@.len(),
            moves@.len() <= u32::MAX,
            counts@.len() == 7,
            forall|q: int| 0 <= q < 7 ==> #[trigger] counts@[q] == occurrences(moves@.take(j as int), move_type_at(q)),
        decreases moves@.len() - j,
    {
        let t = moves[j];
        let idx = type_index(t);
        proof {
            assert(moves@.take(j as int + 1).drop_last() =~= moves@.take(j as int));
            assert forall|q: int| 0 <= q < 7 implies occurrences(moves@.take(j as int + 1), move_type_at(q))
                == occurrences(moves@.take(j as int), move_type_at(q)) + if q == idx { 1nat } else { 0nat } by {
                assert(moves@.take(j as int + 1).last() == t);
                if q != idx {
                    assert(move_type_at(q) != t) by {
                        assert(move_type_index(move_type_at(q)) == q);
                    }
                }
            }
            lemma_occurrences_le(moves@.take(j as int), t);
        }
        let c = counts[idx];
        counts.set(idx, c + 1);
        j += 1;
    }
    assert(moves@.take(moves@.len() as int) =~= moves@);
    let mut r: Vec<(MoveType, u32)> = Vec::new();
    let mut k: usize = 7;
    while k > 0
        invariant
            k <= 7,
            counts@.len() == 7,
            forall|q: int| 0 <= q < 7 ==> #[trigger] counts@[q] == occurrences(moves@, move_type_at(q)),
            r@ == breakdown_from(moves@, k as int),
        decreases k,
    {
        k -= 1;
        let n = counts[k];
        if n > 0 {
            let mut front: Vec<(MoveType, u32)> = Vec::new();
            front.push((type_at(k), n));
            front.append(&mut r);
            r = front;
        }
        assert(r@ =~= breakdown_from(moves@, k as int));
    }
    r
}

/// A move landed in a style combo: its kind, whether it landed during a
/// juggle, and whether it was a critical hit.
#[derive(Clone, Copy, Debug, PartialEq, Eq, Structural)]
pub struct ComboMove {
    pub move_type: MoveType,
    pub is_juggle: bool,
    pub is_critical: bool,
}

/// The whole-number side of a style combo: its hits, the style rank the
/// caller gave it from its style points, the longest combo of the session,
/// the last hundred moves, and the juggle under way. (Style points, damage,
/// timers and bonuses are fractions kept by the caller.)
pub struct ComboSystem {
    pub combo_count: u32,
    pub style_rank: StyleRank,
    pub max_combo_this_session: u32,
    pub combo_moves: Vec<ComboMove>,
    pub juggle_active: bool,
    pub juggle_hits: u32,
}

/// How many moves the style combo keeps.
pub const COMBO_HISTORY: usize = 100;

/// How many moves of `s` were critical hits.
pub open spec fn critical_count(s: Seq<ComboMove>) -> nat
    decreases s.len(),
{
    if s.len() == 0 {
        0
    } else {
        critical_count(s.drop_last()) + if s.last().is_critical { 1nat } else { 0nat }
    }
}

/// How many moves of `s` landed during a juggle.
pub open spec fn juggle_count(s: Seq<ComboMove>) -> nat
    decreases s.len(),
{
    if s.len() == 0 {
        0
    } else {
        juggle_count(s.drop_last()) + if s.last().is_juggle { 1nat } else { 0nat }
    }
}

proof fn lemma_counts_le(s: Seq<ComboMove>)
    ensures
        critical_count(s) <= s.len(),
        juggle_count(s) <= s.len(),
    decreases s.len(),
{
    if s.len() > 0 {
        lemma_counts_le(s.drop_last());
    }
}

impl ComboSystem {
    /// No combo, rank D, nothing kept.
    pub fn new() -> (c: ComboSystem)
        ensures
            c.combo_count == 0,
            c.style_rank == StyleRank::D,
            c.max_combo_this_session == 0,
            c.combo_moves@.len() == 0,
            !c.juggle_active,
            c.juggle_hits == 0,
    {
        ComboSystem {
            combo_count: 0,
            style_rank: StyleRank::D,
            max_combo_this_session: 0,
            combo_moves: Vec::new(),
            juggle_active: false,
            juggle_hits: 0,
        }
    }

    /// Counts a hit: one more in the combo, the move kept (the oldest dropped
    /// past a hundred, marked as a juggle hit when a juggle was under way),
    /// the session's best raised; a launcher starts a juggle, any other move
    /// during a juggle adds a juggle hit.
    pub fn register_hit(&mut self, move_type: MoveType, is_critical: bool)
        requires
            old(self).combo_count < u32::MAX,
            old(self).juggle_active && move_type != MoveType::Launcher ==> old(self).juggle_hits < u32::MAX,
        ensures
            final(self).combo_count == old(self).combo_count + 1,
            final(self).combo_moves@ == frames_after(old(self).combo_moves@,
                ComboMove { move_type, is_juggle: old(self).juggle_active, is_critical }, COMBO_HISTORY),
            final(self).max_combo_this_session == if old(self).combo_count + 1 > old(self).max_combo_this_session {
                (old(self).combo_count + 1) as u32
            } else {
                old(self).max_combo_this_session
            },
            move_type == MoveType::Launcher ==> final(self).juggle_active && final(self).juggle_hits == 0,
            move_type != MoveType::Launcher ==> final(self).juggle_active == old(self).juggle_active
                && final(self).juggle_hits == if old(self).juggle_active { old(self).juggle_hits + 1 } else { old(self).juggle_hits as int },
            final(self).style_rank == old(self).style_rank,
    {
        self.combo_count = self.combo_count + 1;
        let juggling = self.juggle_active;
        self.combo_moves.push(ComboMove { move_type, is_juggle: juggling, is_critical });
        if self.combo_moves.len() > COMBO_HISTORY {
            self.combo_moves.remove(0);
        }
        if self.combo_count > self.max_combo_this_session {
            self.max_combo_this_session = self.combo_count;
        }
        if move_type == MoveType::Launcher {
            self.juggle_active = true;
            self.juggle_hits = 0;
        } else if self.juggle_active {
            self.juggle_hits = self.juggle_hits + 1;
        }
    }

    /// Ends the juggle under way.
    pub fn end_juggle(&mut self)
        ensures
            !final(self).juggle_active,
            final(self).juggle_hits == 0,
            final(self).combo_count == old(self).combo_count,
            final(self).style_rank == old(self).style_rank,
            final(self).max_combo_this_session == old(self).max_combo_this_session,
            final(self).combo_moves@ == old(self).combo_moves@,
    {
        self.juggle_active = false;
        self.juggle_hits = 0;
    }

    /// Drops the combo: no hits, rank D, no moves kept, no juggle; the
    /// session's best stays.
    pub fn break_combo(&mut self)
        ensures
            final(self).combo_count == 0,
            final(self).style_rank == StyleRank::D,
            final(self).combo_moves@.len() == 0,
            !final(self).juggle_active,
            final(self).juggle_hits == 0,
            final(self).max_combo_this_session == old(self).max_combo_this_session,
    {
        self.combo_count = 0;
        self.style_rank = StyleRank::D;
        self.combo_moves.clear();
        self.juggle_active = false;
        self.juggle_hits = 0;
    }

    /// Whether a combo is under way.
    pub fn is_active(&self) -> (b: bool)
        ensures
            b == (self.combo_count > 0),
    {
        self.combo_count > 0
    }

    /// Spends the combo on its finisher when it may end in one (ten hits at
    /// rank B or better): the combo drops and the finisher comes back.
    /// Otherwise nothing changes.
    pub fn use_finisher(&mut self) -> (f: Option<ComboFinisher>)
        ensures
            f == if old(self).combo_count >= 10 && style_order(old(self).style_rank) >= 2 {
                finisher_of(old(self).style_rank)
            } else {
                None
            },
            f is Some ==> final(self).combo_count == 0 && final(self).style_rank == StyleRank::D
                && final(self).combo_moves@.len() == 0 && !final(self).juggle_active && final(self).juggle_hits == 0
                && final(self).max_combo_this_session == old(self).max_combo_this_session,
            f is None ==> final(self).combo_count == old(self).combo_count && final(self).style_rank == old(self).style_rank
                && final(self).combo_moves@ == old(self).combo_moves@ && final(self).juggle_active == old(self).juggle_active
                && final(self).juggle_hits == old(self).juggle_hits
                && final(self).max_combo_this_session == old(self).max_combo_this_session,
    {
        let f = finisher_for(self.combo_count, self.style_rank);
        if f.is_some() {
            self.break_combo();
        }
        f
    }

    /// How many kept moves were critical hits, and how many landed during a
    /// juggle.
    pub fn hit_counts(&self) -> (r: (u32, u32))
        requires
            self.combo_moves@.len() <= u32::MAX,
        ensures
            r.0 == critical_count(self.combo_moves@),
            r.1 == juggle_count(self.combo_moves@),
    {
        let mut critical: u32 = 0;
        let mut juggle: u32 = 0;
        let mut i: usize = 0;
        while i < self.combo_moves.len()
            invariant
                i <= self.combo_moves@.len(),
                self.combo_moves@.len() <= u32::MAX,
                critical == critical_count(self.combo_moves@.take(i as int)),
                juggle == juggle_count(self.combo_moves@.take(i as int)),
            decreases self.combo_moves@.len() - i,
        {
            let m = self.combo_moves[i];
            proof {
                assert(self.combo_moves@.take(i as int + 1).drop_last() =~= self.combo_moves@.take(i as int));
                lemma_counts_le(self.combo_moves@.take(i as int));
            }
            if m.is_critical {
                critical = critical + 1;
            }
            if m.is_juggle {
                juggle = juggle + 1;
            }
            i += 1;
        }
        assert(self.combo_moves@.take(self.combo_moves@.len() as int) =~= self.combo_moves@);
        (critical, juggle)
    }
}

} // verus!

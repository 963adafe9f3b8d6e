use vstd::prelude::*;
use vstd::string::StringExecFns;
use crate::data::characters::{CharacterId, char_index, char_at, CHARACTER_COUNT};

verus! {

/// Mastery of every character that has one.
pub struct MasteryManager {
    masteries: Vec<Option<CharacterMastery>>,
}

/// Mastery of one character. (Experience points and total damage are
/// fractional quantities kept by the game alongside.)
pub struct CharacterMastery {
    pub character: CharacterId,
    pub level: u32,
    pub rank: MasteryRank,
    pub games_played: u32,
    pub games_won: u32,
    pub total_kills: u32,
    pub total_deaths: u32,
    pub highest_combo: u32,
    pub unlocked_skins: Vec<String>,
    pub unlocked_titles: Vec<String>,
    pub milestones: Vec<MasteryMilestone>,
}

/// Mastery rank tiers, from the lowest.
#[derive(Clone, Copy, Debug, PartialEq, Eq, Structural)]
pub enum MasteryRank {
    /// Levels 1 to 10.
    Bronze,
    /// Levels 11 to 25.
    Silver,
    /// Levels 26 to 50.
    Gold,
    /// Levels 51 to 75.
    Platinum,
    /// Levels 76 to 99.
    Diamond,
    /// Level 100.
    Master,
}

/// A mastery level that grants a reward once reached.
pub struct MasteryMilestone {
    pub level: u32,
    pub name: String,
    pub description: String,
    pub reward: MasteryReward,
    pub unlocked: bool,
}

/// What a mastery milestone grants.
pub enum MasteryReward {
    Skin(String),
    Title(String),
    SkillPoints(u32),
    /// Whole currency units.
    Currency(u32),
    Cosmetic(String),
}

/// Counters of a finished game. (Damage dealt is fractional and counted by
/// the game alongside.)
pub struct GameStats {
    pub kills: u32,
    pub deaths: u32,
    pub highest_combo: u32,
}

impl MasteryReward {
    /// A copy of this reward.
    pub fn duplicate(&self) -> (r: MasteryReward)
        ensures
            r == *self,
    {
        match self {
            MasteryReward::Skin(s) => MasteryReward::Skin(s.clone()),
            MasteryReward::Title(s) => MasteryReward::Title(s.clone()),
            MasteryReward::SkillPoints(p) => MasteryReward::SkillPoints(*p),
            MasteryReward::Currency(c) => MasteryReward::Currency(*c),
            MasteryReward::Cosmetic(s) => MasteryReward::Cosmetic(s.clone()),
        }
    }
}

/// The rank of a mastery level.
pub open spec fn rank_of(level: u32) -> MasteryRank {
    if 1 <= level <= 10 {
        MasteryRank::Bronze
    } else if 11 <= level <= 25 {
        MasteryRank::Silver
    } else if 26 <= level <= 50 {
        MasteryRank::Gold
    } else if 51 <= level <= 75 {
        MasteryRank::Platinum
    } else if 76 <= level <= 99 {
        MasteryRank::Diamond
    } else if level >= 100 {
        MasteryRank::Master
    } else {
        MasteryRank::Bronze
    }
}

/// Milestones after reaching `level`, in order: those of that level not yet
/// unlocked unlock. Gives the milestones, the rewards they grant, and the
/// skins and titles among those rewards.
pub open spec fn reach_level(ms: Seq<MasteryMilestone>, level: u32)
    -> (Seq<MasteryMilestone>, Seq<MasteryReward>, Seq<Seq<char>>, Seq<Seq<char>>)
    decreases ms.len(),
{
    if ms.len() == 0 {
        (Seq::empty(), Seq::empty(), Seq::empty(), Seq::empty())
    } else {
        let (prev, rewards, skins, titles) = reach_level(ms.drop_last(), level);
        let m = ms.last();
        if m.level == level && !m.unlocked {
            let m2 = MasteryMilestone { unlocked: true, ..m };
            (
                prev.push(m2),
                rewards.push(m.reward),
                match m.reward {
                    MasteryReward::Skin(s) => skins.push(s@),
                    _ => skins,
                },
                match m.reward {
                    MasteryReward::Title(t) => titles.push(t@),
                    _ => titles,
                },
            )
        } else {
            (prev.push(m), rewards, skins, titles)
        }
    }
}

fn push_text(list: &mut Vec<String>, s: &String, Ghost(added): Ghost<Seq<Seq<char>>>, Ghost(base): Ghost<Seq<String>>)
    requires
        old(list)@.map_values(|x: String| x@) == base.map_values(|x: String| x@) + added,
    ensures
        final(list)@.map_values(|x: String| x@) == base.map_values(|x: String| x@) + added.push(s@),
{
    list.push(s.clone());
    assert(list@.map_values(|x: String| x@) =~= old(list)@.map_values(|x: String| x@).push(s@));
    assert(base.map_values(|x: String| x@) + added.push(s@) =~= (base.map_values(|x: String| x@) + added).push(s@));
}

impl CharacterMastery {
    /// Sets the rank from the level.
    fn update_rank(&mut self)
        ensures
            final(self).rank == rank_of(old(self).level),
            final(self).level == old(self).level,
            final(self).milestones == old(self).milestones,
            final(self).unlocked_skins == old(self).unlocked_skins,
            final(self).unlocked_titles == old(self).unlocked_titles,
            final(self).character == old(self).character,
            final(self).games_played == old(self).games_played,
            final(self).games_won == old(self).games_won,
            final(self).total_kills == old(self).total_kills,
            final(self).total_deaths == old(self).total_deaths,
            final(self).highest_combo == old(self).highest_combo,
    {
        let l = self.level;
        self.rank = if 1 <= l && l <= 10 {
            MasteryRank::Bronze
        } else if 11 <= l && l <= 25 {
            MasteryRank::Silver
        } else if 26 <= l && l <= 50 {
            MasteryRank::Gold
        } else if 51 <= l && l <= 75 {
            MasteryRank::Platinum
        } else if 76 <= l && l <= 99 {
            MasteryRank::Diamond
        } else if l >= 100 {
            MasteryRank::Master
        } else {
            MasteryRank::Bronze
        };
    }

    /// Raises the mastery by one level (up to 100): the rank follows the
    /// level, the milestones of the new level unlock, and their rewards are
    /// returned in milestone order, with skins and titles among them added
    /// to the character's collection. The game calls it for each level the
    /// experience it adds pays for.
    pub fn gain_level(&mut self) -> (rewards: Vec<MasteryReward>)
        requires
            old(self).level < 100,
        ensures
            ({
                let n = (old(self).level + 1) as u32;
                let (ms, rs, skins, titles) = reach_level(old(self).milestones@, n);
                &&& final(self).level == n
                &&& final(self).rank == rank_of(n)
                &&& final(self).milestones@ == ms
                &&& rewards@ == rs
                &&& final(self).unlocked_skins@.map_values(|x: String| x@)
                    == old(self).unlocked_skins@.map_values(|x: String| x@) + skins
                &&& final(self).unlocked_titles@.map_values(|x: String| x@)
                    == old(self).unlocked_titles@.map_values(|x: String| x@) + titles
            }),
            final(self).character == old(self).character,
            final(self).games_played == old(self).games_played,
            final(self).games_won == old(self).games_won,
            final(self).total_kills == old(self).total_kills,
            final(self).total_deaths == old(self).total_deaths,
            final(self).highest_combo == old(self).highest_combo,
    {
        self.level = self.level + 1;
        self.update_rank();
        let level = self.level;
        let ghost m0 = self.milestones@;
        let ghost skins0 = self.unlocked_skins@;
        let ghost titles0 = self.unlocked_titles@;
        let ghost s0 = *self;
        let mut rewards: Vec<MasteryReward> = Vec::new();
        let mut i: usize = 0;
        while i < self.milestones.len()
            invariant
                0 <= i <= self.milestones@.len(),
                self.milestones@.len() == m0.len(),
                self.level == level,
                self.rank == s0.rank,
                self.character == s0.character,
                self.games_played == s0.games_played,
                self.games_won == s0.games_won,
                self.total_kills == s0.total_kills,
                self.total_deaths == s0.total_deaths,
                self.highest_combo == s0.highest_combo,
                ({
                    let (ms, rs, skins, titles) = reach_level(m0.take(i as int), level);
                    &&& self.milestones@.take(i as int) == ms
                    &&& rewards@ == rs
                    &&& self.unlocked_skins@.map_values(|x: String| x@) == skins0.map_values(|x: String| x@) + skins
                    &&& self.unlocked_titles@.map_values(|x: String| x@) == titles0.map_values(|x: String| x@) + titles
                }),
                forall|j: int| i <= j < self.milestones@.len() ==> self.milestones@[j] == m0[j],
            decreases self.milestones@.len() - i,
        {
            let ghost prev = reach_level(m0.take(i as int), level);
            assert(m0.take(i as int + 1).drop_last() =~= m0.take(i as int));
            assert(m0.take(i as int + 1).last() == m0[i as int]);
            if self.milestones[i].level == level && !self.milestones[i].unlocked {
                self.milestones[i].unlocked = true;
                let reward = self.milestones[i].reward.duplicate();
                match &reward {
                    MasteryReward::Skin(skin) => {
                        push_text(&mut self.unlocked_skins, skin, Ghost(prev.2), Ghost(skins0));
                    },
                    MasteryReward::Title(title) => {
                        push_text(&mut self.unlocked_titles, title, Ghost(prev.3), Ghost(titles0));
                    },
                    _ => {},
                }
                rewards.push(reward);
            }
            assert(self.milestones@.take(i as int + 1) =~= reach_level(m0.take(i as int + 1), level).0);
            i = i + 1;
        }
        assert(m0.take(i as int) =~= m0);
        assert(self.milestones@.take(i as int) =~= self.milestones@);
        rewards
    }

    /// Counts a finished game: played, won, kills, deaths, and the best combo.
    pub fn record_game(&mut self, won: bool, stats: GameStats)
        requires
            old(self).games_played < u32::MAX,
            won ==> old(self).games_won < u32::MAX,
            old(self).total_kills + stats.kills <= u32::MAX,
            old(self).total_deaths + stats.deaths <= u32::MAX,
        ensures
            *final(self) == (CharacterMastery {
                games_played: (old(self).games_played + 1) as u32,
                games_won: (old(self).games_won + if won { 1int } else { 0int }) as u32,
                total_kills: (old(self).total_kills + stats.kills) as u32,
                total_deaths: (old(self).total_deaths + stats.deaths) as u32,
                highest_combo: if stats.highest_combo > old(self).highest_combo {
                    stats.highest_combo
                } else {
                    old(self).highest_combo
                },
                ..*old(self)
            }),
    {
        self.games_played = self.games_played + 1;
        if won {
            self.games_won = self.games_won + 1;
        }
        self.total_kills = self.total_kills + stats.kills;
        self.total_deaths = self.total_deaths + stats.deaths;
        if stats.highest_combo > self.highest_combo {
            self.highest_combo = stats.highest_combo;
        }
    }

    /// A fresh mastery: level 1, Bronze, no game, the default skin, and the
    /// twelve milestones from level 5 to level 100 that `milestone_entry`
    /// lists, none unlocked.
    pub fn new(character: CharacterId) -> (m: CharacterMastery)
        ensures
            fresh_mastery(m, character),
    {
        let mut skins: Vec<String> = Vec::new();
        skins.push(String::from_str("Default"));
        assert(skins@.map_values(|x: String| x@) =~= seq!["Default"@]);
        CharacterMastery {
            character,
            level: 1,
            rank: MasteryRank::Bronze,
            games_played: 0,
            games_won: 0,
            total_kills: 0,
            total_deaths: 0,
            highest_combo: 0,
            unlocked_skins: skins,
            unlocked_titles: Vec::new(),
            milestones: Self::create_milestones(),
        }
    }

    fn create_milestones() -> (v: Vec<MasteryMilestone>)
        ensures
            v@.len() == milestone_count(),
            forall|j: int| 0 <= j < v@.len() ==> !(#[trigger] v@[j]).unlocked
                && is_milestone_entry(v@[j], milestone_entry(j)),
    {
        let mut v: Vec<MasteryMilestone> = Vec::new();
        push_milestone(&mut v, milestone(5, "Novice", "Reach mastery level 5", MasteryReward::SkillPoints(1)));
        push_milestone(&mut v, milestone(10, "Bronze Master", "Reach Bronze rank", MasteryReward::Skin(String::from_str("Bronze Variant"))));
        push_milestone(&mut v, milestone(15, "Apprentice", "Reach mastery level 15", MasteryReward::SkillPoints(2)));
        push_milestone(&mut v, milestone(25, "Silver Master", "Reach Silver rank", MasteryReward::Skin(String::from_str("Silver Variant"))));
        push_milestone(&mut v, milestone(30, "Journeyman", "Reach mastery level 30", MasteryReward::Title(String::from_str("Journeyman"))));
        push_milestone(&mut v, milestone(40, "Veteran", "Reach mastery level 40", MasteryReward::SkillPoints(3)));
        push_milestone(&mut v, milestone(50, "Gold Master", "Reach Gold rank", MasteryReward::Skin(String::from_str("Gold Variant"))));
        push_milestone(&mut v, milestone(60, "Expert", "Reach mastery level 60", MasteryReward::Title(String::from_str("Expert"))));
        push_milestone(&mut v, milestone(75, "Platinum Master", "Reach Platinum rank", MasteryReward::Skin(String::from_str("Platinum Variant"))));
        push_milestone(&mut v, milestone(85, "Master Fighter", "Reach mastery level 85", MasteryReward::SkillPoints(5)));
        push_milestone(&mut v, milestone(99, "Diamond Master", "Reach Diamond rank", MasteryReward::Skin(String::from_str("Diamond Variant"))));
        push_milestone(&mut v, milestone(100, "True Master", "Reach maximum mastery", MasteryReward::Skin(String::from_str("Master Skin"))));
        v
    }
}

/// A mastery reward as its variant's position, its amount and its text.
pub open spec fn mastery_reward_view(r: MasteryReward) -> (int, u32, Seq<char>) {
    match r {
        MasteryReward::Skin(s) => (0, 0, s@),
        MasteryReward::Title(s) => (1, 0, s@),
        MasteryReward::SkillPoints(n) => (2, n, ""@),
        MasteryReward::Currency(n) => (3, n, ""@),
        MasteryReward::Cosmetic(s) => (4, 0, s@),
    }
}

/// Milestone `k` of a mastery: level, name, description and reward (as
/// `mastery_reward_view` gives it).
pub open spec fn milestone_entry(k: int) -> (u32, Seq<char>, Seq<char>, (int, u32, Seq<char>)) {
    if k == 0 {
        (5u32, "Novice"@, "Reach mastery level 5"@, (2int, 1u32, ""@))
    } else if k == 1 {
        (10u32, "Bronze Master"@, "Reach Bronze rank"@, (0int, 0u32, "Bronze Variant"@))
    } else if k == 2 {
        (15u32, "Apprentice"@, "Reach mastery level 15"@, (2int, 2u32, ""@))
    } else if k == 3 {
        (25u32, "Silver Master"@, "Reach Silver rank"@, (0int, 0u32, "Silver Variant"@))
    } else if k == 4 {
        (30u32, "Journeyman"@, "Reach mastery level 30"@, (1int, 0u32, "Journeyman"@))
    } else if k == 5 {
        (40u32, "Veteran"@, "Reach mastery level 40"@, (2int, 3u32, ""@))
    } else if k == 6 {
        (50u32, "Gold Master"@, "Reach Gold rank"@, (0int, 0u32, "Gold Variant"@))
    } else if k == 7 {
        (60u32, "Expert"@, "Reach mastery level 60"@, (1int, 0u32, "Expert"@))
    } else if k == 8 {
        (75u32, "Platinum Master"@, "Reach Platinum rank"@, (0int, 0u32, "Platinum Variant"@))
    } else if k == 9 {
        (85u32, "Master Fighter"@, "Reach mastery level 85"@, (2int, 5u32, ""@))
    } else if k == 10 {
        (99u32, "Diamond Master"@, "Reach Diamond rank"@, (0int, 0u32, "Diamond Variant"@))
    } else {
        (100u32, "True Master"@, "Reach maximum mastery"@, (0int, 0u32, "Master Skin"@))
    }
}

/// `m` is the milestone that entry `e` describes.
pub open spec fn is_milestone_entry(m: MasteryMilestone, e: (u32, Seq<char>, Seq<char>, (int, u32, Seq<char>))) -> bool {
    &&& m.level == e.0
    &&& m.name@ == e.1
    &&& m.description@ == e.2
    &&& mastery_reward_view(m.reward) == e.3
}

/// A mastery of `c` before any game: level 1, Bronze, no game, the default
/// skin, no title, and the milestones `milestone_entry` lists, none unlocked.
pub open spec fn fresh_mastery(m: CharacterMastery, c: CharacterId) -> bool {
    &&& m.character == c
    &&& m.level == 1
    &&& m.rank == MasteryRank::Bronze
    &&& m.games_played == 0
    &&& m.games_won == 0
    &&& m.total_kills == 0
    &&& m.total_deaths == 0
    &&& m.highest_combo == 0
    &&& m.unlocked_skins@.map_values(|x: String| x@) == seq!["Default"@]
    &&& m.unlocked_titles@.len() == 0
    &&& m.milestones@.len() == milestone_count()
    &&& forall|j: int| 0 <= j < m.milestones@.len() ==> !(#[trigger] m.milestones@[j]).unlocked
        && is_milestone_entry(m.milestones@[j], milestone_entry(j))
}

/// Number of milestones of a mastery.
pub open spec fn milestone_count() -> int {
    12
}

fn milestone(level: u32, name: &str, description: &str, reward: MasteryReward) -> (m: MasteryMilestone)
    ensures
        m.level == level,
        m.name@ == name@,
        m.description@ == description@,
        m.reward == reward,
        !m.unlocked,
{
    MasteryMilestone { level, name: String::from_str(name), description: String::from_str(description), reward, unlocked: false }
}

fn push_milestone(v: &mut Vec<MasteryMilestone>, m: MasteryMilestone)
    requires
        forall|j: int| 0 <= j < old(v)@.len() ==> !(#[trigger] old(v)@[j]).unlocked
            && is_milestone_entry(old(v)@[j], milestone_entry(j)),
        !m.unlocked,
        is_milestone_entry(m, milestone_entry(old(v)@.len() as int)),
    ensures
        final(v)@ == old(v)@.push(m),
        forall|j: int| 0 <= j < final(v)@.len() ==> !(#[trigger] final(v)@[j]).unlocked
            && is_milestone_entry(final(v)@[j], milestone_entry(j)),
{
    v.push(m);
}

impl MasteryRank {
    /// The rank's display name.
    pub fn to_string(&self) -> (s: &'static str)
        ensures
            s@ == match *self {
                MasteryRank::Bronze => "Bronze"@,
                MasteryRank::Silver => "Silver"@,
                MasteryRank::Gold => "Gold"@,
                MasteryRank::Platinum => "Platinum"@,
                MasteryRank::Diamond => "Diamond"@,
                MasteryRank::Master => "Master"@,
            },
    {
        match self {
            MasteryRank::Bronze => "Bronze",
            MasteryRank::Silver => "Silver",
            MasteryRank::Gold => "Gold",
            MasteryRank::Platinum => "Platinum",
            MasteryRank::Diamond => "Diamond",
            MasteryRank::Master => "Master",
        }
    }
}

/// Sum of the levels of the masteries in a sequence of slots.
pub open spec fn total_level(s: Seq<Option<CharacterMastery>>) -> int
    decreases s.len(),
{
    if s.len() == 0 {
        0
    } else {
        total_level(s.drop_last()) + match s.last() {
            Some(m) => m.level as int,
            None => 0,
        }
    }
}

impl MasteryManager {
    /// The mastery of a character, if it has one.
    pub closed spec fn mastery_of(&self, c: CharacterId) -> Option<CharacterMastery> {
        self.masteries@[char_index(c)]
    }

    /// One mastery slot per playable character.
    pub closed spec fn wf(&self) -> bool {
        &&& self.masteries@.len() == CHARACTER_COUNT
        &&& forall|j: int| 0 <= j < self.masteries@.len() ==> (#[trigger] self.masteries@[j] matches Some(m)
            ==> m.level <= 100)
    }

    /// Sum of the mastery levels of every character.
    pub closed spec fn level_sum(&self) -> int {
        total_level(self.masteries@)
    }

    /// Masteries for Bas, Berkay and Luca, nobody else.
    pub fn new() -> (m: MasteryManager)
        ensures
            m.wf(),
            m.mastery_of(CharacterId::Bas) is Some,
            m.mastery_of(CharacterId::Berkay) is Some,
            m.mastery_of(CharacterId::Luca) is Some,
            forall|c: CharacterId| c != CharacterId::Bas && c != CharacterId::Berkay && c != CharacterId::Luca
                ==> m.mastery_of(c) is None,
            forall|c: CharacterId| #[trigger] m.mastery_of(c) is Some ==> fresh_mastery(m.mastery_of(c)->0, c),
    {
        let mut masteries: Vec<Option<CharacterMastery>> = Vec::new();
        let mut i: usize = 0;
        while i < CHARACTER_COUNT
            invariant
                0 <= i <= CHARACTER_COUNT,
                masteries@.len() == i,
                forall|j: int| 0 <= j < i ==> masteries@[j] is None,
            decreases CHARACTER_COUNT - i,
        {
            masteries.push(None);
            i = i + 1;
        }
        masteries.set(CharacterId::Bas.slot(), Some(CharacterMastery::new(CharacterId::Bas)));
        masteries.set(CharacterId::Berkay.slot(), Some(CharacterMastery::new(CharacterId::Berkay)));
        masteries.set(CharacterId::Luca.slot(), Some(CharacterMastery::new(CharacterId::Luca)));
        let m = MasteryManager { masteries };
        assert forall|c: CharacterId| c != CharacterId::Bas && c != CharacterId::Berkay && c != CharacterId::Luca
            implies m.mastery_of(c) is None by {
            assert(char_index(c) != 3 && char_index(c) != 0 && char_index(c) != 1);
        }
        m
    }

    /// The mastery of a character, if it has one.
    pub fn get_mastery(&self, character: CharacterId) -> (r: Option<&CharacterMastery>)
        requires
            self.wf(),
        ensures
            r is Some <==> self.mastery_of(character) is Some,
            r is Some ==> *(r->0) == self.mastery_of(character)->0,
    {
        self.masteries[character.slot()].as_ref()
    }

    /// Counts a finished game for a character; nothing happens for a
    /// character without mastery.
    pub fn record_game(&mut self, character: CharacterId, won: bool, stats: GameStats)
        requires
            old(self).wf(),
            old(self).mastery_of(character) matches Some(m) ==> {
                &&& m.games_played < u32::MAX
                &&& won ==> m.games_won < u32::MAX
                &&& m.total_kills + stats.kills <= u32::MAX
                &&& m.total_deaths + stats.deaths <= u32::MAX
            },
        ensures
            final(self).wf(),
            match old(self).mastery_of(character) {
                Some(m) => final(self).mastery_of(character) matches Some(m2) && {
                    &&& m2.games_played == m.games_played + 1
                    &&& m2.games_won == m.games_won + if won { 1int } else { 0int }
                    &&& m2.total_kills == m.total_kills + stats.kills
                    &&& m2.total_deaths == m.total_deaths + stats.deaths
                    &&& m2.highest_combo == if stats.highest_combo > m.highest_combo { stats.highest_combo } else { m.highest_combo }
                    &&& m2.level == m.level
                    &&& m2.character == m.character
                },
                None => final(self).mastery_of(character) is None,
            },
            forall|d: CharacterId| d != character ==> final(self).mastery_of(d) == old(self).mastery_of(d),
    {
        let ci = character.slot();
        let mut taken: Option<CharacterMastery> = None;
        std::mem::swap(&mut taken, &mut self.masteries[ci]);
        match taken {
            Some(mut m) => {
                m.record_game(won, stats);
                self.masteries.set(ci, Some(m));
            },
            None => {
                self.masteries.set(ci, None);
            },
        }
        proof {
            assert forall|d: CharacterId| d != character implies self.mastery_of(d) == old(self).mastery_of(d) by {
                assert(char_index(d) != char_index(character));
            }
        }
    }

    /// Raises the mastery of a character by one level, returning the
    /// milestone rewards of the new level; nothing happens for a character
    /// without mastery.
    pub fn gain_level(&mut self, character: CharacterId) -> (rewards: Vec<MasteryReward>)
        requires
            old(self).wf(),
            old(self).mastery_of(character) matches Some(m) ==> m.level < 100,
        ensures
            final(self).wf(),
            match old(self).mastery_of(character) {
                Some(m) => final(self).mastery_of(character) matches Some(m2) && {
                    let (ms, rs, skins, titles) = reach_level(m.milestones@, (m.level + 1) as u32);
                    &&& m2.level == m.level + 1
                    &&& m2.rank == rank_of(m2.level)
                    &&& m2.milestones@ == ms
                    &&& rewards@ == rs
                },
                None => final(self).mastery_of(character) is None && rewards@.len() == 0,
            },
            forall|d: CharacterId| d != character ==> final(self).mastery_of(d) == old(self).mastery_of(d),
    {
        let ci = character.slot();
        let mut taken: Option<CharacterMastery> = None;
        std::mem::swap(&mut taken, &mut self.masteries[ci]);
        let rewards = match taken {
            Some(mut m) => {
                let r = m.gain_level();
                self.masteries.set(ci, Some(m));
                r
            },
            None => {
                self.masteries.set(ci, None);
                Vec::new()
            },
        };
        proof {
            assert forall|d: CharacterId| d != character implies self.mastery_of(d) == old(self).mastery_of(d) by {
                assert(char_index(d) != char_index(character));
            }
        }
        rewards
    }

    /// Sum of the mastery levels of every character.
    pub fn get_total_mastery_level(&self) -> (total: u32)
        requires
            self.wf(),
        ensures
            total == self.level_sum(),
    {
        proof { lemma_total_level_bound(self.masteries@); }
        let mut total: u32 = 0;
        let mut i: usize = 0;
        proof { lemma_total_level_prefix_le(self.masteries@); }
        while i < self.masteries.len()
            invariant
                0 <= i <= self.masteries@.len(),
                total == total_level(self.masteries@.take(i as int)),
                total_level(self.masteries@) <= u32::MAX,
                forall|j: int| 0 <= j <= self.masteries@.len() ==>
                    #[trigger] total_level(self.masteries@.take(j)) <= total_level(self.masteries@),
            decreases self.masteries@.len() - i,
        {
            assert(self.masteries@.take(i as int + 1).drop_last() =~= self.masteries@.take(i as int));
            assert(total_level(self.masteries@.take(i as int + 1)) <= total_level(self.masteries@));
            match &self.masteries[i] {
                Some(m) => {
                    total = total + m.level;
                },
                None => {},
            }
            i = i + 1;
        }
        assert(self.masteries@.take(i as int) =~= self.masteries@);
        total
    }

    /// The character with the most games played: when several tie, the last
    /// of them in character order. `None` when no character has mastery.
    pub fn get_most_played(&self) -> (r: Option<CharacterId>)
        requires
            self.wf(),
        ensures
            match r {
                Some(c) => self.mastery_of(c) is Some
                    && forall|d: CharacterId| #[trigger] self.mastery_of(d) is Some ==>
                        self.mastery_of(d)->0.games_played <= self.mastery_of(c)->0.games_played,
                None => forall|d: CharacterId| #[trigger] self.mastery_of(d) is None,
            },
    {
        let mut best: Option<usize> = None;
        let mut best_games: u32 = 0;
        let mut i: usize = 0;
        while i < self.masteries.len()
            invariant
                0 <= i <= self.masteries@.len(),
                self.masteries@.len() == CHARACTER_COUNT,
                match best {
                    Some(b) => b < i && self.masteries@[b as int] is Some
                        && self.masteries@[b as int]->0.games_played == best_games
                        && forall|j: int| 0 <= j < i && #[trigger] self.masteries@[j] is Some ==>
                            self.masteries@[j]->0.games_played <= best_games,
                    None => forall|j: int| 0 <= j < i ==> #[trigger] self.masteries@[j] is None,
                },
            decreases self.masteries@.len() - i,
        {
            match &self.masteries[i] {
                Some(m) => {
                    if best.is_none() || m.games_played >= best_games {
                        best = Some(i);
                        best_games = m.games_played;
                    }
                },
                None => {},
            }
            i = i + 1;
        }
        match best {
            Some(b) => {
                proof {
                    assert forall|d: CharacterId| #[trigger] self.mastery_of(d) is Some implies
                        self.mastery_of(d)->0.games_played <= best_games by {
                        assert(0 <= char_index(d) < CHARACTER_COUNT);
                    }
                    assert(char_index(char_at(b as int)) == b);
                }
                Some(slot_character(b))
            },
            None => {
                proof {
                    assert forall|d: CharacterId| #[trigger] self.mastery_of(d) is None by {
                        assert(0 <= char_index(d) < CHARACTER_COUNT);
                    }
                }
                None
            },
        }
    }
}

/// The character at a table position.
fn slot_character(i: usize) -> (c: CharacterId)
    requires
        i < CHARACTER_COUNT,
    ensures
        c == char_at(i as int),
        char_index(c) == i,
{
    if i == 0 {
        CharacterId::Berkay
    } else if i == 1 {
        CharacterId::Luca
    } else if i == 2 {
        CharacterId::Gefferinho
    } else if i == 3 {
        CharacterId::Bas
    } else if i == 4 {
        CharacterId::Hadi
    } else if i == 5 {
        CharacterId::Nitin
    } else {
        CharacterId::PalaBaba
    }
}

proof fn lemma_total_level_bound(s: Seq<Option<CharacterMastery>>)
    requires
        forall|j: int| 0 <= j < s.len() ==> (#[trigger] s[j] matches Some(m) ==> m.level <= 100),
    ensures
        total_level(s) <= 100 * s.len(),
    decreases s.len(),
{
    if s.len() > 0 {
        assert forall|j: int| 0 <= j < s.drop_last().len() implies (#[trigger] s.drop_last()[j] matches Some(m)
            ==> m.level <= 100) by {
            assert(s.drop_last()[j] == s[j]);
        }
        lemma_total_level_bound(s.drop_last());
        assert(s.last() == s[s.len() - 1]);
    }
}

proof fn lemma_total_level_prefix_le(s: Seq<Option<CharacterMastery>>)
    ensures
        forall|j: int| 0 <= j <= s.len() ==> #[trigger] total_level(s.take(j)) <= total_level(s),
    decreases s.len(),
{
    if s.len() > 0 {
        lemma_total_level_prefix_le(s.drop_last());
        assert forall|j: int| 0 <= j <= s.len() implies #[trigger] total_level(s.take(j)) <= total_level(s) by {
            if j == s.len() {
                assert(s.take(j) =~= s);
            } else {
                assert(s.take(j) =~= s.drop_last().take(j));
                assert(total_level(s.drop_last().take(j)) <= total_level(s.drop_last()));
            }
        }
    }
}

/// The rank only ever goes up with the level.
pub proof fn law_rank_monotone(a: u32, b: u32)
    requires
        1 <= a <= b,
    ensures
        rank_order(rank_of(a)) <= rank_order(rank_of(b)),
{
}

/// The rank tiers by their level bounds: Bronze for levels 1 to 10, Silver
/// for 11 to 25, Gold for 26 to 50, Platinum for 51 to 75, Diamond for 76 to
/// 99, Master from 100 on.
pub proof fn law_rank_tiers(level: u32)
    ensures
        1 <= level <= 10 ==> rank_of(level) == MasteryRank::Bronze,
        11 <= level <= 25 ==> rank_of(level) == MasteryRank::Silver,
        26 <= level <= 50 ==> rank_of(level) == MasteryRank::Gold,
        51 <= level <= 75 ==> rank_of(level) == MasteryRank::Platinum,
        76 <= level <= 99 ==> rank_of(level) == MasteryRank::Diamond,
        level >= 100 ==> rank_of(level) == MasteryRank::Master,
        rank_of(level) == MasteryRank::Gold <==> 26 <= level <= 50,
        rank_of(level) == MasteryRank::Silver <==> 11 <= level <= 25,
        rank_of(level) == MasteryRank::Platinum <==> 51 <= level <= 75,
        rank_of(level) == MasteryRank::Diamond <==> 76 <= level <= 99,
        rank_of(level) == MasteryRank::Master <==> level >= 100,
{
}

/// Position of a rank among the tiers, from 0 for Bronze.
pub open spec fn rank_order(r: MasteryRank) -> int {
    match r {
        MasteryRank::Bronze => 0,
        MasteryRank::Silver => 1,
        MasteryRank::Gold => 2,
        MasteryRank::Platinum => 3,
        MasteryRank::Diamond => 4,
        MasteryRank::Master => 5,
    }
}

/// A milestone pays its reward once: after reaching a level, no milestone of
/// that level is left locked, so reaching it again grants nothing.
pub proof fn law_milestone_paid_once(ms: Seq<MasteryMilestone>, level: u32)
    ensures
        reach_level(reach_level(ms, level).0, level).1.len() == 0,
        reach_level(ms, level).0.len() == ms.len(),
{
    lemma_reach_level_settles(ms, level);
}

proof fn lemma_reach_level_settles(ms: Seq<MasteryMilestone>, level: u32)
    ensures
        reach_level(ms, level).0.len() == ms.len(),
        forall|j: int| 0 <= j < ms.len() ==> #[trigger] reach_level(ms, level).0[j].level == ms[j].level,
        forall|j: int| 0 <= j < ms.len() && ms[j].level == level ==> #[trigger] reach_level(ms, level).0[j].unlocked,
        reach_level(reach_level(ms, level).0, level).1.len() == 0,
    decreases ms.len(),
{
    if ms.len() > 0 {
        lemma_reach_level_settles(ms.drop_last(), level);
        let out = reach_level(ms, level).0;
        assert(out.drop_last() =~= reach_level(ms.drop_last(), level).0);
    }
}

} // verus!

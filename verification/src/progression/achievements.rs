use vstd::prelude::*;
use vstd::string::StringExecFns;

verus! {

/// Manages all achievements: their progress, and how many are unlocked.
pub struct AchievementManager {
    achievements: Vec<Achievement>,
    unlocked_count: u32,
    total_count: u32,
}

/// One achievement. Progress and its target are whole counts of the unit
/// the requirement names (enemies, hits, damage points, currency, ...).
pub struct Achievement {
    pub id: String,
    pub name: String,
    pub description: String,
    pub category: AchievementCategory,
    pub difficulty: AchievementDifficulty,
    pub requirement: AchievementRequirement,
    pub reward: AchievementReward,
    pub progress: u32,
    pub max_progress: u32,
    pub unlocked: bool,
    /// Seconds since the Unix epoch at which it was unlocked.
    pub unlock_timestamp: Option<u64>,
    /// Secret achievements are not shown before they unlock.
    pub hidden: bool,
}

#[derive(Clone, Copy, Debug, PartialEq, Eq, Structural)]
pub enum AchievementCategory {
    Combat,
    Progression,
    Exploration,
    Mastery,
    Social,
    Challenge,
    Collection,
    Secret,
}

#[derive(Clone, Copy, Debug, PartialEq, Eq, Structural)]
pub enum AchievementDifficulty {
    Easy,
    Medium,
    Hard,
    Expert,
    Legendary,
}

/// What an achievement asks for. Amounts, times (seconds) and play time
/// (hours) are whole numbers.
pub enum AchievementRequirement {
    DealDamage(u32),
    DefeatEnemies(u32),
    DefeatBosses(u32),
    ReachCombo(u32),
    WinWithoutDying,
    CompleteWave(u32),
    ReachLevel(u32),
    UnlockCharacter(String),
    UnlockAllCharacters,
    MasteryLevel(String, u32),
    SkillTreeComplete(String),
    CompleteTimeAttack(u32),
    CompleteNoHit,
    CompleteSoloRun,
    CompleteEndlessWave(u32),
    UnlockAllSkins,
    UnlockAllTitles,
    BuyAllUpgrades,
    CollectCurrency(u32),
    PlayCoopGames(u32),
    RevivePlayers(u32),
    WinCoopGame,
    PlayGames(u32),
    PlayTime(u32),
    Multiple(Vec<AchievementRequirement>),
    Either(Vec<AchievementRequirement>),
}

/// What unlocking an achievement grants.
pub enum AchievementReward {
    Currency(u32),
    SkillPoints(u32),
    Title(String),
    Skin(String),
    /// Nothing is granted.
    NoReward,
}

impl Clone for AchievementReward {
    fn clone(&self) -> (r: Self)
        ensures
            r == *self,
    {
        match self {
            AchievementReward::Currency(c) => AchievementReward::Currency(*c),
            AchievementReward::SkillPoints(p) => AchievementReward::SkillPoints(*p),
            AchievementReward::Title(t) => AchievementReward::Title(t.clone()),
            AchievementReward::Skin(s) => AchievementReward::Skin(s.clone()),
            AchievementReward::NoReward => AchievementReward::NoReward,
        }
    }
}

/// A requirement as its variant's position, its amount (the length of a
/// list for `Multiple` and `Either`) and its text.
pub open spec fn requirement_view(r: AchievementRequirement) -> (int, u32, Seq<char>) {
    match r {
        AchievementRequirement::DealDamage(n) => (0, n, ""@),
        AchievementRequirement::DefeatEnemies(n) => (1, n, ""@),
        AchievementRequirement::DefeatBosses(n) => (2, n, ""@),
        AchievementRequirement::ReachCombo(n) => (3, n, ""@),
        AchievementRequirement::WinWithoutDying => (4, 0, ""@),
        AchievementRequirement::CompleteWave(n) => (5, n, ""@),
        AchievementRequirement::ReachLevel(n) => (6, n, ""@),
        AchievementRequirement::UnlockCharacter(s) => (7, 0, s@),
        AchievementRequirement::UnlockAllCharacters => (8, 0, ""@),
        AchievementRequirement::MasteryLevel(s, n) => (9, n, s@),
        AchievementRequirement::SkillTreeComplete(s) => (10, 0, s@),
        AchievementRequirement::CompleteTimeAttack(n) => (11, n, ""@),
        AchievementRequirement::CompleteNoHit => (12, 0, ""@),
        AchievementRequirement::CompleteSoloRun => (13, 0, ""@),
        AchievementRequirement::CompleteEndlessWave(n) => (14, n, ""@),
        AchievementRequirement::UnlockAllSkins => (15, 0, ""@),
        AchievementRequirement::UnlockAllTitles => (16, 0, ""@),
        AchievementRequirement::BuyAllUpgrades => (17, 0, ""@),
        AchievementRequirement::CollectCurrency(n) => (18, n, ""@),
        AchievementRequirement::PlayCoopGames(n) => (19, n, ""@),
        AchievementRequirement::RevivePlayers(n) => (20, n, ""@),
        AchievementRequirement::WinCoopGame => (21, 0, ""@),
        AchievementRequirement::PlayGames(n) => (22, n, ""@),
        AchievementRequirement::PlayTime(n) => (23, n, ""@),
        AchievementRequirement::Multiple(v) => (24, v@.len() as u32, ""@),
        AchievementRequirement::Either(v) => (25, v@.len() as u32, ""@),
    }
}

/// A reward as its variant's position, its amount and its text.
pub open spec fn reward_view(r: AchievementReward) -> (int, u32, Seq<char>) {
    match r {
        AchievementReward::Currency(n) => (0, n, ""@),
        AchievementReward::SkillPoints(n) => (1, n, ""@),
        AchievementReward::Title(t) => (2, 0, t@),
        AchievementReward::Skin(t) => (3, 0, t@),
        AchievementReward::NoReward => (4, 0, ""@),
    }
}

/// Entry `k` of the achievement list: id, name, description, category,
/// difficulty, requirement (as `requirement_view` gives it), reward (as
/// `reward_view` gives it), target progress, and whether it is secret.
pub open spec fn achievement_entry(k: int) -> (Seq<char>, Seq<char>, Seq<char>, AchievementCategory,
    AchievementDifficulty, (int, u32, Seq<char>), (int, u32, Seq<char>), u32, bool) {
    if k == 0 {
        ("first_blood"@, "First Blood"@, "Defeat your first enemy"@, AchievementCategory::Combat, AchievementDifficulty::Easy, (1int, 1u32, ""@), (0int, 50u32, ""@), 1u32, false)
    } else if k == 1 {
        ("killing_spree"@, "Killing Spree"@, "Defeat 100 enemies"@, AchievementCategory::Combat, AchievementDifficulty::Medium, (1int, 100u32, ""@), (0int, 200u32, ""@), 100u32, false)
    } else if k == 2 {
        ("executioner"@, "Executioner"@, "Defeat 500 enemies"@, AchievementCategory::Combat, AchievementDifficulty::Hard, (1int, 500u32, ""@), (1int, 2u32, ""@), 500u32, false)
    } else if k == 3 {
        ("genocide"@, "Genocide"@, "Defeat 2000 enemies"@, AchievementCategory::Combat, AchievementDifficulty::Expert, (1int, 2000u32, ""@), (2int, 0u32, "The Destroyer"@), 2000u32, false)
    } else if k == 4 {
        ("combo_novice"@, "Combo Novice"@, "Achieve a 10-hit combo"@, AchievementCategory::Combat, AchievementDifficulty::Easy, (3int, 10u32, ""@), (0int, 75u32, ""@), 10u32, false)
    } else if k == 5 {
        ("combo_expert"@, "Combo Expert"@, "Achieve a 50-hit combo"@, AchievementCategory::Combat, AchievementDifficulty::Medium, (3int, 50u32, ""@), (0int, 150u32, ""@), 50u32, false)
    } else if k == 6 {
        ("combo_master"@, "Combo Master"@, "Achieve a 100-hit combo"@, AchievementCategory::Combat, AchievementDifficulty::Hard, (3int, 100u32, ""@), (1int, 3u32, ""@), 100u32, false)
    } else if k == 7 {
        ("combo_god"@, "Combo God"@, "Achieve a 250-hit combo"@, AchievementCategory::Combat, AchievementDifficulty::Legendary, (3int, 250u32, ""@), (2int, 0u32, "Combo God"@), 250u32, true)
    } else if k == 8 {
        ("boss_killer"@, "Boss Killer"@, "Defeat your first boss"@, AchievementCategory::Combat, AchievementDifficulty::Easy, (2int, 1u32, ""@), (0int, 150u32, ""@), 1u32, false)
    } else if k == 9 {
        ("boss_slayer"@, "Boss Slayer"@, "Defeat 10 bosses"@, AchievementCategory::Combat, AchievementDifficulty::Medium, (2int, 10u32, ""@), (1int, 2u32, ""@), 10u32, false)
    } else if k == 10 {
        ("million_damage"@, "Heavy Hitter"@, "Deal 1 million total damage"@, AchievementCategory::Combat, AchievementDifficulty::Hard, (0int, 1000000u32, ""@), (2int, 0u32, "Heavy Hitter"@), 1000000u32, false)
    } else if k == 11 {
        ("getting_started"@, "Getting Started"@, "Complete wave 1"@, AchievementCategory::Progression, AchievementDifficulty::Easy, (5int, 1u32, ""@), (0int, 50u32, ""@), 1u32, false)
    } else if k == 12 {
        ("wave_warrior"@, "Wave Warrior"@, "Complete wave 10"@, AchievementCategory::Progression, AchievementDifficulty::Medium, (5int, 10u32, ""@), (1int, 1u32, ""@), 10u32, false)
    } else if k == 13 {
        ("survivor"@, "Survivor"@, "Complete wave 25"@, AchievementCategory::Progression, AchievementDifficulty::Hard, (5int, 25u32, ""@), (2int, 0u32, "Survivor"@), 25u32, false)
    } else if k == 14 {
        ("perfect_run"@, "Perfect Run"@, "Win a game without dying"@, AchievementCategory::Challenge, AchievementDifficulty::Hard, (4int, 0u32, ""@), (1int, 3u32, ""@), 1u32, false)
    } else if k == 15 {
        ("unlock_all_chars"@, "Gotta Catch 'Em All"@, "Unlock all playable characters"@, AchievementCategory::Collection, AchievementDifficulty::Medium, (8int, 0u32, ""@), (2int, 0u32, "Collector"@), 1u32, false)
    } else if k == 16 {
        ("bas_master"@, "Bas Mastery"@, "Reach mastery level 100 with Bas"@, AchievementCategory::Mastery, AchievementDifficulty::Expert, (9int, 100u32, "Bas"@), (3int, 0u32, "Bas Master Skin"@), 100u32, false)
    } else if k == 17 {
        ("berkay_master"@, "Berkay Mastery"@, "Reach mastery level 100 with Berkay"@, AchievementCategory::Mastery, AchievementDifficulty::Expert, (9int, 100u32, "Berkay"@), (3int, 0u32, "Berkay Master Skin"@), 100u32, false)
    } else if k == 18 {
        ("speed_runner"@, "Speed Runner"@, "Complete a run in under 10 minutes"@, AchievementCategory::Challenge, AchievementDifficulty::Hard, (11int, 600u32, ""@), (2int, 0u32, "Speed Demon"@), 1u32, false)
    } else if k == 19 {
        ("untouchable"@, "Untouchable"@, "Complete a run without taking damage"@, AchievementCategory::Challenge, AchievementDifficulty::Legendary, (12int, 0u32, ""@), (2int, 0u32, "Untouchable"@), 1u32, true)
    } else if k == 20 {
        ("solo_artist"@, "Solo Artist"@, "Complete a run solo (no allies)"@, AchievementCategory::Challenge, AchievementDifficulty::Hard, (13int, 0u32, ""@), (1int, 3u32, ""@), 1u32, false)
    } else if k == 21 {
        ("endless_warrior"@, "Endless Warrior"@, "Reach wave 50 in Endless mode"@, AchievementCategory::Challenge, AchievementDifficulty::Expert, (14int, 50u32, ""@), (2int, 0u32, "Endless Warrior"@), 50u32, false)
    } else if k == 22 {
        ("endless_legend"@, "Endless Legend"@, "Reach wave 100 in Endless mode"@, AchievementCategory::Challenge, AchievementDifficulty::Legendary, (14int, 100u32, ""@), (2int, 0u32, "Endless Legend"@), 100u32, true)
    } else if k == 23 {
        ("team_player"@, "Team Player"@, "Win a co-op game"@, AchievementCategory::Social, AchievementDifficulty::Easy, (21int, 0u32, ""@), (0int, 100u32, ""@), 1u32, false)
    } else if k == 24 {
        ("coop_veteran"@, "Co-op Veteran"@, "Play 50 co-op games"@, AchievementCategory::Social, AchievementDifficulty::Medium, (19int, 50u32, ""@), (1int, 2u32, ""@), 50u32, false)
    } else if k == 25 {
        ("medic"@, "Field Medic"@, "Revive teammates 25 times"@, AchievementCategory::Social, AchievementDifficulty::Medium, (20int, 25u32, ""@), (2int, 0u32, "Medic"@), 25u32, false)
    } else if k == 26 {
        ("fashionista"@, "Fashionista"@, "Unlock all character skins"@, AchievementCategory::Collection, AchievementDifficulty::Expert, (15int, 0u32, ""@), (2int, 0u32, "Fashionista"@), 1u32, false)
    } else if k == 27 {
        ("title_collector"@, "Title Collector"@, "Unlock all titles"@, AchievementCategory::Collection, AchievementDifficulty::Expert, (16int, 0u32, ""@), (2int, 0u32, "Completionist"@), 1u32, false)
    } else if k == 28 {
        ("fully_upgraded"@, "Fully Upgraded"@, "Purchase all shop upgrades"@, AchievementCategory::Collection, AchievementDifficulty::Hard, (17int, 0u32, ""@), (1int, 5u32, ""@), 1u32, false)
    } else if k == 29 {
        ("rich"@, "Moneybags"@, "Collect 10,000 currency"@, AchievementCategory::Progression, AchievementDifficulty::Medium, (18int, 10000u32, ""@), (0int, 500u32, ""@), 10000u32, false)
    } else if k == 30 {
        ("millionaire"@, "Millionaire"@, "Collect 100,000 currency"@, AchievementCategory::Progression, AchievementDifficulty::Expert, (18int, 100000u32, ""@), (2int, 0u32, "Millionaire"@), 100000u32, false)
    } else if k == 31 {
        ("first_game"@, "First Steps"@, "Play your first game"@, AchievementCategory::Progression, AchievementDifficulty::Easy, (22int, 1u32, ""@), (0int, 25u32, ""@), 1u32, false)
    } else if k == 32 {
        ("hundred_games"@, "Dedicated Player"@, "Play 100 games"@, AchievementCategory::Progression, AchievementDifficulty::Medium, (22int, 100u32, ""@), (1int, 3u32, ""@), 100u32, false)
    } else if k == 33 {
        ("thousand_games"@, "Addicted"@, "Play 1000 games"@, AchievementCategory::Progression, AchievementDifficulty::Expert, (22int, 1000u32, ""@), (2int, 0u32, "Addicted"@), 1000u32, false)
    } else if k == 34 {
        ("secret_room"@, "???"@, "Find the secret room"@, AchievementCategory::Secret, AchievementDifficulty::Hard, (24int, 0u32, ""@), (2int, 0u32, "Explorer"@), 1u32, true)
    } else {
        ("konami_code"@, "???"@, "Enter the Konami code"@, AchievementCategory::Secret, AchievementDifficulty::Medium, (24int, 0u32, ""@), (3int, 0u32, "Retro Skin"@), 1u32, true)
    }
}

/// `a` is the achievement that entry `e` describes, with no progress yet.
pub open spec fn is_listed(a: Achievement, e: (Seq<char>, Seq<char>, Seq<char>, AchievementCategory,
    AchievementDifficulty, (int, u32, Seq<char>), (int, u32, Seq<char>), u32, bool)) -> bool {
    &&& a.id@ == e.0
    &&& a.name@ == e.1
    &&& a.description@ == e.2
    &&& a.category == e.3
    &&& a.difficulty == e.4
    &&& requirement_view(a.requirement) == e.5
    &&& reward_view(a.reward) == e.6
    &&& a.max_progress == e.7
    &&& a.hidden == e.8
}

/// Number of achievements in the list.
pub open spec fn achievement_count() -> int {
    36
}

/// Number of unlocked achievements in a sequence.
pub open spec fn count_unlocked(s: Seq<Achievement>) -> nat
    decreases s.len(),
{
    if s.len() == 0 {
        0
    } else {
        count_unlocked(s.drop_last()) + if s.last().unlocked { 1nat } else { 0nat }
    }
}

/// First position at or after `i` whose achievement has the id `id`.
pub open spec fn find_achievement_from(s: Seq<Achievement>, id: Seq<char>, i: int) -> Option<int>
    decreases s.len() - i,
{
    if i < 0 || i >= s.len() {
        None
    } else if s[i].id@ == id {
        Some(i)
    } else {
        find_achievement_from(s, id, i + 1)
    }
}

/// Position of the achievement with the id `id`.
pub open spec fn find_achievement(s: Seq<Achievement>, id: Seq<char>) -> Option<int> {
    find_achievement_from(s, id, 0)
}

/// No two achievements share an id.
pub open spec fn ids_distinct(s: Seq<Achievement>) -> bool {
    forall|i: int, j: int| 0 <= i < j < s.len() ==> #[trigger] s[i].id@ != #[trigger] s[j].id@
}

/// An achievement after progress `p` was reported at time `now`.
pub open spec fn progressed(a: Achievement, p: u32, now: u64) -> Achievement {
    let best = if p > a.progress { p } else { a.progress };
    if best >= a.max_progress {
        Achievement { progress: best, unlocked: true, unlock_timestamp: Some(now), ..a }
    } else {
        Achievement { progress: best, ..a }
    }
}

impl AchievementManager {
    /// The achievements, in the order they were defined.
    pub closed spec fn entries(&self) -> Seq<Achievement> {
        self.achievements@
    }

    /// How many achievements are unlocked.
    pub closed spec fn unlocked_total(&self) -> u32 {
        self.unlocked_count
    }

    /// How many achievements there are.
    pub closed spec fn total(&self) -> u32 {
        self.total_count
    }

    /// The counters agree with the achievements, and no two achievements
    /// share an id.
    pub closed spec fn wf(&self) -> bool {
        &&& self.unlocked_count == count_unlocked(self.achievements@)
        &&& self.total_count == self.achievements@.len()
        &&& ids_distinct(self.achievements@)
    }

    /// `after` is `before` after progress `p` was reported for `id` at `now`,
    /// returning `r`.
    pub open spec fn progress_reported(before: &AchievementManager, after: &AchievementManager, id: Seq<char>,
        p: u32, now: u64, r: Option<AchievementReward>) -> bool {
        match find_achievement(before.entries(), id) {
            None => *after == *before && r is None,
            Some(k) => {
                let a = before.entries()[k];
                if a.unlocked {
                    *after == *before && r is None
                } else {
                    let b = progressed(a, p, now);
                    &&& after.entries() == before.entries().update(k, b)
                    &&& after.total() == before.total()
                    &&& if b.unlocked {
                        r == Some(a.reward) && after.unlocked_total() == before.unlocked_total() + 1
                    } else {
                        r is None && after.unlocked_total() == before.unlocked_total()
                    }
                }
            },
        }
    }
}

proof fn lemma_count_update(s: Seq<Achievement>, k: int, x: Achievement)
    requires
        0 <= k < s.len(),
    ensures
        count_unlocked(s.update(k, x)) + (if s[k].unlocked { 1int } else { 0int })
            == count_unlocked(s) + (if x.unlocked { 1int } else { 0int }),
    decreases s.len(),
{
    if k == s.len() - 1 {
        assert(s.update(k, x).drop_last() =~= s.drop_last());
    } else {
        assert(s.update(k, x).drop_last() =~= s.drop_last().update(k, x));
        lemma_count_update(s.drop_last(), k, x);
    }
}

proof fn lemma_find_update(s: Seq<Achievement>, id: Seq<char>, k: int, x: Achievement, i: int)
    requires
        0 <= k < s.len(),
        x.id@ == s[k].id@,
    ensures
        find_achievement_from(s.update(k, x), id, i) == find_achievement_from(s, id, i),
    decreases s.len() - i,
{
    if 0 <= i < s.len() {
        lemma_find_update(s, id, k, x, i + 1);
    }
}

proof fn lemma_count_le_len(s: Seq<Achievement>)
    ensures
        count_unlocked(s) <= s.len(),
    decreases s.len(),
{
    if s.len() > 0 {
        lemma_count_le_len(s.drop_last());
    }
}

proof fn lemma_find_found(s: Seq<Achievement>, id: Seq<char>, i: int)
    requires
        find_achievement_from(s, id, i) is Some,
    ensures
        0 <= find_achievement_from(s, id, i)->0 < s.len(),
        s[find_achievement_from(s, id, i)->0].id@ == id,
    decreases s.len() - i,
{
    if 0 <= i < s.len() && s[i].id@ != id {
        lemma_find_found(s, id, i + 1);
    }
}

impl AchievementManager {
    fn locate(&self, key: &String) -> (r: Option<usize>)
        ensures
            match r {
                Some(k) => find_achievement(self.entries(), key@) == Some(k as int) && k < self.entries().len(),
                None => find_achievement(self.entries(), key@) is None,
            },
    {
        let mut i: usize = 0;
        while i < self.achievements.len()
            invariant
                0 <= i <= self.achievements@.len(),
                find_achievement(self.achievements@, key@) == find_achievement_from(self.achievements@, key@, i as int),
            decreases self.achievements@.len() - i,
        {
            if self.achievements[i].id == *key {
                return Some(i);
            }
            i = i + 1;
        }
        None
    }

    /// Reports progress `progress` towards the achievement `id` at time `now`
    /// (seconds since the Unix epoch). Progress never goes down: the larger
    /// of the old and the new value is kept. When it reaches the target the
    /// achievement unlocks, records `now`, and its reward is returned; an
    /// unknown or already unlocked achievement changes nothing and returns
    /// nothing.
    pub fn update_progress(&mut self, id: &str, progress: u32, now: u64) -> (r: Option<AchievementReward>)
        requires
            old(self).wf(),
        ensures
            final(self).wf(),
            ids_distinct(final(self).entries()),
            AchievementManager::progress_reported(old(self), final(self), id@, progress, now, r),
    {
        let key = id.to_owned();
        let k = match self.locate(&key) {
            Some(k) => k,
            None => return None,
        };
        if self.achievements[k].unlocked {
            return None;
        }
        let ghost s0 = self.achievements@;
        let ghost target = progressed(s0[k as int], progress, now);
        let old_progress = self.achievements[k].progress;
        let best = if progress > old_progress { progress } else { old_progress };
        self.achievements[k].progress = best;
        if best >= self.achievements[k].max_progress {
            self.achievements[k].unlocked = true;
            self.achievements[k].unlock_timestamp = Some(now);
            proof {
                assert(self.achievements@ =~= s0.update(k as int, target));
                lemma_count_update(s0, k as int, target);
                lemma_count_le_len(self.achievements@);
                lemma_ids_kept(s0, k as int, target);
            }
            self.unlocked_count = self.unlocked_count + 1;
            let reward = self.achievements[k].reward.clone();
            return Some(reward);
        }
        proof {
            assert(self.achievements@ =~= s0.update(k as int, target));
            lemma_count_update(s0, k as int, target);
            lemma_ids_kept(s0, k as int, target);
        }
        None
    }

    /// The achievement with the id `id`, if there is one.
    pub fn get(&self, id: &str) -> (r: Option<&Achievement>)
        ensures
            match find_achievement(self.entries(), id@) {
                Some(k) => r is Some && *(r->0) == self.entries()[k],
                None => r is None,
            },
    {
        let key = id.to_owned();
        match self.locate(&key) {
            Some(k) => Some(&self.achievements[k]),
            None => None,
        }
    }

    /// Every achievement.
    pub fn get_all(&self) -> (r: Vec<&Achievement>)
        ensures
            r@.len() == self.entries().len(),
            forall|j: int| 0 <= j < r@.len() ==> *r@[j] == self.entries()[j],
    {
        let mut r: Vec<&Achievement> = Vec::new();
        let mut i: usize = 0;
        while i < self.achievements.len()
            invariant
                0 <= i <= self.achievements@.len(),
                r@.len() == i,
                forall|j: int| 0 <= j < i ==> *r@[j] == self.achievements@[j],
            decreases self.achievements@.len() - i,
        {
            r.push(&self.achievements[i]);
            i = i + 1;
        }
        r
    }

    /// The achievements of one category, in definition order.
    pub fn get_by_category(&self, category: AchievementCategory) -> (r: Vec<&Achievement>)
        ensures
            r@.map_values(|a: &Achievement| *a) == self.entries().filter(|a: Achievement| a.category == category),
    {
        let mut r: Vec<&Achievement> = Vec::new();
        let mut i: usize = 0;
        let ghost pred = |a: Achievement| a.category == category;
        while i < self.achievements.len()
            invariant
                0 <= i <= self.achievements@.len(),
                pred == (|a: Achievement| a.category == category),
                r@.map_values(|a: &Achievement| *a) == self.achievements@.take(i as int).filter(pred),
            decreases self.achievements@.len() - i,
        {
            reveal_with_fuel(Seq::filter, 1);
            assert(self.achievements@.take(i as int + 1).drop_last() =~= self.achievements@.take(i as int));
            if self.achievements[i].category == category {
                r.push(&self.achievements[i]);
            }
            assert(r@.map_values(|a: &Achievement| *a) =~= self.achievements@.take(i as int + 1).filter(pred));
            i = i + 1;
        }
        assert(self.achievements@.take(i as int) =~= self.achievements@);
        r
    }

    /// The unlocked achievements, in definition order.
    pub fn get_unlocked(&self) -> (r: Vec<&Achievement>)
        ensures
            r@.map_values(|a: &Achievement| *a) == self.entries().filter(|a: Achievement| a.unlocked),
    {
        let mut r: Vec<&Achievement> = Vec::new();
        let mut i: usize = 0;
        let ghost pred = |a: Achievement| a.unlocked;
        while i < self.achievements.len()
            invariant
                0 <= i <= self.achievements@.len(),
                pred == (|a: Achievement| a.unlocked),
                r@.map_values(|a: &Achievement| *a) == self.achievements@.take(i as int).filter(pred),
            decreases self.achievements@.len() - i,
        {
            reveal_with_fuel(Seq::filter, 1);
            assert(self.achievements@.take(i as int + 1).drop_last() =~= self.achievements@.take(i as int));
            if self.achievements[i].unlocked {
                r.push(&self.achievements[i]);
            }
            assert(r@.map_values(|a: &Achievement| *a) =~= self.achievements@.take(i as int + 1).filter(pred));
            i = i + 1;
        }
        assert(self.achievements@.take(i as int) =~= self.achievements@);
        r
    }

    /// How many achievements are unlocked; the completion percentage is
    /// this count over `total_count`, times 100.
    pub fn unlocked_count(&self) -> (n: u32)
        ensures
            n == self.unlocked_total(),
    {
        self.unlocked_count
    }

    /// How many achievements there are.
    pub fn total_count(&self) -> (n: u32)
        ensures
            n == self.total(),
    {
        self.total_count
    }
}

/// Once an achievement has paid out its reward, reporting more progress for
/// it never pays again: of two successive reports, at most one returns a
/// reward.
pub proof fn law_reward_paid_once(m0: AchievementManager, m1: AchievementManager, m2: AchievementManager,
    id: Seq<char>, p1: u32, t1: u64, r1: Option<AchievementReward>, p2: u32, t2: u64, r2: Option<AchievementReward>)
    requires
        AchievementManager::progress_reported(&m0, &m1, id, p1, t1, r1),
        AchievementManager::progress_reported(&m1, &m2, id, p2, t2, r2),
    ensures
        !(r1 is Some && r2 is Some),
{
    if let Some(k) = find_achievement(m0.entries(), id) {
        lemma_find_found(m0.entries(), id, 0);
        let a = m0.entries()[k];
        if !a.unlocked {
            lemma_find_update(m0.entries(), id, k, progressed(a, p1, t1), 0);
        }
    }
}

/// Progress reports never lower an achievement's progress, and never lock an
/// unlocked achievement again.
pub proof fn law_progress_monotone(m0: AchievementManager, m1: AchievementManager, id: Seq<char>,
    p: u32, t: u64, r: Option<AchievementReward>, k: int)
    requires
        AchievementManager::progress_reported(&m0, &m1, id, p, t, r),
        0 <= k < m0.entries().len(),
    ensures
        m1.entries().len() == m0.entries().len(),
        m1.entries()[k].progress >= m0.entries()[k].progress,
        m0.entries()[k].unlocked ==> m1.entries()[k].unlocked,
{
    if let Some(k0) = find_achievement(m0.entries(), id) {
        lemma_find_found(m0.entries(), id, 0);
    }
}

fn achievement(id: &str, name: &str, description: &str, category: AchievementCategory,
    difficulty: AchievementDifficulty, requirement: AchievementRequirement, reward: AchievementReward,
    max_progress: u32, hidden: bool) -> (a: Achievement)
    ensures
        a.id@ == id@,
        a.name@ == name@,
        a.description@ == description@,
        a.requirement == requirement,
        a.category == category,
        a.difficulty == difficulty,
        a.reward == reward,
        a.max_progress == max_progress,
        a.hidden == hidden,
        a.progress == 0,
        !a.unlocked,
        a.unlock_timestamp is None,
{
    Achievement {
        id: String::from_str(id),
        name: String::from_str(name),
        description: String::from_str(description),
        category,
        difficulty,
        requirement,
        reward,
        progress: 0,
        max_progress,
        unlocked: false,
        unlock_timestamp: None,
        hidden,
    }
}

/// Achievements nobody has made progress on.
pub open spec fn all_fresh(s: Seq<Achievement>) -> bool {
    forall|j: int| #![trigger s[j]] 0 <= j < s.len() ==> !s[j].unlocked && s[j].progress == 0
        && s[j].unlock_timestamp is None
}

proof fn lemma_fresh_count(s: Seq<Achievement>)
    requires
        all_fresh(s),
    ensures
        count_unlocked(s) == 0,
    decreases s.len(),
{
    if s.len() > 0 {
        assert(s.last() == s[s.len() - 1]);
        lemma_fresh_count(s.drop_last());
    }
}

/// Updating an achievement with one of the same id keeps the ids distinct.
proof fn lemma_ids_kept(s: Seq<Achievement>, k: int, a: Achievement)
    requires
        ids_distinct(s),
        0 <= k < s.len(),
        a.id == s[k].id,
    ensures
        ids_distinct(s.update(k, a)),
{
    assert forall|i: int, j: int| 0 <= i < j < s.update(k, a).len()
        implies #[trigger] s.update(k, a)[i].id@ != #[trigger] s.update(k, a)[j].id@ by {
        assert(s[i].id@ != s[j].id@);
    }
}

/// No two entries of the achievement list share an id.
proof fn lemma_entry_ids_distinct()
    ensures
        forall|i: int, j: int| 0 <= i < j < achievement_count() ==> achievement_entry(i).0 != achievement_entry(j).0,
{
    reveal_strlit("first_blood");
    assert("first_blood"@.len() == 11);
    assert("first_blood"@[0] == 'f');
    assert("first_blood"@[1] == 'i');
    assert("first_blood"@[2] == 'r');
    assert("first_blood"@[3] == 's');
    assert("first_blood"@[4] == 't');
    assert("first_blood"@[5] == '_');
    assert("first_blood"@[6] == 'b');
    assert("first_blood"@[7] == 'l');
    assert("first_blood"@[8] == 'o');
    assert("first_blood"@[9] == 'o');
    assert("first_blood"@[10] == 'd');
    reveal_strlit("killing_spree");
    assert("killing_spree"@.len() == 13);
    assert("killing_spree"@[0] == 'k');
    assert("killing_spree"@[1] == 'i');
    assert("killing_spree"@[2] == 'l');
    assert("killing_spree"@[3] == 'l');
    assert("killing_spree"@[4] == 'i');
    assert("killing_spree"@[5] == 'n');
    assert("killing_spree"@[6] == 'g');
    assert("killing_spree"@[7] == '_');
    assert("killing_spree"@[8] == 's');
    assert("killing_spree"@[9] == 'p');
    assert("killing_spree"@[10] == 'r');
    assert("killing_spree"@[11] == 'e');
    assert("killing_spree"@[12] == 'e');
    reveal_strlit("executioner");
    assert("executioner"@.len() == 11);
    assert("executioner"@[0] == 'e');
    assert("executioner"@[1] == 'x');
    assert("executioner"@[2] == 'e');
    assert("executioner"@[3] == 'c');
    assert("executioner"@[4] == 'u');
    assert("executioner"@[5] == 't');
    assert("executioner"@[6] == 'i');
    assert("executioner"@[7] == 'o');
    assert("executioner"@[8] == 'n');
    assert("executioner"@[9] == 'e');
    assert("executioner"@[10] == 'r');
    reveal_strlit("genocide");
    assert("genocide"@.len() == 8);
    assert("genocide"@[0] == 'g');
    assert("genocide"@[1] == 'e');
    assert("genocide"@[2] == 'n');
    assert("genocide"@[3] == 'o');
    assert("genocide"@[4] == 'c');
    assert("genocide"@[5] == 'i');
    assert("genocide"@[6] == 'd');
    assert("genocide"@[7] == 'e');
    reveal_strlit("combo_novice");
    assert("combo_novice"@.len() == 12);
    assert("combo_novice"@[0] == 'c');
    assert("combo_novice"@[1] == 'o');
    assert("combo_novice"@[2] == 'm');
    assert("combo_novice"@[3] == 'b');
    assert("combo_novice"@[4] == 'o');
    assert("combo_novice"@[5] == '_');
    assert("combo_novice"@[6] == 'n');
    assert("combo_novice"@[7] == 'o');
    assert("combo_novice"@[8] == 'v');
    assert("combo_novice"@[9] == 'i');
    assert("combo_novice"@[10] == 'c');
    assert("combo_novice"@[11] == 'e');
    reveal_strlit("combo_expert");
    assert("combo_expert"@.len() == 12);
    assert("combo_expert"@[0] == 'c');
    assert("combo_expert"@[1] == 'o');
    assert("combo_expert"@[2] == 'm');
    assert("combo_expert"@[3] == 'b');
    assert("combo_expert"@[4] == 'o');
    assert("combo_expert"@[5] == '_');
    assert("combo_expert"@[6] == 'e');
    assert("combo_expert"@[7] == 'x');
    assert("combo_expert"@[8] == 'p');
    assert("combo_expert"@[9] == 'e');
    assert("combo_expert"@[10] == 'r');
    assert("combo_expert"@[11] == 't');
    reveal_strlit("combo_master");
    assert("combo_master"@.len() == 12);
    assert("combo_master"@[0] == 'c');
    assert("combo_master"@[1] == 'o');
    assert("combo_master"@[2] == 'm');
    assert("combo_master"@[3] == 'b');
    assert("combo_master"@[4] == 'o');
    assert("combo_master"@[5] == '_');
    assert("combo_master"@[6] == 'm');
    assert("combo_master"@[7] == 'a');
    assert("combo_master"@[8] == 's');
    assert("combo_master"@[9] == 't');
    assert("combo_master"@[10] == 'e');
    assert("combo_master"@[11] == 'r');
    reveal_strlit("combo_god");
    assert("combo_god"@.len() == 9);
    assert("combo_god"@[0] == 'c');
    assert("combo_god"@[1] == 'o');
    assert("combo_god"@[2] == 'm');
    assert("combo_god"@[3] == 'b');
    assert("combo_god"@[4] == 'o');
    assert("combo_god"@[5] == '_');
    assert("combo_god"@[6] == 'g');
    assert("combo_god"@[7] == 'o');
    assert("combo_god"@[8] == 'd');
    reveal_strlit("boss_killer");
    assert("boss_killer"@.len() == 11);
    assert("boss_killer"@[0] == 'b');
    assert("boss_killer"@[1] == 'o');
    assert("boss_killer"@[2] == 's');
    assert("boss_killer"@[3] == 's');
    assert("boss_killer"@[4] == '_');
    assert("boss_killer"@[5] == 'k');
    assert("boss_killer"@[6] == 'i');
    assert("boss_killer"@[7] == 'l');
    assert("boss_killer"@[8] == 'l');
    assert("boss_killer"@[9] == 'e');
    assert("boss_killer"@[10] == 'r');
    reveal_strlit("boss_slayer");
    assert("boss_slayer"@.len() == 11);
    assert("boss_slayer"@[0] == 'b');
    assert("boss_slayer"@[1] == 'o');
    assert("boss_slayer"@[2] == 's');
    assert("boss_slayer"@[3] == 's');
    assert("boss_slayer"@[4] == '_');
    assert("boss_slayer"@[5] == 's');
    assert("boss_slayer"@[6] == 'l');
    assert("boss_slayer"@[7] == 'a');
    assert("boss_slayer"@[8] == 'y');
    assert("boss_slayer"@[9] == 'e');
    assert("boss_slayer"@[10] == 'r');
    reveal_strlit("million_damage");
    assert("million_damage"@.len() == 14);
    assert("million_damage"@[0] == 'm');
    assert("million_damage"@[1] == 'i');
    assert("million_damage"@[2] == 'l');
    assert("million_damage"@[3] == 'l');
    assert("million_damage"@[4] == 'i');
    assert("million_damage"@[5] == 'o');
    assert("million_damage"@[6] == 'n');
    assert("million_damage"@[7] == '_');
    assert("million_damage"@[8] == 'd');
    assert("million_damage"@[9] == 'a');
    assert("million_damage"@[10] == 'm');
    assert("million_damage"@[11] == 'a');
    assert("million_damage"@[12] == 'g');
    assert("million_damage"@[13] == 'e');
    reveal_strlit("getting_started");
    assert("getting_started"@.len() == 15);
    assert("getting_started"@[0] == 'g');
    assert("getting_started"@[1] == 'e');
    assert("getting_started"@[2] == 't');
    assert("getting_started"@[3] == 't');
    assert("getting_started"@[4] == 'i');
    assert("getting_started"@[5] == 'n');
    assert("getting_started"@[6] == 'g');
    assert("getting_started"@[7] == '_');
    assert("getting_started"@[8] == 's');
    assert("getting_started"@[9] == 't');
    assert("getting_started"@[10] == 'a');
    assert("getting_started"@[11] == 'r');
    assert("getting_started"@[12] == 't');
    assert("getting_started"@[13] == 'e');
    assert("getting_started"@[14] == 'd');
    reveal_strlit("wave_warrior");
    assert("wave_warrior"@.len() == 12);
    assert("wave_warrior"@[0] == 'w');
    assert("wave_warrior"@[1] == 'a');
    assert("wave_warrior"@[2] == 'v');
    assert("wave_warrior"@[3] == 'e');
    assert("wave_warrior"@[4] == '_');
    assert("wave_warrior"@[5] == 'w');
    assert("wave_warrior"@[6] == 'a');
    assert("wave_warrior"@[7] == 'r');
    assert("wave_warrior"@[8] == 'r');
    assert("wave_warrior"@[9] == 'i');
    assert("wave_warrior"@[10] == 'o');
    assert("wave_warrior"@[11] == 'r');
    reveal_strlit("survivor");
    assert("survivor"@.len() == 8);
    assert("survivor"@[0] == 's');
    assert("survivor"@[1] == 'u');
    assert("survivor"@[2] == 'r');
    assert("survivor"@[3] == 'v');
    assert("survivor"@[4] == 'i');
    assert("survivor"@[5] == 'v');
    assert("survivor"@[6] == 'o');
    assert("survivor"@[7] == 'r');
    reveal_strlit("perfect_run");
    assert("perfect_run"@.len() == 11);
    assert("perfect_run"@[0] == 'p');
    assert("perfect_run"@[1] == 'e');
    assert("perfect_run"@[2] == 'r');
    assert("perfect_run"@[3] == 'f');
    assert("perfect_run"@[4] == 'e');
    assert("perfect_run"@[5] == 'c');
    assert("perfect_run"@[6] == 't');
    assert("perfect_run"@[7] == '_');
    assert("perfect_run"@[8] == 'r');
    assert("perfect_run"@[9] == 'u');
    assert("perfect_run"@[10] == 'n');
    reveal_strlit("unlock_all_chars");
    assert("unlock_all_chars"@.len() == 16);
    assert("unlock_all_chars"@[0] == 'u');
    assert("unlock_all_chars"@[1] == 'n');
    assert("unlock_all_chars"@[2] == 'l');
    assert("unlock_all_chars"@[3] == 'o');
    assert("unlock_all_chars"@[4] == 'c');
    assert("unlock_all_chars"@[5] == 'k');
    assert("unlock_all_chars"@[6] == '_');
    assert("unlock_all_chars"@[7] == 'a');
    assert("unlock_all_chars"@[8] == 'l');
    assert("unlock_all_chars"@[9] == 'l');
    assert("unlock_all_chars"@[10] == '_');
    assert("unlock_all_chars"@[11] == 'c');
    assert("unlock_all_chars"@[12] == 'h');
    assert("unlock_all_chars"@[13] == 'a');
    assert("unlock_all_chars"@[14] == 'r');
    assert("unlock_all_chars"@[15] == 's');
    reveal_strlit("bas_master");
    assert("bas_master"@.len() == 10);
    assert("bas_master"@[0] == 'b');
    assert("bas_master"@[1] == 'a');
    assert("bas_master"@[2] == 's');
    assert("bas_master"@[3] == '_');
    assert("bas_master"@[4] == 'm');
    assert("bas_master"@[5] == 'a');
    assert("bas_master"@[6] == 's');
    assert("bas_master"@[7] == 't');
    assert("bas_master"@[8] == 'e');
    assert("bas_master"@[9] == 'r');
    reveal_strlit("berkay_master");
    assert("berkay_master"@.len() == 13);
    assert("berkay_master"@[0] == 'b');
    assert("berkay_master"@[1] == 'e');
    assert("berkay_master"@[2] == 'r');
    assert("berkay_master"@[3] == 'k');
    assert("berkay_master"@[4] == 'a');
    assert("berkay_master"@[5] == 'y');
    assert("berkay_master"@[6] == '_');
    assert("berkay_master"@[7] == 'm');
    assert("berkay_master"@[8] == 'a');
    assert("berkay_master"@[9] == 's');
    assert("berkay_master"@[10] == 't');
    assert("berkay_master"@[11] == 'e');
    assert("berkay_master"@[12] == 'r');
    reveal_strlit("speed_runner");
    assert("speed_runner"@.len() == 12);
    assert("speed_runner"@[0] == 's');
    assert("speed_runner"@[1] == 'p');
    assert("speed_runner"@[2] == 'e');
    assert("speed_runner"@[3] == 'e');
    assert("speed_runner"@[4] == 'd');
    assert("speed_runner"@[5] == '_');
    assert("speed_runner"@[6] == 'r');
    assert("speed_runner"@[7] == 'u');
    assert("speed_runner"@[8] == 'n');
    assert("speed_runner"@[9] == 'n');
    assert("speed_runner"@[10] == 'e');
    assert("speed_runner"@[11] == 'r');
    reveal_strlit("untouchable");
    assert("untouchable"@.len() == 11);
    assert("untouchable"@[0] == 'u');
    assert("untouchable"@[1] == 'n');
    assert("untouchable"@[2] == 't');
    assert("untouchable"@[3] == 'o');
    assert("untouchable"@[4] == 'u');
    assert("untouchable"@[5] == 'c');
    assert("untouchable"@[6] == 'h');
    assert("untouchable"@[7] == 'a');
    assert("untouchable"@[8] == 'b');
    assert("untouchable"@[9] == 'l');
    assert("untouchable"@[10] == 'e');
    reveal_strlit("solo_artist");
    assert("solo_artist"@.len() == 11);
    assert("solo_artist"@[0] == 's');
    assert("solo_artist"@[1] == 'o');
    assert("solo_artist"@[2] == 'l');
    assert("solo_artist"@[3] == 'o');
    assert("solo_artist"@[4] == '_');
    assert("solo_artist"@[5] == 'a');
    assert("solo_artist"@[6] == 'r');
    assert("solo_artist"@[7] == 't');
    assert("solo_artist"@[8] == 'i');
    assert("solo_artist"@[9] == 's');
    assert("solo_artist"@[10] == 't');
    reveal_strlit("endless_warrior");
    assert("endless_warrior"@.len() == 15);
    assert("endless_warrior"@[0] == 'e');
    assert("endless_warrior"@[1] == 'n');
    assert("endless_warrior"@[2] == 'd');
    assert("endless_warrior"@[3] == 'l');
    assert("endless_warrior"@[4] == 'e');
    assert("endless_warrior"@[5] == 's');
    assert("endless_warrior"@[6] == 's');
    assert("endless_warrior"@[7] == '_');
    assert("endless_warrior"@[8] == 'w');
    assert("endless_warrior"@[9] == 'a');
    assert("endless_warrior"@[10] == 'r');
    assert("endless_warrior"@[11] == 'r');
    assert("endless_warrior"@[12] == 'i');
    assert("endless_warrior"@[13] == 'o');
    assert("endless_warrior"@[14] == 'r');
    reveal_strlit("endless_legend");
    assert("endless_legend"@.len() == 14);
    assert("endless_legend"@[0] == 'e');
    assert("endless_legend"@[1] == 'n');
    assert("endless_legend"@[2] == 'd');
    assert("endless_legend"@[3] == 'l');
    assert("endless_legend"@[4] == 'e');
    assert("endless_legend"@[5] == 's');
    assert("endless_legend"@[6] == 's');
    assert("endless_legend"@[7] == '_');
    assert("endless_legend"@[8] == 'l');
    assert("endless_legend"@[9] == 'e');
    assert("endless_legend"@[10] == 'g');
    assert("endless_legend"@[11] == 'e');
    assert("endless_legend"@[12] == 'n');
    assert("endless_legend"@[13] == 'd');
    reveal_strlit("team_player");
    assert("team_player"@.len() == 11);
    assert("team_player"@[0] == 't');
    assert("team_player"@[1] == 'e');
    assert("team_player"@[2] == 'a');
    assert("team_player"@[3] == 'm');
    assert("team_player"@[4] == '_');
    assert("team_player"@[5] == 'p');
    assert("team_player"@[6] == 'l');
    assert("team_player"@[7] == 'a');
    assert("team_player"@[8] == 'y');
    assert("team_player"@[9] == 'e');
    assert("team_player"@[10] == 'r');
    reveal_strlit("coop_veteran");
    assert("coop_veteran"@.len() == 12);
    assert("coop_veteran"@[0] == 'c');
    assert("coop_veteran"@[1] == 'o');
    assert("coop_veteran"@[2] == 'o');
    assert("coop_veteran"@[3] == 'p');
    assert("coop_veteran"@[4] == '_');
    assert("coop_veteran"@[5] == 'v');
    assert("coop_veteran"@[6] == 'e');
    assert("coop_veteran"@[7] == 't');
    assert("coop_veteran"@[8] == 'e');
    assert("coop_veteran"@[9] == 'r');
    assert("coop_veteran"@[10] == 'a');
    assert("coop_veteran"@[11] == 'n');
    reveal_strlit("medic");
    assert("medic"@.len() == 5);
    assert("medic"@[0] == 'm');
    assert("medic"@[1] == 'e');
    assert("medic"@[2] == 'd');
    assert("medic"@[3] == 'i');
    assert("medic"@[4] == 'c');
    reveal_strlit("fashionista");
    assert("fashionista"@.len() == 11);
    assert("fashionista"@[0] == 'f');
    assert("fashionista"@[1] == 'a');
    assert("fashionista"@[2] == 's');
    assert("fashionista"@[3] == 'h');
    assert("fashionista"@[4] == 'i');
    assert("fashionista"@[5] == 'o');
    assert("fashionista"@[6] == 'n');
    assert("fashionista"@[7] == 'i');
    assert("fashionista"@[8] == 's');
    assert("fashionista"@[9] == 't');
    assert("fashionista"@[10] == 'a');
    reveal_strlit("title_collector");
    assert("title_collector"@.len() == 15);
    assert("title_collector"@[0] == 't');
    assert("title_collector"@[1] == 'i');
    assert("title_collector"@[2] == 't');
    assert("title_collector"@[3] == 'l');
    assert("title_collector"@[4] == 'e');
    assert("title_collector"@[5] == '_');
    assert("title_collector"@[6] == 'c');
    assert("title_collector"@[7] == 'o');
    assert("title_collector"@[8] == 'l');
    assert("title_collector"@[9] == 'l');
    assert("title_collector"@[10] == 'e');
    assert("title_collector"@[11] == 'c');
    assert("title_collector"@[12] == 't');
    assert("title_collector"@[13] == 'o');
    assert("title_collector"@[14] == 'r');
    reveal_strlit("fully_upgraded");
    assert("fully_upgraded"@.len() == 14);
    assert("fully_upgraded"@[0] == 'f');
    assert("fully_upgraded"@[1] == 'u');
    assert("fully_upgraded"@[2] == 'l');
    assert("fully_upgraded"@[3] == 'l');
    assert("fully_upgraded"@[4] == 'y');
    assert("fully_upgraded"@[5] == '_');
    assert("fully_upgraded"@[6] == 'u');
    assert("fully_upgraded"@[7] == 'p');
    assert("fully_upgraded"@[8] == 'g');
    assert("fully_upgraded"@[9] == 'r');
    assert("fully_upgraded"@[10] == 'a');
    assert("fully_upgraded"@[11] == 'd');
    assert("fully_upgraded"@[12] == 'e');
    assert("fully_upgraded"@[13] == 'd');
    reveal_strlit("rich");
    assert("rich"@.len() == 4);
    assert("rich"@[0] == 'r');
    assert("rich"@[1] == 'i');
    assert("rich"@[2] == 'c');
    assert("rich"@[3] == 'h');
    reveal_strlit("millionaire");
    assert("millionaire"@.len() == 11);
    assert("millionaire"@[0] == 'm');
    assert("millionaire"@[1] == 'i');
    assert("millionaire"@[2] == 'l');
    assert("millionaire"@[3] == 'l');
    assert("millionaire"@[4] == 'i');
    assert("millionaire"@[5] == 'o');
    assert("millionaire"@[6] == 'n');
    assert("millionaire"@[7] == 'a');
    assert("millionaire"@[8] == 'i');
    assert("millionaire"@[9] == 'r');
    assert("millionaire"@[10] == 'e');
    reveal_strlit("first_game");
    assert("first_game"@.len() == 10);
    assert("first_game"@[0] == 'f');
    assert("first_game"@[1] == 'i');
    assert("first_game"@[2] == 'r');
    assert("first_game"@[3] == 's');
    assert("first_game"@[4] == 't');
    assert("first_game"@[5] == '_');
    assert("first_game"@[6] == 'g');
    assert("first_game"@[7] == 'a');
    assert("first_game"@[8] == 'm');
    assert("first_game"@[9] == 'e');
    reveal_strlit("hundred_games");
    assert("hundred_games"@.len() == 13);
    assert("hundred_games"@[0] == 'h');
    assert("hundred_games"@[1] == 'u');
    assert("hundred_games"@[2] == 'n');
    assert("hundred_games"@[3] == 'd');
    assert("hundred_games"@[4] == 'r');
    assert("hundred_games"@[5] == 'e');
    assert("hundred_games"@[6] == 'd');
    assert("hundred_games"@[7] == '_');
    assert("hundred_games"@[8] == 'g');
    assert("hundred_games"@[9] == 'a');
    assert("hundred_games"@[10] == 'm');
    assert("hundred_games"@[11] == 'e');
    assert("hundred_games"@[12] == 's');
    reveal_strlit("thousand_games");
    assert("thousand_games"@.len() == 14);
    assert("thousand_games"@[0] == 't');
    assert("thousand_games"@[1] == 'h');
    assert("thousand_games"@[2] == 'o');
    assert("thousand_games"@[3] == 'u');
    assert("thousand_games"@[4] == 's');
    assert("thousand_games"@[5] == 'a');
    assert("thousand_games"@[6] == 'n');
    assert("thousand_games"@[7] == 'd');
    assert("thousand_games"@[8] == '_');
    assert("thousand_games"@[9] == 'g');
    assert("thousand_games"@[10] == 'a');
    assert("thousand_games"@[11] == 'm');
    assert("thousand_games"@[12] == 'e');
    assert("thousand_games"@[13] == 's');
    reveal_strlit("secret_room");
    assert("secret_room"@.len() == 11);
    assert("secret_room"@[0] == 's');
    assert("secret_room"@[1] == 'e');
    assert("secret_room"@[2] == 'c');
    assert("secret_room"@[3] == 'r');
    assert("secret_room"@[4] == 'e');
    assert("secret_room"@[5] == 't');
    assert("secret_room"@[6] == '_');
    assert("secret_room"@[7] == 'r');
    assert("secret_room"@[8] == 'o');
    assert("secret_room"@[9] == 'o');
    assert("secret_room"@[10] == 'm');
    reveal_strlit("konami_code");
    assert("konami_code"@.len() == 11);
    assert("konami_code"@[0] == 'k');
    assert("konami_code"@[1] == 'o');
    assert("konami_code"@[2] == 'n');
    assert("konami_code"@[3] == 'a');
    assert("konami_code"@[4] == 'm');
    assert("konami_code"@[5] == 'i');
    assert("konami_code"@[6] == '_');
    assert("konami_code"@[7] == 'c');
    assert("konami_code"@[8] == 'o');
    assert("konami_code"@[9] == 'd');
    assert("konami_code"@[10] == 'e');
}

fn push_achievement(list: &mut Vec<Achievement>, a: Achievement)
    requires
        all_fresh(old(list)@),
        !a.unlocked,
        a.progress == 0,
        a.unlock_timestamp is None,
        forall|j: int| 0 <= j < old(list)@.len() ==> #[trigger] is_listed(old(list)@[j], achievement_entry(j)),
        is_listed(a, achievement_entry(old(list)@.len() as int)),
    ensures
        final(list)@ == old(list)@.push(a),
        all_fresh(final(list)@),
        forall|j: int| 0 <= j < final(list)@.len() ==> #[trigger] is_listed(final(list)@[j], achievement_entry(j)),
{
    list.push(a);
}

impl AchievementManager {
    /// The full list of 36 achievements, as `achievement_entry` lists them,
    /// none with any progress.
    pub fn new() -> (m: AchievementManager)
        ensures
            m.wf(),
            m.entries().len() == achievement_count(),
            forall|k: int| 0 <= k < achievement_count() ==> #[trigger] is_listed(m.entries()[k], achievement_entry(k)),
            m.total() == 36,
            m.unlocked_total() == 0,
            all_fresh(m.entries()),
            ids_distinct(m.entries()),
    {
        let mut list: Vec<Achievement> = Vec::new();
        push_achievement(&mut list, achievement("first_blood", "First Blood", "Defeat your first enemy", AchievementCategory::Combat, AchievementDifficulty::Easy,
            AchievementRequirement::DefeatEnemies(1), AchievementReward::Currency(50), 1, false));
        push_achievement(&mut list, achievement("killing_spree", "Killing Spree", "Defeat 100 enemies", AchievementCategory::Combat, AchievementDifficulty::Medium,
            AchievementRequirement::DefeatEnemies(100), AchievementReward::Currency(200), 100, false));
        push_achievement(&mut list, achievement("executioner", "Executioner", "Defeat 500 enemies", AchievementCategory::Combat, AchievementDifficulty::Hard,
            AchievementRequirement::DefeatEnemies(500), AchievementReward::SkillPoints(2), 500, false));
        push_achievement(&mut list, achievement("genocide", "Genocide", "Defeat 2000 enemies", AchievementCategory::Combat, AchievementDifficulty::Expert,
            AchievementRequirement::DefeatEnemies(2000), AchievementReward::Title(String::from_str("The Destroyer")), 2000, false));
        push_achievement(&mut list, achievement("combo_novice", "Combo Novice", "Achieve a 10-hit combo", AchievementCategory::Combat, AchievementDifficulty::Easy,
            AchievementRequirement::ReachCombo(10), AchievementReward::Currency(75), 10, false));
        push_achievement(&mut list, achievement("combo_expert", "Combo Expert", "Achieve a 50-hit combo", AchievementCategory::Combat, AchievementDifficulty::Medium,
            AchievementRequirement::ReachCombo(50), AchievementReward::Currency(150), 50, false));
        push_achievement(&mut list, achievement("combo_master", "Combo Master", "Achieve a 100-hit combo", AchievementCategory::Combat, AchievementDifficulty::Hard,
            AchievementRequirement::ReachCombo(100), AchievementReward::SkillPoints(3), 100, false));
        push_achievement(&mut list, achievement("combo_god", "Combo God", "Achieve a 250-hit combo", AchievementCategory::Combat, AchievementDifficulty::Legendary,
            AchievementRequirement::ReachCombo(250), AchievementReward::Title(String::from_str("Combo God")), 250, true));
        push_achievement(&mut list, achievement("boss_killer", "Boss Killer", "Defeat your first boss", AchievementCategory::Combat, AchievementDifficulty::Easy,
            AchievementRequirement::DefeatBosses(1), AchievementReward::Currency(150), 1, false));
        push_achievement(&mut list, achievement("boss_slayer", "Boss Slayer", "Defeat 10 bosses", AchievementCategory::Combat, AchievementDifficulty::Medium,
            AchievementRequirement::DefeatBosses(10), AchievementReward::SkillPoints(2), 10, false));
        push_achievement(&mut list, achievement("million_damage", "Heavy Hitter", "Deal 1 million total damage", AchievementCategory::Combat, AchievementDifficulty::Hard,
            AchievementRequirement::DealDamage(1000000), AchievementReward::Title(String::from_str("Heavy Hitter")), 1000000, false));
        push_achievement(&mut list, achievement("getting_started", "Getting Started", "Complete wave 1", AchievementCategory::Progression, AchievementDifficulty::Easy,
            AchievementRequirement::CompleteWave(1), AchievementReward::Currency(50), 1, false));
        push_achievement(&mut list, achievement("wave_warrior", "Wave Warrior", "Complete wave 10", AchievementCategory::Progression, AchievementDifficulty::Medium,
            AchievementRequirement::CompleteWave(10), AchievementReward::SkillPoints(1), 10, false));
        push_achievement(&mut list, achievement("survivor", "Survivor", "Complete wave 25", AchievementCategory::Progression, AchievementDifficulty::Hard,
            AchievementRequirement::CompleteWave(25), AchievementReward::Title(String::from_str("Survivor")), 25, false));
        push_achievement(&mut list, achievement("perfect_run", "Perfect Run", "Win a game without dying", AchievementCategory::Challenge, AchievementDifficulty::Hard,
            AchievementRequirement::WinWithoutDying, AchievementReward::SkillPoints(3), 1, false));
        push_achievement(&mut list, achievement("unlock_all_chars", "Gotta Catch 'Em All", "Unlock all playable characters", AchievementCategory::Collection, AchievementDifficulty::Medium,
            AchievementRequirement::UnlockAllCharacters, AchievementReward::Title(String::from_str("Collector")), 1, false));
        push_achievement(&mut list, achievement("bas_master", "Bas Mastery", "Reach mastery level 100 with Bas", AchievementCategory::Mastery, AchievementDifficulty::Expert,
            AchievementRequirement::MasteryLevel(String::from_str("Bas"), 100), AchievementReward::Skin(String::from_str("Bas Master Skin")), 100, false));
        push_achievement(&mut list, achievement("berkay_master", "Berkay Mastery", "Reach mastery level 100 with Berkay", AchievementCategory::Mastery, AchievementDifficulty::Expert,
            AchievementRequirement::MasteryLevel(String::from_str("Berkay"), 100), AchievementReward::Skin(String::from_str("Berkay Master Skin")), 100, false));
        push_achievement(&mut list, achievement("speed_runner", "Speed Runner", "Complete a run in under 10 minutes", AchievementCategory::Challenge, AchievementDifficulty::Hard,
            AchievementRequirement::CompleteTimeAttack(600), AchievementReward::Title(String::from_str("Speed Demon")), 1, false));
        push_achievement(&mut list, achievement("untouchable", "Untouchable", "Complete a run without taking damage", AchievementCategory::Challenge, AchievementDifficulty::Legendary,
            AchievementRequirement::CompleteNoHit, AchievementReward::Title(String::from_str("Untouchable")), 1, true));
        push_achievement(&mut list, achievement("solo_artist", "Solo Artist", "Complete a run solo (no allies)", AchievementCategory::Challenge, AchievementDifficulty::Hard,
            AchievementRequirement::CompleteSoloRun, AchievementReward::SkillPoints(3), 1, false));
        push_achievement(&mut list, achievement("endless_warrior", "Endless Warrior", "Reach wave 50 in Endless mode", AchievementCategory::Challenge, AchievementDifficulty::Expert,
            AchievementRequirement::CompleteEndlessWave(50), AchievementReward::Title(String::from_str("Endless Warrior")), 50, false));
        push_achievement(&mut list, achievement("endless_legend", "Endless Legend", "Reach wave 100 in Endless mode", AchievementCategory::Challenge, AchievementDifficulty::Legendary,
            AchievementRequirement::CompleteEndlessWave(100), AchievementReward::Title(String::from_str("Endless Legend")), 100, true));
        push_achievement(&mut list, achievement("team_player", "Team Player", "Win a co-op game", AchievementCategory::Social, AchievementDifficulty::Easy,
            AchievementRequirement::WinCoopGame, AchievementReward::Currency(100), 1, false));
        push_achievement(&mut list, achievement("coop_veteran", "Co-op Veteran", "Play 50 co-op games", AchievementCategory::Social, AchievementDifficulty::Medium,
            AchievementRequirement::PlayCoopGames(50), AchievementReward::SkillPoints(2), 50, false));
        push_achievement(&mut list, achievement("medic", "Field Medic", "Revive teammates 25 times", AchievementCategory::Social, AchievementDifficulty::Medium,
            AchievementRequirement::RevivePlayers(25), AchievementReward::Title(String::from_str("Medic")), 25, false));
        push_achievement(&mut list, achievement("fashionista", "Fashionista", "Unlock all character skins", AchievementCategory::Collection, AchievementDifficulty::Expert,
            AchievementRequirement::UnlockAllSkins, AchievementReward::Title(String::from_str("Fashionista")), 1, false));
        push_achievement(&mut list, achievement("title_collector", "Title Collector", "Unlock all titles", AchievementCategory::Collection, AchievementDifficulty::Expert,
            AchievementRequirement::UnlockAllTitles, AchievementReward::Title(String::from_str("Completionist")), 1, false));
        push_achievement(&mut list, achievement("fully_upgraded", "Fully Upgraded", "Purchase all shop upgrades", AchievementCategory::Collection, AchievementDifficulty::Hard,
            AchievementRequirement::BuyAllUpgrades, AchievementReward::SkillPoints(5), 1, false));
        push_achievement(&mut list, achievement("rich", "Moneybags", "Collect 10,000 currency", AchievementCategory::Progression, AchievementDifficulty::Medium,
            AchievementRequirement::CollectCurrency(10000), AchievementReward::Currency(500), 10000, false));
        push_achievement(&mut list, achievement("millionaire", "Millionaire", "Collect 100,000 currency", AchievementCategory::Progression, AchievementDifficulty::Expert,
            AchievementRequirement::CollectCurrency(100000), AchievementReward::Title(String::from_str("Millionaire")), 100000, false));
        push_achievement(&mut list, achievement("first_game", "First Steps", "Play your first game", AchievementCategory::Progression, AchievementDifficulty::Easy,
            AchievementRequirement::PlayGames(1), AchievementReward::Currency(25), 1, false));
        push_achievement(&mut list, achievement("hundred_games", "Dedicated Player", "Play 100 games", AchievementCategory::Progression, AchievementDifficulty::Medium,
            AchievementRequirement::PlayGames(100), AchievementReward::SkillPoints(3), 100, false));
        push_achievement(&mut list, achievement("thousand_games", "Addicted", "Play 1000 games", AchievementCategory::Progression, AchievementDifficulty::Expert,
            AchievementRequirement::PlayGames(1000), AchievementReward::Title(String::from_str("Addicted")), 1000, false));
        push_achievement(&mut list, achievement("secret_room", "???", "Find the secret room", AchievementCategory::Secret, AchievementDifficulty::Hard,
            AchievementRequirement::Multiple(Vec::new()), AchievementReward::Title(String::from_str("Explorer")), 1, true));
        push_achievement(&mut list, achievement("konami_code", "???", "Enter the Konami code", AchievementCategory::Secret, AchievementDifficulty::Medium,
            AchievementRequirement::Multiple(Vec::new()), AchievementReward::Skin(String::from_str("Retro Skin")), 1, true));
        proof {
            lemma_fresh_count(list@);
            lemma_entry_ids_distinct();
            assert forall|i: int, j: int| 0 <= i < j < list@.len() implies #[trigger] list@[i].id@ != #[trigger] list@[j].id@ by {
                assert(is_listed(list@[i], achievement_entry(i)));
                assert(is_listed(list@[j], achievement_entry(j)));
            }
        }
        AchievementManager { achievements: list, unlocked_count: 0, total_count: 36 }
    }
}

impl AchievementCategory {
    /// The category's display name.
    pub fn to_string(&self) -> (s: &'static str)
        ensures
            s@ == match *self {
                AchievementCategory::Combat => "Combat"@,
                AchievementCategory::Progression => "Progression"@,
                AchievementCategory::Exploration => "Exploration"@,
                AchievementCategory::Mastery => "Mastery"@,
                AchievementCategory::Social => "Social"@,
                AchievementCategory::Challenge => "Challenge"@,
                AchievementCategory::Collection => "Collection"@,
                AchievementCategory::Secret => "Secret"@,
            },
    {
        match self {
            AchievementCategory::Combat => "Combat",
            AchievementCategory::Progression => "Progression",
            AchievementCategory::Exploration => "Exploration",
            AchievementCategory::Mastery => "Mastery",
            AchievementCategory::Social => "Social",
            AchievementCategory::Challenge => "Challenge",
            AchievementCategory::Collection => "Collection",
            AchievementCategory::Secret => "Secret",
        }
    }
}

} // verus!

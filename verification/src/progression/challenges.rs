use vstd::prelude::*;
use vstd::string::StringExecFns;
use crate::data::characters::CharacterId;
use crate::rng::random_index;

verus! {

/// Daily and weekly challenges. Times are seconds since the Unix epoch.
pub struct ChallengeManager {
    pub daily_challenges: Vec<Challenge>,
    pub weekly_challenges: Vec<Challenge>,
    pub completed_daily: Vec<String>,
    pub completed_weekly: Vec<String>,
    pub last_daily_reset: u64,
    pub last_weekly_reset: u64,
    pub streak_days: u32,
    pub total_challenges_completed: u32,
}

/// One challenge. Progress and its target are whole counts of the unit its
/// type names (enemies, hits, damage points, seconds, ...).
pub struct Challenge {
    pub id: String,
    pub name: String,
    pub description: String,
    pub challenge_type: ChallengeType,
    pub difficulty: ChallengeDifficulty,
    pub progress: u32,
    pub max_progress: u32,
    pub reward: ChallengeReward,
    pub is_daily: bool,
    pub expires_at: u64,
}

/// What a challenge asks for. Amounts and time limits (seconds) are whole
/// numbers.
#[allow(inconsistent_fields)]
pub enum ChallengeType {
    DefeatEnemies { count: u32, enemy_type: Option<String> },
    DealDamage { amount: u32 },
    ReachCombo { combo: u32 },
    DefeatBoss { boss: CharacterId, time_limit: Option<u32> },
    WinWithoutDying,
    PerfectParries { count: u32 },
    CriticalHits { count: u32 },
    WinWithCharacter { character: CharacterId },
    UseAbility { character: CharacterId, times: u32 },
    CompleteWave { wave: u32, mode: String },
    SurviveMinutes { minutes: u32, mode: String },
    CompleteMode { mode: String },
    WinCoopGame,
    RevivePlayers { count: u32 },
    TeamCombo { combo: u32 },
    NoUpgrades,
    OnlyMeleeAttacks,
    SpeedRun { time_limit: u32 },
    FlawlessVictory,
}

#[derive(Clone, Copy, Debug, PartialEq, Eq, Structural)]
pub enum ChallengeDifficulty {
    Easy,
    Medium,
    Hard,
    Expert,
}

/// What completing a challenge grants.
pub enum ChallengeReward {
    Currency(u32),
    XP(u32),
    SkillPoints(u32),
    Cosmetic(String),
    Multiple(Vec<ChallengeReward>),
}

/// Two rewards grant the same: equal, or both bundles of pairwise
/// equivalent rewards.
pub open spec fn reward_eq(a: ChallengeReward, b: ChallengeReward) -> bool
    decreases a, 1int,
{
    match a {
        ChallengeReward::Multiple(x) => match b {
            ChallengeReward::Multiple(y) => x@.len() == y@.len() && rewards_eq(x@, y@, x@.len() as int),
            _ => false,
        },
        _ => a == b,
    }
}

/// The first `n` rewards of two lists grant the same, pairwise.
pub open spec fn rewards_eq(x: Seq<ChallengeReward>, y: Seq<ChallengeReward>, n: int) -> bool
    decreases x, n,
{
    if n <= 0 || n > x.len() {
        n <= 0
    } else {
        rewards_eq(x, y, n - 1) && reward_eq(x[n - 1], y[n - 1])
    }
}

proof fn lemma_rewards_eq(x: Seq<ChallengeReward>, y: Seq<ChallengeReward>, n: int)
    requires
        0 <= n <= x.len(),
        forall|j: int| 0 <= j < n ==> #[trigger] reward_eq(x[j], y[j]),
    ensures
        rewards_eq(x, y, n),
    decreases n,
{
    if n > 0 {
        lemma_rewards_eq(x, y, n - 1);
        assert(reward_eq(x[n - 1], y[n - 1]));
    }
}

proof fn lemma_reward_eq_bundle(x: Vec<ChallengeReward>, y: Vec<ChallengeReward>)
    requires
        x@.len() == y@.len(),
        forall|j: int| 0 <= j < x@.len() ==> #[trigger] reward_eq(x@[j], y@[j]),
    ensures
        reward_eq(ChallengeReward::Multiple(x), ChallengeReward::Multiple(y)),
{
    lemma_rewards_eq(x@, y@, x@.len() as int);
}

impl ChallengeReward {
    /// A copy of this reward.
    pub fn duplicate(&self) -> (r: ChallengeReward)
        ensures
            reward_eq(r, *self),
        decreases self,
    {
        match self {
            ChallengeReward::Currency(c) => {
                let r = ChallengeReward::Currency(*c);
                assert(r == *self);
                r
            },
            ChallengeReward::XP(x) => ChallengeReward::XP(*x),
            ChallengeReward::SkillPoints(p) => ChallengeReward::SkillPoints(*p),
            ChallengeReward::Cosmetic(s) => {
                let r = ChallengeReward::Cosmetic(s.clone());
                assert(r == *self);
                r
            },
            ChallengeReward::Multiple(items) => {
                let mut copy: Vec<ChallengeReward> = Vec::new();
                let mut i: usize = 0;
                while i < items.len()
                    invariant
                        0 <= i <= items@.len(),
                        copy@.len() == i,
                        forall|j: int| 0 <= j < i ==> #[trigger] reward_eq(copy@[j], items@[j]),
                        *self == ChallengeReward::Multiple(*items),
                    decreases items@.len() - i,
                {
                    assert(decreases_to!(*self => self->Multiple_0));
                    assert(decreases_to!(*items => items@));
                    assert(decreases_to!(items@ => items@[i as int]));
                    let item = items[i].duplicate();
                    copy.push(item);
                    i = i + 1;
                }
                assert(copy@.len() == items@.len());
                assert(forall|j: int| 0 <= j < copy@.len() ==> #[trigger] reward_eq(copy@[j], items@[j]));
                proof {
                    lemma_reward_eq_bundle(copy, *items);
                }
                let r = ChallengeReward::Multiple(copy);
                r
            },
        }
    }
}

// ---------------------------------------------------------------------------
// Model
// ---------------------------------------------------------------------------

/// Progress reported for one type counts for a challenge of another type
/// exactly when both are of the same kind, whatever their parameters. The
/// kinds tied to a character or a mode never match.
pub open spec fn types_match(a: ChallengeType, b: ChallengeType) -> bool {
    ||| (a is DefeatEnemies && b is DefeatEnemies)
    ||| (a is DealDamage && b is DealDamage)
    ||| (a is ReachCombo && b is ReachCombo)
    ||| (a is DefeatBoss && b is DefeatBoss)
    ||| (a is WinWithoutDying && b is WinWithoutDying)
    ||| (a is PerfectParries && b is PerfectParries)
    ||| (a is CriticalHits && b is CriticalHits)
    ||| (a is WinCoopGame && b is WinCoopGame)
    ||| (a is RevivePlayers && b is RevivePlayers)
    ||| (a is FlawlessVictory && b is FlawlessVictory)
}

/// Progress reported with a challenge type counts for every challenge of the
/// same kind that is not yet completed, whatever the amounts the two carry:
/// enemies defeated, damage dealt, combos, bosses, deathless wins, perfect
/// parries, critical hits, co-op wins, revives and flawless victories. It
/// never counts for a completed challenge, nor for the kinds that reported
/// progress does not track.
pub proof fn law_progress_counts_for_its_kind(c: Challenge, done: Seq<Seq<char>>, t: ChallengeType)
    ensures
        c.challenge_type is DefeatEnemies && t is DefeatEnemies && !done.contains(c.id@) ==> applies(c, done, t),
        c.challenge_type is DealDamage && t is DealDamage && !done.contains(c.id@) ==> applies(c, done, t),
        c.challenge_type is ReachCombo && t is ReachCombo && !done.contains(c.id@) ==> applies(c, done, t),
        c.challenge_type is DefeatBoss && t is DefeatBoss && !done.contains(c.id@) ==> applies(c, done, t),
        c.challenge_type is WinWithoutDying && t is WinWithoutDying && !done.contains(c.id@) ==> applies(c, done, t),
        c.challenge_type is PerfectParries && t is PerfectParries && !done.contains(c.id@) ==> applies(c, done, t),
        c.challenge_type is CriticalHits && t is CriticalHits && !done.contains(c.id@) ==> applies(c, done, t),
        c.challenge_type is WinCoopGame && t is WinCoopGame && !done.contains(c.id@) ==> applies(c, done, t),
        c.challenge_type is RevivePlayers && t is RevivePlayers && !done.contains(c.id@) ==> applies(c, done, t),
        c.challenge_type is FlawlessVictory && t is FlawlessVictory && !done.contains(c.id@) ==> applies(c, done, t),
        done.contains(c.id@) ==> !applies(c, done, t),
        c.challenge_type is WinWithCharacter ==> !applies(c, done, t),
        c.challenge_type is UseAbility ==> !applies(c, done, t),
        c.challenge_type is CompleteWave ==> !applies(c, done, t),
        c.challenge_type is SurviveMinutes ==> !applies(c, done, t),
        c.challenge_type is CompleteMode ==> !applies(c, done, t),
        c.challenge_type is TeamCombo ==> !applies(c, done, t),
        c.challenge_type is NoUpgrades ==> !applies(c, done, t),
        c.challenge_type is OnlyMeleeAttacks ==> !applies(c, done, t),
        c.challenge_type is SpeedRun ==> !applies(c, done, t),
{
}

/// Progress of one kind never counts for a challenge of another kind.
pub proof fn law_progress_kinds_apart(c: Challenge, done: Seq<Seq<char>>, t: ChallengeType)
    requires
        applies(c, done, t),
    ensures
        c.challenge_type is DefeatEnemies <==> t is DefeatEnemies,
        c.challenge_type is DealDamage <==> t is DealDamage,
        c.challenge_type is ReachCombo <==> t is ReachCombo,
        c.challenge_type is DefeatBoss <==> t is DefeatBoss,
        c.challenge_type is WinWithoutDying <==> t is WinWithoutDying,
        c.challenge_type is PerfectParries <==> t is PerfectParries,
        c.challenge_type is CriticalHits <==> t is CriticalHits,
        c.challenge_type is WinCoopGame <==> t is WinCoopGame,
        c.challenge_type is RevivePlayers <==> t is RevivePlayers,
        c.challenge_type is FlawlessVictory <==> t is FlawlessVictory,
{
}

/// The ids of a list of strings.
pub open spec fn ids_of(s: Seq<String>) -> Seq<Seq<char>> {
    s.map_values(|x: String| x@)
}

/// A challenge after `p` more progress of a matching type: capped at its target.
pub open spec fn advanced(c: Challenge, p: u32) -> Challenge {
    let sum = c.progress + p;
    Challenge { progress: if sum > c.max_progress { c.max_progress } else { sum as u32 }, ..c }
}

/// Whether progress of type `t` applies to `c`, given the ids already completed.
pub open spec fn applies(c: Challenge, done: Seq<Seq<char>>, t: ChallengeType) -> bool {
    types_match(c.challenge_type, t) && !done.contains(c.id@)
}

/// Progress `p` of type `t` applied in order to a list of challenges, with
/// `done` the ids completed before. Gives the updated challenges, the ids
/// completed afterwards, and the rewards of the challenges completed on the way.
pub open spec fn run_progress(cs: Seq<Challenge>, done: Seq<Seq<char>>, t: ChallengeType, p: u32)
    -> (Seq<Challenge>, Seq<Seq<char>>, Seq<ChallengeReward>)
    decreases cs.len(),
{
    if cs.len() == 0 {
        (Seq::empty(), done, Seq::empty())
    } else {
        let (prev, d, r) = run_progress(cs.drop_last(), done, t, p);
        let c = cs.last();
        if applies(c, d, t) {
            let c2 = advanced(c, p);
            if c2.progress >= c2.max_progress {
                (prev.push(c2), d.push(c.id@), r.push(c.reward))
            } else {
                (prev.push(c2), d, r)
            }
        } else {
            (prev.push(c), d, r)
        }
    }
}

/// The ids of the daily templates.
pub open spec fn daily_template_ids() -> Seq<Seq<char>> {
    seq![
        "daily_defeat_30"@,
        "daily_combo_50"@,
        "daily_wave_10"@,
        "daily_no_damage"@,
        "daily_damage_5k"@,
        "daily_perfect_parries"@,
        "daily_coop"@,
    ]
}

/// The ids of the weekly templates.
pub open spec fn weekly_template_ids() -> Seq<Seq<char>> {
    seq![
        "weekly_defeat_500"@,
        "weekly_boss_rush"@,
        "weekly_wave_25"@,
        "weekly_combo_150"@,
        "weekly_survival_10min"@,
        "weekly_character_mastery"@,
        "weekly_speedrun"@,
        "weekly_coop_revives"@,
    ]
}

/// What a challenge asks, as its variant's position, its amount, its text
/// (a mode or an enemy type), the character it names and its time limit.
pub open spec fn challenge_type_view(t: ChallengeType) -> (int, u32, Option<Seq<char>>, Option<CharacterId>, Option<u32>) {
    match t {
        ChallengeType::DefeatEnemies { count, enemy_type } => (0, count, match enemy_type {
            Some(e) => Some(e@),
            None => None,
        }, None, None),
        ChallengeType::DealDamage { amount } => (1, amount, None, None, None),
        ChallengeType::ReachCombo { combo } => (2, combo, None, None, None),
        ChallengeType::DefeatBoss { boss, time_limit } => (3, 0, None, Some(boss), time_limit),
        ChallengeType::WinWithoutDying => (4, 0, None, None, None),
        ChallengeType::PerfectParries { count } => (5, count, None, None, None),
        ChallengeType::CriticalHits { count } => (6, count, None, None, None),
        ChallengeType::WinWithCharacter { character } => (7, 0, None, Some(character), None),
        ChallengeType::UseAbility { character, times } => (8, times, None, Some(character), None),
        ChallengeType::CompleteWave { wave, mode } => (9, wave, Some(mode@), None, None),
        ChallengeType::SurviveMinutes { minutes, mode } => (10, minutes, Some(mode@), None, None),
        ChallengeType::CompleteMode { mode } => (11, 0, Some(mode@), None, None),
        ChallengeType::WinCoopGame => (12, 0, None, None, None),
        ChallengeType::RevivePlayers { count } => (13, count, None, None, None),
        ChallengeType::TeamCombo { combo } => (14, combo, None, None, None),
        ChallengeType::NoUpgrades => (15, 0, None, None, None),
        ChallengeType::OnlyMeleeAttacks => (16, 0, None, None, None),
        ChallengeType::SpeedRun { time_limit } => (17, time_limit, None, None, None),
        ChallengeType::FlawlessVictory => (18, 0, None, None, None),
    }
}

/// One reward as its variant's position, its amount (the length of a
/// bundle) and its text.
pub open spec fn reward_item_view(r: ChallengeReward) -> (int, u32, Seq<char>) {
    match r {
        ChallengeReward::Currency(n) => (0, n, ""@),
        ChallengeReward::XP(n) => (1, n, ""@),
        ChallengeReward::SkillPoints(n) => (2, n, ""@),
        ChallengeReward::Cosmetic(s) => (3, 0, s@),
        ChallengeReward::Multiple(v) => (4, v@.len() as u32, ""@),
    }
}

/// A reward as whether it is a bundle, and the rewards it is made of.
pub open spec fn challenge_reward_view(r: ChallengeReward) -> (bool, Seq<(int, u32, Seq<char>)>) {
    match r {
        ChallengeReward::Multiple(v) => (true, v@.map_values(|x: ChallengeReward| reward_item_view(x))),
        _ => (false, seq![reward_item_view(r)]),
    }
}

/// Template `k` of the daily (`daily`) or weekly list: id, name, description,
/// what it asks (as `challenge_type_view` gives it), difficulty, target, and
/// reward (as `challenge_reward_view` gives it).
pub open spec fn template_entry(daily: bool, k: int) -> (Seq<char>, Seq<char>, Seq<char>,
    (int, u32, Option<Seq<char>>, Option<CharacterId>, Option<u32>), ChallengeDifficulty, u32,
    (bool, Seq<(int, u32, Seq<char>)>)) {
    if daily && k == 0 {
        ("daily_defeat_30"@, "Slayer"@, "Defeat 30 enemies"@, (0int, 30u32, None, None, None), ChallengeDifficulty::Easy, 30u32, (false, seq![(0int, 150u32, ""@)]))
    } else if daily && k == 1 {
        ("daily_combo_50"@, "Combo Master"@, "Achieve a 50-hit combo"@, (2int, 50u32, None, None, None), ChallengeDifficulty::Medium, 50u32, (false, seq![(0int, 200u32, ""@)]))
    } else if daily && k == 2 {
        ("daily_wave_10"@, "Wave Warrior"@, "Complete wave 10"@, (9int, 10u32, Some("Story"@), None, None), ChallengeDifficulty::Medium, 10u32, (false, seq![(1int, 500u32, ""@)]))
    } else if daily && k == 3 {
        ("daily_no_damage"@, "Flawless"@, "Win a game without taking damage"@, (18int, 0u32, None, None, None), ChallengeDifficulty::Hard, 1u32, (true, seq![(0int, 300u32, ""@), (1int, 750u32, ""@)]))
    } else if daily && k == 4 {
        ("daily_damage_5k"@, "Heavy Hitter"@, "Deal 5000 damage in a single game"@, (1int, 5000u32, None, None, None), ChallengeDifficulty::Medium, 5000u32, (false, seq![(0int, 175u32, ""@)]))
    } else if daily && k == 5 {
        ("daily_perfect_parries"@, "Perfect Defense"@, "Perform 10 perfect parries"@, (5int, 10u32, None, None, None), ChallengeDifficulty::Hard, 10u32, (true, seq![(0int, 250u32, ""@), (2int, 1u32, ""@)]))
    } else if daily && k == 6 {
        ("daily_coop"@, "Team Player"@, "Win a co-op game"@, (12int, 0u32, None, None, None), ChallengeDifficulty::Easy, 1u32, (false, seq![(0int, 200u32, ""@)]))
    } else if !daily && k == 0 {
        ("weekly_defeat_500"@, "Executioner"@, "Defeat 500 enemies this week"@, (0int, 500u32, None, None, None), ChallengeDifficulty::Hard, 500u32, (true, seq![(0int, 1000u32, ""@), (1int, 2000u32, ""@)]))
    } else if !daily && k == 1 {
        ("weekly_boss_rush"@, "Boss Crusher"@, "Complete Boss Rush mode"@, (11int, 0u32, Some("BossRush"@), None, None), ChallengeDifficulty::Expert, 1u32, (true, seq![(0int, 1500u32, ""@), (2int, 3u32, ""@)]))
    } else if !daily && k == 2 {
        ("weekly_wave_25"@, "Endurance"@, "Reach wave 25 in any mode"@, (9int, 25u32, Some("Any"@), None, None), ChallengeDifficulty::Hard, 25u32, (true, seq![(0int, 800u32, ""@), (2int, 2u32, ""@)]))
    } else if !daily && k == 3 {
        ("weekly_combo_150"@, "Combo God"@, "Achieve a 150-hit combo"@, (2int, 150u32, None, None, None), ChallengeDifficulty::Expert, 150u32, (true, seq![(0int, 1200u32, ""@), (3int, 0u32, "Combo Master Title"@)]))
    } else if !daily && k == 4 {
        ("weekly_survival_10min"@, "Survivor"@, "Survive 10 minutes in Survival mode"@, (10int, 10u32, Some("Survival"@), None, None), ChallengeDifficulty::Hard, 600u32, (true, seq![(0int, 900u32, ""@), (1int, 1500u32, ""@)]))
    } else if !daily && k == 5 {
        ("weekly_character_mastery"@, "Character Master"@, "Win 10 games with the same character"@, (7int, 0u32, None, Some(CharacterId::Bas), None), ChallengeDifficulty::Medium, 10u32, (true, seq![(0int, 700u32, ""@), (1int, 1000u32, ""@)]))
    } else if !daily && k == 6 {
        ("weekly_speedrun"@, "Speed Demon"@, "Complete a run in under 15 minutes"@, (17int, 900u32, None, None, None), ChallengeDifficulty::Expert, 1u32, (true, seq![(0int, 1500u32, ""@), (3int, 0u32, "Speed Runner Title"@)]))
    } else if !daily && k == 7 {
        ("weekly_coop_revives"@, "Field Medic"@, "Revive teammates 15 times"@, (13int, 15u32, None, None, None), ChallengeDifficulty::Medium, 15u32, (true, seq![(0int, 600u32, ""@), (3int, 0u32, "Medic Title"@)]))
    } else {
        (""@, ""@, ""@, (0int, 0u32, None, None, None), ChallengeDifficulty::Easy, 0u32, (false, seq![]))
    }
}

/// `c` is the challenge that template entry `e` describes.
pub open spec fn is_template(c: Challenge, e: (Seq<char>, Seq<char>, Seq<char>,
    (int, u32, Option<Seq<char>>, Option<CharacterId>, Option<u32>), ChallengeDifficulty, u32,
    (bool, Seq<(int, u32, Seq<char>)>))) -> bool {
    &&& c.id@ == e.0
    &&& c.name@ == e.1
    &&& c.description@ == e.2
    &&& challenge_type_view(c.challenge_type) == e.3
    &&& c.difficulty == e.4
    &&& c.max_progress == e.5
    &&& challenge_reward_view(c.reward) == e.6
}

/// A challenge as drawn from the templates: no progress, a target, and the
/// given daily flag and expiry.
pub open spec fn fresh_challenge(c: Challenge, daily: bool, expires_at: u64) -> bool {
    &&& c.progress == 0
    &&& c.max_progress > 0
    &&& c.is_daily == daily
    &&& c.expires_at == expires_at
}

/// A fresh draw of `count` challenges out of templates with the ids `ids`:
/// each a fresh template, no template twice.
pub open spec fn fresh_draw(cs: Seq<Challenge>, ids: Seq<Seq<char>>, count: int, daily: bool, expires_at: u64) -> bool {
    &&& cs.len() == count
    &&& forall|k: int| #![trigger cs[k]] 0 <= k < cs.len() ==> fresh_challenge(cs[k], daily, expires_at)
        && ids.contains(cs[k].id@)
        && exists|j: int| 0 <= j < ids.len() && #[trigger] is_template(cs[k], template_entry(daily, j))
    &&& forall|a: int, b: int| 0 <= a < b < cs.len() ==> cs[a].id@ != cs[b].id@
}

/// Index permutation after the first `i` steps of a Fisher-Yates shuffle of
/// `0..n`, where step `k` swaps positions `k` and `draws[k]`.
pub open spec fn shuffled(n: nat, draws: Seq<usize>, i: nat) -> Seq<int>
    decreases i,
{
    if i == 0 {
        Seq::new(n, |k: int| k)
    } else {
        let s = shuffled(n, draws, (i - 1) as nat);
        let a = i - 1;
        let b = draws[a] as int;
        s.update(a, s[b]).update(b, s[a])
    }
}

/// Draws that can drive a shuffle of `n` items: step `k` picks a position in `k..n`.
pub open spec fn valid_draws(n: nat, draws: Seq<usize>) -> bool {
    &&& draws.len() == n
    &&& forall|k: int| 0 <= k < n ==> k <= #[trigger] draws[k] < n
}

/// A sequence of distinct positions below `n`.
pub open spec fn is_permutation(s: Seq<int>, n: nat) -> bool {
    &&& s.len() == n
    &&& forall|k: int| 0 <= k < n ==> 0 <= #[trigger] s[k] < n
    &&& forall|a: int, b: int| 0 <= a < b < n ==> s[a] != s[b]
}

proof fn lemma_shuffled_permutation(n: nat, draws: Seq<usize>, i: nat)
    requires
        valid_draws(n, draws),
        i <= n,
    ensures
        is_permutation(shuffled(n, draws, i), n),
    decreases i,
{
    if i > 0 {
        lemma_shuffled_permutation(n, draws, (i - 1) as nat);
        let s = shuffled(n, draws, (i - 1) as nat);
        let a = i - 1;
        let b = draws[a] as int;
        let t = s.update(a, s[b]).update(b, s[a]);
        assert forall|x: int, y: int| 0 <= x < y < n implies t[x] != t[y] by {
            assert(s[x] != s[y]);
        }
    }
}

// ---------------------------------------------------------------------------
// Selection
// ---------------------------------------------------------------------------

/// The first `count` templates (all, when there are fewer) in the order a
/// Fisher-Yates shuffle driven by `draws` leaves them.
pub fn select_challenges(templates: Vec<Challenge>, count: usize, draws: &Vec<usize>) -> (selected: Vec<Challenge>)
    requires
        valid_draws(templates@.len(), draws@),
    ensures
        selected@.len() == if count < templates@.len() { count as int } else { templates@.len() as int },
        forall|k: int| 0 <= k < selected@.len() ==>
            #[trigger] selected@[k] == templates@[shuffled(templates@.len(), draws@, templates@.len())[k]],
{
    let ghost orig = templates@;
    let n = templates.len();
    let mut indices: Vec<usize> = Vec::new();
    let mut i: usize = 0;
    while i < n
        invariant
            0 <= i <= n,
            n == orig.len(),
            indices@.len() == i,
            forall|k: int| 0 <= k < i ==> indices@[k] == k,
        decreases n - i,
    {
        indices.push(i);
        i = i + 1;
    }
    assert(indices@.map_values(|x: usize| x as int) =~= shuffled(n as nat, draws@, 0));
    let mut i: usize = 0;
    while i < n
        invariant
            0 <= i <= n,
            n == orig.len(),
            valid_draws(n as nat, draws@),
            indices@.len() == n,
            indices@.map_values(|x: usize| x as int) == shuffled(n as nat, draws@, i as nat),
        decreases n - i,
    {
        let j = draws[i];
        let a = indices[i];
        let b = indices[j];
        indices.set(i, b);
        indices.set(j, a);
        assert(indices@.map_values(|x: usize| x as int) =~= shuffled(n as nat, draws@, (i + 1) as nat));
        i = i + 1;
    }
    proof {
        lemma_shuffled_permutation(n as nat, draws@, n as nat);
    }
    let ghost perm = shuffled(n as nat, draws@, n as nat);
    // Hold the templates in slots, last template first, so that each can be
    // moved out exactly once.
    let mut templates = templates;
    let mut slots: Vec<Option<Challenge>> = Vec::new();
    while templates.len() > 0
        invariant
            n == orig.len(),
            templates@ == orig.take(templates@.len() as int),
            templates@.len() + slots@.len() == n,
            forall|k: int| 0 <= k < slots@.len() ==> #[trigger] slots@[k] == Some(orig[n - 1 - k]),
        decreases templates@.len(),
    {
        let c = templates.pop().unwrap();
        slots.push(Some(c));
        assert(templates@ =~= orig.take(templates@.len() as int));
    }
    let take = if count < n { count } else { n };
    let mut selected: Vec<Challenge> = Vec::new();
    let mut k: usize = 0;
    while k < take
        invariant
            0 <= k <= take,
            take <= n,
            n == orig.len(),
            slots@.len() == n,
            indices@.len() == n,
            indices@.map_values(|x: usize| x as int) == perm,
            is_permutation(perm, n as nat),
            forall|q: int| k <= q < n ==> #[trigger] slots@[n - 1 - perm[q]] == Some(orig[perm[q]]),
            selected@.len() == k,
            forall|q: int| 0 <= q < k ==> #[trigger] selected@[q] == orig[perm[q]],
        decreases take - k,
    {
        let idx = indices[k];
        assert(perm[k as int] == idx as int);
        let slot = n - 1 - idx;
        let c = slots[slot].take().unwrap();
        proof {
            assert forall|q: int| k + 1 <= q < n implies #[trigger] slots@[n - 1 - perm[q]] == Some(orig[perm[q]]) by {
                assert(perm[q] != perm[k as int]);
            }
        }
        selected.push(c);
        k = k + 1;
    }
    selected
}

/// Draws `count` of the templates at random, none twice.
fn select_random_challenges(templates: Vec<Challenge>, count: usize) -> (selected: Vec<Challenge>)
    requires
        templates@.len() <= 65536,
    ensures
        selected@.len() == if count < templates@.len() { count as int } else { templates@.len() as int },
        exists|perm: Seq<int>| #[trigger] is_permutation(perm, templates@.len())
            && forall|k: int| 0 <= k < selected@.len() ==> #[trigger] selected@[k] == templates@[perm[k]],
{
    let n = templates.len();
    let mut draws: Vec<usize> = Vec::new();
    let mut i: usize = 0;
    while i < n
        invariant
            0 <= i <= n,
            n == templates@.len(),
            n <= 65536,
            draws@.len() == i,
            forall|k: int| 0 <= k < i ==> k <= #[trigger] draws@[k] < n,
        decreases n - i,
    {
        let j = random_index(i, n);
        draws.push(j);
        i = i + 1;
    }
    let ghost orig = templates@;
    let selected = select_challenges(templates, count, &draws);
    proof {
        lemma_shuffled_permutation(n as nat, draws@, n as nat);
    }
    selected
}

// ---------------------------------------------------------------------------
// Templates
// ---------------------------------------------------------------------------

fn bundle(a: ChallengeReward, b: ChallengeReward) -> (r: ChallengeReward)
    ensures
        challenge_reward_view(r) == (true, seq![reward_item_view(a), reward_item_view(b)]),
{
    let mut v: Vec<ChallengeReward> = Vec::new();
    v.push(a);
    v.push(b);
    let r = ChallengeReward::Multiple(v);
    assert(challenge_reward_view(r).1 =~= seq![reward_item_view(a), reward_item_view(b)]);
    r
}

fn challenge(id: &str, name: &str, description: &str, challenge_type: ChallengeType,
    difficulty: ChallengeDifficulty, max_progress: u32, reward: ChallengeReward, is_daily: bool,
    expires_at: u64) -> (c: Challenge)
    ensures
        c.id@ == id@,
        c.name@ == name@,
        c.description@ == description@,
        c.challenge_type == challenge_type,
        c.difficulty == difficulty,
        c.progress == 0,
        c.max_progress == max_progress,
        c.reward == reward,
        c.is_daily == is_daily,
        c.expires_at == expires_at,
{
    Challenge {
        id: String::from_str(id),
        name: String::from_str(name),
        description: String::from_str(description),
        challenge_type,
        difficulty,
        progress: 0,
        max_progress,
        reward,
        is_daily,
        expires_at,
    }
}

fn push_template(v: &mut Vec<Challenge>, c: Challenge)
    requires
        forall|k: int| #![trigger old(v)@[k]] 0 <= k < old(v)@.len()
            ==> fresh_challenge(old(v)@[k], c.is_daily, c.expires_at)
                && is_template(old(v)@[k], template_entry(c.is_daily, k)),
        fresh_challenge(c, c.is_daily, c.expires_at),
        is_template(c, template_entry(c.is_daily, old(v)@.len() as int)),
    ensures
        final(v)@ == old(v)@.push(c),
        forall|k: int| #![trigger final(v)@[k]] 0 <= k < final(v)@.len()
            ==> fresh_challenge(final(v)@[k], c.is_daily, c.expires_at)
                && is_template(final(v)@[k], template_entry(c.is_daily, k)),
{
    v.push(c);
}

proof fn lemma_template_ids_distinct()
    ensures
        forall|a: int, b: int| 0 <= a < b < daily_template_ids().len()
            ==> daily_template_ids()[a] != daily_template_ids()[b],
        forall|a: int, b: int| 0 <= a < b < weekly_template_ids().len()
            ==> weekly_template_ids()[a] != weekly_template_ids()[b],
{
    reveal_strlit("daily_defeat_30");
    reveal_strlit("daily_combo_50");
    reveal_strlit("daily_wave_10");
    reveal_strlit("daily_no_damage");
    reveal_strlit("daily_damage_5k");
    reveal_strlit("daily_perfect_parries");
    reveal_strlit("daily_coop");
    reveal_strlit("weekly_defeat_500");
    reveal_strlit("weekly_boss_rush");
    reveal_strlit("weekly_wave_25");
    reveal_strlit("weekly_combo_150");
    reveal_strlit("weekly_survival_10min");
    reveal_strlit("weekly_character_mastery");
    reveal_strlit("weekly_speedrun");
    reveal_strlit("weekly_coop_revives");
    let d = daily_template_ids();
    let w = weekly_template_ids();
    assert(d[0][6] == 'd' && d[1][6] == 'c' && d[2][6] == 'w' && d[3][6] == 'n');
    assert(d[4][6] == 'd' && d[5][6] == 'p' && d[6][6] == 'c');
    assert(d[0][8] == 'f' && d[4][8] == 'm');
    assert(d[1][7] == 'o' && d[6][7] == 'o' && d[1][8] == 'm' && d[6][8] == 'o');
    assert(w[0][7] == 'd' && w[1][7] == 'b' && w[2][7] == 'w' && w[3][7] == 'c');
    assert(w[4][7] == 's' && w[5][7] == 'c' && w[6][7] == 's' && w[7][7] == 'c');
    assert(w[3][8] == 'o' && w[5][8] == 'h' && w[7][8] == 'o');
    assert(w[3][9] == 'm' && w[7][9] == 'o');
    assert(w[4][8] == 'u' && w[6][8] == 'p');
}

impl ChallengeManager {
    fn get_daily_challenge_templates(expires_at: u64) -> (v: Vec<Challenge>)
        ensures
            v@.len() == 7,
            v@.map_values(|c: Challenge| c.id@) == daily_template_ids(),
            forall|k: int| #![trigger v@[k]] 0 <= k < v@.len() ==> fresh_challenge(v@[k], true, expires_at)
                && is_template(v@[k], template_entry(true, k)),
    {
        let mut v: Vec<Challenge> = Vec::new();
        push_template(&mut v, challenge("daily_defeat_30", "Slayer", "Defeat 30 enemies",
            ChallengeType::DefeatEnemies { count: 30, enemy_type: None }, ChallengeDifficulty::Easy, 30,
            ChallengeReward::Currency(150), true, expires_at));
        push_template(&mut v, challenge("daily_combo_50", "Combo Master", "Achieve a 50-hit combo",
            ChallengeType::ReachCombo { combo: 50 }, ChallengeDifficulty::Medium, 50,
            ChallengeReward::Currency(200), true, expires_at));
        push_template(&mut v, challenge("daily_wave_10", "Wave Warrior", "Complete wave 10",
            ChallengeType::CompleteWave { wave: 10, mode: String::from_str("Story") }, ChallengeDifficulty::Medium, 10,
            ChallengeReward::XP(500), true, expires_at));
        push_template(&mut v, challenge("daily_no_damage", "Flawless", "Win a game without taking damage",
            ChallengeType::FlawlessVictory, ChallengeDifficulty::Hard, 1,
            bundle(ChallengeReward::Currency(300), ChallengeReward::XP(750)), true, expires_at));
        push_template(&mut v, challenge("daily_damage_5k", "Heavy Hitter", "Deal 5000 damage in a single game",
            ChallengeType::DealDamage { amount: 5000 }, ChallengeDifficulty::Medium, 5000,
            ChallengeReward::Currency(175), true, expires_at));
        push_template(&mut v, challenge("daily_perfect_parries", "Perfect Defense", "Perform 10 perfect parries",
            ChallengeType::PerfectParries { count: 10 }, ChallengeDifficulty::Hard, 10,
            bundle(ChallengeReward::Currency(250), ChallengeReward::SkillPoints(1)), true, expires_at));
        push_template(&mut v, challenge("daily_coop", "Team Player", "Win a co-op game",
            ChallengeType::WinCoopGame, ChallengeDifficulty::Easy, 1,
            ChallengeReward::Currency(200), true, expires_at));
        assert(v@.map_values(|c: Challenge| c.id@) =~= daily_template_ids());
        v
    }

    fn get_weekly_challenge_templates(expires_at: u64) -> (v: Vec<Challenge>)
        ensures
            v@.len() == 8,
            v@.map_values(|c: Challenge| c.id@) == weekly_template_ids(),
            forall|k: int| #![trigger v@[k]] 0 <= k < v@.len() ==> fresh_challenge(v@[k], false, expires_at)
                && is_template(v@[k], template_entry(false, k)),
    {
        let mut v: Vec<Challenge> = Vec::new();
        push_template(&mut v, challenge("weekly_defeat_500", "Executioner", "Defeat 500 enemies this week",
            ChallengeType::DefeatEnemies { count: 500, enemy_type: None }, ChallengeDifficulty::Hard, 500,
            bundle(ChallengeReward::Currency(1000), ChallengeReward::XP(2000)), false, expires_at));
        push_template(&mut v, challenge("weekly_boss_rush", "Boss Crusher", "Complete Boss Rush mode",
            ChallengeType::CompleteMode { mode: String::from_str("BossRush") }, ChallengeDifficulty::Expert, 1,
            bundle(ChallengeReward::Currency(1500), ChallengeReward::SkillPoints(3)), false, expires_at));
        push_template(&mut v, challenge("weekly_wave_25", "Endurance", "Reach wave 25 in any mode",
            ChallengeType::CompleteWave { wave: 25, mode: String::from_str("Any") }, ChallengeDifficulty::Hard, 25,
            bundle(ChallengeReward::Currency(800), ChallengeReward::SkillPoints(2)), false, expires_at));
        push_template(&mut v, challenge("weekly_combo_150", "Combo God", "Achieve a 150-hit combo",
            ChallengeType::ReachCombo { combo: 150 }, ChallengeDifficulty::Expert, 150,
            bundle(ChallengeReward::Currency(1200),
                ChallengeReward::Cosmetic(String::from_str("Combo Master Title"))), false, expires_at));
        push_template(&mut v, challenge("weekly_survival_10min", "Survivor", "Survive 10 minutes in Survival mode",
            ChallengeType::SurviveMinutes { minutes: 10, mode: String::from_str("Survival") }, ChallengeDifficulty::Hard, 600,
            bundle(ChallengeReward::Currency(900), ChallengeReward::XP(1500)), false, expires_at));
        push_template(&mut v, challenge("weekly_character_mastery", "Character Master", "Win 10 games with the same character",
            ChallengeType::WinWithCharacter { character: CharacterId::Bas }, ChallengeDifficulty::Medium, 10,
            bundle(ChallengeReward::Currency(700), ChallengeReward::XP(1000)), false, expires_at));
        push_template(&mut v, challenge("weekly_speedrun", "Speed Demon", "Complete a run in under 15 minutes",
            ChallengeType::SpeedRun { time_limit: 900 }, ChallengeDifficulty::Expert, 1,
            bundle(ChallengeReward::Currency(1500),
                ChallengeReward::Cosmetic(String::from_str("Speed Runner Title"))), false, expires_at));
        push_template(&mut v, challenge("weekly_coop_revives", "Field Medic", "Revive teammates 15 times",
            ChallengeType::RevivePlayers { count: 15 }, ChallengeDifficulty::Medium, 15,
            bundle(ChallengeReward::Currency(600),
                ChallengeReward::Cosmetic(String::from_str("Medic Title"))), false, expires_at));
        assert(v@.map_values(|c: Challenge| c.id@) =~= weekly_template_ids());
        v
    }

    /// Draws three of the seven daily templates, expiring a day after `now`.
    fn draw_daily(now: u64) -> (v: Vec<Challenge>)
        requires
            now + 86400 <= u64::MAX,
        ensures
            fresh_draw(v@, daily_template_ids(), 3, true, (now + 86400) as u64),
    {
        let templates = Self::get_daily_challenge_templates(now + 86400);
        let ghost t = templates@;
        let v = select_random_challenges(templates, 3);
        proof {
            lemma_template_ids_distinct();
            lemma_draw_fresh(t, v@, daily_template_ids(), true, (now + 86400) as u64);
        }
        v
    }

    /// Draws five of the eight weekly templates, expiring a week after `now`.
    fn draw_weekly(now: u64) -> (v: Vec<Challenge>)
        requires
            now + 604800 <= u64::MAX,
        ensures
            fresh_draw(v@, weekly_template_ids(), 5, false, (now + 604800) as u64),
    {
        let templates = Self::get_weekly_challenge_templates(now + 604800);
        let ghost t = templates@;
        let v = select_random_challenges(templates, 5);
        proof {
            lemma_template_ids_distinct();
            lemma_draw_fresh(t, v@, weekly_template_ids(), false, (now + 604800) as u64);
        }
        v
    }
}

proof fn lemma_draw_fresh(templates: Seq<Challenge>, v: Seq<Challenge>, ids: Seq<Seq<char>>, daily: bool, exp: u64)
    requires
        templates.map_values(|c: Challenge| c.id@) == ids,
        forall|a: int, b: int| 0 <= a < b < ids.len() ==> ids[a] != ids[b],
        forall|k: int| #![trigger templates[k]] 0 <= k < templates.len() ==> fresh_challenge(templates[k], daily, exp)
            && is_template(templates[k], template_entry(daily, k)),
        v.len() <= templates.len(),
        exists|perm: Seq<int>| #[trigger] is_permutation(perm, templates.len())
            && forall|k: int| 0 <= k < v.len() ==> #[trigger] v[k] == templates[perm[k]],
    ensures
        fresh_draw(v, ids, v.len() as int, daily, exp),
{
    let perm = choose|perm: Seq<int>| #[trigger] is_permutation(perm, templates.len())
        && forall|k: int| 0 <= k < v.len() ==> #[trigger] v[k] == templates[perm[k]];
    assert forall|k: int| #![trigger v[k]] 0 <= k < v.len() implies fresh_challenge(v[k], daily, exp)
        && ids.contains(v[k].id@)
        && exists|j: int| 0 <= j < ids.len() && #[trigger] is_template(v[k], template_entry(daily, j)) by {
        assert(v[k] == templates[perm[k]]);
        assert(ids[perm[k]] == templates[perm[k]].id@);
        assert(is_template(v[k], template_entry(daily, perm[k])));
    }
    assert forall|a: int, b: int| 0 <= a < b < v.len() implies v[a].id@ != v[b].id@ by {
        assert(v[a] == templates[perm[a]]);
        assert(v[b] == templates[perm[b]]);
        assert(ids[perm[a]] == templates[perm[a]].id@);
        assert(ids[perm[b]] == templates[perm[b]].id@);
        if perm[a] < perm[b] {
        } else {
            assert(perm[a] != perm[b]);
        }
    }
}

// ---------------------------------------------------------------------------
// Progress
// ---------------------------------------------------------------------------

fn challenge_types_match(a: &ChallengeType, b: &ChallengeType) -> (r: bool)
    ensures
        r == types_match(*a, *b),
{
    match (a, b) {
        (ChallengeType::DefeatEnemies { .. }, ChallengeType::DefeatEnemies { .. }) => true,
        (ChallengeType::DealDamage { .. }, ChallengeType::DealDamage { .. }) => true,
        (ChallengeType::ReachCombo { .. }, ChallengeType::ReachCombo { .. }) => true,
        (ChallengeType::DefeatBoss { .. }, ChallengeType::DefeatBoss { .. }) => true,
        (ChallengeType::WinWithoutDying, ChallengeType::WinWithoutDying) => true,
        (ChallengeType::PerfectParries { .. }, ChallengeType::PerfectParries { .. }) => true,
        (ChallengeType::CriticalHits { .. }, ChallengeType::CriticalHits { .. }) => true,
        (ChallengeType::WinCoopGame, ChallengeType::WinCoopGame) => true,
        (ChallengeType::RevivePlayers { .. }, ChallengeType::RevivePlayers { .. }) => true,
        (ChallengeType::FlawlessVictory, ChallengeType::FlawlessVictory) => true,
        _ => false,
    }
}

/// Whether `list` holds the id `id`.
fn contains_id(list: &Vec<String>, id: &String) -> (r: bool)
    ensures
        r == ids_of(list@).contains(id@),
{
    let mut i: usize = 0;
    while i < list.len()
        invariant
            0 <= i <= list@.len(),
            forall|j: int| 0 <= j < i ==> ids_of(list@)[j] != id@,
        decreases list@.len() - i,
    {
        assert(ids_of(list@)[i as int] == list@[i as int]@);
        if list[i] == *id {
            assert(ids_of(list@).contains(id@));
            return true;
        }
        i = i + 1;
    }
    false
}

/// Applies progress `p` of type `t` to every challenge of `list` in order,
/// recording completions in `done`, their rewards in `rewards`, and
/// counting them in `total`.
fn progress_list(list: &mut Vec<Challenge>, done: &mut Vec<String>, t: &ChallengeType, p: u32,
    rewards: &mut Vec<ChallengeReward>, total: &mut u32)
    requires
        *old(total) + old(list)@.len() <= u32::MAX,
    ensures
        ({
            let (cs, d, r) = run_progress(old(list)@, ids_of(old(done)@), *t, p);
            &&& final(list)@ == cs
            &&& ids_of(final(done)@) == d
            &&& final(rewards)@.len() == old(rewards)@.len() + r.len()
            &&& final(rewards)@.take(old(rewards)@.len() as int) == old(rewards)@
            &&& forall|k: int| 0 <= k < r.len() ==> #[trigger] reward_eq(final(rewards)@[old(rewards)@.len() + k], r[k])
            &&& *final(total) == *old(total) + r.len()
            &&& r.len() <= old(list)@.len()
        }),
{
    let ghost l0 = list@;
    let ghost done0 = ids_of(done@);
    let ghost r0 = rewards@;
    let ghost t0 = *total;
    let mut i: usize = 0;
    while i < list.len()
        invariant
            0 <= i <= list@.len(),
            list@.len() == l0.len(),
            t0 + l0.len() <= u32::MAX,
            ({
                let (cs, d, r) = run_progress(l0.take(i as int), done0, *t, p);
                &&& list@.take(i as int) == cs
                &&& ids_of(done@) == d
                &&& rewards@.len() == r0.len() + r.len()
                &&& rewards@.take(r0.len() as int) == r0
                &&& forall|k: int| 0 <= k < r.len() ==> #[trigger] reward_eq(rewards@[r0.len() + k], r[k])
                &&& *total == t0 + r.len()
                &&& r.len() <= i
            }),
            forall|j: int| i <= j < list@.len() ==> list@[j] == l0[j],
        decreases list@.len() - i,
    {
        let ghost prev = run_progress(l0.take(i as int), done0, *t, p);
        assert(l0.take(i as int + 1).drop_last() =~= l0.take(i as int));
        assert(l0.take(i as int + 1).last() == l0[i as int]);
        let ghost before_list = list@;
        let ghost before_rewards = rewards@;
        let matches = challenge_types_match(&list[i].challenge_type, t);
        let already = contains_id(done, &list[i].id);
        if matches && !already {
            let cur = list[i].progress;
            let max = list[i].max_progress;
            let sum: u64 = cur as u64 + p as u64;
            let next: u32 = if sum > max as u64 { max } else { sum as u32 };
            list[i].progress = next;
            if next >= max {
                let id = list[i].id.clone();
                done.push(id);
                *total = *total + 1;
                let reward = list[i].reward.duplicate();
                rewards.push(reward);
                proof {
                    assert(ids_of(done@) =~= prev.1.push(l0[i as int].id@));
                    assert(rewards@.take(r0.len() as int) =~= r0);
                    assert forall|k: int| 0 <= k < prev.2.len() + 1 implies #[trigger] reward_eq(rewards@[r0.len() + k], prev.2.push(l0[i as int].reward)[k]) by {
                        if k < prev.2.len() {
                            assert(rewards@[r0.len() + k] == before_rewards[r0.len() + k]);
                        }
                    }
                }
            }
        }
        assert(list@.take(i as int + 1) =~= run_progress(l0.take(i as int + 1), done0, *t, p).0);
        i = i + 1;
    }
    assert(l0.take(i as int) =~= l0);
    assert(list@.take(i as int) =~= list@);
}

impl ChallengeManager {
    /// Applies progress `progress` of the type `challenge_type` to the
    /// daily challenges, then the weekly ones. A challenge takes it when its
    /// type is of the same kind and it is not completed yet; its progress is
    /// capped at its target, and on reaching the target it is marked
    /// completed, counted, and its reward is returned, daily rewards first.
    pub fn update_progress(&mut self, challenge_type: &ChallengeType, progress: u32) -> (rewards: Vec<ChallengeReward>)
        requires
            old(self).total_challenges_completed + old(self).daily_challenges@.len()
                + old(self).weekly_challenges@.len() <= u32::MAX,
        ensures
            ({
                let (dc, dd, dr) = run_progress(old(self).daily_challenges@, ids_of(old(self).completed_daily@), *challenge_type, progress);
                let (wc, wd, wr) = run_progress(old(self).weekly_challenges@, ids_of(old(self).completed_weekly@), *challenge_type, progress);
                &&& final(self).daily_challenges@ == dc
                &&& final(self).weekly_challenges@ == wc
                &&& ids_of(final(self).completed_daily@) == dd
                &&& ids_of(final(self).completed_weekly@) == wd
                &&& rewards@.len() == dr.len() + wr.len()
                &&& forall|k: int| 0 <= k < rewards@.len() ==> #[trigger] reward_eq(rewards@[k], (dr + wr)[k])
                &&& final(self).total_challenges_completed == old(self).total_challenges_completed + dr.len() + wr.len()
            }),
            final(self).last_daily_reset == old(self).last_daily_reset,
            final(self).last_weekly_reset == old(self).last_weekly_reset,
            final(self).streak_days == old(self).streak_days,
    {
        let ghost d0 = self.daily_challenges@;
        let ghost w0 = self.weekly_challenges@;
        let ghost run_d = run_progress(d0, ids_of(self.completed_daily@), *challenge_type, progress);
        let ghost run_w = run_progress(w0, ids_of(self.completed_weekly@), *challenge_type, progress);
        let mut rewards: Vec<ChallengeReward> = Vec::new();
        let mut total = self.total_challenges_completed;
        progress_list(&mut self.daily_challenges, &mut self.completed_daily, challenge_type, progress, &mut rewards, &mut total);
        let ghost after_daily = rewards@;
        progress_list(&mut self.weekly_challenges, &mut self.completed_weekly, challenge_type, progress, &mut rewards, &mut total);
        self.total_challenges_completed = total;
        proof {
            assert forall|k: int| 0 <= k < rewards@.len() implies #[trigger] reward_eq(rewards@[k], (run_d.2 + run_w.2)[k]) by {
                if k < run_d.2.len() {
                    assert(rewards@[k] == rewards@.take(after_daily.len() as int)[k]);
                    assert(rewards@[k] == after_daily[k]);
                    assert(reward_eq(after_daily[0 + k], run_d.2[k]));
                } else {
                    assert(reward_eq(rewards@[after_daily.len() + (k - run_d.2.len())], run_w.2[k - run_d.2.len()]));
                }
            }
        }
        rewards
    }

    /// Whether the challenge `challenge_id` is completed, among the daily or
    /// the weekly ones.
    pub fn is_completed(&self, challenge_id: &str, is_daily: bool) -> (r: bool)
        ensures
            r == if is_daily {
                ids_of(self.completed_daily@).contains(challenge_id@)
            } else {
                ids_of(self.completed_weekly@).contains(challenge_id@)
            },
    {
        let key = challenge_id.to_owned();
        if is_daily {
            contains_id(&self.completed_daily, &key)
        } else {
            contains_id(&self.completed_weekly, &key)
        }
    }

    /// The challenges not completed yet, daily ones first.
    pub fn get_active_challenges(&self) -> (r: Vec<&Challenge>)
        ensures
            r@.map_values(|c: &Challenge| *c) == (self.daily_challenges@ + self.weekly_challenges@).filter(
                |c: Challenge| !self.completed_spec(c),
            ),
    {
        let mut r: Vec<&Challenge> = Vec::new();
        let ghost all = self.daily_challenges@ + self.weekly_challenges@;
        let ghost pred = |c: Challenge| !self.completed_spec(c);
        let nd = self.daily_challenges.len();
        let mut i: usize = 0;
        while i < nd
            invariant
                0 <= i <= nd,
                nd == self.daily_challenges@.len(),
                all == self.daily_challenges@ + self.weekly_challenges@,
                pred == (|c: Challenge| !self.completed_spec(c)),
                r@.map_values(|c: &Challenge| *c) == all.take(i as int).filter(pred),
            decreases nd - i,
        {
            reveal_with_fuel(Seq::filter, 1);
            assert(all.take(i as int + 1).drop_last() =~= all.take(i as int));
            let c = &self.daily_challenges[i];
            assert(*c == all[i as int]);
            if !self.is_completed(c.id.as_str(), c.is_daily) {
                r.push(c);
            }
            assert(r@.map_values(|c: &Challenge| *c) =~= all.take(i as int + 1).filter(pred));
            i = i + 1;
        }
        let nw = self.weekly_challenges.len();
        let mut j: usize = 0;
        while j < nw
            invariant
                0 <= j <= nw,
                nd == self.daily_challenges@.len(),
                nw == self.weekly_challenges@.len(),
                all == self.daily_challenges@ + self.weekly_challenges@,
                pred == (|c: Challenge| !self.completed_spec(c)),
                r@.map_values(|c: &Challenge| *c) == all.take(nd + j).filter(pred),
            decreases nw - j,
        {
            reveal_with_fuel(Seq::filter, 1);
            assert(all.take(nd + j + 1).drop_last() =~= all.take(nd + j));
            let c = &self.weekly_challenges[j];
            assert(*c == all[nd + j]);
            if !self.is_completed(c.id.as_str(), c.is_daily) {
                r.push(c);
            }
            assert(r@.map_values(|c: &Challenge| *c) =~= all.take(nd + j + 1).filter(pred));
            j = j + 1;
        }
        assert(all.take(nd + j) =~= all);
        r
    }

    /// Whether a challenge counts as completed: its id is among the completed
    /// ids of its kind (daily or weekly).
    pub open spec fn completed_spec(&self, c: Challenge) -> bool {
        if c.is_daily {
            ids_of(self.completed_daily@).contains(c.id@)
        } else {
            ids_of(self.completed_weekly@).contains(c.id@)
        }
    }

    /// Seconds left until the daily reset (none once it is due).
    pub fn time_until_daily_reset(&self, now: u64) -> (r: u64)
        requires
            self.last_daily_reset + 86400 <= u64::MAX,
        ensures
            r == if self.last_daily_reset + 86400 > now { self.last_daily_reset + 86400 - now } else { 0 },
    {
        let next_reset = self.last_daily_reset + 86400;
        next_reset.saturating_sub(now)
    }

    /// Seconds left until the weekly reset (none once it is due).
    pub fn time_until_weekly_reset(&self, now: u64) -> (r: u64)
        requires
            self.last_weekly_reset + 604800 <= u64::MAX,
        ensures
            r == if self.last_weekly_reset + 604800 > now { self.last_weekly_reset + 604800 - now } else { 0 },
    {
        let next_reset = self.last_weekly_reset + 604800;
        next_reset.saturating_sub(now)
    }

    /// A manager at time `now`: three daily and five weekly challenges drawn
    /// at random from the templates, nothing completed, no streak.
    pub fn new(now: u64) -> (m: ChallengeManager)
        requires
            now + 604800 <= u64::MAX,
        ensures
            fresh_draw(m.daily_challenges@, daily_template_ids(), 3, true, (now + 86400) as u64),
            fresh_draw(m.weekly_challenges@, weekly_template_ids(), 5, false, (now + 604800) as u64),
            m.completed_daily@.len() == 0,
            m.completed_weekly@.len() == 0,
            m.last_daily_reset == now,
            m.last_weekly_reset == now,
            m.streak_days == 0,
            m.total_challenges_completed == 0,
    {
        ChallengeManager {
            daily_challenges: Self::draw_daily(now),
            weekly_challenges: Self::draw_weekly(now),
            completed_daily: Vec::new(),
            completed_weekly: Vec::new(),
            last_daily_reset: now,
            last_weekly_reset: now,
            streak_days: 0,
            total_challenges_completed: 0,
        }
    }

    /// Checks for the daily (24 hours) and weekly (7 days) resets at time
    /// `now`. A daily reset extends the streak when a daily challenge was
    /// completed since the last one and breaks it otherwise, forgets the
    /// completed dailies and draws new ones; a weekly reset forgets the
    /// completed weeklies and draws new ones. Each reset records `now`.
    pub fn update(&mut self, now: u64)
        requires
            now + 604800 <= u64::MAX,
            old(self).last_daily_reset + 86400 <= u64::MAX,
            old(self).last_weekly_reset + 604800 <= u64::MAX,
            old(self).streak_days < u32::MAX,
        ensures
            if now >= old(self).last_daily_reset + 86400 {
                &&& final(self).streak_days == if old(self).completed_daily@.len() > 0 { old(self).streak_days + 1 } else { 0 }
                &&& final(self).completed_daily@.len() == 0
                &&& fresh_draw(final(self).daily_challenges@, daily_template_ids(), 3, true, (now + 86400) as u64)
                &&& final(self).last_daily_reset == now
            } else {
                &&& final(self).streak_days == old(self).streak_days
                &&& final(self).completed_daily@ == old(self).completed_daily@
                &&& final(self).daily_challenges@ == old(self).daily_challenges@
                &&& final(self).last_daily_reset == old(self).last_daily_reset
            },
            if now >= old(self).last_weekly_reset + 604800 {
                &&& final(self).completed_weekly@.len() == 0
                &&& fresh_draw(final(self).weekly_challenges@, weekly_template_ids(), 5, false, (now + 604800) as u64)
                &&& final(self).last_weekly_reset == now
            } else {
                &&& final(self).completed_weekly@ == old(self).completed_weekly@
                &&& final(self).weekly_challenges@ == old(self).weekly_challenges@
                &&& final(self).last_weekly_reset == old(self).last_weekly_reset
            },
            final(self).total_challenges_completed == old(self).total_challenges_completed,
    {
        if now >= self.last_daily_reset + 86400 {
            self.reset_daily_challenges(now);
        }
        if now >= self.last_weekly_reset + 604800 {
            self.reset_weekly_challenges(now);
        }
    }

    fn reset_daily_challenges(&mut self, now: u64)
        requires
            now + 604800 <= u64::MAX,
            old(self).streak_days < u32::MAX,
        ensures
            final(self).streak_days == if old(self).completed_daily@.len() > 0 { old(self).streak_days + 1 } else { 0 },
            final(self).completed_daily@.len() == 0,
            fresh_draw(final(self).daily_challenges@, daily_template_ids(), 3, true, (now + 86400) as u64),
            final(self).last_daily_reset == now,
            final(self).weekly_challenges == old(self).weekly_challenges,
            final(self).completed_weekly == old(self).completed_weekly,
            final(self).last_weekly_reset == old(self).last_weekly_reset,
            final(self).total_challenges_completed == old(self).total_challenges_completed,
    {
        let completed_any = self.completed_daily.len() > 0;
        if completed_any {
            self.streak_days = self.streak_days + 1;
        } else {
            self.streak_days = 0;
        }
        self.completed_daily.clear();
        self.daily_challenges = Self::draw_daily(now);
        self.last_daily_reset = now;
    }

    fn reset_weekly_challenges(&mut self, now: u64)
        requires
            now + 604800 <= u64::MAX,
        ensures
            final(self).completed_weekly@.len() == 0,
            fresh_draw(final(self).weekly_challenges@, weekly_template_ids(), 5, false, (now + 604800) as u64),
            final(self).last_weekly_reset == now,
            final(self).daily_challenges == old(self).daily_challenges,
            final(self).completed_daily == old(self).completed_daily,
            final(self).last_daily_reset == old(self).last_daily_reset,
            final(self).streak_days == old(self).streak_days,
            final(self).total_challenges_completed == old(self).total_challenges_completed,
    {
        self.completed_weekly.clear();
        self.weekly_challenges = Self::draw_weekly(now);
        self.last_weekly_reset = now;
    }
}

/// A challenge completed by a progress report is never completed again by a
/// later one: after a report, every challenge the run completes is recorded
/// among the completed ids, and the next report skips it.
pub proof fn law_completed_not_rewarded_again(cs: Seq<Challenge>, done: Seq<Seq<char>>, t: ChallengeType, p: u32, k: int)
    requires
        0 <= k < cs.len(),
        run_progress(cs, done, t, p).1.contains(cs[k].id@),
    ensures
        !applies(run_progress(cs, done, t, p).0[k], run_progress(cs, done, t, p).1, t),
{
    lemma_run_keeps_ids(cs, done, t, p);
}

proof fn lemma_run_keeps_ids(cs: Seq<Challenge>, done: Seq<Seq<char>>, t: ChallengeType, p: u32)
    ensures
        run_progress(cs, done, t, p).0.len() == cs.len(),
        forall|k: int| 0 <= k < cs.len() ==> #[trigger] run_progress(cs, done, t, p).0[k].id@ == cs[k].id@,
    decreases cs.len(),
{
    if cs.len() > 0 {
        lemma_run_keeps_ids(cs.drop_last(), done, t, p);
    }
}

impl ChallengeDifficulty {
    /// The difficulty's display name.
    pub fn to_string(&self) -> (s: &'static str)
        ensures
            s@ == match *self {
                ChallengeDifficulty::Easy => "Easy"@,
                ChallengeDifficulty::Medium => "Medium"@,
                ChallengeDifficulty::Hard => "Hard"@,
                ChallengeDifficulty::Expert => "Expert"@,
            },
    {
        match self {
            ChallengeDifficulty::Easy => "Easy",
            ChallengeDifficulty::Medium => "Medium",
            ChallengeDifficulty::Hard => "Hard",
            ChallengeDifficulty::Expert => "Expert",
        }
    }
}

} // verus!

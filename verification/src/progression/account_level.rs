use vstd::prelude::*;
use vstd::string::StringExecFns;

verus! {

/// Account-wide progression: level, game counters, profile, and the level
/// rewards already claimed. (Experience points, damage and lifetime currency
/// are fractional quantities kept by the game alongside.)
pub struct AccountProgression {
    pub level: u32,
    pub total_games_played: u32,
    pub total_wins: u32,
    pub total_losses: u32,
    pub total_kills: u64,
    pub total_deaths: u64,
    pub total_playtime_seconds: u64,
    pub profile_title: String,
    pub profile_banner: String,
    pub profile_icon: String,
    pub level_rewards_claimed: Vec<u32>,
}

/// Reward for reaching an account level.
pub struct LevelReward {
    pub level: u32,
    pub currency: u32,
    pub skill_points: u32,
    pub cosmetic: Option<String>,
}

/// Prestige: resets the account level in exchange for permanent bonuses.
pub struct PrestigeSystem {
    pub prestige_level: u32,
    pub total_prestiges: u32,
    /// Special currency earned from prestiging, in whole units.
    pub prestige_currency: u32,
    pub permanent_bonuses: PrestigeBonuses,
    pub prestige_rewards_unlocked: Vec<PrestigeReward>,
}

/// Permanent bonuses from prestige. Multipliers and bonuses are in
/// hundredths (`xp_multiplier == 105` stands for ×1.05, `damage_bonus == 2`
/// for +2%); `start_with_currency` is in whole currency units.
pub struct PrestigeBonuses {
    pub xp_multiplier: u32,
    pub currency_multiplier: u32,
    pub damage_bonus: u32,
    pub health_bonus: u32,
    pub start_with_currency: u32,
    pub extra_skill_points: u32,
    pub unlock_modifiers: Vec<String>,
}

/// A prestige milestone reward.
pub struct PrestigeReward {
    pub prestige_level: u32,
    pub name: String,
    pub description: String,
    pub reward_type: PrestigeRewardType,
}

/// What a prestige milestone grants (multipliers and bonuses in hundredths).
pub enum PrestigeRewardType {
    XPMultiplier(u32),
    CurrencyMultiplier(u32),
    DamageBonus(u32),
    HealthBonus(u32),
    StartingCurrency(u32),
    SkillPoints(u32),
    UnlockCharacter(String),
    UnlockModifier(String),
    UnlockSkin(String),
}

/// Result of a prestige attempt.
pub enum PrestigeResult {
    Success { prestige_level: u32, currency_gained: u32, reward: Option<PrestigeReward> },
    NotEligible,
}

/// Upgrades bought with prestige currency.
#[derive(Clone, Copy, Debug, PartialEq, Eq, Structural)]
pub enum PrestigeUpgrade {
    /// +5% XP gain.
    XPBoost,
    /// +10% currency gain.
    CurrencyBoost,
    /// +2% damage.
    DamageBoost,
    /// +3% health.
    HealthBoost,
    /// +100 starting currency.
    StartingCurrency,
    /// +1 skill point for all characters.
    SkillPoint,
}

// ---------------------------------------------------------------------------
// Decimal text
// ---------------------------------------------------------------------------

/// The decimal digit `d` as text.
pub open spec fn digit_text(d: int) -> Seq<char> {
    if d == 0 {
        "0"@
    } else if d == 1 {
        "1"@
    } else if d == 2 {
        "2"@
    } else if d == 3 {
        "3"@
    } else if d == 4 {
        "4"@
    } else if d == 5 {
        "5"@
    } else if d == 6 {
        "6"@
    } else if d == 7 {
        "7"@
    } else if d == 8 {
        "8"@
    } else {
        "9"@
    }
}

/// A number written in decimal, as `to_string` writes it.
pub open spec fn decimal(n: nat) -> Seq<char>
    decreases n,
{
    if n < 10 {
        digit_text(n as int)
    } else {
        decimal(n / 10) + digit_text((n % 10) as int)
    }
}

fn digit(d: u32) -> (s: &'static str)
    requires
        d < 10,
    ensures
        s@ == digit_text(d as int),
{
    if d == 0 {
        "0"
    } else if d == 1 {
        "1"
    } else if d == 2 {
        "2"
    } else if d == 3 {
        "3"
    } else if d == 4 {
        "4"
    } else if d == 5 {
        "5"
    } else if d == 6 {
        "6"
    } else if d == 7 {
        "7"
    } else if d == 8 {
        "8"
    } else {
        "9"
    }
}

/// Appends `n` in decimal to `s`.
fn append_decimal(s: &mut String, n: u32)
    ensures
        final(s)@ == old(s)@ + decimal(n as nat),
    decreases n,
{
    if n < 10 {
        s.append(digit(n));
    } else {
        append_decimal(s, n / 10);
        s.append(digit(n % 10));
        assert(final(s)@ =~= old(s)@ + decimal(n as nat));
    }
}

// ---------------------------------------------------------------------------
// Level rewards
// ---------------------------------------------------------------------------

/// The currency of the reward for reaching `level`.
pub open spec fn level_reward_currency(level: u32) -> int {
    if level % 5 == 0 && 5 <= level <= 50 {
        20 * level
    } else if level == 60 || level == 70 || level == 80 || level == 90 {
        500
    } else if level == 100 {
        2000
    } else if level >= 100 && level % 25 == 0 {
        1000
    } else {
        50
    }
}

/// The skill points of the reward for reaching `level`.
pub open spec fn level_reward_points(level: u32) -> int {
    if level % 5 == 0 && 5 <= level <= 50 {
        1
    } else if level == 60 || level == 70 || level == 80 || level == 90 {
        2
    } else if level == 100 {
        5
    } else if level >= 100 && level % 25 == 0 {
        3
    } else {
        0
    }
}

/// The cosmetic of the reward for reaching `level`, if any.
pub open spec fn level_reward_cosmetic(level: u32) -> Option<Seq<char>> {
    if level % 5 == 0 && 5 <= level <= 50 {
        None
    } else if level == 60 || level == 70 || level == 80 || level == 90 {
        Some("Banner Lvl "@ + decimal(level as nat))
    } else if level == 100 {
        Some("Master Banner"@)
    } else if level >= 100 && level % 25 == 0 {
        Some("Legendary Banner "@ + decimal(level as nat))
    } else {
        None
    }
}

/// `r` is the reward for reaching `level`.
pub open spec fn is_level_reward(r: LevelReward, level: u32) -> bool {
    &&& r.level == level
    &&& r.currency == level_reward_currency(level)
    &&& r.skill_points == level_reward_points(level)
    &&& match level_reward_cosmetic(level) {
        Some(c) => r.cosmetic is Some && r.cosmetic->0@ == c,
        None => r.cosmetic is None,
    }
}

/// The levels from 1 to `level` whose rewards are not claimed yet, in order.
pub open spec fn pending_levels(level: u32, claimed: Seq<u32>) -> Seq<u32> {
    level_seq(level).filter(unclaimed(claimed))
}

/// The levels from 1 to `level`.
pub open spec fn level_seq(level: u32) -> Seq<u32> {
    Seq::new(level as nat, |i: int| (i + 1) as u32)
}

/// Levels whose reward is not in `claimed`.
pub open spec fn unclaimed(claimed: Seq<u32>) -> spec_fn(u32) -> bool {
    |l: u32| !claimed.contains(l)
}

impl AccountProgression {
    /// A new account: level 1, no games, the default profile.
    pub fn new() -> (a: AccountProgression)
        ensures
            a.level == 1,
            a.total_games_played == 0,
            a.total_wins == 0,
            a.total_losses == 0,
            a.total_kills == 0,
            a.total_deaths == 0,
            a.total_playtime_seconds == 0,
            a.profile_title@ == "Newcomer"@,
            a.profile_banner@ == "Default"@,
            a.profile_icon@ == "Default"@,
            a.level_rewards_claimed@.len() == 0,
    {
        AccountProgression {
            level: 1,
            total_games_played: 0,
            total_wins: 0,
            total_losses: 0,
            total_kills: 0,
            total_deaths: 0,
            total_playtime_seconds: 0,
            profile_title: String::from_str("Newcomer"),
            profile_banner: String::from_str("Default"),
            profile_icon: String::from_str("Default"),
            level_rewards_claimed: Vec::new(),
        }
    }

    /// Raises the account by one level and returns the new level; the game
    /// calls it for each level the experience it adds pays for.
    pub fn gain_level(&mut self) -> (new_level: u32)
        requires
            old(self).level < u32::MAX,
        ensures
            *final(self) == (AccountProgression { level: (old(self).level + 1) as u32, ..*old(self) }),
            new_level == final(self).level,
    {
        self.level = self.level + 1;
        self.level
    }

    /// Counts a finished game as a win or a loss.
    pub fn record_game(&mut self, won: bool)
        requires
            old(self).total_games_played < u32::MAX,
            won ==> old(self).total_wins < u32::MAX,
            !won ==> old(self).total_losses < u32::MAX,
        ensures
            *final(self) == (AccountProgression {
                total_games_played: (old(self).total_games_played + 1) as u32,
                total_wins: (old(self).total_wins + if won { 1int } else { 0int }) as u32,
                total_losses: (old(self).total_losses + if won { 0int } else { 1int }) as u32,
                ..*old(self)
            }),
    {
        self.total_games_played = self.total_games_played + 1;
        if won {
            self.total_wins = self.total_wins + 1;
        } else {
            self.total_losses = self.total_losses + 1;
        }
    }

    /// Adds play time.
    pub fn add_playtime(&mut self, seconds: u64)
        requires
            old(self).total_playtime_seconds + seconds <= u64::MAX,
        ensures
            *final(self) == (AccountProgression {
                total_playtime_seconds: (old(self).total_playtime_seconds + seconds) as u64,
                ..*old(self)
            }),
    {
        self.total_playtime_seconds = self.total_playtime_seconds + seconds;
    }

    /// The reward for reaching `level`: every fifth level up to 50 pays
    /// `20 * level` and a skill point, levels 60 to 90 in tens a banner,
    /// level 100 the master banner, every 25th level after it a legendary
    /// banner, and any other level 50 currency.
    pub fn get_level_reward(level: u32) -> (r: LevelReward)
        ensures
            is_level_reward(r, level),
    {
        if level % 5 == 0 && 5 <= level && level <= 50 {
            LevelReward { level, currency: 20 * level, skill_points: 1, cosmetic: None }
        } else if level == 60 || level == 70 || level == 80 || level == 90 {
            let mut c = String::from_str("Banner Lvl ");
            append_decimal(&mut c, level);
            LevelReward { level, currency: 500, skill_points: 2, cosmetic: Some(c) }
        } else if level == 100 {
            LevelReward { level, currency: 2000, skill_points: 5, cosmetic: Some(String::from_str("Master Banner")) }
        } else if level >= 100 && level % 25 == 0 {
            let mut c = String::from_str("Legendary Banner ");
            append_decimal(&mut c, level);
            LevelReward { level, currency: 1000, skill_points: 3, cosmetic: Some(c) }
        } else {
            LevelReward { level, currency: 50, skill_points: 0, cosmetic: None }
        }
    }

    fn is_claimed(&self, level: u32) -> (r: bool)
        ensures
            r == self.level_rewards_claimed@.contains(level),
    {
        let mut i: usize = 0;
        while i < self.level_rewards_claimed.len()
            invariant
                0 <= i <= self.level_rewards_claimed@.len(),
                forall|j: int| 0 <= j < i ==> self.level_rewards_claimed@[j] != level,
            decreases self.level_rewards_claimed@.len() - i,
        {
            if self.level_rewards_claimed[i] == level {
                assert(self.level_rewards_claimed@.contains(level));
                return true;
            }
            i = i + 1;
        }
        false
    }

    /// Claims the reward for `level`: refused when it was claimed before or
    /// the account has not reached that level; otherwise recorded as
    /// claimed and returned.
    pub fn claim_level_reward(&mut self, level: u32) -> (r: Option<LevelReward>)
        ensures
            claim_outcome(*old(self), *final(self), level, r),
    {
        if self.is_claimed(level) || level > self.level {
            return None;
        }
        self.level_rewards_claimed.push(level);
        Some(Self::get_level_reward(level))
    }

    /// The rewards of every level from 1 to the current one not claimed yet,
    /// in level order.
    pub fn get_pending_rewards(&self) -> (r: Vec<LevelReward>)
        ensures
            r@.len() == pending_levels(self.level, self.level_rewards_claimed@).len(),
            forall|k: int| 0 <= k < r@.len() ==>
                #[trigger] is_level_reward(r@[k], pending_levels(self.level, self.level_rewards_claimed@)[k]),
    {
        let ghost claimed = self.level_rewards_claimed@;
        let ghost levels = level_seq(self.level);
        let ghost pred = unclaimed(claimed);
        let mut r: Vec<LevelReward> = Vec::new();
        let ghost picked: Seq<u32> = Seq::empty();
        let mut i: u32 = 0;
        while i < self.level
            invariant
                i <= self.level,
                claimed == self.level_rewards_claimed@,
                levels == level_seq(self.level),
                pred == unclaimed(claimed),
                picked == levels.take(i as int).filter(pred),
                r@.len() == picked.len(),
                forall|k: int| 0 <= k < r@.len() ==> #[trigger] is_level_reward(r@[k], picked[k]),
            decreases self.level - i,
        {
            reveal_with_fuel(Seq::filter, 1);
            let l = i + 1;
            assert(levels.take(i + 1).drop_last() =~= levels.take(i as int));
            assert(levels.take(i + 1).last() == l);
            if !self.is_claimed(l) {
                r.push(Self::get_level_reward(l));
                proof { picked = picked.push(l); }
            }
            assert(picked == levels.take(i + 1).filter(pred));
            i = i + 1;
        }
        assert(levels.take(self.level as int) =~= levels);
        r
    }
}

/// The outcome of claiming the reward of `level`: refused, changing nothing,
/// when it was claimed before or the account has not reached that level;
/// otherwise the reward of that level, with the level recorded as claimed.
pub open spec fn claim_outcome(a0: AccountProgression, a1: AccountProgression, level: u32, r: Option<LevelReward>) -> bool {
    if a0.level_rewards_claimed@.contains(level) || level > a0.level {
        r is None && a1 == a0
    } else {
        &&& r is Some
        &&& is_level_reward(r->0, level)
        &&& a1.level_rewards_claimed@ == a0.level_rewards_claimed@.push(level)
        &&& a1.level == a0.level
    }
}

/// A level reward is paid at most once: of two claims of the same level, at
/// most one returns a reward.
pub proof fn law_level_reward_claimed_once(a0: AccountProgression, a1: AccountProgression, a2: AccountProgression,
    level: u32, r1: Option<LevelReward>, r2: Option<LevelReward>)
    requires
        claim_outcome(a0, a1, level, r1),
        claim_outcome(a1, a2, level, r2),
    ensures
        !(r1 is Some && r2 is Some),
{
    if r1 is Some {
        assert(a1.level_rewards_claimed@[a0.level_rewards_claimed@.len() as int] == level);
    }
}

// ---------------------------------------------------------------------------
// Prestige
// ---------------------------------------------------------------------------

/// Bonuses a prestige level grants before any upgrade is bought.
pub open spec fn base_bonuses(b: PrestigeBonuses, level: u32) -> bool {
    &&& b.xp_multiplier == 100 + 5 * level
    &&& b.currency_multiplier == 100 + 10 * level
    &&& b.damage_bonus == 2 * level
    &&& b.health_bonus == 3 * level
    &&& b.start_with_currency == 100 * level
    &&& b.extra_skill_points == level / 5
}

/// The milestone reward of a prestige level: its name, the text that
/// describes it and what it grants.
pub open spec fn milestone(level: u32) -> Option<(Seq<char>, Seq<char>, int, Seq<char>)> {
    if level == 1 {
        Some(("First Prestige"@, "You've ascended for the first time"@, 1, "Prestige Aura"@))
    } else if level == 5 {
        Some(("Prestige Veteran"@, "Five times and counting"@, 2, "Prestige Skin Tier 1"@))
    } else if level == 10 {
        Some(("Prestige Master"@, "A true master of the grind"@, 2, "Prestige Skin Tier 2"@))
    } else if level == 25 {
        Some(("Prestige Legend"@, "Legendary dedication"@, 2, "Prestige Skin Tier 3"@))
    } else if level == 50 {
        Some(("Prestige God"@, "Unmatched commitment"@, 0, "Secret Character"@))
    } else {
        None
    }
}

/// `r` is the milestone reward of prestige level `level`, whose kind is
/// 0 for a character, 1 for a modifier and 2 for a skin.
pub open spec fn is_milestone(r: PrestigeReward, level: u32) -> bool {
    match milestone(level) {
        Some((name, desc, kind, what)) => {
            &&& r.prestige_level == level
            &&& r.name@ == name
            &&& r.description@ == desc
            &&& match r.reward_type {
                PrestigeRewardType::UnlockCharacter(s) => kind == 0 && s@ == what,
                PrestigeRewardType::UnlockModifier(s) => kind == 1 && s@ == what,
                PrestigeRewardType::UnlockSkin(s) => kind == 2 && s@ == what,
                _ => false,
            }
        },
        None => false,
    }
}

impl PrestigeRewardType {
    fn duplicate(&self) -> (r: PrestigeRewardType)
        ensures
            r == *self,
    {
        match self {
            PrestigeRewardType::XPMultiplier(v) => PrestigeRewardType::XPMultiplier(*v),
            PrestigeRewardType::CurrencyMultiplier(v) => PrestigeRewardType::CurrencyMultiplier(*v),
            PrestigeRewardType::DamageBonus(v) => PrestigeRewardType::DamageBonus(*v),
            PrestigeRewardType::HealthBonus(v) => PrestigeRewardType::HealthBonus(*v),
            PrestigeRewardType::StartingCurrency(v) => PrestigeRewardType::StartingCurrency(*v),
            PrestigeRewardType::SkillPoints(v) => PrestigeRewardType::SkillPoints(*v),
            PrestigeRewardType::UnlockCharacter(s) => PrestigeRewardType::UnlockCharacter(s.clone()),
            PrestigeRewardType::UnlockModifier(s) => PrestigeRewardType::UnlockModifier(s.clone()),
            PrestigeRewardType::UnlockSkin(s) => PrestigeRewardType::UnlockSkin(s.clone()),
        }
    }
}

impl PrestigeReward {
    /// A copy of this reward.
    pub fn duplicate(&self) -> (r: PrestigeReward)
        ensures
            r == *self,
    {
        PrestigeReward {
            prestige_level: self.prestige_level,
            name: self.name.clone(),
            description: self.description.clone(),
            reward_type: self.reward_type.duplicate(),
        }
    }
}

impl PrestigeBonuses {
    /// No bonus: multipliers at ×1.00.
    pub fn default() -> (b: PrestigeBonuses)
        ensures
            base_bonuses(b, 0),
            b.unlock_modifiers@.len() == 0,
    {
        PrestigeBonuses {
            xp_multiplier: 100,
            currency_multiplier: 100,
            damage_bonus: 0,
            health_bonus: 0,
            start_with_currency: 0,
            extra_skill_points: 0,
            unlock_modifiers: Vec::new(),
        }
    }
}

fn milestone_reward(level: u32, name: &str, description: &str, reward_type: PrestigeRewardType) -> (r: PrestigeReward)
    ensures
        r.prestige_level == level,
        r.name@ == name@,
        r.description@ == description@,
        r.reward_type == reward_type,
{
    PrestigeReward { prestige_level: level, name: String::from_str(name), description: String::from_str(description), reward_type }
}

impl PrestigeSystem {
    /// No prestige yet.
    pub fn new() -> (p: PrestigeSystem)
        ensures
            p.prestige_level == 0,
            p.total_prestiges == 0,
            p.prestige_currency == 0,
            base_bonuses(p.permanent_bonuses, 0),
            p.permanent_bonuses.unlock_modifiers@.len() == 0,
            p.prestige_rewards_unlocked@.len() == 0,
    {
        PrestigeSystem {
            prestige_level: 0,
            total_prestiges: 0,
            prestige_currency: 0,
            permanent_bonuses: PrestigeBonuses::default(),
            prestige_rewards_unlocked: Vec::new(),
        }
    }

    /// An account may prestige from level 100 on.
    pub fn can_prestige(&self, account_level: u32) -> (r: bool)
        ensures
            r == (account_level >= 100),
    {
        account_level >= 100
    }

    /// Sets the bonuses that the current prestige level grants.
    fn apply_prestige_bonuses(&mut self)
        requires
            100 * old(self).prestige_level <= u32::MAX,
        ensures
            base_bonuses(final(self).permanent_bonuses, old(self).prestige_level),
            final(self).permanent_bonuses.unlock_modifiers == old(self).permanent_bonuses.unlock_modifiers,
            final(self).prestige_level == old(self).prestige_level,
            final(self).total_prestiges == old(self).total_prestiges,
            final(self).prestige_currency == old(self).prestige_currency,
            final(self).prestige_rewards_unlocked == old(self).prestige_rewards_unlocked,
    {
        let level = self.prestige_level;
        self.permanent_bonuses.xp_multiplier = 100 + 5 * level;
        self.permanent_bonuses.currency_multiplier = 100 + 10 * level;
        self.permanent_bonuses.damage_bonus = 2 * level;
        self.permanent_bonuses.health_bonus = 3 * level;
        self.permanent_bonuses.start_with_currency = 100 * level;
        self.permanent_bonuses.extra_skill_points = level / 5;
    }

    /// Records and returns the milestone reward of the current prestige
    /// level, if it has one.
    fn check_prestige_rewards(&mut self) -> (r: Option<PrestigeReward>)
        ensures
            match milestone(old(self).prestige_level) {
                Some(_) => r is Some && is_milestone(r->0, old(self).prestige_level)
                    && final(self).prestige_rewards_unlocked@ == old(self).prestige_rewards_unlocked@.push(r->0),
                None => r is None && final(self).prestige_rewards_unlocked@ == old(self).prestige_rewards_unlocked@,
            },
            final(self).prestige_level == old(self).prestige_level,
            final(self).total_prestiges == old(self).total_prestiges,
            final(self).prestige_currency == old(self).prestige_currency,
            final(self).permanent_bonuses == old(self).permanent_bonuses,
    {
        let level = self.prestige_level;
        let reward = if level == 1 {
            Some(milestone_reward(1, "First Prestige", "You've ascended for the first time",
                PrestigeRewardType::UnlockModifier(String::from_str("Prestige Aura"))))
        } else if level == 5 {
            Some(milestone_reward(5, "Prestige Veteran", "Five times and counting",
                PrestigeRewardType::UnlockSkin(String::from_str("Prestige Skin Tier 1"))))
        } else if level == 10 {
            Some(milestone_reward(10, "Prestige Master", "A true master of the grind",
                PrestigeRewardType::UnlockSkin(String::from_str("Prestige Skin Tier 2"))))
        } else if level == 25 {
            Some(milestone_reward(25, "Prestige Legend", "Legendary dedication",
                PrestigeRewardType::UnlockSkin(String::from_str("Prestige Skin Tier 3"))))
        } else if level == 50 {
            Some(milestone_reward(50, "Prestige God", "Unmatched commitment",
                PrestigeRewardType::UnlockCharacter(String::from_str("Secret Character"))))
        } else {
            None
        };
        if let Some(ref r) = reward {
            self.prestige_rewards_unlocked.push(r.duplicate());
        }
        reward
    }

    /// Prestiges the account: refused below level 100. Otherwise the
    /// prestige level rises by one, `100` times the new level in prestige
    /// currency is granted, the account returns to level 1 with no level
    /// reward claimed, the bonuses become those of the new prestige level,
    /// and its milestone reward, if any, is unlocked and returned.
    pub fn prestige(&mut self, account_progression: &mut AccountProgression) -> (r: PrestigeResult)
        requires
            old(self).prestige_level < u32::MAX,
            old(self).total_prestiges < u32::MAX,
            old(self).prestige_currency + 100 * (old(self).prestige_level + 1) <= u32::MAX,
        ensures
            if old(account_progression).level < 100 {
                &&& r is NotEligible
                &&& *final(self) == *old(self)
                &&& *final(account_progression) == *old(account_progression)
            } else {
                let n = old(self).prestige_level + 1;
                &&& final(self).prestige_level == n
                &&& final(self).total_prestiges == old(self).total_prestiges + 1
                &&& final(self).prestige_currency == old(self).prestige_currency + 100 * n
                &&& base_bonuses(final(self).permanent_bonuses, n as u32)
                &&& final(account_progression).level == 1
                &&& final(account_progression).level_rewards_claimed@.len() == 0
                &&& final(account_progression).total_games_played == old(account_progression).total_games_played
                &&& match r {
                    PrestigeResult::Success { prestige_level, currency_gained, reward } => {
                        &&& prestige_level == n
                        &&& currency_gained == 100 * n
                        &&& match milestone(n as u32) {
                            Some(_) => reward is Some && is_milestone(reward->0, n as u32)
                                && final(self).prestige_rewards_unlocked@ == old(self).prestige_rewards_unlocked@.push(reward->0),
                            None => reward is None
                                && final(self).prestige_rewards_unlocked@ == old(self).prestige_rewards_unlocked@,
                        }
                    },
                    PrestigeResult::NotEligible => false,
                }
            },
    {
        if !self.can_prestige(account_progression.level) {
            return PrestigeResult::NotEligible;
        }
        self.prestige_level = self.prestige_level + 1;
        self.total_prestiges = self.total_prestiges + 1;
        let currency_gained = 100 * self.prestige_level;
        self.prestige_currency = self.prestige_currency + currency_gained;
        account_progression.level = 1;
        account_progression.level_rewards_claimed.clear();
        self.apply_prestige_bonuses();
        let reward = self.check_prestige_rewards();
        PrestigeResult::Success { prestige_level: self.prestige_level, currency_gained, reward }
    }

    /// Buys a permanent upgrade with prestige currency: refused, changing
    /// nothing, when the currency does not cover its cost; otherwise the cost
    /// is paid and the upgrade applied.
    pub fn buy_prestige_upgrade(&mut self, upgrade: PrestigeUpgrade) -> (bought: bool)
        requires
            upgrade_fits(old(self).permanent_bonuses, upgrade),
        ensures
            bought == (old(self).prestige_currency >= upgrade_cost(upgrade)),
            bought ==> final(self).prestige_currency == old(self).prestige_currency - upgrade_cost(upgrade)
                && upgraded(old(self).permanent_bonuses, final(self).permanent_bonuses, upgrade),
            !bought ==> *final(self) == *old(self),
            final(self).prestige_level == old(self).prestige_level,
            final(self).prestige_rewards_unlocked == old(self).prestige_rewards_unlocked,
    {
        let cost = upgrade.cost();
        if self.prestige_currency < cost {
            return false;
        }
        self.prestige_currency = self.prestige_currency - cost;
        upgrade.apply(&mut self.permanent_bonuses);
        true
    }

    /// Every upgrade on offer.
    pub fn get_available_upgrades(&self) -> (v: Vec<PrestigeUpgrade>)
        ensures
            v@ == seq![
                PrestigeUpgrade::XPBoost,
                PrestigeUpgrade::CurrencyBoost,
                PrestigeUpgrade::DamageBoost,
                PrestigeUpgrade::HealthBoost,
                PrestigeUpgrade::StartingCurrency,
                PrestigeUpgrade::SkillPoint,
            ],
    {
        let mut v: Vec<PrestigeUpgrade> = Vec::new();
        v.push(PrestigeUpgrade::XPBoost);
        v.push(PrestigeUpgrade::CurrencyBoost);
        v.push(PrestigeUpgrade::DamageBoost);
        v.push(PrestigeUpgrade::HealthBoost);
        v.push(PrestigeUpgrade::StartingCurrency);
        v.push(PrestigeUpgrade::SkillPoint);
        v
    }
}

/// The price of an upgrade in prestige currency.
pub open spec fn upgrade_cost(u: PrestigeUpgrade) -> u32 {
    match u {
        PrestigeUpgrade::XPBoost => 50,
        PrestigeUpgrade::CurrencyBoost => 75,
        PrestigeUpgrade::DamageBoost => 100,
        PrestigeUpgrade::HealthBoost => 100,
        PrestigeUpgrade::StartingCurrency => 50,
        PrestigeUpgrade::SkillPoint => 200,
    }
}

/// The increment an upgrade adds to the one bonus it raises.
pub open spec fn upgrade_step(u: PrestigeUpgrade) -> int {
    match u {
        PrestigeUpgrade::XPBoost => 5,
        PrestigeUpgrade::CurrencyBoost => 10,
        PrestigeUpgrade::DamageBoost => 2,
        PrestigeUpgrade::HealthBoost => 3,
        PrestigeUpgrade::StartingCurrency => 100,
        PrestigeUpgrade::SkillPoint => 1,
    }
}

/// The bonus an upgrade raises.
pub open spec fn upgraded_field(b: PrestigeBonuses, u: PrestigeUpgrade) -> u32 {
    match u {
        PrestigeUpgrade::XPBoost => b.xp_multiplier,
        PrestigeUpgrade::CurrencyBoost => b.currency_multiplier,
        PrestigeUpgrade::DamageBoost => b.damage_bonus,
        PrestigeUpgrade::HealthBoost => b.health_bonus,
        PrestigeUpgrade::StartingCurrency => b.start_with_currency,
        PrestigeUpgrade::SkillPoint => b.extra_skill_points,
    }
}

/// Applying the upgrade keeps its bonus within `u32`.
pub open spec fn upgrade_fits(b: PrestigeBonuses, u: PrestigeUpgrade) -> bool {
    upgraded_field(b, u) + upgrade_step(u) <= u32::MAX
}

/// `b1` is `b0` with the bonus of `u` raised by its step, the rest unchanged.
pub open spec fn upgraded(b0: PrestigeBonuses, b1: PrestigeBonuses, u: PrestigeUpgrade) -> bool {
    &&& upgraded_field(b1, u) == upgraded_field(b0, u) + upgrade_step(u)
    &&& forall|v: PrestigeUpgrade| v != u ==> upgraded_field(b1, v) == upgraded_field(b0, v)
    &&& b1.unlock_modifiers == b0.unlock_modifiers
}

impl PrestigeUpgrade {
    /// The price in prestige currency.
    pub fn cost(&self) -> (c: u32)
        ensures
            c == upgrade_cost(*self),
    {
        match self {
            PrestigeUpgrade::XPBoost => 50,
            PrestigeUpgrade::CurrencyBoost => 75,
            PrestigeUpgrade::DamageBoost => 100,
            PrestigeUpgrade::HealthBoost => 100,
            PrestigeUpgrade::StartingCurrency => 50,
            PrestigeUpgrade::SkillPoint => 200,
        }
    }

    /// Raises the bonus this upgrade is for by its step.
    pub fn apply(&self, bonuses: &mut PrestigeBonuses)
        requires
            upgrade_fits(*old(bonuses), *self),
        ensures
            upgraded(*old(bonuses), *final(bonuses), *self),
    {
        match self {
            PrestigeUpgrade::XPBoost => bonuses.xp_multiplier = bonuses.xp_multiplier + 5,
            PrestigeUpgrade::CurrencyBoost => bonuses.currency_multiplier = bonuses.currency_multiplier + 10,
            PrestigeUpgrade::DamageBoost => bonuses.damage_bonus = bonuses.damage_bonus + 2,
            PrestigeUpgrade::HealthBoost => bonuses.health_bonus = bonuses.health_bonus + 3,
            PrestigeUpgrade::StartingCurrency => bonuses.start_with_currency = bonuses.start_with_currency + 100,
            PrestigeUpgrade::SkillPoint => bonuses.extra_skill_points = bonuses.extra_skill_points + 1,
        }
    }

    /// The upgrade's display name.
    pub fn name(&self) -> (s: &'static str)
        ensures
            s@ == match *self {
                PrestigeUpgrade::XPBoost => "XP Boost"@,
                PrestigeUpgrade::CurrencyBoost => "Currency Boost"@,
                PrestigeUpgrade::DamageBoost => "Damage Boost"@,
                PrestigeUpgrade::HealthBoost => "Health Boost"@,
                PrestigeUpgrade::StartingCurrency => "Starting Currency"@,
                PrestigeUpgrade::SkillPoint => "Skill Point"@,
            },
    {
        match self {
            PrestigeUpgrade::XPBoost => "XP Boost",
            PrestigeUpgrade::CurrencyBoost => "Currency Boost",
            PrestigeUpgrade::DamageBoost => "Damage Boost",
            PrestigeUpgrade::HealthBoost => "Health Boost",
            PrestigeUpgrade::StartingCurrency => "Starting Currency",
            PrestigeUpgrade::SkillPoint => "Skill Point",
        }
    }

    /// What the upgrade does, for display.
    pub fn description(&self) -> (s: &'static str)
        ensures
            s@ == match *self {
                PrestigeUpgrade::XPBoost => "Increase XP gain by 5% (stacks)"@,
                PrestigeUpgrade::CurrencyBoost => "Increase currency gain by 10% (stacks)"@,
                PrestigeUpgrade::DamageBoost => "Increase base damage by 2% (stacks)"@,
                PrestigeUpgrade::HealthBoost => "Increase base health by 3% (stacks)"@,
                PrestigeUpgrade::StartingCurrency => "Start each run with +100 currency (stacks)"@,
                PrestigeUpgrade::SkillPoint => "Gain +1 skill point for all characters (stacks)"@,
            },
    {
        match self {
            PrestigeUpgrade::XPBoost => "Increase XP gain by 5% (stacks)",
            PrestigeUpgrade::CurrencyBoost => "Increase currency gain by 10% (stacks)",
            PrestigeUpgrade::DamageBoost => "Increase base damage by 2% (stacks)",
            PrestigeUpgrade::HealthBoost => "Increase base health by 3% (stacks)",
            PrestigeUpgrade::StartingCurrency => "Start each run with +100 currency (stacks)",
            PrestigeUpgrade::SkillPoint => "Gain +1 skill point for all characters (stacks)",
        }
    }
}

} // verus!

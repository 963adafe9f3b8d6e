use bas_veeg_arc::data::characters::CharacterId;
use bas_veeg_arc::progression::account_level::{
    AccountProgression, PrestigeResult, PrestigeRewardType, PrestigeSystem, PrestigeUpgrade,
};
use bas_veeg_arc::progression::achievements::{AchievementCategory, AchievementManager, AchievementReward};
use bas_veeg_arc::progression::challenges::{
    select_challenges, Challenge, ChallengeDifficulty, ChallengeManager, ChallengeReward, ChallengeType,
};
use bas_veeg_arc::progression::character_mastery::{
    CharacterMastery, GameStats, MasteryManager, MasteryRank, MasteryReward,
};
use bas_veeg_arc::progression::skill_tree::SkillTreeManager;

// ---------------------------------------------------------------------------
// Account level
// ---------------------------------------------------------------------------

#[test]
fn new_account() {
    let a = AccountProgression::new();
    assert_eq!(a.level, 1);
    assert_eq!(a.total_games_played, 0);
    assert_eq!(a.profile_title, "Newcomer");
    assert_eq!(a.profile_banner, "Default");
    assert!(a.level_rewards_claimed.is_empty());
}

#[test]
fn level_rewards_by_level() {
    let r = AccountProgression::get_level_reward(5);
    assert_eq!((r.level, r.currency, r.skill_points), (5, 100, 1));
    assert_eq!(r.cosmetic, None);
    let r = AccountProgression::get_level_reward(50);
    assert_eq!((r.currency, r.skill_points), (1000, 1));
    let r = AccountProgression::get_level_reward(60);
    assert_eq!((r.currency, r.skill_points), (500, 2));
    assert_eq!(r.cosmetic.as_deref(), Some("Banner Lvl 60"));
    let r = AccountProgression::get_level_reward(100);
    assert_eq!((r.currency, r.skill_points), (2000, 5));
    assert_eq!(r.cosmetic.as_deref(), Some("Master Banner"));
    let r = AccountProgression::get_level_reward(125);
    assert_eq!((r.currency, r.skill_points), (1000, 3));
    assert_eq!(r.cosmetic.as_deref(), Some("Legendary Banner 125"));
    let r = AccountProgression::get_level_reward(55);
    assert_eq!((r.currency, r.skill_points), (50, 0));
    assert_eq!(r.cosmetic, None);
    let r = AccountProgression::get_level_reward(7);
    assert_eq!((r.currency, r.skill_points), (50, 0));
}

#[test]
fn level_reward_claimed_once() {
    let mut a = AccountProgression::new();
    let r = a.claim_level_reward(1).expect("level 1 is reached");
    assert_eq!(r.currency, 50);
    assert!(a.claim_level_reward(1).is_none());
    assert_eq!(a.level_rewards_claimed, vec![1]);
}

#[test]
fn level_reward_needs_the_level() {
    let mut a = AccountProgression::new();
    assert!(a.claim_level_reward(5).is_none());
    for _ in 0..4 {
        a.gain_level();
    }
    assert_eq!(a.level, 5);
    let r = a.claim_level_reward(5).expect("level 5 is reached");
    assert_eq!((r.currency, r.skill_points), (100, 1));
}

#[test]
fn pending_rewards_skip_claimed_levels() {
    let mut a = AccountProgression::new();
    a.claim_level_reward(1);
    assert!(a.get_pending_rewards().is_empty());
    for _ in 0..4 {
        a.gain_level();
    }
    a.claim_level_reward(3);
    let pending = a.get_pending_rewards();
    let levels: Vec<u32> = pending.iter().map(|r| r.level).collect();
    assert_eq!(levels, vec![2, 4, 5]);
    let currencies: Vec<u32> = pending.iter().map(|r| r.currency).collect();
    assert_eq!(currencies, vec![50, 50, 100]);
}

#[test]
fn games_and_playtime_are_counted() {
    let mut a = AccountProgression::new();
    a.record_game(true);
    a.record_game(false);
    a.record_game(true);
    assert_eq!((a.total_games_played, a.total_wins, a.total_losses), (3, 2, 1));
    a.add_playtime(90);
    a.add_playtime(30);
    assert_eq!(a.total_playtime_seconds, 120);
}

#[test]
fn prestige_needs_level_100() {
    let mut p = PrestigeSystem::new();
    let mut a = AccountProgression::new();
    assert!(!p.can_prestige(99));
    assert!(p.can_prestige(100));
    assert!(matches!(p.prestige(&mut a), PrestigeResult::NotEligible));
    assert_eq!(p.prestige_level, 0);
    assert_eq!(p.prestige_currency, 0);
    assert_eq!(a.level, 1);
}

#[test]
fn first_prestige() {
    let mut p = PrestigeSystem::new();
    let mut a = AccountProgression::new();
    a.level = 120;
    a.level_rewards_claimed = vec![1, 5, 10];
    match p.prestige(&mut a) {
        PrestigeResult::Success { prestige_level, currency_gained, reward } => {
            assert_eq!(prestige_level, 1);
            assert_eq!(currency_gained, 100);
            let reward = reward.expect("the first prestige is a milestone");
            assert_eq!(reward.name, "First Prestige");
            assert!(matches!(reward.reward_type, PrestigeRewardType::UnlockModifier(ref m) if m == "Prestige Aura"));
        },
        PrestigeResult::NotEligible => panic!("level 120 may prestige"),
    }
    assert_eq!(a.level, 1);
    assert!(a.level_rewards_claimed.is_empty());
    assert_eq!(p.prestige_level, 1);
    assert_eq!(p.total_prestiges, 1);
    assert_eq!(p.prestige_currency, 100);
    let b = &p.permanent_bonuses;
    assert_eq!((b.xp_multiplier, b.currency_multiplier, b.damage_bonus, b.health_bonus), (105, 110, 2, 3));
    assert_eq!((b.start_with_currency, b.extra_skill_points), (100, 0));
    assert_eq!(p.prestige_rewards_unlocked.len(), 1);
}

#[test]
fn second_prestige_has_no_milestone() {
    let mut p = PrestigeSystem::new();
    let mut a = AccountProgression::new();
    a.level = 100;
    p.prestige(&mut a);
    a.level = 100;
    match p.prestige(&mut a) {
        PrestigeResult::Success { prestige_level, currency_gained, reward } => {
            assert_eq!((prestige_level, currency_gained), (2, 200));
            assert!(reward.is_none());
        },
        PrestigeResult::NotEligible => panic!("level 100 may prestige"),
    }
    assert_eq!(p.prestige_currency, 300);
    assert_eq!(p.permanent_bonuses.xp_multiplier, 110);
}

#[test]
fn prestige_upgrades_cost_currency() {
    let mut p = PrestigeSystem::new();
    p.prestige_currency = 125;
    assert!(p.buy_prestige_upgrade(PrestigeUpgrade::XPBoost));
    assert_eq!(p.prestige_currency, 75);
    assert_eq!(p.permanent_bonuses.xp_multiplier, 105);
    assert!(!p.buy_prestige_upgrade(PrestigeUpgrade::SkillPoint));
    assert_eq!(p.prestige_currency, 75);
    assert_eq!(p.permanent_bonuses.extra_skill_points, 0);
    assert!(p.buy_prestige_upgrade(PrestigeUpgrade::CurrencyBoost));
    assert_eq!(p.prestige_currency, 0);
    assert_eq!(p.permanent_bonuses.currency_multiplier, 110);
}

#[test]
fn prestige_upgrade_catalogue() {
    let p = PrestigeSystem::new();
    let all = p.get_available_upgrades();
    assert_eq!(all.len(), 6);
    assert_eq!(all[0], PrestigeUpgrade::XPBoost);
    assert_eq!(all[5], PrestigeUpgrade::SkillPoint);
    assert_eq!(PrestigeUpgrade::SkillPoint.cost(), 200);
    assert_eq!(PrestigeUpgrade::CurrencyBoost.cost(), 75);
    assert_eq!(PrestigeUpgrade::StartingCurrency.name(), "Starting Currency");
    assert_eq!(PrestigeUpgrade::XPBoost.description(), "Increase XP gain by 5% (stacks)");
    assert_eq!(PrestigeUpgrade::HealthBoost.description(), "Increase base health by 3% (stacks)");
}

// ---------------------------------------------------------------------------
// Achievements
// ---------------------------------------------------------------------------

#[test]
fn achievements_start_locked() {
    let m = AchievementManager::new();
    assert_eq!(m.total_count(), 36);
    assert_eq!(m.unlocked_count(), 0);
    assert_eq!(m.get_all().len(), 36);
    assert!(m.get_unlocked().is_empty());
    let a = m.get("first_blood").expect("known achievement");
    assert_eq!(a.progress, 0);
    assert_eq!(a.max_progress, 1);
    assert!(m.get("no_such_achievement").is_none());
}

#[test]
fn achievement_unlocks_and_pays_once() {
    let mut m = AchievementManager::new();
    let r = m.update_progress("first_blood", 1, 1_700_000_000);
    assert!(matches!(r, Some(AchievementReward::Currency(50))));
    let a = m.get("first_blood").unwrap();
    assert!(a.unlocked);
    assert_eq!(a.unlock_timestamp, Some(1_700_000_000));
    assert_eq!(m.unlocked_count(), 1);
    assert!(m.update_progress("first_blood", 5, 1_700_000_100).is_none());
    assert_eq!(m.unlocked_count(), 1);
    let unlocked = m.get_unlocked();
    assert_eq!(unlocked.len(), 1);
    assert_eq!(unlocked[0].id, "first_blood");
}

#[test]
fn achievement_progress_never_drops() {
    let mut m = AchievementManager::new();
    assert!(m.update_progress("killing_spree", 40, 10).is_none());
    assert_eq!(m.get("killing_spree").unwrap().progress, 40);
    assert!(m.update_progress("killing_spree", 30, 11).is_none());
    assert_eq!(m.get("killing_spree").unwrap().progress, 40);
    let r = m.update_progress("killing_spree", 100, 12);
    assert!(matches!(r, Some(AchievementReward::Currency(200))));
    assert!(m.get("killing_spree").unwrap().unlocked);
}

#[test]
fn achievement_unknown_id_changes_nothing() {
    let mut m = AchievementManager::new();
    assert!(m.update_progress("nope", 10, 1).is_none());
    assert_eq!(m.unlocked_count(), 0);
}

#[test]
fn achievements_by_category() {
    let m = AchievementManager::new();
    let secret = m.get_by_category(AchievementCategory::Secret);
    assert!(!secret.is_empty());
    assert!(secret.iter().all(|a| a.category == AchievementCategory::Secret && a.hidden));
    let combat = m.get_by_category(AchievementCategory::Combat);
    assert_eq!(combat.len(), 11);
    assert_eq!(combat[0].id, "first_blood");
    assert_eq!(AchievementCategory::Combat.to_string(), "Combat");
    assert_eq!(AchievementCategory::Secret.to_string(), "Secret");
}

// ---------------------------------------------------------------------------
// Challenges
// ---------------------------------------------------------------------------

fn challenge(id: &str, challenge_type: ChallengeType, max_progress: u32, reward: ChallengeReward) -> Challenge {
    Challenge {
        id: id.to_string(),
        name: id.to_string(),
        description: String::new(),
        challenge_type,
        difficulty: ChallengeDifficulty::Easy,
        progress: 0,
        max_progress,
        reward,
        is_daily: true,
        expires_at: 86_400,
    }
}

fn manager_with(daily: Vec<Challenge>) -> ChallengeManager {
    ChallengeManager {
        daily_challenges: daily,
        weekly_challenges: Vec::new(),
        completed_daily: Vec::new(),
        completed_weekly: Vec::new(),
        last_daily_reset: 0,
        last_weekly_reset: 0,
        streak_days: 0,
        total_challenges_completed: 0,
    }
}

#[test]
fn selection_follows_the_draws() {
    let templates = vec![
        challenge("a", ChallengeType::WinCoopGame, 1, ChallengeReward::Currency(1)),
        challenge("b", ChallengeType::WinCoopGame, 1, ChallengeReward::Currency(2)),
        challenge("c", ChallengeType::WinCoopGame, 1, ChallengeReward::Currency(3)),
    ];
    let picked = select_challenges(templates, 2, &vec![2, 1, 2]);
    let ids: Vec<&str> = picked.iter().map(|c| c.id.as_str()).collect();
    assert_eq!(ids, vec!["c", "b"]);
}

#[test]
fn selection_takes_all_when_few() {
    let templates = vec![
        challenge("a", ChallengeType::WinCoopGame, 1, ChallengeReward::Currency(1)),
        challenge("b", ChallengeType::WinCoopGame, 1, ChallengeReward::Currency(2)),
    ];
    let picked = select_challenges(templates, 5, &vec![1, 1]);
    let ids: Vec<&str> = picked.iter().map(|c| c.id.as_str()).collect();
    assert_eq!(ids, vec!["b", "a"]);
}

#[test]
fn new_challenge_manager() {
    let now = 1_000_000;
    let m = ChallengeManager::new(now);
    assert_eq!(m.daily_challenges.len(), 3);
    assert_eq!(m.weekly_challenges.len(), 5);
    assert!(m.daily_challenges.iter().all(|c| c.is_daily && c.progress == 0 && c.expires_at == now + 86_400));
    assert!(m.weekly_challenges.iter().all(|c| !c.is_daily && c.expires_at == now + 604_800));
    assert!(m.daily_challenges.iter().all(|c| c.id.starts_with("daily_")));
    assert_ne!(m.daily_challenges[0].id, m.daily_challenges[1].id);
    assert_eq!(m.time_until_daily_reset(now), 86_400);
    assert_eq!(m.time_until_daily_reset(now + 86_400), 0);
    assert_eq!(m.time_until_weekly_reset(now + 4), 604_796);
    assert_eq!(m.get_active_challenges().len(), 8);
}

#[test]
fn challenge_progress_completes_once() {
    let mut m = manager_with(vec![challenge(
        "defeat",
        ChallengeType::DefeatEnemies { count: 10, enemy_type: None },
        10,
        ChallengeReward::Currency(100),
    )]);
    let probe = ChallengeType::DefeatEnemies { count: 0, enemy_type: None };
    assert!(m.update_progress(&probe, 4).is_empty());
    assert_eq!(m.daily_challenges[0].progress, 4);
    assert!(!m.is_completed("defeat", true));
    let rewards = m.update_progress(&probe, 9);
    assert_eq!(rewards.len(), 1);
    assert!(matches!(rewards[0], ChallengeReward::Currency(100)));
    assert_eq!(m.daily_challenges[0].progress, 10);
    assert!(m.is_completed("defeat", true));
    assert!(!m.is_completed("defeat", false));
    assert_eq!(m.total_challenges_completed, 1);
    assert!(m.update_progress(&probe, 5).is_empty());
    assert_eq!(m.total_challenges_completed, 1);
}

#[test]
fn challenge_progress_ignores_other_types() {
    let mut m = manager_with(vec![challenge("combo", ChallengeType::ReachCombo { combo: 50 }, 50, ChallengeReward::XP(10))]);
    assert!(m.update_progress(&ChallengeType::DealDamage { amount: 5 }, 50).is_empty());
    assert_eq!(m.daily_challenges[0].progress, 0);
}

#[test]
fn daily_reset_extends_streak() {
    let mut m = manager_with(vec![challenge("w", ChallengeType::WinCoopGame, 1, ChallengeReward::Currency(5))]);
    m.update_progress(&ChallengeType::WinCoopGame, 1);
    m.update(86_399);
    assert_eq!(m.streak_days, 0);
    assert_eq!(m.completed_daily.len(), 1);
    m.update(86_400);
    assert_eq!(m.streak_days, 1);
    assert!(m.completed_daily.is_empty());
    assert_eq!(m.last_daily_reset, 86_400);
    assert_eq!(m.daily_challenges.len(), 3);
    m.update(2 * 86_400);
    assert_eq!(m.streak_days, 0);
}

#[test]
fn challenge_difficulty_names() {
    assert_eq!(ChallengeDifficulty::Easy.to_string(), "Easy");
    assert_eq!(ChallengeDifficulty::Expert.to_string(), "Expert");
}

// ---------------------------------------------------------------------------
// Character mastery
// ---------------------------------------------------------------------------

#[test]
fn new_mastery() {
    let m = CharacterMastery::new(CharacterId::Bas);
    assert_eq!(m.level, 1);
    assert_eq!(m.rank, MasteryRank::Bronze);
    assert_eq!(m.unlocked_skins, vec!["Default".to_string()]);
    assert_eq!(m.milestones.len(), 12);
}

#[test]
fn mastery_milestones_pay_on_their_level() {
    let mut m = CharacterMastery::new(CharacterId::Luca);
    for _ in 0..3 {
        assert!(m.gain_level().is_empty());
    }
    let r = m.gain_level();
    assert_eq!(m.level, 5);
    assert_eq!(r.len(), 1);
    assert!(matches!(r[0], MasteryReward::SkillPoints(1)));
    for _ in 0..4 {
        m.gain_level();
    }
    let r = m.gain_level();
    assert_eq!(m.level, 10);
    assert!(matches!(r[0], MasteryReward::Skin(ref s) if s == "Bronze Variant"));
    assert_eq!(m.unlocked_skins, vec!["Default".to_string(), "Bronze Variant".to_string()]);
    assert_eq!(m.rank, MasteryRank::Bronze);
    m.gain_level();
    assert_eq!(m.rank, MasteryRank::Silver);
}

#[test]
fn mastery_rank_at_the_top() {
    let mut m = CharacterMastery::new(CharacterId::Bas);
    let mut titles = 0;
    while m.level < 100 {
        let r = m.gain_level();
        titles += r.iter().filter(|x| matches!(x, MasteryReward::Title(_))).count();
    }
    assert_eq!(m.rank, MasteryRank::Master);
    assert_eq!(titles, 2);
    assert_eq!(m.unlocked_titles, vec!["Journeyman".to_string(), "Expert".to_string()]);
    assert!(m.milestones.iter().all(|x| x.unlocked));
}

#[test]
fn mastery_records_games() {
    let mut m = CharacterMastery::new(CharacterId::Bas);
    m.record_game(true, GameStats { kills: 5, deaths: 1, highest_combo: 12 });
    m.record_game(false, GameStats { kills: 2, deaths: 3, highest_combo: 8 });
    assert_eq!((m.games_played, m.games_won), (2, 1));
    assert_eq!((m.total_kills, m.total_deaths), (7, 4));
    assert_eq!(m.highest_combo, 12);
}

#[test]
fn mastery_manager() {
    let mut mm = MasteryManager::new();
    assert!(mm.get_mastery(CharacterId::Bas).is_some());
    assert!(mm.get_mastery(CharacterId::Hadi).is_none());
    assert_eq!(mm.get_total_mastery_level(), 3);
    mm.record_game(CharacterId::Luca, true, GameStats { kills: 1, deaths: 0, highest_combo: 3 });
    assert_eq!(mm.get_most_played(), Some(CharacterId::Luca));
    let r = mm.gain_level(CharacterId::Berkay);
    assert!(r.is_empty());
    assert_eq!(mm.get_total_mastery_level(), 4);
    assert!(mm.gain_level(CharacterId::Hadi).is_empty());
    assert_eq!(mm.get_total_mastery_level(), 4);
    assert_eq!(MasteryRank::Diamond.to_string(), "Diamond");
}

// ---------------------------------------------------------------------------
// Skill trees
// ---------------------------------------------------------------------------

#[test]
fn skill_unlock_errors() {
    let mut m = SkillTreeManager::new();
    assert_eq!(m.get_skill_points(CharacterId::Bas), 0);
    assert_eq!(m.unlock_skill(CharacterId::Bas, "bas_off_1"), Err("Not enough skill points".to_string()));
    assert_eq!(m.unlock_skill(CharacterId::Bas, "nope"), Err("Skill nope not found".to_string()));
    assert_eq!(
        m.unlock_skill(CharacterId::Hadi, "bas_off_1"),
        Err("No skill tree found for character Hadi".to_string())
    );
    m.add_skill_points(CharacterId::Bas, 10);
    assert_eq!(
        m.unlock_skill(CharacterId::Bas, "bas_off_3"),
        Err("Prerequisite bas_off_1 not unlocked".to_string())
    );
    assert_eq!(m.get_skill_points(CharacterId::Bas), 10);
}

#[test]
fn skill_unlock_spends_points() {
    let mut m = SkillTreeManager::new();
    m.add_skill_points(CharacterId::Bas, 10);
    assert_eq!(m.unlock_skill(CharacterId::Bas, "bas_off_1"), Ok(()));
    assert_eq!(m.get_skill_points(CharacterId::Bas), 9);
    assert_eq!(m.unlock_skill(CharacterId::Bas, "bas_off_3"), Ok(()));
    assert_eq!(m.get_skill_points(CharacterId::Bas), 7);
    let tree = m.get_tree(CharacterId::Bas).unwrap();
    let node = tree.branch_offense.nodes.iter().find(|n| n.id == "bas_off_3").unwrap();
    assert_eq!(node.current_level, 1);
    assert!(node.unlocked);
    assert_eq!(
        m.unlock_skill(CharacterId::Bas, "bas_off_5"),
        Err("Prerequisite bas_off_2 not unlocked".to_string())
    );
}

#[test]
fn skill_max_level() {
    let mut m = SkillTreeManager::new();
    m.add_skill_points(CharacterId::Luca, 6);
    for _ in 0..5 {
        assert_eq!(m.unlock_skill(CharacterId::Luca, "luca_off_1"), Ok(()));
    }
    assert_eq!(m.unlock_skill(CharacterId::Luca, "luca_off_1"), Err("Skill already at max level".to_string()));
    assert_eq!(m.get_skill_points(CharacterId::Luca), 1);
}

#[test]
fn skill_reset_refunds_everything() {
    let mut m = SkillTreeManager::new();
    m.add_skill_points(CharacterId::Bas, 10);
    m.unlock_skill(CharacterId::Bas, "bas_off_1").unwrap();
    m.unlock_skill(CharacterId::Bas, "bas_off_1").unwrap();
    m.unlock_skill(CharacterId::Bas, "bas_off_3").unwrap();
    assert_eq!(m.get_skill_points(CharacterId::Bas), 6);
    assert_eq!(m.reset_tree(CharacterId::Bas), 4);
    assert_eq!(m.get_skill_points(CharacterId::Bas), 10);
    let tree = m.get_tree(CharacterId::Bas).unwrap();
    assert!(tree.branch_offense.nodes.iter().all(|n| n.current_level == 0));
    let first = tree.branch_offense.nodes.iter().find(|n| n.id == "bas_off_1").unwrap();
    assert!(first.unlocked);
    let third = tree.branch_offense.nodes.iter().find(|n| n.id == "bas_off_3").unwrap();
    assert!(!third.unlocked);
    assert_eq!(m.reset_tree(CharacterId::Hadi), 0);
}

#[test]
fn skill_bonuses_sum_levels() {
    let mut m = SkillTreeManager::new();
    m.add_skill_points(CharacterId::Bas, 10);
    m.unlock_skill(CharacterId::Bas, "bas_off_1").unwrap();
    m.unlock_skill(CharacterId::Bas, "bas_off_1").unwrap();
    m.unlock_skill(CharacterId::Bas, "bas_off_3").unwrap();
    m.unlock_skill(CharacterId::Bas, "bas_def_1").unwrap();
    let b = m.calculate_bonuses(CharacterId::Bas);
    assert_eq!(b.damage_multiplier, 10);
    assert_eq!(b.attack_speed, 8);
    assert_eq!(b.max_health_multiplier, 8);
    assert_eq!(b.crit_chance, 0);
    assert!(b.unlocked_abilities.is_empty());
    let none = m.calculate_bonuses(CharacterId::Nitin);
    assert_eq!(none.damage_multiplier, 0);
}

// ---------------------------------------------------------------------------
// Catalogues
// ---------------------------------------------------------------------------

use bas_veeg_arc::progression::achievements::{AchievementDifficulty, AchievementRequirement};
use bas_veeg_arc::progression::skill_tree::SkillType;

#[test]
fn achievement_catalogue_entries() {
    let m = AchievementManager::new();
    let all = m.get_all();
    assert_eq!(all[0].id, "first_blood");
    assert_eq!(all[0].name, "First Blood");
    let genocide = m.get("genocide").unwrap();
    assert_eq!(genocide.difficulty, AchievementDifficulty::Expert);
    assert_eq!(genocide.max_progress, 2000);
    assert!(matches!(genocide.requirement, AchievementRequirement::DefeatEnemies(2000)));
    assert!(matches!(genocide.reward, AchievementReward::Title(ref t) if t == "The Destroyer"));
    let bas = m.get("bas_master").unwrap();
    assert!(matches!(bas.requirement, AchievementRequirement::MasteryLevel(ref c, 100) if c == "Bas"));
    let konami = m.get("konami_code").unwrap();
    assert!(konami.hidden);
    assert_eq!(konami.category, AchievementCategory::Secret);
    assert_eq!(all[35].id, "konami_code");
}

#[test]
fn skill_tree_catalogue_entries() {
    let m = SkillTreeManager::new();
    let bas = m.get_tree(CharacterId::Bas).unwrap();
    assert_eq!(bas.branch_offense.name, "Veeg Master");
    assert_eq!(bas.branch_utility.nodes.len(), 7);
    let vortex = &bas.branch_offense.nodes[6];
    assert_eq!(vortex.id, "bas_off_7");
    assert_eq!((vortex.tier, vortex.max_level, vortex.skill_point_cost), (5, 1, 5));
    assert_eq!(vortex.prerequisites, vec!["bas_off_6".to_string()]);
    assert!(matches!(vortex.skill_type, SkillType::UnlockAbility(ref a) if a == "VeegVortex"));
    let double = &bas.branch_utility.nodes[6];
    assert_eq!(double.prerequisites, vec!["bas_util_5".to_string(), "bas_util_6".to_string()]);
    let luca = m.get_tree(CharacterId::Luca).unwrap();
    assert_eq!(luca.branch_defense.name, "Ice Armor");
    assert!(matches!(luca.branch_utility.nodes[0].skill_type, SkillType::MovementSpeed(7)));
    assert!(m.get_tree(CharacterId::Nitin).is_none());
}

#[test]
fn drawn_challenges_come_from_the_templates() {
    let m = ChallengeManager::new(5_000);
    for c in &m.daily_challenges {
        match c.id.as_str() {
            "daily_defeat_30" => {
                assert_eq!(c.max_progress, 30);
                assert!(matches!(c.reward, ChallengeReward::Currency(150)));
            },
            "daily_combo_50" => assert_eq!(c.difficulty, ChallengeDifficulty::Medium),
            "daily_wave_10" => assert!(matches!(c.challenge_type, ChallengeType::CompleteWave { wave: 10, ref mode } if mode == "Story")),
            "daily_no_damage" => assert!(matches!(c.reward, ChallengeReward::Multiple(ref v) if v.len() == 2)),
            "daily_damage_5k" => assert_eq!(c.max_progress, 5000),
            "daily_perfect_parries" => assert_eq!(c.difficulty, ChallengeDifficulty::Hard),
            "daily_coop" => assert!(matches!(c.challenge_type, ChallengeType::WinCoopGame)),
            other => panic!("unexpected daily challenge {}", other),
        }
    }
    for c in &m.weekly_challenges {
        assert!(c.id.starts_with("weekly_"));
        if c.id == "weekly_survival_10min" {
            assert_eq!(c.max_progress, 600);
        }
    }
}

#[test]
fn mastery_milestone_catalogue() {
    let m = CharacterMastery::new(CharacterId::Hadi);
    let levels: Vec<u32> = m.milestones.iter().map(|x| x.level).collect();
    assert_eq!(levels, vec![5, 10, 15, 25, 30, 40, 50, 60, 75, 85, 99, 100]);
    assert_eq!(m.milestones[4].name, "Journeyman");
    assert!(matches!(m.milestones[9].reward, MasteryReward::SkillPoints(5)));
    assert!(matches!(m.milestones[11].reward, MasteryReward::Skin(ref s) if s == "Master Skin"));
}

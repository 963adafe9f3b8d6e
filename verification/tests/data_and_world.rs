use bas_veeg_arc::data::characters::CharacterId;
use bas_veeg_arc::data::game_state::{
    clear_coop_players, get_coop_players, get_selected_character, set_coop_players, set_selected_character,
    GameState,
};
use bas_veeg_arc::data::save::{Difficulty, StoryProgress, Unlocks};
use bas_veeg_arc::data::shop::{ShopData, ShopManager, UpgradeId};
use bas_veeg_arc::ecs::comp::{CharacterType, Team};
use bas_veeg_arc::ecs::world::{EntityId, World};

#[test]
fn shop_starts_empty() {
    let shop = ShopManager::with_data(ShopData::default());
    assert_eq!(shop.currency(), 0);
    assert!(shop.owned_upgrades().is_empty());
    assert!(!shop.has_upgrade(UpgradeId::AttackBoost));
}

#[test]
fn shop_purchase_pays_and_records() {
    let mut shop = ShopManager::with_data(ShopData::default());
    shop.add_currency(100);
    assert!(shop.try_purchase(UpgradeId::AttackBoost, 60));
    assert_eq!(shop.currency(), 40);
    assert!(shop.has_upgrade(UpgradeId::AttackBoost));
    assert_eq!(shop.owned_upgrades(), &[UpgradeId::AttackBoost]);
}

#[test]
fn shop_upgrade_is_bought_once() {
    let mut shop = ShopManager::with_data(ShopData { currency: 500, owned_upgrades: Vec::new() });
    assert!(shop.try_purchase(UpgradeId::SpeedBoost, 100));
    assert!(!shop.try_purchase(UpgradeId::SpeedBoost, 100));
    assert_eq!(shop.currency(), 400);
    assert_eq!(shop.owned_upgrades(), &[UpgradeId::SpeedBoost]);
}

#[test]
fn shop_refuses_without_funds() {
    let mut shop = ShopManager::with_data(ShopData { currency: 59, owned_upgrades: Vec::new() });
    assert!(!shop.try_purchase(UpgradeId::HealthBoost, 60));
    assert_eq!(shop.currency(), 59);
    assert!(!shop.has_upgrade(UpgradeId::HealthBoost));
    assert!(shop.try_purchase(UpgradeId::HealthBoost, 59));
    assert_eq!(shop.currency(), 0);
}

#[test]
fn shop_currency_saturates() {
    let mut shop = ShopManager::with_data(ShopData { currency: u32::MAX - 5, owned_upgrades: Vec::new() });
    shop.add_currency(10);
    assert_eq!(shop.currency(), u32::MAX);
    assert_eq!(shop.data().currency, u32::MAX);
}

#[test]
fn selected_character_defaults_to_bas() {
    let mut state = GameState::new();
    assert_eq!(get_selected_character(&state), CharacterId::Bas);
    set_selected_character(&mut state, CharacterId::Luca);
    assert_eq!(get_selected_character(&state), CharacterId::Luca);
}

#[test]
fn coop_players_round_trip() {
    let mut state = GameState::new();
    assert_eq!(get_coop_players(&state), None);
    set_coop_players(&mut state, vec![CharacterId::Bas, CharacterId::Hadi]);
    assert_eq!(get_coop_players(&state), Some(vec![CharacterId::Bas, CharacterId::Hadi]));
    clear_coop_players(&mut state);
    assert_eq!(get_coop_players(&state), None);
}

#[test]
fn character_types_of_the_cast() {
    assert_eq!(CharacterId::Bas.to_character_type(), CharacterType::Bas);
    assert_eq!(CharacterId::Berkay.to_character_type(), CharacterType::Berkay);
    assert_eq!(CharacterId::Gefferinho.to_character_type(), CharacterType::Gefferinho);
    assert_eq!(CharacterId::PalaBaba.to_character_type(), CharacterType::YigitBaba);
}

#[test]
fn new_save_contents() {
    let story = StoryProgress::new_game();
    assert_eq!(story.current_chapter, 0);
    assert!(story.completed_chapters.is_empty());
    assert_eq!(story.difficulty, Difficulty::Normal);
    let unlocks = Unlocks::new_game();
    assert_eq!(unlocks.characters, vec!["Bas".to_string()]);
    assert_eq!(unlocks.stages, vec!["Art Room".to_string()]);
    assert_eq!(unlocks.music_tracks, vec!["Main Theme".to_string()]);
    assert!(unlocks.gallery_items.is_empty());
}

#[test]
fn team_alliances() {
    assert!(Team::Player.is_allied(Team::Ally));
    assert!(Team::Ally.is_allied(Team::Player));
    assert!(Team::Enemy.is_allied(Team::Enemy));
    assert!(!Team::Player.is_allied(Team::Enemy));
    assert!(!Team::Enemy.is_allied(Team::Ally));
}

#[test]
fn world_hands_out_fresh_ids() {
    let mut world = World::new();
    assert_eq!(world.create_entity(), EntityId(0));
    assert_eq!(world.create_entity(), EntityId(1));
    assert_eq!(world.create_entity(), EntityId(2));
}

#[test]
fn world_reuses_destroyed_ids() {
    let mut world = World::new();
    let a = world.create_entity();
    let b = world.create_entity();
    assert!(world.destroy_entity(a));
    assert_eq!(world.create_entity(), a);
    assert!(world.destroy_entity(b));
    assert!(world.destroy_entity(a));
    assert_eq!(world.create_entity(), a);
    assert_eq!(world.create_entity(), b);
    assert_eq!(world.create_entity(), EntityId(2));
}

#[test]
fn world_ignores_unknown_entities() {
    let mut world = World::new();
    let a = world.create_entity();
    assert!(!world.destroy_entity(EntityId(7)));
    assert!(world.destroy_entity(a));
    assert!(!world.destroy_entity(a));
}

#[test]
fn character_debug_names() {
    assert_eq!(CharacterId::PalaBaba.debug_name(), "PalaBaba");
    assert_eq!(CharacterId::Gefferinho.debug_name(), "Gefferinho");
    assert_eq!(CharacterId::Bas.debug_name(), format!("{:?}", CharacterId::Bas));
}

// ---------------------------------------------------------------------------
// Replays
// ---------------------------------------------------------------------------

use bas_veeg_arc::data::replay::{calculate_checksum, ChecksumFrame, ReplayManager};

#[test]
fn replay_records_and_plays_back() {
    let mut m: ReplayManager<u32> = ReplayManager::new();
    assert!(m.stop_recording().is_none());
    m.record_frame(0);
    m.start_recording();
    assert!(m.is_recording());
    for f in [10, 20, 30] {
        m.record_frame(f);
    }
    assert_eq!(m.counted_frames(), 3);
    let (frames, counted) = m.stop_recording().unwrap();
    assert_eq!(frames, vec![10, 20, 30]);
    assert_eq!(counted, 3);
    assert!(!m.is_recording());
    assert_eq!(m.get_playback_frame(), None);
    m.start_playback(frames);
    assert!(m.is_playing());
    assert_eq!(m.playback_position(), Some((0, 3)));
    assert_eq!(m.get_playback_frame(), Some(10));
    m.seek(99);
    assert_eq!(m.playback_position(), Some((2, 3)));
    assert_eq!(m.get_playback_frame(), Some(30));
    assert_eq!(m.get_playback_frame(), None);
    assert!(!m.is_playing());
    assert_eq!(m.playback_position(), None);
}

#[test]
fn replay_checksum_wraps() {
    assert_eq!(calculate_checksum(&vec![]), 0);
    let frames = vec![
        ChecksumFrame { frame_number: 7, inputs: vec![(1, 100)], positions: vec![(3, 40, 50)] },
        ChecksumFrame { frame_number: 8, inputs: vec![], positions: vec![] },
    ];
    assert_eq!(calculate_checksum(&frames), 7 + 1 + 100 + 3 + 40 + 50 + 8);
    let wrapping = vec![ChecksumFrame { frame_number: u32::MAX, inputs: vec![(1, 2)], positions: vec![] }];
    assert_eq!(calculate_checksum(&wrapping), 2);
}

// ---------------------------------------------------------------------------
// Character roster and abilities
// ---------------------------------------------------------------------------

use bas_veeg_arc::data::characters::{characters, AbilityEffect, AbilityState, Character};

#[test]
fn roster_lists_seven_characters() {
    let all = characters();
    assert_eq!(all.len(), 7);
    assert_eq!(all[0].name, "Berkay");
    assert_eq!(all[3].ability_name, "Bas Veeg");
    assert_eq!(all[3].effects, vec![AbilityEffect::SplashDamage(4500, 18000)]);
    assert_eq!(all[3].duration_ms, 100);
    assert_eq!(all[6].name, "Yigit Baba");
    assert_eq!(all[6].cooldown_ms, 30000);
    let berkay = Character::get_by_id(CharacterId::Berkay);
    assert_eq!(berkay.ability_name, "Special Kebab");
    assert_eq!(berkay.effects, vec![AbilityEffect::DamageBoost(220), AbilityEffect::HealthBoost(3500)]);
    assert_eq!(Character::get_by_id(CharacterId::Nitin).voice_line, "Barra in je kont!");
}

#[test]
fn ability_runs_then_recharges() {
    let mut a = AbilityState::new(CharacterId::Berkay);
    assert!(a.can_activate());
    assert_eq!(a.get_damage_multiplier(), 100);
    assert_eq!(a.get_health_boost(), 0);
    assert_eq!(a.activate(), "ik kan niet stoppen!");
    assert!(a.active);
    assert_eq!(a.get_damage_multiplier(), 220);
    assert_eq!(a.get_health_boost(), 3500);
    assert_eq!(a.get_speed_multiplier(), 100);
    assert_eq!(a.get_splash_damage(), None);
    assert_eq!(a.activate(), "");
    a.update(5999);
    assert!(a.active);
    a.update(1);
    assert!(!a.active);
    assert_eq!(a.active_time_ms, 0);
    assert!(!a.can_activate());
    a.update(6000);
    assert!(a.can_activate());
}

#[test]
fn abilities_differ_per_character() {
    let mut bas = AbilityState::new(CharacterId::Bas);
    bas.activate();
    assert_eq!(bas.get_splash_damage(), Some((4500, 18000)));
    assert_eq!(bas.get_damage_multiplier(), 100);
    let mut nitin = AbilityState::new(CharacterId::Nitin);
    assert_eq!(nitin.get_fire_damage(), None);
    nitin.activate();
    assert_eq!(nitin.get_fire_damage(), Some((800, 600)));
    let mut hadi = AbilityState::new(CharacterId::Hadi);
    hadi.activate();
    assert_eq!(hadi.get_speed_multiplier(), 320);
    assert_eq!(hadi.get_damage_multiplier(), 150);
}

use bas_veeg_arc::ecs::comp::may_hit;

#[test]
fn hits_skip_self_allies_and_repeats() {
    assert!(!may_hit(1, 1, None, None, &vec![]));
    assert!(!may_hit(1, 2, Some(Team::Player), Some(Team::Ally), &vec![]));
    assert!(may_hit(1, 2, Some(Team::Player), Some(Team::Enemy), &vec![]));
    assert!(may_hit(1, 2, Some(Team::Player), None, &vec![3]));
    assert!(!may_hit(1, 2, None, Some(Team::Enemy), &vec![5, 2]));
}

use bas_veeg_arc::audio::mixer::AudioMixer;
use bas_veeg_arc::audio::music::MusicManager;
use bas_veeg_arc::audio::sfx::{ImpactType, SFXManager};
use bas_veeg_arc::combat::boss_system::BossType;
use bas_veeg_arc::combat::character_movesets::{FrameDataCalculator, MoveData};
use bas_veeg_arc::combat::combo_system::{ComboFinisher, MoveType, StyleRank};
use bas_veeg_arc::combat::combos::{ComboManager, ComboRank};
use bas_veeg_arc::combat::inputs::InputAction;
use bas_veeg_arc::combat::supers::{SuperManager, SuperPhase};
use bas_veeg_arc::coop::player_manager::{CoopPlayer, CoopPlayerManager, InputDeviceType, PlayerSlot};
use bas_veeg_arc::coop::shared_systems::{ComboRank as TeamRank, SharedComboSystem};
use bas_veeg_arc::data::characters::CharacterId;
use bas_veeg_arc::ecs::world::EntityId;

// ---------------------------------------------------------------------------
// Combos
// ---------------------------------------------------------------------------

#[test]
fn combo_rank_thresholds() {
    assert_eq!(ComboRank::from_hits(0), ComboRank::D);
    assert_eq!(ComboRank::from_hits(2), ComboRank::D);
    assert_eq!(ComboRank::from_hits(3), ComboRank::C);
    assert_eq!(ComboRank::from_hits(9), ComboRank::B);
    assert_eq!(ComboRank::from_hits(10), ComboRank::A);
    assert_eq!(ComboRank::from_hits(19), ComboRank::S);
    assert_eq!(ComboRank::from_hits(29), ComboRank::SS);
    assert_eq!(ComboRank::from_hits(49), ComboRank::SSS);
    assert_eq!(ComboRank::from_hits(50), ComboRank::Legendary);
}

#[test]
fn combo_list_contents() {
    let m = ComboManager::new();
    assert_eq!(m.combo_list.len(), 9);
    assert_eq!(m.combo_list[0].name, "Basic Chain");
    assert_eq!(m.combo_list[0].window, 1000);
    assert_eq!(m.combo_list[0].damage_scaling, 90);
    assert_eq!(m.combo_list[8].name, "Bas Rage Mode");
    assert_eq!(m.combo_list[8].damage_scaling, 200);
}

#[test]
fn combo_sequence_matches_the_tail() {
    assert!(ComboManager::matches_sequence(&[InputAction::Up, InputAction::Down, InputAction::HeavyAttack], &[InputAction::Down, InputAction::HeavyAttack]));
    assert!(!ComboManager::matches_sequence(&[InputAction::Down, InputAction::HeavyAttack, InputAction::Up], &[InputAction::Down, InputAction::HeavyAttack]));
    assert!(!ComboManager::matches_sequence(&[InputAction::HeavyAttack], &[InputAction::Down, InputAction::HeavyAttack]));
    assert!(ComboManager::matches_sequence(&[InputAction::Jump], &[]));
}

#[test]
fn combo_check_picks_first_match() {
    let m = ComboManager::new();
    let c = m.check_combo(&[InputAction::LightAttack, InputAction::LightAttack, InputAction::HeavyAttack]).expect("basic chain");
    assert_eq!(c.name, "Basic Chain");
    let c = m.check_combo(&[InputAction::Left, InputAction::Down, InputAction::HeavyAttack]).expect("launcher");
    assert_eq!(c.name, "Launcher");
    let c = m.check_combo(&[InputAction::Down, InputAction::Down, InputAction::Super]).expect("ultimate");
    assert_eq!(c.name, "Ultimate Veeg");
    assert!(m.check_combo(&[InputAction::Parry, InputAction::Dodge]).is_none());
    assert!(m.check_combo(&[]).is_none());
}

// ---------------------------------------------------------------------------
// Frame data
// ---------------------------------------------------------------------------

fn frames(recovery: u32, hitstun: u32, blockstun: u32) -> MoveData {
    MoveData {
        move_id: MoveId::LightPunch,
        name: "Jab",
        can_cancel: vec![],
        properties: vec![],
        startup_frames: 5,
        active_frames: 3,
        recovery_frames: recovery,
        hitstun_frames: hitstun,
        blockstun_frames: blockstun,
    }
}

#[test]
fn frame_advantage() {
    let jab = frames(8, 15, 10);
    assert_eq!(FrameDataCalculator::frame_advantage_on_hit(&jab), 7);
    assert_eq!(FrameDataCalculator::frame_advantage_on_block(&jab), 2);
    assert!(FrameDataCalculator::is_plus_on_block(&jab));
    assert!(FrameDataCalculator::is_safe_on_block(&jab));
    assert_eq!(FrameDataCalculator::punish_window(&jab), 0);
}

#[test]
fn punish_window_of_unsafe_move() {
    let heavy = frames(25, 20, 12);
    assert_eq!(FrameDataCalculator::frame_advantage_on_hit(&heavy), -5);
    assert_eq!(FrameDataCalculator::frame_advantage_on_block(&heavy), -13);
    assert!(!FrameDataCalculator::is_plus_on_block(&heavy));
    assert!(!FrameDataCalculator::is_safe_on_block(&heavy));
    assert_eq!(FrameDataCalculator::punish_window(&heavy), 13);
}

#[test]
fn even_on_block_is_safe_not_plus() {
    let even = frames(10, 10, 10);
    assert!(FrameDataCalculator::is_safe_on_block(&even));
    assert!(!FrameDataCalculator::is_plus_on_block(&even));
    assert_eq!(FrameDataCalculator::punish_window(&even), 0);
}

// ---------------------------------------------------------------------------
// Names
// ---------------------------------------------------------------------------

#[test]
fn style_and_move_names() {
    assert_eq!(StyleRank::SSS.to_string(), "SSS");
    assert_eq!(StyleRank::B.get_title(), "Badass");
    assert_eq!(StyleRank::SS.get_title(), "Smoking Sexy Style");
    assert!(StyleRank::A > StyleRank::B);
    assert_eq!(MoveType::AirAttack.to_string(), "Air Attack");
    assert_eq!(ComboFinisher::Ultra.to_string(), "Ultra Finisher");
    assert!(ComboFinisher::Ultimate.applies_stun());
    assert!(!ComboFinisher::Super.applies_stun());
}

#[test]
fn boss_names() {
    assert_eq!(BossType::JanitorKing.to_string(), "The Janitor King");
    assert_eq!(BossType::HeadChef.to_string(), "Head Chef Ramsey");
    assert_eq!(BossType::Mees.get_intro_text(), "A powerful foe appears!");
    assert_eq!(
        BossType::PrincipalVanDerBerg.get_intro_text(),
        "Principal Van Der Berg blocks your path!\n'Detention for all of you!'"
    );
}

// ---------------------------------------------------------------------------
// Co-op players
// ---------------------------------------------------------------------------

#[test]
fn player_slots() {
    assert_eq!(PlayerSlot::Player3.to_index(), 2);
    assert_eq!(PlayerSlot::from_index(0), Some(PlayerSlot::Player1));
    assert_eq!(PlayerSlot::from_index(4), None);
    assert_eq!(PlayerSlot::Player1.next(), Some(PlayerSlot::Player2));
    assert_eq!(PlayerSlot::Player4.next(), None);
    assert_eq!(PlayerSlot::Player1.prev(), None);
    assert_eq!(PlayerSlot::Player2.next().unwrap().prev(), Some(PlayerSlot::Player2));
}

#[test]
fn single_player_session() {
    let mut m = CoopPlayerManager::new();
    assert_eq!(m.get_active_count(), 0);
    assert!(!m.are_all_players_downed());
    m.init_single_player(CharacterId::Bas);
    assert_eq!(m.get_active_count(), 1);
    let p = m.get_player(PlayerSlot::Player1).expect("player one joined");
    assert_eq!(p.character_type, CharacterId::Bas);
    assert_eq!(p.input_device, InputDeviceType::KeyboardMouse);
    assert!(m.get_player(PlayerSlot::Player2).is_none());
}

#[test]
fn coop_session_takes_four_at_most() {
    let mut m = CoopPlayerManager::new();
    m.init_coop(vec![
        (CharacterId::Bas, InputDeviceType::KeyboardMouse),
        (CharacterId::Luca, InputDeviceType::Gamepad(0)),
        (CharacterId::Hadi, InputDeviceType::Gamepad(1)),
        (CharacterId::Nitin, InputDeviceType::Gamepad(2)),
        (CharacterId::Berkay, InputDeviceType::Gamepad(3)),
    ]);
    assert_eq!(m.get_active_count(), 4);
    assert_eq!(m.get_player(PlayerSlot::Player4).unwrap().character_type, CharacterId::Nitin);
    assert_eq!(m.add_player(CharacterId::Berkay, InputDeviceType::Gamepad(3)), None);
}

#[test]
fn drop_in_takes_first_free_slot() {
    let mut m = CoopPlayerManager::new();
    assert_eq!(m.add_player(CharacterId::Bas, InputDeviceType::KeyboardMouse), Some(PlayerSlot::Player1));
    assert_eq!(m.add_player(CharacterId::Luca, InputDeviceType::Gamepad(0)), Some(PlayerSlot::Player2));
    m.remove_player(PlayerSlot::Player1);
    assert_eq!(m.get_active_count(), 1);
    m.remove_player(PlayerSlot::Player1);
    assert_eq!(m.get_active_count(), 1);
    assert_eq!(m.add_player(CharacterId::Hadi, InputDeviceType::Gamepad(1)), Some(PlayerSlot::Player1));
    assert_eq!(m.get_active_count(), 2);
    let active = m.get_active_players();
    assert_eq!(active.len(), 2);
    assert_eq!(active[0].character_type, CharacterId::Hadi);
    assert_eq!(active[1].character_type, CharacterId::Luca);
}

#[test]
fn downed_players_end_the_game() {
    let mut m = CoopPlayerManager::new();
    m.add_player(CharacterId::Bas, InputDeviceType::KeyboardMouse);
    m.add_player(CharacterId::Luca, InputDeviceType::Gamepad(0));
    m.down_player(PlayerSlot::Player1);
    assert!(!m.are_all_players_downed());
    m.down_player(PlayerSlot::Player2);
    assert!(m.are_all_players_downed());
    m.revive_player(PlayerSlot::Player2);
    assert!(!m.are_all_players_downed());
    m.down_player(PlayerSlot::Player2);
    m.reset_stats();
    assert!(!m.are_all_players_downed());
}

#[test]
fn friendly_fire_toggles() {
    let mut m = CoopPlayerManager::new();
    assert!(!m.is_friendly_fire_enabled());
    m.toggle_friendly_fire();
    assert!(m.is_friendly_fire_enabled());
    m.toggle_friendly_fire();
    assert!(!m.is_friendly_fire_enabled());
}

#[test]
fn coop_player_counters() {
    let mut p = CoopPlayer::new(PlayerSlot::Player2, CharacterId::Gefferinho, InputDeviceType::Gamepad(5));
    assert_eq!(p.get_entity(), None);
    p.set_entity(EntityId(42));
    assert_eq!(p.get_entity(), Some(EntityId(42)));
    p.add_kill();
    p.add_kill();
    assert_eq!(p.kills, 2);
    assert!(p.is_active && !p.is_downed);
}

// ---------------------------------------------------------------------------
// Team combo
// ---------------------------------------------------------------------------

#[test]
fn team_combo_ranks_and_multipliers() {
    let mut c = SharedComboSystem::new();
    assert!(!c.is_combo_active());
    assert_eq!(c.get_combo_rank(), TeamRank::D);
    assert_eq!(c.get_combo_multiplier(), 100);
    for i in 0..5 {
        let slot = if i % 2 == 0 { PlayerSlot::Player1 } else { PlayerSlot::Player2 };
        c.register_hit(slot, i > 0);
    }
    assert_eq!(c.get_combo_count(), 5);
    assert_eq!(c.get_combo_rank(), TeamRank::C);
    assert_eq!(c.get_combo_multiplier(), 120);
    for _ in 5..100 {
        c.register_hit(PlayerSlot::Player1, false);
    }
    assert_eq!(c.get_combo_rank(), TeamRank::SSS);
    assert_eq!(c.get_combo_multiplier(), 400);
    assert_eq!(c.get_combo_rank().to_string(), "SSS");
}

#[test]
fn team_combo_switch_bonus_does_not_stack() {
    let mut c = SharedComboSystem::new();
    c.register_hit(PlayerSlot::Player1, false);
    c.register_hit(PlayerSlot::Player2, true);
    assert_eq!(c.get_combo_multiplier(), 100);
}

#[test]
fn team_combo_reset() {
    let mut c = SharedComboSystem::new();
    for _ in 0..12 {
        c.register_hit(PlayerSlot::Player3, false);
    }
    assert_eq!(c.get_combo_rank(), TeamRank::B);
    c.reset_combo();
    assert_eq!(c.get_combo_count(), 0);
    assert_eq!(c.get_combo_rank(), TeamRank::D);
    assert_eq!(c.get_combo_multiplier(), 100);
    assert!(!c.is_combo_active());
}

// ---------------------------------------------------------------------------
// Sound effects
// ---------------------------------------------------------------------------

#[test]
fn impact_sounds() {
    let s = SFXManager::new();
    assert_eq!(s.get_impact_sound(ImpactType::Light), "hit_light");
    assert_eq!(s.get_impact_sound(ImpactType::Heavy), "hit_heavy");
    assert_eq!(s.get_impact_sound(ImpactType::Block), "block");
    assert_eq!(s.get_impact_sound(ImpactType::Parry), "parry");
}

#[test]
fn voice_lines_by_character() {
    let s = SFXManager::new();
    let first = s.get_voice_line("Wolters").expect("Wolters speaks");
    assert_eq!(first.audio_id, "wolters_vegen_1");
    let second = s.get_voice_line_choice("Wolters", 1).expect("Wolters has two lines");
    assert_eq!(second.audio_id, "wolters_vegen_2");
    assert!(s.get_voice_line_choice("Wolters", 2).is_none());
    assert_eq!(s.get_voice_line("Bastiaan").unwrap().subtitle_key, "bastiaan_ruined_art");
    assert!(s.get_voice_line("Nobody").is_none());
}

#[test]
fn random_voice_line_belongs_to_the_character() {
    let s = SFXManager::new();
    for _ in 0..20 {
        let v = s.get_random_voice_line("Wolters").expect("Wolters speaks");
        assert_eq!(v.character, "Wolters");
        assert!(v.audio_id == "wolters_vegen_1" || v.audio_id == "wolters_vegen_2");
    }
    let v = s.get_random_voice_line("Luca").expect("Luca speaks");
    assert_eq!(v.audio_id, "luca_plan");
    assert!(s.get_random_voice_line("Nobody").is_none());
}

// ---------------------------------------------------------------------------
// Input buffer
// ---------------------------------------------------------------------------

use bas_veeg_arc::combat::inputs::{InputManager, KeyFrame};

fn no_keys() -> KeyFrame {
    KeyFrame {
        left_down: false,
        right_down: false,
        up_down: false,
        down_down: false,
        left_pressed: false,
        left_released: false,
        right_pressed: false,
        right_released: false,
        up_pressed: false,
        down_pressed: false,
        light_pressed: false,
        heavy_pressed: false,
        special_pressed: false,
        super_pressed: false,
        parry_pressed: false,
        dodge_pressed: false,
    }
}

#[test]
fn input_state_follows_keys() {
    let mut m = InputManager::new();
    assert!(!m.get_state().left && !m.get_state().light_attack);
    m.update(KeyFrame { left_down: true, left_pressed: true, light_pressed: true, ..no_keys() }, 1000);
    assert!(m.get_state().left);
    assert!(m.get_state().light_attack);
    m.update(no_keys(), 1016);
    assert!(!m.get_state().left);
    assert!(m.get_state().light_attack);
}

#[test]
fn single_press_is_found_within_window() {
    let mut m = InputManager::new();
    assert!(!m.check_sequence(&[InputAction::LightAttack], 200, 0));
    m.update(KeyFrame { light_pressed: true, ..no_keys() }, 1000);
    assert!(m.check_sequence(&[InputAction::LightAttack], 200, 1100));
    assert!(m.check_sequence(&[InputAction::LightAttack], 200, 1200));
    assert!(!m.check_sequence(&[InputAction::LightAttack], 200, 1201));
    assert!(!m.check_sequence(&[InputAction::HeavyAttack], 200, 1100));
    assert!(!m.check_sequence(&[], 200, 1100));
}

#[test]
fn up_also_buffers_a_jump() {
    let mut m = InputManager::new();
    m.update(KeyFrame { up_pressed: true, ..no_keys() }, 500);
    assert!(m.check_sequence(&[InputAction::Jump], 200, 500));
    m.update(KeyFrame { down_pressed: true, ..no_keys() }, 510);
    assert!(m.check_sequence(&[InputAction::Crouch], 200, 520));
}

#[test]
fn later_steps_must_be_newer_than_earlier_ones() {
    let mut m = InputManager::new();
    m.update(KeyFrame { down_pressed: true, ..no_keys() }, 1000);
    m.update(KeyFrame { heavy_pressed: true, ..no_keys() }, 1050);
    // Scanning back from the newest input, each further step would have to be
    // newer than the one before it, which an older input never is.
    assert!(!m.check_sequence(&[InputAction::HeavyAttack, InputAction::Down], 500, 1100));
    assert!(!m.check_sequence(&[InputAction::Down, InputAction::HeavyAttack], 500, 1100));
    assert!(m.check_sequence(&[InputAction::HeavyAttack], 500, 1100));
}

#[test]
fn old_inputs_leave_the_buffer() {
    let mut m = InputManager::new();
    m.update(KeyFrame { parry_pressed: true, ..no_keys() }, 1000);
    m.update(no_keys(), 1300);
    assert!(!m.check_sequence(&[InputAction::Parry], 100_000, 1300));
}

#[test]
fn releases_do_not_count_as_presses() {
    let mut m = InputManager::new();
    m.update(KeyFrame { right_released: true, ..no_keys() }, 1000);
    assert!(!m.check_sequence(&[InputAction::Right], 200, 1000));
}

#[test]
fn consuming_an_input() {
    let mut m = InputManager::new();
    m.update(KeyFrame { special_pressed: true, dodge_pressed: true, ..no_keys() }, 1000);
    m.consume_input(InputAction::Special);
    assert!(!m.get_state().special);
    assert!(m.get_state().dodge);
    assert!(!m.check_sequence(&[InputAction::Special], 200, 1000));
    assert!(m.check_sequence(&[InputAction::Dodge], 200, 1000));
}

// ---------------------------------------------------------------------------
// Training mode
// ---------------------------------------------------------------------------

use bas_veeg_arc::combat::character_movesets::MoveId;
use bas_veeg_arc::combat::integration::{ActionType, DummyBehavior, TrainingMode};

#[test]
fn training_defaults() {
    let t = TrainingMode::new();
    assert!(!t.enabled);
    assert_eq!(t.dummy_behavior, DummyBehavior::Idle);
    assert!(t.infinite_meter && t.infinite_health && t.show_damage_values);
    assert!(t.recorded_actions.is_empty());
}

#[test]
fn training_records_only_in_record_mode() {
    let mut t = TrainingMode::new();
    t.record_action(1, ActionType::Jump);
    assert!(t.recorded_actions.is_empty());
    t.record_mode = true;
    t.record_action(10, ActionType::Move(MoveId::LightPunch));
    t.record_action(20, ActionType::Block);
    assert_eq!(t.recorded_actions.len(), 2);
    assert_eq!(t.recorded_actions[0].move_id, Some(MoveId::LightPunch));
    assert_eq!(t.recorded_actions[1].move_id, None);
    assert_eq!(t.recorded_actions[1].frame, 20);
}

#[test]
fn training_playback_replays_in_order() {
    let mut t = TrainingMode::new();
    t.record_mode = true;
    t.record_action(10, ActionType::Move(MoveId::DeskSlam));
    t.record_action(20, ActionType::Block);
    assert_eq!(t.get_playback_action(10), None);
    t.start_playback();
    assert_eq!(t.get_playback_action(5), None);
    assert_eq!(t.get_playback_action(10), Some(ActionType::Move(MoveId::DeskSlam)));
    assert_eq!(t.get_playback_action(10), None);
    assert_eq!(t.get_playback_action(20), Some(ActionType::Block));
    assert_eq!(t.get_playback_action(30), None);
    assert_eq!(t.playback_index, 2);
}

#[test]
fn random_voice_lines_vary() {
    let s = SFXManager::new();
    let mut seen_first = false;
    let mut seen_second = false;
    for _ in 0..200 {
        let v = s.get_random_voice_line("Wolters").unwrap();
        if v.audio_id == "wolters_vegen_1" {
            seen_first = true;
        } else {
            seen_second = true;
        }
    }
    assert!(seen_first && seen_second);
}

#[test]
fn respawn_counts_a_death() {
    let mut m = CoopPlayerManager::new();
    m.add_player(CharacterId::Bas, InputDeviceType::KeyboardMouse);
    m.respawn_player(PlayerSlot::Player1);
    assert_eq!(m.get_player(PlayerSlot::Player1).unwrap().deaths, 0);
    m.down_player(PlayerSlot::Player1);
    m.respawn_player(PlayerSlot::Player1);
    let p = m.get_player(PlayerSlot::Player1).unwrap();
    assert!(!p.is_downed);
    assert_eq!(p.deaths, 1);
    m.respawn_player(PlayerSlot::Player3);
    assert!(m.get_player(PlayerSlot::Player3).is_none());
}

#[test]
fn combo_contributions_are_counted() {
    let mut m = CoopPlayerManager::new();
    m.add_player(CharacterId::Bas, InputDeviceType::KeyboardMouse);
    m.record_combo_contribution(PlayerSlot::Player1);
    m.record_combo_contribution(PlayerSlot::Player1);
    m.record_combo_contribution(PlayerSlot::Player2);
    assert_eq!(m.get_player(PlayerSlot::Player1).unwrap().combo_contribution, 2);
    m.reset_stats();
    assert_eq!(m.get_player(PlayerSlot::Player1).unwrap().combo_contribution, 0);
}

#[test]
fn combo_hits_and_best_rank() {
    let mut m = ComboManager::new();
    assert!(!m.is_combo_active());
    assert_eq!(m.get_combo_hits(), 0);
    assert_eq!(m.get_combo_rank(), None);
    m.register_hit(true, false);
    let a = m.active_combo.unwrap();
    assert_eq!((a.hits, a.rank, a.special_moves_used, a.perfect_timing_count), (1, ComboRank::D, 1, 0));
    for _ in 0..9 {
        m.register_hit(false, true);
    }
    let a = m.active_combo.unwrap();
    assert_eq!(a.hits, 10);
    assert_eq!(a.rank, ComboRank::A);
    assert_eq!(a.highest_rank_achieved, ComboRank::A);
    assert_eq!((a.special_moves_used, a.perfect_timing_count), (1, 9));
    m.reset();
    assert!(!m.is_combo_active());
    m.register_hit(false, false);
    assert_eq!(m.get_combo_hits(), 1);
}

#[test]
fn juggles_past_the_limit_drop_the_combo() {
    let mut m = ComboManager::new();
    m.register_hit(false, false);
    for _ in 0..5 {
        m.register_juggle();
    }
    assert!(m.is_combo_active());
    m.register_juggle();
    assert!(!m.is_combo_active());
    assert_eq!(m.juggle_count, 6);
    m.register_hit(false, false);
    m.register_juggle();
    assert!(!m.is_combo_active());
}

// ---------------------------------------------------------------------------
// Combo tracking per entity
// ---------------------------------------------------------------------------

use bas_veeg_arc::combat::integration::ComboTracker;

#[test]
fn tracked_combo_counts_hits_and_ranks() {
    let mut t = ComboTracker::new();
    assert_eq!(t.get_combo_count(7), 0);
    t.add_hit(7, MoveId::LightPunch);
    assert_eq!(t.get_combo_count(7), 0);
    t.register_character(7);
    for _ in 0..4 {
        t.add_hit(7, MoveId::LightKick);
    }
    let c = &t.active_combos[&7];
    assert_eq!(c.hit_count, 4);
    assert_eq!(c.style_rank, StyleRank::D);
    assert_eq!(c.moves_used.len(), 4);
    for _ in 0..8 {
        t.add_hit(7, MoveId::HeavyKick);
    }
    assert_eq!(t.get_combo_count(7), 12);
    assert_eq!(t.active_combos[&7].style_rank, StyleRank::A);
}

#[test]
fn dropped_combo_starts_over() {
    let mut t = ComboTracker::new();
    t.register_character(1);
    t.register_character(2);
    for _ in 0..6 {
        t.add_hit(1, MoveId::Grab);
    }
    t.add_hit(2, MoveId::Grab);
    t.drop_combo(1);
    let c = &t.active_combos[&1];
    assert!(c.combo_dropped);
    assert_eq!(c.hit_count, 0);
    assert!(c.moves_used.is_empty());
    assert_eq!(c.style_rank, StyleRank::D);
    assert_eq!(t.get_combo_count(2), 1);
    t.add_hit(1, MoveId::Grab);
    assert!(!t.active_combos[&1].combo_dropped);
}

// ---------------------------------------------------------------------------
// Boss phases and attacks
// ---------------------------------------------------------------------------

use bas_veeg_arc::combat::boss_system::{BossAIState, BossController, PatternType};

#[test]
fn principal_phases() {
    let mut b = BossController::new(BossType::PrincipalVanDerBerg, 3, 5, PatternType::PhaseBased);
    assert_eq!((b.current_phase, b.ai_state), (1, BossAIState::Idle));
    b.check_phase_transition(&[false, false, false]);
    assert_eq!(b.current_phase, 1);
    assert!(!b.invulnerable);
    b.check_phase_transition(&[true, false, false]);
    assert_eq!(b.current_phase, 2);
    assert!(b.invulnerable);
    assert!(b.summoning_minions);
    assert_eq!(b.ai_state, BossAIState::PhaseTransition);
    b.check_phase_transition(&[true, false, false]);
    assert_eq!(b.current_phase, 2);
    b.check_phase_transition(&[true, true, false]);
    assert_eq!(b.current_phase, 3);
    assert_eq!(b.ai_state, BossAIState::Enraged);
}

#[test]
fn head_chef_enrages_in_phase_two() {
    let mut b = BossController::new(BossType::HeadChef, 2, 5, PatternType::Adaptive);
    b.check_phase_transition(&[true]);
    assert_eq!(b.current_phase, 2);
    assert_eq!(b.ai_state, BossAIState::Enraged);
    assert!(!b.summoning_minions);
}

#[test]
fn attack_patterns_cycle() {
    let mut b = BossController::new(BossType::JanitorKing, 3, 3, PatternType::Sequential);
    b.advance_attack_pattern(99);
    assert_eq!(b.current_attack_index, 1);
    b.advance_attack_pattern(99);
    b.advance_attack_pattern(99);
    assert_eq!(b.current_attack_index, 0);
    let mut r = BossController::new(BossType::Mees, 1, 4, PatternType::Random);
    r.advance_attack_pattern(6);
    assert_eq!(r.current_attack_index, 2);
    let mut w = BossController::new(BossType::JanitorKing, 3, 3, PatternType::Sequential);
    w.current_attack_index = 7;
    w.advance_attack_pattern(0);
    assert_eq!(w.current_attack_index, 2);
}

// ---------------------------------------------------------------------------
// Frame data display
// ---------------------------------------------------------------------------

use bas_veeg_arc::combat::integration::FrameDataDisplay;
use bas_veeg_arc::ecs::comp::CharacterType;

#[test]
fn input_history_keeps_the_latest_twenty() {
    let mut d = FrameDataDisplay::new();
    assert!(!d.enabled && d.show_hitboxes);
    for f in 0..25u64 {
        d.record_input(f, MoveId::LightPunch, CharacterType::Bas);
    }
    assert_eq!(d.input_history.len(), 20);
    assert_eq!(d.input_history[0].frame, 5);
    assert_eq!(d.input_history[19].frame, 24);
    d.record_input(99, MoveId::SoupSplash, CharacterType::Chef);
    assert_eq!(d.input_history.len(), 20);
    assert_eq!(d.input_history[19].move_id, MoveId::SoupSplash);
    assert_eq!(d.input_history[19].character_type, CharacterType::Chef);
}

// ---------------------------------------------------------------------------
// Team super
// ---------------------------------------------------------------------------

use bas_veeg_arc::coop::shared_systems::{TeamSuperSystem, TeamSuperType};

#[test]
fn team_super_effects() {
    let mut t = TeamSuperSystem::new();
    assert!(!t.is_active());
    assert_eq!(t.get_super_type(), None);
    assert_eq!(t.get_damage_multiplier(), 1);
    t.activate(TeamSuperType::UltimateCombo);
    assert_eq!(t.get_super_type(), Some(TeamSuperType::UltimateCombo));
    assert_eq!(t.get_damage_multiplier(), 10);
    assert_eq!(t.get_duration(), 3);
    assert!(!t.is_invincible());
    t.activate(TeamSuperType::InvincibilityAura);
    assert!(t.is_invincible());
    assert_eq!(t.get_duration(), 8);
    t.finish();
    assert!(!t.is_invincible());
    assert_eq!(t.get_damage_multiplier(), 1);
    t.activate(TeamSuperType::HealingWave);
    assert_eq!(t.get_duration(), 0);
    t.activate(TeamSuperType::DamageBoost);
    assert_eq!(t.get_damage_multiplier(), 5);
}

// ---------------------------------------------------------------------------
// Super moves
// ---------------------------------------------------------------------------

#[test]
fn super_catalogue() {
    let m = SuperManager::new();
    assert_eq!(m.available_supers.len(), 5);
    assert_eq!(m.available_supers[0].name, "Veeg Barrage");
    assert_eq!(m.available_supers[0].character_name, "Bas");
    assert_eq!(m.available_supers[0].input_sequence, vec![InputAction::Down, InputAction::Down, InputAction::Super]);
    assert_eq!(m.available_supers[1].meter_cost, 75);
    assert_eq!(m.available_supers[2].cinematic, false);
    assert_eq!(m.available_supers[3].invulnerability_frames, 120);
    assert_eq!(m.available_supers[4].name, "Perfect Art");
    assert_eq!(m.available_supers[4].damage, 55);
    assert!(!m.is_active());
    assert_eq!(m.get_phase(), None);
}

#[test]
fn super_needs_owner_and_meter() {
    let m = SuperManager::new();
    assert_eq!(m.can_activate("Bas", 50).map(|s| s.name.clone()), Some("Veeg Barrage".to_string()));
    assert!(m.can_activate("Bas", 49).is_none());
    assert_eq!(m.can_activate("Wolters", 150).map(|s| s.name.clone()), Some("Discipline Wave".to_string()));
    assert!(m.can_activate("Luca", 74).is_none());
    assert!(m.can_activate("Nobody", 1000).is_none());
}

#[test]
fn super_phases_follow_the_timer() {
    let mut m = SuperManager::new();
    let s = m.available_supers[1].clone();
    m.activate_super(s);
    assert_eq!(m.get_phase(), Some(SuperPhase::Startup));
    m.update(400);
    assert_eq!(m.get_phase(), Some(SuperPhase::Startup));
    m.update(200);
    assert_eq!(m.get_phase(), Some(SuperPhase::Active));
    m.update(2000);
    assert_eq!(m.get_phase(), Some(SuperPhase::Recovery));
    assert_eq!(m.active_super.as_ref().map(|a| a.timer_ms), Some(2600));
    m.update(399);
    assert!(m.is_active());
    m.update(1);
    assert!(!m.is_active());
    assert_eq!(m.get_phase(), None);
}

#[test]
fn super_timer_adds_up() {
    let mut a = SuperManager::new();
    let mut b = SuperManager::new();
    let s = a.available_supers[0].clone();
    a.activate_super(s.clone());
    b.activate_super(s);
    a.update(700);
    a.update(900);
    b.update(1600);
    assert_eq!(a.get_phase(), b.get_phase());
    assert_eq!(a.active_super.as_ref().map(|x| x.timer_ms), b.active_super.as_ref().map(|x| x.timer_ms));
    a.update(u64::MAX);
    assert!(!a.is_active());
}

// ---------------------------------------------------------------------------
// Mixer and music
// ---------------------------------------------------------------------------

#[test]
fn mixer_fills_channels_in_order() {
    let mut m = AudioMixer::new();
    for i in 0..16 {
        assert_eq!(m.play_sound("hit", 0), Some(i));
    }
    assert_eq!(m.play_sound("hit", 0), None);
    m.stop_channel(3);
    assert_eq!(m.play_sound("kick", 0), Some(3));
    m.stop_channel(99);
    assert_eq!(m.play_sound("kick", 0), None);
}

#[test]
fn mixer_music_takes_the_last_channel() {
    let mut m = AudioMixer::new();
    m.play_music("theme", true, 0);
    for i in 0..15 {
        assert_eq!(m.play_sound("hit", 0), Some(i));
    }
    assert_eq!(m.play_sound("hit", 0), None);
    m.update(100_000);
    for i in 0..15 {
        assert_eq!(m.play_sound("hit", 100_000), Some(i));
    }
    assert_eq!(m.play_sound("hit", 100_000), None);
    m.stop_music();
    assert_eq!(m.play_sound("hit", 100_000), Some(15));
}

#[test]
fn mixer_sounds_expire_after_five_seconds() {
    let mut m = AudioMixer::new();
    assert_eq!(m.play_sound("a", 1000), Some(0));
    m.update(6000);
    assert_eq!(m.play_sound("b", 6000), Some(1));
    m.update(6001);
    assert_eq!(m.play_sound("c", 6001), Some(0));
}

#[test]
fn mixer_same_music_is_not_restarted() {
    let mut m = AudioMixer::new();
    assert!(m.play_music("theme", false, 0));
    assert!(!m.play_music("theme", false, 9000));
    m.update(9001);
    for i in 0..16 {
        assert_eq!(m.play_sound("hit", 9001), Some(i));
    }
    let mut n = AudioMixer::new();
    assert!(n.play_music("theme", false, 0));
    assert!(n.play_music("battle", false, 9000));
    n.update(9001);
    for i in 0..15 {
        assert_eq!(n.play_sound("hit", 9001), Some(i));
    }
    assert_eq!(n.play_sound("hit", 9001), None);
}

#[test]
fn music_crossfades_into_the_next_track() {
    let mut m = MusicManager::new();
    assert_eq!(m.current_track(), None);
    assert_eq!(m.crossfade_position(), None);
    m.play_track("menu".to_string());
    assert_eq!(m.current_track(), Some("menu".to_string()));
    m.update(5000);
    assert_eq!(m.current_track(), Some("menu".to_string()));
    m.play_track("battle".to_string());
    assert_eq!(m.crossfade_position(), None);
    m.update(500);
    assert_eq!(m.crossfade_position(), Some((500, 2000)));
    m.update(1499);
    assert_eq!(m.crossfade_position(), Some((1999, 2000)));
    assert_eq!(m.current_track(), Some("menu".to_string()));
    m.update(1);
    assert_eq!(m.current_track(), Some("battle".to_string()));
    assert_eq!(m.crossfade_position(), None);
}

#[test]
fn music_crossfade_time_adds_up() {
    let mut a = MusicManager::new();
    let mut b = MusicManager::new();
    for m in [&mut a, &mut b] {
        m.play_track("one".to_string());
        m.play_track("two".to_string());
    }
    a.update(700);
    a.update(600);
    b.update(1300);
    assert_eq!(a.crossfade_position(), b.crossfade_position());
    a.update(700);
    b.update(700);
    assert_eq!(a.current_track(), Some("two".to_string()));
    assert_eq!(b.current_track(), Some("two".to_string()));
}

// ---------------------------------------------------------------------------
// Match replays
// ---------------------------------------------------------------------------

use bas_veeg_arc::combat::integration::ReplaySystem;

#[test]
fn replay_records_only_while_recording() {
    let mut r: ReplaySystem<u32> = ReplaySystem::new();
    assert!(!r.recording);
    assert_eq!(r.max_frames, 36000);
    r.record_frame(1);
    assert!(r.recorded_frames.is_empty());
    r.start_recording();
    r.record_frame(1);
    r.record_frame(2);
    r.stop_recording();
    r.record_frame(3);
    assert_eq!(r.recorded_frames, vec![1, 2]);
}

#[test]
fn replay_keeps_the_latest_frames() {
    let mut r: ReplaySystem<u32> = ReplaySystem::new();
    r.max_frames = 2;
    r.start_recording();
    r.record_frame(1);
    r.record_frame(2);
    r.record_frame(3);
    assert_eq!(r.recorded_frames, vec![2, 3]);
    r.start_recording();
    assert!(r.recorded_frames.is_empty());
}

#[test]
fn replay_playback_walks_the_frames() {
    let mut r: ReplaySystem<u32> = ReplaySystem::new();
    r.start_recording();
    for f in [10, 20, 30, 40] {
        r.record_frame(f);
    }
    r.stop_recording();
    assert_eq!(r.get_current_frame(), None);
    r.advance_playback(2);
    assert_eq!(r.playback_frame, 0);
    r.start_playback();
    assert_eq!(r.get_current_frame(), Some(&10));
    r.advance_playback(1);
    assert_eq!(r.get_current_frame(), Some(&20));
    r.advance_playback(10);
    assert_eq!(r.get_current_frame(), Some(&40));
    r.seek_frame(0);
    assert_eq!(r.get_current_frame(), Some(&10));
    r.seek_frame(2);
    assert_eq!(r.get_current_frame(), Some(&30));
    r.seek_frame(99);
    assert_eq!(r.playback_frame, 3);
}

// ---------------------------------------------------------------------------
// Match statistics
// ---------------------------------------------------------------------------

use bas_veeg_arc::combat::integration::CombatStatistics;

#[test]
fn statistics_count_hits_and_longest_combo() {
    let mut s = CombatStatistics::new();
    assert!(s.hits_landed.is_empty());
    s.record_hit_landed(7);
    s.record_hit_landed(7);
    s.record_hit_landed(9);
    assert_eq!(s.hits_landed.get(&7), Some(&2));
    assert_eq!(s.hits_landed.get(&9), Some(&1));
    s.record_combo(7, 12);
    s.record_combo(7, 5);
    assert_eq!(s.max_combo.get(&7), Some(&12));
    s.record_combo(7, 20);
    assert_eq!(s.max_combo.get(&7), Some(&20));
    s.record_combo(3, 0);
    assert_eq!(s.max_combo.get(&3), Some(&0));
    assert!(s.ko_count.is_empty());
}

// ---------------------------------------------------------------------------
// The plane
// ---------------------------------------------------------------------------

use bas_veeg_arc::combat::plane_system::{BombPattern, PlaneSystem, PlaneUpgrades};

#[test]
fn plane_takes_off_flies_and_lands() {
    let mut p = PlaneSystem::new();
    assert!(p.can_enter_plane());
    assert_eq!(p.drop_bomb(BombPattern::Single), 0);
    assert!(p.enter_plane());
    assert!(p.entering_plane);
    assert!(!p.update(1000));
    assert!(p.entering_plane && !p.in_plane);
    assert!(!p.update(500));
    assert!(p.in_plane && !p.entering_plane);
    assert_eq!(p.plane_duration_ms, 0);
    assert!(p.update(14_000));
    assert_eq!(p.get_duration_remaining_ms(), 1000);
    assert!(!p.update(1000));
    assert!(p.exiting_plane);
    assert!(!p.update(1500));
    assert!(!p.in_plane && !p.exiting_plane);
    assert_eq!(p.plane_cooldown_ms, 15_000);
    assert!(!p.can_enter_plane());
    assert!(!p.enter_plane());
    assert!(p.update(14_999));
    assert!(!p.enter_plane());
    p.update(1);
    assert!(p.enter_plane());
}

#[test]
fn plane_drops_and_reloads_bombs() {
    let mut p = PlaneSystem::new();
    p.enter_plane();
    p.update(1500);
    assert_eq!(p.drop_bomb(BombPattern::Line), 3);
    assert_eq!(p.bombs_remaining, 7);
    assert_eq!(p.drop_bomb(BombPattern::Circle), 6);
    assert_eq!(p.drop_bomb(BombPattern::CarpetBomb), 1);
    assert_eq!(p.drop_bomb(BombPattern::Cross), 0);
    p.update(999);
    assert_eq!(p.bombs_remaining, 0);
    p.update(1);
    assert_eq!(p.bombs_remaining, 1);
    assert_eq!(p.bomb_reload_timer_ms, 0);
}

#[test]
fn plane_shot_down_waits_longer() {
    let mut p = PlaneSystem::new();
    p.enter_plane();
    p.update(1500);
    p.force_exit();
    assert!(!p.in_plane);
    assert_eq!(p.plane_cooldown_ms, 30_000);
    p.update(29_999);
    assert!(!p.can_enter_plane());
    p.update(1);
    assert!(p.can_enter_plane());
}

#[test]
fn plane_upgrades_apply() {
    let mut u = PlaneUpgrades::new();
    assert_eq!(u.increased_bombs, 0);
    u.increased_duration = 2;
    u.increased_bombs = 3;
    u.faster_reload = 2;
    let mut p = PlaneSystem::new();
    u.apply_to_system(&mut p);
    assert_eq!(p.max_plane_duration_ms, 21_000);
    assert_eq!(p.max_bombs, 16);
    assert_eq!(p.bombs_remaining, 16);
    assert_eq!(p.bomb_reload_time_ms, 700);
    u.faster_reload = 7;
    u.apply_to_system(&mut p);
    assert_eq!(p.bomb_reload_time_ms, 0);
}

// ---------------------------------------------------------------------------
// Movesets
// ---------------------------------------------------------------------------

use bas_veeg_arc::combat::character_movesets::{CharacterMoveset, ComboDifficulty, MoveProperty};

#[test]
fn keizer_moveset_table() {
    let m = CharacterMoveset::keizer_bom_taha();
    assert_eq!(m.character_type, CharacterType::KeizerBomTaha);
    assert_eq!(m.moves.len(), 8);
    assert_eq!(m.moves[2].name, "Commander's Kick");
    assert_eq!(m.moves[2].can_cancel, vec![MoveId::AerialAssault]);
    assert_eq!(m.moves[3].properties, vec![MoveProperty::MultiHit(6), MoveProperty::SuperArmor]);
    assert_eq!(m.combo_routes.len(), 3);
    assert_eq!(m.combo_routes[1].moves.len(), 5);
    assert_eq!(m.combo_routes[1].total_damage, 395);
    assert_eq!(m.combo_routes[2].difficulty, ComboDifficulty::Medium);
}

#[test]
fn keizer_move_lookup() {
    let m = CharacterMoveset::for_character(CharacterType::KeizerBomTaha);
    assert_eq!(m.get_move(MoveId::BombDrop).map(|d| d.active_frames), Some(180));
    assert!(m.get_move(MoveId::LightPunch).is_none());
    assert_eq!(m.get_total_frames(MoveId::MilitaryStrike), 16);
    assert_eq!(m.get_total_frames(MoveId::AerialAssault), 1035);
    assert_eq!(m.get_total_frames(MoveId::Grab), 0);
    assert!(m.move_has_property(MoveId::StrafeRun, &MoveProperty::MultiHit(99)));
    assert!(m.move_has_property(MoveId::AerialSlam, &MoveProperty::Invincible));
    assert!(!m.move_has_property(MoveId::MilitaryStrike, &MoveProperty::Juggle));
    assert!(!m.move_has_property(MoveId::Grab, &MoveProperty::Juggle));
}

#[test]
fn other_characters_have_empty_movesets() {
    let m = CharacterMoveset::for_character(CharacterType::Luca);
    assert_eq!(m.character_type, CharacterType::Luca);
    assert!(m.moves.is_empty() && m.combo_routes.is_empty());
    let d = CharacterMoveset::default();
    assert_eq!(d.character_type, CharacterType::Bas);
    assert!(d.moves.is_empty());
}

// ---------------------------------------------------------------------------
// Combo breakdown
// ---------------------------------------------------------------------------

use bas_veeg_arc::combat::combo_system::get_move_breakdown;

#[test]
fn move_breakdown_counts_in_fixed_order() {
    let moves = vec![
        MoveType::Finisher,
        MoveType::LightAttack,
        MoveType::Launcher,
        MoveType::LightAttack,
        MoveType::AirAttack,
        MoveType::LightAttack,
    ];
    assert_eq!(
        get_move_breakdown(&moves),
        vec![
            (MoveType::LightAttack, 3),
            (MoveType::Launcher, 1),
            (MoveType::AirAttack, 1),
            (MoveType::Finisher, 1),
        ]
    );
    assert!(get_move_breakdown(&vec![]).is_empty());
}

use bas_veeg_arc::combat::combo_system::{can_use_finisher, finisher_for};

#[test]
fn finishers_need_ten_hits_and_rank_b() {
    assert!(!can_use_finisher(9, StyleRank::SSS));
    assert!(!can_use_finisher(50, StyleRank::C));
    assert!(can_use_finisher(10, StyleRank::B));
    assert!(finisher_for(9, StyleRank::SSS).is_none());
    assert!(finisher_for(40, StyleRank::D).is_none());
    assert!(matches!(finisher_for(10, StyleRank::B), Some(ComboFinisher::Basic)));
    assert!(matches!(finisher_for(10, StyleRank::A), Some(ComboFinisher::Advanced)));
    assert!(matches!(finisher_for(10, StyleRank::S), Some(ComboFinisher::Super)));
    assert!(matches!(finisher_for(10, StyleRank::SS), Some(ComboFinisher::Ultra)));
    assert!(matches!(finisher_for(99, StyleRank::SSS), Some(ComboFinisher::Ultimate)));
}

use bas_veeg_arc::combat::combo_system::ComboSystem;

#[test]
fn style_combo_counts_and_juggles() {
    let mut c = ComboSystem::new();
    assert!(!c.is_active());
    c.register_hit(MoveType::LightAttack, true);
    c.register_hit(MoveType::Launcher, false);
    assert!(c.juggle_active);
    assert_eq!(c.juggle_hits, 0);
    c.register_hit(MoveType::AirAttack, false);
    c.register_hit(MoveType::AirAttack, true);
    assert_eq!(c.juggle_hits, 2);
    assert_eq!(c.combo_count, 4);
    assert_eq!(c.max_combo_this_session, 4);
    assert_eq!(c.hit_counts(), (2, 2));
    assert!(c.combo_moves[2].is_juggle && !c.combo_moves[1].is_juggle);
    c.end_juggle();
    assert!(!c.juggle_active);
    assert_eq!(c.use_finisher(), None);
    c.break_combo();
    assert_eq!(c.combo_count, 0);
    assert_eq!(c.max_combo_this_session, 4);
    assert!(c.combo_moves.is_empty());
}

#[test]
fn style_combo_keeps_last_hundred_moves() {
    let mut c = ComboSystem::new();
    c.register_hit(MoveType::Finisher, false);
    for _ in 0..100 {
        c.register_hit(MoveType::LightAttack, false);
    }
    assert_eq!(c.combo_count, 101);
    assert_eq!(c.combo_moves.len(), 100);
    assert!(c.combo_moves.iter().all(|m| m.move_type == MoveType::LightAttack));
    c.style_rank = StyleRank::S;
    assert_eq!(c.use_finisher(), Some(ComboFinisher::Super));
    assert_eq!(c.combo_count, 0);
    assert_eq!(c.style_rank, StyleRank::D);
}

use bas_veeg_arc::coop::shared_systems::ReviveSystem;

#[test]
fn revives_progress_complete_and_cancel() {
    let mut r = ReviveSystem::new();
    r.start_revive(PlayerSlot::Player2, PlayerSlot::Player1);
    r.start_revive(PlayerSlot::Player2, PlayerSlot::Player3);
    assert_eq!(r.active_revives().len(), 1);
    assert_eq!(r.get_active_revive(PlayerSlot::Player2), Some((PlayerSlot::Player1, 0)));
    r.start_revive(PlayerSlot::Player4, PlayerSlot::Player3);
    let report = r.update(1000, &vec![true, false]);
    assert_eq!(report, vec![(PlayerSlot::Player2, 1000, false)]);
    assert!(r.is_being_revived(PlayerSlot::Player2));
    assert!(!r.is_being_revived(PlayerSlot::Player4));
    let report = r.update(2000, &vec![true]);
    assert_eq!(report, vec![(PlayerSlot::Player2, 3000, true)]);
    assert!(r.active_revives().is_empty());
    r.start_revive(PlayerSlot::Player1, PlayerSlot::Player2);
    r.start_revive(PlayerSlot::Player3, PlayerSlot::Player4);
    r.cancel_revive(PlayerSlot::Player2);
    assert!(!r.is_being_revived(PlayerSlot::Player1));
    assert!(r.is_being_revived(PlayerSlot::Player3));
}

#[test]
fn revives_taken_off_by_position() {
    let mut r = ReviveSystem::new();
    r.start_revive(PlayerSlot::Player1, PlayerSlot::Player2);
    r.start_revive(PlayerSlot::Player3, PlayerSlot::Player4);
    assert!(r.removal_fits(2000, &vec![true, true]));
    r.update(2000, &vec![true, true]);
    r.start_revive(PlayerSlot::Player4, PlayerSlot::Player1);
    // The first revive is cancelled and the second completes; taking off
    // position 0 and then position 1 leaves the completed revive and drops
    // the third one.
    let in_range = vec![false, true, true];
    assert!(r.removal_fits(1000, &in_range));
    let report = r.update(1000, &in_range);
    assert_eq!(report, vec![(PlayerSlot::Player3, 3000, true), (PlayerSlot::Player4, 1000, false)]);
    let left = r.active_revives();
    assert_eq!(left.len(), 1);
    assert_eq!(left[0].downed_player, PlayerSlot::Player3);
    assert_eq!(left[0].progress_ms, 3000);
}

#[test]
fn revive_removal_can_run_past_the_list() {
    let mut r = ReviveSystem::new();
    r.start_revive(PlayerSlot::Player1, PlayerSlot::Player2);
    r.start_revive(PlayerSlot::Player2, PlayerSlot::Player3);
    r.start_revive(PlayerSlot::Player3, PlayerSlot::Player4);
    r.update(2000, &vec![false, false, true]);
    assert_eq!(r.active_revives().len(), 1);
    let mut s = ReviveSystem::new();
    s.start_revive(PlayerSlot::Player1, PlayerSlot::Player2);
    s.start_revive(PlayerSlot::Player2, PlayerSlot::Player3);
    s.start_revive(PlayerSlot::Player3, PlayerSlot::Player4);
    s.update(2000, &vec![true, true, true]);
    // Cancelled at 0 and 1, completed at 2: positions 1, 0, then 2 of a
    // one-entry list.
    assert!(!s.removal_fits(1000, &vec![false, false, true]));
    assert!(s.removal_fits(1000, &vec![true, false, false]));
}

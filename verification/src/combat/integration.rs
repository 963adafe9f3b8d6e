use vstd::prelude::*;
use std::collections::HashMap;
use crate::combat::character_movesets::MoveId;
use crate::combat::combo_system::{StyleRank, style_order};
use crate::ecs::comp::CharacterType;

verus! {

/// How the training dummy behaves.
#[derive(Clone, Copy, Debug, PartialEq, Eq, Structural)]
pub enum DummyBehavior {
    Idle,
    Crouch,
    Stand,
    Jump,
    Block,
    BlockFirstHit,
    RandomBlock,
    Counterattack,
    Record,
    Playback,
}

/// Something the dummy can be recorded doing.
#[derive(Clone, Copy, Debug, PartialEq, Eq, Structural)]
pub enum ActionType {
    Move(MoveId),
    Block,
    Jump,
    Crouch,
    Idle,
}

/// An action recorded at a frame; `move_id` names the move of a `Move`.
#[derive(Clone, Copy, Debug, PartialEq, Eq, Structural)]
pub struct RecordedAction {
    pub frame: u64,
    pub action_type: ActionType,
    pub move_id: Option<MoveId>,
}

/// Training mode: dummy settings, and a recording of dummy actions that
/// can be played back frame by frame.
pub struct TrainingMode {
    pub enabled: bool,
    pub dummy_behavior: DummyBehavior,
    pub reset_position: bool,
    pub infinite_meter: bool,
    pub infinite_health: bool,
    pub show_damage_values: bool,
    pub record_mode: bool,
    pub recorded_actions: Vec<RecordedAction>,
    pub playback_mode: bool,
    pub playback_index: usize,
}

/// The record of `action` at `frame`.
pub open spec fn record_of(frame: u64, action: ActionType) -> RecordedAction {
    RecordedAction {
        frame,
        action_type: action,
        move_id: match action {
            ActionType::Move(id) => Some(id),
            _ => None,
        },
    }
}

/// The dummy settings and the record switch are the same in both.
pub open spec fn same_settings(t0: TrainingMode, t1: TrainingMode) -> bool {
    &&& t1.enabled == t0.enabled
    &&& t1.dummy_behavior == t0.dummy_behavior
    &&& t1.reset_position == t0.reset_position
    &&& t1.infinite_meter == t0.infinite_meter
    &&& t1.infinite_health == t0.infinite_health
    &&& t1.show_damage_values == t0.show_damage_values
    &&& t1.record_mode == t0.record_mode
}

/// `t1` is `t0` after recording `action` at `frame`: appended in record
/// mode, ignored otherwise.
pub open spec fn recorded(t0: TrainingMode, t1: TrainingMode, frame: u64, action: ActionType) -> bool {
    &&& t1.recorded_actions@ == if t0.record_mode {
        t0.recorded_actions@.push(record_of(frame, action))
    } else {
        t0.recorded_actions@
    }
    &&& t1.playback_mode == t0.playback_mode
    &&& t1.playback_index == t0.playback_index
    &&& same_settings(t0, t1)
}

/// `t1` and `r` are `t0` and the answer after asking for the action of
/// `frame`: the next recorded action when playback is on and it was
/// recorded at that frame (playback then moves past it), nothing otherwise.
pub open spec fn played(t0: TrainingMode, t1: TrainingMode, frame: u64, r: Option<ActionType>) -> bool {
    &&& t1.recorded_actions == t0.recorded_actions
    &&& t1.playback_mode == t0.playback_mode
    &&& same_settings(t0, t1)
    &&& if t0.playback_mode && t0.playback_index < t0.recorded_actions@.len()
        && t0.recorded_actions@[t0.playback_index as int].frame == frame {
        &&& r == Some(t0.recorded_actions@[t0.playback_index as int].action_type)
        &&& t1.playback_index == t0.playback_index + 1
    } else {
        &&& r is None
        &&& t1.playback_index == t0.playback_index
    }
}

impl TrainingMode {
    /// Training off, idle dummy, infinite meter and health, damage values
    /// shown, nothing recorded.
    pub fn new() -> (t: TrainingMode)
        ensures
            !t.enabled,
            t.dummy_behavior == DummyBehavior::Idle,
            !t.reset_position,
            t.infinite_meter,
            t.infinite_health,
            t.show_damage_values,
            !t.record_mode,
            t.recorded_actions@.len() == 0,
            !t.playback_mode,
            t.playback_index == 0,
    {
        TrainingMode {
            enabled: false,
            dummy_behavior: DummyBehavior::Idle,
            reset_position: false,
            infinite_meter: true,
            infinite_health: true,
            show_damage_values: true,
            record_mode: false,
            recorded_actions: Vec::new(),
            playback_mode: false,
            playback_index: 0,
        }
    }

    /// Records `action` at `frame` when record mode is on.
    pub fn record_action(&mut self, frame: u64, action: ActionType)
        ensures
            recorded(*old(self), *final(self), frame, action),
    {
        if self.record_mode {
            let move_id = match action {
                ActionType::Move(id) => Some(id),
                _ => None,
            };
            self.recorded_actions.push(RecordedAction { frame, action_type: action, move_id });
        }
    }

    /// Starts playing the recording from its first action.
    pub fn start_playback(&mut self)
        ensures
            final(self).playback_mode,
            final(self).playback_index == 0,
            final(self).recorded_actions == old(self).recorded_actions,
            same_settings(*old(self), *final(self)),
    {
        self.playback_mode = true;
        self.playback_index = 0;
    }

    /// The recorded action of `frame`, if playback is on and the next
    /// recorded action belongs to that frame.
    pub fn get_playback_action(&mut self, frame: u64) -> (r: Option<ActionType>)
        ensures
            played(*old(self), *final(self), frame, r),
    {
        if !self.playback_mode || self.playback_index >= self.recorded_actions.len() {
            return None;
        }
        if self.recorded_actions[self.playback_index].frame == frame {
            let action = self.recorded_actions[self.playback_index].action_type;
            self.playback_index = self.playback_index + 1;
            Some(action)
        } else {
            None
        }
    }
}

/// Playback gives back what was recorded: an action recorded at a frame, when
/// playback has reached it, is returned when that frame is asked for, and
/// playback moves on to the next one.
pub proof fn law_playback_returns_recording(t0: TrainingMode, t1: TrainingMode, t2: TrainingMode,
    t3: TrainingMode, frame: u64, action: ActionType, r: Option<ActionType>)
    requires
        t0.record_mode,
        recorded(t0, t1, frame, action),
        t2.recorded_actions == t1.recorded_actions,
        t2.playback_mode,
        t2.playback_index == t0.recorded_actions@.len(),
        played(t2, t3, frame, r),
    ensures
        r == Some(action),
        t3.playback_index == t2.playback_index + 1,
{
}

/// Playback never skips an action: asking for any other frame than the next
/// recorded one returns nothing and keeps the position.
pub proof fn law_playback_waits_for_its_frame(t0: TrainingMode, t1: TrainingMode, frame: u64,
    r: Option<ActionType>)
    requires
        t0.playback_index < t0.recorded_actions@.len(),
        t0.recorded_actions@[t0.playback_index as int].frame != frame,
        played(t0, t1, frame, r),
    ensures
        r is None,
        t1.playback_index == t0.playback_index,
{
}

// ---------------------------------------------------------------------------
// Combo tracking per entity
// ---------------------------------------------------------------------------

/// The combo an entity is landing: its hit count, the moves it used, whether
/// it juggles, its style rank, and whether it was just dropped. (Its damage,
/// style points and the time since its last hit are fractional and kept by
/// the game alongside.)
pub struct ComboData {
    pub hit_count: u32,
    pub moves_used: Vec<MoveId>,
    pub juggle_active: bool,
    pub style_rank: StyleRank,
    pub combo_dropped: bool,
}

/// Combos of every registered entity, by entity id, and the hit counts at
/// which the style ranks are reached. (The decay time is fractional and kept
/// by the game alongside.)
pub struct ComboTracker {
    pub active_combos: HashMap<u32, ComboData>,
    pub style_thresholds: Vec<(u32, StyleRank)>,
}

/// The style rank after scanning `thresholds` in order for a combo of `hits`
/// hits whose rank was `prev`: each threshold the count reaches sets its
/// rank.
pub open spec fn style_after(thresholds: Seq<(u32, StyleRank)>, hits: u32, prev: StyleRank) -> StyleRank
    decreases thresholds.len(),
{
    if thresholds.len() == 0 {
        prev
    } else {
        let r = style_after(thresholds.drop_last(), hits, prev);
        if hits >= thresholds.last().0 {
            thresholds.last().1
        } else {
            r
        }
    }
}

/// The hit counts at which the style ranks are reached.
pub open spec fn default_thresholds() -> Seq<(u32, StyleRank)> {
    seq![
        (3u32, StyleRank::D),
        (5u32, StyleRank::C),
        (8u32, StyleRank::B),
        (12u32, StyleRank::A),
        (20u32, StyleRank::S),
        (30u32, StyleRank::SS),
        (50u32, StyleRank::SSS),
    ]
}

/// A combo with no hit yet.
pub open spec fn fresh_combo(d: ComboData) -> bool {
    &&& d.hit_count == 0
    &&& d.moves_used@.len() == 0
    &&& !d.juggle_active
    &&& d.style_rank == StyleRank::D
    &&& !d.combo_dropped
}

/// `d1` is `d0` after a hit with `move_id`, ranked by `thresholds`.
pub open spec fn hit_added(d0: ComboData, d1: ComboData, move_id: MoveId, thresholds: Seq<(u32, StyleRank)>) -> bool {
    &&& d1.hit_count == d0.hit_count + 1
    &&& d1.moves_used@ == d0.moves_used@.push(move_id)
    &&& d1.juggle_active == d0.juggle_active
    &&& !d1.combo_dropped
    &&& d1.style_rank == style_after(thresholds, d1.hit_count, d0.style_rank)
}

fn fresh_combo_data() -> (d: ComboData)
    ensures
        fresh_combo(d),
{
    ComboData { hit_count: 0, moves_used: Vec::new(), juggle_active: false, style_rank: StyleRank::D, combo_dropped: false }
}

impl ComboTracker {
    /// No entity registered; style ranks D at 3 hits, C at 5, B at 8, A at
    /// 12, S at 20, SS at 30 and SSS at 50.
    pub fn new() -> (t: ComboTracker)
        ensures
            t.active_combos@ == Map::<u32, ComboData>::empty(),
            t.style_thresholds@ == default_thresholds(),
    {
        let mut v: Vec<(u32, StyleRank)> = Vec::new();
        v.push((3, StyleRank::D));
        v.push((5, StyleRank::C));
        v.push((8, StyleRank::B));
        v.push((12, StyleRank::A));
        v.push((20, StyleRank::S));
        v.push((30, StyleRank::SS));
        v.push((50, StyleRank::SSS));
        assert(v@ =~= default_thresholds());
        ComboTracker { active_combos: HashMap::new(), style_thresholds: v }
    }

    /// Starts tracking an entity with no hit yet, replacing what was tracked
    /// for it.
    pub fn register_character(&mut self, entity_id: u32)
        ensures
            final(self).active_combos@.dom() == old(self).active_combos@.dom().insert(entity_id),
            fresh_combo(final(self).active_combos@[entity_id]),
            forall|e: u32| e != entity_id && old(self).active_combos@.contains_key(e)
                ==> final(self).active_combos@[e] == old(self).active_combos@[e],
            final(self).style_thresholds == old(self).style_thresholds,
    {
        broadcast use vstd::std_specs::hash::group_hash_axioms;
        self.active_combos.insert(entity_id, fresh_combo_data());
    }

    fn ranked(&self, hits: u32, prev: StyleRank) -> (r: StyleRank)
        ensures
            r == style_after(self.style_thresholds@, hits, prev),
    {
        let mut r = prev;
        let mut i: usize = 0;
        while i < self.style_thresholds.len()
            invariant
                0 <= i <= self.style_thresholds@.len(),
                r == style_after(self.style_thresholds@.take(i as int), hits, prev),
            decreases self.style_thresholds@.len() - i,
        {
            assert(self.style_thresholds@.take(i as int + 1).drop_last() =~= self.style_thresholds@.take(i as int));
            let (threshold, rank) = self.style_thresholds[i];
            if hits >= threshold {
                r = rank;
            }
            i = i + 1;
        }
        assert(self.style_thresholds@.take(i as int) =~= self.style_thresholds@);
        r
    }

    /// Counts a hit with `move_id` for a tracked entity: one more hit, the
    /// move recorded, the combo no longer dropped, and the style rank of each
    /// threshold the count reaches. An untracked entity changes nothing.
    pub fn add_hit(&mut self, entity_id: u32, move_id: MoveId)
        requires
            old(self).active_combos@.contains_key(entity_id) ==> old(self).active_combos@[entity_id].hit_count < u32::MAX,
        ensures
            final(self).active_combos@.dom() == old(self).active_combos@.dom(),
            old(self).active_combos@.contains_key(entity_id) ==> hit_added(old(self).active_combos@[entity_id],
                final(self).active_combos@[entity_id], move_id, old(self).style_thresholds@),
            forall|e: u32| e != entity_id && old(self).active_combos@.contains_key(e)
                ==> final(self).active_combos@[e] == old(self).active_combos@[e],
            final(self).style_thresholds == old(self).style_thresholds,
    {
        broadcast use vstd::std_specs::hash::group_hash_axioms;
        let ghost m0 = self.active_combos@;
        match self.active_combos.remove(&entity_id) {
            Some(mut combo) => {
                combo.hit_count = combo.hit_count + 1;
                combo.moves_used.push(move_id);
                combo.combo_dropped = false;
                combo.style_rank = self.ranked(combo.hit_count, combo.style_rank);
                self.active_combos.insert(entity_id, combo);
                assert(self.active_combos@.dom() =~= m0.dom());
            },
            None => {},
        }
    }

    /// Drops the combo of a tracked entity that has hits: marked dropped,
    /// no hits, no moves, style rank D. Anything else changes nothing.
    pub fn drop_combo(&mut self, entity_id: u32)
        ensures
            final(self).active_combos@.dom() == old(self).active_combos@.dom(),
            old(self).active_combos@.contains_key(entity_id) ==> {
                let d0 = old(self).active_combos@[entity_id];
                let d1 = final(self).active_combos@[entity_id];
                if d0.hit_count > 0 {
                    &&& d1.combo_dropped
                    &&& d1.hit_count == 0
                    &&& d1.moves_used@.len() == 0
                    &&& d1.style_rank == StyleRank::D
                    &&& d1.juggle_active == d0.juggle_active
                } else {
                    d1 == d0
                }
            },
            forall|e: u32| e != entity_id && old(self).active_combos@.contains_key(e)
                ==> final(self).active_combos@[e] == old(self).active_combos@[e],
            final(self).style_thresholds == old(self).style_thresholds,
    {
        broadcast use vstd::std_specs::hash::group_hash_axioms;
        let ghost m0 = self.active_combos@;
        match self.active_combos.remove(&entity_id) {
            Some(mut combo) => {
                if combo.hit_count > 0 {
                    combo.combo_dropped = true;
                    combo.hit_count = 0;
                    combo.moves_used.clear();
                    combo.style_rank = StyleRank::D;
                }
                self.active_combos.insert(entity_id, combo);
                assert(self.active_combos@.dom() =~= m0.dom());
            },
            None => {},
        }
    }

    /// The hits of an entity's combo; 0 when it is not tracked.
    pub fn get_combo_count(&self, entity_id: u32) -> (n: u32)
        ensures
            n == if self.active_combos@.contains_key(entity_id) { self.active_combos@[entity_id].hit_count } else { 0 },
    {
        broadcast use vstd::std_specs::hash::group_hash_axioms;
        match self.active_combos.get(&entity_id) {
            Some(c) => c.hit_count,
            None => 0,
        }
    }
}

/// Past the first threshold the style rank depends on the hit count alone,
/// and a longer combo never holds a lower rank.
pub proof fn law_style_rank_follows_hits(a: u32, b: u32, prev_a: StyleRank, prev_b: StyleRank)
    requires
        3 <= a <= b,
    ensures
        style_after(default_thresholds(), a, prev_a) == style_after(default_thresholds(), a, prev_b),
        style_order(style_after(default_thresholds(), a, prev_a))
            <= style_order(style_after(default_thresholds(), b, prev_b)),
{
    reveal_with_fuel(style_after, 8);
}

// ---------------------------------------------------------------------------
// Frame data display
// ---------------------------------------------------------------------------

/// A move input seen by the frame data display.
#[derive(Clone, Copy, Debug, PartialEq, Eq, Structural)]
pub struct InputRecord {
    pub frame: u64,
    pub move_id: MoveId,
    pub character_type: CharacterType,
}

/// Training-mode overlay settings and the recent move inputs it lists.
pub struct FrameDataDisplay {
    pub enabled: bool,
    pub show_hitboxes: bool,
    pub show_hurtboxes: bool,
    pub show_frame_advantage: bool,
    pub show_input_history: bool,
    pub input_history: Vec<InputRecord>,
    pub max_history: usize,
}

/// `h` with `r` appended, the oldest record dropped when that makes more
/// than `max`.
pub open spec fn history_after(h: Seq<InputRecord>, r: InputRecord, max: usize) -> Seq<InputRecord> {
    if h.len() + 1 > max {
        h.push(r).drop_first()
    } else {
        h.push(r)
    }
}

impl FrameDataDisplay {
    /// Overlay off; hitboxes, hurtboxes, frame advantage and input history
    /// shown once it is on; an empty history of at most 20 inputs.
    pub fn new() -> (d: FrameDataDisplay)
        ensures
            !d.enabled,
            d.show_hitboxes,
            d.show_hurtboxes,
            d.show_frame_advantage,
            d.show_input_history,
            d.input_history@.len() == 0,
            d.max_history == 20,
    {
        FrameDataDisplay {
            enabled: false,
            show_hitboxes: true,
            show_hurtboxes: true,
            show_frame_advantage: true,
            show_input_history: true,
            input_history: Vec::new(),
            max_history: 20,
        }
    }

    /// Records a move input at the end of the history, dropping the oldest
    /// record when the history grows past its maximum.
    pub fn record_input(&mut self, frame: u64, move_id: MoveId, character_type: CharacterType)
        ensures
            final(self).input_history@ == history_after(old(self).input_history@,
                InputRecord { frame, move_id, character_type }, old(self).max_history),
            final(self).max_history == old(self).max_history,
            final(self).enabled == old(self).enabled,
    {
        self.input_history.push(InputRecord { frame, move_id, character_type });
        if self.input_history.len() > self.max_history {
            self.input_history.remove(0);
        }
    }
}

/// The history never outgrows its maximum once within it, and the input just
/// recorded is always its newest entry.
pub proof fn law_history_bounded(h: Seq<InputRecord>, r: InputRecord, max: usize)
    requires
        h.len() <= max,
    ensures
        history_after(h, r, max).len() <= max,
        history_after(h, r, max).len() > 0 ==> history_after(h, r, max).last() == r,
{
}

// ---------------------------------------------------------------------------
// Match statistics
// ---------------------------------------------------------------------------

/// The whole-number statistics of a match, per entity: hits landed and
/// taken, blocks, parries, counters, critical hits, longest combo and
/// knock-outs. (Damage totals, meter used and the match clock are fractions
/// kept by the caller.)
pub struct CombatStatistics {
    pub hits_landed: HashMap<u32, u32>,
    pub hits_taken: HashMap<u32, u32>,
    pub blocks: HashMap<u32, u32>,
    pub parries: HashMap<u32, u32>,
    pub counters: HashMap<u32, u32>,
    pub critical_hits: HashMap<u32, u32>,
    pub max_combo: HashMap<u32, u32>,
    pub ko_count: HashMap<u32, u32>,
}

/// The count an entity has in `m`; 0 when it has none.
pub open spec fn count_of(m: Map<u32, u32>, e: u32) -> u32 {
    if m.contains_key(e) {
        m[e]
    } else {
        0
    }
}

impl CombatStatistics {
    /// Nothing counted for anyone.
    pub fn new() -> (s: CombatStatistics)
        ensures
            s.hits_landed@ == Map::<u32, u32>::empty(),
            s.hits_taken@ == Map::<u32, u32>::empty(),
            s.blocks@ == Map::<u32, u32>::empty(),
            s.parries@ == Map::<u32, u32>::empty(),
            s.counters@ == Map::<u32, u32>::empty(),
            s.critical_hits@ == Map::<u32, u32>::empty(),
            s.max_combo@ == Map::<u32, u32>::empty(),
            s.ko_count@ == Map::<u32, u32>::empty(),
    {
        CombatStatistics {
            hits_landed: HashMap::new(),
            hits_taken: HashMap::new(),
            blocks: HashMap::new(),
            parries: HashMap::new(),
            counters: HashMap::new(),
            critical_hits: HashMap::new(),
            max_combo: HashMap::new(),
            ko_count: HashMap::new(),
        }
    }

    /// Counts one more hit landed by `entity_id`.
    pub fn record_hit_landed(&mut self, entity_id: u32)
        requires
            count_of(old(self).hits_landed@, entity_id) < u32::MAX,
        ensures
            final(self).hits_landed@ == old(self).hits_landed@.insert(entity_id,
                (count_of(old(self).hits_landed@, entity_id) + 1) as u32),
            *final(self) == (CombatStatistics { hits_landed: final(self).hits_landed, ..*old(self) }),
    {
        broadcast use vstd::std_specs::hash::group_hash_axioms;
        let n: u32 = match self.hits_landed.get(&entity_id) {
            Some(v) => *v,
            None => 0,
        };
        self.hits_landed.insert(entity_id, n + 1);
    }

    /// Keeps the longest combo of `entity_id`: the larger of the one kept
    /// and `combo_count`.
    pub fn record_combo(&mut self, entity_id: u32, combo_count: u32)
        ensures
            final(self).max_combo@ == old(self).max_combo@.insert(entity_id,
                if count_of(old(self).max_combo@, entity_id) >= combo_count {
                    count_of(old(self).max_combo@, entity_id)
                } else {
                    combo_count
                }),
            *final(self) == (CombatStatistics { max_combo: final(self).max_combo, ..*old(self) }),
            count_of(final(self).max_combo@, entity_id) >= count_of(old(self).max_combo@, entity_id),
            count_of(final(self).max_combo@, entity_id) >= combo_count,
    {
        broadcast use vstd::std_specs::hash::group_hash_axioms;
        let current: u32 = match self.max_combo.get(&entity_id) {
            Some(v) => *v,
            None => 0,
        };
        let best = if current >= combo_count { current } else { combo_count };
        self.max_combo.insert(entity_id, best);
    }
}

// ---------------------------------------------------------------------------
// Match replays
// ---------------------------------------------------------------------------

/// A match recorder and player: the frames recorded (each a snapshot of type
/// `S`, which the recorder does not read), at most `max_frames` of them, and
/// the frame shown when playing back. (The playback speed, a fraction, is
/// kept by the caller, which turns elapsed time into whole frames.)
pub struct ReplaySystem<S> {
    pub recording: bool,
    pub recorded_frames: Vec<S>,
    pub playback_mode: bool,
    pub playback_frame: usize,
    pub max_frames: usize,
}

/// `frames` with `s` appended, the oldest frame dropped when that makes more
/// than `max`.
pub open spec fn frames_after<S>(frames: Seq<S>, s: S, max: usize) -> Seq<S> {
    if frames.len() + 1 > max {
        frames.push(s).drop_first()
    } else {
        frames.push(s)
    }
}

impl<S> ReplaySystem<S> {
    /// Not recording, not playing, room for 36000 frames (ten minutes at 60
    /// frames a second).
    pub fn new() -> (r: ReplaySystem<S>)
        ensures
            !r.recording,
            r.recorded_frames@.len() == 0,
            !r.playback_mode,
            r.playback_frame == 0,
            r.max_frames == 36000,
    {
        ReplaySystem {
            recording: false,
            recorded_frames: Vec::new(),
            playback_mode: false,
            playback_frame: 0,
            max_frames: 36000,
        }
    }

    /// Starts a new recording, dropping the frames recorded before.
    pub fn start_recording(&mut self)
        ensures
            final(self).recording,
            final(self).recorded_frames@.len() == 0,
            final(self).playback_mode == old(self).playback_mode,
            final(self).playback_frame == old(self).playback_frame,
            final(self).max_frames == old(self).max_frames,
    {
        self.recording = true;
        self.recorded_frames.clear();
    }

    /// While recording, appends `snapshot`, dropping the oldest frame when
    /// there would be more than `max_frames`; otherwise changes nothing.
    pub fn record_frame(&mut self, snapshot: S)
        ensures
            final(self).recording == old(self).recording,
            final(self).playback_mode == old(self).playback_mode,
            final(self).playback_frame == old(self).playback_frame,
            final(self).max_frames == old(self).max_frames,
            final(self).recorded_frames@ == if old(self).recording {
                frames_after(old(self).recorded_frames@, snapshot, old(self).max_frames)
            } else {
                old(self).recorded_frames@
            },
    {
        if !self.recording {
            return;
        }
        self.recorded_frames.push(snapshot);
        if self.recorded_frames.len() > self.max_frames {
            self.recorded_frames.remove(0);
        }
    }

    /// Stops recording; the frames stay.
    pub fn stop_recording(&mut self)
        ensures
            !final(self).recording,
            final(self).recorded_frames@ == old(self).recorded_frames@,
            final(self).playback_mode == old(self).playback_mode,
            final(self).playback_frame == old(self).playback_frame,
            final(self).max_frames == old(self).max_frames,
    {
        self.recording = false;
    }

    /// Starts playing back from the first frame.
    pub fn start_playback(&mut self)
        ensures
            final(self).playback_mode,
            final(self).playback_frame == 0,
            final(self).recording == old(self).recording,
            final(self).recorded_frames@ == old(self).recorded_frames@,
            final(self).max_frames == old(self).max_frames,
    {
        self.playback_mode = true;
        self.playback_frame = 0;
    }

    /// The frame shown, while playing back and while there is one.
    pub fn get_current_frame(&self) -> (f: Option<&S>)
        ensures
            match f {
                Some(s) => self.playback_mode && self.playback_frame < self.recorded_frames@.len()
                    && *s == self.recorded_frames@[self.playback_frame as int],
                None => !self.playback_mode || self.playback_frame >= self.recorded_frames@.len(),
            },
    {
        if self.playback_mode && self.playback_frame < self.recorded_frames.len() {
            Some(&self.recorded_frames[self.playback_frame])
        } else {
            None
        }
    }

    /// While playing back, moves `frames` frames on, stopping at the last
    /// frame.
    pub fn advance_playback(&mut self, frames: usize)
        requires
            old(self).playback_mode ==> old(self).recorded_frames@.len() > 0,
        ensures
            final(self).playback_frame == if old(self).playback_mode {
                vstd::math::min(old(self).playback_frame + frames, old(self).recorded_frames@.len() - 1) as usize
            } else {
                old(self).playback_frame
            },
            final(self).playback_mode == old(self).playback_mode,
            final(self).recording == old(self).recording,
            final(self).recorded_frames@ == old(self).recorded_frames@,
            final(self).max_frames == old(self).max_frames,
    {
        if !self.playback_mode {
            return;
        }
        let last = self.recorded_frames.len() - 1;
        let target = self.playback_frame.saturating_add(frames);
        self.playback_frame = if target < last { target } else { last };
    }

    /// Shows frame `frame`, or the last frame when there are fewer.
    pub fn seek_frame(&mut self, frame: usize)
        requires
            old(self).recorded_frames@.len() > 0,
        ensures
            final(self).playback_frame == vstd::math::min(frame as int, old(self).recorded_frames@.len() - 1) as usize,
            final(self).playback_mode == old(self).playback_mode,
            final(self).recording == old(self).recording,
            final(self).recorded_frames@ == old(self).recorded_frames@,
            final(self).max_frames == old(self).max_frames,
    {
        let last = self.recorded_frames.len() - 1;
        self.playback_frame = if frame < last { frame } else { last };
    }
}

/// A recording never outgrows its maximum once within it, and the frame just
/// recorded is always its newest.
pub proof fn law_recording_bounded<S>(frames: Seq<S>, s: S, max: usize)
    requires
        frames.len() <= max,
    ensures
        frames_after(frames, s, max).len() <= max,
        frames_after(frames, s, max).len() > 0 ==> frames_after(frames, s, max).last() == s,
{
}

} // verus!

use vstd::prelude::*;

verus! {

/// The bosses of the game.
#[derive(Clone, Copy, Debug, PartialEq, Eq, Structural)]
pub enum BossType {
    Bastiaan,
    KeizerBomTaha,
    Mees,
    PrincipalVanDerBerg,
    JanitorKing,
    HeadChef,
}

impl BossType {
    /// The boss's name.
    pub fn to_string(&self) -> (s: &'static str)
        ensures
            s@ == match *self {
                BossType::Bastiaan => "Bastiaan"@,
                BossType::KeizerBomTaha => "Keizer Bom Taha"@,
                BossType::Mees => "Mees"@,
                BossType::PrincipalVanDerBerg => "Principal Van Der Berg"@,
                BossType::JanitorKing => "The Janitor King"@,
                BossType::HeadChef => "Head Chef Ramsey"@,
            },
    {
        match self {
            BossType::Bastiaan => "Bastiaan",
            BossType::KeizerBomTaha => "Keizer Bom Taha",
            BossType::Mees => "Mees",
            BossType::PrincipalVanDerBerg => "Principal Van Der Berg",
            BossType::JanitorKing => "The Janitor King",
            BossType::HeadChef => "Head Chef Ramsey",
        }
    }

    /// The text shown when the boss enters; the three new bosses have their
    /// own, the others share one.
    pub fn get_intro_text(&self) -> (s: &'static str)
        ensures
            s@ == match *self {
                BossType::PrincipalVanDerBerg => "Principal Van Der Berg blocks your path!\n'Detention for all of you!'"@,
                BossType::JanitorKing => "The Janitor King emerges from his domain!\n'This school will be SPOTLESS!'"@,
                BossType::HeadChef => "Head Chef Ramsey guards the cafeteria!\n'YOU'RE DONE! THIS KITCHEN IS CLOSED!'"@,
                _ => "A powerful foe appears!"@,
            },
    {
        match self {
            BossType::PrincipalVanDerBerg => "Principal Van Der Berg blocks your path!\n'Detention for all of you!'",
            BossType::JanitorKing => "The Janitor King emerges from his domain!\n'This school will be SPOTLESS!'",
            BossType::HeadChef => "Head Chef Ramsey guards the cafeteria!\n'YOU'RE DONE! THIS KITCHEN IS CLOSED!'",
            _ => "A powerful foe appears!",
        }
    }
}

/// What a boss is doing.
#[derive(Clone, Copy, Debug, PartialEq, Eq, Structural)]
pub enum BossAIState {
    Idle,
    Approaching,
    Attacking,
    Defensive,
    Summoning,
    PhaseTransition,
    Enraged,
    Retreating,
}

/// How a boss picks its next attack.
#[derive(Clone, Copy, Debug, PartialEq, Eq, Structural)]
pub enum PatternType {
    Sequential,
    Random,
    Adaptive,
    PhaseBased,
}

/// The phase and attack bookkeeping of a boss: its type, phase, state, and
/// which of its attacks comes next. (Its health, phase thresholds, attacks,
/// cooldowns, timers and position are fractional and kept by the game
/// alongside.)
pub struct BossController {
    pub boss_type: BossType,
    pub current_phase: u32,
    pub max_phases: u32,
    pub invulnerable: bool,
    pub summoning_minions: bool,
    pub ai_state: BossAIState,
    pub current_attack_index: usize,
    pub attack_count: usize,
    pub pattern_type: PatternType,
}

/// The state a boss is in right after entering `phase`: the Principal
/// enrages in phase 3, the Head Chef in phase 2, anyone else pauses for the
/// transition.
pub open spec fn state_after_transition(boss: BossType, phase: u32) -> BossAIState {
    if (boss == BossType::PrincipalVanDerBerg && phase == 3) || (boss == BossType::HeadChef && phase == 2) {
        BossAIState::Enraged
    } else {
        BossAIState::PhaseTransition
    }
}

/// `b1` is `b0` after entering `phase`: invulnerable while it transitions,
/// in the state `state_after_transition` gives, and, for the Principal's
/// second phase, summoning minions.
pub open spec fn transitioned(b0: BossController, b1: BossController, phase: u32) -> bool {
    &&& b1.current_phase == phase
    &&& b1.invulnerable
    &&& b1.ai_state == state_after_transition(b0.boss_type, phase)
    &&& b1.summoning_minions == (b0.summoning_minions || (b0.boss_type == BossType::PrincipalVanDerBerg
        && phase == 2))
    &&& b1.boss_type == b0.boss_type
    &&& b1.max_phases == b0.max_phases
    &&& b1.current_attack_index == b0.current_attack_index
    &&& b1.attack_count == b0.attack_count
    &&& b1.pattern_type == b0.pattern_type
}

/// The first threshold, at or after `i`, that the health has reached and
/// whose phase (its position plus 2) is ahead of `current`.
pub open spec fn first_transition(reached: Seq<bool>, current: u32, i: int) -> Option<int>
    decreases reached.len() - i,
{
    if i < 0 || i >= reached.len() {
        None
    } else if reached[i] && current < i + 2 {
        Some(i)
    } else {
        first_transition(reached, current, i + 1)
    }
}

impl BossController {
    /// A boss of `boss_type` in phase 1 of `max_phases`, idle, with
    /// `attack_count` attacks picked by `pattern_type`, starting with the first.
    pub fn new(boss_type: BossType, max_phases: u32, attack_count: usize, pattern_type: PatternType) -> (b: BossController)
        ensures
            b.boss_type == boss_type,
            b.current_phase == 1,
            b.max_phases == max_phases,
            !b.invulnerable,
            !b.summoning_minions,
            b.ai_state == BossAIState::Idle,
            b.current_attack_index == 0,
            b.attack_count == attack_count,
            b.pattern_type == pattern_type,
    {
        BossController {
            boss_type,
            current_phase: 1,
            max_phases,
            invulnerable: false,
            summoning_minions: false,
            ai_state: BossAIState::Idle,
            current_attack_index: 0,
            attack_count,
            pattern_type,
        }
    }

    fn transition_to_phase(&mut self, phase: u32)
        ensures
            transitioned(*old(self), *final(self), phase),
    {
        self.current_phase = phase;
        self.invulnerable = true;
        self.ai_state = BossAIState::PhaseTransition;
        match self.boss_type {
            BossType::PrincipalVanDerBerg => {
                if phase == 2 {
                    self.summoning_minions = true;
                } else if phase == 3 {
                    self.ai_state = BossAIState::Enraged;
                }
            },
            BossType::HeadChef => {
                if phase == 2 {
                    self.ai_state = BossAIState::Enraged;
                }
            },
            _ => {},
        }
    }

    /// Enters the next phase that the health calls for: `thresholds_reached`
    /// says, threshold by threshold, whether the health is at or below it.
    /// The first threshold reached whose phase (its position plus 2) is ahead
    /// of the current one is entered; when there is none nothing changes.
    pub fn check_phase_transition(&mut self, thresholds_reached: &[bool])
        requires
            thresholds_reached@.len() + 2 <= u32::MAX,
        ensures
            match first_transition(thresholds_reached@, old(self).current_phase, 0) {
                Some(i) => transitioned(*old(self), *final(self), (i + 2) as u32),
                None => *final(self) == *old(self),
            },
    {
        let mut i: usize = 0;
        while i < thresholds_reached.len()
            invariant
                0 <= i <= thresholds_reached@.len(),
                thresholds_reached@.len() + 2 <= u32::MAX,
                *self == *old(self),
                first_transition(thresholds_reached@, self.current_phase, 0)
                    == first_transition(thresholds_reached@, self.current_phase, i as int),
            decreases thresholds_reached@.len() - i,
        {
            let next_phase = (i + 2) as u32;
            if thresholds_reached[i] && self.current_phase < next_phase {
                self.transition_to_phase(next_phase);
                return;
            }
            i = i + 1;
        }
    }

    /// Moves on to the next attack: the following one, round the list, for
    /// every pattern but `Random`, which takes `random_index` round the list.
    pub fn advance_attack_pattern(&mut self, random_index: usize)
        requires
            old(self).attack_count > 0,
            old(self).pattern_type != PatternType::Random ==> old(self).current_attack_index < usize::MAX,
        ensures
            final(self).current_attack_index == if old(self).pattern_type == PatternType::Random {
                random_index % old(self).attack_count
            } else {
                ((old(self).current_attack_index + 1) % (old(self).attack_count as int)) as usize
            },
            final(self).current_attack_index < final(self).attack_count,
            final(self).attack_count == old(self).attack_count,
            final(self).pattern_type == old(self).pattern_type,
            final(self).current_phase == old(self).current_phase,
            final(self).ai_state == old(self).ai_state,
            final(self).invulnerable == old(self).invulnerable,
    {
        match self.pattern_type {
            PatternType::Random => {
                self.current_attack_index = random_index % self.attack_count;
            },
            _ => {
                self.current_attack_index = (self.current_attack_index + 1) % self.attack_count;
            },
        }
    }
}

/// Phases only move forward: a transition enters a phase ahead of the
/// current one.
pub proof fn law_phase_moves_forward(reached: Seq<bool>, current: u32)
    ensures
        first_transition(reached, current, 0) matches Some(i) ==> current < i + 2,
{
    lemma_first_transition_ahead(reached, current, 0);
}

proof fn lemma_first_transition_ahead(reached: Seq<bool>, current: u32, i: int)
    ensures
        first_transition(reached, current, i) matches Some(j) ==> current < j + 2 && reached[j] && i <= j,
    decreases reached.len() - i,
{
    if 0 <= i < reached.len() && !(reached[i] && current < i + 2) {
        lemma_first_transition_ahead(reached, current, i + 1);
    }
}

} // verus!

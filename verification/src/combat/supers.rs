use vstd::prelude::*;
use crate::combat::inputs::InputAction;

verus! {

/// The three phases a super move goes through on screen.
#[derive(Clone, Copy, Debug, PartialEq, Eq, Structural)]
pub enum SuperPhase {
    Startup,
    Active,
    Recovery,
}

/// A character's super move. Its meter cost and damage are whole amounts.
#[derive(Clone, Debug)]
pub struct SuperMove {
    pub name: String,
    pub character_name: String,
    pub input_sequence: Vec<InputAction>,
    pub meter_cost: u32,
    pub damage: u32,
    pub invulnerability_frames: u32,
    pub cinematic: bool,
}

/// A super move being played: how long it has run and how long it lasts
/// (milliseconds of game time), and the phase it is in.
#[derive(Clone, Debug)]
pub struct ActiveSuper {
    pub super_move: SuperMove,
    pub timer_ms: u64,
    pub total_duration_ms: u64,
    pub phase: SuperPhase,
}

/// The super moves on offer and the one being played, if any.
pub struct SuperManager {
    pub available_supers: Vec<SuperMove>,
    pub active_super: Option<ActiveSuper>,
}

/// How long every super move lasts, in milliseconds.
pub const SUPER_DURATION_MS: u64 = 3000;

/// Number of super moves on offer.
pub open spec fn super_count() -> int {
    5
}

/// Super move `k` of the catalogue: name, character, input sequence, meter
/// cost, damage, invulnerability frames, and whether it plays a cinematic.
pub open spec fn super_entry(k: int) -> (Seq<char>, Seq<char>, Seq<InputAction>, u32, u32, u32, bool) {
    if k == 0 {
        ("Veeg Barrage"@, "Bas"@, seq![InputAction::Down, InputAction::Down, InputAction::Super], 50u32, 40u32, 60u32, true)
    } else if k == 1 {
        ("Winter Arc Awakening"@, "Luca"@, seq![InputAction::Special, InputAction::Special, InputAction::Super], 75u32, 50u32, 90u32, true)
    } else if k == 2 {
        ("Barras Storm"@, "Nitin"@, seq![InputAction::LightAttack, InputAction::HeavyAttack, InputAction::Super], 50u32, 35u32, 45u32, false)
    } else if k == 3 {
        ("Discipline Wave"@, "Wolters"@, seq![InputAction::HeavyAttack, InputAction::HeavyAttack, InputAction::Super], 100u32, 60u32, 120u32, true)
    } else {
        ("Perfect Art"@, "Bastiaan"@, seq![InputAction::Special, InputAction::HeavyAttack, InputAction::Super], 100u32, 55u32, 100u32, true)
    }
}

/// `s` is the catalogue entry `e`.
pub open spec fn is_super_entry(s: SuperMove, e: (Seq<char>, Seq<char>, Seq<InputAction>, u32, u32, u32, bool)) -> bool {
    &&& s.name@ == e.0
    &&& s.character_name@ == e.1
    &&& s.input_sequence@ == e.2
    &&& s.meter_cost == e.3
    &&& s.damage == e.4
    &&& s.invulnerability_frames == e.5
    &&& s.cinematic == e.6
}

/// The phase of a super that has run `timer_ms` milliseconds: startup for
/// the first half second, active until two and a half seconds, then recovery.
pub open spec fn phase_at(timer_ms: int) -> SuperPhase {
    if timer_ms < 500 {
        SuperPhase::Startup
    } else if timer_ms < 2500 {
        SuperPhase::Active
    } else {
        SuperPhase::Recovery
    }
}

/// A super that has just started.
pub open spec fn started(s: SuperMove) -> ActiveSuper {
    ActiveSuper { super_move: s, timer_ms: 0, total_duration_ms: 3000, phase: SuperPhase::Startup }
}

/// The super being played after `dt_ms` more milliseconds: its timer moves
/// on and its phase follows the timer; it is over once the timer reaches its
/// duration.
pub open spec fn advanced(a: Option<ActiveSuper>, dt_ms: int) -> Option<ActiveSuper> {
    match a {
        None => None,
        Some(s) => {
            let t = s.timer_ms + dt_ms;
            if t >= s.total_duration_ms {
                None
            } else {
                Some(ActiveSuper {
                    super_move: s.super_move,
                    timer_ms: t as u64,
                    total_duration_ms: s.total_duration_ms,
                    phase: phase_at(t),
                })
            }
        }
    }
}

/// `s` belongs to `character` and costs no more than `meter`.
pub open spec fn affordable(s: SuperMove, character: Seq<char>, meter: u32) -> bool {
    s.character_name@ == character && s.meter_cost <= meter
}

fn inputs3(a: InputAction, b: InputAction, c: InputAction) -> (v: Vec<InputAction>)
    ensures
        v@ == seq![a, b, c],
{
    let mut v: Vec<InputAction> = Vec::new();
    v.push(a);
    v.push(b);
    v.push(c);
    v
}

fn super_move(name: &str, character_name: &str, input_sequence: Vec<InputAction>, meter_cost: u32,
    damage: u32, invulnerability_frames: u32, cinematic: bool) -> (s: SuperMove)
    ensures
        s.name@ == name@,
        s.character_name@ == character_name@,
        s.input_sequence@ == input_sequence@,
        s.meter_cost == meter_cost,
        s.damage == damage,
        s.invulnerability_frames == invulnerability_frames,
        s.cinematic == cinematic,
{
    SuperMove {
        name: String::from_str(name),
        character_name: String::from_str(character_name),
        input_sequence,
        meter_cost,
        damage,
        invulnerability_frames,
        cinematic,
    }
}

fn push_super(list: &mut Vec<SuperMove>, s: SuperMove)
    requires
        forall|j: int| 0 <= j < old(list)@.len() ==> #[trigger] is_super_entry(old(list)@[j], super_entry(j)),
        is_super_entry(s, super_entry(old(list)@.len() as int)),
    ensures
        final(list)@ == old(list)@.push(s),
        forall|j: int| 0 <= j < final(list)@.len() ==> #[trigger] is_super_entry(final(list)@[j], super_entry(j)),
{
    list.push(s);
}

impl SuperManager {
    /// The five super moves of the catalogue, none being played.
    pub fn new() -> (m: SuperManager)
        ensures
            m.available_supers@.len() == super_count(),
            forall|k: int| 0 <= k < super_count() ==> #[trigger] is_super_entry(m.available_supers@[k], super_entry(k)),
            m.active_super is None,
    {
        SuperManager { available_supers: Self::create_super_list(), active_super: None }
    }

    fn create_super_list() -> (v: Vec<SuperMove>)
        ensures
            v@.len() == super_count(),
            forall|k: int| 0 <= k < super_count() ==> #[trigger] is_super_entry(v@[k], super_entry(k)),
    {
        let mut v: Vec<SuperMove> = Vec::new();
        push_super(&mut v, super_move("Veeg Barrage", "Bas",
            inputs3(InputAction::Down, InputAction::Down, InputAction::Super), 50, 40, 60, true));
        push_super(&mut v, super_move("Winter Arc Awakening", "Luca",
            inputs3(InputAction::Special, InputAction::Special, InputAction::Super), 75, 50, 90, true));
        push_super(&mut v, super_move("Barras Storm", "Nitin",
            inputs3(InputAction::LightAttack, InputAction::HeavyAttack, InputAction::Super), 50, 35, 45, false));
        push_super(&mut v, super_move("Discipline Wave", "Wolters",
            inputs3(InputAction::HeavyAttack, InputAction::HeavyAttack, InputAction::Super), 100, 60, 120, true));
        push_super(&mut v, super_move("Perfect Art", "Bastiaan",
            inputs3(InputAction::Special, InputAction::HeavyAttack, InputAction::Super), 100, 55, 100, true));
        v
    }

    /// Starts playing `super_move` from its first millisecond.
    pub fn activate_super(&mut self, super_move: SuperMove)
        ensures
            final(self).available_supers@ == old(self).available_supers@,
            final(self).active_super == Some(started(super_move)),
    {
        self.active_super = Some(ActiveSuper {
            super_move,
            timer_ms: 0,
            total_duration_ms: SUPER_DURATION_MS,
            phase: SuperPhase::Startup,
        });
    }

    /// Moves the super being played on by `dt_ms` milliseconds.
    pub fn update(&mut self, dt_ms: u64)
        ensures
            final(self).available_supers@ == old(self).available_supers@,
            final(self).active_super == advanced(old(self).active_super, dt_ms as int),
    {
        let current = self.active_super.take();
        match current {
            None => {},
            Some(active) => {
                let t = active.timer_ms.saturating_add(dt_ms);
                if t < active.total_duration_ms {
                    let phase = if t < 500 {
                        SuperPhase::Startup
                    } else if t < 2500 {
                        SuperPhase::Active
                    } else {
                        SuperPhase::Recovery
                    };
                    self.active_super = Some(ActiveSuper {
                        super_move: active.super_move,
                        timer_ms: t,
                        total_duration_ms: active.total_duration_ms,
                        phase,
                    });
                }
            },
        }
    }

    /// Whether a super is being played.
    pub fn is_active(&self) -> (b: bool)
        ensures
            b == self.active_super is Some,
    {
        self.active_super.is_some()
    }

    /// The phase of the super being played, if any.
    pub fn get_phase(&self) -> (p: Option<SuperPhase>)
        ensures
            p == match self.active_super {
                Some(a) => Some(a.phase),
                None => None::<SuperPhase>,
            },
    {
        match &self.active_super {
            Some(a) => Some(a.phase),
            None => None,
        }
    }

    /// The first super on offer that belongs to `character` and costs no
    /// more than `meter`, if there is one.
    pub fn can_activate(&self, character: &str, meter: u32) -> (r: Option<&SuperMove>)
        ensures
            match r {
                Some(s) => exists|i: int|
                    0 <= i < self.available_supers@.len() && *s == self.available_supers@[i]
                        && affordable(self.available_supers@[i], character@, meter)
                        && forall|j: int| 0 <= j < i ==> !#[trigger] affordable(self.available_supers@[j], character@, meter),
                None => forall|j: int| 0 <= j < self.available_supers@.len()
                    ==> !#[trigger] affordable(self.available_supers@[j], character@, meter),
            },
    {
        let wanted = character.to_owned();
        let mut i: usize = 0;
        while i < self.available_supers.len()
            invariant
                0 <= i <= self.available_supers@.len(),
                wanted@ == character@,
                forall|j: int| 0 <= j < i ==> !#[trigger] affordable(self.available_supers@[j], character@, meter),
            decreases self.available_supers@.len() - i,
        {
            let s = &self.available_supers[i];
            if s.character_name == wanted && s.meter_cost <= meter {
                return Some(s);
            }
            i += 1;
        }
        None
    }
}

/// Playing a super for `d1` and then `d2` more milliseconds leaves it where
/// playing it for `d1 + d2` milliseconds at once does.
pub proof fn law_super_timer_adds_up(a: Option<ActiveSuper>, d1: u64, d2: u64)
    ensures
        advanced(advanced(a, d1 as int), d2 as int) == advanced(a, d1 + d2),
{
}

/// A super just started is still being played after `dt` milliseconds
/// exactly when `dt` is under three seconds, and then it is in the phase
/// `phase_at(dt)`.
pub proof fn law_super_lasts_three_seconds(s: SuperMove, dt: u64)
    ensures
        advanced(Some(started(s)), dt as int) is Some <==> dt < 3000,
        dt < 3000 ==> advanced(Some(started(s)), dt as int)->0.phase == phase_at(dt as int),
{
}

} // verus!

use vstd::prelude::*;
use crate::ecs::comp::CharacterType;

verus! {

/// The seven playable characters.
#[derive(Clone, Copy, Debug, PartialEq, Eq, Structural)]
pub enum CharacterId {
    Berkay,
    Luca,
    Gefferinho,
    Bas,
    Hadi,
    Nitin,
    PalaBaba,
}

/// The entity kind that stands for a playable character in the game world.
pub open spec fn character_type_of(id: CharacterId) -> CharacterType {
    match id {
        CharacterId::Berkay => CharacterType::Berkay,
        CharacterId::Luca => CharacterType::Luca,
        CharacterId::Gefferinho => CharacterType::Gefferinho,
        CharacterId::Bas => CharacterType::Bas,
        CharacterId::Hadi => CharacterType::Hadi,
        CharacterId::Nitin => CharacterType::Nitin,
        CharacterId::PalaBaba => CharacterType::YigitBaba,
    }
}

/// Position of a character in tables that hold one entry per playable character.
pub open spec fn char_index(id: CharacterId) -> int {
    match id {
        CharacterId::Berkay => 0,
        CharacterId::Luca => 1,
        CharacterId::Gefferinho => 2,
        CharacterId::Bas => 3,
        CharacterId::Hadi => 4,
        CharacterId::Nitin => 5,
        CharacterId::PalaBaba => 6,
    }
}

/// Number of playable characters.
pub const CHARACTER_COUNT: usize = 7;

/// The character at a given table position.
pub open spec fn char_at(i: int) -> CharacterId {
    if i == 0 {
        CharacterId::Berkay
    } else if i == 1 {
        CharacterId::Luca
    } else if i == 2 {
        CharacterId::Gefferinho
    } else if i == 3 {
        CharacterId::Bas
    } else if i == 4 {
        CharacterId::Hadi
    } else if i == 5 {
        CharacterId::Nitin
    } else {
        CharacterId::PalaBaba
    }
}

/// The variant name of a character, as its `Debug` form prints it.
pub open spec fn debug_name_of(id: CharacterId) -> Seq<char> {
    match id {
        CharacterId::Berkay => "Berkay"@,
        CharacterId::Luca => "Luca"@,
        CharacterId::Gefferinho => "Gefferinho"@,
        CharacterId::Bas => "Bas"@,
        CharacterId::Hadi => "Hadi"@,
        CharacterId::Nitin => "Nitin"@,
        CharacterId::PalaBaba => "PalaBaba"@,
    }
}

impl CharacterId {
    /// Table position of this character.
    pub(crate) fn slot(self) -> (i: usize)
        ensures
            i == char_index(self),
            i < CHARACTER_COUNT,
    {
        match self {
            CharacterId::Berkay => 0,
            CharacterId::Luca => 1,
            CharacterId::Gefferinho => 2,
            CharacterId::Bas => 3,
            CharacterId::Hadi => 4,
            CharacterId::Nitin => 5,
            CharacterId::PalaBaba => 6,
        }
    }

    /// The variant name of this character.
    pub fn debug_name(self) -> (s: &'static str)
        ensures
            s@ == debug_name_of(self),
    {
        match self {
            CharacterId::Berkay => "Berkay",
            CharacterId::Luca => "Luca",
            CharacterId::Gefferinho => "Gefferinho",
            CharacterId::Bas => "Bas",
            CharacterId::Hadi => "Hadi",
            CharacterId::Nitin => "Nitin",
            CharacterId::PalaBaba => "PalaBaba",
        }
    }

    /// Converts a playable character to the entity kind used by the game world.
    pub fn to_character_type(self) -> (t: CharacterType)
        ensures
            t == character_type_of(self),
    {
        match self {
            CharacterId::Berkay => CharacterType::Berkay,
            CharacterId::Luca => CharacterType::Luca,
            CharacterId::Gefferinho => CharacterType::Gefferinho,
            CharacterId::Bas => CharacterType::Bas,
            CharacterId::Hadi => CharacterType::Hadi,
            CharacterId::Nitin => CharacterType::Nitin,
            CharacterId::PalaBaba => CharacterType::YigitBaba,
        }
    }
}

/// What a character's ability does while it runs. Amounts are in
/// hundredths: a multiplier of 2.2 is 220, a health boost of 35 is 3500, a
/// splash of 45 damage over a radius of 180 is (4500, 18000), fire of 8
/// damage a second for 6 seconds is (800, 600).
#[derive(Clone, Copy, Debug, PartialEq, Eq, Structural)]
pub enum AbilityEffect {
    DamageBoost(u32),
    HealthBoost(u32),
    SpeedBoost(u32),
    SplashDamage(u32, u32),
    FireDamage(u32, u32),
}

/// A playable character: its name, its ability and the line it shouts, the
/// ability's effects, and how long the ability runs and takes to recharge
/// (milliseconds of game time).
#[derive(Clone, Debug)]
pub struct Character {
    pub id: CharacterId,
    pub name: &'static str,
    pub ability_name: &'static str,
    pub voice_line: &'static str,
    pub effects: Vec<AbilityEffect>,
    pub duration_ms: u64,
    pub cooldown_ms: u64,
}

/// The roster entry of a character: name, ability name, voice line,
/// effects, ability duration and cooldown in milliseconds.
pub open spec fn character_entry(id: CharacterId) -> (Seq<char>, Seq<char>, Seq<char>, Seq<AbilityEffect>, u64, u64) {
    match id {
        CharacterId::Berkay => ("Berkay"@, "Special Kebab"@, "ik kan niet stoppen!"@,
            seq![AbilityEffect::DamageBoost(220), AbilityEffect::HealthBoost(3500)], 6000u64, 12000u64),
        CharacterId::Luca => ("Luca"@, "Winter Arc"@, "nee nu ben ik klaar ik ga in mijn winter arc"@,
            seq![AbilityEffect::DamageBoost(280), AbilityEffect::HealthBoost(1500)], 5000u64, 12000u64),
        CharacterId::Gefferinho => ("Gefferinho"@, "Maar Mevrouw Rage"@, "maar mevouw wat doe je"@,
            seq![AbilityEffect::SpeedBoost(200), AbilityEffect::DamageBoost(200), AbilityEffect::HealthBoost(2500)],
            6000u64, 13000u64),
        CharacterId::Bas => ("Bas"@, "Bas Veeg"@, "BAS VEEG!"@,
            seq![AbilityEffect::SplashDamage(4500, 18000)], 100u64, 11000u64),
        CharacterId::Hadi => ("Hadi"@, "Dubai Emirates"@, "Dubai Emirates!"@,
            seq![AbilityEffect::SpeedBoost(320), AbilityEffect::DamageBoost(150)], 6000u64, 12000u64),
        CharacterId::Nitin => ("Nitin"@, "Barra in je Kont"@, "Barra in je kont!"@,
            seq![AbilityEffect::FireDamage(800, 600)], 1000u64, 11000u64),
        CharacterId::PalaBaba => ("Yigit Baba"@, "Sivas Rage"@, "TURKIYEEEE"@,
            seq![AbilityEffect::DamageBoost(300), AbilityEffect::SpeedBoost(300), AbilityEffect::HealthBoost(3000)],
            10000u64, 30000u64),
    }
}

/// `c` is the roster entry of `id`.
pub open spec fn is_character(c: Character, id: CharacterId) -> bool {
    let e = character_entry(id);
    &&& c.id == id
    &&& c.name@ == e.0
    &&& c.ability_name@ == e.1
    &&& c.voice_line@ == e.2
    &&& c.effects@ == e.3
    &&& c.duration_ms == e.4
    &&& c.cooldown_ms == e.5
}

/// The kinds of ability effect, in the order the variants are declared.
pub open spec fn effect_kind(e: AbilityEffect) -> int {
    match e {
        AbilityEffect::DamageBoost(_) => 0,
        AbilityEffect::HealthBoost(_) => 1,
        AbilityEffect::SpeedBoost(_) => 2,
        AbilityEffect::SplashDamage(_, _) => 3,
        AbilityEffect::FireDamage(_, _) => 4,
    }
}

/// The amounts an effect carries (the second is 0 for one amount).
pub open spec fn effect_values(e: AbilityEffect) -> (u32, u32) {
    match e {
        AbilityEffect::DamageBoost(m) => (m, 0),
        AbilityEffect::HealthBoost(m) => (m, 0),
        AbilityEffect::SpeedBoost(m) => (m, 0),
        AbilityEffect::SplashDamage(a, b) => (a, b),
        AbilityEffect::FireDamage(a, b) => (a, b),
    }
}

/// The amounts of the first effect of kind `k` in `s`, if there is one.
pub open spec fn first_of_kind(s: Seq<AbilityEffect>, k: int) -> Option<(u32, u32)>
    decreases s.len(),
{
    if s.len() == 0 {
        None
    } else if effect_kind(s[0]) == k {
        Some(effect_values(s[0]))
    } else {
        first_of_kind(s.drop_first(), k)
    }
}

fn effects2(a: AbilityEffect, b: AbilityEffect) -> (v: Vec<AbilityEffect>)
    ensures
        v@ == seq![a, b],
{
    let mut v: Vec<AbilityEffect> = Vec::new();
    v.push(a);
    v.push(b);
    v
}

fn effects3(a: AbilityEffect, b: AbilityEffect, c: AbilityEffect) -> (v: Vec<AbilityEffect>)
    ensures
        v@ == seq![a, b, c],
{
    let mut v = effects2(a, b);
    v.push(c);
    v
}

fn effects1(a: AbilityEffect) -> (v: Vec<AbilityEffect>)
    ensures
        v@ == seq![a],
{
    let mut v: Vec<AbilityEffect> = Vec::new();
    v.push(a);
    v
}

impl Character {
    /// The roster entry of a character.
    pub fn get_by_id(id: CharacterId) -> (c: Character)
        ensures
            is_character(c, id),
    {
        match id {
            CharacterId::Berkay => Character {
                id,
                name: "Berkay",
                ability_name: "Special Kebab",
                voice_line: "ik kan niet stoppen!",
                effects: effects2(AbilityEffect::DamageBoost(220), AbilityEffect::HealthBoost(3500)),
                duration_ms: 6000,
                cooldown_ms: 12000,
            },
            CharacterId::Luca => Character {
                id,
                name: "Luca",
                ability_name: "Winter Arc",
                voice_line: "nee nu ben ik klaar ik ga in mijn winter arc",
                effects: effects2(AbilityEffect::DamageBoost(280), AbilityEffect::HealthBoost(1500)),
                duration_ms: 5000,
                cooldown_ms: 12000,
            },
            CharacterId::Gefferinho => Character {
                id,
                name: "Gefferinho",
                ability_name: "Maar Mevrouw Rage",
                voice_line: "maar mevouw wat doe je",
                effects: effects3(AbilityEffect::SpeedBoost(200), AbilityEffect::DamageBoost(200),
                    AbilityEffect::HealthBoost(2500)),
                duration_ms: 6000,
                cooldown_ms: 13000,
            },
            CharacterId::Bas => Character {
                id,
                name: "Bas",
                ability_name: "Bas Veeg",
                voice_line: "BAS VEEG!",
                effects: effects1(AbilityEffect::SplashDamage(4500, 18000)),
                duration_ms: 100,
                cooldown_ms: 11000,
            },
            CharacterId::Hadi => Character {
                id,
                name: "Hadi",
                ability_name: "Dubai Emirates",
                voice_line: "Dubai Emirates!",
                effects: effects2(AbilityEffect::SpeedBoost(320), AbilityEffect::DamageBoost(150)),
                duration_ms: 6000,
                cooldown_ms: 12000,
            },
            CharacterId::Nitin => Character {
                id,
                name: "Nitin",
                ability_name: "Barra in je Kont",
                voice_line: "Barra in je kont!",
                effects: effects1(AbilityEffect::FireDamage(800, 600)),
                duration_ms: 1000,
                cooldown_ms: 11000,
            },
            CharacterId::PalaBaba => Character {
                id,
                name: "Yigit Baba",
                ability_name: "Sivas Rage",
                voice_line: "TURKIYEEEE",
                effects: effects3(AbilityEffect::DamageBoost(300), AbilityEffect::SpeedBoost(300),
                    AbilityEffect::HealthBoost(3000)),
                duration_ms: 10000,
                cooldown_ms: 30000,
            },
        }
    }
}

/// The whole roster, in the order of the characters' ids.
pub fn characters() -> (v: Vec<Character>)
    ensures
        v@.len() == CHARACTER_COUNT,
        forall|i: int| 0 <= i < CHARACTER_COUNT ==> #[trigger] is_character(v@[i], char_at(i)),
{
    let mut v: Vec<Character> = Vec::new();
    v.push(Character::get_by_id(CharacterId::Berkay));
    v.push(Character::get_by_id(CharacterId::Luca));
    v.push(Character::get_by_id(CharacterId::Gefferinho));
    v.push(Character::get_by_id(CharacterId::Bas));
    v.push(Character::get_by_id(CharacterId::Hadi));
    v.push(Character::get_by_id(CharacterId::Nitin));
    v.push(Character::get_by_id(CharacterId::PalaBaba));
    assert forall|i: int| 0 <= i < CHARACTER_COUNT implies #[trigger] is_character(v@[i], char_at(i)) by {
        if i == 0 {} else if i == 1 {} else if i == 2 {} else if i == 3 {} else if i == 4 {} else if i == 5 {} else {}
    }
    v
}

/// The amounts of the first effect of kind `kind` in `effects`, if any.
fn find_effect(effects: &Vec<AbilityEffect>, kind: u8) -> (r: Option<(u32, u32)>)
    ensures
        r == first_of_kind(effects@, kind as int),
{
    let mut i: usize = 0;
    assert(effects@.subrange(0, effects@.len() as int) =~= effects@);
    while i < effects.len()
        invariant
            i <= effects@.len(),
            first_of_kind(effects@, kind as int) == first_of_kind(effects@.subrange(i as int, effects@.len() as int), kind as int),
        decreases effects@.len() - i,
    {
        let e = effects[i];
        let (k, values): (u8, (u32, u32)) = match e {
            AbilityEffect::DamageBoost(m) => (0, (m, 0)),
            AbilityEffect::HealthBoost(m) => (1, (m, 0)),
            AbilityEffect::SpeedBoost(m) => (2, (m, 0)),
            AbilityEffect::SplashDamage(a, b) => (3, (a, b)),
            AbilityEffect::FireDamage(a, b) => (4, (a, b)),
        };
        assert(effects@.subrange(i as int, effects@.len() as int).drop_first()
            =~= effects@.subrange(i as int + 1, effects@.len() as int));
        if k == kind {
            return Some(values);
        }
        i += 1;
    }
    None
}

/// A character's ability: whether it runs, how long it still runs and how
/// long until it may run again (milliseconds), and the base multipliers (in
/// hundredths).
pub struct AbilityState {
    pub character_id: CharacterId,
    pub active: bool,
    pub active_time_ms: u64,
    pub cooldown_ms: u64,
    pub base_damage: u32,
    pub base_speed: u32,
}

/// The amount an effect of kind `k` grants while the ability runs: its
/// first amount when the character has such an effect, `none` otherwise or
/// when the ability is not running.
pub open spec fn running_amount(id: CharacterId, active: bool, k: int, none: u32) -> u32 {
    if !active {
        none
    } else {
        match first_of_kind(character_entry(id).3, k) {
            Some(v) => v.0,
            None => none,
        }
    }
}

impl AbilityState {
    /// Ready at once, with base multipliers of 1.
    pub fn new(character_id: CharacterId) -> (s: AbilityState)
        ensures
            s.character_id == character_id,
            !s.active,
            s.active_time_ms == 0,
            s.cooldown_ms == 0,
            s.base_damage == 100,
            s.base_speed == 100,
    {
        AbilityState { character_id, active: false, active_time_ms: 0, cooldown_ms: 0, base_damage: 100, base_speed: 100 }
    }

    /// Whether the ability may start: not running and recharged.
    pub fn can_activate(&self) -> (b: bool)
        ensures
            b == (!self.active && self.cooldown_ms == 0),
    {
        !self.active && self.cooldown_ms == 0
    }

    /// Starts the ability when it may start, for the character's duration
    /// and with its cooldown, and returns the character's voice line; returns
    /// the empty line and changes nothing otherwise.
    pub fn activate(&mut self) -> (line: &'static str)
        ensures
            old(self).active || old(self).cooldown_ms > 0 ==> line@ == ""@ && *final(self) == *old(self),
            !old(self).active && old(self).cooldown_ms == 0 ==> {
                &&& line@ == character_entry(old(self).character_id).2
                &&& final(self).active
                &&& final(self).active_time_ms == character_entry(old(self).character_id).4
                &&& final(self).cooldown_ms == character_entry(old(self).character_id).5
                &&& final(self).character_id == old(self).character_id
                &&& final(self).base_damage == old(self).base_damage
                &&& final(self).base_speed == old(self).base_speed
            },
    {
        if self.can_activate() {
            let character = Character::get_by_id(self.character_id);
            self.active = true;
            self.active_time_ms = character.duration_ms;
            self.cooldown_ms = character.cooldown_ms;
            return character.voice_line;
        }
        ""
    }

    /// Moves the ability on by `dt_ms` milliseconds: a running ability stops
    /// once its time is used up, and the cooldown runs down to 0.
    pub fn update(&mut self, dt_ms: u64)
        ensures
            final(self).character_id == old(self).character_id,
            final(self).base_damage == old(self).base_damage,
            final(self).base_speed == old(self).base_speed,
            final(self).active == (old(self).active && dt_ms < old(self).active_time_ms),
            final(self).active_time_ms == if old(self).active {
                if dt_ms < old(self).active_time_ms { (old(self).active_time_ms - dt_ms) as u64 } else { 0 }
            } else {
                old(self).active_time_ms
            },
            final(self).cooldown_ms == if dt_ms < old(self).cooldown_ms { (old(self).cooldown_ms - dt_ms) as u64 } else { 0 },
    {
        if self.active {
            if dt_ms < self.active_time_ms {
                self.active_time_ms = self.active_time_ms - dt_ms;
            } else {
                self.active = false;
                self.active_time_ms = 0;
            }
        }
        self.cooldown_ms = self.cooldown_ms.saturating_sub(dt_ms);
    }

    /// The damage multiplier while the ability runs (in hundredths): the
    /// character's first damage boost, else 100.
    pub fn get_damage_multiplier(&self) -> (m: u32)
        ensures
            m == running_amount(self.character_id, self.active, 0, 100),
    {
        if !self.active {
            return 100;
        }
        match find_effect(&Character::get_by_id(self.character_id).effects, 0) {
            Some((m, _)) => m,
            None => 100,
        }
    }

    /// The speed multiplier while the ability runs (in hundredths): the
    /// character's first speed boost, else 100.
    pub fn get_speed_multiplier(&self) -> (m: u32)
        ensures
            m == running_amount(self.character_id, self.active, 2, 100),
    {
        if !self.active {
            return 100;
        }
        match find_effect(&Character::get_by_id(self.character_id).effects, 2) {
            Some((m, _)) => m,
            None => 100,
        }
    }

    /// The extra health while the ability runs (in hundredths): the
    /// character's first health boost, else 0.
    pub fn get_health_boost(&self) -> (h: u32)
        ensures
            h == running_amount(self.character_id, self.active, 1, 0),
    {
        if !self.active {
            return 0;
        }
        match find_effect(&Character::get_by_id(self.character_id).effects, 1) {
            Some((h, _)) => h,
            None => 0,
        }
    }

    /// The splash (damage, radius) while the ability runs, when the
    /// character's ability splashes.
    pub fn get_splash_damage(&self) -> (r: Option<(u32, u32)>)
        ensures
            r == if self.active { first_of_kind(character_entry(self.character_id).3, 3) } else { None },
    {
        if !self.active {
            return None;
        }
        find_effect(&Character::get_by_id(self.character_id).effects, 3)
    }

    /// The fire (damage a second, seconds) while the ability runs, when the
    /// character's ability burns.
    pub fn get_fire_damage(&self) -> (r: Option<(u32, u32)>)
        ensures
            r == if self.active { first_of_kind(character_entry(self.character_id).3, 4) } else { None },
    {
        if !self.active {
            return None;
        }
        find_effect(&Character::get_by_id(self.character_id).effects, 4)
    }
}

} // verus!

use vstd::prelude::*;

verus! {

/// Every kind of fighter an entity can be: the playable cast, the
/// school's NPCs and enemies, and the two bosses.
#[derive(Clone, Copy, Debug, PartialEq, Eq, Structural)]
pub enum CharacterType {
    Bas,
    Berkay,
    Gefferinho,
    Hadi,
    Luca,
    Nitin,
    YigitBaba,
    Wolters,
    PrefectA,
    PrefectB,
    Chef,
    Librarian,
    Coach,
    Bastiaan,
    KeizerBomTaha,
}

/// Side an entity fights on.
#[derive(Clone, Copy, Debug, PartialEq, Eq, Structural)]
pub enum Team {
    Player,
    Ally,
    Enemy,
}

/// Players and allies stand together; enemies stand with enemies.
pub open spec fn allied(a: Team, b: Team) -> bool {
    (a is Enemy) == (b is Enemy)
}

impl Team {
    /// Whether the two sides fight together.
    pub fn is_allied(self, other: Team) -> (b: bool)
        ensures
            b == allied(self, other),
    {
        match (self, other) {
            (Team::Player, Team::Player) | (Team::Player, Team::Ally) | (Team::Ally, Team::Player) | (
                Team::Ally,
                Team::Ally,
            ) | (Team::Enemy, Team::Enemy) => true,
            _ => false,
        }
    }
}

/// Alliance is an equivalence: every side stands with itself, with whoever
/// stands with it, and with whoever stands with its allies.
pub proof fn law_alliance_is_equivalence(a: Team, b: Team, c: Team)
    ensures
        allied(a, a),
        allied(a, b) == allied(b, a),
        allied(a, b) && allied(b, c) ==> allied(a, c),
{
}

/// Whether an attack by `attacker` may register a hit on `defender`: not on
/// itself, not on an ally when both fight on a side, and not on an entity it
/// has already hit with this attack (`hits_registered`). Whether the boxes
/// overlap is decided by the caller.
pub fn may_hit(attacker: u32, defender: u32, attacker_team: Option<Team>, defender_team: Option<Team>,
    hits_registered: &Vec<u32>) -> (b: bool)
    ensures
        b == (attacker != defender
            && !(attacker_team is Some && defender_team is Some && allied(attacker_team->0, defender_team->0))
            && !hits_registered@.contains(defender)),
{
    if attacker == defender {
        return false;
    }
    match (attacker_team, defender_team) {
        (Some(a), Some(d)) => {
            if a.is_allied(d) {
                return false;
            }
        },
        _ => {},
    }
    let mut i: usize = 0;
    while i < hits_registered.len()
        invariant
            i <= hits_registered@.len(),
            forall|j: int| 0 <= j < i ==> hits_registered@[j] != defender,
        decreases hits_registered@.len() - i,
    {
        if hits_registered[i] == defender {
            assert(hits_registered@[i as int] == defender);
            return false;
        }
        i += 1;
    }
    true
}

} // verus!

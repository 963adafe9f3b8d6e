use vstd::prelude::*;
use crate::data::characters::CharacterId;

verus! {

/// State handed from one game screen to the next: the character picked and
/// the line-up of a co-op game.
pub struct GameState {
    pub selected_character: Option<CharacterId>,
    pub coop_players: Option<Vec<CharacterId>>,
}

impl GameState {
    /// Nothing picked yet.
    pub fn new() -> (s: GameState)
        ensures
            s.selected_character is None,
            s.coop_players is None,
    {
        GameState { selected_character: None, coop_players: None }
    }
}

/// Records the character picked.
pub fn set_selected_character(state: &mut GameState, character: CharacterId)
    ensures
        final(state).selected_character == Some(character),
        final(state).coop_players == old(state).coop_players,
{
    state.selected_character = Some(character);
}

/// The character picked; Bas when none was.
pub fn get_selected_character(state: &GameState) -> (c: CharacterId)
    ensures
        c == match state.selected_character {
            Some(x) => x,
            None => CharacterId::Bas,
        },
{
    match state.selected_character {
        Some(x) => x,
        None => CharacterId::Bas,
    }
}

/// Records the co-op line-up.
pub fn set_coop_players(state: &mut GameState, players: Vec<CharacterId>)
    ensures
        final(state).coop_players matches Some(p) && p@ == players@,
        final(state).selected_character == old(state).selected_character,
{
    state.coop_players = Some(players);
}

/// A copy of the co-op line-up, if one was recorded.
pub fn get_coop_players(state: &GameState) -> (r: Option<Vec<CharacterId>>)
    ensures
        match state.coop_players {
            Some(p) => r matches Some(q) && q@ == p@,
            None => r is None,
        },
{
    match &state.coop_players {
        Some(p) => {
            let mut q: Vec<CharacterId> = Vec::new();
            let mut i: usize = 0;
            while i < p.len()
                invariant
                    0 <= i <= p@.len(),
                    q@ == p@.take(i as int),
                decreases p@.len() - i,
            {
                q.push(p[i]);
                assert(q@ =~= p@.take(i as int + 1));
                i = i + 1;
            }
            assert(p@.take(i as int) =~= p@);
            Some(q)
        },
        None => None,
    }
}

/// Forgets the co-op line-up.
pub fn clear_coop_players(state: &mut GameState)
    ensures
        final(state).coop_players is None,
        final(state).selected_character == old(state).selected_character,
{
    state.coop_players = None;
}

} // verus!

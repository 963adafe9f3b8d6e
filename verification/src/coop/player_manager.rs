use vstd::prelude::*;
use crate::data::characters::CharacterId;
use crate::ecs::world::EntityId;

verus! {

/// Maximum number of players in co-op.
pub const MAX_PLAYERS: usize = 4;

/// The four player slots of a co-op session. (Shared currency, the shared
/// combo meter, the team multiplier and each player's damage, revive timers,
/// colour and spawn point are fractional or graphical values kept by the
/// game alongside.)
pub struct CoopPlayerManager {
    players: Vec<Option<CoopPlayer>>,
    active_player_count: usize,
    friendly_fire_enabled: bool,
}

/// A player of a co-op session.
pub struct CoopPlayer {
    pub slot: PlayerSlot,
    pub entity_id: Option<EntityId>,
    pub character_type: CharacterId,
    pub input_device: InputDeviceType,
    pub is_active: bool,
    pub is_downed: bool,
    pub kills: u32,
    pub deaths: u32,
    pub combo_contribution: u32,
}

/// Player slot identifier.
#[derive(Clone, Copy, Debug, PartialEq, Eq, Structural)]
pub enum PlayerSlot {
    Player1,
    Player2,
    Player3,
    Player4,
}

/// Input device of a player.
#[derive(Clone, Copy, Debug, PartialEq, Eq, Structural)]
pub enum InputDeviceType {
    KeyboardMouse,
    /// A gamepad, by id.
    Gamepad(u8),
}

/// Position of a slot, from 0 for Player1.
pub open spec fn slot_index(s: PlayerSlot) -> int {
    match s {
        PlayerSlot::Player1 => 0,
        PlayerSlot::Player2 => 1,
        PlayerSlot::Player3 => 2,
        PlayerSlot::Player4 => 3,
    }
}

/// The slot at a position, if there is one.
pub open spec fn slot_at(i: int) -> Option<PlayerSlot> {
    if i == 0 {
        Some(PlayerSlot::Player1)
    } else if i == 1 {
        Some(PlayerSlot::Player2)
    } else if i == 2 {
        Some(PlayerSlot::Player3)
    } else if i == 3 {
        Some(PlayerSlot::Player4)
    } else {
        None
    }
}

impl PlayerSlot {
    /// Position of the slot, from 0.
    pub fn to_index(&self) -> (i: usize)
        ensures
            i == slot_index(*self),
            i < MAX_PLAYERS,
    {
        match self {
            PlayerSlot::Player1 => 0,
            PlayerSlot::Player2 => 1,
            PlayerSlot::Player3 => 2,
            PlayerSlot::Player4 => 3,
        }
    }

    /// The slot at a position; `None` from 4 on.
    pub fn from_index(index: usize) -> (s: Option<PlayerSlot>)
        ensures
            s == slot_at(index as int),
    {
        match index {
            0 => Some(PlayerSlot::Player1),
            1 => Some(PlayerSlot::Player2),
            2 => Some(PlayerSlot::Player3),
            3 => Some(PlayerSlot::Player4),
            _ => None,
        }
    }

    /// The slot after this one; `None` after Player4.
    pub fn next(&self) -> (s: Option<PlayerSlot>)
        ensures
            s == slot_at(slot_index(*self) + 1),
    {
        Self::from_index(self.to_index() + 1)
    }

    /// The slot before this one; `None` before Player1.
    pub fn prev(&self) -> (s: Option<PlayerSlot>)
        ensures
            s == slot_at(slot_index(*self) - 1),
    {
        if self.to_index() > 0 {
            Self::from_index(self.to_index() - 1)
        } else {
            None
        }
    }
}

/// Going to the next slot and back returns to the same slot.
pub proof fn law_slot_next_prev(s: PlayerSlot)
    ensures
        slot_at(slot_index(s) + 1) matches Some(n) ==> slot_at(slot_index(n) - 1) == Some(s),
        slot_at(slot_at(slot_index(s))->0.index()) == Some(s),
{
}

impl PlayerSlot {
    /// Position of the slot, in specifications.
    pub open spec fn index(self) -> int {
        slot_index(self)
    }
}

/// A player just joined in `slot`.
pub open spec fn joined(p: CoopPlayer, slot: PlayerSlot, character: CharacterId, device: InputDeviceType) -> bool {
    &&& p.slot == slot
    &&& p.entity_id is None
    &&& p.character_type == character
    &&& p.input_device == device
    &&& p.is_active
    &&& !p.is_downed
    &&& p.kills == 0
    &&& p.deaths == 0
    &&& p.combo_contribution == 0
}

/// The active players of a sequence of slots, in slot order.
pub open spec fn active_players(s: Seq<Option<CoopPlayer>>) -> Seq<CoopPlayer>
    decreases s.len(),
{
    if s.len() == 0 {
        Seq::empty()
    } else {
        let prev = active_players(s.drop_last());
        match s.last() {
            Some(p) => if p.is_active { prev.push(p) } else { prev },
            None => prev,
        }
    }
}

/// First empty slot at or after `i`.
pub open spec fn first_free_from(s: Seq<Option<CoopPlayer>>, i: int) -> Option<int>
    decreases s.len() - i,
{
    if i < 0 || i >= s.len() {
        None
    } else if s[i] is None {
        Some(i)
    } else {
        first_free_from(s, i + 1)
    }
}

impl CoopPlayer {
    /// A player who just joined: active, standing, no score.
    pub fn new(slot: PlayerSlot, character: CharacterId, input_device: InputDeviceType) -> (p: CoopPlayer)
        ensures
            joined(p, slot, character, input_device),
    {
        CoopPlayer {
            slot,
            entity_id: None,
            character_type: character,
            input_device,
            is_active: true,
            is_downed: false,
            kills: 0,
            deaths: 0,
            combo_contribution: 0,
        }
    }

    /// Ties the player to its entity in the game world.
    pub fn set_entity(&mut self, entity_id: EntityId)
        ensures
            *final(self) == (CoopPlayer { entity_id: Some(entity_id), ..*old(self) }),
    {
        self.entity_id = Some(entity_id);
    }

    /// The player's entity, if it has one.
    pub fn get_entity(&self) -> (e: Option<EntityId>)
        ensures
            e == self.entity_id,
    {
        self.entity_id
    }

    /// Counts a kill.
    pub fn add_kill(&mut self)
        requires
            old(self).kills < u32::MAX,
        ensures
            *final(self) == (CoopPlayer { kills: (old(self).kills + 1) as u32, ..*old(self) }),
    {
        self.kills = self.kills + 1;
    }
}

impl CoopPlayerManager {
    /// The four slots.
    pub closed spec fn slots(&self) -> Seq<Option<CoopPlayer>> {
        self.players@
    }

    /// The player count the session keeps.
    pub closed spec fn count(&self) -> usize {
        self.active_player_count
    }

    /// Whether players can hurt each other.
    pub closed spec fn friendly_fire(&self) -> bool {
        self.friendly_fire_enabled
    }

    /// Four slots.
    pub closed spec fn wf(&self) -> bool {
        self.players@.len() == MAX_PLAYERS
    }

    /// An empty session without friendly fire.
    pub fn new() -> (m: CoopPlayerManager)
        ensures
            m.wf(),
            forall|i: int| 0 <= i < MAX_PLAYERS ==> #[trigger] m.slots()[i] is None,
            m.count() == 0,
            !m.friendly_fire(),
    {
        let mut players: Vec<Option<CoopPlayer>> = Vec::new();
        players.push(None);
        players.push(None);
        players.push(None);
        players.push(None);
        CoopPlayerManager { players, active_player_count: 0, friendly_fire_enabled: false }
    }

    /// Puts one player, on keyboard and mouse, in the first slot, and sets
    /// the player count to one. The other slots are left as they were.
    pub fn init_single_player(&mut self, character: CharacterId)
        requires
            old(self).wf(),
        ensures
            final(self).wf(),
            final(self).slots()[0] matches Some(p) && joined(p, PlayerSlot::Player1, character, InputDeviceType::KeyboardMouse),
            forall|i: int| 1 <= i < MAX_PLAYERS ==> #[trigger] final(self).slots()[i] == old(self).slots()[i],
            final(self).count() == 1,
            final(self).friendly_fire() == old(self).friendly_fire(),
    {
        self.players.set(0, Some(CoopPlayer::new(PlayerSlot::Player1, character, InputDeviceType::KeyboardMouse)));
        self.active_player_count = 1;
    }

    /// Starts a co-op session: the first four configurations take the slots
    /// in order, the rest are ignored, and the player count is their number.
    pub fn init_coop(&mut self, player_configs: Vec<(CharacterId, InputDeviceType)>)
        requires
            old(self).wf(),
        ensures
            final(self).wf(),
            final(self).count() == if player_configs@.len() < MAX_PLAYERS { player_configs@.len() as int } else { MAX_PLAYERS as int },
            forall|i: int| 0 <= i < MAX_PLAYERS ==> #[trigger] final(self).slots()[i] matches Some(p) ==
                (i < player_configs@.len()),
            forall|i: int| 0 <= i < MAX_PLAYERS && i < player_configs@.len() ==>
                joined(#[trigger] final(self).slots()[i]->0, slot_at(i)->0, player_configs@[i].0, player_configs@[i].1),
            final(self).friendly_fire() == old(self).friendly_fire(),
    {
        let mut players: Vec<Option<CoopPlayer>> = Vec::new();
        let mut i: usize = 0;
        while i < MAX_PLAYERS
            invariant
                0 <= i <= MAX_PLAYERS,
                players@.len() == i,
                forall|j: int| 0 <= j < i ==> (#[trigger] players@[j] matches Some(p)) == (j < player_configs@.len()),
                forall|j: int| 0 <= j < i && j < player_configs@.len() ==>
                    joined(#[trigger] players@[j]->0, slot_at(j)->0, player_configs@[j].0, player_configs@[j].1),
            decreases MAX_PLAYERS - i,
        {
            if i < player_configs.len() {
                let (character, device) = player_configs[i];
                let slot = PlayerSlot::from_index(i).unwrap();
                players.push(Some(CoopPlayer::new(slot, character, device)));
            } else {
                players.push(None);
            }
            i = i + 1;
        }
        self.players = players;
        self.active_player_count = if player_configs.len() < MAX_PLAYERS { player_configs.len() } else { MAX_PLAYERS };
    }

    /// Lets a player drop in: refused when the player count is already four
    /// or no slot is free; otherwise the player takes the first free slot,
    /// the count goes up by one, and that slot is returned.
    pub fn add_player(&mut self, character: CharacterId, input_device: InputDeviceType) -> (r: Option<PlayerSlot>)
        requires
            old(self).wf(),
        ensures
            final(self).wf(),
            if old(self).count() >= MAX_PLAYERS || first_free_from(old(self).slots(), 0) is None {
                r is None && *final(self) == *old(self)
            } else {
                let k = first_free_from(old(self).slots(), 0)->0;
                &&& r == slot_at(k)
                &&& final(self).slots() == old(self).slots().update(k, final(self).slots()[k])
                &&& final(self).slots()[k] matches Some(p) && joined(p, slot_at(k)->0, character, input_device)
                &&& final(self).count() == old(self).count() + 1
                &&& final(self).friendly_fire() == old(self).friendly_fire()
            },
    {
        if self.active_player_count >= MAX_PLAYERS {
            return None;
        }
        let mut i: usize = 0;
        while i < MAX_PLAYERS
            invariant
                0 <= i <= MAX_PLAYERS,
                self.players@.len() == MAX_PLAYERS,
                self.active_player_count < MAX_PLAYERS,
                first_free_from(self.players@, 0) == first_free_from(self.players@, i as int),
                *self == *old(self),
            decreases MAX_PLAYERS - i,
        {
            if self.players[i].is_none() {
                let slot = PlayerSlot::from_index(i).unwrap();
                self.players.set(i, Some(CoopPlayer::new(slot, character, input_device)));
                self.active_player_count = self.active_player_count + 1;
                return Some(slot);
            }
            i = i + 1;
        }
        None
    }

    /// Lets the player in `slot` drop out; the count goes down by one
    /// (not below zero). An empty slot changes nothing.
    pub fn remove_player(&mut self, slot: PlayerSlot)
        requires
            old(self).wf(),
        ensures
            final(self).wf(),
            if old(self).slots()[slot_index(slot)] is Some {
                &&& final(self).slots() == old(self).slots().update(slot_index(slot), None)
                &&& final(self).count() == if old(self).count() > 0 { old(self).count() - 1 } else { 0 }
                &&& final(self).friendly_fire() == old(self).friendly_fire()
            } else {
                *final(self) == *old(self)
            },
    {
        let index = slot.to_index();
        if self.players[index].is_some() {
            self.players.set(index, None);
            self.active_player_count = if self.active_player_count > 0 { self.active_player_count - 1 } else { 0 };
        }
    }

    /// The player in `slot`, if any.
    pub fn get_player(&self, slot: PlayerSlot) -> (r: Option<&CoopPlayer>)
        requires
            self.wf(),
        ensures
            r is Some <==> self.slots()[slot_index(slot)] is Some,
            r is Some ==> *(r->0) == self.slots()[slot_index(slot)]->0,
    {
        self.players[slot.to_index()].as_ref()
    }

    /// The active players, in slot order.
    pub fn get_active_players(&self) -> (r: Vec<&CoopPlayer>)
        requires
            self.wf(),
        ensures
            r@.map_values(|p: &CoopPlayer| *p) == active_players(self.slots()),
    {
        let mut r: Vec<&CoopPlayer> = Vec::new();
        let mut i: usize = 0;
        while i < MAX_PLAYERS
            invariant
                0 <= i <= MAX_PLAYERS,
                self.players@.len() == MAX_PLAYERS,
                r@.map_values(|p: &CoopPlayer| *p) == active_players(self.players@.take(i as int)),
            decreases MAX_PLAYERS - i,
        {
            assert(self.players@.take(i as int + 1).drop_last() =~= self.players@.take(i as int));
            match &self.players[i] {
                Some(p) => {
                    if p.is_active {
                        r.push(p);
                    }
                },
                None => {},
            }
            assert(r@.map_values(|p: &CoopPlayer| *p) =~= active_players(self.players@.take(i as int + 1)));
            i = i + 1;
        }
        assert(self.players@.take(i as int) =~= self.players@);
        r
    }

    /// Marks the player in `slot` as downed (nothing for an empty slot).
    pub fn down_player(&mut self, slot: PlayerSlot)
        requires
            old(self).wf(),
        ensures
            final(self).wf(),
            match old(self).slots()[slot_index(slot)] {
                Some(p) => final(self).slots() == old(self).slots().update(slot_index(slot),
                    Some(CoopPlayer { is_downed: true, ..p })),
                None => final(self).slots() == old(self).slots(),
            },
            final(self).count() == old(self).count(),
            final(self).friendly_fire() == old(self).friendly_fire(),
    {
        self.set_downed(slot, true);
    }

    /// Puts the player in `slot` back on their feet (nothing for an empty slot).
    pub fn revive_player(&mut self, slot: PlayerSlot)
        requires
            old(self).wf(),
        ensures
            final(self).wf(),
            match old(self).slots()[slot_index(slot)] {
                Some(p) => final(self).slots() == old(self).slots().update(slot_index(slot),
                    Some(CoopPlayer { is_downed: false, ..p })),
                None => final(self).slots() == old(self).slots(),
            },
            final(self).count() == old(self).count(),
            final(self).friendly_fire() == old(self).friendly_fire(),
    {
        self.set_downed(slot, false);
    }

    /// Brings a downed player back once the time to revive them has run out:
    /// no longer downed, with one more death. A player who is up, or an empty
    /// slot, changes nothing.
    pub fn respawn_player(&mut self, slot: PlayerSlot)
        requires
            old(self).wf(),
            old(self).slots()[slot_index(slot)] matches Some(p) ==> p.deaths < u32::MAX,
        ensures
            final(self).wf(),
            match old(self).slots()[slot_index(slot)] {
                Some(p) => final(self).slots() == old(self).slots().update(slot_index(slot), Some(
                    if p.is_downed { CoopPlayer { is_downed: false, deaths: (p.deaths + 1) as u32, ..p } } else { p },
                )),
                None => final(self).slots() == old(self).slots(),
            },
            final(self).count() == old(self).count(),
            final(self).friendly_fire() == old(self).friendly_fire(),
    {
        let index = slot.to_index();
        let mut taken: Option<CoopPlayer> = None;
        std::mem::swap(&mut taken, &mut self.players[index]);
        match taken {
            Some(mut p) => {
                if p.is_downed {
                    p.is_downed = false;
                    p.deaths = p.deaths + 1;
                }
                self.players.set(index, Some(p));
            },
            None => {
                self.players.set(index, None);
                assert(self.players@ =~= old(self).players@);
            },
        }
    }

    /// Credits the player in `slot` with one more contribution to the shared
    /// combo meter. An empty slot changes nothing.
    pub fn record_combo_contribution(&mut self, slot: PlayerSlot)
        requires
            old(self).wf(),
            old(self).slots()[slot_index(slot)] matches Some(p) ==> p.combo_contribution < u32::MAX,
        ensures
            final(self).wf(),
            match old(self).slots()[slot_index(slot)] {
                Some(p) => final(self).slots() == old(self).slots().update(slot_index(slot), Some(
                    CoopPlayer { combo_contribution: (p.combo_contribution + 1) as u32, ..p },
                )),
                None => final(self).slots() == old(self).slots(),
            },
            final(self).count() == old(self).count(),
            final(self).friendly_fire() == old(self).friendly_fire(),
    {
        let index = slot.to_index();
        let mut taken: Option<CoopPlayer> = None;
        std::mem::swap(&mut taken, &mut self.players[index]);
        match taken {
            Some(mut p) => {
                p.combo_contribution = p.combo_contribution + 1;
                self.players.set(index, Some(p));
            },
            None => {
                self.players.set(index, None);
                assert(self.players@ =~= old(self).players@);
            },
        }
    }

    fn set_downed(&mut self, slot: PlayerSlot, downed: bool)
        requires
            old(self).wf(),
        ensures
            final(self).wf(),
            match old(self).slots()[slot_index(slot)] {
                Some(p) => final(self).slots() == old(self).slots().update(slot_index(slot),
                    Some(CoopPlayer { is_downed: downed, ..p })),
                None => final(self).slots() == old(self).slots(),
            },
            final(self).count() == old(self).count(),
            final(self).friendly_fire() == old(self).friendly_fire(),
    {
        let index = slot.to_index();
        let mut taken: Option<CoopPlayer> = None;
        std::mem::swap(&mut taken, &mut self.players[index]);
        match taken {
            Some(mut p) => {
                p.is_downed = downed;
                self.players.set(index, Some(p));
            },
            None => {
                self.players.set(index, None);
                assert(self.players@ =~= old(self).players@);
            },
        }
    }

    /// Whether players can hurt each other.
    pub fn is_friendly_fire_enabled(&self) -> (r: bool)
        ensures
            r == self.friendly_fire(),
    {
        self.friendly_fire_enabled
    }

    /// Switches friendly fire on or off.
    pub fn toggle_friendly_fire(&mut self)
        ensures
            final(self).friendly_fire() == !old(self).friendly_fire(),
            final(self).slots() == old(self).slots(),
            final(self).count() == old(self).count(),
    {
        self.friendly_fire_enabled = !self.friendly_fire_enabled;
    }

    /// The player count the session keeps.
    pub fn get_active_count(&self) -> (n: usize)
        ensures
            n == self.count(),
    {
        self.active_player_count
    }

    /// Game over: there is an active player and every active player is downed.
    pub fn are_all_players_downed(&self) -> (r: bool)
        requires
            self.wf(),
        ensures
            r == (active_players(self.slots()).len() > 0
                && forall|k: int| 0 <= k < active_players(self.slots()).len()
                    ==> (#[trigger] active_players(self.slots())[k]).is_downed),
    {
        let up = self.get_active_players();
        let ghost act = up@.map_values(|p: &CoopPlayer| *p);
        if up.len() == 0 {
            return false;
        }
        let mut i: usize = 0;
        while i < up.len()
            invariant
                0 <= i <= up@.len(),
                act == up@.map_values(|p: &CoopPlayer| *p),
                act == active_players(self.slots()),
                forall|k: int| 0 <= k < i ==> (#[trigger] act[k]).is_downed,
            decreases up@.len() - i,
        {
            assert(act[i as int] == *up@[i as int]);
            if !up[i].is_downed {
                assert(!act[i as int].is_downed);
                return false;
            }
            i = i + 1;
        }
        true
    }

    /// Clears the score and the downed state of every player.
    pub fn reset_stats(&mut self)
        requires
            old(self).wf(),
        ensures
            final(self).wf(),
            forall|i: int| 0 <= i < MAX_PLAYERS ==> match #[trigger] old(self).slots()[i] {
                Some(p) => final(self).slots()[i] == Some(CoopPlayer {
                    kills: 0, deaths: 0, combo_contribution: 0, is_downed: false, ..p }),
                None => final(self).slots()[i] is None,
            },
            final(self).count() == old(self).count(),
            final(self).friendly_fire() == old(self).friendly_fire(),
    {
        let mut i: usize = 0;
        while i < MAX_PLAYERS
            invariant
                0 <= i <= MAX_PLAYERS,
                self.players@.len() == MAX_PLAYERS,
                self.active_player_count == old(self).active_player_count,
                self.friendly_fire_enabled == old(self).friendly_fire_enabled,
                forall|j: int| 0 <= j < i ==> match #[trigger] old(self).players@[j] {
                    Some(p) => self.players@[j] == Some(CoopPlayer {
                        kills: 0, deaths: 0, combo_contribution: 0, is_downed: false, ..p }),
                    None => self.players@[j] is None,
                },
                forall|j: int| i <= j < MAX_PLAYERS ==> self.players@[j] == old(self).players@[j],
            decreases MAX_PLAYERS - i,
        {
            let mut taken: Option<CoopPlayer> = None;
            std::mem::swap(&mut taken, &mut self.players[i]);
            match taken {
                Some(mut p) => {
                    p.kills = 0;
                    p.deaths = 0;
                    p.combo_contribution = 0;
                    p.is_downed = false;
                    self.players.set(i, Some(p));
                },
                None => {
                    self.players.set(i, None);
                },
            }
            i = i + 1;
        }
    }
}

} // verus!

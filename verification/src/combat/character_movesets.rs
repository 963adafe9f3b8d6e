use vstd::prelude::*;
use crate::ecs::comp::CharacterType;

verus! {

/// Every move of the game: the universal moves, then those of Keizer Bom
/// Taha, Principal Van Der Berg and Lunchroom Lady Petra.
#[derive(Clone, Copy, Debug, PartialEq, Eq, Hash, Structural)]
pub enum MoveId {
    LightPunch,
    LightKick,
    HeavyPunch,
    HeavyKick,
    Launcher,
    AirLight,
    AirHeavy,
    Grab,
    MilitaryStrike,
    BayonetThrust,
    CommanderKick,
    OrderBarrage,
    TacticalRetreat,
    AerialAssault,
    BombDrop,
    StrafeRun,
    AerialSlam,
    RulerSlap,
    DeskSlam,
    AuthorityStrike,
    DisciplineGrab,
    ExecutiveOrder,
    DetentionSentence,
    PrincipalPresence,
    OfficeDecree,
    SoupSplash,
    TraySmash,
    LadleSwing,
    FoodThrow,
    SteamBlast,
    FoodFight,
    NutritionalValue,
    ServingTime,
}

/// What a move does besides hurting: how it must be blocked, whether it is
/// invincible or armoured, launches or bounces, flies as a projectile, hits
/// several times, builds extra meter, or slows, stuns or poisons. (How much a
/// move slows, stuns or poisons is a fraction, kept by the caller.)
#[derive(Clone, Copy, Debug, PartialEq, Eq, Structural)]
pub enum MoveProperty {
    Overhead,
    Low,
    Unblockable,
    Invincible,
    SuperArmor,
    Juggle,
    GroundBounce,
    WallBounce,
    Projectile,
    MultiHit(u32),
    ChargeMeter,
    Slow,
    Stun,
    DOT,
}

/// The kind of a property, its payload left aside.
pub open spec fn property_kind(p: MoveProperty) -> int {
    match p {
        MoveProperty::Overhead => 0,
        MoveProperty::Low => 1,
        MoveProperty::Unblockable => 2,
        MoveProperty::Invincible => 3,
        MoveProperty::SuperArmor => 4,
        MoveProperty::Juggle => 5,
        MoveProperty::GroundBounce => 6,
        MoveProperty::WallBounce => 7,
        MoveProperty::Projectile => 8,
        MoveProperty::MultiHit(_) => 9,
        MoveProperty::ChargeMeter => 10,
        MoveProperty::Slow => 11,
        MoveProperty::Stun => 12,
        MoveProperty::DOT => 13,
    }
}

/// A move: its name, its frame counts (how long it takes to come out, how
/// long its hitbox stays active, how long the attacker recovers, and how long
/// a defender stays stunned when hit or when blocking), the moves it cancels
/// into, and its properties. (Its damage, knockback, hitbox and meter are
/// fractions, kept by the caller.)
#[derive(Clone, Debug)]
pub struct MoveData {
    pub move_id: MoveId,
    pub name: &'static str,
    pub startup_frames: u32,
    pub active_frames: u32,
    pub recovery_frames: u32,
    pub hitstun_frames: u32,
    pub blockstun_frames: u32,
    pub can_cancel: Vec<MoveId>,
    pub properties: Vec<MoveProperty>,
}

/// Frame counts that fit the signed arithmetic of frame advantage.
pub open spec fn frames_in_range(m: MoveData) -> bool {
    &&& m.recovery_frames <= i32::MAX
    &&& m.hitstun_frames <= i32::MAX
    &&& m.blockstun_frames <= i32::MAX
}

/// Frames the attacker is ahead after a block (negative when behind).
pub open spec fn block_advantage(m: MoveData) -> int {
    m.blockstun_frames - m.recovery_frames
}

/// Frames the defender has to punish a blocked move.
pub open spec fn punish_frames(m: MoveData) -> int {
    if block_advantage(m) < 0 {
        -block_advantage(m)
    } else {
        0
    }
}

/// How hard a combo route is to land.
#[derive(Clone, Copy, Debug, PartialEq, Eq, Structural)]
pub enum ComboDifficulty {
    Easy,
    Medium,
    Hard,
    Expert,
    StyleOnly,
}

/// A combo route worth learning: its moves in order and the damage it deals
/// in all (a whole amount).
#[derive(Clone, Debug)]
pub struct ComboRoute {
    pub name: &'static str,
    pub moves: Vec<MoveId>,
    pub total_damage: u32,
    pub difficulty: ComboDifficulty,
    pub description: &'static str,
}

/// The moves and combo routes of a character. (Its stats and special
/// mechanics are fractions, kept by the caller.)
pub struct CharacterMoveset {
    pub character_type: CharacterType,
    pub moves: Vec<MoveData>,
    pub combo_routes: Vec<ComboRoute>,
}

/// Move `k` of Keizer Bom Taha: its id and name; its startup, active,
/// recovery, hitstun and blockstun frames; the moves it cancels into; and
/// its properties.
pub open spec fn keizer_move(k: int) -> (MoveId, Seq<char>, u32, u32, u32, u32, u32, Seq<MoveId>, Seq<MoveProperty>) {
    if k == 0 {
        (MoveId::MilitaryStrike, "Military Strike"@, 5u32, 3u32, 8u32, 12u32, 8u32,
            seq![MoveId::BayonetThrust, MoveId::CommanderKick], Seq::<MoveProperty>::empty())
    } else if k == 1 {
        (MoveId::BayonetThrust, "Bayonet Thrust"@, 8u32, 4u32, 12u32, 16u32, 10u32,
            seq![MoveId::OrderBarrage], seq![MoveProperty::ChargeMeter])
    } else if k == 2 {
        (MoveId::CommanderKick, "Commander's Kick"@, 7u32, 5u32, 10u32, 18u32, 12u32,
            seq![MoveId::AerialAssault], seq![MoveProperty::Juggle])
    } else if k == 3 {
        (MoveId::OrderBarrage, "Order Barrage"@, 12u32, 20u32, 18u32, 25u32, 15u32,
            Seq::<MoveId>::empty(), seq![MoveProperty::MultiHit(6), MoveProperty::SuperArmor])
    } else if k == 4 {
        (MoveId::AerialAssault, "Aerial Assault"@, 45u32, 900u32, 90u32, 0u32, 0u32,
            Seq::<MoveId>::empty(), seq![MoveProperty::Invincible])
    } else if k == 5 {
        (MoveId::BombDrop, "Bomb Drop"@, 3u32, 180u32, 5u32, 30u32, 20u32,
            Seq::<MoveId>::empty(), seq![MoveProperty::Projectile, MoveProperty::GroundBounce])
    } else if k == 6 {
        (MoveId::StrafeRun, "Strafe Run"@, 2u32, 4u32, 8u32, 8u32, 6u32,
            Seq::<MoveId>::empty(), seq![MoveProperty::Projectile, MoveProperty::MultiHit(3)])
    } else {
        (MoveId::AerialSlam, "Aerial Slam"@, 60u32, 10u32, 30u32, 45u32, 30u32,
            Seq::<MoveId>::empty(), seq![MoveProperty::Unblockable, MoveProperty::GroundBounce, MoveProperty::Invincible])
    }
}

/// `m` is the move table entry `e`.
pub open spec fn is_move_entry(m: MoveData, e: (MoveId, Seq<char>, u32, u32, u32, u32, u32, Seq<MoveId>, Seq<MoveProperty>)) -> bool {
    &&& m.move_id == e.0
    &&& m.name@ == e.1
    &&& m.startup_frames == e.2
    &&& m.active_frames == e.3
    &&& m.recovery_frames == e.4
    &&& m.hitstun_frames == e.5
    &&& m.blockstun_frames == e.6
    &&& m.can_cancel@ == e.7
    &&& m.properties@ == e.8
}

/// Combo route `k` of Keizer Bom Taha: name, moves, total damage,
/// difficulty, description.
pub open spec fn keizer_route(k: int) -> (Seq<char>, Seq<MoveId>, u32, ComboDifficulty, Seq<char>) {
    if k == 0 {
        ("Basic Military Combo"@, seq![MoveId::MilitaryStrike, MoveId::BayonetThrust, MoveId::CommanderKick],
            165u32, ComboDifficulty::Easy, "Standard ground combo leading to launcher"@)
    } else if k == 1 {
        ("Aerial Bombardment"@, seq![MoveId::MilitaryStrike, MoveId::CommanderKick, MoveId::AerialAssault,
            MoveId::BombDrop, MoveId::AerialSlam], 395u32, ComboDifficulty::Hard,
            "Launch into plane mode, bomb, and slam finish"@)
    } else {
        ("Order Execution"@, seq![MoveId::BayonetThrust, MoveId::OrderBarrage], 185u32,
            ComboDifficulty::Medium, "Meter-burning combo with super armor"@)
    }
}

/// `r` is the combo route table entry `e`.
pub open spec fn is_route_entry(r: ComboRoute, e: (Seq<char>, Seq<MoveId>, u32, ComboDifficulty, Seq<char>)) -> bool {
    &&& r.name@ == e.0
    &&& r.moves@ == e.1
    &&& r.total_damage == e.2
    &&& r.difficulty == e.3
    &&& r.description@ == e.4
}

/// `m` is the moveset of Keizer Bom Taha: his eight moves and three combo
/// routes, as the tables list them.
pub open spec fn is_keizer_moveset(m: CharacterMoveset) -> bool {
    &&& m.character_type == CharacterType::KeizerBomTaha
    &&& m.moves@.len() == 8
    &&& forall|k: int| 0 <= k < 8 ==> #[trigger] is_move_entry(m.moves@[k], keizer_move(k))
    &&& m.combo_routes@.len() == 3
    &&& forall|k: int| 0 <= k < 3 ==> #[trigger] is_route_entry(m.combo_routes@[k], keizer_route(k))
}

/// Entry `i` is the first move of `moves` with id `id`.
pub open spec fn first_move(moves: Seq<MoveData>, id: MoveId, i: int) -> bool {
    &&& 0 <= i < moves.len()
    &&& moves[i].move_id == id
    &&& forall|j: int| 0 <= j < i ==> #[trigger] moves[j].move_id != id
}

/// Frames a move takes from start to finish.
pub open spec fn total_frames(m: MoveData) -> int {
    m.startup_frames + m.active_frames + m.recovery_frames
}

/// `props` holds a property of the kind of `p`.
pub open spec fn has_kind(props: Seq<MoveProperty>, p: MoveProperty) -> bool {
    exists|k: int| 0 <= k < props.len() && property_kind(#[trigger] props[k]) == property_kind(p)
}

fn list1<T>(a: T) -> (v: Vec<T>)
    ensures
        v@ == seq![a],
{
    let mut v: Vec<T> = Vec::new();
    v.push(a);
    v
}

fn list2<T>(a: T, b: T) -> (v: Vec<T>)
    ensures
        v@ == seq![a, b],
{
    let mut v: Vec<T> = Vec::new();
    v.push(a);
    v.push(b);
    v
}

fn list3<T>(a: T, b: T, c: T) -> (v: Vec<T>)
    ensures
        v@ == seq![a, b, c],
{
    let mut v: Vec<T> = Vec::new();
    v.push(a);
    v.push(b);
    v.push(c);
    v
}

fn move_data(move_id: MoveId, name: &'static str, startup_frames: u32, active_frames: u32, recovery_frames: u32,
    hitstun_frames: u32, blockstun_frames: u32, can_cancel: Vec<MoveId>, properties: Vec<MoveProperty>) -> (m: MoveData)
    ensures
        m.move_id == move_id,
        m.name@ == name@,
        m.startup_frames == startup_frames,
        m.active_frames == active_frames,
        m.recovery_frames == recovery_frames,
        m.hitstun_frames == hitstun_frames,
        m.blockstun_frames == blockstun_frames,
        m.can_cancel@ == can_cancel@,
        m.properties@ == properties@,
{
    MoveData { move_id, name, startup_frames, active_frames, recovery_frames, hitstun_frames, blockstun_frames, can_cancel, properties }
}

fn push_move(list: &mut Vec<MoveData>, m: MoveData)
    requires
        forall|k: int| 0 <= k < old(list)@.len() ==> #[trigger] is_move_entry(old(list)@[k], keizer_move(k)),
        is_move_entry(m, keizer_move(old(list)@.len() as int)),
    ensures
        final(list)@ == old(list)@.push(m),
        forall|k: int| 0 <= k < final(list)@.len() ==> #[trigger] is_move_entry(final(list)@[k], keizer_move(k)),
{
    list.push(m);
}

fn push_route(list: &mut Vec<ComboRoute>, r: ComboRoute)
    requires
        forall|k: int| 0 <= k < old(list)@.len() ==> #[trigger] is_route_entry(old(list)@[k], keizer_route(k)),
        is_route_entry(r, keizer_route(old(list)@.len() as int)),
    ensures
        final(list)@ == old(list)@.push(r),
        forall|k: int| 0 <= k < final(list)@.len() ==> #[trigger] is_route_entry(final(list)@[k], keizer_route(k)),
{
    list.push(r);
}

impl CharacterMoveset {
    /// The moveset of Keizer Bom Taha.
    pub fn keizer_bom_taha() -> (m: CharacterMoveset)
        ensures
            is_keizer_moveset(m),
    {
        let mut moves: Vec<MoveData> = Vec::new();
        let none: Vec<MoveProperty> = Vec::new();
        push_move(&mut moves, move_data(MoveId::MilitaryStrike, "Military Strike", 5, 3, 8, 12, 8,
            list2(MoveId::BayonetThrust, MoveId::CommanderKick), none));
        push_move(&mut moves, move_data(MoveId::BayonetThrust, "Bayonet Thrust", 8, 4, 12, 16, 10,
            list1(MoveId::OrderBarrage), list1(MoveProperty::ChargeMeter)));
        push_move(&mut moves, move_data(MoveId::CommanderKick, "Commander's Kick", 7, 5, 10, 18, 12,
            list1(MoveId::AerialAssault), list1(MoveProperty::Juggle)));
        push_move(&mut moves, move_data(MoveId::OrderBarrage, "Order Barrage", 12, 20, 18, 25, 15,
            Vec::new(), list2(MoveProperty::MultiHit(6), MoveProperty::SuperArmor)));
        push_move(&mut moves, move_data(MoveId::AerialAssault, "Aerial Assault", 45, 900, 90, 0, 0,
            Vec::new(), list1(MoveProperty::Invincible)));
        push_move(&mut moves, move_data(MoveId::BombDrop, "Bomb Drop", 3, 180, 5, 30, 20,
            Vec::new(), list2(MoveProperty::Projectile, MoveProperty::GroundBounce)));
        push_move(&mut moves, move_data(MoveId::StrafeRun, "Strafe Run", 2, 4, 8, 8, 6,
            Vec::new(), list2(MoveProperty::Projectile, MoveProperty::MultiHit(3))));
        push_move(&mut moves, move_data(MoveId::AerialSlam, "Aerial Slam", 60, 10, 30, 45, 30,
            Vec::new(), list3(MoveProperty::Unblockable, MoveProperty::GroundBounce, MoveProperty::Invincible)));

        let mut routes: Vec<ComboRoute> = Vec::new();
        push_route(&mut routes, ComboRoute {
            name: "Basic Military Combo",
            moves: list3(MoveId::MilitaryStrike, MoveId::BayonetThrust, MoveId::CommanderKick),
            total_damage: 165,
            difficulty: ComboDifficulty::Easy,
            description: "Standard ground combo leading to launcher",
        });
        let mut bombardment: Vec<MoveId> = list3(MoveId::MilitaryStrike, MoveId::CommanderKick, MoveId::AerialAssault);
        bombardment.push(MoveId::BombDrop);
        bombardment.push(MoveId::AerialSlam);
        assert(bombardment@ =~= seq![MoveId::MilitaryStrike, MoveId::CommanderKick, MoveId::AerialAssault,
            MoveId::BombDrop, MoveId::AerialSlam]);
        push_route(&mut routes, ComboRoute {
            name: "Aerial Bombardment",
            moves: bombardment,
            total_damage: 395,
            difficulty: ComboDifficulty::Hard,
            description: "Launch into plane mode, bomb, and slam finish",
        });
        push_route(&mut routes, ComboRoute {
            name: "Order Execution",
            moves: list2(MoveId::BayonetThrust, MoveId::OrderBarrage),
            total_damage: 185,
            difficulty: ComboDifficulty::Medium,
            description: "Meter-burning combo with super armor",
        });
        CharacterMoveset { character_type: CharacterType::KeizerBomTaha, moves, combo_routes: routes }
    }

    /// The moveset of a character: Keizer Bom Taha's own, or an empty one.
    pub fn for_character(character_type: CharacterType) -> (m: CharacterMoveset)
        ensures
            character_type == CharacterType::KeizerBomTaha ==> is_keizer_moveset(m),
            character_type != CharacterType::KeizerBomTaha ==> {
                &&& m.character_type == character_type
                &&& m.moves@.len() == 0
                &&& m.combo_routes@.len() == 0
            },
    {
        match character_type {
            CharacterType::KeizerBomTaha => Self::keizer_bom_taha(),
            _ => Self::default_moveset(character_type),
        }
    }

    fn default_moveset(character_type: CharacterType) -> (m: CharacterMoveset)
        ensures
            m.character_type == character_type,
            m.moves@.len() == 0,
            m.combo_routes@.len() == 0,
    {
        CharacterMoveset { character_type, moves: Vec::new(), combo_routes: Vec::new() }
    }

    /// The first move with id `move_id`, if the moveset has one.
    pub fn get_move(&self, move_id: MoveId) -> (r: Option<&MoveData>)
        ensures
            match r {
                Some(m) => exists|i: int| first_move(self.moves@, move_id, i) && *m == self.moves@[i],
                None => forall|j: int| 0 <= j < self.moves@.len() ==> #[trigger] self.moves@[j].move_id != move_id,
            },
    {
        let mut i: usize = 0;
        while i < self.moves.len()
            invariant
                i <= self.moves@.len(),
                forall|j: int| 0 <= j < i ==> #[trigger] self.moves@[j].move_id != move_id,
            decreases self.moves@.len() - i,
        {
            if self.moves[i].move_id == move_id {
                assert(first_move(self.moves@, move_id, i as int));
                return Some(&self.moves[i]);
            }
            i += 1;
        }
        None
    }

    /// Frames the first move with id `move_id` takes from start to finish;
    /// 0 when the moveset has no such move.
    pub fn get_total_frames(&self, move_id: MoveId) -> (n: u32)
        requires
            forall|i: int| first_move(self.moves@, move_id, i) ==> total_frames(#[trigger] self.moves@[i]) <= u32::MAX,
        ensures
            forall|i: int| first_move(self.moves@, move_id, i) ==> n == total_frames(#[trigger] self.moves@[i]),
            (forall|j: int| 0 <= j < self.moves@.len() ==> #[trigger] self.moves@[j].move_id != move_id) ==> n == 0,
    {
        match self.get_move(move_id) {
            Some(m) => {
                proof {
                    let i = choose|i: int| first_move(self.moves@, move_id, i) && *m == self.moves@[i];
                    assert forall|k: int| first_move(self.moves@, move_id, k) implies k == i by {
                        if k < i {
                            assert(self.moves@[k].move_id != move_id);
                        } else if i < k {
                            assert(self.moves@[i].move_id != move_id);
                        }
                    }
                }
                m.startup_frames + m.active_frames + m.recovery_frames
            },
            None => 0,
        }
    }

    /// Whether the first move with id `move_id` has a property of the kind
    /// of `property` (its payload left aside); false when there is no such
    /// move.
    pub fn move_has_property(&self, move_id: MoveId, property: &MoveProperty) -> (b: bool)
        ensures
            b == exists|i: int| first_move(self.moves@, move_id, i) && has_kind(#[trigger] self.moves@[i].properties@, *property),
    {
        match self.get_move(move_id) {
            Some(m) => {
                let ghost i = choose|i: int| first_move(self.moves@, move_id, i) && *m == self.moves@[i];
                proof {
                    assert forall|k: int| first_move(self.moves@, move_id, k) implies k == i by {
                        if k < i {
                            assert(self.moves@[k].move_id != move_id);
                        } else if i < k {
                            assert(self.moves@[i].move_id != move_id);
                        }
                    }
                }
                let wanted = kind_of(property);
                let mut k: usize = 0;
                while k < m.properties.len()
                    invariant
                        k <= m.properties@.len(),
                        wanted == property_kind(*property),
                        first_move(self.moves@, move_id, i),
                        *m == self.moves@[i],
                        forall|q: int| first_move(self.moves@, move_id, q) ==> q == i,
                        forall|j: int| 0 <= j < k ==> property_kind(#[trigger] m.properties@[j]) != wanted,
                    decreases m.properties@.len() - k,
                {
                    if kind_of(&m.properties[k]) == wanted {
                        proof {
                            assert(self.moves@[i].properties@ == m.properties@);
                            assert(property_kind(self.moves@[i].properties@[k as int]) == property_kind(*property));
                            assert(has_kind(self.moves@[i].properties@, *property));
                        }
                        return true;
                    }
                    k += 1;
                }
                false
            },
            None => false,
        }
    }
}

/// The kind of a property, as a number.
fn kind_of(p: &MoveProperty) -> (k: u8)
    ensures
        k == property_kind(*p),
{
    match p {
        MoveProperty::Overhead => 0,
        MoveProperty::Low => 1,
        MoveProperty::Unblockable => 2,
        MoveProperty::Invincible => 3,
        MoveProperty::SuperArmor => 4,
        MoveProperty::Juggle => 5,
        MoveProperty::GroundBounce => 6,
        MoveProperty::WallBounce => 7,
        MoveProperty::Projectile => 8,
        MoveProperty::MultiHit(_) => 9,
        MoveProperty::ChargeMeter => 10,
        MoveProperty::Slow => 11,
        MoveProperty::Stun => 12,
        MoveProperty::DOT => 13,
    }
}

/// Bas's empty moveset.
impl Default for CharacterMoveset {
    fn default() -> (m: CharacterMoveset)
        ensures
            m.character_type == CharacterType::Bas,
            m.moves@.len() == 0,
            m.combo_routes@.len() == 0,
    {
        Self::default_moveset(CharacterType::Bas)
    }
}

/// Frame data arithmetic for competitive play.
pub struct FrameDataCalculator;

impl FrameDataCalculator {
    /// Frames the attacker is ahead after the move hits: the defender's
    /// hitstun less the attacker's recovery.
    pub fn frame_advantage_on_hit(move_data: &MoveData) -> (a: i32)
        requires
            frames_in_range(*move_data),
        ensures
            a == move_data.hitstun_frames - move_data.recovery_frames,
    {
        let attacker_recovery = move_data.recovery_frames as i32;
        let defender_hitstun = move_data.hitstun_frames as i32;
        defender_hitstun - attacker_recovery
    }

    /// Frames the attacker is ahead after the move is blocked: the
    /// defender's blockstun less the attacker's recovery.
    pub fn frame_advantage_on_block(move_data: &MoveData) -> (a: i32)
        requires
            frames_in_range(*move_data),
        ensures
            a == block_advantage(*move_data),
    {
        let attacker_recovery = move_data.recovery_frames as i32;
        let defender_blockstun = move_data.blockstun_frames as i32;
        defender_blockstun - attacker_recovery
    }

    /// Whether the attacker is ahead after a block.
    pub fn is_plus_on_block(move_data: &MoveData) -> (b: bool)
        requires
            frames_in_range(*move_data),
        ensures
            b == (block_advantage(*move_data) > 0),
    {
        Self::frame_advantage_on_block(move_data) > 0
    }

    /// Whether the attacker is not behind after a block.
    pub fn is_safe_on_block(move_data: &MoveData) -> (b: bool)
        requires
            frames_in_range(*move_data),
        ensures
            b == (block_advantage(*move_data) >= 0),
    {
        Self::frame_advantage_on_block(move_data) >= 0
    }

    /// The frames the defender has to punish a blocked move: how far the
    /// attacker is behind, or 0 when it is not.
    pub fn punish_window(move_data: &MoveData) -> (w: u32)
        requires
            frames_in_range(*move_data),
        ensures
            w == punish_frames(*move_data),
    {
        let advantage = Self::frame_advantage_on_block(move_data);
        if advantage < 0 {
            (0 - advantage) as u32
        } else {
            0
        }
    }
}

/// A blocked move leaves a punish window exactly when it is unsafe, and a
/// move that is ahead on block is safe.
pub proof fn law_punishable_iff_unsafe(m: MoveData)
    requires
        frames_in_range(m),
    ensures
        (punish_frames(m) > 0) == !(block_advantage(m) >= 0),
        punish_frames(m) == 0 <==> block_advantage(m) >= 0,
        block_advantage(m) > 0 ==> punish_frames(m) == 0,
{
}

} // verus!

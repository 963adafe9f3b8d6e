use vstd::prelude::*;
use crate::coop::player_manager::PlayerSlot;

verus! {

/// Rank of the team's running combo.
#[derive(Clone, Copy, Debug, PartialEq, Eq, Structural)]
pub enum ComboRank {
    D,
    C,
    B,
    A,
    S,
    SS,
    SSS,
}

/// The rank of a team combo of `count` hits: D below 5, C below 10, B below
/// 20, A below 40, S below 70, SS below 100, SSS from 100 on.
pub open spec fn rank_for_count(count: u32) -> ComboRank {
    if count <= 4 {
        ComboRank::D
    } else if count <= 9 {
        ComboRank::C
    } else if count <= 19 {
        ComboRank::B
    } else if count <= 39 {
        ComboRank::A
    } else if count <= 69 {
        ComboRank::S
    } else if count <= 99 {
        ComboRank::SS
    } else {
        ComboRank::SSS
    }
}

/// Position of a rank, from 0 for D.
pub open spec fn rank_position(r: ComboRank) -> int {
    match r {
        ComboRank::D => 0,
        ComboRank::C => 1,
        ComboRank::B => 2,
        ComboRank::A => 3,
        ComboRank::S => 4,
        ComboRank::SS => 5,
        ComboRank::SSS => 6,
    }
}

/// The damage multiplier of a rank, in hundredths (`120` stands for ×1.2).
pub open spec fn rank_multiplier(r: ComboRank) -> u32 {
    match r {
        ComboRank::D => 100,
        ComboRank::C => 120,
        ComboRank::B => 150,
        ComboRank::A => 200,
        ComboRank::S => 250,
        ComboRank::SS => 300,
        ComboRank::SSS => 400,
    }
}

/// The team combo of a cooperative match: how many hits in a row the players
/// landed together, who landed the last one, and the rank and damage
/// multiplier that the count earns. The decay timer, a number of seconds,
/// is kept by the caller, which calls `reset_combo` when it runs out.
pub struct SharedComboSystem {
    combo_count: u32,
    last_attacker: Option<PlayerSlot>,
    combo_multiplier: u32,
    combo_rank: ComboRank,
}

impl SharedComboSystem {
    /// Hits in the running combo.
    pub closed spec fn count(&self) -> u32 {
        self.combo_count
    }

    /// The player who landed the last hit, while a combo runs.
    pub closed spec fn last(&self) -> Option<PlayerSlot> {
        self.last_attacker
    }

    /// Rank and multiplier always follow from the count.
    pub closed spec fn wf(&self) -> bool {
        &&& self.combo_rank == rank_for_count(self.combo_count)
        &&& self.combo_multiplier == rank_multiplier(self.combo_rank)
        &&& (self.combo_count == 0 <==> self.last_attacker is None)
    }

    /// No combo running.
    pub fn new() -> (s: SharedComboSystem)
        ensures
            s.wf(),
            s.count() == 0,
            s.last() is None,
    {
        SharedComboSystem { combo_count: 0, last_attacker: None, combo_multiplier: 100, combo_rank: ComboRank::D }
    }

    /// One more hit, by `attacker`. The count goes up by one and the rank
    /// and multiplier are those of the new count; a switch of attacker earns
    /// no more than that.
    pub fn register_hit(&mut self, attacker: PlayerSlot, is_different_from_last: bool)
        requires
            old(self).wf(),
            old(self).count() < u32::MAX,
        ensures
            final(self).wf(),
            final(self).count() == old(self).count() + 1,
            final(self).last() == Some(attacker),
    {
        self.combo_count = self.combo_count + 1;
        self.last_attacker = Some(attacker);
        if is_different_from_last {
            self.combo_multiplier = self.combo_multiplier + 10;
        }
        self.update_combo_rank();
    }

    /// Hits in the running combo.
    pub fn get_combo_count(&self) -> (n: u32)
        ensures
            n == self.count(),
    {
        self.combo_count
    }

    /// The damage multiplier, in hundredths.
    pub fn get_combo_multiplier(&self) -> (m: u32)
        requires
            self.wf(),
        ensures
            m == rank_multiplier(rank_for_count(self.count())),
    {
        self.combo_multiplier
    }

    /// The rank of the running combo.
    pub fn get_combo_rank(&self) -> (r: ComboRank)
        requires
            self.wf(),
        ensures
            r == rank_for_count(self.count()),
    {
        self.combo_rank
    }

    /// Drops the combo.
    pub fn reset_combo(&mut self)
        ensures
            final(self).wf(),
            final(self).count() == 0,
            final(self).last() is None,
    {
        self.combo_count = 0;
        self.combo_multiplier = 100;
        self.combo_rank = ComboRank::D;
        self.last_attacker = None;
    }

    fn update_combo_rank(&mut self)
        ensures
            final(self).combo_count == old(self).combo_count,
            final(self).last_attacker == old(self).last_attacker,
            final(self).combo_rank == rank_for_count(old(self).combo_count),
            final(self).combo_multiplier == rank_multiplier(final(self).combo_rank),
    {
        let n = self.combo_count;
        self.combo_rank = if n <= 4 {
            ComboRank::D
        } else if n <= 9 {
            ComboRank::C
        } else if n <= 19 {
            ComboRank::B
        } else if n <= 39 {
            ComboRank::A
        } else if n <= 69 {
            ComboRank::S
        } else if n <= 99 {
            ComboRank::SS
        } else {
            ComboRank::SSS
        };
        self.combo_multiplier = match self.combo_rank {
            ComboRank::D => 100,
            ComboRank::C => 120,
            ComboRank::B => 150,
            ComboRank::A => 200,
            ComboRank::S => 250,
            ComboRank::SS => 300,
            ComboRank::SSS => 400,
        };
    }

    /// Whether a combo is running.
    pub fn is_combo_active(&self) -> (b: bool)
        ensures
            b == (self.count() > 0),
    {
        self.combo_count > 0
    }
}

impl ComboRank {
    /// The rank's letters.
    pub fn to_string(&self) -> (s: &'static str)
        ensures
            s@ == match *self {
                ComboRank::D => "D"@,
                ComboRank::C => "C"@,
                ComboRank::B => "B"@,
                ComboRank::A => "A"@,
                ComboRank::S => "S"@,
                ComboRank::SS => "SS"@,
                ComboRank::SSS => "SSS"@,
            },
    {
        match self {
            ComboRank::D => "D",
            ComboRank::C => "C",
            ComboRank::B => "B",
            ComboRank::A => "A",
            ComboRank::S => "S",
            ComboRank::SS => "SS",
            ComboRank::SSS => "SSS",
        }
    }
}

/// A longer team combo never ranks lower, and never earns a smaller
/// multiplier.
pub proof fn law_team_rank_monotone(a: u32, b: u32)
    requires
        a <= b,
    ensures
        rank_position(rank_for_count(a)) <= rank_position(rank_for_count(b)),
        rank_multiplier(rank_for_count(a)) <= rank_multiplier(rank_for_count(b)),
{
}

/// The rank bands of a team combo by their bounds, with the multiplier each
/// earns: D below 5 hits (×1), C from 5 (×1.2), B from 10 (×1.5), A from 20
/// (×2), S from 40 (×2.5), SS from 70 (×3), SSS from 100 (×4).
pub proof fn law_team_rank_bands(count: u32)
    ensures
        count < 5 ==> rank_for_count(count) == ComboRank::D && rank_multiplier(rank_for_count(count)) == 100,
        5 <= count < 10 ==> rank_for_count(count) == ComboRank::C && rank_multiplier(rank_for_count(count)) == 120,
        10 <= count < 20 ==> rank_for_count(count) == ComboRank::B && rank_multiplier(rank_for_count(count)) == 150,
        20 <= count < 40 ==> rank_for_count(count) == ComboRank::A && rank_multiplier(rank_for_count(count)) == 200,
        40 <= count < 70 ==> rank_for_count(count) == ComboRank::S && rank_multiplier(rank_for_count(count)) == 250,
        70 <= count < 100 ==> rank_for_count(count) == ComboRank::SS && rank_multiplier(rank_for_count(count)) == 300,
        count >= 100 ==> rank_for_count(count) == ComboRank::SSS && rank_multiplier(rank_for_count(count)) == 400,
{
}

/// A team combo with no hits is a single state, the one `new` makes and
/// `reset_combo` leaves, whatever hits came before: no attacker, rank D,
/// multiplier ×1.
pub proof fn law_empty_combo_is_unique(s: SharedComboSystem, t: SharedComboSystem)
    requires
        s.wf(),
        t.wf(),
        s.count() == 0,
        t.count() == 0,
    ensures
        s == t,
{
}

/// A revive under way: who is down, who revives them, and for how long the
/// reviver has stayed in range (milliseconds of game time).
#[derive(Clone, Copy, Debug, PartialEq, Eq, Structural)]
pub struct ActiveRevive {
    pub downed_player: PlayerSlot,
    pub reviver: PlayerSlot,
    pub progress_ms: u64,
}

/// The revives under way in a co-op session, at most one per downed player,
/// and how long a revive takes. (The range within which a reviver must stay
/// is a distance, kept by the caller, which tells for each revive whether
/// its two players are still within it.)
pub struct ReviveSystem {
    active_revives: Vec<ActiveRevive>,
    revive_time_ms: u64,
}

/// How long a revive takes, in milliseconds.
pub const REVIVE_TIME_MS: u64 = 3000;

/// `p + dt`, or the largest `u64` when that does not fit.
pub open spec fn progress_after(p: u64, dt: u64) -> u64 {
    if p + dt > u64::MAX {
        u64::MAX
    } else {
        (p + dt) as u64
    }
}

/// The revives after a step of `dt` milliseconds, before any is taken off:
/// each revive whose players stayed in range (`in_range`, revive by revive)
/// has its progress moved on; the others are as they were.
pub open spec fn revives_stepped(s: Seq<ActiveRevive>, in_range: Seq<bool>, dt: u64) -> Seq<ActiveRevive> {
    Seq::new(s.len(), |i: int| if in_range[i] {
        ActiveRevive { progress_ms: progress_after(s[i].progress_ms, dt), ..s[i] }
    } else {
        s[i]
    })
}

/// The positions, in increasing order among the first `n`, of the revives
/// in range that have taken `time` after the step.
pub open spec fn completed_positions(s: Seq<ActiveRevive>, in_range: Seq<bool>, dt: u64, time: u64, n: int) -> Seq<usize>
    decreases n,
{
    if n <= 0 {
        Seq::empty()
    } else {
        let rest = completed_positions(s, in_range, dt, time, n - 1);
        if in_range[n - 1] && progress_after(s[n - 1].progress_ms, dt) >= time {
            rest.push((n - 1) as usize)
        } else {
            rest
        }
    }
}

/// The positions, in increasing order among the first `n`, of the revives
/// whose players left range.
pub open spec fn cancelled_positions(in_range: Seq<bool>, n: int) -> Seq<usize>
    decreases n,
{
    if n <= 0 {
        Seq::empty()
    } else {
        let rest = cancelled_positions(in_range, n - 1);
        if !in_range[n - 1] {
            rest.push((n - 1) as usize)
        } else {
            rest
        }
    }
}

/// The positions a step takes off, in the order the list holds them: the
/// completed ones, then the cancelled ones. They are taken off from the last
/// of this list back to the first, each by the position it names in the list
/// as it stands then.
pub open spec fn removal_positions(s: Seq<ActiveRevive>, in_range: Seq<bool>, dt: u64, time: u64) -> Seq<usize> {
    completed_positions(s, in_range, dt, time, s.len() as int) + cancelled_positions(in_range, s.len() as int)
}

/// `s` after taking off, from the last position of `idxs` back to the first,
/// the entry at each position.
pub open spec fn removed_backward(s: Seq<ActiveRevive>, idxs: Seq<usize>) -> Seq<ActiveRevive>
    decreases idxs.len(),
{
    if idxs.len() == 0 {
        s
    } else {
        removed_backward(s.remove(idxs.last() as int), idxs.drop_last())
    }
}

/// Each position of `idxs`, taken from the last back to the first, names an
/// entry of a list of `len` entries that loses one entry at each step.
pub open spec fn removals_fit(len: int, idxs: Seq<usize>) -> bool
    decreases idxs.len(),
{
    if idxs.len() == 0 {
        true
    } else {
        idxs.last() < len && removals_fit(len - 1, idxs.drop_last())
    }
}

/// What a step of `dt` milliseconds reports, revive by revive, for those
/// whose players stayed in range: the downed player, the progress, and
/// whether the revive is complete.
pub open spec fn revives_reported(s: Seq<ActiveRevive>, in_range: Seq<bool>, dt: u64, time: u64) -> Seq<(PlayerSlot, u64, bool)>
    decreases s.len(),
{
    if s.len() == 0 {
        Seq::empty()
    } else {
        let r = s.last();
        let p = progress_after(r.progress_ms, dt);
        let rest = revives_reported(s.drop_last(), in_range.take(s.len() - 1), dt, time);
        if in_range[s.len() - 1] {
            rest.push((r.downed_player, p, p >= time))
        } else {
            rest
        }
    }
}

/// The revives left when `reviver` stops reviving.
pub open spec fn without_reviver(s: Seq<ActiveRevive>, reviver: PlayerSlot) -> Seq<ActiveRevive>
    decreases s.len(),
{
    if s.len() == 0 {
        Seq::empty()
    } else if s.last().reviver == reviver {
        without_reviver(s.drop_last(), reviver)
    } else {
        without_reviver(s.drop_last(), reviver).push(s.last())
    }
}

/// `downed` is being revived in `s`.
pub open spec fn being_revived(s: Seq<ActiveRevive>, downed: PlayerSlot) -> bool {
    exists|i: int| 0 <= i < s.len() && #[trigger] s[i].downed_player == downed
}

impl ReviveSystem {
    /// The revives under way, oldest first.
    pub closed spec fn revives(&self) -> Seq<ActiveRevive> {
        self.active_revives@
    }

    /// How long a revive takes.
    pub closed spec fn revive_time(&self) -> u64 {
        self.revive_time_ms
    }

    /// No revive under way; revives take three seconds.
    pub fn new() -> (r: ReviveSystem)
        ensures
            r.revives().len() == 0,
            r.revive_time() == REVIVE_TIME_MS,
    {
        ReviveSystem { active_revives: Vec::new(), revive_time_ms: REVIVE_TIME_MS }
    }

    /// Starts `reviver` reviving `downed_player`, unless that player is
    /// already being revived.
    pub fn start_revive(&mut self, downed_player: PlayerSlot, reviver: PlayerSlot)
        ensures
            final(self).revive_time() == old(self).revive_time(),
            being_revived(old(self).revives(), downed_player) ==> final(self).revives() == old(self).revives(),
            !being_revived(old(self).revives(), downed_player) ==> final(self).revives()
                == old(self).revives().push(ActiveRevive { downed_player, reviver, progress_ms: 0 }),
    {
        if self.is_being_revived(downed_player) {
            return;
        }
        self.active_revives.push(ActiveRevive { downed_player, reviver, progress_ms: 0 });
    }

    /// Moves every revive on by `dt_ms` milliseconds. `in_range` tells, revive
    /// by revive, whether its two players are still within range; a revive
    /// whose players are in range moves on, and one that has taken the revive
    /// time is complete. Then the completed and the cancelled revives are
    /// taken off by position, as `removal_positions` and `removed_backward`
    /// say: the last listed position first, each against the list as it
    /// stands then (so a completed revive listed after a cancelled one may
    /// leave another revive in its place). Returns, for each revive in range,
    /// the downed player, its progress and whether it is complete.
    pub fn update(&mut self, dt_ms: u64, in_range: &Vec<bool>) -> (report: Vec<(PlayerSlot, u64, bool)>)
        requires
            in_range@.len() == old(self).revives().len(),
            removals_fit(old(self).revives().len() as int,
                removal_positions(old(self).revives(), in_range@, dt_ms, old(self).revive_time())),
        ensures
            final(self).revive_time() == old(self).revive_time(),
            final(self).revives() == removed_backward(revives_stepped(old(self).revives(), in_range@, dt_ms),
                removal_positions(old(self).revives(), in_range@, dt_ms, old(self).revive_time())),
            report@ == revives_reported(old(self).revives(), in_range@, dt_ms, old(self).revive_time()),
    {
        let ghost s0 = self.active_revives@;
        let ghost f0 = in_range@;
        let mut completed: Vec<usize> = Vec::new();
        let mut cancelled: Vec<usize> = Vec::new();
        let mut report: Vec<(PlayerSlot, u64, bool)> = Vec::new();
        let mut i: usize = 0;
        while i < self.active_revives.len()
            invariant
                i <= s0.len(),
                self.active_revives@.len() == s0.len(),
                forall|j: int| 0 <= j < i ==> #[trigger] self.active_revives@[j] == revives_stepped(s0, f0, dt_ms)[j],
                forall|j: int| i <= j < s0.len() ==> #[trigger] self.active_revives@[j] == s0[j],
                in_range@ == f0,
                f0.len() == s0.len(),
                self.revive_time_ms == old(self).revive_time_ms,
                completed@ == completed_positions(s0, f0, dt_ms, self.revive_time_ms, i as int),
                cancelled@ == cancelled_positions(f0, i as int),
                report@ == revives_reported(s0.take(i as int), f0.take(i as int), dt_ms, self.revive_time_ms),
            decreases s0.len() - i,
        {
            let r = self.active_revives[i];
            proof {
                assert(s0.take(i as int + 1).drop_last() =~= s0.take(i as int));
                assert(f0.take(i as int + 1).take(i as int) =~= f0.take(i as int));
                assert(s0.take(i as int + 1).last() == s0[i as int]);
            }
            if in_range[i] {
                let p = r.progress_ms.saturating_add(dt_ms);
                let done = p >= self.revive_time_ms;
                report.push((r.downed_player, p, done));
                self.active_revives.set(i, ActiveRevive { progress_ms: p, ..r });
                if done {
                    completed.push(i);
                }
            } else {
                cancelled.push(i);
            }
            i += 1;
        }
        proof {
            assert(s0.take(s0.len() as int) =~= s0);
            assert(f0.take(f0.len() as int) =~= f0);
            assert(self.active_revives@ =~= revives_stepped(s0, f0, dt_ms));
        }
        let mut order = completed;
        let mut tail = cancelled;
        order.append(&mut tail);
        let ghost full = order@;
        let ghost target = removed_backward(revives_stepped(s0, f0, dt_ms), full);
        assert(full == removal_positions(s0, f0, dt_ms, self.revive_time_ms));
        let mut j: usize = order.len();
        assert(order@.take(j as int) =~= full);
        while j > 0
            invariant
                j <= order@.len(),
                order@ == full,
                removals_fit(self.active_revives@.len() as int, full.take(j as int)),
                removed_backward(self.active_revives@, full.take(j as int)) == target,
                self.revive_time_ms == old(self).revive_time_ms,
            decreases j,
        {
            proof {
                assert(full.take(j as int).drop_last() =~= full.take(j as int - 1));
                assert(full.take(j as int).last() == full[j as int - 1]);
            }
            j -= 1;
            let pos = order[j];
            self.active_revives.remove(pos);
        }
        report
    }

    /// Whether `update` with these arguments names only positions that
    /// exist as it takes the finished revives off.
    pub fn removal_fits(&self, dt_ms: u64, in_range: &Vec<bool>) -> (b: bool)
        requires
            in_range@.len() == self.revives().len(),
        ensures
            b == removals_fit(self.revives().len() as int,
                removal_positions(self.revives(), in_range@, dt_ms, self.revive_time())),
    {
        let ghost s0 = self.active_revives@;
        let ghost f0 = in_range@;
        let mut completed: Vec<usize> = Vec::new();
        let mut cancelled: Vec<usize> = Vec::new();
        let mut i: usize = 0;
        while i < self.active_revives.len()
            invariant
                i <= s0.len(),
                self.active_revives@ == s0,
                in_range@ == f0,
                f0.len() == s0.len(),
                completed@ == completed_positions(s0, f0, dt_ms, self.revive_time_ms, i as int),
                cancelled@ == cancelled_positions(f0, i as int),
            decreases s0.len() - i,
        {
            if in_range[i] {
                let p = self.active_revives[i].progress_ms.saturating_add(dt_ms);
                if p >= self.revive_time_ms {
                    completed.push(i);
                }
            } else {
                cancelled.push(i);
            }
            i += 1;
        }
        let mut order = completed;
        let mut tail = cancelled;
        order.append(&mut tail);
        let ghost full = order@;
        assert(full == removal_positions(s0, f0, dt_ms, self.revive_time_ms));
        let mut len: usize = self.active_revives.len();
        let mut j: usize = order.len();
        assert(order@.take(j as int) =~= full);
        while j > 0
            invariant
                j <= order@.len(),
                order@ == full,
                len <= s0.len(),
                self.active_revives@ == s0,
                in_range@ == f0,
                full == removal_positions(s0, f0, dt_ms, self.revive_time_ms),
                removals_fit(s0.len() as int, full) == removals_fit(len as int, full.take(j as int)),
            decreases j,
        {
            proof {
                assert(full.take(j as int).drop_last() =~= full.take(j as int - 1));
                assert(full.take(j as int).last() == full[j as int - 1]);
            }
            if order[j - 1] >= len {
                assert(!removals_fit(len as int, full.take(j as int)));
                return false;
            }
            len -= 1;
            j -= 1;
        }
        true
    }

    /// Stops every revive that `reviver` was doing.
    pub fn cancel_revive(&mut self, reviver: PlayerSlot)
        ensures
            final(self).revive_time() == old(self).revive_time(),
            final(self).revives() == without_reviver(old(self).revives(), reviver),
    {
        let ghost s0 = self.active_revives@;
        let mut kept: Vec<ActiveRevive> = Vec::new();
        let mut i: usize = 0;
        while i < self.active_revives.len()
            invariant
                i <= s0.len(),
                self.active_revives@ == s0,
                kept@ == without_reviver(s0.take(i as int), reviver),
            decreases s0.len() - i,
        {
            let r = self.active_revives[i];
            proof {
                assert(s0.take(i as int + 1).drop_last() =~= s0.take(i as int));
                assert(s0.take(i as int + 1).last() == s0[i as int]);
            }
            if r.reviver != reviver {
                kept.push(r);
            }
            i += 1;
        }
        proof {
            assert(s0.take(s0.len() as int) =~= s0);
        }
        self.active_revives = kept;
    }

    /// Who revives `downed_player` and how far, when someone does (the
    /// oldest such revive).
    pub fn get_active_revive(&self, downed_player: PlayerSlot) -> (r: Option<(PlayerSlot, u64)>)
        ensures
            match r {
                Some((reviver, progress)) => exists|i: int| 0 <= i < self.revives().len()
                    && #[trigger] self.revives()[i].downed_player == downed_player
                    && self.revives()[i].reviver == reviver && self.revives()[i].progress_ms == progress
                    && forall|j: int| 0 <= j < i ==> #[trigger] self.revives()[j].downed_player != downed_player,
                None => !being_revived(self.revives(), downed_player),
            },
    {
        let mut i: usize = 0;
        while i < self.active_revives.len()
            invariant
                i <= self.active_revives@.len(),
                forall|j: int| 0 <= j < i ==> #[trigger] self.active_revives@[j].downed_player != downed_player,
            decreases self.active_revives@.len() - i,
        {
            let r = self.active_revives[i];
            if r.downed_player == downed_player {
                assert(self.revives()[i as int].downed_player == downed_player);
                return Some((r.reviver, r.progress_ms));
            }
            i += 1;
        }
        None
    }

    /// The revives under way, oldest first.
    pub fn active_revives(&self) -> (r: Vec<ActiveRevive>)
        ensures
            r@ == self.revives(),
    {
        let mut r: Vec<ActiveRevive> = Vec::new();
        let mut i: usize = 0;
        while i < self.active_revives.len()
            invariant
                i <= self.active_revives@.len(),
                r@ == self.active_revives@.take(i as int),
            decreases self.active_revives@.len() - i,
        {
            r.push(self.active_revives[i]);
            assert(self.active_revives@.take(i as int + 1) =~= self.active_revives@.take(i as int).push(self.active_revives@[i as int]));
            i += 1;
        }
        assert(self.active_revives@.take(i as int) =~= self.active_revives@);
        r
    }

    /// Whether `player` is being revived.
    pub fn is_being_revived(&self, player: PlayerSlot) -> (b: bool)
        ensures
            b == being_revived(self.revives(), player),
    {
        let mut i: usize = 0;
        while i < self.active_revives.len()
            invariant
                i <= self.active_revives@.len(),
                forall|j: int| 0 <= j < i ==> #[trigger] self.active_revives@[j].downed_player != player,
            decreases self.active_revives@.len() - i,
        {
            if self.active_revives[i].downed_player == player {
                return true;
            }
            i += 1;
        }
        false
    }
}

/// Starting a revive never gives a downed player two revivers: once every
/// downed player has at most one revive, that stays so.
pub proof fn law_one_revive_per_player(s: Seq<ActiveRevive>, downed: PlayerSlot, reviver: PlayerSlot)
    requires
        forall|i: int, j: int| 0 <= i < j < s.len() ==> s[i].downed_player != s[j].downed_player,
    ensures
        ({
            let t = if being_revived(s, downed) { s } else { s.push(ActiveRevive { downed_player: downed, reviver, progress_ms: 0 }) };
            forall|i: int, j: int| 0 <= i < j < t.len() ==> t[i].downed_player != t[j].downed_player
        }),
{
}

/// The team super moves.
#[derive(Clone, Copy, Debug, PartialEq, Eq, Structural)]
pub enum TeamSuperType {
    /// Every player invincible for its duration.
    InvincibilityAura,
    /// A large damage multiplier.
    DamageBoost,
    /// All enemies frozen.
    TimeStop,
    /// Health restored to all players at once.
    HealingWave,
    /// A combined attack.
    UltimateCombo,
}

/// How long a team super lasts, in whole seconds (0 for an instant one).
pub open spec fn super_duration_of(t: TeamSuperType) -> u32 {
    match t {
        TeamSuperType::InvincibilityAura => 8,
        TeamSuperType::DamageBoost => 10,
        TeamSuperType::TimeStop => 5,
        TeamSuperType::HealingWave => 0,
        TeamSuperType::UltimateCombo => 3,
    }
}

/// The team super move of a co-op session: whether one is running and which.
/// (Its timer counts fractional seconds and is kept by the caller, which
/// calls `finish` once the duration has passed.)
pub struct TeamSuperSystem {
    super_active: bool,
    super_duration: u32,
    super_type: TeamSuperType,
}

impl TeamSuperSystem {
    /// Whether a super is running.
    pub closed spec fn active(&self) -> bool {
        self.super_active
    }

    /// The super chosen last.
    pub closed spec fn kind(&self) -> TeamSuperType {
        self.super_type
    }

    /// The duration of the super chosen last, in seconds.
    pub closed spec fn duration(&self) -> u32 {
        self.super_duration
    }

    /// No super running.
    pub fn new() -> (t: TeamSuperSystem)
        ensures
            !t.active(),
            t.kind() == TeamSuperType::DamageBoost,
            t.duration() == 10,
    {
        TeamSuperSystem { super_active: false, super_duration: 10, super_type: TeamSuperType::DamageBoost }
    }

    /// Starts a super of the given type, with that type's duration.
    pub fn activate(&mut self, super_type: TeamSuperType)
        ensures
            final(self).active(),
            final(self).kind() == super_type,
            final(self).duration() == super_duration_of(super_type),
    {
        self.super_active = true;
        self.super_type = super_type;
        self.super_duration = match super_type {
            TeamSuperType::InvincibilityAura => 8,
            TeamSuperType::DamageBoost => 10,
            TeamSuperType::TimeStop => 5,
            TeamSuperType::HealingWave => 0,
            TeamSuperType::UltimateCombo => 3,
        };
    }

    /// Ends the running super.
    pub fn finish(&mut self)
        ensures
            !final(self).active(),
            final(self).kind() == old(self).kind(),
            final(self).duration() == old(self).duration(),
    {
        self.super_active = false;
    }

    /// Seconds the super chosen last lasts.
    pub fn get_duration(&self) -> (d: u32)
        ensures
            d == self.duration(),
    {
        self.super_duration
    }

    /// Whether a super is running.
    pub fn is_active(&self) -> (b: bool)
        ensures
            b == self.active(),
    {
        self.super_active
    }

    /// The running super, if any.
    pub fn get_super_type(&self) -> (r: Option<TeamSuperType>)
        ensures
            r == if self.active() { Some(self.kind()) } else { None },
    {
        if self.super_active {
            Some(self.super_type)
        } else {
            None
        }
    }

    /// The damage multiplier the running super grants: 5 for a damage boost,
    /// 10 for the ultimate combo, 1 otherwise.
    pub fn get_damage_multiplier(&self) -> (m: u32)
        ensures
            m == if self.active() && self.kind() == TeamSuperType::DamageBoost {
                5u32
            } else if self.active() && self.kind() == TeamSuperType::UltimateCombo {
                10u32
            } else {
                1u32
            },
    {
        if self.super_active && self.super_type == TeamSuperType::DamageBoost {
            5
        } else if self.super_active && self.super_type == TeamSuperType::UltimateCombo {
            10
        } else {
            1
        }
    }

    /// Whether the players are invincible: while the invincibility aura runs.
    pub fn is_invincible(&self) -> (b: bool)
        ensures
            b == (self.active() && self.kind() == TeamSuperType::InvincibilityAura),
    {
        self.super_active && self.super_type == TeamSuperType::InvincibilityAura
    }
}

} // verus!

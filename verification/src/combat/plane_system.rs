use vstd::prelude::*;

verus! {

/// How a volley of bombs is laid out.
#[derive(Clone, Copy, Debug, PartialEq, Eq, Structural)]
pub enum BombPattern {
    Single,
    Line,
    Circle,
    Cross,
    CarpetBomb,
}

/// The most bombs a pattern drops at once.
pub open spec fn pattern_size(p: BombPattern) -> u32 {
    match p {
        BombPattern::Single => 1,
        BombPattern::Line => 3,
        BombPattern::Circle => 6,
        BombPattern::Cross => 5,
        BombPattern::CarpetBomb => 10,
    }
}

/// The plane of Keizer Bom Taha: whether he is taking off, flying or
/// landing, the cooldown before he may take off again, how long the flight
/// has lasted, and his bombs and their reload (all times in milliseconds of
/// game time). Position, speed, altitude and plane health are fractions kept
/// by the caller.
#[derive(Clone, Copy, Debug, PartialEq, Eq, Structural)]
pub struct PlaneSystem {
    pub in_plane: bool,
    pub entering_plane: bool,
    pub exiting_plane: bool,
    pub plane_cooldown_ms: u64,
    pub plane_duration_ms: u64,
    pub max_plane_duration_ms: u64,
    pub bombs_remaining: u32,
    pub max_bombs: u32,
    pub bomb_reload_timer_ms: u64,
    pub bomb_reload_time_ms: u64,
    pub transition_timer_ms: u64,
    pub transition_duration_ms: u64,
}

/// Cooldown after landing normally, in milliseconds.
pub const LANDING_COOLDOWN_MS: u64 = 15000;

/// Cooldown after the plane is shot down, in milliseconds.
pub const CRASH_COOLDOWN_MS: u64 = 30000;

/// `a + b`, or the largest `u64` when that does not fit.
pub open spec fn add_sat(a: u64, b: u64) -> u64 {
    if a + b > u64::MAX {
        u64::MAX
    } else {
        (a + b) as u64
    }
}

/// `a - b`, or 0 when `b` is larger.
pub open spec fn sub_sat(a: u64, b: u64) -> u64 {
    if a >= b {
        (a - b) as u64
    } else {
        0
    }
}

/// The plane `dt` milliseconds later, and whether the rest of the frame (the
/// flight itself and the falling bombs) goes on. The cooldown runs down
/// first. Taking off and landing each take the transition time and end the
/// frame; a flight that reaches its longest duration starts landing and ends
/// the frame; while flying, a missing bomb reloads each time the reload time
/// has passed.
pub open spec fn stepped(s: PlaneSystem, dt: u64) -> (PlaneSystem, bool) {
    let s1 = PlaneSystem { plane_cooldown_ms: sub_sat(s.plane_cooldown_ms, dt), ..s };
    if s1.entering_plane {
        let t = add_sat(s1.transition_timer_ms, dt);
        if t >= s1.transition_duration_ms {
            (PlaneSystem { transition_timer_ms: t, entering_plane: false, in_plane: true, plane_duration_ms: 0, ..s1 }, false)
        } else {
            (PlaneSystem { transition_timer_ms: t, ..s1 }, false)
        }
    } else if s1.exiting_plane {
        let t = add_sat(s1.transition_timer_ms, dt);
        if t >= s1.transition_duration_ms {
            (PlaneSystem {
                transition_timer_ms: t,
                exiting_plane: false,
                in_plane: false,
                plane_cooldown_ms: LANDING_COOLDOWN_MS,
                ..s1
            }, false)
        } else {
            (PlaneSystem { transition_timer_ms: t, ..s1 }, false)
        }
    } else if s1.in_plane {
        let d = add_sat(s1.plane_duration_ms, dt);
        if d >= s1.max_plane_duration_ms {
            (PlaneSystem { plane_duration_ms: d, exiting_plane: true, transition_timer_ms: 0, ..s1 }, false)
        } else if s1.bombs_remaining < s1.max_bombs {
            let r = add_sat(s1.bomb_reload_timer_ms, dt);
            if r >= s1.bomb_reload_time_ms {
                (PlaneSystem {
                    plane_duration_ms: d,
                    bombs_remaining: (s1.bombs_remaining + 1) as u32,
                    bomb_reload_timer_ms: 0,
                    ..s1
                }, true)
            } else {
                (PlaneSystem { plane_duration_ms: d, bomb_reload_timer_ms: r, ..s1 }, true)
            }
        } else {
            (PlaneSystem { plane_duration_ms: d, ..s1 }, true)
        }
    } else {
        (s1, true)
    }
}

impl PlaneSystem {
    /// On the ground, ready to take off; flights of fifteen seconds, ten
    /// bombs reloading one a second, and a take-off or landing of one and a
    /// half seconds.
    pub fn new() -> (s: PlaneSystem)
        ensures
            s == (PlaneSystem {
                in_plane: false,
                entering_plane: false,
                exiting_plane: false,
                plane_cooldown_ms: 0,
                plane_duration_ms: 0,
                max_plane_duration_ms: 15000,
                bombs_remaining: 10,
                max_bombs: 10,
                bomb_reload_timer_ms: 0,
                bomb_reload_time_ms: 1000,
                transition_timer_ms: 0,
                transition_duration_ms: 1500,
            }),
    {
        PlaneSystem {
            in_plane: false,
            entering_plane: false,
            exiting_plane: false,
            plane_cooldown_ms: 0,
            plane_duration_ms: 0,
            max_plane_duration_ms: 15000,
            bombs_remaining: 10,
            max_bombs: 10,
            bomb_reload_timer_ms: 0,
            bomb_reload_time_ms: 1000,
            transition_timer_ms: 0,
            transition_duration_ms: 1500,
        }
    }

    /// Starts taking off with a full load of bombs, unless the cooldown is
    /// still running; says whether it did.
    pub fn enter_plane(&mut self) -> (entered: bool)
        ensures
            entered == (old(self).plane_cooldown_ms == 0),
            entered ==> *final(self) == (PlaneSystem {
                entering_plane: true,
                transition_timer_ms: 0,
                bombs_remaining: old(self).max_bombs,
                ..*old(self)
            }),
            !entered ==> *final(self) == *old(self),
    {
        if self.plane_cooldown_ms > 0 {
            return false;
        }
        self.entering_plane = true;
        self.transition_timer_ms = 0;
        self.bombs_remaining = self.max_bombs;
        true
    }

    /// Starts landing.
    pub fn exit_plane(&mut self)
        ensures
            *final(self) == (PlaneSystem { exiting_plane: true, transition_timer_ms: 0, ..*old(self) }),
    {
        self.exiting_plane = true;
        self.transition_timer_ms = 0;
    }

    /// The plane is down at once: no flight, no take-off or landing, and the
    /// long cooldown.
    pub fn force_exit(&mut self)
        ensures
            *final(self) == (PlaneSystem {
                in_plane: false,
                entering_plane: false,
                exiting_plane: false,
                plane_cooldown_ms: CRASH_COOLDOWN_MS,
                ..*old(self)
            }),
    {
        self.in_plane = false;
        self.entering_plane = false;
        self.exiting_plane = false;
        self.plane_cooldown_ms = CRASH_COOLDOWN_MS;
    }

    /// Moves the plane on by `dt_ms` milliseconds, as `stepped` says; the
    /// result says whether the rest of the frame goes on.
    pub fn update(&mut self, dt_ms: u64) -> (goes_on: bool)
        ensures
            (*final(self), goes_on) == stepped(*old(self), dt_ms),
    {
        self.plane_cooldown_ms = self.plane_cooldown_ms.saturating_sub(dt_ms);
        if self.entering_plane {
            self.transition_timer_ms = self.transition_timer_ms.saturating_add(dt_ms);
            if self.transition_timer_ms >= self.transition_duration_ms {
                self.entering_plane = false;
                self.in_plane = true;
                self.plane_duration_ms = 0;
            }
            return false;
        }
        if self.exiting_plane {
            self.transition_timer_ms = self.transition_timer_ms.saturating_add(dt_ms);
            if self.transition_timer_ms >= self.transition_duration_ms {
                self.exiting_plane = false;
                self.in_plane = false;
                self.plane_cooldown_ms = LANDING_COOLDOWN_MS;
            }
            return false;
        }
        if self.in_plane {
            self.plane_duration_ms = self.plane_duration_ms.saturating_add(dt_ms);
            if self.plane_duration_ms >= self.max_plane_duration_ms {
                self.exit_plane();
                return false;
            }
            if self.bombs_remaining < self.max_bombs {
                self.bomb_reload_timer_ms = self.bomb_reload_timer_ms.saturating_add(dt_ms);
                if self.bomb_reload_timer_ms >= self.bomb_reload_time_ms {
                    self.bombs_remaining = self.bombs_remaining + 1;
                    self.bomb_reload_timer_ms = 0;
                }
            }
        }
        true
    }

    /// While flying with bombs left, drops as many as `pattern` holds, or
    /// all that are left when fewer; returns how many it dropped.
    pub fn drop_bomb(&mut self, pattern: BombPattern) -> (n: u32)
        ensures
            n == if !old(self).in_plane || old(self).bombs_remaining == 0 {
                0
            } else if pattern_size(pattern) <= old(self).bombs_remaining {
                pattern_size(pattern)
            } else {
                old(self).bombs_remaining
            },
            *final(self) == (PlaneSystem { bombs_remaining: (old(self).bombs_remaining - n) as u32, ..*old(self) }),
    {
        if !self.in_plane || self.bombs_remaining == 0 {
            return 0;
        }
        let size: u32 = match pattern {
            BombPattern::Single => 1,
            BombPattern::Line => 3,
            BombPattern::Circle => 6,
            BombPattern::Cross => 5,
            BombPattern::CarpetBomb => 10,
        };
        let n = if size <= self.bombs_remaining { size } else { self.bombs_remaining };
        self.bombs_remaining = self.bombs_remaining - n;
        n
    }

    /// Whether a take-off may start: on the ground, not taking off or
    /// landing, and no cooldown left.
    pub fn can_enter_plane(&self) -> (b: bool)
        ensures
            b == (!self.in_plane && !self.entering_plane && !self.exiting_plane && self.plane_cooldown_ms == 0),
    {
        !self.in_plane && !self.entering_plane && !self.exiting_plane && self.plane_cooldown_ms == 0
    }

    /// Milliseconds of flight left; 0 once the longest flight is used up.
    pub fn get_duration_remaining_ms(&self) -> (r: u64)
        ensures
            r == sub_sat(self.max_plane_duration_ms, self.plane_duration_ms),
    {
        self.max_plane_duration_ms.saturating_sub(self.plane_duration_ms)
    }
}

/// Upgrade levels of the plane.
#[derive(Clone, Copy, Debug, PartialEq, Eq, Structural)]
pub struct PlaneUpgrades {
    pub increased_duration: u32,
    pub increased_bombs: u32,
    pub faster_reload: u32,
    pub increased_damage: u32,
    pub larger_explosions: u32,
    pub armor_plating: u32,
    pub faster_plane: u32,
}

impl PlaneUpgrades {
    /// No upgrades.
    pub fn new() -> (u: PlaneUpgrades)
        ensures
            u == (PlaneUpgrades {
                increased_duration: 0,
                increased_bombs: 0,
                faster_reload: 0,
                increased_damage: 0,
                larger_explosions: 0,
                armor_plating: 0,
                faster_plane: 0,
            }),
    {
        PlaneUpgrades {
            increased_duration: 0,
            increased_bombs: 0,
            faster_reload: 0,
            increased_damage: 0,
            larger_explosions: 0,
            armor_plating: 0,
            faster_plane: 0,
        }
    }

    /// Sets the plane's longest flight (three more seconds a level), its
    /// bombs (two more a level, all loaded) and its reload time (150
    /// milliseconds less a level, never below nothing).
    pub fn apply_to_system(&self, system: &mut PlaneSystem)
        requires
            10 + 2 * self.increased_bombs <= u32::MAX,
        ensures
            *final(system) == (PlaneSystem {
                max_plane_duration_ms: (15000 + 3000 * self.increased_duration) as u64,
                max_bombs: (10 + 2 * self.increased_bombs) as u32,
                bombs_remaining: (10 + 2 * self.increased_bombs) as u32,
                bomb_reload_time_ms: sub_sat(1000, (150 * self.faster_reload) as u64),
                ..*old(system)
            }),
    {
        system.max_plane_duration_ms = 15000 + 3000 * (self.increased_duration as u64);
        system.max_bombs = 10 + self.increased_bombs * 2;
        system.bombs_remaining = system.max_bombs;
        system.bomb_reload_time_ms = 1000u64.saturating_sub(150 * (self.faster_reload as u64));
    }
}

/// The plane never holds more bombs than it can carry: updating it keeps its
/// bombs within capacity, and so does dropping them.
pub proof fn law_bombs_within_capacity(s: PlaneSystem, dt: u64)
    requires
        s.bombs_remaining <= s.max_bombs,
    ensures
        stepped(s, dt).0.bombs_remaining <= stepped(s, dt).0.max_bombs,
        stepped(s, dt).0.max_bombs == s.max_bombs,
{
}

/// A take-off that has run its full transition time leaves the plane flying,
/// with a fresh flight clock.
pub proof fn law_take_off_completes(s: PlaneSystem, dt: u64)
    requires
        s.entering_plane,
        s.transition_timer_ms == 0,
        dt >= s.transition_duration_ms,
    ensures
        stepped(s, dt).0.in_plane,
        !stepped(s, dt).0.entering_plane,
        stepped(s, dt).0.plane_duration_ms == 0,
{
}

/// A landing that completes leaves the plane on the ground and out of reach
/// for the landing cooldown.
pub proof fn law_landing_starts_cooldown(s: PlaneSystem, dt: u64)
    requires
        !s.entering_plane,
        s.exiting_plane,
        add_sat(s.transition_timer_ms, dt) >= s.transition_duration_ms,
    ensures
        !stepped(s, dt).0.in_plane,
        !stepped(s, dt).0.exiting_plane,
        stepped(s, dt).0.plane_cooldown_ms == LANDING_COOLDOWN_MS,
{
}

} // verus!

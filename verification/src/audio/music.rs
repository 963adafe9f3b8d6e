use vstd::prelude::*;

verus! {

/// The layers of an adaptive music track.
#[derive(Clone, Copy, Debug, PartialEq, Eq, Structural)]
pub enum MusicStem {
    Drums,
    Bass,
    Melody,
    Harmony,
}

/// The track playing, the one it fades into, and how far that crossfade has
/// gone (milliseconds of game time). The volume of each stem, a fraction, is
/// kept by the caller.
pub struct MusicManager {
    current_track: Option<String>,
    queued_track: Option<String>,
    crossfade_duration_ms: u64,
    crossfade_timer_ms: u64,
}

/// How long a crossfade takes, in milliseconds.
pub const CROSSFADE_MS: u64 = 2000;

/// The text of a track name, if there is one.
pub open spec fn track_text(t: Option<String>) -> Option<Seq<char>> {
    match t {
        Some(s) => Some(s@),
        None => None,
    }
}

/// The state of the music as four values: the track playing, the track it
/// fades into, the milliseconds the crossfade has run, and the milliseconds
/// a crossfade takes.
impl View for MusicManager {
    type V = (Option<Seq<char>>, Option<Seq<char>>, nat, nat);

    closed spec fn view(&self) -> Self::V {
        (track_text(self.current_track), track_text(self.queued_track),
            self.crossfade_timer_ms as nat, self.crossfade_duration_ms as nat)
    }
}

/// The music after `name` is asked for: it plays at once when nothing plays,
/// else a new crossfade into it starts.
pub open spec fn played(s: (Option<Seq<char>>, Option<Seq<char>>, nat, nat), name: Seq<char>)
    -> (Option<Seq<char>>, Option<Seq<char>>, nat, nat) {
    if s.0 is Some {
        (s.0, Some(name), 0nat, s.3)
    } else {
        (Some(name), s.1, s.2, s.3)
    }
}

/// The music `dt` milliseconds later: a running crossfade moves on, and once
/// it has run its full duration the track faded into is the one playing.
pub open spec fn faded(s: (Option<Seq<char>>, Option<Seq<char>>, nat, nat), dt: nat)
    -> (Option<Seq<char>>, Option<Seq<char>>, nat, nat) {
    match s.1 {
        None => s,
        Some(q) => if s.2 + dt >= s.3 {
            (Some(q), None, 0nat, s.3)
        } else {
            (s.0, s.1, s.2 + dt, s.3)
        },
    }
}

impl MusicManager {
    /// No music, and crossfades of two seconds.
    pub fn new() -> (m: MusicManager)
        ensures
            m@ == (None::<Seq<char>>, None::<Seq<char>>, 0nat, CROSSFADE_MS as nat),
    {
        MusicManager {
            current_track: None,
            queued_track: None,
            crossfade_duration_ms: CROSSFADE_MS,
            crossfade_timer_ms: 0,
        }
    }

    /// Plays `track_name`: at once when nothing plays, else by fading into
    /// it from the start of a new crossfade.
    pub fn play_track(&mut self, track_name: String)
        ensures
            final(self)@ == played(old(self)@, track_name@),
    {
        if self.current_track.is_some() {
            self.queued_track = Some(track_name);
            self.crossfade_timer_ms = 0;
        } else {
            self.current_track = Some(track_name);
        }
    }

    /// Moves a running crossfade on by `dt_ms` milliseconds; once it has run
    /// its full duration the queued track becomes the one playing.
    pub fn update(&mut self, dt_ms: u64)
        ensures
            final(self)@ == faded(old(self)@, dt_ms as nat),
    {
        if self.queued_track.is_some() {
            self.crossfade_timer_ms = self.crossfade_timer_ms.saturating_add(dt_ms);
            if self.crossfade_timer_ms >= self.crossfade_duration_ms {
                self.current_track = self.queued_track.take();
                self.crossfade_timer_ms = 0;
            }
        }
    }

    /// Where a running crossfade stands, as (milliseconds run, milliseconds
    /// it takes); `None` when no crossfade has started running.
    pub fn crossfade_position(&self) -> (p: Option<(u64, u64)>)
        ensures
            match p {
                Some((t, d)) => self@.1 is Some && t > 0 && t == self@.2 && d == self@.3,
                None => self@.1 is None || self@.2 == 0,
            },
    {
        if self.queued_track.is_some() && self.crossfade_timer_ms > 0 {
            Some((self.crossfade_timer_ms, self.crossfade_duration_ms))
        } else {
            None
        }
    }

    /// The track playing.
    pub fn current_track(&self) -> (t: Option<String>)
        ensures
            track_text(t) == self@.0,
    {
        match &self.current_track {
            Some(s) => Some(s.clone()),
            None => None,
        }
    }
}

/// Letting the music run for `d1` and then `d2` milliseconds leaves it where
/// letting it run `d1 + d2` milliseconds at once does.
pub proof fn law_crossfade_time_adds_up(s: (Option<Seq<char>>, Option<Seq<char>>, nat, nat), d1: nat, d2: nat)
    ensures
        faded(faded(s, d1), d2) == faded(s, d1 + d2),
{
}

/// A track asked for while another plays takes over exactly when the
/// crossfade's full duration has passed.
pub proof fn law_new_track_after_crossfade(s: (Option<Seq<char>>, Option<Seq<char>>, nat, nat), name: Seq<char>, dt: nat)
    requires
        s.0 is Some,
        s.0 != Some(name),
    ensures
        faded(played(s, name), dt).0 == Some(name) <==> dt >= s.3,
{
}

} // verus!

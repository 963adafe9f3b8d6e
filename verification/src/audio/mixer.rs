use vstd::prelude::*;
use vstd::string::StringExecFns;

verus! {

/// A sound on a channel: which one, when it started (milliseconds of game
/// time), and whether it loops.
#[derive(Clone, Debug)]
pub struct PlayingSound {
    pub sound_id: String,
    pub start_time_ms: u64,
    pub looping: bool,
}

/// A mixer channel: its name and what plays on it. (Its volume and pan are
/// fractions, kept by the caller.)
#[derive(Clone, Debug)]
pub struct AudioChannel {
    pub name: String,
    pub playing: Option<PlayingSound>,
}

/// The sixteen channels of the mixer and the music track playing. The last
/// channel is the one music plays on.
pub struct AudioMixer {
    channels: Vec<AudioChannel>,
    current_music: Option<String>,
}

/// Number of mixer channels.
pub const CHANNEL_COUNT: usize = 16;

/// The channel music plays on.
pub const MUSIC_CHANNEL: usize = 15;

/// How long a sound that does not loop is kept on its channel, in
/// milliseconds.
pub const SOUND_LIFETIME_MS: u64 = 5000;

/// A playing sound as plain values: sound, start time, whether it loops.
pub open spec fn sound_view(p: Option<PlayingSound>) -> Option<(Seq<char>, u64, bool)> {
    match p {
        Some(s) => Some((s.sound_id@, s.start_time_ms, s.looping)),
        None => None,
    }
}

/// The text of the decimal digit `d`.
pub open spec fn digit_text(d: int) -> Seq<char> {
    if d == 0 {
        "0"@
    } else if d == 1 {
        "1"@
    } else if d == 2 {
        "2"@
    } else if d == 3 {
        "3"@
    } else if d == 4 {
        "4"@
    } else if d == 5 {
        "5"@
    } else if d == 6 {
        "6"@
    } else if d == 7 {
        "7"@
    } else if d == 8 {
        "8"@
    } else {
        "9"@
    }
}

/// The name of channel `i` (under 16): `channel_` and its number.
pub open spec fn channel_label(i: int) -> Seq<char> {
    if i >= 10 {
        "channel_"@ + "1"@ + digit_text(i - 10)
    } else {
        "channel_"@ + digit_text(i)
    }
}

/// What stays on a channel at time `now`: a sound that does not loop is
/// gone once more than five seconds have passed since it started.
pub open spec fn kept(p: Option<(Seq<char>, u64, bool)>, now: u64) -> Option<(Seq<char>, u64, bool)> {
    match p {
        Some((id, start, looping)) => if !looping && now > start + SOUND_LIFETIME_MS {
            None
        } else {
            p
        },
        None => None,
    }
}

fn digit_str(d: usize) -> (s: &'static str)
    requires
        d < 10,
    ensures
        s@ == digit_text(d as int),
{
    match d {
        0 => "0",
        1 => "1",
        2 => "2",
        3 => "3",
        4 => "4",
        5 => "5",
        6 => "6",
        7 => "7",
        8 => "8",
        _ => "9",
    }
}

fn channel_name(i: usize) -> (s: String)
    requires
        i < CHANNEL_COUNT,
    ensures
        s@ == channel_label(i as int),
{
    let mut s = String::from_str("channel_");
    if i >= 10 {
        s.append("1");
        s.append(digit_str(i - 10));
    } else {
        s.append(digit_str(i));
    }
    s
}

impl AudioMixer {
    /// What plays on each channel.
    pub closed spec fn playing(&self) -> Seq<Option<(Seq<char>, u64, bool)>> {
        Seq::new(self.channels@.len(), |i: int| sound_view(self.channels@[i].playing))
    }

    /// The name of each channel.
    pub closed spec fn names(&self) -> Seq<Seq<char>> {
        Seq::new(self.channels@.len(), |i: int| self.channels@[i].name@)
    }

    /// The music track playing.
    pub closed spec fn music(&self) -> Option<Seq<char>> {
        match self.current_music {
            Some(m) => Some(m@),
            None => None,
        }
    }

    /// Sixteen silent channels named `channel_0` to `channel_15`, and no
    /// music.
    pub fn new() -> (m: AudioMixer)
        ensures
            m.playing().len() == CHANNEL_COUNT,
            m.names().len() == CHANNEL_COUNT,
            forall|i: int| 0 <= i < CHANNEL_COUNT ==> #[trigger] m.playing()[i] is None,
            forall|i: int| 0 <= i < CHANNEL_COUNT ==> #[trigger] m.names()[i] == channel_label(i),
            m.music() is None,
    {
        let mut channels: Vec<AudioChannel> = Vec::new();
        let mut i: usize = 0;
        while i < CHANNEL_COUNT
            invariant
                i <= CHANNEL_COUNT,
                channels@.len() == i,
                forall|j: int| 0 <= j < i ==> (#[trigger] channels@[j]).playing is None,
                forall|j: int| 0 <= j < i ==> (#[trigger] channels@[j]).name@ == channel_label(j),
            decreases CHANNEL_COUNT - i,
        {
            channels.push(AudioChannel { name: channel_name(i), playing: None });
            i += 1;
        }
        let m = AudioMixer { channels, current_music: None };
        assert forall|i: int| 0 <= i < CHANNEL_COUNT implies #[trigger] m.playing()[i] is None by {
            assert(m.channels@[i].playing is None);
        }
        assert forall|i: int| 0 <= i < CHANNEL_COUNT implies #[trigger] m.names()[i] == channel_label(i) by {
            assert(m.channels@[i].name@ == channel_label(i));
        }
        m
    }

    /// Puts `playing` on channel `i`, keeping its name.
    fn put(&mut self, i: usize, playing: Option<PlayingSound>)
        requires
            i < old(self).channels@.len(),
        ensures
            final(self).channels@.len() == old(self).channels@.len(),
            final(self).playing() == old(self).playing().update(i as int, sound_view(playing)),
            final(self).names() == old(self).names(),
            final(self).music() == old(self).music(),
    {
        let name = self.channels[i].name.clone();
        self.channels.set(i, AudioChannel { name, playing });
        assert(self.playing() =~= old(self).playing().update(i as int, sound_view(playing)));
        assert(self.names() =~= old(self).names());
    }

    /// Plays `sound_id` at time `now_ms` on the first silent channel and
    /// returns that channel; `None` when every channel is busy.
    pub fn play_sound(&mut self, sound_id: &str, now_ms: u64) -> (r: Option<usize>)
        ensures
            final(self).names() == old(self).names(),
            final(self).music() == old(self).music(),
            match r {
                Some(i) => {
                    &&& i < old(self).playing().len()
                    &&& old(self).playing()[i as int] is None
                    &&& forall|j: int| 0 <= j < i ==> #[trigger] old(self).playing()[j] is Some
                    &&& final(self).playing() == old(self).playing().update(i as int, Some((sound_id@, now_ms, false)))
                },
                None => {
                    &&& forall|j: int| 0 <= j < old(self).playing().len() ==> #[trigger] old(self).playing()[j] is Some
                    &&& final(self).playing() == old(self).playing()
                },
            },
    {
        let mut i: usize = 0;
        while i < self.channels.len()
            invariant
                i <= self.channels@.len(),
                *self == *old(self),
                forall|j: int| 0 <= j < i ==> #[trigger] old(self).playing()[j] is Some,
            decreases self.channels@.len() - i,
        {
            if self.channels[i].playing.is_none() {
                proof {
                    assert(old(self).playing()[i as int] == sound_view(self.channels@[i as int].playing));
                }
                let sound = PlayingSound { sound_id: String::from_str(sound_id), start_time_ms: now_ms, looping: false };
                self.put(i, Some(sound));
                return Some(i);
            }
            proof {
                assert(old(self).playing()[i as int] == sound_view(self.channels@[i as int].playing));
            }
            i += 1;
        }
        None
    }

    /// Plays the music track `music_id` on the music channel, unless it is
    /// the track already playing; says whether it started it.
    pub fn play_music(&mut self, music_id: &str, looping: bool, now_ms: u64) -> (started: bool)
        ensures
            started == (old(self).music() != Some(music_id@)),
            final(self).names() == old(self).names(),
            old(self).music() == Some(music_id@) ==> final(self).playing() == old(self).playing()
                && final(self).music() == old(self).music(),
            old(self).music() != Some(music_id@) ==> {
                &&& final(self).music() == Some(music_id@)
                &&& final(self).playing() == if old(self).playing().len() > MUSIC_CHANNEL {
                    old(self).playing().update(MUSIC_CHANNEL as int, Some((music_id@, now_ms, looping)))
                } else {
                    old(self).playing()
                }
            },
    {
        let wanted = music_id.to_owned();
        let same = match &self.current_music {
            Some(m) => *m == wanted,
            None => false,
        };
        if same {
            return false;
        }
        self.stop_music();
        self.current_music = Some(wanted);
        if self.channels.len() > MUSIC_CHANNEL {
            let sound = PlayingSound { sound_id: String::from_str(music_id), start_time_ms: now_ms, looping };
            self.put(MUSIC_CHANNEL, Some(sound));
        }
        true
    }

    /// Silences the music channel and forgets the music track.
    pub fn stop_music(&mut self)
        ensures
            final(self).names() == old(self).names(),
            final(self).music() is None,
            final(self).playing() == if old(self).playing().len() > MUSIC_CHANNEL {
                old(self).playing().update(MUSIC_CHANNEL as int, None)
            } else {
                old(self).playing()
            },
    {
        if self.channels.len() > MUSIC_CHANNEL {
            self.put(MUSIC_CHANNEL, None);
        }
        self.current_music = None;
    }

    /// Silences channel `channel_id`; an id past the last channel changes
    /// nothing.
    pub fn stop_channel(&mut self, channel_id: usize)
        ensures
            final(self).names() == old(self).names(),
            final(self).music() == old(self).music(),
            final(self).playing() == if channel_id < old(self).playing().len() {
                old(self).playing().update(channel_id as int, None)
            } else {
                old(self).playing()
            },
    {
        if channel_id < self.channels.len() {
            self.put(channel_id, None);
        }
    }

    /// At time `now_ms`, takes off every sound that does not loop and
    /// started more than five seconds before.
    pub fn update(&mut self, now_ms: u64)
        ensures
            final(self).names() == old(self).names(),
            final(self).music() == old(self).music(),
            final(self).playing() == Seq::new(old(self).playing().len(), |i: int| kept(old(self).playing()[i], now_ms)),
    {
        let mut i: usize = 0;
        while i < self.channels.len()
            invariant
                i <= self.channels@.len(),
                self.channels@.len() == old(self).channels@.len(),
                self.names() == old(self).names(),
                self.music() == old(self).music(),
                forall|j: int| 0 <= j < i ==> #[trigger] self.playing()[j] == kept(old(self).playing()[j], now_ms),
                forall|j: int| i <= j < self.channels@.len() ==> #[trigger] self.playing()[j] == old(self).playing()[j],
            decreases self.channels@.len() - i,
        {
            let expired = match &self.channels[i].playing {
                Some(p) => !p.looping && now_ms > p.start_time_ms && now_ms - p.start_time_ms > SOUND_LIFETIME_MS,
                None => false,
            };
            proof {
                assert(self.playing()[i as int] == sound_view(self.channels@[i as int].playing));
            }
            if expired {
                self.put(i, None);
            }
            i += 1;
        }
        assert(self.playing() =~= Seq::new(old(self).playing().len(), |i: int| kept(old(self).playing()[i], now_ms)));
    }
}

} // verus!

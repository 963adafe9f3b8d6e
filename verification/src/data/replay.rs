use vstd::prelude::*;
use crate::combat::integration::frames_after;

verus! {

/// The recorder and player of match replays: whether it records or plays,
/// the frames recorded so far (at most `max_frames`, the oldest dropped), how
/// many frames the recording has counted, the frames of the replay being
/// played and the one shown next. A frame is of type `F`, which the manager
/// does not read; a replay's metadata, duration and checksum are made by the
/// caller from what `stop_recording` hands back.
pub struct ReplayManager<F> {
    recording: bool,
    playing: bool,
    replay_frames: Option<Vec<F>>,
    frame_buffer: Vec<F>,
    playback_frame: usize,
    recording_frame: u32,
    max_frames: usize,
}

/// How many frames a recording keeps at most: ten minutes at 60 frames a
/// second.
pub const MAX_REPLAY_FRAMES: usize = 36000;

impl<F> ReplayManager<F> {
    /// Whether a recording runs.
    pub closed spec fn is_recording_spec(&self) -> bool {
        self.recording
    }

    /// Whether a replay plays.
    pub closed spec fn is_playing_spec(&self) -> bool {
        self.playing
    }

    /// The frames recorded so far.
    pub closed spec fn buffer(&self) -> Seq<F> {
        self.frame_buffer@
    }

    /// The frames of the replay at hand, if any.
    pub closed spec fn replay(&self) -> Option<Seq<F>> {
        match self.replay_frames {
            Some(v) => Some(v@),
            None => None,
        }
    }

    /// The frame shown next.
    pub closed spec fn playback(&self) -> usize {
        self.playback_frame
    }

    /// The frames the recording has counted.
    pub closed spec fn counted(&self) -> u32 {
        self.recording_frame
    }

    /// The most frames a recording keeps.
    pub closed spec fn max(&self) -> usize {
        self.max_frames
    }

    /// Neither recording nor playing, with room for ten minutes of frames.
    pub fn new() -> (m: ReplayManager<F>)
        ensures
            !m.is_recording_spec(),
            !m.is_playing_spec(),
            m.replay() is None,
            m.buffer().len() == 0,
            m.playback() == 0,
            m.counted() == 0,
            m.max() == MAX_REPLAY_FRAMES,
    {
        ReplayManager {
            recording: false,
            playing: false,
            replay_frames: None,
            frame_buffer: Vec::new(),
            playback_frame: 0,
            recording_frame: 0,
            max_frames: MAX_REPLAY_FRAMES,
        }
    }

    /// Starts a new recording, stopping any playback: no frame yet, and a
    /// new replay at hand.
    pub fn start_recording(&mut self)
        ensures
            final(self).is_recording_spec(),
            !final(self).is_playing_spec(),
            final(self).counted() == 0,
            final(self).buffer().len() == 0,
            final(self).replay() == Some(Seq::<F>::empty()),
            final(self).playback() == old(self).playback(),
            final(self).max() == old(self).max(),
    {
        self.recording = true;
        self.playing = false;
        self.recording_frame = 0;
        self.frame_buffer.clear();
        self.replay_frames = Some(Vec::new());
        assert(self.replay() == Some(Seq::<F>::empty()));
    }

    /// Ends the recording and hands back its frames and how many frames it
    /// counted; `None`, and nothing changed, when no recording runs.
    pub fn stop_recording(&mut self) -> (r: Option<(Vec<F>, u32)>)
        ensures
            !old(self).is_recording_spec() || old(self).replay() is None ==> r is None && *final(self) == *old(self),
            old(self).is_recording_spec() && old(self).replay() is Some ==> {
                &&& r matches Some((frames, n)) && frames@ == old(self).buffer() && n == old(self).counted()
                &&& !final(self).is_recording_spec()
                &&& final(self).buffer().len() == 0
                &&& final(self).is_playing_spec() == old(self).is_playing_spec()
                &&& final(self).playback() == old(self).playback()
                &&& final(self).counted() == old(self).counted()
                &&& final(self).max() == old(self).max()
                &&& final(self).replay() == old(self).replay()
            },
    {
        if !self.recording || self.replay_frames.is_none() {
            return None;
        }
        self.recording = false;
        let mut frames: Vec<F> = Vec::new();
        std::mem::swap(&mut frames, &mut self.frame_buffer);
        Some((frames, self.recording_frame))
    }

    /// Plays `frames` from the first one, stopping any recording.
    pub fn start_playback(&mut self, frames: Vec<F>)
        ensures
            final(self).is_playing_spec(),
            !final(self).is_recording_spec(),
            final(self).playback() == 0,
            final(self).replay() == Some(frames@),
            final(self).buffer() == old(self).buffer(),
            final(self).counted() == old(self).counted(),
            final(self).max() == old(self).max(),
    {
        self.playing = true;
        self.recording = false;
        self.playback_frame = 0;
        self.replay_frames = Some(frames);
    }

    /// Stops playing and rewinds.
    pub fn stop_playback(&mut self)
        ensures
            !final(self).is_playing_spec(),
            final(self).playback() == 0,
            final(self).is_recording_spec() == old(self).is_recording_spec(),
            final(self).replay() == old(self).replay(),
            final(self).buffer() == old(self).buffer(),
            final(self).counted() == old(self).counted(),
            final(self).max() == old(self).max(),
    {
        self.playing = false;
        self.playback_frame = 0;
    }

    /// While recording, appends `frame` (dropping the oldest when there
    /// would be more than the maximum) and counts it; otherwise changes
    /// nothing.
    pub fn record_frame(&mut self, frame: F)
        requires
            old(self).is_recording_spec() ==> old(self).counted() < u32::MAX,
        ensures
            !old(self).is_recording_spec() ==> *final(self) == *old(self),
            old(self).is_recording_spec() ==> {
                &&& final(self).buffer() == frames_after(old(self).buffer(), frame, old(self).max())
                &&& final(self).counted() == old(self).counted() + 1
                &&& final(self).is_recording_spec()
                &&& final(self).is_playing_spec() == old(self).is_playing_spec()
                &&& final(self).replay() == old(self).replay()
                &&& final(self).playback() == old(self).playback()
                &&& final(self).max() == old(self).max()
            },
    {
        if !self.recording {
            return;
        }
        self.frame_buffer.push(frame);
        self.recording_frame = self.recording_frame + 1;
        if self.frame_buffer.len() > self.max_frames {
            self.frame_buffer.remove(0);
        }
    }

    /// While playing, shows frame `frame`, or the last frame when the replay
    /// is shorter; otherwise changes nothing.
    pub fn seek(&mut self, frame: usize)
        requires
            old(self).is_playing_spec() && old(self).replay() is Some ==> old(self).replay()->0.len() > 0,
        ensures
            old(self).is_playing_spec() && old(self).replay() is Some ==> final(self).playback()
                == vstd::math::min(frame as int, old(self).replay()->0.len() - 1),
            !(old(self).is_playing_spec() && old(self).replay() is Some) ==> final(self).playback() == old(self).playback(),
            final(self).is_playing_spec() == old(self).is_playing_spec(),
            final(self).is_recording_spec() == old(self).is_recording_spec(),
            final(self).replay() == old(self).replay(),
            final(self).buffer() == old(self).buffer(),
            final(self).counted() == old(self).counted(),
            final(self).max() == old(self).max(),
    {
        if self.playing {
            match &self.replay_frames {
                Some(frames) => {
                    let last = frames.len() - 1;
                    self.playback_frame = if frame < last { frame } else { last };
                },
                None => {},
            }
        }
    }

    /// Where playback stands, as (frame shown next, frames in the replay),
    /// while a non-empty replay plays; `None` otherwise.
    pub fn playback_position(&self) -> (p: Option<(usize, usize)>)
        ensures
            p == if self.is_playing_spec() && self.replay() is Some && self.replay()->0.len() > 0 {
                Some((self.playback(), self.replay()->0.len() as usize))
            } else {
                None::<(usize, usize)>
            },
    {
        if !self.playing {
            return None;
        }
        match &self.replay_frames {
            Some(frames) => if frames.len() > 0 {
                Some((self.playback_frame, frames.len()))
            } else {
                None
            },
            None => None,
        }
    }

    /// How many frames the recording has counted.
    pub fn counted_frames(&self) -> (n: u32)
        ensures
            n == self.counted(),
    {
        self.recording_frame
    }

    /// Whether a recording runs.
    pub fn is_recording(&self) -> (b: bool)
        ensures
            b == self.is_recording_spec(),
    {
        self.recording
    }

    /// Whether a replay plays.
    pub fn is_playing(&self) -> (b: bool)
        ensures
            b == self.is_playing_spec(),
    {
        self.playing
    }
}

impl<F: Clone> ReplayManager<F> {
    /// While playing, hands out the next frame and moves on; at the end of
    /// the replay playback stops and rewinds. Not playing, or with no replay
    /// at hand, it hands out nothing and changes nothing.
    pub fn get_playback_frame(&mut self) -> (r: Option<F>)
        ensures
            final(self).is_recording_spec() == old(self).is_recording_spec(),
            final(self).replay() == old(self).replay(),
            final(self).buffer() == old(self).buffer(),
            final(self).counted() == old(self).counted(),
            final(self).max() == old(self).max(),
            !old(self).is_playing_spec() || old(self).replay() is None ==> r is None
                && final(self).is_playing_spec() == old(self).is_playing_spec()
                && final(self).playback() == old(self).playback(),
            old(self).is_playing_spec() && old(self).replay() is Some ==> {
                let frames = old(self).replay()->0;
                if old(self).playback() < frames.len() {
                    &&& r matches Some(f) && cloned(frames[old(self).playback() as int], f)
                    &&& final(self).is_playing_spec()
                    &&& final(self).playback() == old(self).playback() + 1
                } else {
                    &&& r is None
                    &&& !final(self).is_playing_spec()
                    &&& final(self).playback() == 0
                }
            },
    {
        if !self.playing {
            return None;
        }
        let next = match &self.replay_frames {
            Some(frames) => if self.playback_frame < frames.len() {
                Some(frames[self.playback_frame].clone())
            } else {
                None
            },
            None => return None,
        };
        match next {
            Some(f) => {
                self.playback_frame = self.playback_frame + 1;
                Some(f)
            },
            None => {
                self.stop_playback();
                None
            },
        }
    }
}

/// The parts of a replay frame its checksum adds up: the frame number, each
/// input's player and buttons, and each position's entity and coordinates
/// (cut to whole numbers).
pub struct ChecksumFrame {
    pub frame_number: u32,
    pub inputs: Vec<(u8, u32)>,
    pub positions: Vec<(u32, u32, u32)>,
}

/// The sum of the inputs' players and buttons.
pub open spec fn inputs_total(s: Seq<(u8, u32)>) -> int
    decreases s.len(),
{
    if s.len() == 0 {
        0
    } else {
        inputs_total(s.drop_last()) + s.last().0 + s.last().1
    }
}

/// The sum of the positions' entities and coordinates.
pub open spec fn positions_total(s: Seq<(u32, u32, u32)>) -> int
    decreases s.len(),
{
    if s.len() == 0 {
        0
    } else {
        positions_total(s.drop_last()) + s.last().0 + s.last().1 + s.last().2
    }
}

/// Everything a frame adds to the checksum.
pub open spec fn frame_total(f: ChecksumFrame) -> int {
    f.frame_number + inputs_total(f.inputs@) + positions_total(f.positions@)
}

/// Everything the frames add to the checksum.
pub open spec fn frames_total(s: Seq<ChecksumFrame>) -> int
    decreases s.len(),
{
    if s.len() == 0 {
        0
    } else {
        frames_total(s.drop_last()) + frame_total(s.last())
    }
}

/// Size of the `u32` range: the checksum wraps around it.
pub open spec fn checksum_modulus() -> int {
    0x1_0000_0000
}

proof fn lemma_totals_nonneg(s: Seq<ChecksumFrame>)
    ensures
        frames_total(s) >= 0,
    decreases s.len(),
{
    if s.len() > 0 {
        lemma_totals_nonneg(s.drop_last());
        lemma_inputs_nonneg(s.last().inputs@);
        lemma_positions_nonneg(s.last().positions@);
    }
}

proof fn lemma_inputs_nonneg(s: Seq<(u8, u32)>)
    ensures
        inputs_total(s) >= 0,
    decreases s.len(),
{
    if s.len() > 0 {
        lemma_inputs_nonneg(s.drop_last());
    }
}

proof fn lemma_positions_nonneg(s: Seq<(u32, u32, u32)>)
    ensures
        positions_total(s) >= 0,
    decreases s.len(),
{
    if s.len() > 0 {
        lemma_positions_nonneg(s.drop_last());
    }
}

/// Adding `x` with wraparound to a running sum kept modulo 2^32 keeps it
/// modulo 2^32.
proof fn lemma_wrap_step(acc: u32, total: int, x: u32)
    requires
        total >= 0,
        acc == total % checksum_modulus(),
    ensures
        vstd::wrapping::u32_specs::wrapping_add(acc, x) == (total + x) % checksum_modulus(),
{
    vstd::arithmetic::div_mod::lemma_add_mod_noop(total, x as int, checksum_modulus());
    vstd::arithmetic::div_mod::lemma_small_mod(x as nat, checksum_modulus() as nat);
    assert((acc + x) % checksum_modulus() == if acc + x >= checksum_modulus() {
        acc + x - checksum_modulus()
    } else {
        acc + x
    }) by {
        if acc + x >= checksum_modulus() {
            vstd::arithmetic::div_mod::lemma_mod_sub_multiples_vanish(acc + x, checksum_modulus());
            vstd::arithmetic::div_mod::lemma_small_mod((acc + x - checksum_modulus()) as nat, checksum_modulus() as nat);
        } else {
            vstd::arithmetic::div_mod::lemma_small_mod((acc + x) as nat, checksum_modulus() as nat);
        }
    }
}

/// The checksum of a replay: everything its frames add up, wrapped around
/// the `u32` range.
pub fn calculate_checksum(frames: &Vec<ChecksumFrame>) -> (c: u32)
    ensures
        c == frames_total(frames@) % checksum_modulus(),
{
    let mut checksum: u32 = 0;
    let mut i: usize = 0;
    while i < frames.len()
        invariant
            i <= frames@.len(),
            checksum == frames_total(frames@.take(i as int)) % checksum_modulus(),
        decreases frames@.len() - i,
    {
        let frame = &frames[i];
        let ghost before = frames_total(frames@.take(i as int));
        proof {
            lemma_totals_nonneg(frames@.take(i as int));
            lemma_wrap_step(checksum, before, frame.frame_number);
        }
        checksum = checksum.wrapping_add(frame.frame_number);
        let mut k: usize = 0;
        while k < frame.inputs.len()
            invariant
                k <= frame.inputs@.len(),
                before >= 0,
                checksum == (before + frame.frame_number + inputs_total(frame.inputs@.take(k as int))) % checksum_modulus(),
            decreases frame.inputs@.len() - k,
        {
            let (player, buttons) = frame.inputs[k];
            proof {
                lemma_inputs_nonneg(frame.inputs@.take(k as int));
                assert(frame.inputs@.take(k as int + 1).drop_last() =~= frame.inputs@.take(k as int));
                lemma_wrap_step(checksum, before + frame.frame_number + inputs_total(frame.inputs@.take(k as int)), player as u32);
                lemma_wrap_step(checksum.wrapping_add(player as u32),
                    before + frame.frame_number + inputs_total(frame.inputs@.take(k as int)) + player, buttons);
            }
            checksum = checksum.wrapping_add(player as u32);
            checksum = checksum.wrapping_add(buttons);
            k += 1;
        }
        assert(frame.inputs@.take(frame.inputs@.len() as int) =~= frame.inputs@);
        let mut q: usize = 0;
        while q < frame.positions.len()
            invariant
                q <= frame.positions@.len(),
                before >= 0,
                checksum == (before + frame.frame_number + inputs_total(frame.inputs@)
                    + positions_total(frame.positions@.take(q as int))) % checksum_modulus(),
            decreases frame.positions@.len() - q,
        {
            let (entity, x, y) = frame.positions[q];
            let ghost base = before + frame.frame_number + inputs_total(frame.inputs@)
                + positions_total(frame.positions@.take(q as int));
            proof {
                lemma_inputs_nonneg(frame.inputs@);
                lemma_positions_nonneg(frame.positions@.take(q as int));
                assert(frame.positions@.take(q as int + 1).drop_last() =~= frame.positions@.take(q as int));
                lemma_wrap_step(checksum, base, entity);
                lemma_wrap_step(checksum.wrapping_add(entity), base + entity, x);
                lemma_wrap_step(checksum.wrapping_add(entity).wrapping_add(x), base + entity + x, y);
            }
            checksum = checksum.wrapping_add(entity);
            checksum = checksum.wrapping_add(x);
            checksum = checksum.wrapping_add(y);
            q += 1;
        }
        assert(frame.positions@.take(frame.positions@.len() as int) =~= frame.positions@);
        assert(frames@.take(i as int + 1).drop_last() =~= frames@.take(i as int));
        i += 1;
    }
    assert(frames@.take(frames@.len() as int) =~= frames@);
    checksum
}

} // verus!

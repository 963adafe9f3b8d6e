use vstd::prelude::*;
use vstd::string::StringExecFns;
use crate::rng::random_index;

verus! {

/// Names of the sound effects and voice lines of the game.
pub struct SFXManager {
    impact_sounds: Vec<String>,
    voice_lines: Vec<VoiceLine>,
    environment_sounds: Vec<String>,
}

/// A spoken line of a character.
pub struct VoiceLine {
    pub character: String,
    pub line: String,
    pub audio_id: String,
    pub subtitle_key: String,
}

/// Kinds of hit sound.
#[derive(Clone, Copy, Debug, PartialEq, Eq, Structural)]
pub enum ImpactType {
    Light,
    Heavy,
    Block,
    Parry,
}

/// Position of an impact kind among the impact sounds.
pub open spec fn impact_index(t: ImpactType) -> int {
    match t {
        ImpactType::Light => 0,
        ImpactType::Heavy => 1,
        ImpactType::Block => 2,
        ImpactType::Parry => 3,
    }
}

/// The lines of a character, in order.
pub open spec fn lines_of(lines: Seq<VoiceLine>, character: Seq<char>) -> Seq<VoiceLine> {
    lines.filter(|v: VoiceLine| v.character@ == character)
}

/// The game's voice lines, in order: character, line, audio id, subtitle key.
pub open spec fn voice_table() -> Seq<(Seq<char>, Seq<char>, Seq<char>, Seq<char>)> {
    seq![
        ("Wolters"@, "Bas, vegen!"@, "wolters_vegen_1"@, "wolters_sweep_command"@),
        ("Wolters"@, "Bas! Vegen, nu meteen!"@, "wolters_vegen_2"@, "wolters_sweep_now"@),
        ("Bas"@, "Kom dan! Ik veeg niks, bro!"@, "bas_refuse"@, "bas_refuse_sweep"@),
        ("Berkay"@, "Nee bro, ze gaan zien."@, "berkay_warning"@, "berkay_they_will_see"@),
        ("Luca"@, "Wacht maar… ik heb een winter arc plan."@, "luca_plan"@, "luca_winter_arc"@),
        ("Nitin"@, "Ik ga m'n barras in hun stoppen."@, "nitin_threat"@, "nitin_barras"@),
        ("Hadi"@, "Aina broeg… ze gaan zien."@, "hadi_warning"@, "hadi_aina"@),
        ("Bastiaan"@, "Je hebt alles verpest, Bas! Mijn kunst was perfect!"@, "bastiaan_angry"@, "bastiaan_ruined_art"@),
    ]
}

/// `v` is the voice line that the table entry `e` describes.
pub open spec fn is_voice_line(v: VoiceLine, e: (Seq<char>, Seq<char>, Seq<char>, Seq<char>)) -> bool {
    &&& v.character@ == e.0
    &&& v.line@ == e.1
    &&& v.audio_id@ == e.2
    &&& v.subtitle_key@ == e.3
}

fn voice_line(character: &str, line: &str, audio_id: &str, subtitle_key: &str) -> (v: VoiceLine)
    ensures
        v.character@ == character@,
        v.line@ == line@,
        v.audio_id@ == audio_id@,
        v.subtitle_key@ == subtitle_key@,
{
    VoiceLine {
        character: String::from_str(character),
        line: String::from_str(line),
        audio_id: String::from_str(audio_id),
        subtitle_key: String::from_str(subtitle_key),
    }
}

impl SFXManager {
    /// The impact sounds: light, heavy, block, parry.
    pub closed spec fn impacts(&self) -> Seq<Seq<char>> {
        self.impact_sounds@.map_values(|s: String| s@)
    }

    /// The voice lines, in order.
    pub closed spec fn lines(&self) -> Seq<VoiceLine> {
        self.voice_lines@
    }

    /// The environment sounds.
    pub closed spec fn environment(&self) -> Seq<Seq<char>> {
        self.environment_sounds@.map_values(|s: String| s@)
    }

    /// One impact sound per impact kind.
    pub closed spec fn wf(&self) -> bool {
        &&& self.impact_sounds@.len() == 4
        &&& self.voice_lines@.len() <= 65536
    }

    /// The game's sounds and its eight voice lines.
    pub fn new() -> (m: SFXManager)
        ensures
            m.wf(),
            m.impacts() == seq!["hit_light"@, "hit_heavy"@, "block"@, "parry"@],
            m.environment() == seq!["desk_crash"@, "locker_slam"@, "paint_splash"@, "alarm_bell"@],
            m.lines().len() == voice_table().len(),
            forall|k: int| 0 <= k < voice_table().len() ==> #[trigger] is_voice_line(m.lines()[k], voice_table()[k]),
    {
        let mut impact_sounds: Vec<String> = Vec::new();
        impact_sounds.push(String::from_str("hit_light"));
        impact_sounds.push(String::from_str("hit_heavy"));
        impact_sounds.push(String::from_str("block"));
        impact_sounds.push(String::from_str("parry"));
        let mut environment_sounds: Vec<String> = Vec::new();
        environment_sounds.push(String::from_str("desk_crash"));
        environment_sounds.push(String::from_str("locker_slam"));
        environment_sounds.push(String::from_str("paint_splash"));
        environment_sounds.push(String::from_str("alarm_bell"));
        let m = SFXManager { impact_sounds, voice_lines: Self::create_voice_lines(), environment_sounds };
        assert(m.impacts() =~= seq!["hit_light"@, "hit_heavy"@, "block"@, "parry"@]);
        assert(m.environment() =~= seq!["desk_crash"@, "locker_slam"@, "paint_splash"@, "alarm_bell"@]);
        m
    }

    fn create_voice_lines() -> (v: Vec<VoiceLine>)
        ensures
            v@.len() == voice_table().len(),
            forall|k: int| 0 <= k < voice_table().len() ==> #[trigger] is_voice_line(v@[k], voice_table()[k]),
    {
        let mut v: Vec<VoiceLine> = Vec::new();
        v.push(voice_line("Wolters", "Bas, vegen!", "wolters_vegen_1", "wolters_sweep_command"));
        v.push(voice_line("Wolters", "Bas! Vegen, nu meteen!", "wolters_vegen_2", "wolters_sweep_now"));
        v.push(voice_line("Bas", "Kom dan! Ik veeg niks, bro!", "bas_refuse", "bas_refuse_sweep"));
        v.push(voice_line("Berkay", "Nee bro, ze gaan zien.", "berkay_warning", "berkay_they_will_see"));
        v.push(voice_line("Luca", "Wacht maar… ik heb een winter arc plan.", "luca_plan", "luca_winter_arc"));
        v.push(voice_line("Nitin", "Ik ga m'n barras in hun stoppen.", "nitin_threat", "nitin_barras"));
        v.push(voice_line("Hadi", "Aina broeg… ze gaan zien.", "hadi_warning", "hadi_aina"));
        v.push(voice_line("Bastiaan", "Je hebt alles verpest, Bas! Mijn kunst was perfect!", "bastiaan_angry", "bastiaan_ruined_art"));
        proof {
            let t = voice_table();
            assert(is_voice_line(v@[0], t[0]));
            assert(is_voice_line(v@[1], t[1]));
            assert(is_voice_line(v@[2], t[2]));
            assert(is_voice_line(v@[3], t[3]));
            assert(is_voice_line(v@[4], t[4]));
            assert(is_voice_line(v@[5], t[5]));
            assert(is_voice_line(v@[6], t[6]));
            assert(is_voice_line(v@[7], t[7]));
        }
        v
    }

    /// The sound of an impact kind.
    pub fn get_impact_sound(&self, hit_type: ImpactType) -> (s: &str)
        requires
            self.wf(),
        ensures
            s@ == self.impacts()[impact_index(hit_type)],
    {
        let i: usize = match hit_type {
            ImpactType::Light => 0,
            ImpactType::Heavy => 1,
            ImpactType::Block => 2,
            ImpactType::Parry => 3,
        };
        self.impact_sounds[i].as_str()
    }

    /// The first line of `character`, if it has one.
    pub fn get_voice_line(&self, character: &str) -> (r: Option<&VoiceLine>)
        ensures
            match r {
                Some(v) => lines_of(self.lines(), character@).len() > 0 && *v == lines_of(self.lines(), character@)[0],
                None => lines_of(self.lines(), character@).len() == 0,
            },
    {
        self.get_voice_line_choice(character, 0)
    }

    /// Line number `choice` of `character`, counting its lines from 0 in
    /// order; `None` when it has no more lines than that.
    pub fn get_voice_line_choice(&self, character: &str, choice: usize) -> (r: Option<&VoiceLine>)
        ensures
            match r {
                Some(v) => choice < lines_of(self.lines(), character@).len()
                    && *v == lines_of(self.lines(), character@)[choice as int],
                None => choice >= lines_of(self.lines(), character@).len(),
            },
    {
        let key = character.to_owned();
        let ghost pred = |v: VoiceLine| v.character@ == character@;
        let mut seen: usize = 0;
        let mut i: usize = 0;
        while i < self.voice_lines.len()
            invariant
                0 <= i <= self.voice_lines@.len(),
                key@ == character@,
                pred == (|v: VoiceLine| v.character@ == character@),
                seen == self.voice_lines@.take(i as int).filter(pred).len(),
                seen <= choice,
            decreases self.voice_lines@.len() - i,
        {
            reveal_with_fuel(Seq::filter, 1);
            assert(self.voice_lines@.take(i as int + 1).drop_last() =~= self.voice_lines@.take(i as int));
            let v = &self.voice_lines[i];
            if v.character == key {
                if seen == choice {
                    proof {
                        let pre = self.voice_lines@.take(i as int + 1);
                        assert(pre.filter(pred) == self.voice_lines@.take(i as int).filter(pred).push(*v));
                        lemma_filter_prefix(self.voice_lines@, pred, i as int + 1);
                        assert(pre.filter(pred)[choice as int] == *v);
                        assert(self.voice_lines@.filter(pred)[choice as int] == *v);
                        assert(lines_of(self.lines(), character@) == self.voice_lines@.filter(pred));
                    }
                    return Some(v);
                }
                seen = seen + 1;
            }
            i = i + 1;
        }
        assert(self.voice_lines@.take(i as int) =~= self.voice_lines@);
        None
    }

    /// A line of `character` picked at random; `None` when it has none.
    pub fn get_random_voice_line(&self, character: &str) -> (r: Option<&VoiceLine>)
        requires
            self.wf(),
        ensures
            r is Some <==> lines_of(self.lines(), character@).len() > 0,
            r matches Some(v) ==> lines_of(self.lines(), character@).contains(*v) && v.character@ == character@,
    {
        let count = self.count_voice_lines(character);
        if count == 0 {
            return None;
        }
        proof {
            self.voice_lines@.lemma_filter_len(|v: VoiceLine| v.character@ == character@);
        }
        let index = random_index(0, count);
        let r = self.get_voice_line_choice(character, index);
        proof {
            if let Some(v) = r {
                let s = lines_of(self.lines(), character@);
                assert(s[index as int] == *v);
                broadcast use vstd::seq_lib::group_filter_ensures;
                assert(lines_of(self.lines(), character@) == self.lines().filter(|v: VoiceLine| v.character@ == character@));
            }
        }
        r
    }

    fn count_voice_lines(&self, character: &str) -> (n: usize)
        ensures
            n == lines_of(self.lines(), character@).len(),
    {
        let key = character.to_owned();
        let ghost pred = |v: VoiceLine| v.character@ == character@;
        let mut n: usize = 0;
        let mut i: usize = 0;
        while i < self.voice_lines.len()
            invariant
                0 <= i <= self.voice_lines@.len(),
                key@ == character@,
                pred == (|v: VoiceLine| v.character@ == character@),
                n == self.voice_lines@.take(i as int).filter(pred).len(),
                n <= i,
            decreases self.voice_lines@.len() - i,
        {
            reveal_with_fuel(Seq::filter, 1);
            assert(self.voice_lines@.take(i as int + 1).drop_last() =~= self.voice_lines@.take(i as int));
            if self.voice_lines[i].character == key {
                n = n + 1;
            }
            i = i + 1;
        }
        assert(self.voice_lines@.take(i as int) =~= self.voice_lines@);
        n
    }
}

proof fn lemma_filter_prefix(s: Seq<VoiceLine>, pred: spec_fn(VoiceLine) -> bool, i: int)
    requires
        0 <= i <= s.len(),
    ensures
        s.take(i).filter(pred).len() <= s.filter(pred).len(),
        forall|k: int| 0 <= k < s.take(i).filter(pred).len() ==> #[trigger] s.take(i).filter(pred)[k] == s.filter(pred)[k],
{
    assert(s == s.take(i) + s.skip(i));
    Seq::filter_distributes_over_add(s.take(i), s.skip(i), pred);
}

} // verus!

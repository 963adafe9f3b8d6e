use vstd::prelude::*;

verus! {

/// An input a fighter can give.
#[derive(Clone, Copy, Debug, PartialEq, Eq, Structural)]
pub enum InputAction {
    Left,
    Right,
    Up,
    Down,
    LightAttack,
    HeavyAttack,
    Special,
    Super,
    Parry,
    Dodge,
    Jump,
    Crouch,
}

/// A buffered input: the action, when it came (milliseconds of game time),
/// and whether it was a press or a release.
#[derive(Clone, Copy, Debug, PartialEq, Eq, Structural)]
pub struct InputEvent {
    pub action: InputAction,
    pub timestamp: u64,
    pub pressed: bool,
}

/// What is held or was pressed this frame.
#[derive(Clone, Copy, Debug, PartialEq, Eq, Structural)]
pub struct InputState {
    pub left: bool,
    pub right: bool,
    pub up: bool,
    pub down: bool,
    pub light_attack: bool,
    pub heavy_attack: bool,
    pub special: bool,
    pub super_move: bool,
    pub parry: bool,
    pub dodge: bool,
}

/// The keys the game read in one frame: which movement keys are held, and
/// which keys went down or up since the last frame.
#[derive(Clone, Copy, Debug, PartialEq, Eq, Structural)]
pub struct KeyFrame {
    pub left_down: bool,
    pub right_down: bool,
    pub up_down: bool,
    pub down_down: bool,
    pub left_pressed: bool,
    pub left_released: bool,
    pub right_pressed: bool,
    pub right_released: bool,
    pub up_pressed: bool,
    pub down_pressed: bool,
    pub light_pressed: bool,
    pub heavy_pressed: bool,
    pub special_pressed: bool,
    pub super_pressed: bool,
    pub parry_pressed: bool,
    pub dodge_pressed: bool,
}

/// Most inputs the buffer keeps.
pub const BUFFER_CAPACITY: usize = 20;

/// Buffers recent inputs for sequence detection.
pub struct InputManager {
    buffer: Vec<InputEvent>,
    /// Milliseconds an input stays in the buffer.
    buffer_window: u64,
    current_state: InputState,
}

/// The event is older than `window` at time `now`.
pub open spec fn expired(e: InputEvent, now: u64, window: u64) -> bool {
    e.timestamp + window < now
}

/// `b` with `e` appended, the oldest event dropped when that makes more than
/// the capacity.
pub open spec fn capped_push(b: Seq<InputEvent>, e: InputEvent) -> Seq<InputEvent> {
    if b.len() + 1 > BUFFER_CAPACITY {
        b.push(e).drop_first()
    } else {
        b.push(e)
    }
}

/// `b` without its leading expired events.
pub open spec fn cleaned(b: Seq<InputEvent>, now: u64, window: u64) -> Seq<InputEvent>
    decreases b.len(),
{
    if b.len() > 0 && expired(b[0], now, window) {
        cleaned(b.drop_first(), now, window)
    } else {
        b
    }
}

/// `b` after each event of `es` was added in order.
pub open spec fn push_all(b: Seq<InputEvent>, es: Seq<InputEvent>) -> Seq<InputEvent>
    decreases es.len(),
{
    if es.len() == 0 {
        b
    } else {
        capped_push(push_all(b, es.drop_last()), es.last())
    }
}

/// A press of `action` at `t`.
pub open spec fn press(action: InputAction, t: u64) -> InputEvent {
    InputEvent { action, timestamp: t, pressed: true }
}

/// `s` with `e` appended when `cond` holds.
pub open spec fn push_if(s: Seq<InputEvent>, cond: bool, e: InputEvent) -> Seq<InputEvent> {
    if cond {
        s.push(e)
    } else {
        s
    }
}

/// A release of `action` at `t`.
pub open spec fn release(action: InputAction, t: u64) -> InputEvent {
    InputEvent { action, timestamp: t, pressed: false }
}

/// The events a frame of keys adds, in the order they are added: left and
/// right presses and releases, up (with a jump) and down (with a crouch),
/// then the attacks, parry and dodge.
pub open spec fn key_events(k: KeyFrame, t: u64) -> Seq<InputEvent> {
    let s = push_if(seq![], k.left_pressed, press(InputAction::Left, t));
    let s = push_if(s, k.left_released, release(InputAction::Left, t));
    let s = push_if(s, k.right_pressed, press(InputAction::Right, t));
    let s = push_if(s, k.right_released, release(InputAction::Right, t));
    let s = push_if(s, k.up_pressed, press(InputAction::Up, t));
    let s = push_if(s, k.up_pressed, press(InputAction::Jump, t));
    let s = push_if(s, k.down_pressed, press(InputAction::Down, t));
    let s = push_if(s, k.down_pressed, press(InputAction::Crouch, t));
    let s = push_if(s, k.light_pressed, press(InputAction::LightAttack, t));
    let s = push_if(s, k.heavy_pressed, press(InputAction::HeavyAttack, t));
    let s = push_if(s, k.special_pressed, press(InputAction::Special, t));
    let s = push_if(s, k.super_pressed, press(InputAction::Super, t));
    let s = push_if(s, k.parry_pressed, press(InputAction::Parry, t));
    push_if(s, k.dodge_pressed, press(InputAction::Dodge, t))
}

proof fn lemma_push_all_if(b: Seq<InputEvent>, es: Seq<InputEvent>, cond: bool, e: InputEvent)
    ensures
        push_all(b, push_if(es, cond, e)) == if cond { capped_push(push_all(b, es), e) } else { push_all(b, es) },
{
    assert(es.push(e).drop_last() =~= es);
}

/// The state after a frame of keys: movement follows the held keys, and an
/// attack flag is raised by its press and kept until consumed.
pub open spec fn next_state(s: InputState, k: KeyFrame) -> InputState {
    InputState {
        left: k.left_down,
        right: k.right_down,
        up: k.up_down,
        down: k.down_down,
        light_attack: s.light_attack || k.light_pressed,
        heavy_attack: s.heavy_attack || k.heavy_pressed,
        special: s.special || k.special_pressed,
        super_move: s.super_move || k.super_pressed,
        parry: s.parry || k.parry_pressed,
        dodge: s.dodge || k.dodge_pressed,
    }
}

/// Whether scanning the first `i` events of `b` from the newest back, with
/// `matched` steps of `sequence` found so far and the last found at `last`,
/// finds the rest: an event older than `window` stops the scan, and a press
/// of the next action counts when it is the first step or came after the
/// step before it.
pub open spec fn scan(b: Seq<InputEvent>, i: int, sequence: Seq<InputAction>, window: u64, now: u64,
    matched: int, last: u64) -> bool
    decreases i,
{
    if i <= 0 || i > b.len() {
        false
    } else {
        let e = b[i - 1];
        if expired(e, now, window) {
            false
        } else if 0 <= matched < sequence.len() && e.pressed && e.action == sequence[matched]
            && (matched == 0 || e.timestamp > last) {
            if matched + 1 == sequence.len() {
                true
            } else {
                scan(b, i - 1, sequence, window, now, matched + 1, e.timestamp)
            }
        } else {
            scan(b, i - 1, sequence, window, now, matched, last)
        }
    }
}

/// Whether the buffer `b` shows `sequence` within `window` at `now`.
pub open spec fn sequence_found(b: Seq<InputEvent>, sequence: Seq<InputAction>, window: u64, now: u64) -> bool {
    sequence.len() > 0 && b.len() >= sequence.len() && scan(b, b.len() as int, sequence, window, now, 0, 0)
}

/// The buffer without the inputs of `action`, in order.
pub open spec fn without_action(b: Seq<InputEvent>, action: InputAction) -> Seq<InputEvent> {
    b.filter(|e: InputEvent| e.action != action)
}

/// The state with the flag of `action` lowered, for the actions that have one.
pub open spec fn consumed_state(s: InputState, action: InputAction) -> InputState {
    match action {
        InputAction::LightAttack => InputState { light_attack: false, ..s },
        InputAction::HeavyAttack => InputState { heavy_attack: false, ..s },
        InputAction::Special => InputState { special: false, ..s },
        InputAction::Super => InputState { super_move: false, ..s },
        InputAction::Parry => InputState { parry: false, ..s },
        InputAction::Dodge => InputState { dodge: false, ..s },
        _ => s,
    }
}

impl InputManager {
    /// The buffered events, oldest first.
    pub closed spec fn events(&self) -> Seq<InputEvent> {
        self.buffer@
    }

    /// Milliseconds an input stays in the buffer.
    pub closed spec fn window(&self) -> u64 {
        self.buffer_window
    }

    /// The current state.
    pub closed spec fn state(&self) -> InputState {
        self.current_state
    }

    /// The buffer never holds more than its capacity.
    pub closed spec fn wf(&self) -> bool {
        self.buffer@.len() <= BUFFER_CAPACITY
    }

    /// An empty buffer with a 200 ms window and nothing held.
    pub fn new() -> (m: InputManager)
        ensures
            m.wf(),
            m.events().len() == 0,
            m.window() == 200,
            m.state() == (InputState {
                left: false,
                right: false,
                up: false,
                down: false,
                light_attack: false,
                heavy_attack: false,
                special: false,
                super_move: false,
                parry: false,
                dodge: false,
            }),
    {
        InputManager {
            buffer: Vec::new(),
            buffer_window: 200,
            current_state: InputState {
                left: false,
                right: false,
                up: false,
                down: false,
                light_attack: false,
                heavy_attack: false,
                special: false,
                super_move: false,
                parry: false,
                dodge: false,
            },
        }
    }

    fn add_input(&mut self, action: InputAction, timestamp: u64, pressed: bool)
        requires
            old(self).wf(),
        ensures
            final(self).wf(),
            final(self).events() == capped_push(old(self).events(), InputEvent { action, timestamp, pressed }),
            final(self).window() == old(self).window(),
            final(self).state() == old(self).state(),
    {
        self.buffer.push(InputEvent { action, timestamp, pressed });
        if self.buffer.len() > BUFFER_CAPACITY {
            self.buffer.remove(0);
        }
    }

    fn clean_buffer(&mut self, current_time: u64)
        requires
            old(self).wf(),
        ensures
            final(self).wf(),
            final(self).events() == cleaned(old(self).events(), current_time, old(self).window()),
            final(self).window() == old(self).window(),
            final(self).state() == old(self).state(),
    {
        while self.buffer.len() > 0
            invariant
                self.wf(),
                cleaned(self.events(), current_time, self.window())
                    == cleaned(old(self).events(), current_time, old(self).window()),
                self.window() == old(self).window(),
                self.state() == old(self).state(),
            ensures
                self.wf(),
                self.events() == cleaned(old(self).events(), current_time, old(self).window()),
                self.window() == old(self).window(),
                self.state() == old(self).state(),
            decreases self.buffer@.len(),
        {
            let e = self.buffer[0];
            if e.timestamp < current_time && current_time - e.timestamp > self.buffer_window {
                let ghost b = self.buffer@;
                self.buffer.remove(0);
                assert(self.buffer@ =~= b.drop_first());
            } else {
                break;
            }
        }
    }

    fn add_input_if(&mut self, cond: bool, action: InputAction, timestamp: u64, pressed: bool)
        requires
            old(self).wf(),
        ensures
            final(self).wf(),
            final(self).events() == if cond {
                capped_push(old(self).events(), InputEvent { action, timestamp, pressed })
            } else {
                old(self).events()
            },
            final(self).window() == old(self).window(),
            final(self).state() == old(self).state(),
    {
        if cond {
            self.add_input(action, timestamp, pressed);
        }
    }

    fn buffer_keys(&mut self, keys: KeyFrame, t: u64)
        requires
            old(self).wf(),
        ensures
            final(self).wf(),
            final(self).events() == push_all(old(self).events(), key_events(keys, t)),
            final(self).window() == old(self).window(),
            final(self).state() == old(self).state(),
    {
        let ghost b0 = self.events();
        let ghost mut es: Seq<InputEvent> = seq![];
        self.add_input_if(keys.left_pressed, InputAction::Left, t, true);
        proof {
            lemma_push_all_if(b0, es, keys.left_pressed, InputEvent { action: InputAction::Left, timestamp: t, pressed: true });
            es = push_if(es, keys.left_pressed, InputEvent { action: InputAction::Left, timestamp: t, pressed: true });
        }
        self.add_input_if(keys.left_released, InputAction::Left, t, false);
        proof {
            lemma_push_all_if(b0, es, keys.left_released, InputEvent { action: InputAction::Left, timestamp: t, pressed: false });
            es = push_if(es, keys.left_released, InputEvent { action: InputAction::Left, timestamp: t, pressed: false });
        }
        self.add_input_if(keys.right_pressed, InputAction::Right, t, true);
        proof {
            lemma_push_all_if(b0, es, keys.right_pressed, InputEvent { action: InputAction::Right, timestamp: t, pressed: true });
            es = push_if(es, keys.right_pressed, InputEvent { action: InputAction::Right, timestamp: t, pressed: true });
        }
        self.add_input_if(keys.right_released, InputAction::Right, t, false);
        proof {
            lemma_push_all_if(b0, es, keys.right_released, InputEvent { action: InputAction::Right, timestamp: t, pressed: false });
            es = push_if(es, keys.right_released, InputEvent { action: InputAction::Right, timestamp: t, pressed: false });
        }
        self.add_input_if(keys.up_pressed, InputAction::Up, t, true);
        proof {
            lemma_push_all_if(b0, es, keys.up_pressed, InputEvent { action: InputAction::Up, timestamp: t, pressed: true });
            es = push_if(es, keys.up_pressed, InputEvent { action: InputAction::Up, timestamp: t, pressed: true });
        }
        self.add_input_if(keys.up_pressed, InputAction::Jump, t, true);
        proof {
            lemma_push_all_if(b0, es, keys.up_pressed, InputEvent { action: InputAction::Jump, timestamp: t, pressed: true });
            es = push_if(es, keys.up_pressed, InputEvent { action: InputAction::Jump, timestamp: t, pressed: true });
        }
        self.add_input_if(keys.down_pressed, InputAction::Down, t, true);
        proof {
            lemma_push_all_if(b0, es, keys.down_pressed, InputEvent { action: InputAction::Down, timestamp: t, pressed: true });
            es = push_if(es, keys.down_pressed, InputEvent { action: InputAction::Down, timestamp: t, pressed: true });
        }
        self.add_input_if(keys.down_pressed, InputAction::Crouch, t, true);
        proof {
            lemma_push_all_if(b0, es, keys.down_pressed, InputEvent { action: InputAction::Crouch, timestamp: t, pressed: true });
            es = push_if(es, keys.down_pressed, InputEvent { action: InputAction::Crouch, timestamp: t, pressed: true });
        }
        self.add_input_if(keys.light_pressed, InputAction::LightAttack, t, true);
        proof {
            lemma_push_all_if(b0, es, keys.light_pressed, InputEvent { action: InputAction::LightAttack, timestamp: t, pressed: true });
            es = push_if(es, keys.light_pressed, InputEvent { action: InputAction::LightAttack, timestamp: t, pressed: true });
        }
        self.add_input_if(keys.heavy_pressed, InputAction::HeavyAttack, t, true);
        proof {
            lemma_push_all_if(b0, es, keys.heavy_pressed, InputEvent { action: InputAction::HeavyAttack, timestamp: t, pressed: true });
            es = push_if(es, keys.heavy_pressed, InputEvent { action: InputAction::HeavyAttack, timestamp: t, pressed: true });
        }
        self.add_input_if(keys.special_pressed, InputAction::Special, t, true);
        proof {
            lemma_push_all_if(b0, es, keys.special_pressed, InputEvent { action: InputAction::Special, timestamp: t, pressed: true });
            es = push_if(es, keys.special_pressed, InputEvent { action: InputAction::Special, timestamp: t, pressed: true });
        }
        self.add_input_if(keys.super_pressed, InputAction::Super, t, true);
        proof {
            lemma_push_all_if(b0, es, keys.super_pressed, InputEvent { action: InputAction::Super, timestamp: t, pressed: true });
            es = push_if(es, keys.super_pressed, InputEvent { action: InputAction::Super, timestamp: t, pressed: true });
        }
        self.add_input_if(keys.parry_pressed, InputAction::Parry, t, true);
        proof {
            lemma_push_all_if(b0, es, keys.parry_pressed, InputEvent { action: InputAction::Parry, timestamp: t, pressed: true });
            es = push_if(es, keys.parry_pressed, InputEvent { action: InputAction::Parry, timestamp: t, pressed: true });
        }
        self.add_input_if(keys.dodge_pressed, InputAction::Dodge, t, true);
        proof {
            lemma_push_all_if(b0, es, keys.dodge_pressed, InputEvent { action: InputAction::Dodge, timestamp: t, pressed: true });
            es = push_if(es, keys.dodge_pressed, InputEvent { action: InputAction::Dodge, timestamp: t, pressed: true });
        }
    }

    /// Takes in one frame of keys read at `current_time`: the movement state
    /// follows the held keys, each press and release is buffered, an attack
    /// press raises its flag, and inputs older than the window leave the
    /// front of the buffer.
    pub fn update(&mut self, keys: KeyFrame, current_time: u64)
        requires
            old(self).wf(),
        ensures
            final(self).wf(),
            final(self).events() == cleaned(push_all(old(self).events(), key_events(keys, current_time)),
                current_time, old(self).window()),
            final(self).state() == next_state(old(self).state(), keys),
            final(self).window() == old(self).window(),
    {
        let s = self.current_state;
        self.current_state = InputState {
            left: keys.left_down,
            right: keys.right_down,
            up: keys.up_down,
            down: keys.down_down,
            light_attack: s.light_attack || keys.light_pressed,
            heavy_attack: s.heavy_attack || keys.heavy_pressed,
            special: s.special || keys.special_pressed,
            super_move: s.super_move || keys.super_pressed,
            parry: s.parry || keys.parry_pressed,
            dodge: s.dodge || keys.dodge_pressed,
        };
        self.buffer_keys(keys, current_time);
        self.clean_buffer(current_time);
    }

    /// Whether the buffer shows `sequence` within `window` milliseconds of
    /// `current_time`, scanning from the newest input back.
    pub fn check_sequence(&self, sequence: &[InputAction], window: u64, current_time: u64) -> (r: bool)
        ensures
            r == sequence_found(self.events(), sequence@, window, current_time),
    {
        if sequence.len() == 0 || self.buffer.len() < sequence.len() {
            return false;
        }
        let mut matched: usize = 0;
        let mut last_time: u64 = 0;
        let mut i: usize = self.buffer.len();
        while i > 0
            invariant
                0 <= i <= self.buffer@.len(),
                0 <= matched < sequence@.len(),
                sequence@.len() > 0,
                self.buffer@.len() >= sequence@.len(),
                scan(self.buffer@, self.buffer@.len() as int, sequence@, window, current_time, 0, 0)
                    == scan(self.buffer@, i as int, sequence@, window, current_time, matched as int, last_time),
            decreases i,
        {
            let event = self.buffer[i - 1];
            if event.timestamp < current_time && current_time - event.timestamp > window {
                return false;
            }
            if event.pressed && event.action == sequence[matched] {
                if matched == 0 || event.timestamp > last_time {
                    last_time = event.timestamp;
                    matched = matched + 1;
                    if matched == sequence.len() {
                        return true;
                    }
                }
            }
            i = i - 1;
        }
        false
    }

    /// The current state.
    pub fn get_state(&self) -> (s: &InputState)
        ensures
            *s == self.state(),
    {
        &self.current_state
    }

    /// Uses up `action`: every buffered event of it is dropped and, for an
    /// attack, parry or dodge, its flag is lowered.
    pub fn consume_input(&mut self, action: InputAction)
        requires
            old(self).wf(),
        ensures
            final(self).wf(),
            final(self).events() == without_action(old(self).events(), action),
            final(self).state() == consumed_state(old(self).state(), action),
            final(self).window() == old(self).window(),
    {
        broadcast use vstd::seq_lib::group_filter_ensures;
        let ghost pred = |e: InputEvent| e.action != action;
        let mut kept: Vec<InputEvent> = Vec::new();
        let mut i: usize = 0;
        while i < self.buffer.len()
            invariant
                0 <= i <= self.buffer@.len(),
                self.buffer@ == old(self).buffer@,
                pred == (|e: InputEvent| e.action != action),
                kept@ == self.buffer@.take(i as int).filter(pred),
            decreases self.buffer@.len() - i,
        {
            reveal_with_fuel(Seq::filter, 1);
            assert(self.buffer@.take(i as int + 1).drop_last() =~= self.buffer@.take(i as int));
            let e = self.buffer[i];
            if e.action != action {
                kept.push(e);
            }
            i = i + 1;
        }
        assert(self.buffer@.take(i as int) =~= self.buffer@);
        self.buffer = kept;
        match action {
            InputAction::LightAttack => self.current_state.light_attack = false,
            InputAction::HeavyAttack => self.current_state.heavy_attack = false,
            InputAction::Special => self.current_state.special = false,
            InputAction::Super => self.current_state.super_move = false,
            InputAction::Parry => self.current_state.parry = false,
            InputAction::Dodge => self.current_state.dodge = false,
            _ => {},
        }
    }
}

/// The newest input, when it is a press still inside the window, is found
/// as a sequence of that one action.
pub proof fn law_latest_press_is_found(b: Seq<InputEvent>, window: u64, now: u64)
    requires
        b.len() > 0,
        b.last().pressed,
        !expired(b.last(), now, window),
    ensures
        sequence_found(b, seq![b.last().action], window, now),
{
}

/// Consuming an action leaves no input of it in the buffer, and keeps every
/// other input in order.
pub proof fn law_consumed_action_is_gone(b: Seq<InputEvent>, action: InputAction)
    ensures
        forall|k: int| 0 <= k < without_action(b, action).len() ==> #[trigger] without_action(b, action)[k].action != action,
        without_action(b, action).len() <= b.len(),
{
    broadcast use vstd::seq_lib::group_filter_ensures;
}

} // verus!

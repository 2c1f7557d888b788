//! Handles the inputs (keyboard and mouse) of an application.
//!
//! The window system pushes raw events into queues at any time; once per
//! frame [`recieve_inputs`] drains them into the sets that game logic reads:
//! what went down this frame, what went up this frame, and what is held.
use crossbeam_queue::SegQueue;
use vstd::prelude::*;

verus! {

#[verifier::external_type_specification]
#[verifier::external_body]
#[verifier::reject_recursive_types(T)]
pub struct ExSegQueue<T>(SegQueue<T>);

/// A mouse button.
#[derive(Debug, Clone, Copy, PartialEq, Eq, Structural)]
pub enum MouseButton {
    Left,
    Right,
    Middle,
    Back,
    Forward,
    Other(u16),
}

/// A cursor position as the window system reports it. Each coordinate is
/// kept as the bit pattern of its `f64` value (`f64::to_bits`): the library
/// stores positions and hands them back, and never computes with them.
#[derive(Debug, Clone, Copy, PartialEq, Eq, Structural)]
pub struct Position {
    pub x_bits: u64,
    pub y_bits: u64,
}

impl Default for Position {
    fn default() -> (r: Position)
        ensures
            r == (Position { x_bits: 0, y_bits: 0 }),
    {
        Position { x_bits: 0, y_bits: 0 }
    }
}

/// What a queue of key codes holds, front first.
pub uninterp spec fn key_queue_items(q: SegQueue<u32>) -> Seq<u32>;

/// What a queue of mouse buttons holds, front first.
pub uninterp spec fn button_queue_items(q: SegQueue<MouseButton>) -> Seq<MouseButton>;

/// What a queue of cursor positions holds, front first.
pub uninterp spec fn position_queue_items(q: SegQueue<Position>) -> Seq<Position>;

/// Relies on crossbeam_queue::SegQueue::new: a new queue is empty.
#[verifier::external_body]
fn new_key_queue() -> (q: SegQueue<u32>)
    ensures
        key_queue_items(q) == Seq::<u32>::empty(),
{
    SegQueue::new()
}

/// Relies on crossbeam_queue::SegQueue::push: the value joins the back.
#[verifier::external_body]
fn push_key(q: &mut SegQueue<u32>, key: u32)
    ensures
        key_queue_items(*final(q)) == key_queue_items(*old(q)).push(key),
{
    q.push(key)
}

/// Relies on crossbeam_queue::SegQueue::pop: takes the front value, or
/// `None` when the queue is empty.
#[verifier::external_body]
fn pop_key(q: &mut SegQueue<u32>) -> (r: Option<u32>)
    ensures
        key_queue_items(*old(q)).len() == 0 ==> r is None && key_queue_items(*final(q))
            == key_queue_items(*old(q)),
        key_queue_items(*old(q)).len() > 0 ==> r == Some(key_queue_items(*old(q))[0])
            && key_queue_items(*final(q)) == key_queue_items(*old(q)).drop_first(),
{
    q.pop()
}

/// Relies on crossbeam_queue::SegQueue::new: a new queue is empty.
#[verifier::external_body]
fn new_button_queue() -> (q: SegQueue<MouseButton>)
    ensures
        button_queue_items(q) == Seq::<MouseButton>::empty(),
{
    SegQueue::new()
}

/// Relies on crossbeam_queue::SegQueue::push: the value joins the back.
#[verifier::external_body]
fn push_button(q: &mut SegQueue<MouseButton>, button: MouseButton)
    ensures
        button_queue_items(*final(q)) == button_queue_items(*old(q)).push(button),
{
    q.push(button)
}

/// Relies on crossbeam_queue::SegQueue::pop: takes the front value, or
/// `None` when the queue is empty.
#[verifier::external_body]
fn pop_button(q: &mut SegQueue<MouseButton>) -> (r: Option<MouseButton>)
    ensures
        button_queue_items(*old(q)).len() == 0 ==> r is None && button_queue_items(*final(q))
            == button_queue_items(*old(q)),
        button_queue_items(*old(q)).len() > 0 ==> r == Some(button_queue_items(*old(q))[0])
            && button_queue_items(*final(q)) == button_queue_items(*old(q)).drop_first(),
{
    q.pop()
}

/// Relies on crossbeam_queue::SegQueue::new: a new queue is empty.
#[verifier::external_body]
fn new_position_queue() -> (q: SegQueue<Position>)
    ensures
        position_queue_items(q) == Seq::<Position>::empty(),
{
    SegQueue::new()
}

/// Relies on crossbeam_queue::SegQueue::push: the value joins the back.
#[verifier::external_body]
fn push_position(q: &mut SegQueue<Position>, pos: Position)
    ensures
        position_queue_items(*final(q)) == position_queue_items(*old(q)).push(pos),
{
    q.push(pos)
}

/// Relies on crossbeam_queue::SegQueue::pop: takes the front value, or
/// `None` when the queue is empty.
#[verifier::external_body]
fn pop_position(q: &mut SegQueue<Position>) -> (r: Option<Position>)
    ensures
        position_queue_items(*old(q)).len() == 0 ==> r is None && position_queue_items(*final(q))
            == position_queue_items(*old(q)),
        position_queue_items(*old(q)).len() > 0 ==> r == Some(position_queue_items(*old(q))[0])
            && position_queue_items(*final(q)) == position_queue_items(*old(q)).drop_first(),
{
    q.pop()
}


/// `held` after each of `added` has gone down, in order: a value is added at
/// the back unless it is already held.
pub open spec fn add_each<T>(held: Seq<T>, added: Seq<T>) -> Seq<T>
    decreases added.len(),
{
    if added.len() == 0 {
        held
    } else {
        let before = add_each(held, added.drop_last());
        if before.contains(added.last()) {
            before
        } else {
            before.push(added.last())
        }
    }
}

/// `s` without any occurrence of `x`, the rest in order.
pub open spec fn without<T>(s: Seq<T>, x: T) -> Seq<T>
    decreases s.len(),
{
    if s.len() == 0 {
        s
    } else {
        let rest = without(s.drop_last(), x);
        if s.last() == x {
            rest
        } else {
            rest.push(s.last())
        }
    }
}

/// `held` after each of `removed` has gone up, in order.
pub open spec fn remove_each<T>(held: Seq<T>, removed: Seq<T>) -> Seq<T>
    decreases removed.len(),
{
    if removed.len() == 0 {
        held
    } else {
        without(remove_each(held, removed.drop_last()), removed.last())
    }
}

/// What an [`Input`] holds: the raw events still queued, and the state that
/// the last frame latched.
pub struct InputView {
    pub pending_key_down: Seq<u32>,
    pub pending_key_up: Seq<u32>,
    pub pending_cursor: Seq<Position>,
    pub pending_button_down: Seq<MouseButton>,
    pub pending_button_up: Seq<MouseButton>,
    pub key_down: Seq<u32>,
    pub key_up: Seq<u32>,
    pub key_press: Seq<u32>,
    pub cursor: Position,
    pub button_down: Seq<MouseButton>,
    pub button_up: Seq<MouseButton>,
    pub button_press: Seq<MouseButton>,
}

impl InputView {
    /// The state after one frame's latch: every queue is drained; the codes
    /// that went down and up this frame are exactly those that were queued;
    /// the held codes gain those that went down (once each) and then lose
    /// every one that went up; the cursor is the last position queued.
    pub open spec fn latched(self) -> InputView {
        InputView {
            pending_key_down: Seq::empty(),
            pending_key_up: Seq::empty(),
            pending_cursor: Seq::empty(),
            pending_button_down: Seq::empty(),
            pending_button_up: Seq::empty(),
            key_down: self.pending_key_down,
            key_up: self.pending_key_up,
            key_press: remove_each(
                add_each(self.key_press, self.pending_key_down),
                self.pending_key_up,
            ),
            cursor: if self.pending_cursor.len() == 0 {
                self.cursor
            } else {
                self.pending_cursor.last()
            },
            button_down: self.pending_button_down,
            button_up: self.pending_button_up,
            button_press: remove_each(
                add_each(self.button_press, self.pending_button_down),
                self.pending_button_up,
            ),
        }
    }
}

/// The input state of an application: queues that the window system fills,
/// and the per-frame sets that [`recieve_inputs`] latches from them.
pub struct Input {
    key_down_queue: SegQueue<u32>,
    key_up_queue: SegQueue<u32>,
    mouse_pos_queue: SegQueue<Position>,
    mouse_down_queue: SegQueue<MouseButton>,
    mouse_up_queue: SegQueue<MouseButton>,
    key_down: Vec<u32>,
    key_up: Vec<u32>,
    key_press: Vec<u32>,
    mouse_pos: Position,
    mouse_down: Vec<MouseButton>,
    mouse_up: Vec<MouseButton>,
    mouse_press: Vec<MouseButton>,
}

impl View for Input {
    type V = InputView;

    closed spec fn view(&self) -> InputView {
        InputView {
            pending_key_down: key_queue_items(self.key_down_queue),
            pending_key_up: key_queue_items(self.key_up_queue),
            pending_cursor: position_queue_items(self.mouse_pos_queue),
            pending_button_down: button_queue_items(self.mouse_down_queue),
            pending_button_up: button_queue_items(self.mouse_up_queue),
            key_down: self.key_down@,
            key_up: self.key_up@,
            key_press: self.key_press@,
            cursor: self.mouse_pos,
            button_down: self.mouse_down@,
            button_up: self.mouse_up@,
            button_press: self.mouse_press@,
        }
    }
}

/// Whether `key` is among `codes`.
fn contains_code(codes: &Vec<u32>, key: u32) -> (r: bool)
    ensures
        r == codes@.contains(key),
{
    let mut i: usize = 0;
    while i < codes.len()
        invariant
            i <= codes.len(),
            forall|j: int| 0 <= j < i ==> codes@[j] != key,
        decreases codes.len() - i,
    {
        if codes[i] == key {
            return true;
        }
        i = i + 1;
    }
    false
}

/// Whether `button` is among `buttons`.
fn contains_button(buttons: &Vec<MouseButton>, button: MouseButton) -> (r: bool)
    ensures
        r == buttons@.contains(button),
{
    let mut i: usize = 0;
    while i < buttons.len()
        invariant
            i <= buttons.len(),
            forall|j: int| 0 <= j < i ==> buttons@[j] != button,
        decreases buttons.len() - i,
    {
        if buttons[i] == button {
            return true;
        }
        i = i + 1;
    }
    false
}

/// Removes every occurrence of `key` from `codes`, keeping the rest in order.
fn remove_code(codes: &mut Vec<u32>, key: u32)
    ensures
        final(codes)@ == without(old(codes)@, key),
{
    let mut kept: Vec<u32> = Vec::new();
    let mut i: usize = 0;
    while i < codes.len()
        invariant
            i <= codes.len(),
            kept@ == without(codes@.take(i as int), key),
        decreases codes.len() - i,
    {
        let c = codes[i];
        assert(codes@.take(i + 1).drop_last() =~= codes@.take(i as int));
        if c != key {
            kept.push(c);
        }
        i = i + 1;
    }
    assert(codes@.take(codes.len() as int) =~= codes@);
    *codes = kept;
}

/// Removes every occurrence of `button` from `buttons`, keeping the rest in order.
fn remove_button(buttons: &mut Vec<MouseButton>, button: MouseButton)
    ensures
        final(buttons)@ == without(old(buttons)@, button),
{
    let mut kept: Vec<MouseButton> = Vec::new();
    let mut i: usize = 0;
    while i < buttons.len()
        invariant
            i <= buttons.len(),
            kept@ == without(buttons@.take(i as int), button),
        decreases buttons.len() - i,
    {
        let b = buttons[i];
        assert(buttons@.take(i + 1).drop_last() =~= buttons@.take(i as int));
        if b != button {
            kept.push(b);
        }
        i = i + 1;
    }
    assert(buttons@.take(buttons.len() as int) =~= buttons@);
    *buttons = kept;
}


/// Drains the queue of keys that went down: each code is recorded as down
/// this frame, and held unless it already is.
fn drain_key_down(queue: &mut SegQueue<u32>, down: &mut Vec<u32>, press: &mut Vec<u32>)
    requires
        old(down)@.len() == 0,
    ensures
        key_queue_items(*final(queue)).len() == 0,
        final(down)@ == key_queue_items(*old(queue)),
        final(press)@ == add_each(old(press)@, key_queue_items(*old(queue))),
{
    let ghost queued = key_queue_items(*queue);
    let ghost held = press@;
    loop
        invariant
            down@ + key_queue_items(*queue) == queued,
            press@ == add_each(held, down@),
        ensures
            key_queue_items(*queue).len() == 0,
            down@ == queued,
            press@ == add_each(held, queued),
        decreases key_queue_items(*queue).len(),
    {
        match pop_key(queue) {
            None => {
                assert(down@ =~= queued);
                break;
            },
            Some(k) => {
                let ghost before = down@;
                down.push(k);
                assert(down@.drop_last() =~= before);
                assert(down@ + key_queue_items(*queue) =~= queued);
                if !contains_code(press, k) {
                    press.push(k);
                }
            },
        }
    }
}

/// Drains the queue of keys that went up: each code is recorded as up this
/// frame, and is no longer held.
fn drain_key_up(queue: &mut SegQueue<u32>, up: &mut Vec<u32>, press: &mut Vec<u32>)
    requires
        old(up)@.len() == 0,
    ensures
        key_queue_items(*final(queue)).len() == 0,
        final(up)@ == key_queue_items(*old(queue)),
        final(press)@ == remove_each(old(press)@, key_queue_items(*old(queue))),
{
    let ghost queued = key_queue_items(*queue);
    let ghost held = press@;
    loop
        invariant
            up@ + key_queue_items(*queue) == queued,
            press@ == remove_each(held, up@),
        ensures
            key_queue_items(*queue).len() == 0,
            up@ == queued,
            press@ == remove_each(held, queued),
        decreases key_queue_items(*queue).len(),
    {
        match pop_key(queue) {
            None => {
                assert(up@ =~= queued);
                break;
            },
            Some(k) => {
                let ghost before = up@;
                up.push(k);
                assert(up@.drop_last() =~= before);
                assert(up@ + key_queue_items(*queue) =~= queued);
                remove_code(press, k);
            },
        }
    }
}

/// Drains the queue of buttons that went down: each button is recorded as
/// down this frame, and held unless it already is.
fn drain_button_down(
    queue: &mut SegQueue<MouseButton>,
    down: &mut Vec<MouseButton>,
    press: &mut Vec<MouseButton>,
)
    requires
        old(down)@.len() == 0,
    ensures
        button_queue_items(*final(queue)).len() == 0,
        final(down)@ == button_queue_items(*old(queue)),
        final(press)@ == add_each(old(press)@, button_queue_items(*old(queue))),
{
    let ghost queued = button_queue_items(*queue);
    let ghost held = press@;
    loop
        invariant
            down@ + button_queue_items(*queue) == queued,
            press@ == add_each(held, down@),
        ensures
            button_queue_items(*queue).len() == 0,
            down@ == queued,
            press@ == add_each(held, queued),
        decreases button_queue_items(*queue).len(),
    {
        match pop_button(queue) {
            None => {
                assert(down@ =~= queued);
                break;
            },
            Some(b) => {
                let ghost before = down@;
                down.push(b);
                assert(down@.drop_last() =~= before);
                assert(down@ + button_queue_items(*queue) =~= queued);
                if !contains_button(press, b) {
                    press.push(b);
                }
            },
        }
    }
}

/// Drains the queue of buttons that went up: each button is recorded as up
/// this frame, and is no longer held.
fn drain_button_up(
    queue: &mut SegQueue<MouseButton>,
    up: &mut Vec<MouseButton>,
    press: &mut Vec<MouseButton>,
)
    requires
        old(up)@.len() == 0,
    ensures
        button_queue_items(*final(queue)).len() == 0,
        final(up)@ == button_queue_items(*old(queue)),
        final(press)@ == remove_each(old(press)@, button_queue_items(*old(queue))),
{
    let ghost queued = button_queue_items(*queue);
    let ghost held = press@;
    loop
        invariant
            up@ + button_queue_items(*queue) == queued,
            press@ == remove_each(held, up@),
        ensures
            button_queue_items(*queue).len() == 0,
            up@ == queued,
            press@ == remove_each(held, queued),
        decreases button_queue_items(*queue).len(),
    {
        match pop_button(queue) {
            None => {
                assert(up@ =~= queued);
                break;
            },
            Some(b) => {
                let ghost before = up@;
                up.push(b);
                assert(up@.drop_last() =~= before);
                assert(up@ + button_queue_items(*queue) =~= queued);
                remove_button(press, b);
            },
        }
    }
}

/// Drains the queue of cursor positions, keeping the last one.
fn drain_cursor(queue: &mut SegQueue<Position>, pos: &mut Position)
    ensures
        position_queue_items(*final(queue)).len() == 0,
        *final(pos) == if position_queue_items(*old(queue)).len() == 0 {
            *old(pos)
        } else {
            position_queue_items(*old(queue)).last()
        },
{
    let ghost queued = position_queue_items(*queue);
    let ghost start = *pos;
    loop
        invariant
            position_queue_items(*queue).len() <= queued.len(),
            position_queue_items(*queue) == queued.subrange(
                queued.len() - position_queue_items(*queue).len(),
                queued.len() as int,
            ),
            *pos == if position_queue_items(*queue).len() == queued.len() {
                start
            } else {
                queued[queued.len() - position_queue_items(*queue).len() - 1]
            },
        ensures
            position_queue_items(*queue).len() == 0,
            *pos == if queued.len() == 0 {
                start
            } else {
                queued.last()
            },
        decreases position_queue_items(*queue).len(),
    {
        match pop_position(queue) {
            None => {
                break;
            },
            Some(p) => {
                *pos = p;
                assert(position_queue_items(*queue) =~= queued.subrange(
                    queued.len() - position_queue_items(*queue).len(),
                    queued.len() as int,
                ));
            },
        }
    }
}

/// Latches one frame of input: the codes that went down and up last frame
/// are forgotten, the queues are drained (keys down, then keys up, then the
/// cursor, then buttons down, then buttons up), and the held sets follow.
pub fn recieve_inputs(input: &mut Input)
    ensures
        final(input)@ == old(input)@.latched(),
{
    input.key_down.clear();
    input.key_up.clear();
    input.mouse_down.clear();
    input.mouse_up.clear();
    drain_key_down(&mut input.key_down_queue, &mut input.key_down, &mut input.key_press);
    drain_key_up(&mut input.key_up_queue, &mut input.key_up, &mut input.key_press);
    drain_cursor(&mut input.mouse_pos_queue, &mut input.mouse_pos);
    drain_button_down(&mut input.mouse_down_queue, &mut input.mouse_down, &mut input.mouse_press);
    drain_button_up(&mut input.mouse_up_queue, &mut input.mouse_up, &mut input.mouse_press);
    let ghost v = old(input)@.latched();
    assert(input@.pending_key_down =~= v.pending_key_down);
    assert(input@.pending_key_up =~= v.pending_key_up);
    assert(input@.pending_cursor =~= v.pending_cursor);
    assert(input@.pending_button_down =~= v.pending_button_down);
    assert(input@.pending_button_up =~= v.pending_button_up);
    assert(input@.key_down =~= v.key_down);
    assert(input@.key_up =~= v.key_up);
    assert(input@.key_press =~= v.key_press);
    assert(input@.cursor == v.cursor);
    assert(input@.button_down =~= v.button_down);
    assert(input@.button_up =~= v.button_up);
    assert(input@.button_press =~= v.button_press);
}


impl InputView {
    /// The state of a new input: nothing queued, nothing down, up or held.
    pub open spec fn empty() -> InputView {
        InputView {
            pending_key_down: Seq::empty(),
            pending_key_up: Seq::empty(),
            pending_cursor: Seq::empty(),
            pending_button_down: Seq::empty(),
            pending_button_up: Seq::empty(),
            key_down: Seq::empty(),
            key_up: Seq::empty(),
            key_press: Seq::empty(),
            cursor: Position { x_bits: 0, y_bits: 0 },
            button_down: Seq::empty(),
            button_up: Seq::empty(),
            button_press: Seq::empty(),
        }
    }
}

impl Input {
    /// A new input: nothing queued, nothing down, up or held, the cursor at the origin.
    pub fn new() -> (r: Input)
        ensures
            r@ == InputView::empty(),
    {
        let r = Input {
            key_down_queue: new_key_queue(),
            key_up_queue: new_key_queue(),
            mouse_pos_queue: new_position_queue(),
            mouse_down_queue: new_button_queue(),
            mouse_up_queue: new_button_queue(),
            key_down: Vec::new(),
            key_up: Vec::new(),
            key_press: Vec::new(),
            mouse_pos: Position::default(),
            mouse_down: Vec::new(),
            mouse_up: Vec::new(),
            mouse_press: Vec::new(),
        };
        assert(r@ =~~= InputView::empty());
        r
    }

    /// Queues a key that went down; it is seen at the next latch.
    pub fn set_key_down(&mut self, key: u32)
        ensures
            final(self)@ == (InputView {
                pending_key_down: old(self)@.pending_key_down.push(key),
                ..old(self)@
            }),
    {
        push_key(&mut self.key_down_queue, key);
    }

    /// Queues a key that went up; it is seen at the next latch.
    pub fn set_key_up(&mut self, key: u32)
        ensures
            final(self)@ == (InputView {
                pending_key_up: old(self)@.pending_key_up.push(key),
                ..old(self)@
            }),
    {
        push_key(&mut self.key_up_queue, key);
    }

    /// Queues a cursor position; the last one queued is seen at the next latch.
    pub fn set_mouse_pos(&mut self, pos: Position)
        ensures
            final(self)@ == (InputView {
                pending_cursor: old(self)@.pending_cursor.push(pos),
                ..old(self)@
            }),
    {
        push_position(&mut self.mouse_pos_queue, pos);
    }

    /// Queues a mouse button that went down; it is seen at the next latch.
    pub fn set_mouse_button_down(&mut self, btn: MouseButton)
        ensures
            final(self)@ == (InputView {
                pending_button_down: old(self)@.pending_button_down.push(btn),
                ..old(self)@
            }),
    {
        push_button(&mut self.mouse_down_queue, btn);
    }

    /// Queues a mouse button that went up; it is seen at the next latch.
    pub fn set_mouse_button_up(&mut self, btn: MouseButton)
        ensures
            final(self)@ == (InputView {
                pending_button_up: old(self)@.pending_button_up.push(btn),
                ..old(self)@
            }),
    {
        push_button(&mut self.mouse_up_queue, btn);
    }

    /// Whether `key` went down in the last latched frame.
    pub fn is_key_down(&self, key: u32) -> (r: bool)
        ensures
            r == self@.key_down.contains(key),
    {
        contains_code(&self.key_down, key)
    }

    /// Whether `key` went up in the last latched frame.
    pub fn is_key_up(&self, key: u32) -> (r: bool)
        ensures
            r == self@.key_up.contains(key),
    {
        contains_code(&self.key_up, key)
    }

    /// Whether `key` is held.
    pub fn is_key_pressed(&self, key: u32) -> (r: bool)
        ensures
            r == self@.key_press.contains(key),
    {
        contains_code(&self.key_press, key)
    }

    /// Whether `btn` went down in the last latched frame.
    pub fn is_mouse_button_down(&self, btn: MouseButton) -> (r: bool)
        ensures
            r == self@.button_down.contains(btn),
    {
        contains_button(&self.mouse_down, btn)
    }

    /// Whether `btn` went up in the last latched frame.
    pub fn is_mouse_button_up(&self, btn: MouseButton) -> (r: bool)
        ensures
            r == self@.button_up.contains(btn),
    {
        contains_button(&self.mouse_up, btn)
    }

    /// Whether `btn` is held.
    pub fn is_mouse_button_pressed(&self, btn: MouseButton) -> (r: bool)
        ensures
            r == self@.button_press.contains(btn),
    {
        contains_button(&self.mouse_press, btn)
    }

    /// The last latched cursor position.
    pub fn mouse_position(&self) -> (r: &Position)
        ensures
            *r == self@.cursor,
    {
        &self.mouse_pos
    }

    /// The keys that went down in the last latched frame, in the order they came.
    pub fn keys_down(&self) -> (r: &Vec<u32>)
        ensures
            r@ == self@.key_down,
    {
        &self.key_down
    }

    /// The keys that went up in the last latched frame, in the order they came.
    pub fn keys_up(&self) -> (r: &Vec<u32>)
        ensures
            r@ == self@.key_up,
    {
        &self.key_up
    }

    /// The keys that are held, in the order they went down.
    pub fn keys_pressed(&self) -> (r: &Vec<u32>)
        ensures
            r@ == self@.key_press,
    {
        &self.key_press
    }
}

impl Default for Input {
    fn default() -> (r: Input)
        ensures
            r@ == InputView::empty(),
    {
        Input::new()
    }
}


proof fn lemma_push_contains<T>(s: Seq<T>, a: T, x: T)
    ensures
        s.push(a).contains(x) <==> s.contains(x) || a == x,
{
    if s.contains(x) {
        let i = choose|i: int| 0 <= i < s.len() && s[i] == x;
        assert(s.push(a)[i] == x);
    }
    if a == x {
        assert(s.push(a)[s.len() as int] == x);
    }
    if s.push(a).contains(x) {
        let i = choose|i: int| 0 <= i < s.push(a).len() && s.push(a)[i] == x;
        if i < s.len() {
            assert(s[i] == x);
        }
    }
}

proof fn lemma_without_contains<T>(s: Seq<T>, y: T, x: T)
    ensures
        without(s, y).contains(x) <==> s.contains(x) && x != y,
    decreases s.len(),
{
    if s.len() > 0 {
        lemma_without_contains(s.drop_last(), y, x);
        assert(s =~= s.drop_last().push(s.last()));
        lemma_push_contains(s.drop_last(), s.last(), x);
        lemma_push_contains(without(s.drop_last(), y), s.last(), x);
    }
}

proof fn lemma_remove_each_contains<T>(s: Seq<T>, removed: Seq<T>, x: T)
    ensures
        remove_each(s, removed).contains(x) <==> s.contains(x) && !removed.contains(x),
    decreases removed.len(),
{
    if removed.len() > 0 {
        lemma_remove_each_contains(s, removed.drop_last(), x);
        lemma_without_contains(remove_each(s, removed.drop_last()), removed.last(), x);
        assert(removed =~= removed.drop_last().push(removed.last()));
        lemma_push_contains(removed.drop_last(), removed.last(), x);
    }
}

proof fn lemma_add_each_contains<T>(s: Seq<T>, added: Seq<T>, x: T)
    ensures
        add_each(s, added).contains(x) <==> s.contains(x) || added.contains(x),
    decreases added.len(),
{
    if added.len() > 0 {
        lemma_add_each_contains(s, added.drop_last(), x);
        assert(added =~= added.drop_last().push(added.last()));
        lemma_push_contains(added.drop_last(), added.last(), x);
        lemma_push_contains(add_each(s, added.drop_last()), added.last(), x);
    }
}

proof fn lemma_without_distinct<T>(s: Seq<T>, y: T)
    requires
        s.no_duplicates(),
    ensures
        without(s, y).no_duplicates(),
    decreases s.len(),
{
    if s.len() > 0 {
        assert(s.drop_last().no_duplicates());
        lemma_without_distinct(s.drop_last(), y);
        lemma_without_contains(s.drop_last(), y, s.last());
        assert(s =~= s.drop_last().push(s.last()));
        assert(!s.drop_last().contains(s.last()));
    }
}

proof fn lemma_remove_each_distinct<T>(s: Seq<T>, removed: Seq<T>)
    requires
        s.no_duplicates(),
    ensures
        remove_each(s, removed).no_duplicates(),
    decreases removed.len(),
{
    if removed.len() > 0 {
        lemma_remove_each_distinct(s, removed.drop_last());
        lemma_without_distinct(remove_each(s, removed.drop_last()), removed.last());
    }
}

proof fn lemma_add_each_distinct<T>(s: Seq<T>, added: Seq<T>)
    requires
        s.no_duplicates(),
    ensures
        add_each(s, added).no_duplicates(),
    decreases added.len(),
{
    if added.len() > 0 {
        lemma_add_each_distinct(s, added.drop_last());
    }
}

/// A second latch with nothing queued since the first: nothing went down or
/// up in that frame, and what is held stays as it was.
pub proof fn lemma_latch_twice(v: InputView)
    ensures
        v.latched().latched().key_down.len() == 0,
        v.latched().latched().key_up.len() == 0,
        v.latched().latched().key_press == v.latched().key_press,
        v.latched().latched().button_down.len() == 0,
        v.latched().latched().button_up.len() == 0,
        v.latched().latched().button_press == v.latched().button_press,
        v.latched().latched().cursor == v.latched().cursor,
{
}

/// A key that goes down, with no release of it queued, is down and held and
/// not up after the next latch.
pub proof fn lemma_down_then_latch(v: InputView, key: u32)
    requires
        !v.pending_key_up.contains(key),
    ensures
        ({
            let w = (InputView { pending_key_down: v.pending_key_down.push(key), ..v }).latched();
            w.key_press.contains(key) && w.key_down.contains(key) && !w.key_up.contains(key)
        }),
{
    let downs = v.pending_key_down.push(key);
    assert(downs.contains(key)) by {
        assert(downs[downs.len() - 1] == key);
    }
    lemma_add_each_contains(v.key_press, downs, key);
    lemma_remove_each_contains(add_each(v.key_press, downs), v.pending_key_up, key);
}

/// A key that goes down and then up before a latch is seen as down and as up
/// in that frame, and is not held afterwards.
pub proof fn lemma_tap_in_one_frame(v: InputView, key: u32)
    ensures
        ({
            let w = (InputView {
                pending_key_down: v.pending_key_down.push(key),
                pending_key_up: v.pending_key_up.push(key),
                ..v
            }).latched();
            w.key_down.contains(key) && w.key_up.contains(key) && !w.key_press.contains(key)
        }),
{
    let downs = v.pending_key_down.push(key);
    let ups = v.pending_key_up.push(key);
    assert(downs[downs.len() - 1] == key);
    assert(ups[ups.len() - 1] == key);
    lemma_remove_each_contains(add_each(v.key_press, downs), ups, key);
}

/// A latch never holds a key or a button twice.
pub proof fn lemma_latch_holds_each_once(v: InputView)
    requires
        v.key_press.no_duplicates(),
        v.button_press.no_duplicates(),
    ensures
        v.latched().key_press.no_duplicates(),
        v.latched().button_press.no_duplicates(),
{
    lemma_add_each_distinct(v.key_press, v.pending_key_down);
    lemma_remove_each_distinct(add_each(v.key_press, v.pending_key_down), v.pending_key_up);
    lemma_add_each_distinct(v.button_press, v.pending_button_down);
    lemma_remove_each_distinct(
        add_each(v.button_press, v.pending_button_down),
        v.pending_button_up,
    );
}

} // verus!

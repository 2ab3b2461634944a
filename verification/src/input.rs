//! Input state: which keys are held, whether the pointer drags, and how much
//! scrolling waits to be consumed.

use vstd::prelude::*;
use crate::keys::Key;

verus! {

/// A pointer position in whole pixels.
#[derive(Clone, Copy, Debug, PartialEq, Eq, Structural)]
pub struct Point {
    pub x: i32,
    pub y: i32,
}

/// A button of the pointing device. Only the left one drags.
#[derive(Clone, Copy, Debug, PartialEq, Eq, Structural)]
pub enum PointerButton {
    Left,
    Right,
    Middle,
    Other,
}

/// One scroll event. A line-based device reports thousandths of a line, a
/// pixel-based device whole pixels.
#[derive(Clone, Copy, Debug, PartialEq, Eq, Structural)]
pub enum ScrollDelta {
    Lines(i32),
    Pixels(i32),
}

/// The pointer's travel between two positions while dragging, in pixels.
#[derive(Clone, Copy, Debug, PartialEq, Eq, Structural)]
pub struct DragStep {
    pub dx: i64,
    pub dy: i64,
}

/// Scroll units that one line is worth.
pub const SCROLL_UNITS_PER_LINE: i64 = 1000;

/// Scroll units that one pixel is worth: a tenth of a line.
pub const SCROLL_UNITS_PER_PIXEL: i64 = 100;

/// The value nearest to `v` that a 64-bit signed integer holds.
pub open spec fn saturate(v: int) -> int {
    if v < i64::MIN {
        i64::MIN as int
    } else if v > i64::MAX {
        i64::MAX as int
    } else {
        v
    }
}

/// What a scroll event adds to the pending scroll, in scroll units.
pub open spec fn scroll_units(delta: ScrollDelta) -> int {
    match delta {
        ScrollDelta::Lines(milli) => milli as int,
        ScrollDelta::Pixels(px) => px * 100,
    }
}

/// The mathematical content of an [`InputState`].
pub ghost struct InputView {
    pub held: Set<Key>,
    pub dragging: bool,
    pub pointer: Option<Point>,
    pub scroll: int,
}

/// The state after `key` went down.
pub open spec fn pressed(v: InputView, key: Key) -> InputView {
    InputView { held: v.held.insert(key), ..v }
}

/// The state after `key` came up.
pub open spec fn released(v: InputView, key: Key) -> InputView {
    InputView { held: v.held.remove(key), ..v }
}

/// The state after a pointer button went down or came up. Pressing the left
/// button starts a drag from the last known position; releasing it ends the
/// drag and forgets the position.
pub open spec fn button_changed(v: InputView, button: PointerButton, down: bool) -> InputView {
    if button != PointerButton::Left {
        v
    } else if down {
        InputView { dragging: true, ..v }
    } else {
        InputView { dragging: false, pointer: None, ..v }
    }
}

/// The travel that a pointer move to `to` reports: the difference to the last
/// known position while dragging, nothing otherwise.
pub open spec fn drag_step(v: InputView, to: Point) -> Option<DragStep> {
    match v.pointer {
        Some(from) if v.dragging => Some(DragStep { dx: (to.x - from.x) as i64, dy: (to.y - from.y) as i64 }),
        _ => None,
    }
}

/// The state after the pointer moved to `to`.
pub open spec fn pointer_moved(v: InputView, to: Point) -> InputView {
    InputView { pointer: Some(to), ..v }
}

/// The state after a scroll event.
pub open spec fn scrolled(v: InputView, delta: ScrollDelta) -> InputView {
    InputView { scroll: saturate(v.scroll + scroll_units(delta)), ..v }
}

/// Adds two integers, stopping at the ends of the 64-bit range.
pub fn saturating_sum(a: i64, b: i64) -> (sum: i64)
    ensures
        sum == saturate(a + b),
{
    if b > 0 && a > i64::MAX - b {
        i64::MAX
    } else if b < 0 && a < i64::MIN - b {
        i64::MIN
    } else {
        a + b
    }
}

/// The index of `key` in `keys`, if it is there.
fn position_of(keys: &Vec<Key>, key: Key) -> (found: Option<usize>)
    ensures
        match found {
            Some(i) => i < keys.len() && keys[i as int] == key,
            None => !keys@.contains(key),
        },
{
    let mut i: usize = 0;
    while i < keys.len()
        invariant
            i <= keys.len(),
            forall|j: int| 0 <= j < i ==> keys[j] != key,
        decreases keys.len() - i,
    {
        if keys[i] == key {
            return Some(i);
        }
        i += 1;
    }
    None
}

/// Held keys, drag state and pending scroll.
pub struct InputState {
    held: Vec<Key>,
    dragging: bool,
    pointer: Option<Point>,
    scroll: i64,
}

impl View for InputState {
    type V = InputView;

    closed spec fn view(&self) -> InputView {
        InputView {
            held: self.held@.to_set(),
            dragging: self.dragging,
            pointer: self.pointer,
            scroll: self.scroll as int,
        }
    }
}

impl InputState {
    /// No key is stored twice.
    pub closed spec fn wf(&self) -> bool {
        self.held@.no_duplicates()
    }

    /// Nothing held, no drag, no known pointer position, nothing scrolled.
    pub fn new() -> (state: Self)
        ensures
            state.wf(),
            state@ == (InputView { held: Set::empty(), dragging: false, pointer: None, scroll: 0 }),
    {
        let state = InputState { held: Vec::new(), dragging: false, pointer: None, scroll: 0 };
        assert(state.held@.to_set() =~= Set::<Key>::empty());
        state
    }

    /// Records that `key` went down. A key that is already held stays held.
    pub fn press(&mut self, key: Key)
        requires
            old(self).wf(),
        ensures
            final(self).wf(),
            final(self)@ == pressed(old(self)@, key),
    {
        match position_of(&self.held, key) {
            Some(_) => {
                assert(self.held@.to_set().insert(key) =~= self.held@.to_set());
            },
            None => {
                let ghost before = self.held@;
                self.held.push(key);
                assert(self.held@.to_set() =~= before.to_set().insert(key)) by {
                    assert forall|k: Key| self.held@.to_set().contains(k) <==> before.to_set().insert(key).contains(k) by {
                        if before.contains(k) {
                            let j = choose|j: int| 0 <= j < before.len() && before[j] == k;
                            assert(self.held@[j] == k);
                        }
                        if k == key {
                            assert(self.held@[before.len() as int] == key);
                        }
                    }
                }
            },
        }
    }

    /// Records that `key` came up. A key that is not held changes nothing.
    pub fn release(&mut self, key: Key)
        requires
            old(self).wf(),
        ensures
            final(self).wf(),
            final(self)@ == released(old(self)@, key),
    {
        match position_of(&self.held, key) {
            Some(i) => {
                let ghost before = self.held@;
                self.held.remove(i);
                assert(self.held@.to_set() =~= before.to_set().remove(key)) by {
                    assert forall|k: Key| self.held@.to_set().contains(k) <==> before.to_set().remove(key).contains(k) by {
                        if self.held@.contains(k) {
                            let j = choose|j: int| 0 <= j < self.held@.len() && self.held@[j] == k;
                            if j < i {
                                assert(before[j] == k);
                            } else {
                                assert(before[j + 1] == k);
                            }
                        }
                        if before.contains(k) && k != key {
                            let j = choose|j: int| 0 <= j < before.len() && before[j] == k;
                            if j < i {
                                assert(self.held@[j] == k);
                            } else {
                                assert(self.held@[j - 1] == k);
                            }
                        }
                    }
                }
            },
            None => {
                assert(self.held@.to_set().remove(key) =~= self.held@.to_set());
            },
        }
    }

    /// Whether `key` is held.
    pub fn is_held(&self, key: Key) -> (held: bool)
        ensures
            held == self@.held.contains(key),
    {
        position_of(&self.held, key).is_some()
    }

    /// How many keys are held.
    pub fn held_count(&self) -> (count: usize)
        requires
            self.wf(),
        ensures
            count == self@.held.len(),
    {
        proof {
            self.held@.unique_seq_to_set();
        }
        self.held.len()
    }

    /// Whether a drag is under way.
    pub fn is_dragging(&self) -> (dragging: bool)
        ensures
            dragging == self@.dragging,
    {
        self.dragging
    }

    /// The last known pointer position.
    pub fn last_pointer(&self) -> (pointer: Option<Point>)
        ensures
            pointer == self@.pointer,
    {
        self.pointer
    }

    /// The scroll that waits to be consumed, in scroll units.
    pub fn pending_scroll(&self) -> (scroll: i64)
        ensures
            scroll == self@.scroll,
    {
        self.scroll
    }

    /// Records that a pointer button went down or came up.
    pub fn button(&mut self, button: PointerButton, down: bool)
        ensures
            final(self).wf() == old(self).wf(),
            final(self)@ == button_changed(old(self)@, button, down),
    {
        match button {
            PointerButton::Left => {
                self.dragging = down;
                if !down {
                    self.pointer = None;
                }
            },
            _ => {},
        }
    }

    /// Records that the pointer moved to `to`, and reports the travel if a
    /// drag is under way.
    pub fn pointer_moved(&mut self, to: Point) -> (step: Option<DragStep>)
        ensures
            final(self).wf() == old(self).wf(),
            final(self)@ == pointer_moved(old(self)@, to),
            step == drag_step(old(self)@, to),
    {
        let step = match self.pointer {
            Some(from) => {
                if self.dragging {
                    Some(DragStep { dx: to.x as i64 - from.x as i64, dy: to.y as i64 - from.y as i64 })
                } else {
                    None
                }
            },
            None => None,
        };
        self.pointer = Some(to);
        step
    }

    /// Adds a scroll event to the pending scroll.
    pub fn scroll(&mut self, delta: ScrollDelta)
        ensures
            final(self).wf() == old(self).wf(),
            final(self)@ == scrolled(old(self)@, delta),
    {
        let units: i64 = match delta {
            ScrollDelta::Lines(milli) => milli as i64,
            ScrollDelta::Pixels(px) => px as i64 * SCROLL_UNITS_PER_PIXEL,
        };
        self.scroll = saturating_sum(self.scroll, units);
    }

    /// Hands out the pending scroll and resets it to zero.
    pub fn take_scroll(&mut self) -> (scroll: i64)
        ensures
            final(self).wf() == old(self).wf(),
            final(self)@ == (InputView { scroll: 0, ..old(self)@ }),
            scroll == old(self)@.scroll,
    {
        let scroll = self.scroll;
        self.scroll = 0;
        scroll
    }
}

/// Pressing a key that was not held and releasing it again leaves the state
/// as it was.
pub proof fn lemma_press_release_restores(v: InputView, key: Key)
    requires
        !v.held.contains(key),
    ensures
        released(pressed(v, key), key) == v,
{
    assert(v.held.insert(key).remove(key) =~= v.held);
}

/// Releasing a key leaves it not held, whether or not it was pressed before,
/// and pressing then releasing equals releasing alone.
pub proof fn lemma_press_release_is_release(v: InputView, key: Key)
    ensures
        released(pressed(v, key), key) == released(v, key),
        !released(v, key).held.contains(key),
{
    assert(v.held.insert(key).remove(key) =~= v.held.remove(key));
}

/// A second press of a held key, and a second release of a key that is not
/// held, change nothing.
pub proof fn lemma_press_release_idempotent(v: InputView, key: Key)
    ensures
        pressed(pressed(v, key), key) == pressed(v, key),
        released(released(v, key), key) == released(v, key),
{
    assert(v.held.insert(key).insert(key) =~= v.held.insert(key));
    assert(v.held.remove(key).remove(key) =~= v.held.remove(key));
}

} // verus!

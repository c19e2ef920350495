//! Input state: focus, cursor, accumulated mouse and scroll deltas, and
//! pressed-key and pressed-button sets.
//!
//! Events arrive as plain values (key codes, fixed-point deltas); the
//! windowing layer converts its own event types into these. Key and
//! button sets are bitvec bit arrays, used through trusted wrappers whose
//! contracts speak of the bit sequence `bits_of`.

use crate::fx::clamp_spec;
use crate::fx::fx_clamp;
use bitvec::array::BitArray;
use bitvec::order::Lsb0;
use vstd::prelude::*;

verus! {

/// A 256-bit set held in a bitvec `BitArray`; the array's generic bounds
/// keep Verus from declaring the type itself, so this struct carries it.
#[verifier::external_body]
pub struct BitSet256 {
    inner: BitArray<[u64; 4], Lsb0>,
}

/// The bits held by a 256-bit set.
pub uninterp spec fn bits_of(a: BitSet256) -> Seq<bool>;

/// Relies on bitvec's `BitArray::new`: a zeroed four-word array is 256
/// cleared bits.
#[verifier::external_body]
fn bits_new() -> (r: BitSet256)
    ensures
        bits_of(r) == Seq::new(256, |i: int| false),
{
    BitSet256 { inner: BitArray::new([0; 4]) }
}

/// Relies on bitvec's `BitSlice::set`, reached through the array: writes
/// bit `i`, leaves the others.
#[verifier::external_body]
fn bits_set(a: &mut BitSet256, i: usize, v: bool)
    requires
        i < 256,
        bits_of(*old(a)).len() == 256,
    ensures
        bits_of(*final(a)) == bits_of(*old(a)).update(i as int, v),
{
    a.inner.set(i, v);
}

/// Relies on bitvec's `BitSlice` indexing, reached through the array:
/// reads bit `i`.
#[verifier::external_body]
fn bits_get(a: &BitSet256, i: usize) -> (r: bool)
    requires
        i < 256,
        bits_of(*a).len() == 256,
    ensures
        r == bits_of(*a)[i as int],
{
    a.inner[i]
}

/// Largest magnitude an accumulated delta may reach before clamping.
pub const DELTA_LIMIT: i64 = 0x2_0000_0000;

/// Largest magnitude accepted for one event's delta or position.
pub const EVENT_LIMIT: i64 = 0x1_0000_0000;

/// Key codes the library names; the windowing layer maps its own codes
/// into this space (any code below 256 is accepted).
pub const KEY_W: u32 = 26;

pub const KEY_A: u32 = 4;

pub const KEY_S: u32 = 22;

pub const KEY_D: u32 = 7;

pub const KEY_Q: u32 = 20;

pub const KEY_E: u32 = 8;

pub const KEY_ESCAPE: u32 = 41;

/// Whether a key or button went down or up.
#[derive(Clone, Copy, PartialEq, Eq, Structural, Debug)]
pub enum ElementStateData {
    Pressed,
    Released,
}

impl ElementStateData {
    pub open spec fn is_down(self) -> bool {
        self is Pressed
    }
}

/// A mouse button, as the windowing layer reports it.
#[derive(Clone, Copy, PartialEq, Eq, Structural, Debug)]
pub enum MouseButtonData {
    Left,
    Right,
    Middle,
    Back,
    Forward,
    Other(u16),
}

/// The slot a mouse button occupies in the pressed-button set.
pub open spec fn mouse_button_slot(button: MouseButtonData) -> int {
    match button {
        MouseButtonData::Left => 1,
        MouseButtonData::Right => 2,
        MouseButtonData::Middle => 3,
        MouseButtonData::Back => 4,
        MouseButtonData::Forward => 5,
        MouseButtonData::Other(_) => 6,
    }
}

/// Map a mouse button to its slot.
pub fn mouse_button_to_usize(button: &MouseButtonData) -> (r: usize)
    ensures
        r == mouse_button_slot(*button),
        1 <= r <= 6,
{
    match button {
        MouseButtonData::Left => 1,
        MouseButtonData::Right => 2,
        MouseButtonData::Middle => 3,
        MouseButtonData::Back => 4,
        MouseButtonData::Forward => 5,
        MouseButtonData::Other(_) => 6,
    }
}

/// A raw device event, as plain values (deltas in 16.16 fixed point).
#[derive(Clone, Copy, PartialEq, Eq, Structural, Debug)]
pub enum DeviceEventData {
    MouseMotion { dx: i64, dy: i64 },
    Other,
}

impl DeviceEventData {
    /// Deltas within the accepted event range.
    pub open spec fn valid(self) -> bool {
        match self {
            DeviceEventData::MouseMotion { dx, dy } => -EVENT_LIMIT <= dx <= EVENT_LIMIT
                && -EVENT_LIMIT <= dy <= EVENT_LIMIT,
            DeviceEventData::Other => true,
        }
    }
}

/// A scroll amount: lines or pixels (16.16 fixed point).
#[derive(Clone, Copy, PartialEq, Eq, Structural, Debug)]
pub enum MouseScrollDeltaData {
    LineDelta { x: i64, y: i64 },
    PixelDelta { x: i64, y: i64 },
}

/// A window event, as plain values.
#[derive(Clone, Copy, PartialEq, Eq, Structural, Debug)]
pub enum WindowEventData {
    Focused(bool),
    KeyboardInput { key_code: Option<u32>, state: ElementStateData },
    CursorMoved { x: i64, y: i64 },
    MouseWheel { delta: MouseScrollDeltaData },
    MouseInput { state: ElementStateData, button: MouseButtonData },
    Other,
}

impl WindowEventData {
    /// Key codes below 256, coordinates and deltas within the accepted
    /// event range.
    pub open spec fn valid(self) -> bool {
        match self {
            WindowEventData::KeyboardInput { key_code, state } => match key_code {
                Some(c) => c < 256,
                None => true,
            },
            WindowEventData::CursorMoved { x, y } => -EVENT_LIMIT <= x <= EVENT_LIMIT
                && -EVENT_LIMIT <= y <= EVENT_LIMIT,
            WindowEventData::MouseWheel { delta } => match delta {
                MouseScrollDeltaData::LineDelta { x, y } => -EVENT_LIMIT <= x <= EVENT_LIMIT
                    && -EVENT_LIMIT <= y <= EVENT_LIMIT,
                MouseScrollDeltaData::PixelDelta { x, y } => -EVENT_LIMIT <= x <= EVENT_LIMIT
                    && -EVENT_LIMIT <= y <= EVENT_LIMIT,
            },
            _ => true,
        }
    }
}

/// Aggregated input state, updated event by event and read once per tick.
pub struct InputResource {
    pub focused: bool,
    pub cursor_x: i64,
    pub cursor_y: i64,
    pub scroll_x: i64,
    pub scroll_y: i64,
    pub mouse_dx: i64,
    pub mouse_dy: i64,
    pub pressed_keys: BitSet256,
    pub pressed_mouse_buttons: BitSet256,
}

impl InputResource {
    /// The pressed-key set as a bit sequence.
    pub open spec fn keys(self) -> Seq<bool> {
        bits_of(self.pressed_keys)
    }

    /// The pressed-button set as a bit sequence.
    pub open spec fn buttons(self) -> Seq<bool> {
        bits_of(self.pressed_mouse_buttons)
    }

    /// Well-formed: both bit sets are 256 bits, accumulators in range.
    pub open spec fn wf(self) -> bool {
        &&& self.keys().len() == 256
        &&& self.buttons().len() == 256
        &&& -DELTA_LIMIT <= self.scroll_x <= DELTA_LIMIT
        &&& -DELTA_LIMIT <= self.scroll_y <= DELTA_LIMIT
        &&& -DELTA_LIMIT <= self.mouse_dx <= DELTA_LIMIT
        &&& -DELTA_LIMIT <= self.mouse_dy <= DELTA_LIMIT
    }

    /// Fresh input state: nothing pressed, all deltas zero.
    pub fn new(focused: bool) -> (r: InputResource)
        ensures
            r.wf(),
            r.focused == focused,
            r.cursor_x == 0 && r.cursor_y == 0,
            r.scroll_x == 0 && r.scroll_y == 0,
            r.mouse_dx == 0 && r.mouse_dy == 0,
            r.keys() == Seq::new(256, |i: int| false),
            r.buttons() == Seq::new(256, |i: int| false),
    {
        InputResource {
            focused,
            cursor_x: 0,
            cursor_y: 0,
            scroll_x: 0,
            scroll_y: 0,
            mouse_dx: 0,
            mouse_dy: 0,
            pressed_keys: bits_new(),
            pressed_mouse_buttons: bits_new(),
        }
    }

    /// Accumulate mouse motion while focused; other device events and
    /// unfocused motion change nothing. Accumulators clamp at
    /// `DELTA_LIMIT`.
    pub fn device_event(&mut self, event: &DeviceEventData)
        requires
            old(self).wf(),
            event.valid(),
        ensures
            final(self).wf(),
            final(self).focused == old(self).focused,
            final(self).cursor_x == old(self).cursor_x,
            final(self).cursor_y == old(self).cursor_y,
            final(self).scroll_x == old(self).scroll_x,
            final(self).scroll_y == old(self).scroll_y,
            final(self).keys() == old(self).keys(),
            final(self).buttons() == old(self).buttons(),
            match *event {
                DeviceEventData::MouseMotion { dx, dy } => if old(self).focused {
                    final(self).mouse_dx == clamp_spec(
                        old(self).mouse_dx + dx,
                        -DELTA_LIMIT as int,
                        DELTA_LIMIT as int,
                    ) && final(self).mouse_dy == clamp_spec(
                        old(self).mouse_dy + dy,
                        -DELTA_LIMIT as int,
                        DELTA_LIMIT as int,
                    )
                } else {
                    final(self).mouse_dx == old(self).mouse_dx && final(self).mouse_dy == old(self).mouse_dy
                },
                DeviceEventData::Other => final(self).mouse_dx == old(self).mouse_dx && final(self).mouse_dy == old(self).mouse_dy,
            },
    {
        if self.focused {
            match event {
                DeviceEventData::MouseMotion { dx, dy } => {
                    self.mouse_dx = fx_clamp(self.mouse_dx + *dx, -DELTA_LIMIT, DELTA_LIMIT);
                    self.mouse_dy = fx_clamp(self.mouse_dy + *dy, -DELTA_LIMIT, DELTA_LIMIT);
                },
                DeviceEventData::Other => {},
            }
        }
    }

    /// Fold one window event into the state: focus changes, key and
    /// button presses, cursor position, pixel scrolling. Line scrolling
    /// and other events change nothing.
    pub fn window_event(&mut self, event: &WindowEventData)
        requires
            old(self).wf(),
            event.valid(),
        ensures
            final(self).wf(),
            final(self).mouse_dx == old(self).mouse_dx,
            final(self).mouse_dy == old(self).mouse_dy,
            match *event {
                WindowEventData::Focused(b) => final(self).focused == b && final(self).keys()
                    == old(self).keys() && final(self).buttons() == old(self).buttons() && final(self).cursor_x == old(self).cursor_x && final(self).cursor_y == old(self).cursor_y
                    && final(self).scroll_x == old(self).scroll_x && final(self).scroll_y == old(self).scroll_y,
                WindowEventData::KeyboardInput { key_code, state } => {
                    &&& final(self).keys() == match key_code {
                        Some(c) => old(self).keys().update(c as int, state.is_down()),
                        None => old(self).keys(),
                    }
                    &&& final(self).buttons() == old(self).buttons()
                    &&& final(self).focused == old(self).focused
                    &&& final(self).cursor_x == old(self).cursor_x
                    &&& final(self).cursor_y == old(self).cursor_y
                    &&& final(self).scroll_x == old(self).scroll_x
                    &&& final(self).scroll_y == old(self).scroll_y
                },
                WindowEventData::CursorMoved { x, y } => final(self).cursor_x == x && final(self).cursor_y == y && final(self).keys() == old(self).keys() && final(self).buttons()
                    == old(self).buttons() && final(self).focused == old(self).focused && final(self).scroll_x == old(self).scroll_x && final(self).scroll_y == old(self).scroll_y,
                WindowEventData::MouseWheel { delta } => {
                    &&& match delta {
                        MouseScrollDeltaData::PixelDelta { x, y } => final(self).scroll_x
                            == clamp_spec(
                            old(self).scroll_x + x,
                            -DELTA_LIMIT as int,
                            DELTA_LIMIT as int,
                        ) && final(self).scroll_y == clamp_spec(
                            old(self).scroll_y + y,
                            -DELTA_LIMIT as int,
                            DELTA_LIMIT as int,
                        ),
                        MouseScrollDeltaData::LineDelta { .. } => final(self).scroll_x == old(self).scroll_x && final(self).scroll_y == old(self).scroll_y,
                    }
                    &&& final(self).keys() == old(self).keys()
                    &&& final(self).buttons() == old(self).buttons()
                    &&& final(self).focused == old(self).focused
                    &&& final(self).cursor_x == old(self).cursor_x
                    &&& final(self).cursor_y == old(self).cursor_y
                },
                WindowEventData::MouseInput { state, button } => {
                    &&& final(self).buttons() == old(self).buttons().update(
                        mouse_button_slot(button),
                        state.is_down(),
                    )
                    &&& final(self).keys() == old(self).keys()
                    &&& final(self).focused == old(self).focused
                    &&& final(self).cursor_x == old(self).cursor_x
                    &&& final(self).cursor_y == old(self).cursor_y
                    &&& final(self).scroll_x == old(self).scroll_x
                    &&& final(self).scroll_y == old(self).scroll_y
                },
                WindowEventData::Other => *final(self) == *old(self),
            },
    {
        match event {
            WindowEventData::Focused(is_focused) => {
                self.focused = *is_focused;
            },
            WindowEventData::KeyboardInput { key_code, state } => {
                match key_code {
                    Some(c) => {
                        let down = match state {
                            ElementStateData::Pressed => true,
                            ElementStateData::Released => false,
                        };
                        bits_set(&mut self.pressed_keys, *c as usize, down);
                    },
                    None => {},
                }
            },
            WindowEventData::CursorMoved { x, y } => {
                self.cursor_x = *x;
                self.cursor_y = *y;
            },
            WindowEventData::MouseWheel { delta } => {
                match delta {
                    MouseScrollDeltaData::PixelDelta { x, y } => {
                        self.scroll_x = fx_clamp(self.scroll_x + *x, -DELTA_LIMIT, DELTA_LIMIT);
                        self.scroll_y = fx_clamp(self.scroll_y + *y, -DELTA_LIMIT, DELTA_LIMIT);
                    },
                    MouseScrollDeltaData::LineDelta { .. } => {},
                }
            },
            WindowEventData::MouseInput { state, button } => {
                let down = match state {
                    ElementStateData::Pressed => true,
                    ElementStateData::Released => false,
                };
                let slot = mouse_button_to_usize(button);
                bits_set(&mut self.pressed_mouse_buttons, slot, down);
            },
            WindowEventData::Other => {},
        }
    }

    /// The mouse delta accumulated since the last tick.
    pub fn get_mouse_delta(&self) -> (r: (i64, i64))
        ensures
            r == (self.mouse_dx, self.mouse_dy),
    {
        (self.mouse_dx, self.mouse_dy)
    }

    /// The scroll delta accumulated since the last tick.
    pub fn get_scroll_delta(&self) -> (r: (i64, i64))
        ensures
            r == (self.scroll_x, self.scroll_y),
    {
        (self.scroll_x, self.scroll_y)
    }

    /// Whether the key with code `key` is currently pressed.
    pub fn key_pressed(&self, key: u32) -> (r: bool)
        requires
            self.wf(),
            key < 256,
        ensures
            r == self.keys()[key as int],
    {
        bits_get(&self.pressed_keys, key as usize)
    }

    /// Zero the per-tick deltas; everything else stays.
    pub fn tick(&mut self)
        requires
            old(self).wf(),
        ensures
            final(self).wf(),
            final(self).scroll_x == 0 && final(self).scroll_y == 0,
            final(self).mouse_dx == 0 && final(self).mouse_dy == 0,
            final(self).focused == old(self).focused,
            final(self).cursor_x == old(self).cursor_x,
            final(self).cursor_y == old(self).cursor_y,
            final(self).keys() == old(self).keys(),
            final(self).buttons() == old(self).buttons(),
    {
        self.scroll_x = 0;
        self.scroll_y = 0;
        self.mouse_dx = 0;
        self.mouse_dy = 0;
    }
}

/// The per-tick system that resets the input deltas after all other
/// systems have read them.
pub struct TickInput;

impl TickInput {
    pub fn run(input: &mut InputResource)
        requires
            old(input).wf(),
        ensures
            final(input).wf(),
            final(input).scroll_x == 0 && final(input).scroll_y == 0,
            final(input).mouse_dx == 0 && final(input).mouse_dy == 0,
            final(input).focused == old(input).focused,
            final(input).keys() == old(input).keys(),
            final(input).buttons() == old(input).buttons(),
    {
        input.tick();
    }
}

} // verus!

//! Simulation state, the reducer that applies directional input to it, the
//! decoding of gamepad and keyboard input, and the pixel renderer.

use vstd::prelude::*;

use crate::wave::MAX_HALF_LEN;

verus! {

/// Directional input for one frame.
#[derive(Clone, Copy, Debug, PartialEq, Eq)]
pub struct Pad {
    pub up: bool,
    pub down: bool,
    pub left: bool,
    pub right: bool,
}

/// State that persists from frame to frame: where the picture is scrolled
/// to, and the half period of the tone in samples.
#[derive(Clone, Copy, Debug, PartialEq, Eq)]
pub struct GameState {
    pub x_offset: i32,
    pub y_offset: i32,
    pub sine_wave_half_len: i32,
}

/// Pixels that one press of left or right scrolls the picture.
pub const SCROLL_STEP: i32 = 5;

impl GameState {
    /// The tone's half period is a usable length.
    pub open spec fn wf(self) -> bool {
        1 <= self.sine_wave_half_len <= MAX_HALF_LEN
    }

    pub fn new() -> (r: GameState)
        ensures
            r.x_offset == 0,
            r.y_offset == 0,
            r.sine_wave_half_len == 30,
            r.wf(),
    {
        GameState { x_offset: 0, y_offset: 0, sine_wave_half_len: 30 }
    }
}

/// Horizontal scroll that the pad asks for.
pub open spec fn spec_x_step(pad: Pad) -> int {
    (if pad.right {
        SCROLL_STEP as int
    } else {
        0
    }) - (if pad.left {
        SCROLL_STEP as int
    } else {
        0
    })
}

/// Change of the half period that the pad asks for.
pub open spec fn spec_half_len_step(pad: Pad) -> int {
    (if pad.up {
        1int
    } else {
        0
    }) - (if pad.down {
        1int
    } else {
        0
    })
}

/// Half period after a net step: the step is added, except that a decrement
/// never takes the half period below one sample.
pub open spec fn spec_next_half_len(half: int, step: int) -> int {
    if step < 0 && half + step < 1 {
        1
    } else {
        half + step
    }
}

/// Applies one frame's input: up lengthens the tone's half period by one
/// sample and down shortens it, never below one sample; left and right
/// scroll the picture by `SCROLL_STEP` pixels.
pub fn update_state(state: &mut GameState, pad: &Pad)
    requires
        i32::MIN <= old(state).x_offset + spec_x_step(*pad) <= i32::MAX,
        old(state).sine_wave_half_len + spec_half_len_step(*pad) <= MAX_HALF_LEN,
    ensures
        final(state).x_offset == old(state).x_offset + spec_x_step(*pad),
        final(state).y_offset == old(state).y_offset,
        final(state).sine_wave_half_len == spec_next_half_len(
            old(state).sine_wave_half_len as int,
            spec_half_len_step(*pad),
        ),
        old(state).wf() ==> final(state).wf(),
{
    let mut step: i64 = 0;
    if pad.up {
        step = step + 1;
    }
    if pad.down {
        step = step - 1;
    }
    let mut half: i64 = state.sine_wave_half_len as i64 + step;
    if step < 0 && half < 1 {
        half = 1;
    }
    state.sine_wave_half_len = half as i32;
    let mut x: i64 = state.x_offset as i64;
    if pad.left {
        x = x - SCROLL_STEP as i64;
    }
    if pad.right {
        x = x + SCROLL_STEP as i64;
    }
    state.x_offset = x as i32;
}

/// Gamepad button masks of the directional pad.
pub const GAMEPAD_DPAD_UP: u16 = 0x0001;
pub const GAMEPAD_DPAD_DOWN: u16 = 0x0002;
pub const GAMEPAD_DPAD_LEFT: u16 = 0x0004;
pub const GAMEPAD_DPAD_RIGHT: u16 = 0x0008;

/// The directions encoded in a gamepad's button bits.
pub open spec fn pad_from_buttons_spec(buttons: u16) -> Pad {
    Pad {
        up: buttons & GAMEPAD_DPAD_UP != 0,
        down: buttons & GAMEPAD_DPAD_DOWN != 0,
        left: buttons & GAMEPAD_DPAD_LEFT != 0,
        right: buttons & GAMEPAD_DPAD_RIGHT != 0,
    }
}

/// Reads the directional pad out of a gamepad's button bits.
pub fn pad_from_buttons(buttons: u16) -> (r: Pad)
    ensures
        r == pad_from_buttons_spec(buttons),
{
    Pad {
        up: buttons & GAMEPAD_DPAD_UP != 0,
        down: buttons & GAMEPAD_DPAD_DOWN != 0,
        left: buttons & GAMEPAD_DPAD_LEFT != 0,
        right: buttons & GAMEPAD_DPAD_RIGHT != 0,
    }
}

/// Takes a gamepad snapshot. The pad counts as changed only when its packet
/// number differs from the last one seen; then the new directions are
/// returned and the packet number is remembered.
pub fn gamepad_update(last_packet: &mut u32, packet: u32, buttons: u16) -> (r: Option<Pad>)
    ensures
        r.is_some() == (packet != *old(last_packet)),
        r.is_some() ==> r == Some(pad_from_buttons_spec(buttons)),
        *final(last_packet) == packet,
{
    if packet != *last_packet {
        *last_packet = packet;
        Some(pad_from_buttons(buttons))
    } else {
        None
    }
}

/// Virtual-key codes of the keys that stand in for the directional pad.
pub const KEY_UP: i32 = 0x57;
pub const KEY_DOWN: i32 = 0x53;
pub const KEY_LEFT: i32 = 0x41;
pub const KEY_RIGHT: i32 = 0x44;

/// A key is held down when the high bit of its reported state is set, that
/// is, when the state is negative.
pub fn key_is_down(key_state: i16) -> (r: bool)
    ensures
        r == (key_state < 0),
{
    key_state < 0
}

/// Builds the directions from the states of the four keys that stand in for
/// the pad.
pub fn pad_from_keys(up: i16, down: i16, left: i16, right: i16) -> (r: Pad)
    ensures
        r == (Pad { up: up < 0, down: down < 0, left: left < 0, right: right < 0 }),
{
    Pad {
        up: key_is_down(up),
        down: key_is_down(down),
        left: key_is_down(left),
        right: key_is_down(right),
    }
}

} // verus!

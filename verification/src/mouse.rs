//! Mouse input decoding. The device hands out fixed-size records of a
//! button bitmask and two signed one-byte movements; this module turns one
//! record and the previous state into the next state. Reading the device is
//! done outside the crate.

use vstd::prelude::*;

verus! {

/// The cursor state: a position that never goes below zero, and the three
/// button-down flags decoded from the last record's bitmask.
#[derive(Clone, Copy, PartialEq, Eq, Structural, Debug)]
pub struct MouseState {
    pub x: u32,
    pub y: u32,
    pub left_down: bool,
    pub middle_down: bool,
    pub right_down: bool,
}

/// A coordinate moved by a delta, kept within the unsigned range: clamped
/// to zero below and to the largest coordinate above.
pub open spec fn moved(pos: int, delta: int) -> int {
    if pos + delta < 0 {
        0
    } else if pos + delta > u32::MAX {
        u32::MAX as int
    } else {
        pos + delta
    }
}

impl MouseState {
    /// The state before any record arrived: the cursor parked at (10, 10),
    /// no button down.
    pub fn start() -> (s: MouseState)
        ensures
            s == (MouseState { x: 10u32, y: 10u32, left_down: false, middle_down: false, right_down: false }),
    {
        MouseState { x: 10, y: 10, left_down: false, middle_down: false, right_down: false }
    }

    /// Applies one record: the movement is added to the position, which is
    /// clamped rather than wrapped; bit 2 of the bitmask is the left
    /// button, bit 1 the middle, bit 0 the right.
    pub fn apply_event(&self, button: u8, dx: i8, dy: i8) -> (r: MouseState)
        ensures
            r.x == moved(self.x as int, dx as int),
            r.y == moved(self.y as int, dy as int),
            r.left_down == ((button & 4) != 0),
            r.middle_down == ((button & 2) != 0),
            r.right_down == ((button & 1) != 0),
    {
        let nx: i64 = self.x as i64 + dx as i64;
        let ny: i64 = self.y as i64 + dy as i64;
        let x: u32 = if nx < 0 {
            0
        } else if nx > u32::MAX as i64 {
            u32::MAX
        } else {
            nx as u32
        };
        let y: u32 = if ny < 0 {
            0
        } else if ny > u32::MAX as i64 {
            u32::MAX
        } else {
            ny as u32
        };
        MouseState {
            x,
            y,
            left_down: (button & 4) != 0,
            middle_down: (button & 2) != 0,
            right_down: (button & 1) != 0,
        }
    }
}

} // verus!

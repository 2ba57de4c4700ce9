use vstd::prelude::*;

verus! {

/// The movement keys held down this frame.
#[derive(Clone, Copy, Debug, PartialEq, Eq, Structural)]
pub struct MoveKeys {
    pub left: bool,
    pub right: bool,
    pub up: bool,
    pub down: bool,
    pub sprint: bool,
}

pub open spec fn b2i(b: bool) -> int {
    if b {
        1
    } else {
        0
    }
}

/// Walking speed in percent of the base speed: sprinting adds thirty percent.
pub fn speed_percent(keys: MoveKeys) -> (r: u32)
    ensures
        r == (if keys.sprint {
            130u32
        } else {
            100u32
        }),
{
    if keys.sprint {
        130
    } else {
        100
    }
}

/// The direction of travel on the ground plane as `(dx, dz)`, in units of the
/// current speed. The view is isometric: left is `(+1, -1)`, right `(-1, +1)`,
/// up `(+1, +1)` and down `(-1, -1)`, and held keys add up.
pub fn movement_direction(keys: MoveKeys) -> (r: (i32, i32))
    ensures
        r.0 == b2i(keys.left) - b2i(keys.right) + b2i(keys.up) - b2i(keys.down),
        r.1 == -b2i(keys.left) + b2i(keys.right) + b2i(keys.up) - b2i(keys.down),
{
    let mut dx: i32 = 0;
    let mut dz: i32 = 0;
    if keys.left {
        dx = dx + 1;
        dz = dz - 1;
    }
    if keys.right {
        dx = dx - 1;
        dz = dz + 1;
    }
    if keys.up {
        dx = dx + 1;
        dz = dz + 1;
    }
    if keys.down {
        dz = dz - 1;
        dx = dx - 1;
    }
    (dx, dz)
}

/// Which way the walking animation faces.
#[derive(Clone, Copy, Debug, PartialEq, Eq, Structural)]
pub enum Facing {
    Still,
    Left,
    Right,
    Down,
    Up,
}

/// The facing of the first held key among left, right, down and up, in that order.
pub fn facing(keys: MoveKeys) -> (r: Facing)
    ensures
        r == (if keys.left {
            Facing::Left
        } else if keys.right {
            Facing::Right
        } else if keys.down {
            Facing::Down
        } else if keys.up {
            Facing::Up
        } else {
            Facing::Still
        }),
{
    if keys.left {
        Facing::Left
    } else if keys.right {
        Facing::Right
    } else if keys.down {
        Facing::Down
    } else if keys.up {
        Facing::Up
    } else {
        Facing::Still
    }
}

pub open spec fn frame_range_spec(f: Facing) -> (usize, usize) {
    match f {
        Facing::Still => (0, 0),
        Facing::Down => (0, 4),
        Facing::Right => (5, 9),
        Facing::Left => (10, 14),
        Facing::Up => (15, 19),
    }
}

/// The first and last frame, inclusive, of the sprite sheet's run for a facing.
pub fn frame_range(f: Facing) -> (r: (usize, usize))
    ensures
        r == frame_range_spec(f),
{
    match f {
        Facing::Still => (0, 0),
        Facing::Down => (0, 4),
        Facing::Right => (5, 9),
        Facing::Left => (10, 14),
        Facing::Up => (15, 19),
    }
}

/// How long each animation frame lasts, in milliseconds: shorter while sprinting.
pub fn frame_millis(keys: MoveKeys) -> (r: u64)
    ensures
        r == (if keys.sprint {
            100u64
        } else {
            125u64
        }),
{
    if keys.sprint {
        100
    } else {
        125
    }
}

pub open spec fn any_direction(keys: MoveKeys) -> bool {
    keys.left || keys.right || keys.up || keys.down
}

/// The frame shown after this one.
pub open spec fn next_frame_spec(
    active: bool,
    keys: MoveKeys,
    timer_finished: bool,
    index: usize,
    atlas_len: usize,
) -> int {
    if !active || !any_direction(keys) {
        0
    } else if !timer_finished {
        index as int
    } else {
        let (lo, hi) = frame_range_spec(
            if keys.left {
                Facing::Left
            } else if keys.right {
                Facing::Right
            } else if keys.down {
                Facing::Down
            } else {
                Facing::Up
            },
        );
        let n = index + 1;
        if n < lo || n > hi || n >= atlas_len {
            lo as int
        } else {
            n
        }
    }
}

/// The sprite frame for the coming frame. A locked player, or one holding no
/// movement key, shows frame 0. Otherwise the frame steps forward each time the
/// frame timer finishes, wrapping to the start of the facing's run when it would
/// leave that run or the sprite sheet.
pub fn next_frame(
    active: bool,
    keys: MoveKeys,
    timer_finished: bool,
    index: usize,
    atlas_len: usize,
) -> (r: usize)
    ensures
        r == next_frame_spec(active, keys, timer_finished, index, atlas_len),
{
    if !active {
        return 0;
    }
    if !(keys.left || keys.right || keys.up || keys.down) {
        return 0;
    }
    if !timer_finished {
        return index;
    }
    let (lo, hi) = frame_range(facing(keys));
    if index >= hi {
        return lo;
    }
    let n = index + 1;
    if n < lo || n >= atlas_len {
        lo
    } else {
        n
    }
}

} // verus!

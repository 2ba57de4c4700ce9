use vstd::prelude::*;

verus! {

/// The floor spans cells `-FLOOR_HALF_EXTENT .. FLOOR_HALF_EXTENT` along both axes.
pub const FLOOR_HALF_EXTENT: i32 = 20;

/// The wall is this many blocks high.
pub const WALL_HEIGHT: i32 = 7;

/// The doorway cut into the wall: three blocks either side of its middle, from
/// the first block above the floor up to the fifth.
pub open spec fn door_opening(y: int, z: int) -> bool {
    -3 <= z <= 3 && 1 <= y <= 5
}

/// The cells `(y, z)` of the wall's face, row by row.
pub open spec fn wall_face(y: int, z: int) -> bool {
    0 <= y < WALL_HEIGHT && -FLOOR_HALF_EXTENT <= z < FLOOR_HALF_EXTENT
}

/// Whether the wall has a block at height `y` and lateral position `z`.
pub fn is_wall_block(y: i32, z: i32) -> (r: bool)
    ensures
        r == !door_opening(y as int, z as int),
{
    !(z >= -3 && z <= 3 && y >= 1 && y <= 5)
}

/// Every block of the wall, as `(y, z)`: the cells of its face outside the doorway.
pub fn wall_cells() -> (r: Vec<(i32, i32)>)
    ensures
        forall|c: (i32, i32)|
            r@.contains(c) <==> wall_face(c.0 as int, c.1 as int) && !door_opening(
                c.0 as int,
                c.1 as int,
            ),
{
    let mut r: Vec<(i32, i32)> = Vec::new();
    let mut y: i32 = 0;
    while y < WALL_HEIGHT
        invariant
            0 <= y <= WALL_HEIGHT,
            forall|c: (i32, i32)|
                r@.contains(c) <==> wall_face(c.0 as int, c.1 as int) && c.0 < y && !door_opening(
                    c.0 as int,
                    c.1 as int,
                ),
        decreases WALL_HEIGHT - y,
    {
        let mut z: i32 = -FLOOR_HALF_EXTENT;
        while z < FLOOR_HALF_EXTENT
            invariant
                0 <= y < WALL_HEIGHT,
                -FLOOR_HALF_EXTENT <= z <= FLOOR_HALF_EXTENT,
                forall|c: (i32, i32)|
                    r@.contains(c) <==> wall_face(c.0 as int, c.1 as int) && (c.0 < y || (c.0
                        == y && c.1 < z)) && !door_opening(c.0 as int, c.1 as int),
            decreases FLOOR_HALF_EXTENT - z,
        {
            if is_wall_block(y, z) {
                let ghost before = r@;
                r.push((y, z));
                assert forall|c: (i32, i32)| #[trigger] r@.contains(c) == (before.contains(c) || c
                    == (y, z)) by {
                    if c == (y, z) {
                        assert(r@[before.len() as int] == c);
                    } else if before.contains(c) {
                        let k = choose|k: int| 0 <= k < before.len() && before[k] == c;
                        assert(r@[k] == c);
                    }
                    if r@.contains(c) {
                        let k = choose|k: int| 0 <= k < r@.len() && r@[k] == c;
                        if k < before.len() {
                            assert(before[k] == c);
                        }
                    }
                }
            }
            z = z + 1;
        }
        y = y + 1;
    }
    r
}

} // verus!

//! The voxels the world starts with: a grass floor and a few bricks.

use vstd::prelude::*;
use crate::material::{FULL_BRICK, GRASS, SNOWY_BRICK};
use crate::voxel::{VoxelCoord, VoxelWrite};

verus! {

/// Side length of the square floor.
pub const FLOOR_SIDE: u32 = 20;

/// The `k`-th floor voxel: rows along x, from -10 to 9, each row running
/// along z from -10 to 9, one unit below the origin.
pub open spec fn floor_write(k: int) -> VoxelWrite {
    VoxelWrite {
        coord: VoxelCoord { x: (k / 20 - 10) as i32, y: -1i32, z: (k % 20 - 10) as i32 },
        material: GRASS,
    }
}

/// A solid voxel of `material` at `(x, y, z)`.
pub open spec fn brick(x: i32, y: i32, z: i32, material: u8) -> VoxelWrite {
    VoxelWrite { coord: VoxelCoord { x, y, z }, material }
}

/// The bricks placed on the floor, in order.
pub open spec fn brick_writes() -> Seq<VoxelWrite> {
    seq![
        brick(0i32, 0i32, 0i32, SNOWY_BRICK),
        brick(1i32, 0i32, 0i32, SNOWY_BRICK),
        brick(0i32, 0i32, 1i32, SNOWY_BRICK),
        brick(0i32, 0i32, -1i32, SNOWY_BRICK),
        brick(-1i32, 0i32, 0i32, FULL_BRICK),
        brick(-2i32, 0i32, 0i32, FULL_BRICK),
        brick(-1i32, 1i32, 0i32, SNOWY_BRICK),
        brick(-2i32, 1i32, 0i32, SNOWY_BRICK),
        brick(0i32, 1i32, 0i32, SNOWY_BRICK),
    ]
}

fn push_brick(out: &mut Vec<VoxelWrite>, x: i32, y: i32, z: i32, material: u8)
    ensures
        final(out)@ == old(out)@.push(VoxelWrite { coord: VoxelCoord { x, y, z }, material }),
{
    out.push(VoxelWrite { coord: VoxelCoord { x, y, z }, material });
}

/// The writes that build the starting scene: the 400 floor voxels in row
/// order, then the bricks.
pub fn initial_scene() -> (r: Vec<VoxelWrite>)
    ensures
        r@.len() == 400 + brick_writes().len(),
        forall|k: int| 0 <= k < 400 ==> #[trigger] r@[k] == floor_write(k),
        r@.subrange(400, r@.len() as int) == brick_writes(),
{
    let mut r: Vec<VoxelWrite> = Vec::new();
    let mut x: i32 = -10;
    while x < 10
        invariant
            -10 <= x <= 10,
            r@.len() == (x + 10) * 20,
            forall|k: int| 0 <= k < r@.len() ==> #[trigger] r@[k] == floor_write(k),
        decreases 10 - x,
    {
        let mut z: i32 = -10;
        while z < 10
            invariant
                -10 <= x < 10,
                -10 <= z <= 10,
                r@.len() == (x + 10) * 20 + (z + 10),
                forall|k: int| 0 <= k < r@.len() ==> #[trigger] r@[k] == floor_write(k),
            decreases 10 - z,
        {
            proof {
                let k = (x + 10) * 20 + (z + 10);
                assert(k / 20 == x + 10 && k % 20 == z + 10) by (nonlinear_arith)
                    requires
                        k == (x + 10) * 20 + (z + 10),
                        0 <= z + 10 < 20,
                ;
            }
            r.push(VoxelWrite { coord: VoxelCoord { x, y: -1, z }, material: GRASS });
            z += 1;
        }
        x += 1;
    }
    push_brick(&mut r, 0, 0, 0, SNOWY_BRICK);
    push_brick(&mut r, 1, 0, 0, SNOWY_BRICK);
    push_brick(&mut r, 0, 0, 1, SNOWY_BRICK);
    push_brick(&mut r, 0, 0, -1, SNOWY_BRICK);
    push_brick(&mut r, -1, 0, 0, FULL_BRICK);
    push_brick(&mut r, -2, 0, 0, FULL_BRICK);
    push_brick(&mut r, -1, 1, 0, SNOWY_BRICK);
    push_brick(&mut r, -2, 1, 0, SNOWY_BRICK);
    push_brick(&mut r, 0, 1, 0, SNOWY_BRICK);
    assert(r@.subrange(400, r@.len() as int) =~= brick_writes());
    r
}

/// The voxel a click places: a full brick in the cell the cursor marks.
pub fn brick_at_cursor(cursor: VoxelCoord) -> (r: VoxelWrite)
    ensures
        r == brick(cursor.x, cursor.y, cursor.z, FULL_BRICK),
{
    VoxelWrite { coord: cursor, material: FULL_BRICK }
}

} // verus!

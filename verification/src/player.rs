//! The player state machine: an integer cell position plus a facing
//! (one of four cardinal directions, 90-degree steps clockwise from
//! direction 0 = "north" = decreasing `y`), and the projector that
//! rotates player-local offsets into world cells.
//!
//! Every movement operation computes a candidate destination and commits
//! only if the destination is in bounds and not a wall; an illegal move is
//! silently ignored. Turning in place always succeeds.

use vstd::prelude::*;

use crate::map::AtlasMap;

verus! {

/// A cell position on the grid, in world coordinates.
#[derive(Clone, Copy, Debug, PartialEq, Eq, Structural)]
pub struct GridPos {
    pub x: i32,
    pub y: i32,
}

/// The player: position in cells and facing in quarter turns.
#[derive(Clone, Copy, Debug, PartialEq, Eq, Structural)]
pub struct Player {
    pub x: i32,
    pub y: i32,
    pub direction: i32,
}

/// Turning left is one quarter turn counter-clockwise.
pub open spec fn spec_turn_left(d: int) -> int {
    (d + 3) % 4
}

/// Turning right is one quarter turn clockwise.
pub open spec fn spec_turn_right(d: int) -> int {
    (d + 1) % 4
}

/// The opposite facing.
pub open spec fn spec_invert_direction(d: int) -> int {
    (d + 2) % 4
}

/// A move to `(x, y)` is legal when the cell is on the map and free of wall.
pub open spec fn spec_can_move(map: &AtlasMap, x: int, y: int) -> bool {
    map.spec_in_bounds(x, y) && map.spec_wall(x, y) == 0
}

impl Player {
    /// The facing is one of the four cardinal directions.
    pub open spec fn dir_wf(&self) -> bool {
        0 <= self.direction < 4
    }

    /// A well-formed player state: legal facing and in-bounds position.
    pub open spec fn wf(&self, map: &AtlasMap) -> bool {
        self.dir_wf() && map.spec_in_bounds(self.x as int, self.y as int)
    }

    /// The projector: rotates a local offset (`x` lateral, `z` forward,
    /// with negative `z` ahead of the viewer) into world coordinates
    /// according to the facing, re-centered at the player.
    pub open spec fn spec_local_to_world(&self, x: int, z: int) -> (int, int) {
        if self.direction == 0 {
            (self.x + x, self.y + z)
        } else if self.direction == 1 {
            (self.x - z, self.y + x)
        } else if self.direction == 2 {
            (self.x - x, self.y - z)
        } else {
            (self.x + z, self.y - x)
        }
    }

    /// The offsets a local-to-world projection adds stay inside `i32`.
    pub open spec fn offsets_fit(&self, x: int, z: int) -> bool {
        &&& i32::MIN <= self.x + x <= i32::MAX
        &&& i32::MIN <= self.x - x <= i32::MAX
        &&& i32::MIN <= self.x + z <= i32::MAX
        &&& i32::MIN <= self.x - z <= i32::MAX
        &&& i32::MIN <= self.y + x <= i32::MAX
        &&& i32::MIN <= self.y - x <= i32::MAX
        &&& i32::MIN <= self.y + z <= i32::MAX
        &&& i32::MIN <= self.y - z <= i32::MAX
    }

    /// The rotation primitive shared by rendering: world cell of the local
    /// offset (`x` lateral, `z` forward) under the current facing.
    pub fn get_direction_vector_offsets(&self, x: i32, z: i32) -> (p: GridPos)
        requires
            self.dir_wf(),
            self.offsets_fit(x as int, z as int),
        ensures
            (p.x as int, p.y as int) == self.spec_local_to_world(x as int, z as int),
    {
        if self.direction == 0 {
            GridPos { x: self.x + x, y: self.y + z }
        } else if self.direction == 1 {
            GridPos { x: self.x - z, y: self.y + x }
        } else if self.direction == 2 {
            GridPos { x: self.x - x, y: self.y - z }
        } else {
            GridPos { x: self.x + z, y: self.y - x }
        }
    }

    /// One cell ahead in the given direction: the unit steps are
    /// `(0,-1), (1,0), (0,1), (-1,0)` for directions `0..4`.
    pub open spec fn spec_dest_pos(&self, direction: int) -> (int, int) {
        let dx: int = if direction == 1 { 1 } else if direction == 3 { -1 } else { 0 };
        let dy: int = if direction == 0 { -1 } else if direction == 2 { 1 } else { 0 };
        (self.x + dx, self.y + dy)
    }

    /// Candidate destination one step from the player in `direction`.
    pub fn get_dest_pos(&self, direction: i32) -> (p: GridPos)
        requires
            0 <= direction < 4,
            i32::MIN < self.x < i32::MAX,
            i32::MIN < self.y < i32::MAX,
        ensures
            (p.x as int, p.y as int) == self.spec_dest_pos(direction as int),
    {
        let dx: i32 = if direction == 1 { 1 } else if direction == 3 { -1 } else { 0 };
        let dy: i32 = if direction == 0 { -1 } else if direction == 2 { 1 } else { 0 };
        GridPos { x: self.x + dx, y: self.y + dy }
    }

    /// The movement legality test: conjunction of the bounds check and the
    /// wall check, exactly as every movement operation applies it.
    pub fn can_move(&self, map: &AtlasMap, pos: GridPos) -> (r: bool)
        requires
            map.wf(),
        ensures
            r == spec_can_move(map, pos.x as int, pos.y as int),
    {
        map.in_bounds(pos.x, pos.y) && map.wall_value(pos.x, pos.y) == 0
    }

    /// The opposite of the current facing.
    pub fn invert_direction(&self) -> (d: i32)
        requires
            self.dir_wf(),
        ensures
            d as int == spec_invert_direction(self.direction as int),
            0 <= d < 4,
    {
        (self.direction + 2) % 4
    }

    /// The player state after attempting one step in `direction`: moved to
    /// the destination if it is in bounds and wall-free, else unchanged.
    pub open spec fn spec_step(self, map: &AtlasMap, direction: int) -> Player {
        let dest = self.spec_dest_pos(direction);
        if spec_can_move(map, dest.0, dest.1) {
            Player { x: dest.0 as i32, y: dest.1 as i32, direction: self.direction }
        } else {
            self
        }
    }

    /// Steps one cell in the facing direction if the destination is legal;
    /// a blocked or out-of-bounds destination leaves the player unchanged.
    pub fn move_forward(&mut self, map: &AtlasMap)
        requires
            map.wf(),
            old(self).wf(map),
        ensures
            *final(self) == old(self).spec_step(map, old(self).direction as int),
            final(self).direction == old(self).direction,
            final(self).wf(map),
            !spec_can_move(
                map,
                old(self).spec_dest_pos(old(self).direction as int).0,
                old(self).spec_dest_pos(old(self).direction as int).1,
            ) ==> *final(self) == *old(self),
    {
        let dest_pos = self.get_dest_pos(self.direction);
        if self.can_move(map, dest_pos) {
            self.x = dest_pos.x;
            self.y = dest_pos.y;
        }
    }

    /// Steps one cell opposite to the facing direction under the same
    /// legality rule as `move_forward`.
    pub fn move_backward(&mut self, map: &AtlasMap)
        requires
            map.wf(),
            old(self).wf(map),
        ensures
            *final(self) == old(self).spec_step(
                map,
                spec_invert_direction(old(self).direction as int),
            ),
            final(self).direction == old(self).direction,
            final(self).wf(map),
    {
        let dest_pos = self.get_dest_pos(self.invert_direction());
        if self.can_move(map, dest_pos) {
            self.x = dest_pos.x;
            self.y = dest_pos.y;
        }
    }

    /// Steps one cell to the left of the facing direction under the same
    /// legality rule as `move_forward`.
    pub fn strafe_left(&mut self, map: &AtlasMap)
        requires
            map.wf(),
            old(self).wf(map),
        ensures
            *final(self) == old(self).spec_step(
                map,
                spec_turn_left(old(self).direction as int),
            ),
            final(self).direction == old(self).direction,
            final(self).wf(map),
    {
        let mut direction = self.direction - 1;
        if direction < 0 {
            direction = 3;
        }
        let dest_pos = self.get_dest_pos(direction);
        if self.can_move(map, dest_pos) {
            self.x = dest_pos.x;
            self.y = dest_pos.y;
        }
    }

    /// Steps one cell to the right of the facing direction under the same
    /// legality rule as `move_forward`.
    pub fn strafe_right(&mut self, map: &AtlasMap)
        requires
            map.wf(),
            old(self).wf(map),
        ensures
            *final(self) == old(self).spec_step(
                map,
                spec_turn_right(old(self).direction as int),
            ),
            final(self).direction == old(self).direction,
            final(self).wf(map),
    {
        let direction = (self.direction + 1) % 4;
        let dest_pos = self.get_dest_pos(direction);
        if self.can_move(map, dest_pos) {
            self.x = dest_pos.x;
            self.y = dest_pos.y;
        }
    }

    /// Quarter turn counter-clockwise; always succeeds, position unchanged.
    pub fn turn_left(&mut self)
        requires
            old(self).dir_wf(),
        ensures
            final(self).direction as int == spec_turn_left(old(self).direction as int),
            final(self).x == old(self).x,
            final(self).y == old(self).y,
            final(self).dir_wf(),
    {
        self.direction = self.direction - 1;
        if self.direction < 0 {
            self.direction = 3;
        }
    }

    /// Quarter turn clockwise; always succeeds, position unchanged.
    pub fn turn_right(&mut self)
        requires
            old(self).dir_wf(),
        ensures
            final(self).direction as int == spec_turn_right(old(self).direction as int),
            final(self).x == old(self).x,
            final(self).y == old(self).y,
            final(self).dir_wf(),
    {
        self.direction = self.direction + 1;
        if self.direction > 3 {
            self.direction = 0;
        }
    }
}

/// Turn closure: a left turn then a right turn (and the reverse) restores
/// the facing, and four right turns restore the facing.
pub proof fn lemma_turn_closure(d: int)
    requires
        0 <= d < 4,
    ensures
        spec_turn_right(spec_turn_left(d)) == d,
        spec_turn_left(spec_turn_right(d)) == d,
        spec_turn_right(spec_turn_right(spec_turn_right(spec_turn_right(d)))) == d,
{
}

/// Rotation consistency: the projection of the local origin is the player's
/// own position, whatever the facing.
pub proof fn lemma_local_origin(p: &Player)
    requires
        p.dir_wf(),
    ensures
        p.spec_local_to_world(0, 0) == (p.x as int, p.y as int),
{
}

} // verus!

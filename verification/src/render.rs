//! The scene renderer: walks the player-relative visibility window in the
//! occlusion-correct order (farthest row first; within a row the left half
//! outside-in, then the right half outside-in), asks the map which layers
//! are present in each visited cell, projects the cell into world space,
//! resolves tiles against the atlas store, and emits an ordered list of
//! textured-rectangle draw operations for the presentation layer.

use vstd::prelude::*;

use vstd::string::StringExecFns;

use crate::atlas::AtlasCollection;
use crate::atlas::Coords;
use crate::map::AtlasMap;
use crate::player::Player;

verus! {

/// Largest render window span (depth or width) the world accepts; keeps
/// every projected coordinate comfortably inside `i32`.
pub const MAX_RENDER_SPAN: i32 = 0x4000;

/// One draw operation: paint `source` from the sheet of the named atlas
/// onto the `dest` rectangle of the output surface.
#[derive(Debug, PartialEq, Eq)]
pub struct DrawOp {
    pub atlas_id: String,
    pub source: Coords,
    pub dest: Coords,
}

/// The mathematical value of a draw operation: the atlas id as a character
/// sequence plus the two rectangles.
#[verifier::ext_equal]
pub ghost struct DrawOpV {
    pub atlas_id: Seq<char>,
    pub source: Coords,
    pub dest: Coords,
}

impl View for DrawOp {
    type V = DrawOpV;

    open spec fn view(&self) -> DrawOpV {
        DrawOpV { atlas_id: self.atlas_id@, source: self.source, dest: self.dest }
    }
}

/// The values of a sequence of draw operations.
pub open spec fn ops_view(ops: Seq<DrawOp>) -> Seq<DrawOpV> {
    ops.map_values(|op: DrawOp| op@)
}

/// The character of one decimal digit.
pub open spec fn spec_digit_char(d: int) -> char {
    if d == 0 {
        '0'
    } else if d == 1 {
        '1'
    } else if d == 2 {
        '2'
    } else if d == 3 {
        '3'
    } else if d == 4 {
        '4'
    } else if d == 5 {
        '5'
    } else if d == 6 {
        '6'
    } else if d == 7 {
        '7'
    } else if d == 8 {
        '8'
    } else {
        '9'
    }
}

/// The decimal digits of a byte value, most significant first, without
/// leading zeros.
pub open spec fn spec_decimal_chars(v: int) -> Seq<char> {
    if v < 10 {
        seq![spec_digit_char(v)]
    } else if v < 100 {
        seq![spec_digit_char(v / 10), spec_digit_char(v % 10)]
    } else {
        seq![spec_digit_char(v / 100), spec_digit_char((v / 10) % 10), spec_digit_char(v % 10)]
    }
}

/// The name of the atlas layer for a base name and a variant selector:
/// the base followed by the selector in decimal.
pub open spec fn spec_layer_label(base: Seq<char>, v: int) -> Seq<char> {
    base + spec_decimal_chars(v)
}

fn digit_str(d: u8) -> (r: &'static str)
    requires
        d < 10,
    ensures
        r@ == seq![spec_digit_char(d as int)],
{
    proof {
        reveal_strlit("0");
        reveal_strlit("1");
        reveal_strlit("2");
        reveal_strlit("3");
        reveal_strlit("4");
        reveal_strlit("5");
        reveal_strlit("6");
        reveal_strlit("7");
        reveal_strlit("8");
        reveal_strlit("9");
    }
    match d {
        0 => "0",
        1 => "1",
        2 => "2",
        3 => "3",
        4 => "4",
        5 => "5",
        6 => "6",
        7 => "7",
        8 => "8",
        _ => "9",
    }
}

/// Builds the layer name queried for a variant selector, e.g. a base of
/// `"wall-"` and a selector of `2` give `"wall-2"`. Formatting happens only
/// here, at the storage boundary; the rest of the logic passes the parts.
pub fn layer_name(base: &str, value: u8) -> (r: String)
    ensures
        r@ == spec_layer_label(base@, value as int),
{
    let mut s: String = base.to_owned();
    if value >= 100 {
        s.append(digit_str(value / 100));
        s.append(digit_str((value / 10) % 10));
        s.append(digit_str(value % 10));
    } else if value >= 10 {
        s.append(digit_str(value / 10));
        s.append(digit_str(value % 10));
    } else {
        s.append(digit_str(value));
    }
    proof {
        assert(s@ =~= spec_layer_label(base@, value as int));
    }
    s
}

/// The draw operations one tile query contributes: a single operation when
/// the query resolves, none when it does not.
pub open spec fn spec_layer_ops(
    c: &AtlasCollection,
    atlas_id: Seq<char>,
    layer_id: Seq<char>,
    x: int,
    z: int,
    o: Option<Seq<char>>,
) -> Seq<DrawOpV> {
    match c.spec_resolve(atlas_id, layer_id, x, z, o) {
        Some(t) => seq![
            DrawOpV { atlas_id: atlas_id, source: t.atlas_coords, dest: t.screen_coords },
        ],
        None => Seq::empty(),
    }
}

/// The orientation tag under which a movable object is drawn: it depends on
/// the player's own facing, so the sprite shows the side the player sees.
pub open spec fn spec_object_orientation(direction: int) -> Seq<char> {
    if direction == 0 {
        "front"@
    } else if direction == 1 {
        "right"@
    } else if direction == 2 {
        "back"@
    } else {
        "left"@
    }
}

/// The world: player, map, atlas store and the render window extents.
pub struct AtlasWorld {
    pub player: Player,
    pub map: AtlasMap,
    pub collection: AtlasCollection,
    pub render_depth: i32,
    pub render_width: i32,
}

impl AtlasWorld {
    /// A well-formed world: well-formed map, well-formed in-bounds player,
    /// and render window extents that are non-negative and bounded.
    pub open spec fn wf(&self) -> bool {
        &&& self.map.wf()
        &&& self.player.wf(&self.map)
        &&& 0 <= self.render_depth <= MAX_RENDER_SPAN
        &&& 0 <= self.render_width <= MAX_RENDER_SPAN
    }

    /// The window offsets the renderer may visit.
    pub open spec fn offset_in_span(x: int, z: int) -> bool {
        &&& -MAX_RENDER_SPAN <= x <= MAX_RENDER_SPAN
        &&& -MAX_RENDER_SPAN <= z <= MAX_RENDER_SPAN
    }

    /// The draw operations of the floor at a visited cell: one tile query
    /// against the `"floor-{value}"` layer when the floor value is nonzero.
    pub open spec fn spec_floor_ops(&self, x: int, z: int) -> Seq<DrawOpV> {
        let p = self.player.spec_local_to_world(x, z);
        if self.map.spec_in_bounds(p.0, p.1) && self.map.spec_floor(p.0, p.1) != 0 {
            spec_layer_ops(
                &self.collection,
                "dungeon"@,
                spec_layer_label("floor-"@, self.map.spec_floor(p.0, p.1) as int),
                x,
                z,
                None,
            )
        } else {
            Seq::empty()
        }
    }

    /// The draw operations of the ceiling at a visited cell.
    pub open spec fn spec_ceiling_ops(&self, x: int, z: int) -> Seq<DrawOpV> {
        let p = self.player.spec_local_to_world(x, z);
        if self.map.spec_in_bounds(p.0, p.1) && self.map.spec_ceiling(p.0, p.1) != 0 {
            spec_layer_ops(
                &self.collection,
                "dungeon"@,
                spec_layer_label("ceiling-"@, self.map.spec_ceiling(p.0, p.1) as int),
                x,
                z,
                None,
            )
        } else {
            Seq::empty()
        }
    }

    /// The draw operations of the side walls at a visited wall cell: the
    /// `"left"` face then the `"right"` face, both attempted independently.
    pub open spec fn spec_side_wall_ops(&self, x: int, z: int) -> Seq<DrawOpV> {
        let p = self.player.spec_local_to_world(x, z);
        if self.map.spec_in_bounds(p.0, p.1) && self.map.spec_wall(p.0, p.1) != 0 {
            let layer = spec_layer_label("wall-"@, self.map.spec_wall(p.0, p.1) as int);
            spec_layer_ops(&self.collection, "dungeon"@, layer, x, z, Some("left"@))
                + spec_layer_ops(&self.collection, "dungeon"@, layer, x, z, Some("right"@))
        } else {
            Seq::empty()
        }
    }

    /// The draw operations of the front wall face at a visited wall cell;
    /// emitted after the side faces so the nearer face overdraws any seam.
    pub open spec fn spec_front_wall_ops(&self, x: int, z: int) -> Seq<DrawOpV> {
        let p = self.player.spec_local_to_world(x, z);
        if self.map.spec_in_bounds(p.0, p.1) && self.map.spec_wall(p.0, p.1) != 0 {
            let layer = spec_layer_label("wall-"@, self.map.spec_wall(p.0, p.1) as int);
            spec_layer_ops(&self.collection, "dungeon"@, layer, x, z, Some("front"@))
        } else {
            Seq::empty()
        }
    }

    /// The draw operations of the object at a visited cell: one query
    /// against the `"object-{value}"` layer of the `"common_objects"` atlas,
    /// oriented by the player's facing.
    pub open spec fn spec_object_ops(&self, x: int, z: int) -> Seq<DrawOpV> {
        let p = self.player.spec_local_to_world(x, z);
        if self.map.spec_in_bounds(p.0, p.1) && self.map.spec_object(p.0, p.1) != 0 {
            spec_layer_ops(
                &self.collection,
                "common_objects"@,
                spec_layer_label("object-"@, self.map.spec_object(p.0, p.1) as int),
                x,
                z,
                Some(spec_object_orientation(self.player.direction as int)),
            )
        } else {
            Seq::empty()
        }
    }

    /// Everything one visited cell contributes, in emission order: floor,
    /// ceiling, side walls, front wall, object; an out-of-bounds projected
    /// cell contributes nothing.
    pub open spec fn spec_cell_ops(&self, x: int, z: int) -> Seq<DrawOpV> {
        let p = self.player.spec_local_to_world(x, z);
        if self.map.spec_in_bounds(p.0, p.1) {
            self.spec_floor_ops(x, z) + self.spec_ceiling_ops(x, z) + self.spec_side_wall_ops(
                x,
                z,
            ) + self.spec_front_wall_ops(x, z) + self.spec_object_ops(x, z)
        } else {
            Seq::empty()
        }
    }

    /// Half the render window width: the window spans lateral offsets
    /// `-half .. half` inclusive.
    pub open spec fn spec_half_width(&self) -> int {
        self.render_width as int / 2
    }

    /// The first `n` cells of the left half of the row at forward offset
    /// `z`: lateral offsets from `-half` rightward, excluding the center.
    pub open spec fn spec_row_left_ops(&self, z: int, n: int) -> Seq<DrawOpV>
        decreases n,
    {
        if n <= 0 {
            Seq::empty()
        } else {
            self.spec_row_left_ops(z, n - 1) + self.spec_cell_ops(
                n - 1 - self.spec_half_width(),
                z,
            )
        }
    }

    /// The first `n` cells of the right half of the row at forward offset
    /// `z`: lateral offsets from `half` leftward down to the center.
    pub open spec fn spec_row_right_ops(&self, z: int, n: int) -> Seq<DrawOpV>
        decreases n,
    {
        if n <= 0 {
            Seq::empty()
        } else {
            self.spec_row_right_ops(z, n - 1) + self.spec_cell_ops(
                self.spec_half_width() - (n - 1),
                z,
            )
        }
    }

    /// One full row at forward offset `z`: the left half outside-in, then
    /// the right half outside-in down to and including the center column.
    pub open spec fn spec_row_ops(&self, z: int) -> Seq<DrawOpV> {
        self.spec_row_left_ops(z, self.spec_half_width()) + self.spec_row_right_ops(
            z,
            self.spec_half_width() + 1,
        )
    }

    /// The first `n` rows of the window, farthest forward offset first.
    pub open spec fn spec_rows_ops(&self, n: int) -> Seq<DrawOpV>
        decreases n,
    {
        if n <= 0 {
            Seq::empty()
        } else {
            self.spec_rows_ops(n - 1) + self.spec_row_ops(n - 1 - self.render_depth as int)
        }
    }

    /// The full frame: every row from forward offset `-render_depth` up to
    /// and including `0`, each row in the occlusion-correct column order.
    pub open spec fn spec_render_ops(&self) -> Seq<DrawOpV> {
        self.spec_rows_ops(self.render_depth as int + 1)
    }

    /// Walks the visibility window and returns the frame's draw operations
    /// in emission order: rows from the farthest to the player's own, and
    /// within each row the left half outside-in followed by the right half
    /// outside-in, so nearer geometry overdraws farther geometry.
    pub fn render(&self) -> (ops: Vec<DrawOp>)
        requires
            self.wf(),
        ensures
            ops_view(ops@) == self.spec_render_ops(),
    {
        let mut ops: Vec<DrawOp> = Vec::new();
        let hw: i32 = self.render_width / 2;
        proof {
            assert(ops_view(ops@) =~= self.spec_rows_ops(0));
        }
        let mut z: i32 = 0 - self.render_depth;
        while z <= 0
            invariant
                self.wf(),
                hw == self.spec_half_width(),
                -(self.render_depth as int) <= z <= 1,
                ops_view(ops@) == self.spec_rows_ops(z as int + self.render_depth as int),
            decreases 1 - z,
        {
            let ghost row_base = ops_view(ops@);
            let mut x: i32 = 0 - hw;
            proof {
                assert(ops_view(ops@) =~= row_base + self.spec_row_left_ops(z as int, 0));
            }
            while x < 0
                invariant
                    self.wf(),
                    hw == self.spec_half_width(),
                    -(self.render_depth as int) <= z <= 0,
                    -(hw as int) <= x <= 0,
                    ops_view(ops@) == row_base + self.spec_row_left_ops(
                        z as int,
                        x as int + hw as int,
                    ),
                decreases 0 - x,
            {
                self.draw_map_square(&mut ops, x, z);
                proof {
                    assert(ops_view(ops@) =~= row_base + self.spec_row_left_ops(
                        z as int,
                        x as int + hw as int + 1,
                    ));
                }
                x = x + 1;
            }
            let ghost left_done = row_base + self.spec_row_left_ops(z as int, hw as int);
            let mut xr: i32 = hw;
            proof {
                assert(ops_view(ops@) =~= left_done + self.spec_row_right_ops(z as int, 0));
            }
            while xr >= 0
                invariant
                    self.wf(),
                    hw == self.spec_half_width(),
                    -(self.render_depth as int) <= z <= 0,
                    -1 <= xr <= hw,
                    ops_view(ops@) == left_done + self.spec_row_right_ops(
                        z as int,
                        hw as int - xr as int,
                    ),
                decreases 1 + xr,
            {
                self.draw_map_square(&mut ops, xr, z);
                proof {
                    assert(ops_view(ops@) =~= left_done + self.spec_row_right_ops(
                        z as int,
                        hw as int - xr as int + 1,
                    ));
                }
                xr = xr - 1;
            }
            proof {
                assert(ops_view(ops@) =~= self.spec_rows_ops(
                    z as int + self.render_depth as int,
                ) + self.spec_row_ops(z as int));
                assert(ops_view(ops@) =~= self.spec_rows_ops(
                    z as int + 1 + self.render_depth as int,
                ));
            }
            z = z + 1;
        }
        ops
    }

    /// Resolves one tile and, when found, appends the draw operation that
    /// paints it; an unresolved query (including a missing atlas) appends
    /// nothing.
    pub fn draw_tile(
        &self,
        ops: &mut Vec<DrawOp>,
        atlas_id: &str,
        layer_id: &str,
        x: i32,
        z: i32,
        orientation: Option<String>,
    )
        ensures
            ops_view(final(ops)@) == ops_view(old(ops)@) + spec_layer_ops(
                &self.collection,
                atlas_id@,
                layer_id@,
                x as int,
                z as int,
                orientation.deep_view(),
            ),
    {
        let ghost o = orientation.deep_view();
        let tile = self.collection.get_tile(atlas_id, layer_id, x, z, orientation);
        match tile {
            Some(tile) => {
                ops.push(
                    DrawOp {
                        atlas_id: atlas_id.to_owned(),
                        source: tile.atlas_coords,
                        dest: tile.screen_coords,
                    },
                );
                proof {
                    assert(ops_view(ops@) =~= ops_view(old(ops)@) + spec_layer_ops(
                        &self.collection,
                        atlas_id@,
                        layer_id@,
                        x as int,
                        z as int,
                        o,
                    ));
                }
            },
            None => {
                proof {
                    assert(ops_view(ops@) =~= ops_view(old(ops)@) + spec_layer_ops(
                        &self.collection,
                        atlas_id@,
                        layer_id@,
                        x as int,
                        z as int,
                        o,
                    ));
                }
            },
        }
    }

    /// Appends the side-wall faces of the cell at local offset `(x, z)`:
    /// the `"left"` face then the `"right"` face of the `"wall-{value}"`
    /// layer, when the projected cell is in bounds and holds a wall.
    pub fn draw_side_walls(&self, ops: &mut Vec<DrawOp>, x: i32, z: i32)
        requires
            self.wf(),
            Self::offset_in_span(x as int, z as int),
        ensures
            ops_view(final(ops)@) == ops_view(old(ops)@) + self.spec_side_wall_ops(
                x as int,
                z as int,
            ),
    {
        let p = self.player.get_direction_vector_offsets(x, z);
        if self.map.in_bounds(p.x, p.y) {
            let wall_value = self.map.wall_value(p.x, p.y);
            if wall_value != 0 {
                let layer = layer_name("wall-", wall_value);
                self.draw_tile(ops, "dungeon", layer.as_str(), x, z, Some("left".to_owned()));
                self.draw_tile(ops, "dungeon", layer.as_str(), x, z, Some("right".to_owned()));
                proof {
                    assert(ops_view(ops@) =~= ops_view(old(ops)@) + self.spec_side_wall_ops(
                        x as int,
                        z as int,
                    ));
                }
                return;
            }
        }
        proof {
            assert(ops_view(ops@) =~= ops_view(old(ops)@) + self.spec_side_wall_ops(
                x as int,
                z as int,
            ));
        }
    }

    /// Appends the front face of the wall at local offset `(x, z)`, when the
    /// projected cell is in bounds and holds a wall.
    pub fn draw_front_walls(&self, ops: &mut Vec<DrawOp>, x: i32, z: i32)
        requires
            self.wf(),
            Self::offset_in_span(x as int, z as int),
        ensures
            ops_view(final(ops)@) == ops_view(old(ops)@) + self.spec_front_wall_ops(
                x as int,
                z as int,
            ),
    {
        let p = self.player.get_direction_vector_offsets(x, z);
        if self.map.in_bounds(p.x, p.y) {
            let wall_value = self.map.wall_value(p.x, p.y);
            if wall_value != 0 {
                let layer = layer_name("wall-", wall_value);
                self.draw_tile(ops, "dungeon", layer.as_str(), x, z, Some("front".to_owned()));
                return;
            }
        }
        proof {
            assert(ops_view(ops@) =~= ops_view(old(ops)@) + self.spec_front_wall_ops(
                x as int,
                z as int,
            ));
        }
    }

    /// Appends the object sprite of the cell at local offset `(x, z)`, when
    /// the projected cell is in bounds and holds an object; the orientation
    /// of the query follows the player's own facing.
    pub fn draw_objects(&self, ops: &mut Vec<DrawOp>, x: i32, z: i32)
        requires
            self.wf(),
            Self::offset_in_span(x as int, z as int),
        ensures
            ops_view(final(ops)@) == ops_view(old(ops)@) + self.spec_object_ops(
                x as int,
                z as int,
            ),
    {
        let p = self.player.get_direction_vector_offsets(x, z);
        if self.map.in_bounds(p.x, p.y) {
            let object_value = self.map.object_value(p.x, p.y);
            if object_value != 0 {
                let tag: &str = if self.player.direction == 0 {
                    "front"
                } else if self.player.direction == 1 {
                    "right"
                } else if self.player.direction == 2 {
                    "back"
                } else {
                    "left"
                };
                let layer = layer_name("object-", object_value);
                self.draw_tile(ops, "common_objects", layer.as_str(), x, z, Some(tag.to_owned()));
                return;
            }
        }
        proof {
            assert(ops_view(ops@) =~= ops_view(old(ops)@) + self.spec_object_ops(
                x as int,
                z as int,
            ));
        }
    }

    /// Appends everything the cell at local offset `(x, z)` contributes, in
    /// emission order: floor, ceiling, wall side faces, wall front face,
    /// object. A cell that projects off the map contributes nothing.
    #[verifier::rlimit(50)]
    pub fn draw_map_square(&self, ops: &mut Vec<DrawOp>, x: i32, z: i32)
        requires
            self.wf(),
            Self::offset_in_span(x as int, z as int),
        ensures
            ops_view(final(ops)@) == ops_view(old(ops)@) + self.spec_cell_ops(x as int, z as int),
    {
        let p = self.player.get_direction_vector_offsets(x, z);
        if self.map.in_bounds(p.x, p.y) {
            let floor_value = self.map.floor_value(p.x, p.y);
            if floor_value != 0 {
                let layer = layer_name("floor-", floor_value);
                self.draw_tile(ops, "dungeon", layer.as_str(), x, z, None);
            }
            proof {
                assert(ops_view(ops@) =~= ops_view(old(ops)@) + self.spec_floor_ops(
                    x as int,
                    z as int,
                ));
            }
            let ceiling_value = self.map.ceiling_value(p.x, p.y);
            if ceiling_value != 0 {
                let layer = layer_name("ceiling-", ceiling_value);
                self.draw_tile(ops, "dungeon", layer.as_str(), x, z, None);
            }
            proof {
                assert(ops_view(ops@) =~= ops_view(old(ops)@) + self.spec_floor_ops(
                    x as int,
                    z as int,
                ) + self.spec_ceiling_ops(x as int, z as int));
            }
            if self.map.wall_value(p.x, p.y) != 0 {
                self.draw_side_walls(ops, x, z);
                self.draw_front_walls(ops, x, z);
            }
            proof {
                assert(ops_view(ops@) =~= ops_view(old(ops)@) + self.spec_floor_ops(
                    x as int,
                    z as int,
                ) + self.spec_ceiling_ops(x as int, z as int) + self.spec_side_wall_ops(
                    x as int,
                    z as int,
                ) + self.spec_front_wall_ops(x as int, z as int));
            }
            if self.map.object_value(p.x, p.y) != 0 {
                self.draw_objects(ops, x, z);
            }
            proof {
                assert(ops_view(ops@) =~= ops_view(old(ops)@) + self.spec_cell_ops(
                    x as int,
                    z as int,
                ));
            }
        } else {
            proof {
                assert(ops_view(ops@) =~= ops_view(old(ops)@) + self.spec_cell_ops(
                    x as int,
                    z as int,
                ));
            }
        }
    }
}

} // verus!

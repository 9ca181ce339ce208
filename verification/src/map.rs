//! The grid map: an immutable-per-frame 2-D occupancy model with four
//! parallel byte layers (wall / floor / ceiling / object) plus dimensions.
//! A `0` entry means "absent"; any nonzero byte is a variant selector.
//! Also the explored-cells grid kept for the minimap.

use vstd::prelude::*;

verus! {

/// Upper bound on the cell counts of a map, so that any world coordinate,
/// even with a render-window offset added, comfortably fits in an `i32`.
pub const MAX_MAP_DIM: usize = 0x1000_0000;

/// The occupancy map. All four layers are `height` rows of `width` columns,
/// indexed `layer[y][x]`; the map is read-only during play.
pub struct AtlasMap {
    pub width: usize,
    pub height: usize,
    pub wall: Vec<Vec<u8>>,
    pub floor: Vec<Vec<u8>>,
    pub ceiling: Vec<Vec<u8>>,
    pub object: Vec<Vec<u8>>,
}

impl AtlasMap {
    /// One layer is well formed when it has exactly `height` rows of
    /// exactly `width` columns.
    pub open spec fn layer_wf(layer: Seq<Vec<u8>>, width: nat, height: nat) -> bool {
        &&& layer.len() == height
        &&& forall|i: int| 0 <= i < layer.len() ==> (#[trigger] layer[i])@.len() == width
    }

    /// The map invariant: all four layers share the declared dimensions,
    /// and the dimensions are small enough for `i32` coordinates.
    pub open spec fn wf(&self) -> bool {
        &&& self.width <= MAX_MAP_DIM
        &&& self.height <= MAX_MAP_DIM
        &&& Self::layer_wf(self.wall@, self.width as nat, self.height as nat)
        &&& Self::layer_wf(self.floor@, self.width as nat, self.height as nat)
        &&& Self::layer_wf(self.ceiling@, self.width as nat, self.height as nat)
        &&& Self::layer_wf(self.object@, self.width as nat, self.height as nat)
    }

    /// A cell is in bounds when both coordinates lie inside the dimensions.
    pub open spec fn spec_in_bounds(&self, x: int, y: int) -> bool {
        0 <= x < self.width && 0 <= y < self.height
    }

    pub open spec fn spec_wall(&self, x: int, y: int) -> u8 {
        self.wall@[y]@[x]
    }

    pub open spec fn spec_floor(&self, x: int, y: int) -> u8 {
        self.floor@[y]@[x]
    }

    pub open spec fn spec_ceiling(&self, x: int, y: int) -> u8 {
        self.ceiling@[y]@[x]
    }

    pub open spec fn spec_object(&self, x: int, y: int) -> u8 {
        self.object@[y]@[x]
    }

    /// Bounds test; the only map query that is legal on any coordinates.
    pub fn in_bounds(&self, x: i32, y: i32) -> (r: bool)
        ensures
            r == self.spec_in_bounds(x as int, y as int),
    {
        if x < 0 || y < 0 {
            false
        } else {
            (x as usize) < self.width && (y as usize) < self.height
        }
    }

    /// The wall variant selector at an in-bounds cell.
    pub fn wall_value(&self, x: i32, y: i32) -> (v: u8)
        requires
            self.wf(),
            self.spec_in_bounds(x as int, y as int),
        ensures
            v == self.spec_wall(x as int, y as int),
    {
        self.wall[y as usize][x as usize]
    }

    /// Whether an in-bounds cell holds a wall (any nonzero wall value).
    pub fn is_wall(&self, x: i32, y: i32) -> (r: bool)
        requires
            self.wf(),
            self.spec_in_bounds(x as int, y as int),
        ensures
            r == (self.spec_wall(x as int, y as int) != 0),
    {
        self.wall_value(x, y) != 0
    }

    /// The floor variant selector at an in-bounds cell.
    pub fn floor_value(&self, x: i32, y: i32) -> (v: u8)
        requires
            self.wf(),
            self.spec_in_bounds(x as int, y as int),
        ensures
            v == self.spec_floor(x as int, y as int),
    {
        self.floor[y as usize][x as usize]
    }

    /// The ceiling variant selector at an in-bounds cell.
    pub fn ceiling_value(&self, x: i32, y: i32) -> (v: u8)
        requires
            self.wf(),
            self.spec_in_bounds(x as int, y as int),
        ensures
            v == self.spec_ceiling(x as int, y as int),
    {
        self.ceiling[y as usize][x as usize]
    }

    /// The object variant selector at an in-bounds cell.
    pub fn object_value(&self, x: i32, y: i32) -> (v: u8)
        requires
            self.wf(),
            self.spec_in_bounds(x as int, y as int),
        ensures
            v == self.spec_object(x as int, y as int),
    {
        self.object[y as usize][x as usize]
    }
}

/// The explored-cells grid for the minimap: all cells start unexplored,
/// and marking is monotonic — a cell once explored never reverts.
pub struct ExploredMap {
    pub width: usize,
    pub height: usize,
    pub cells: Vec<Vec<bool>>,
}

impl ExploredMap {
    pub open spec fn wf(&self) -> bool {
        &&& self.cells@.len() == self.height
        &&& forall|i: int| 0 <= i < self.cells@.len() ==> (#[trigger] self.cells@[i])@.len()
            == self.width
    }

    pub open spec fn spec_explored(&self, x: int, y: int) -> bool {
        self.cells@[y]@[x]
    }

    /// A fresh grid of the given dimensions with every cell unexplored.
    pub fn new(width: usize, height: usize) -> (r: ExploredMap)
        ensures
            r.wf(),
            r.width == width,
            r.height == height,
            forall|x: int, y: int|
                0 <= x < width && 0 <= y < height ==> !r.spec_explored(x, y),
    {
        let mut cells: Vec<Vec<bool>> = Vec::new();
        let mut y: usize = 0;
        while y < height
            invariant
                y <= height,
                cells@.len() == y,
                forall|i: int| 0 <= i < y ==> (#[trigger] cells@[i])@.len() == width,
                forall|i: int, j: int| 0 <= i < y && 0 <= j < width ==> !(#[trigger] cells@[i]@[j]),
            decreases height - y,
        {
            let mut row: Vec<bool> = Vec::new();
            let mut x: usize = 0;
            while x < width
                invariant
                    x <= width,
                    row@.len() == x,
                    forall|j: int| 0 <= j < x ==> !(#[trigger] row@[j]),
                decreases width - x,
            {
                row.push(false);
                x = x + 1;
            }
            cells.push(row);
            y = y + 1;
        }
        ExploredMap { width, height, cells }
    }

    /// Marks one in-bounds cell explored; every other cell keeps its value,
    /// so exploration only ever grows.
    pub fn mark(&mut self, x: usize, y: usize)
        requires
            old(self).wf(),
            x < old(self).width,
            y < old(self).height,
        ensures
            final(self).wf(),
            final(self).width == old(self).width,
            final(self).height == old(self).height,
            final(self).spec_explored(x as int, y as int),
            forall|i: int, j: int|
                0 <= i < old(self).width && 0 <= j < old(self).height && !(i == x && j == y)
                    ==> final(self).spec_explored(i, j) == old(self).spec_explored(i, j),
    {
        let row = &mut self.cells[y];
        row[x] = true;
    }

    /// Whether an in-bounds cell has been explored.
    pub fn is_explored(&self, x: usize, y: usize) -> (r: bool)
        requires
            self.wf(),
            x < self.width,
            y < self.height,
        ensures
            r == self.spec_explored(x as int, y as int),
    {
        self.cells[y][x]
    }
}

} // verus!

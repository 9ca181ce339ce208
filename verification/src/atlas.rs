//! The atlas store: named sprite atlases, each a set of named layers of
//! tile definitions, answering "which sub-rectangle of which sheet is drawn,
//! and where on screen, for a given layer, local cell and orientation".
//!
//! Resolution scans the named layer's tile list and returns the first tile
//! whose local coordinates equal the query and whose orientation tag is
//! either absent (matches anything) or equal to the queried orientation.
//! A missing atlas or layer yields "no tile", never an error.

use vstd::prelude::*;

use vstd::hash_map::StringHashMap;

verus! {

/// An axis-aligned rectangle in integer pixel units, used both as a source
/// rectangle inside a sprite sheet and as a destination rectangle on screen.
#[derive(Clone, Copy, Debug, PartialEq, Eq, Structural)]
pub struct Coords {
    pub h: i32,
    pub w: i32,
    pub x: i32,
    pub y: i32,
}

/// One placeable sprite: a source rectangle in the sheet, a destination
/// rectangle on screen, the local cell `(x, z)` it applies to, and an
/// optional orientation tag (`None` means "applies regardless").
#[derive(Debug, PartialEq, Eq)]
pub struct Tile {
    pub atlas_coords: Coords,
    pub screen_coords: Coords,
    pub x: i32,
    pub z: i32,
    pub orientation: Option<String>,
}

impl Clone for Tile {
    /// Field-for-field copy; the clone is equal to the original.
    fn clone(&self) -> (res: Self)
        ensures
            res == *self,
    {
        Tile {
            atlas_coords: self.atlas_coords,
            screen_coords: self.screen_coords,
            x: self.x,
            z: self.z,
            orientation: match &self.orientation {
                None => None,
                Some(s) => Some(s.clone()),
            },
        }
    }
}

/// A named, ordered group of tiles sharing a draw mode and a type tag;
/// loaded as a unit from the atlas description.
pub struct Tiles {
    pub mode: i32,
    pub name: String,
    pub tiles: Vec<Tile>,
    pub kind: i32,
}

/// The tile metadata of one atlas: a mapping from layer name to layer.
pub struct AtlasInfo {
    pub layers: StringHashMap<Tiles>,
}

/// One atlas: its tile metadata. The sprite sheet image itself belongs to
/// the presentation layer, which keys its textures by the same atlas id.
pub struct Atlas {
    pub atlas_info: AtlasInfo,
}

/// The atlas store: a mapping from atlas id to atlas, populated at startup
/// and read-only during play.
pub struct AtlasCollection {
    pub atlases: StringHashMap<Atlas>,
}

/// Whether a tile's orientation tag accepts the queried orientation: an
/// absent tag matches every query, a present tag only its own value.
pub open spec fn spec_orientation_matches(tag: Option<String>, o: Option<Seq<char>>) -> bool {
    match tag {
        Option::None => true,
        Option::Some(s) => o == Option::Some(s@),
    }
}

/// Whether a tile answers the query: local coordinates equal and
/// orientation accepted.
pub open spec fn spec_tile_matches(t: Tile, x: int, z: int, o: Option<Seq<char>>) -> bool {
    t.x as int == x && t.z as int == z && spec_orientation_matches(t.orientation, o)
}

/// The orientation acceptance test, on the tile's tag and the query.
fn orientation_ok(tag: &Option<String>, query: &Option<String>) -> (r: bool)
    ensures
        r == spec_orientation_matches(*tag, query.deep_view()),
{
    match tag {
        None => true,
        Some(s) => match query {
            Some(q) => *s == *q,
            None => false,
        },
    }
}

/// The first tile in storage order that answers the query, if any.
pub open spec fn spec_first_match(tiles: Seq<Tile>, x: int, z: int, o: Option<Seq<char>>) -> Option<
    Tile,
>
    decreases tiles.len(),
{
    if tiles.len() == 0 {
        None
    } else if spec_tile_matches(tiles[0], x, z, o) {
        Some(tiles[0])
    } else {
        spec_first_match(tiles.drop_first(), x, z, o)
    }
}

proof fn lemma_first_match_skip_step(
    tiles: Seq<Tile>,
    x: int,
    z: int,
    o: Option<Seq<char>>,
    i: int,
)
    requires
        0 <= i < tiles.len(),
        !spec_tile_matches(tiles[i], x, z, o),
    ensures
        spec_first_match(tiles.skip(i), x, z, o) == spec_first_match(tiles.skip(i + 1), x, z, o),
{
    assert(tiles.skip(i)[0] == tiles[i]);
    assert(tiles.skip(i).drop_first() =~= tiles.skip(i + 1));
}

proof fn lemma_first_match_skip_found(
    tiles: Seq<Tile>,
    x: int,
    z: int,
    o: Option<Seq<char>>,
    i: int,
)
    requires
        0 <= i < tiles.len(),
        spec_tile_matches(tiles[i], x, z, o),
    ensures
        spec_first_match(tiles.skip(i), x, z, o) == Some(tiles[i]),
{
    assert(tiles.skip(i)[0] == tiles[i]);
}

impl AtlasCollection {
    /// An empty store.
    pub fn new() -> (r: AtlasCollection)
        ensures
            r.atlases@ == Map::<Seq<char>, Atlas>::empty(),
    {
        AtlasCollection { atlases: StringHashMap::new() }
    }

    /// What resolution returns: the first matching tile of the named layer
    /// of the named atlas, or nothing when atlas, layer or tile is absent.
    pub open spec fn spec_resolve(
        &self,
        atlas_id: Seq<char>,
        layer_id: Seq<char>,
        x: int,
        z: int,
        o: Option<Seq<char>>,
    ) -> Option<Tile> {
        if self.atlases@.contains_key(atlas_id) {
            let info = self.atlases@[atlas_id].atlas_info;
            if info.layers@.contains_key(layer_id) {
                spec_first_match(info.layers@[layer_id].tiles@, x, z, o)
            } else {
                None
            }
        } else {
            None
        }
    }

    /// Stores an atlas under the given id, replacing any prior entry.
    pub fn load(&mut self, atlas_id: &str, atlas_info: AtlasInfo)
        ensures
            final(self).atlases@ == old(self).atlases@.insert(
                atlas_id@,
                (Atlas { atlas_info: atlas_info }),
            ),
    {
        self.atlases.insert(atlas_id.to_owned(), Atlas { atlas_info });
    }

    /// Resolves a tile query against the store: the first tile of the named
    /// layer whose local coordinates equal `(x, z)` and whose orientation is
    /// absent or equal to the query. An unknown atlas or layer id yields
    /// `None` rather than an error.
    pub fn get_tile(
        &self,
        atlas_id: &str,
        layer_id: &str,
        x: i32,
        z: i32,
        orientation: Option<String>,
    ) -> (r: Option<Tile>)
        ensures
            r == self.spec_resolve(atlas_id@, layer_id@, x as int, z as int, orientation.deep_view()),
    {
        let ghost o = orientation.deep_view();
        let atlas = match self.atlases.get(atlas_id) {
            Some(a) => a,
            None => {
                return None;
            },
        };
        let layer = match atlas.atlas_info.layers.get(layer_id) {
            Some(l) => l,
            None => {
                return None;
            },
        };
        let tiles = &layer.tiles;
        let ghost ts = tiles@;
        proof {
            assert(ts.skip(0) =~= ts);
        }
        let mut i: usize = 0;
        while i < tiles.len()
            invariant
                i <= ts.len(),
                tiles@ == ts,
                o == orientation.deep_view(),
                self.spec_resolve(atlas_id@, layer_id@, x as int, z as int, o)
                    == spec_first_match(ts, x as int, z as int, o),
                spec_first_match(ts, x as int, z as int, o) == spec_first_match(
                    ts.skip(i as int),
                    x as int,
                    z as int,
                    o,
                ),
            decreases ts.len() - i,
        {
            let t = &tiles[i];
            if t.x == x && t.z == z && orientation_ok(&t.orientation, &orientation) {
                proof {
                    lemma_first_match_skip_found(ts, x as int, z as int, o, i as int);
                }
                return Some(t.clone());
            }
            proof {
                lemma_first_match_skip_step(ts, x as int, z as int, o, i as int);
            }
            i = i + 1;
        }
        proof {
            assert(ts.skip(i as int).len() == 0);
        }
        None
    }
}

impl AtlasInfo {
    /// An atlas description with no layers yet.
    pub fn new() -> (r: AtlasInfo)
        ensures
            r.layers@ == Map::<Seq<char>, Tiles>::empty(),
    {
        AtlasInfo { layers: StringHashMap::new() }
    }

    /// Adds a layer under the given name, replacing any prior entry.
    pub fn add_layer(&mut self, name: String, tiles: Tiles)
        ensures
            final(self).layers@ == old(self).layers@.insert(name@, tiles),
    {
        self.layers.insert(name, tiles);
    }
}

/// Atlas resolution determinism: resolution is a function of the store and
/// the query alone, so two results of the same query are the same tile (or
/// both nothing).
pub proof fn lemma_resolution_deterministic(
    c: &AtlasCollection,
    atlas_id: Seq<char>,
    layer_id: Seq<char>,
    x: int,
    z: int,
    o: Option<Seq<char>>,
    r1: Option<Tile>,
    r2: Option<Tile>,
)
    requires
        r1 == c.spec_resolve(atlas_id, layer_id, x, z, o),
        r2 == c.spec_resolve(atlas_id, layer_id, x, z, o),
    ensures
        r1 == r2,
{
}

/// Orientation fallback: a tile whose orientation tag is absent answers a
/// query for any orientation value at its local coordinates.
pub proof fn lemma_orientation_fallback(t: Tile, x: int, z: int, o: Option<Seq<char>>)
    requires
        t.orientation is None,
        t.x as int == x,
        t.z as int == z,
    ensures
        spec_tile_matches(t, x, z, o),
{
}

} // verus!

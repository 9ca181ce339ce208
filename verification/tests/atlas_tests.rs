use atlas_world::atlas::AtlasCollection;
use atlas_world::atlas::AtlasInfo;
use atlas_world::atlas::Coords;
use atlas_world::atlas::Tile;
use atlas_world::atlas::Tiles;

fn rect(x: i32, y: i32, w: i32, h: i32) -> Coords {
    Coords { x, y, w, h }
}

fn tile(x: i32, z: i32, orientation: Option<&str>, dest_x: i32) -> Tile {
    Tile {
        atlas_coords: rect(0, 0, 32, 32),
        screen_coords: rect(dest_x, 0, 32, 32),
        x,
        z,
        orientation: orientation.map(|s| s.to_string()),
    }
}

fn layer(name: &str, tiles: Vec<Tile>) -> (String, Tiles) {
    (
        name.to_string(),
        Tiles { mode: 0, name: name.to_string(), tiles, kind: 0 },
    )
}

fn collection_with(layers: Vec<(String, Tiles)>) -> AtlasCollection {
    let mut info = AtlasInfo::new();
    for (name, tiles) in layers {
        info.add_layer(name, tiles);
    }
    let mut c = AtlasCollection::new();
    c.load("dungeon", info);
    c
}

#[test]
fn resolves_matching_coordinates_and_orientation() {
    let c = collection_with(vec![layer(
        "wall-1",
        vec![
            tile(0, -1, Some("left"), 10),
            tile(0, -1, Some("right"), 20),
            tile(0, -1, Some("front"), 30),
        ],
    )]);
    let t = c.get_tile("dungeon", "wall-1", 0, -1, Some("front".to_string()));
    assert_eq!(t.unwrap().screen_coords.x, 30);

    let t = c.get_tile("dungeon", "wall-1", 0, -1, Some("left".to_string()));
    assert_eq!(t.unwrap().screen_coords.x, 10);
}

#[test]
fn wrong_coordinates_or_orientation_yield_none() {
    let c = collection_with(vec![layer("wall-1", vec![tile(0, -1, Some("left"), 10)])]);
    assert!(c.get_tile("dungeon", "wall-1", 1, -1, Some("left".to_string())).is_none());
    assert!(c.get_tile("dungeon", "wall-1", 0, -2, Some("left".to_string())).is_none());
    assert!(c.get_tile("dungeon", "wall-1", 0, -1, Some("right".to_string())).is_none());
    // A tagged tile does not answer an untagged query either.
    assert!(c.get_tile("dungeon", "wall-1", 0, -1, None).is_none());
}

#[test]
fn absent_atlas_or_layer_is_not_an_error() {
    let c = collection_with(vec![layer("floor-1", vec![tile(0, 0, None, 10)])]);
    assert!(c.get_tile("castle", "floor-1", 0, 0, None).is_none());
    assert!(c.get_tile("dungeon", "floor-9", 0, 0, None).is_none());
    let empty = AtlasCollection::new();
    assert!(empty.get_tile("dungeon", "floor-1", 0, 0, None).is_none());
}

#[test]
fn untagged_tile_matches_any_orientation() {
    let c = collection_with(vec![layer("object-5", vec![tile(2, -3, None, 40)])]);
    for query in [
        None,
        Some("front".to_string()),
        Some("left".to_string()),
        Some("right".to_string()),
        Some("back".to_string()),
        Some("anything".to_string()),
    ] {
        let t = c.get_tile("dungeon", "object-5", 2, -3, query);
        assert_eq!(t.unwrap().screen_coords.x, 40);
    }
}

#[test]
fn first_match_in_storage_order_wins() {
    let c = collection_with(vec![layer(
        "floor-1",
        vec![tile(0, 0, None, 11), tile(0, 0, None, 22)],
    )]);
    let t = c.get_tile("dungeon", "floor-1", 0, 0, None);
    assert_eq!(t.unwrap().screen_coords.x, 11);

    // An earlier tagged tile is skipped for a query it does not accept, and
    // a later untagged tile then answers.
    let c = collection_with(vec![layer(
        "wall-2",
        vec![tile(0, -1, Some("front"), 33), tile(0, -1, None, 44)],
    )]);
    let t = c.get_tile("dungeon", "wall-2", 0, -1, Some("left".to_string()));
    assert_eq!(t.unwrap().screen_coords.x, 44);
}

#[test]
fn identical_queries_resolve_identically() {
    let c = collection_with(vec![layer(
        "wall-1",
        vec![tile(0, -1, Some("left"), 10), tile(0, -1, None, 20)],
    )]);
    let a = c.get_tile("dungeon", "wall-1", 0, -1, Some("left".to_string()));
    let b = c.get_tile("dungeon", "wall-1", 0, -1, Some("left".to_string()));
    assert_eq!(a, b);
    let a = c.get_tile("dungeon", "wall-1", 5, 5, None);
    let b = c.get_tile("dungeon", "wall-1", 5, 5, None);
    assert_eq!(a, b);
    assert!(a.is_none());
}

#[test]
fn load_replaces_prior_entry_under_same_id() {
    let mut info1 = AtlasInfo::new();
    let (name, tiles) = layer("floor-1", vec![tile(0, 0, None, 1)]);
    info1.add_layer(name, tiles);

    let mut info2 = AtlasInfo::new();
    let (name, tiles) = layer("floor-1", vec![tile(0, 0, None, 2)]);
    info2.add_layer(name, tiles);

    let mut c = AtlasCollection::new();
    c.load("dungeon", info1);
    c.load("dungeon", info2);
    let t = c.get_tile("dungeon", "floor-1", 0, 0, None);
    assert_eq!(t.unwrap().screen_coords.x, 2);
}

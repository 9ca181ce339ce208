use atlas_world::map::AtlasMap;
use atlas_world::player::GridPos;
use atlas_world::player::Player;

/// An `size x size` map with a solid border of walls and an open interior.
fn bordered_map(size: usize) -> AtlasMap {
    let mut wall = vec![vec![0u8; size]; size];
    for i in 0..size {
        wall[0][i] = 1;
        wall[size - 1][i] = 1;
        wall[i][0] = 1;
        wall[i][size - 1] = 1;
    }
    AtlasMap {
        width: size,
        height: size,
        wall,
        floor: vec![vec![0u8; size]; size],
        ceiling: vec![vec![0u8; size]; size],
        object: vec![vec![0u8; size]; size],
    }
}

/// A fully open map: no walls anywhere.
fn open_map(width: usize, height: usize) -> AtlasMap {
    AtlasMap {
        width,
        height,
        wall: vec![vec![0u8; width]; height],
        floor: vec![vec![0u8; width]; height],
        ceiling: vec![vec![0u8; width]; height],
        object: vec![vec![0u8; width]; height],
    }
}

#[test]
fn wall_blocks_forward_then_turn_right_moves() {
    // An 8x8 map with a border of walls; the player starts at (1,1) facing
    // north into the border wall at (1,0).
    let map = bordered_map(8);
    let mut player = Player { x: 1, y: 1, direction: 0 };

    player.move_forward(&map);
    assert_eq!((player.x, player.y), (1, 1));
    assert_eq!(player.direction, 0);

    player.turn_right(); // now facing east
    assert_eq!(player.direction, 1);
    player.move_forward(&map); // (2,1) is open interior
    assert_eq!((player.x, player.y), (2, 1));
}

#[test]
fn edge_of_map_rejected_without_walls() {
    // Moves off the map must be rejected by the bounds check alone.
    let map = open_map(3, 3);
    let mut player = Player { x: 0, y: 0, direction: 3 }; // facing west
    player.move_forward(&map);
    assert_eq!((player.x, player.y), (0, 0));

    player.direction = 0; // facing north
    player.move_forward(&map);
    assert_eq!((player.x, player.y), (0, 0));

    let mut player = Player { x: 2, y: 2, direction: 2 }; // facing south
    player.move_forward(&map);
    assert_eq!((player.x, player.y), (2, 2));
}

#[test]
fn forward_backward_strafe_destinations() {
    let map = open_map(5, 5);
    let mut player = Player { x: 2, y: 2, direction: 0 }; // facing north

    player.move_forward(&map);
    assert_eq!((player.x, player.y), (2, 1));

    player.move_backward(&map);
    assert_eq!((player.x, player.y), (2, 2));

    player.strafe_left(&map); // west of north is -x
    assert_eq!((player.x, player.y), (1, 2));

    player.strafe_right(&map);
    assert_eq!((player.x, player.y), (2, 2));

    player.direction = 1; // facing east
    player.move_forward(&map);
    assert_eq!((player.x, player.y), (3, 2));
    player.strafe_left(&map); // north of east
    assert_eq!((player.x, player.y), (3, 1));
}

#[test]
fn moves_leave_direction_unchanged() {
    let map = bordered_map(8);
    let mut player = Player { x: 3, y: 3, direction: 2 };
    player.move_forward(&map);
    assert_eq!(player.direction, 2);
    player.move_backward(&map);
    assert_eq!(player.direction, 2);
    player.strafe_left(&map);
    assert_eq!(player.direction, 2);
    player.strafe_right(&map);
    assert_eq!(player.direction, 2);
}

#[test]
fn turn_left_then_right_restores_direction() {
    for d in 0..4 {
        let mut player = Player { x: 1, y: 1, direction: d };
        player.turn_left();
        player.turn_right();
        assert_eq!(player.direction, d);

        player.turn_right();
        player.turn_left();
        assert_eq!(player.direction, d);
    }
}

#[test]
fn four_right_turns_restore_direction() {
    for d in 0..4 {
        let mut player = Player { x: 1, y: 1, direction: d };
        player.turn_right();
        player.turn_right();
        player.turn_right();
        player.turn_right();
        assert_eq!(player.direction, d);
    }
}

#[test]
fn turn_sequences_wrap() {
    let mut player = Player { x: 1, y: 1, direction: 0 };
    player.turn_left();
    assert_eq!(player.direction, 3);
    player.turn_right();
    player.turn_right();
    assert_eq!(player.direction, 1);
}

#[test]
fn invert_direction_is_opposite() {
    assert_eq!(Player { x: 0, y: 0, direction: 0 }.invert_direction(), 2);
    assert_eq!(Player { x: 0, y: 0, direction: 1 }.invert_direction(), 3);
    assert_eq!(Player { x: 0, y: 0, direction: 2 }.invert_direction(), 0);
    assert_eq!(Player { x: 0, y: 0, direction: 3 }.invert_direction(), 1);
}

#[test]
fn dest_pos_matches_unit_step_table() {
    let player = Player { x: 1, y: 1, direction: 0 };
    assert_eq!(player.get_dest_pos(0), GridPos { x: 1, y: 0 });
    assert_eq!(player.get_dest_pos(1), GridPos { x: 2, y: 1 });
    assert_eq!(player.get_dest_pos(2), GridPos { x: 1, y: 2 });
    assert_eq!(player.get_dest_pos(3), GridPos { x: 0, y: 1 });
}

#[test]
fn local_origin_projects_to_player_position() {
    for d in 0..4 {
        let player = Player { x: 4, y: 3, direction: d };
        let p = player.get_direction_vector_offsets(0, 0);
        assert_eq!(p, GridPos { x: 4, y: 3 });
    }
}

#[test]
fn local_to_world_rotates_by_facing() {
    // One cell ahead is local (0, -1); one cell to the viewer's right is
    // local (1, 0).
    let ahead = |d: i32| Player { x: 4, y: 3, direction: d }.get_direction_vector_offsets(0, -1);
    assert_eq!(ahead(0), GridPos { x: 4, y: 2 }); // north
    assert_eq!(ahead(1), GridPos { x: 5, y: 3 }); // east
    assert_eq!(ahead(2), GridPos { x: 4, y: 4 }); // south
    assert_eq!(ahead(3), GridPos { x: 3, y: 3 }); // west

    let right = |d: i32| Player { x: 4, y: 3, direction: d }.get_direction_vector_offsets(1, 0);
    assert_eq!(right(0), GridPos { x: 5, y: 3 });
    assert_eq!(right(1), GridPos { x: 4, y: 4 });
    assert_eq!(right(2), GridPos { x: 3, y: 3 });
    assert_eq!(right(3), GridPos { x: 4, y: 2 });
}

#[test]
fn strafes_and_backward_are_blocked_by_walls() {
    let mut map = open_map(5, 5);
    map.wall[2][1] = 1; // west of the player
    map.wall[2][3] = 1; // east of the player
    map.wall[3][2] = 1; // south of the player
    let mut player = Player { x: 2, y: 2, direction: 0 }; // facing north

    player.strafe_left(&map); // into the wall at (1,2)
    assert_eq!((player.x, player.y), (2, 2));
    player.strafe_right(&map); // into the wall at (3,2)
    assert_eq!((player.x, player.y), (2, 2));
    player.move_backward(&map); // into the wall at (2,3)
    assert_eq!((player.x, player.y), (2, 2));
    player.move_forward(&map); // (2,1) is open
    assert_eq!((player.x, player.y), (2, 1));
}

#[test]
fn can_move_requires_bounds_and_no_wall() {
    let map = bordered_map(4);
    let player = Player { x: 1, y: 1, direction: 0 };
    assert!(player.can_move(&map, GridPos { x: 2, y: 1 }));
    assert!(!player.can_move(&map, GridPos { x: 0, y: 1 })); // wall
    assert!(!player.can_move(&map, GridPos { x: -1, y: 1 })); // out of bounds
    assert!(!player.can_move(&map, GridPos { x: 1, y: 4 })); // out of bounds
}

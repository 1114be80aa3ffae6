//! The sticker-grid boundary: every stored state reads back as itself,
//! and the grids of the 24 rotations are consistent and distinct.
use cubie::moves::rotation_cube;
use cubie::{CornerMap, EdgeMap, Move, TileMap};

#[test]
fn center_extraction() {
    for k in 0..24u8 {
        let rc = rotation_cube(k);
        let tm = TileMap::from_centers(rc.centers());
        assert_eq!(tm.centers(), Ok(rc.centers()));
    }
}

#[test]
fn corner_extraction() {
    let c1 = CornerMap::default().apply_move(Move::F2);
    let tilemap = TileMap::from_corners(c1);
    assert_eq!(tilemap.corners(), Ok(c1));

    let c2 = CornerMap::default().apply_move(Move::F1);
    let tilemap = TileMap::from_corners(c2);
    assert_eq!(tilemap.corners(), Ok(c2));

    let cube = Move::F1
        .corners()
        .apply_move(Move::L1)
        .apply_move(Move::B1)
        .apply_move(Move::U2)
        .apply_move(Move::D3);
    let tilemap = TileMap::from_corners(cube);
    assert_eq!(tilemap.corners(), Ok(cube));
}

#[test]
fn edge_extraction() {
    let em = EdgeMap::default().apply_move(Move::R1).apply_move(Move::L1);
    let tilemap = TileMap::from_edges(em);
    assert_eq!(tilemap.edges(), Ok(em));
}

fn assert_equal_filled_tiles(a: &TileMap, b: &TileMap, skip_centers: bool) {
    for t in 0..54usize {
        if t % 9 == 4 && skip_centers {
            continue;
        }
        if let (Some(fa), Some(fb)) = (a.tiles[t], b.tiles[t]) {
            assert_eq!(fa, fb);
        }
    }
}

#[test]
fn tile_rotations_conversions() {
    let mut map_table: Vec<TileMap> = Vec::new();
    for k in 0..24u8 {
        let rc = rotation_cube(k);
        let entry = TileMap::from_cube(rc);
        assert_equal_filled_tiles(&entry, &TileMap::from_corners(rc.corners()), true);
        assert_equal_filled_tiles(&entry, &TileMap::from_centers(rc.centers()), false);
        assert_equal_filled_tiles(&entry, &TileMap::from_edges(rc.edges()), true);

        for face in 0..6usize {
            let center_tile = entry.tiles[face * 9].unwrap();
            for t in 0..9usize {
                assert_eq!(entry.tiles[face * 9 + t].unwrap(), center_tile);
            }
        }
        map_table.push(entry);
    }
    for x in 0..24usize {
        for y in (x + 1)..24 {
            assert_ne!(&map_table[x], &map_table[y]);
        }
    }
}

#[test]
fn grid_roundtrip_of_whole_cube() {
    let c = cubie::Cube::default()
        .apply_move(Move::R1)
        .apply_move(Move::U2)
        .apply_move(Move::E1)
        .apply_move(Move::Y3);
    let tm = TileMap::from_cube(c);
    assert_eq!(tm.cube(), Ok(c));
}

#[test]
fn empty_grid_is_missing_tiles() {
    let tm = TileMap::default();
    assert!(tm.cube().is_err());
}

#[test]
fn mixed_up_grid_is_an_invalid_piece() {
    let c = cubie::Cube::default();
    let mut tm = TileMap::from_cube(c);
    // Overwrite one corner sticker with the color of its own axis mate.
    let before = tm.get(6).unwrap();
    tm.set(6, Some(before.opposite()));
    assert!(tm.corners().is_err());
}

use bevy::math::UVec2;
use tilemap_editor::coord_utils::gridify_int;
use tilemap_editor::coord_utils::gridify_pos;
use tilemap_editor::coord_utils::int_tile_pos_to_id;
use tilemap_editor::coord_utils::tile_id_to_pos;
use tilemap_editor::coord_utils::IntPos;

#[test]
fn cell_of_a_point_is_the_floored_quotient() {
    let cell = gridify_pos(IntPos { x: 37, y: 15 }, UVec2::new(16, 16));
    assert_eq!(cell, IntPos { x: 2, y: 0 });
    let cell = gridify_pos(IntPos { x: 32, y: 48 }, UVec2::new(16, 24));
    assert_eq!(cell, IntPos { x: 2, y: 2 });
}

#[test]
fn cell_of_a_negative_point_rounds_down() {
    let cell = gridify_pos(IntPos { x: -1, y: -16 }, UVec2::new(16, 16));
    assert_eq!(cell, IntPos { x: -1, y: -1 });
    let cell = gridify_pos(IntPos { x: -17, y: -32 }, UVec2::new(16, 16));
    assert_eq!(cell, IntPos { x: -2, y: -2 });
    let cell = gridify_pos(IntPos { x: i64::MIN, y: i64::MAX }, UVec2::new(1, 1));
    assert_eq!(cell, IntPos { x: i64::MIN, y: i64::MAX });
}

#[test]
fn unsigned_cell_of_a_point_right_of_and_below_the_origin() {
    assert_eq!(gridify_int(IntPos { x: 37, y: 15 }, UVec2::new(16, 16)), Some(UVec2::new(2, 0)));
    assert_eq!(gridify_int(IntPos { x: 0, y: 0 }, UVec2::new(16, 16)), Some(UVec2::new(0, 0)));
    assert_eq!(
        gridify_int(IntPos { x: 0xffff_ffff, y: 3 }, UVec2::new(1, 2)),
        Some(UVec2::new(u32::MAX, 1))
    );
}

#[test]
fn no_unsigned_cell_left_of_or_above_the_origin() {
    assert_eq!(gridify_int(IntPos { x: -1, y: 5 }, UVec2::new(16, 16)), None);
    assert_eq!(gridify_pos(IntPos { x: -1, y: 5 }, UVec2::new(16, 16)), IntPos { x: -1, y: 0 });
    assert_eq!(gridify_int(IntPos { x: 5, y: -1 }, UVec2::new(16, 16)), None);
    assert_eq!(gridify_int(IntPos { x: -5, y: 20 }, UVec2::new(16, 16)), None);
    assert_eq!(gridify_int(IntPos { x: i64::MAX, y: 1 }, UVec2::new(1, 1)), None);
}

#[test]
fn index_of_a_cell_inside_the_grid() {
    for w in 1u32..6 {
        for h in 1u32..6 {
            for x in 0..w {
                for y in 0..h {
                    assert_eq!(
                        int_tile_pos_to_id(UVec2::new(x, y), UVec2::new(w, h)),
                        Some(x + y * w)
                    );
                }
            }
        }
    }
    assert_eq!(int_tile_pos_to_id(UVec2::new(3, 2), UVec2::new(5, 4)), Some(13));
}

#[test]
fn no_index_for_a_cell_outside_the_grid() {
    assert_eq!(int_tile_pos_to_id(UVec2::new(5, 0), UVec2::new(5, 4)), None);
    assert_eq!(int_tile_pos_to_id(UVec2::new(0, 4), UVec2::new(5, 4)), None);
    assert_eq!(int_tile_pos_to_id(UVec2::new(7, 9), UVec2::new(5, 4)), None);
    assert_eq!(int_tile_pos_to_id(UVec2::new(0, 0), UVec2::new(0, 0)), None);
}

#[test]
fn origin_of_a_tile_in_the_atlas() {
    let atlas = UVec2::new(256, 256);
    let tile = UVec2::new(16, 16);
    assert_eq!(tile_id_to_pos(0, atlas, tile), IntPos { x: 0, y: 0 });
    assert_eq!(tile_id_to_pos(5, atlas, tile), IntPos { x: 80, y: 0 });
    assert_eq!(tile_id_to_pos(16, atlas, tile), IntPos { x: 0, y: 16 });
    assert_eq!(tile_id_to_pos(37, atlas, tile), IntPos { x: 80, y: 32 });
    assert_eq!(tile_id_to_pos(300, atlas, tile), IntPos { x: 192, y: 288 });
    assert_eq!(tile_id_to_pos(7, UVec2::new(50, 20), UVec2::new(16, 10)), IntPos { x: 16, y: 20 });
}

#[test]
fn index_to_origin_to_cell_to_index_round_trip() {
    let atlas = UVec2::new(256, 256);
    let tile = UVec2::new(16, 16);
    let grid = UVec2::new(16, 16);
    for id in 0u32..256 {
        let origin = tile_id_to_pos(id, atlas, tile);
        let cell = gridify_int(origin, tile).unwrap();
        assert_eq!(int_tile_pos_to_id(cell, grid), Some(id));
    }
}

#[test]
fn round_trip_in_an_atlas_with_a_ragged_edge() {
    let atlas = UVec2::new(70, 45);
    let tile = UVec2::new(16, 10);
    let grid = UVec2::new(4, 4);
    for id in 0u32..16 {
        let origin = tile_id_to_pos(id, atlas, tile);
        let cell = gridify_int(origin, tile).unwrap();
        assert_eq!(int_tile_pos_to_id(cell, grid), Some(id));
    }
}

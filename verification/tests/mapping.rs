use chessboard::mapping::{square_at, tile_is_light};

#[test]
fn pointer_inside_a_tile_maps_to_it() {
    // with tile side 10, the pointer at (3.5, 7.9) tiles is the pixel (35, 79)
    assert_eq!(square_at(35, 79, 0, 0, 10), Some(59));
    // the same point at a ten-times finer scale
    assert_eq!(square_at(350, 790, 0, 0, 100), Some(59));
}

#[test]
fn tile_corners_map_to_the_tile() {
    assert_eq!(square_at(0, 0, 0, 0, 10), Some(0));
    assert_eq!(square_at(9, 9, 0, 0, 10), Some(0));
    assert_eq!(square_at(10, 0, 0, 0, 10), Some(1));
    assert_eq!(square_at(79, 79, 0, 0, 10), Some(63));
}

#[test]
fn board_origin_offsets_the_mapping() {
    assert_eq!(square_at(35 + 7, 79 + 3, 7, 3, 10), Some(59));
    assert_eq!(square_at(42, 82, 7, 3, 10), Some(59));
}

#[test]
fn pointer_off_the_board_is_rejected() {
    // left of or above the origin
    assert_eq!(square_at(5, 5, 10, 0, 10), None);
    assert_eq!(square_at(5, 5, 0, 10, 10), None);
    // past the right or bottom edge
    assert_eq!(square_at(80, 0, 0, 0, 10), None);
    assert_eq!(square_at(0, 80, 0, 0, 10), None);
    assert_eq!(square_at(1000, 1000, 0, 0, 10), None);
}

#[test]
fn tile_colors_alternate() {
    assert!(tile_is_light(0, 0));
    assert!(!tile_is_light(1, 0));
    assert!(!tile_is_light(0, 1));
    assert!(tile_is_light(1, 1));
    assert!(tile_is_light(7, 7));
    assert!(!tile_is_light(7, 0));
    for file in 0..8 {
        for rank in 0..8 {
            assert_eq!(tile_is_light(file, rank), (file + rank) % 2 == 0);
        }
    }
}

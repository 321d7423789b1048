//! Pointer-to-square mapping for drag-and-drop, over integer pixel
//! coordinates: `file = (x - left) / tile`, `rank = (y - top) / tile`, and the
//! square index is `file + rank * 8`, rejected when the pointer falls outside
//! the 8-by-8 grid on either axis. Also the light/dark parity of a tile.

use vstd::prelude::*;

verus! {

/// Where a pointer at `(x, y)` lands on a board whose top-left corner is at
/// `(left, top)` with square side `tile`: `None` when the pointer is outside
/// the grid, otherwise `Some(file + rank * 8)`.
pub open spec fn spec_square_at(x: int, y: int, left: int, top: int, tile: int) -> Option<int>
    recommends
        tile > 0,
{
    if x < left || y < top {
        None
    } else {
        let file = (x - left) / tile;
        let rank = (y - top) / tile;
        if file < 8 && rank < 8 {
            Some(file + rank * 8)
        } else {
            None
        }
    }
}

/// Map a pointer position to the square under it, or `None` when the pointer
/// is outside the board.
pub fn square_at(x: u32, y: u32, left: u32, top: u32, tile: u32) -> (r: Option<usize>)
    requires
        tile > 0,
    ensures
        r is Some <==> spec_square_at(x as int, y as int, left as int, top as int, tile as int)
            is Some,
        r matches Some(i) ==> spec_square_at(
            x as int,
            y as int,
            left as int,
            top as int,
            tile as int,
        ) == Some(i as int) && i < 64,
{
    if x < left || y < top {
        return None;
    }
    let file = (x - left) / tile;
    let rank = (y - top) / tile;
    if file < 8 && rank < 8 {
        Some((file + rank * 8) as usize)
    } else {
        None
    }
}

/// Whether the tile at `(file, rank)` is drawn in the light color: the two
/// colors alternate, light where file and rank have the same parity.
pub fn tile_is_light(file: usize, rank: usize) -> (r: bool)
    requires
        file < 8,
        rank < 8,
    ensures
        r == ((file + rank) % 2 == 0),
{
    (file + rank) % 2 == 0
}

} // verus!

//! The board: coordinates, bounds, adjacency and the fixed cells that the
//! lifecycle fills.
use vstd::prelude::*;
use crate::types::{GameError, TileState};

verus! {

/// Position of column `x`, row `y` in the row-by-row board.
pub open spec fn cell(x: int, y: int) -> int {
    y * 8 + x
}

pub open spec fn in_bounds(x: int, y: int) -> bool {
    0 <= x < 8 && 0 <= y < 8
}

pub open spec fn abs_diff(a: int, b: int) -> int {
    if a >= b { a - b } else { b - a }
}

/// Neighbours under the Chebyshev distance: one step in any of the eight
/// directions, and never the same tile.
pub open spec fn is_adjacent(fx: int, fy: int, tx: int, ty: int) -> bool {
    abs_diff(fx, tx) <= 1 && abs_diff(fy, ty) <= 1 && abs_diff(fx, tx) + abs_diff(fy, ty) > 0
}

/// Whether a tile is held by the player with the given index.
pub open spec fn owned_by(t: TileState, pi: u8) -> bool {
    match t {
        TileState::Owned { player, .. } => player == pi,
        _ => false,
    }
}

/// Top-left cell of the 2x2 starting corner of the player who joined in
/// position `pi`.
pub open spec fn corner_origin(pi: u8) -> (int, int) {
    if pi == 0 {
        (0, 0)
    } else if pi == 1 {
        (6, 0)
    } else if pi == 2 {
        (0, 6)
    } else {
        (6, 6)
    }
}

/// Whether position `i` lies in the starting corner of player `pi`.
pub open spec fn in_corner(pi: u8, i: int) -> bool {
    let (ox, oy) = corner_origin(pi);
    i == cell(ox, oy) || i == cell(ox + 1, oy) || i == cell(ox, oy + 1) || i == cell(ox + 1, oy + 1)
}

/// The four centre cells where deposits are placed when a game starts.
pub open spec fn is_deposit_cell(i: int) -> bool {
    i == cell(3, 3) || i == cell(4, 4) || i == cell(4, 3) || i == cell(3, 4)
}

/// The deposit placed on a centre cell: gold on the diagonal (3,3), (4,4),
/// wood on (4,3) and (3,4).
pub open spec fn initial_deposit(i: int) -> TileState {
    if i == cell(3, 3) || i == cell(4, 4) {
        TileState::Resource { resource_type: crate::types::ResourceType::Gold, amount: 500 }
    } else {
        TileState::Resource { resource_type: crate::types::ResourceType::Wood, amount: 300 }
    }
}

/// Position of an in-bounds coordinate in the board.
pub fn cell_index(x: u8, y: u8) -> (r: usize)
    requires
        x < 8,
        y < 8,
    ensures
        r == cell(x as int, y as int),
        r < 64,
{
    (y as usize) * 8 + (x as usize)
}

/// Bounds-checked read of the tile at column `x`, row `y`.
pub fn tile_at(grid: &Vec<TileState>, x: u8, y: u8) -> (r: Result<TileState, GameError>)
    requires
        grid@.len() == 64,
    ensures
        in_bounds(x as int, y as int) ==> r == Ok::<TileState, GameError>(grid@[cell(x as int, y as int)]),
        !in_bounds(x as int, y as int) ==> r == Err::<TileState, GameError>(GameError::OutOfBounds),
{
    if x < 8 && y < 8 {
        Ok(grid[cell_index(x, y)])
    } else {
        Err(GameError::OutOfBounds)
    }
}

/// Whether two coordinates are neighbours (see [`is_adjacent`]).
pub fn adjacent(fx: u8, fy: u8, tx: u8, ty: u8) -> (r: bool)
    ensures
        r == is_adjacent(fx as int, fy as int, tx as int, ty as int),
{
    let dx: u8 = if fx >= tx { fx - tx } else { tx - fx };
    let dy: u8 = if fy >= ty { fy - ty } else { ty - fy };
    dx <= 1 && dy <= 1 && (dx as u16) + (dy as u16) > 0
}

} // verus!

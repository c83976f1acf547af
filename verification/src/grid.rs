//! Launch geometry for the device strategy.
//!
//! The device covers the image with a two-dimensional grid of blocks, each
//! block an 8 x 8 tile of threads; a thread at `(tx, ty)` inside block
//! `(bx, by)` computes the one destination pixel at column
//! `8 * bx + tx`, row `8 * by + ty`. The grid is `width / 8` blocks wide and
//! `height / 8` blocks high, so dimensions that are multiples of eight are
//! covered exactly once per pixel, while any remainder columns or rows are
//! never assigned a thread and stay unwritten — a documented limitation of
//! this design, not a runtime error.

use vstd::arithmetic::div_mod::{
    lemma_fundamental_div_mod, lemma_fundamental_div_mod_converse, lemma_multiply_divide_lt,
};
use vstd::prelude::*;

verus! {

/// Threads per block along each axis.
pub const TILE: u32 = 8;

/// A kernel launch shape: a `grid_x` x `grid_y` grid of blocks, each block
/// a `block_x` x `block_y` tile of threads.
#[derive(Clone, Copy, PartialEq, Eq, Structural, Debug)]
pub struct LaunchGeometry {
    pub grid_x: u32,
    pub grid_y: u32,
    pub block_x: u32,
    pub block_y: u32,
}

/// The column computed by thread `(bx, tx)` along the x axis.
pub open spec fn thread_col(bx: int, tx: int) -> int {
     8 * bx + tx
}

/// The row computed by thread `(by, ty)` along the y axis.
pub open spec fn thread_row(by: int, ty: int) -> int {
    8 * by + ty
}

/// The launch shape that covers a `width` x `height` image in 8 x 8 tiles.
pub fn launch_geometry(width: usize, height: usize) -> (g: LaunchGeometry)
    requires
        width <= u32::MAX,
        height <= u32::MAX,
    ensures
        g.grid_x == width as int / 8,
        g.grid_y == height as int / 8,
        g.block_x == 8,
        g.block_y == 8,
{
    LaunchGeometry {
        grid_x: width as u32 / TILE,
        grid_y: height as u32 / TILE,
        block_x: TILE,
        block_y: TILE,
    }
}

/// The destination pixel `(row, col)` of one device thread, derived from
/// its block and thread coordinates exactly as the kernel derives it.
pub fn thread_pixel(g: &LaunchGeometry, bx: u32, by: u32, tx: u32, ty: u32) -> (rc: (u32, u32))
    requires
        g.block_x == 8,
        g.block_y == 8,
        bx < g.grid_x,
        by < g.grid_y,
        tx < g.block_x,
        ty < g.block_y,
        8 * g.grid_x <= u32::MAX,
        8 * g.grid_y <= u32::MAX,
    ensures
        rc.0 == thread_row(by as int, ty as int),
        rc.1 == thread_col(bx as int, tx as int),
        rc.0 < 8 * g.grid_y,
        rc.1 < 8 * g.grid_x,
{
    (g.block_y * by + ty, g.block_x * bx + tx)
}

/// For dimensions that are multiples of eight, the tiling covers the image
/// exactly: every pixel `(row, col)` is computed by the thread at block
/// `(col / 8, row / 8)`, offset `(col % 8, row % 8)` — and by no other
/// thread, since block and offset are determined by the pixel.
pub proof fn lemma_tile_cover_exact(width: int, height: int, row: int, col: int)
    requires
        width % 8 == 0,
        height % 8 == 0,
        0 <= row < height,
        0 <= col < width,
    ensures
        0 <= col / 8 < width / 8,
        0 <= row / 8 < height / 8,
        0 <= col % 8 < 8,
        0 <= row % 8 < 8,
        thread_col(col / 8, col % 8) == col,
        thread_row(row / 8, row % 8) == row,
        forall|bx: int, tx: int|
            0 <= tx < 8 && #[trigger] thread_col(bx, tx) == col ==> bx == col / 8 && tx == col % 8,
        forall|by: int, ty: int|
            0 <= ty < 8 && #[trigger] thread_row(by, ty) == row ==> by == row / 8 && ty == row % 8,
{
    lemma_fundamental_div_mod(col, 8);
    lemma_fundamental_div_mod(row, 8);
    lemma_fundamental_div_mod(width, 8);
    lemma_fundamental_div_mod(height, 8);
    lemma_multiply_divide_lt(col, 8, width / 8);
    lemma_multiply_divide_lt(row, 8, height / 8);
    assert forall|bx: int, tx: int|
        0 <= tx < 8 && #[trigger] thread_col(bx, tx) == col implies bx == col / 8 && tx == col
        % 8 by {
        lemma_fundamental_div_mod_converse(col, 8, bx, tx);
    }
    assert forall|by: int, ty: int|
        0 <= ty < 8 && #[trigger] thread_row(by, ty) == row implies by == row / 8 && ty == row
        % 8 by {
        lemma_fundamental_div_mod_converse(row, 8, by, ty);
    }
}

/// What the tiling reaches in general: every thread of the launch shape for
/// a `width` x `height` image lands on a column below `8 * (width / 8)` and
/// a row below `8 * (height / 8)`. When a dimension is not a multiple of
/// eight, the remainder columns or rows beyond those bounds are assigned to
/// no thread at all and keep their initial value.
pub proof fn lemma_tile_reach(width: int, height: int, bx: int, by: int, tx: int, ty: int)
    requires
        0 <= bx < width / 8,
        0 <= by < height / 8,
        0 <= tx < 8,
        0 <= ty < 8,
    ensures
        0 <= thread_col(bx, tx) < 8 * (width / 8) <= width,
        0 <= thread_row(by, ty) < 8 * (height / 8) <= height,
{
    lemma_fundamental_div_mod(width, 8);
    lemma_fundamental_div_mod(height, 8);
}

} // verus!

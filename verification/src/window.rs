//! The clamped filter window.
//!
//! For a destination pixel `(row, col)` and a half-extent `radius`, the
//! window is every source coordinate `(k, l)` with
//! `max(row - radius, 0) <= k <= min(row + radius, height - 1)` and
//! `max(col - radius, 0) <= l <= min(col + radius, width - 1)`: the square
//! neighbourhood clamped to the image bounds, neither wrapped nor mirrored.
//! Both upper bounds are inclusive, so the window always contains its centre,
//! whatever the radius.

use vstd::arithmetic::div_mod::{
    lemma_fundamental_div_mod, lemma_fundamental_div_mod_converse, lemma_multiply_divide_lt,
};
use vstd::prelude::*;

use crate::image::Pixel;

verus! {

/// First window coordinate along one axis: `max(center - radius, 0)`.
pub open spec fn window_lo(center: int, radius: int) -> int {
    if center - radius >= 0 {
        center - radius
    } else {
        0
    }
}

/// Last window coordinate along one axis: `min(center + radius, dim - 1)`.
pub open spec fn window_hi(center: int, radius: int, dim: int) -> int {
    if center + radius <= dim - 1 {
        center + radius
    } else {
        dim - 1
    }
}

/// Whether `(k, l)` belongs to the window of radius `radius` around
/// `(row, col)` inside a `width` x `height` image.
pub open spec fn in_window(
    row: int,
    col: int,
    k: int,
    l: int,
    radius: int,
    width: int,
    height: int,
) -> bool {
    &&& window_lo(row, radius) <= k <= window_hi(row, radius, height)
    &&& window_lo(col, radius) <= l <= window_hi(col, radius, width)
}

/// Clamped window bounds along one axis.
///
/// Returns `(lo, hi)` with `lo == max(center - radius, 0)` and
/// `hi == min(center + radius, dim - 1)`; the centre always lies between
/// them, and both stay inside `[0, dim)`.
pub fn window_bounds(center: usize, radius: usize, dim: usize) -> (b: (usize, usize))
    requires
        center < dim,
    ensures
        b.0 == window_lo(center as int, radius as int),
        b.1 == window_hi(center as int, radius as int, dim as int),
        b.0 <= center <= b.1 < dim,
{
    let lo = if center >= radius {
        center - radius
    } else {
        0
    };
    let hi = if radius <= dim - 1 - center {
        center + radius
    } else {
        dim - 1
    };
    (lo, hi)
}

/// The window of `(row, col)`, enumerated row-major.
///
/// The result lists exactly the coordinates of the clamped window: with
/// `ncols` columns per window row, entry `n` is
/// `(lo_row + n / ncols, lo_col + n % ncols)`. Every entry lies inside the
/// image, the centre itself is entry
/// `(row - lo_row) * ncols + (col - lo_col)`, and a coordinate appears if
/// and only if it is in the window.
pub fn pixel_window(row: usize, col: usize, radius: usize, width: usize, height: usize) -> (win:
    Vec<(usize, usize)>)
    requires
        row < height,
        col < width,
    ensures
        ({
            let lo_r = window_lo(row as int, radius as int);
            let hi_r = window_hi(row as int, radius as int, height as int);
            let lo_c = window_lo(col as int, radius as int);
            let hi_c = window_hi(col as int, radius as int, width as int);
            let ncols = hi_c - lo_c + 1;
            &&& win.len() == (hi_r - lo_r + 1) * ncols
            &&& forall|n: int|
                0 <= n < win.len() ==> #[trigger] win[n] == (((lo_r + n / ncols) as usize, (lo_c + n % ncols) as usize))
        }),
        forall|n: int|
            0 <= n < win.len() ==> in_window(
                row as int,
                col as int,
                (#[trigger] win[n]).0 as int,
                win[n].1 as int,
                radius as int,
                width as int,
                height as int,
            ) && win[n].0 < height && win[n].1 < width,
        forall|k: int, l: int|
            #[trigger] in_window(row as int, col as int, k, l, radius as int, width as int, height as int)
                ==> exists|n: int| 0 <= n < win.len() && win[n] == (((k as usize, l as usize))),
        forall|n: int, m: int| 0 <= n < m < win.len() ==> win[n] != win[m],
{
    let (lo_r, hi_r) = window_bounds(row, radius, height);
    let (lo_c, hi_c) = window_bounds(col, radius, width);
    let ncols = hi_c - lo_c + 1;
    let mut win: Vec<(usize, usize)> = Vec::new();
    let mut k = lo_r;
    while k <= hi_r
        invariant
            lo_r <= k <= hi_r + 1,
            hi_r < height <= usize::MAX,
            hi_c < width <= usize::MAX,
            lo_c <= hi_c,
            ncols == hi_c - lo_c + 1,
            win.len() == (k - lo_r) * ncols,
            forall|n: int|
                0 <= n < win.len() ==> #[trigger] win[n] == (((lo_r + n / (ncols as int)) as usize, (lo_c + n % (ncols as int)) as usize)),
        decreases hi_r + 1 - k,
    {
        let mut l = lo_c;
        while l <= hi_c
            invariant
                lo_r <= k <= hi_r,
                hi_r < height <= usize::MAX,
                lo_c <= l <= hi_c + 1,
                hi_c < width <= usize::MAX,
                ncols == hi_c - lo_c + 1,
                win.len() == (k - lo_r) * ncols + (l - lo_c),
                forall|n: int|
                    0 <= n < win.len() ==> #[trigger] win[n] == (((lo_r + n / (ncols as int)) as usize, (lo_c + n % (ncols as int)) as usize)),
            decreases hi_c + 1 - l,
        {
            proof {
                lemma_fundamental_div_mod_converse(
                    win.len() as int,
                    ncols as int,
                    k - lo_r,
                    l - lo_c,
                );
            }
            win.push((k, l));
            l = l + 1;
        }
        assert(win.len() == (k + 1 - lo_r) * ncols) by (nonlinear_arith)
            requires
                win.len() == (k - lo_r) * ncols + ncols,
        ;
        k = k + 1;
    }
    proof {
        lemma_window_complete(
            row as int,
            col as int,
            radius as int,
            width as int,
            height as int,
            win@,
        );
    }
    win
}

/// Squared difference of two channel samples.
pub open spec fn channel_diff_sq(a: u8, b: u8) -> int {
    (a - b) * (a - b)
}

/// Squared Euclidean distance between two RGB triples.
pub open spec fn spec_color_dist_sq(a: Pixel, b: Pixel) -> int {
    channel_diff_sq(a.r, b.r) + channel_diff_sq(a.g, b.g) + channel_diff_sq(a.b, b.b)
}

/// Squared Euclidean distance between the RGB triples of two pixels.
///
/// This value, divided by twice the squared range falloff, is the colour
/// term of the weight exponent; the squared form is exact in the
/// integers.
pub fn l2_distance_sq(lhs: &Pixel, rhs: &Pixel) -> (d: u32)
    ensures
        d == spec_color_dist_sq(*lhs, *rhs),
        d <= 195075,
{
    let dr = lhs.r as i32 - rhs.r as i32;
    let dg = lhs.g as i32 - rhs.g as i32;
    let db = lhs.b as i32 - rhs.b as i32;
    proof {
        assert(0 <= dr * dr <= 65025 && 0 <= dg * dg <= 65025 && 0 <= db * db <= 65025)
            by (nonlinear_arith)
            requires
                -255 <= dr <= 255,
                -255 <= dg <= 255,
                -255 <= db <= 255,
        ;
    }
    (dr * dr + dg * dg + db * db) as u32
}

/// Splits a flat row-major pixel index into `(row, col)`.
pub fn index_to_coords(index: usize, width: usize) -> (rc: (usize, usize))
    requires
        width > 0,
    ensures
        rc.0 == index as int / width as int,
        rc.1 == index as int % width as int,
        rc.1 < width,
{
    (index / width, index % width)
}

/// A flat index below `width * height` splits into coordinates inside the
/// image.
pub proof fn lemma_index_to_coords_in_image(index: int, width: int, height: int)
    requires
        width > 0,
        0 <= index < width * height,
    ensures
        0 <= index / width < height,
        0 <= index % width < width,
{
    assert(0 <= index / width < height) by (nonlinear_arith)
        requires
            width > 0,
            0 <= index < width * height,
    ;
    assert(0 <= index % width < width) by (nonlinear_arith)
        requires
            width > 0,
            0 <= index,
    ;
}

/// At radius zero the window degenerates to its centre: the only coordinate
/// in the window of `(row, col)` is `(row, col)` itself, at zero spatial and
/// zero colour distance from the centre. A single sample of weight one
/// averages to itself, which is why the filter is the identity at radius
/// zero.
pub proof fn lemma_radius_zero_window(row: int, col: int, width: int, height: int)
    requires
        0 <= row < height,
        0 <= col < width,
    ensures
        window_lo(row, 0) == row,
        window_hi(row, 0, height) == row,
        window_lo(col, 0) == col,
        window_hi(col, 0, width) == col,
        forall|k: int, l: int|
            #[trigger] in_window(row, col, k, l, 0, width, height) <==> k == row && l == col,
{
}

/// The enumerated window is the window, exactly: a sequence that satisfies
/// the contract of `pixel_window` lists a coordinate if and only if it is
/// in the clamped window, lists each exactly once, and every listed
/// coordinate lies inside the image — bounds safety even for a centre in a
/// corner with a radius wider than the image.
pub proof fn lemma_window_complete(
    row: int,
    col: int,
    radius: int,
    width: int,
    height: int,
    win: Seq<(usize, usize)>,
)
    requires
        0 <= row < height,
        0 <= col < width,
        radius >= 0,
        width <= usize::MAX,
        height <= usize::MAX,
        ({
            let lo_r = window_lo(row, radius);
            let lo_c = window_lo(col, radius);
            let ncols = window_hi(col, radius, width) - lo_c + 1;
            &&& win.len() == (window_hi(row, radius, height) - lo_r + 1) * ncols
            &&& forall|n: int|
                0 <= n < win.len() ==> #[trigger] win[n] == (((lo_r + n / ncols) as usize, (lo_c + n
                    % ncols) as usize))
        }),
    ensures
        forall|n: int|
            0 <= n < win.len() ==> in_window(
                row,
                col,
                (#[trigger] win[n]).0 as int,
                win[n].1 as int,
                radius,
                width,
                height,
            ) && win[n].0 < height && win[n].1 < width,
        forall|k: int, l: int|
            #[trigger] in_window(row, col, k, l, radius, width, height) ==> exists|n: int|
                0 <= n < win.len() && win[n] == (((k as usize, l as usize))),
        forall|n: int, m: int| 0 <= n < m < win.len() ==> win[n] != win[m],
{
    let lo_r = window_lo(row, radius);
    let hi_r = window_hi(row, radius, height);
    let lo_c = window_lo(col, radius);
    let hi_c = window_hi(col, radius, width);
    let nrows = hi_r - lo_r + 1;
    let ncols = hi_c - lo_c + 1;
    assert forall|n: int|
        0 <= n < win.len() implies in_window(
        row,
        col,
        (#[trigger] win[n]).0 as int,
        win[n].1 as int,
        radius,
        width,
        height,
    ) && win[n].0 < height && win[n].1 < width by {
        lemma_entry_coordinates(n, ncols, nrows);
    }
    assert forall|k: int, l: int|
        #[trigger] in_window(row, col, k, l, radius, width, height) implies exists|n: int|
        0 <= n < win.len() && win[n] == (((k as usize, l as usize))) by {
        let n = (k - lo_r) * ncols + (l - lo_c);
        assert(0 <= n < nrows * ncols) by (nonlinear_arith)
            requires
                0 <= k - lo_r < nrows,
                0 <= l - lo_c < ncols,
                n == (k - lo_r) * ncols + (l - lo_c),
        ;
        lemma_fundamental_div_mod_converse(n, ncols, k - lo_r, l - lo_c);
        assert(win[n] == (((k as usize, l as usize))));
    }
    assert forall|n: int, m: int| 0 <= n < m < win.len() implies win[n] != win[m] by {
        lemma_entry_coordinates(n, ncols, nrows);
        lemma_entry_coordinates(m, ncols, nrows);
        lemma_fundamental_div_mod(n, ncols);
        lemma_fundamental_div_mod(m, ncols);
        if win[n] == win[m] {
            assert(lo_r + n / ncols == lo_r + m / ncols && lo_c + n % ncols == lo_c + m % ncols);
            assert(n == m);
        }
    }
}

/// A position below `nrows * ncols` splits into a row below `nrows` and a
/// column below `ncols`.
proof fn lemma_entry_coordinates(n: int, ncols: int, nrows: int)
    requires
        ncols >= 1,
        0 <= n < nrows * ncols,
    ensures
        0 <= n / ncols < nrows,
        0 <= n % ncols < ncols,
{
    lemma_fundamental_div_mod(n, ncols);
    assert(nrows * ncols == ncols * nrows) by (nonlinear_arith);
    lemma_multiply_divide_lt(n, ncols, nrows);
    assert(0 <= n / ncols) by (nonlinear_arith)
        requires
            ncols >= 1,
            0 <= n,
            n == ncols * (n / ncols) + n % ncols,
            0 <= n % ncols < ncols,
    ;
}

/// Bounds safety: every coordinate of any window lies inside
/// `[0, height) x [0, width)`, however the centre sits against a corner and
/// however large the radius.
pub proof fn lemma_window_in_bounds(
    row: int,
    col: int,
    k: int,
    l: int,
    radius: int,
    width: int,
    height: int,
)
    requires
        0 <= row < height,
        0 <= col < width,
        radius >= 0,
        in_window(row, col, k, l, radius, width, height),
    ensures
        0 <= k < height,
        0 <= l < width,
{
}

} // verus!

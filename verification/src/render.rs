//! The integer bookkeeping of the tile-parallel transient renderer: how the
//! frame is cut into tiles, how each pixel seeds its random stream, and
//! which time bins a path's arrival spreads over.

use vstd::prelude::*;

verus! {

/// A tile: `(x0, y0, width, height)` in pixels.
pub type Tile = (usize, usize, usize, usize);

/// The tiles of one row of tiles starting at column `x0`: consecutive tiles
/// of `tile` columns, the last one cut at the frame's right edge.
pub open spec fn row_tiles(width: nat, tile: nat, y0: nat, th: nat, x0: nat) -> Seq<Tile>
    decreases width + tile - x0,
{
    if x0 >= width || tile == 0 {
        Seq::empty()
    } else {
        let tw: nat = if width - x0 < tile { (width - x0) as nat } else { tile };
        seq![(x0 as usize, y0 as usize, tw as usize, th as usize)] + row_tiles(
            width,
            tile,
            y0,
            th,
            x0 + tile,
        )
    }
}

/// The tiles of the rows of tiles starting at row `y0`, row after row, the
/// last row cut at the frame's bottom edge.
pub open spec fn grid_tiles(width: nat, height: nat, tile: nat, y0: nat) -> Seq<Tile>
    decreases height + tile - y0,
{
    if y0 >= height || tile == 0 {
        Seq::empty()
    } else {
        let th: nat = if height - y0 < tile { (height - y0) as nat } else { tile };
        row_tiles(width, tile, y0, th, 0) + grid_tiles(width, height, tile, y0 + tile)
    }
}

/// All tiles of a `width × height` frame cut into `tile × tile` squares,
/// in row-major order.
pub open spec fn frame_tiles(width: nat, height: nat, tile: nat) -> Seq<Tile> {
    grid_tiles(width, height, tile, 0)
}

/// Whether pixel `(x, y)` lies in tile `t`.
pub open spec fn tile_contains(t: Tile, x: int, y: int) -> bool {
    t.0 <= x < t.0 + t.2 && t.1 <= y < t.1 + t.3
}

/// Cut a `width × height` frame into `tile × tile` tiles, row by row; the
/// tiles of the last column and row are cut at the frame's edge.
pub fn tiles(width: usize, height: usize, tile: usize) -> (r: Vec<Tile>)
    requires
        tile > 0,
        width + tile <= usize::MAX,
        height + tile <= usize::MAX,
    ensures
        r@ == frame_tiles(width as nat, height as nat, tile as nat),
{
    let mut out: Vec<Tile> = Vec::new();
    let mut y0: usize = 0;
    while y0 < height
        invariant
            tile > 0,
            width + tile <= usize::MAX,
            height + tile <= usize::MAX,
            y0 <= height + tile,
            out@ + grid_tiles(width as nat, height as nat, tile as nat, y0 as nat) == frame_tiles(
                width as nat,
                height as nat,
                tile as nat,
            ),
        decreases height + tile - y0,
    {
        let th: usize = if height - y0 < tile {
            height - y0
        } else {
            tile
        };
        let ghost row_start = out@;
        let mut x0: usize = 0;
        while x0 < width
            invariant
                tile > 0,
                width + tile <= usize::MAX,
                x0 <= width + tile,
                y0 < height,
                out@ + row_tiles(width as nat, tile as nat, y0 as nat, th as nat, x0 as nat)
                    == row_start + row_tiles(width as nat, tile as nat, y0 as nat, th as nat, 0),
            decreases width + tile - x0,
        {
            let tw: usize = if width - x0 < tile {
                width - x0
            } else {
                tile
            };
            let ghost before = out@;
            out.push((x0, y0, tw, th));
            proof {
                let rest = row_tiles(
                    width as nat,
                    tile as nat,
                    y0 as nat,
                    th as nat,
                    (x0 + tile) as nat,
                );
                assert(row_tiles(width as nat, tile as nat, y0 as nat, th as nat, x0 as nat)
                    == seq![(x0, y0, tw, th)] + rest);
                assert(out@ + rest =~= before + (seq![(x0, y0, tw, th)] + rest));
            }
            x0 = x0 + tile;
        }
        proof {
            assert(row_tiles(width as nat, tile as nat, y0 as nat, th as nat, x0 as nat)
                =~= Seq::<Tile>::empty());
            assert(out@ + Seq::<Tile>::empty() =~= out@);
            let rows = grid_tiles(width as nat, height as nat, tile as nat, (y0 + tile) as nat);
            let row = row_tiles(width as nat, tile as nat, y0 as nat, th as nat, 0);
            assert(grid_tiles(width as nat, height as nat, tile as nat, y0 as nat) == row + rows);
            assert(row_start + (row + rows) =~= (row_start + row) + rows);
        }
        y0 = y0 + tile;
    }
    proof {
        assert(grid_tiles(width as nat, height as nat, tile as nat, y0 as nat)
            =~= Seq::<Tile>::empty());
        assert(out@ + Seq::<Tile>::empty() =~= out@);
    }
    out
}

/// The random seed of the pixel at flat index `pixel_idx`: a fixed
/// constant mixed with the index by a wrapping golden-ratio multiply, so
/// every pixel draws its own reproducible stream.
pub open spec fn pixel_seed_value(pixel_idx: usize) -> u64 {
    0xCAFEBABE_DEADBEEFu64 ^ (pixel_idx as u64).wrapping_mul(0x9E3779B97F4A7C15u64)
}

pub fn pixel_seed(pixel_idx: usize) -> (r: u64)
    ensures
        r == pixel_seed_value(pixel_idx),
{
    0xCAFEBABE_DEADBEEFu64 ^ (pixel_idx as u64).wrapping_mul(0x9E3779B97F4A7C15u64)
}

/// The bins `first..last` a path's arrival is spread over: `half` bins on
/// either side of the arrival bin `center`, clipped to `0..num_bins`.
pub open spec fn bin_window_bounds(center: int, half: int, num_bins: nat) -> (nat, nat) {
    let lo = center - half;
    let hi = center + half + 1;
    let first: nat = if lo < 0 { 0 } else { lo as nat };
    let hi_clamped: nat = if hi < 0 { 0 } else { hi as nat };
    let last: nat = if hi_clamped < num_bins { hi_clamped } else { num_bins };
    (first, last)
}

/// The window of time bins around an arrival. The window's ends are
/// computed in `isize`, so they must not overflow.
pub fn bin_window(center: isize, half: isize, num_bins: usize) -> (r: (usize, usize))
    requires
        isize::MIN <= center - half <= isize::MAX,
        isize::MIN <= center + half,
        center + half + 1 <= isize::MAX,
    ensures
        (r.0 as nat, r.1 as nat) == bin_window_bounds(center as int, half as int, num_bins as nat),
        r.1 <= num_bins,
{
    let lo: isize = center - half;
    let hi: isize = center + half + 1;
    let first: usize = if lo < 0 {
        0
    } else {
        lo as usize
    };
    let hi_clamped: usize = if hi < 0 {
        0
    } else {
        hi as usize
    };
    let last: usize = if hi_clamped < num_bins {
        hi_clamped
    } else {
        num_bins
    };
    (first, last)
}

/// Whether some tile spans column `x`.
pub open spec fn column_covered(ts: Seq<Tile>, x: int) -> bool {
    exists|i: int| 0 <= i < ts.len() && (#[trigger] ts[i]).0 <= x < ts[i].0 + ts[i].2
}

/// Whether some tile contains pixel `(x, y)`.
pub open spec fn pixel_covered(ts: Seq<Tile>, x: int, y: int) -> bool {
    exists|i: int| 0 <= i < ts.len() && tile_contains(#[trigger] ts[i], x, y)
}

/// Every tile lies inside the `width × height` frame and is not empty.
pub open spec fn tiles_inside(ts: Seq<Tile>, width: nat, height: nat) -> bool {
    forall|i: int|
        0 <= i < ts.len() ==> (#[trigger] ts[i]).2 >= 1 && ts[i].3 >= 1 && ts[i].0 + ts[i].2
            <= width && ts[i].1 + ts[i].3 <= height
}

/// Each tile starts below every earlier tile, or on the same rows and to
/// the right of it.
pub open spec fn tiles_ordered(ts: Seq<Tile>) -> bool {
    forall|i: int, j: int|
        0 <= i < j < ts.len() ==> (#[trigger] ts[j]).1 >= (#[trigger] ts[i]).1 + ts[i].3 || (
        ts[j].1 == ts[i].1 && ts[j].0 >= ts[i].0 + ts[i].2)
}

proof fn lemma_row_tiles(width: nat, tile: nat, y0: nat, th: nat, x0: nat)
    requires
        tile > 0,
        width + tile <= usize::MAX,
        th >= 1,
        y0 <= usize::MAX,
        th <= usize::MAX,
    ensures
        forall|i: int|
            0 <= i < row_tiles(width, tile, y0, th, x0).len() ==> {
                let t = #[trigger] row_tiles(width, tile, y0, th, x0)[i];
                &&& t.1 == y0
                &&& t.3 == th
                &&& x0 <= t.0
                &&& t.2 >= 1
                &&& t.0 + t.2 <= width
            },
        forall|i: int, j: int|
            0 <= i < j < row_tiles(width, tile, y0, th, x0).len() ==> (#[trigger] row_tiles(
                width,
                tile,
                y0,
                th,
                x0,
            )[j]).0 >= (#[trigger] row_tiles(width, tile, y0, th, x0)[i]).0 + row_tiles(
                width,
                tile,
                y0,
                th,
                x0,
            )[i].2,
        forall|x: int|
            x0 <= x < width ==> #[trigger] column_covered(row_tiles(width, tile, y0, th, x0), x),
    decreases width + tile - x0,
{
    if x0 < width {
        let tw: nat = if width - x0 < tile { (width - x0) as nat } else { tile };
        let head = seq![(x0 as usize, y0 as usize, tw as usize, th as usize)];
        let rest = row_tiles(width, tile, y0, th, x0 + tile);
        let all = row_tiles(width, tile, y0, th, x0);
        lemma_row_tiles(width, tile, y0, th, x0 + tile);
        assert(all == head + rest);
        assert(all[0] == (x0 as usize, y0 as usize, tw as usize, th as usize));
        assert forall|i: int| 0 < i < all.len() implies #[trigger] all[i] == rest[i - 1] by {}
        assert forall|i: int, j: int| 0 <= i < j < all.len() implies (#[trigger] all[j]).0 >= (
        #[trigger] all[i]).0 + all[i].2 by {
            if i > 0 {
                assert(all[i] == rest[i - 1]);
                assert(all[j] == rest[j - 1]);
            } else {
                assert(all[j] == rest[j - 1]);
            }
        }
        assert forall|x: int| x0 <= x < width implies #[trigger] column_covered(all, x) by {
            if x < x0 + tw {
                assert(all[0].0 <= x < all[0].0 + all[0].2);
            } else {
                assert(column_covered(rest, x));
                let k = choose|k: int|
                    0 <= k < rest.len() && (#[trigger] rest[k]).0 <= x < rest[k].0 + rest[k].2;
                assert(all[k + 1] == rest[k]);
            }
        }
    }
}

proof fn lemma_grid_tiles(width: nat, height: nat, tile: nat, y0: nat)
    requires
        tile > 0,
        width + tile <= usize::MAX,
        height + tile <= usize::MAX,
    ensures
        tiles_inside(grid_tiles(width, height, tile, y0), width, height),
        tiles_ordered(grid_tiles(width, height, tile, y0)),
        forall|i: int|
            0 <= i < grid_tiles(width, height, tile, y0).len() ==> y0 <= (
            #[trigger] grid_tiles(width, height, tile, y0)[i]).1,
        forall|x: int, y: int|
            0 <= x < width && y0 <= y < height ==> #[trigger] pixel_covered(
                grid_tiles(width, height, tile, y0),
                x,
                y,
            ),
    decreases height + tile - y0,
{
    if y0 < height {
        let th: nat = if height - y0 < tile { (height - y0) as nat } else { tile };
        let row = row_tiles(width, tile, y0, th, 0);
        let rest = grid_tiles(width, height, tile, y0 + tile);
        let all = grid_tiles(width, height, tile, y0);
        lemma_row_tiles(width, tile, y0, th, 0);
        lemma_grid_tiles(width, height, tile, y0 + tile);
        assert(all == row + rest);
        assert forall|i: int| 0 <= i < row.len() implies #[trigger] all[i] == row[i] by {}
        assert forall|i: int|
            row.len() <= i < all.len() implies #[trigger] all[i] == rest[i - row.len()] by {}
        assert forall|i: int| 0 <= i < all.len() implies y0 <= (#[trigger] all[i]).1 by {
            if i < row.len() {
                assert(all[i] == row[i]);
            } else {
                assert(all[i] == rest[i - row.len()]);
            }
        }
        assert(tiles_inside(all, width, height)) by {
            assert forall|i: int| 0 <= i < all.len() implies (#[trigger] all[i]).2 >= 1 && all[i].3
                >= 1 && all[i].0 + all[i].2 <= width && all[i].1 + all[i].3 <= height by {
                if i < row.len() {
                    assert(all[i] == row[i]);
                } else {
                    assert(all[i] == rest[i - row.len()]);
                }
            }
        }
        assert(tiles_ordered(all)) by {
            assert forall|i: int, j: int| 0 <= i < j < all.len() implies (#[trigger] all[j]).1
                >= (#[trigger] all[i]).1 + all[i].3 || (all[j].1 == all[i].1 && all[j].0 >= all[i].0
                + all[i].2) by {
                if j < row.len() {
                    assert(all[i] == row[i]);
                    assert(all[j] == row[j]);
                } else if i < row.len() {
                    assert(all[i] == row[i]);
                    assert(all[j] == rest[j - row.len()]);
                } else {
                    assert(all[i] == rest[i - row.len()]);
                    assert(all[j] == rest[j - row.len()]);
                }
            }
        }
        assert forall|x: int, y: int| 0 <= x < width && y0 <= y < height implies #[trigger] pixel_covered(
            all,
            x,
            y,
        ) by {
            if y < y0 + th {
                assert(column_covered(row, x));
                let k = choose|k: int|
                    0 <= k < row.len() && (#[trigger] row[k]).0 <= x < row[k].0 + row[k].2;
                assert(all[k] == row[k]);
                assert(tile_contains(all[k], x, y));
            } else {
                assert(pixel_covered(rest, x, y));
                let k = choose|k: int| 0 <= k < rest.len() && tile_contains(#[trigger] rest[k], x, y);
                assert(all[k + row.len()] == rest[k]);
            }
        }
    }
}

/// The tiles partition the frame: every tile lies inside it and is not
/// empty, no pixel lies in two tiles, and every pixel lies in one.
pub proof fn lemma_tiles_partition_frame(width: usize, height: usize, tile: usize)
    requires
        tile > 0,
        width + tile <= usize::MAX,
        height + tile <= usize::MAX,
    ensures
        tiles_inside(frame_tiles(width as nat, height as nat, tile as nat), width as nat, height as nat),
        forall|i: int, j: int, x: int, y: int|
            0 <= i < frame_tiles(width as nat, height as nat, tile as nat).len() && 0 <= j
                < frame_tiles(width as nat, height as nat, tile as nat).len() && i != j
                && #[trigger] tile_contains(
                frame_tiles(width as nat, height as nat, tile as nat)[i],
                x,
                y,
            ) ==> !#[trigger] tile_contains(
                frame_tiles(width as nat, height as nat, tile as nat)[j],
                x,
                y,
            ),
        forall|x: int, y: int|
            0 <= x < width && 0 <= y < height ==> #[trigger] pixel_covered(
                frame_tiles(width as nat, height as nat, tile as nat),
                x,
                y,
            ),
{
    let ts = frame_tiles(width as nat, height as nat, tile as nat);
    lemma_grid_tiles(width as nat, height as nat, tile as nat, 0);
    assert forall|i: int, j: int, x: int, y: int|
        0 <= i < ts.len() && 0 <= j < ts.len() && i != j && #[trigger] tile_contains(ts[i], x, y)
            implies !#[trigger] tile_contains(ts[j], x, y) by {
        if i < j {
            assert(ts[j].1 >= ts[i].1 + ts[i].3 || (ts[j].1 == ts[i].1 && ts[j].0 >= ts[i].0
                + ts[i].2));
        } else {
            assert(ts[i].1 >= ts[j].1 + ts[j].3 || (ts[i].1 == ts[j].1 && ts[i].0 >= ts[j].0
                + ts[j].2));
        }
    }
}


/// A bin lies in the window exactly when it is a real bin (`0..num_bins`)
/// within `half` bins of the arrival bin `center`, on either side: the
/// window is the span `center - half ..= center + half` clipped to the
/// frame.
pub proof fn lemma_bin_window_members(center: int, half: int, num_bins: nat, b: int)
    ensures
        ({
            let (first, last) = bin_window_bounds(center, half, num_bins);
            (first <= b < last) <==> (0 <= b < num_bins && center - half <= b <= center + half)
        }),
{
}

/// A window that needs no clipping is symmetric about the arrival bin:
/// it starts `half` bins before `center`, ends `half` bins after it, and
/// holds `2 * half + 1` bins.
pub proof fn lemma_bin_window_unclipped(center: int, half: int, num_bins: nat)
    requires
        0 <= half,
        0 <= center - half,
        center + half + 1 <= num_bins,
    ensures
        bin_window_bounds(center, half, num_bins).0 == center - half,
        bin_window_bounds(center, half, num_bins).1 == center + half + 1,
        bin_window_bounds(center, half, num_bins).1 - bin_window_bounds(center, half, num_bins).0
            == 2 * half + 1,
{
}
} // verus!

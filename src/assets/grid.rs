//! Resizing of row-major grids.
use vstd::prelude::*;

verus! {

/// Cell `(row, col)` of `grid`, of width `width` and height `height`, once
/// resized: the old cell where it exists, else `pad`.
pub open spec fn resized_cell<T>(grid: Seq<T>, width: int, height: int, row: int, col: int, pad: T) -> T {
    if row < height && col < width {
        grid[row * width + col]
    } else {
        pad
    }
}

/// `out` is `grid` resized to `new_width` by `new_height`, truncated or padded with `pad`.
pub open spec fn is_resized<T>(out: Seq<T>, grid: Seq<T>, width: int, height: int, new_width: int, new_height: int, pad: T) -> bool {
    &&& out.len() == new_width * new_height
    &&& forall|row: int, col: int| 0 <= row < new_height && 0 <= col < new_width
        ==> #[trigger] out[row * new_width + col] == resized_cell(grid, width, height, row, col, pad)
}

proof fn lemma_cell_index(row: int, col: int, r: int, w: int)
    requires
        0 <= col < w,
        0 <= row < r,
    ensures
        row * w + col < r * w,
        0 <= row * w + col,
{
    assert(row * w + col < (row + 1) * w) by (nonlinear_arith)
        requires col < w;
    assert((row + 1) * w <= r * w) by (nonlinear_arith)
        requires row + 1 <= r, w > 0;
    assert(0 <= row * w) by (nonlinear_arith)
        requires row >= 0, w > 0;
}

/// Resizes the row-major grid `grid_vec` from `width` by `height` to
/// `new_width` by `new_height`: cells outside the old grid are filled with
/// `T::default()`, cells outside the new grid are dropped.
pub fn resize_grid<T: Copy + Default>(grid_vec: Vec<T>, width: usize, height: usize, new_width: usize, new_height: usize) -> (r: Vec<T>)
    requires
        grid_vec@.len() == width * height,
        new_width * new_height <= usize::MAX,
    ensures
        exists|pad: T| call_ensures(T::default, (), pad)
            && is_resized(r@, grid_vec@, width as int, height as int, new_width as int, new_height as int, pad),
        width == new_width && height == new_height ==> r@ == grid_vec@,
{
    let pad = T::default();
    if height == new_height && width == new_width {
        proof {
            assert forall|row: int, col: int| 0 <= row < new_height && 0 <= col < new_width
                implies #[trigger] grid_vec@[row * new_width + col] == resized_cell(grid_vec@, width as int, height as int, row, col, pad) by {
            }
            assert(is_resized(grid_vec@, grid_vec@, width as int, height as int, new_width as int, new_height as int, pad));
        }
        return grid_vec;
    }
    let ghost g = grid_vec@;
    let glen = grid_vec.len();
    let mut resized: Vec<T> = Vec::new();
    let mut row: usize = 0;
    while row < new_height
        invariant
            g == grid_vec@,
            g.len() == width * height,
            glen == g.len(),
            new_width * new_height <= usize::MAX,
            row <= new_height,
            resized@.len() == row * new_width,
            forall|r: int, c: int| 0 <= r < row && 0 <= c < new_width
                ==> #[trigger] resized@[r * new_width + c] == resized_cell(g, width as int, height as int, r, c, pad),
        decreases new_height - row,
    {
        let mut col: usize = 0;
        proof {
            assert(row * new_width + new_width <= new_width * new_height) by (nonlinear_arith)
                requires row < new_height;
        }
        while col < new_width
            invariant
                g == grid_vec@,
                g.len() == width * height,
                glen == g.len(),
                new_width * new_height <= usize::MAX,
                row < new_height,
                col <= new_width,
                row * new_width + new_width <= new_width * new_height,
                resized@.len() == row * new_width + col,
                forall|r: int, c: int| 0 <= r < row && 0 <= c < new_width
                    ==> #[trigger] resized@[r * new_width + c] == resized_cell(g, width as int, height as int, r, c, pad),
                forall|c: int| 0 <= c < col
                    ==> #[trigger] resized@[row * new_width + c] == resized_cell(g, width as int, height as int, row as int, c, pad),
            decreases new_width - col,
        {
            let ghost before = resized@;
            if row < height && col < width {
                proof {
                    lemma_cell_index(row as int, col as int, height as int, width as int);
                    assert(height * width == width * height) by (nonlinear_arith);
                }
                resized.push(grid_vec[row * width + col]);
            } else {
                resized.push(pad);
            }
            proof {
                assert forall|r: int, c: int| 0 <= r < row && 0 <= c < new_width
                    implies #[trigger] resized@[r * new_width + c] == resized_cell(g, width as int, height as int, r, c, pad) by {
                    lemma_cell_index(r, c, row as int, new_width as int);
                    assert(resized@[r * new_width + c] == before[r * new_width + c]);
                }
                assert forall|c: int| 0 <= c < col + 1
                    implies #[trigger] resized@[row * new_width + c] == resized_cell(g, width as int, height as int, row as int, c, pad) by {
                    if c < col {
                        assert(resized@[row * new_width + c] == before[row * new_width + c]);
                    }
                }
            }
            col = col + 1;
        }
        proof {
            assert((row + 1) * new_width == row * new_width + new_width) by (nonlinear_arith);
        }
        row = row + 1;
    }
    proof {
        assert(row * new_width == new_width * new_height) by (nonlinear_arith)
            requires row == new_height;
        assert(is_resized(resized@, grid_vec@, width as int, height as int, new_width as int, new_height as int, pad));
    }
    resized
}

} // verus!

use vstd::prelude::*;

verus! {

/// The pixel that comes `i`-th when a `width`-wide grid is walked row by row.
pub open spec fn grid_pixel(width: int, i: int) -> (int, int) {
    (i % width, i / width)
}

/// Where the sampler's pixel `(x, y)` lands in the output picture: mirrored
/// in both axes.
pub open spec fn mirrored(width: int, height: int, x: int, y: int) -> (int, int) {
    (width - 1 - x, height - 1 - y)
}

/// Every pixel of a `width` by `height` grid, row by row: the `i`-th is
/// `(i % width, i / width)`.
pub fn sample_grid(width: u32, height: u32) -> (r: Vec<(u32, u32)>)
    requires
        width * height <= usize::MAX,
    ensures
        r@.len() == width * height,
        forall|i: int|
            0 <= i < r@.len() ==> r@[i].0 == grid_pixel(width as int, i).0 && r@[i].1
                == grid_pixel(width as int, i).1,
{
    let mut r: Vec<(u32, u32)> = Vec::new();
    let mut y: u32 = 0;
    while y < height
        invariant
            y <= height,
            width * height <= usize::MAX,
            r@.len() == y * width,
            forall|i: int|
                0 <= i < r@.len() ==> r@[i].0 == grid_pixel(width as int, i).0 && r@[i].1
                    == grid_pixel(width as int, i).1,
        decreases height - y,
    {
        let mut x: u32 = 0;
        while x < width
            invariant
                y < height,
                x <= width,
                width * height <= usize::MAX,
                r@.len() == y * width + x,
                forall|i: int|
                    0 <= i < r@.len() ==> r@[i].0 == grid_pixel(width as int, i).0 && r@[i].1
                        == grid_pixel(width as int, i).1,
            decreases width - x,
        {
            proof {
                vstd::arithmetic::div_mod::lemma_fundamental_div_mod_converse(
                    y * width + x,
                    width as int,
                    y as int,
                    x as int,
                );
            }
            r.push((x, y));
            x = x + 1;
        }
        assert((y + 1) * width == y * width + width) by (nonlinear_arith);
        y = y + 1;
    }
    assert(height * width == width * height) by (nonlinear_arith);
    r
}

/// The output position of the sampler's pixel `(x, y)`.
pub fn mirror_pixel(width: u32, height: u32, x: u32, y: u32) -> (r: (u32, u32))
    requires
        x < width,
        y < height,
    ensures
        r.0 == mirrored(width as int, height as int, x as int, y as int).0,
        r.1 == mirrored(width as int, height as int, x as int, y as int).1,
{
    (width - x - 1, height - y - 1)
}

} // verus!

use crate::grid::{mirror_pixel, mirrored};
use vstd::prelude::*;

verus! {

/// An 8-bit RGB picture held in an `image::RgbImage`. The buffer sits in a
/// field of its own because Verus refuses a declaration of
/// `image::ImageBuffer`, whose pixel type is bound by image's `Pixel` trait.
#[verifier::external_body]
pub struct Picture {
    buf: image::RgbImage,
}

/// The pixels of a picture, row by row from the top-left corner.
pub uninterp spec fn picture_pixels(p: Picture) -> Seq<[u8; 3]>;

/// The width and height a picture was created with.
pub uninterp spec fn picture_size(p: Picture) -> (u32, u32);

impl Picture {
    /// Relies on image::ImageBuffer::new: a picture of the given size with
    /// every channel zero. It panics when the sample count overflows usize,
    /// and the allocation when it passes isize::MAX.
    #[verifier::external_body]
    fn blank(width: u32, height: u32) -> (p: Picture)
        requires
            width * height * 3 <= isize::MAX,
        ensures
            picture_size(p) == (width, height),
            picture_pixels(p) == Seq::new((width * height) as nat, |i: int| [0u8, 0u8, 0u8]),
    {
        Picture { buf: image::RgbImage::new(width, height) }
    }

    /// Relies on image::ImageBuffer::put_pixel: replaces the pixel at column
    /// `x` of row `y`, which sits at `y * width + x` in row order. It panics
    /// outside the picture.
    #[verifier::external_body]
    fn put(&mut self, x: u32, y: u32, rgb: [u8; 3])
        requires
            x < picture_size(*old(self)).0,
            y < picture_size(*old(self)).1,
        ensures
            picture_size(*final(self)) == picture_size(*old(self)),
            picture_pixels(*final(self)) == picture_pixels(*old(self)).update(
                y * picture_size(*old(self)).0 + x,
                rgb,
            ),
    {
        self.buf.put_pixel(x, y, image::Rgb(rgb))
    }

    /// Relies on image::ImageBuffer::into_raw: the sample buffer, three
    /// channels per pixel, pixels in row order; `new` allocated it at exactly
    /// that size.
    #[verifier::external_body]
    fn into_samples(self) -> (r: Vec<u8>)
        ensures
            r@ == samples_of(picture_pixels(self)),
    {
        self.buf.into_raw()
    }
}

/// The channels of `pixels` one after the other.
pub open spec fn samples_of(pixels: Seq<[u8; 3]>) -> Seq<u8> {
    Seq::new(3 * pixels.len(), |k: int| pixels[k / 3][k % 3])
}

/// The row-order pixels of the output picture when `colors` holds the
/// sampler's pixels in row order: mirroring both axes reverses the order.
pub open spec fn mirrored_layout(colors: Seq<[u8; 3]>) -> Seq<[u8; 3]> {
    colors.reverse()
}

/// Lays out the row-order pixel colors of a `width` by `height` render as the
/// samples of an RGB picture, with each pixel moved to its mirrored position.
pub fn assemble_image(width: u32, height: u32, colors: &Vec<[u8; 3]>) -> (raw: Vec<u8>)
    requires
        colors@.len() == width * height,
        width * height * 3 <= isize::MAX,
    ensures
        raw@ == samples_of(mirrored_layout(colors@)),
{
    let n: usize = (width as usize) * (height as usize);
    let mut pic = Picture::blank(width, height);
    let mut i: usize = 0;
    let mut y: u32 = 0;
    while y < height
        invariant
            y <= height,
            n == width * height,
            colors@.len() == n,
            i == y * width,
            picture_size(pic) == (width, height),
            picture_pixels(pic).len() == n,
            forall|j: int| 0 <= j < i ==> picture_pixels(pic)[n - 1 - j] == colors@[j],
        decreases height - y,
    {
        let mut x: u32 = 0;
        while x < width
            invariant
                y < height,
                x <= width,
                n == width * height,
                colors@.len() == n,
                i == y * width + x,
                picture_size(pic) == (width, height),
                picture_pixels(pic).len() == n,
                forall|j: int| 0 <= j < i ==> picture_pixels(pic)[n - 1 - j] == colors@[j],
            decreases width - x,
        {
            let (mx, my) = mirror_pixel(width, height, x, y);
            proof {
                assert((height - 1 - y) * width == width * height - y * width - width)
                    by (nonlinear_arith);
                assert(my * width + mx == n - 1 - i);
                assert(y * width + x < width * height) by (nonlinear_arith)
                    requires
                        y < height,
                        x < width,
                ;
            }
            pic.put(mx, my, colors[i]);
            i = i + 1;
            x = x + 1;
        }
        assert((y + 1) * width == y * width + width) by (nonlinear_arith);
        y = y + 1;
    }
    assert(height * width == width * height) by (nonlinear_arith);
    let raw = pic.into_samples();
    assert(picture_pixels(pic) =~= mirrored_layout(colors@));
    raw
}

/// In the assembled picture the sampler's pixel `(x, y)` shows at its
/// mirrored position: the output's pixel `(0, 0)` is the sampler's
/// `(width - 1, height - 1)`.
pub proof fn lemma_mirrored_pixel(width: u32, height: u32, colors: Seq<[u8; 3]>, x: u32, y: u32)
    requires
        colors.len() == width * height,
        x < width,
        y < height,
    ensures
        ({
            let (mx, my) = mirrored(width as int, height as int, x as int, y as int);
            &&& 0 <= mx < width
            &&& 0 <= my < height
            &&& mirrored_layout(colors)[my * width + mx] == colors[y * width + x]
        }),
{
    assert((height - 1 - y) * width == width * height - y * width - width) by (nonlinear_arith);
    assert(y * width + x < width * height) by (nonlinear_arith)
        requires
            y < height,
            x < width,
    ;
}

} // verus!

use vstd::prelude::*;

verus! {

/// One render job: the picture's size, how many paths are averaged per
/// pixel, how many rays each path may cast, where the picture goes, and the
/// two preview switches (single-hit shading, linear color mapping).
#[derive(Debug, Clone)]
pub struct RenderConfig {
    pub width: u32,
    pub height: u32,
    pub samples_per_pixel: u32,
    pub max_bounces: u32,
    pub output_name: String,
    pub trace_debug: bool,
    pub color_debug: bool,
}

impl RenderConfig {
    /// A job that can be rendered: at least one pixel and one sample, and
    /// few enough pixels that the picture's samples can be addressed.
    pub open spec fn renderable_spec(&self) -> bool {
        &&& self.width >= 1
        &&& self.height >= 1
        &&& self.samples_per_pixel >= 1
        &&& self.width * self.height * 3 <= isize::MAX
    }

    /// Whether the job can be rendered.
    pub fn is_renderable(&self) -> (r: bool)
        ensures
            r == self.renderable_spec(),
    {
        let fits = match (self.width as usize).checked_mul(self.height as usize) {
            Some(pixels) => match pixels.checked_mul(3) {
                Some(samples) => samples <= isize::MAX as usize,
                None => false,
            },
            None => false,
        };
        proof {
            if self.width * self.height > usize::MAX {
                assert(self.width * self.height * 3 > isize::MAX) by (nonlinear_arith)
                    requires
                        self.width * self.height > usize::MAX,
                ;
            }
        }
        self.width >= 1 && self.height >= 1 && self.samples_per_pixel >= 1 && fits
    }

    /// A path-traced job with tone-mapped colors.
    pub open spec fn is_job(
        &self,
        width: u32,
        height: u32,
        samples: u32,
        bounces: u32,
        name: Seq<char>,
    ) -> bool {
        &&& self.width == width
        &&& self.height == height
        &&& self.samples_per_pixel == samples
        &&& self.max_bounces == bounces
        &&& self.output_name@ == name
        &&& !self.trace_debug
        &&& !self.color_debug
    }
}

fn job(width: u32, height: u32, samples: u32, bounces: u32, name: &str) -> (c: RenderConfig)
    ensures
        c.is_job(width, height, samples, bounces, name@),
{
    RenderConfig {
        width,
        height,
        samples_per_pixel: samples,
        max_bounces: bounces,
        output_name: name.to_owned(),
        trace_debug: false,
        color_debug: false,
    }
}

/// The jobs a batch renders, in order: a tiny 20 by 20 test, a one-sample
/// one-bounce 200 by 200 picture, two 200 by 200 pictures with more samples,
/// and a large 960 by 540 one.
pub fn presets() -> (r: Vec<RenderConfig>)
    ensures
        r@.len() == 5,
        r@[0].is_job(20, 20, 8, 2, "simplest_tiny.png"@),
        r@[1].is_job(200, 200, 1, 1, "simplest.png"@),
        r@[2].is_job(200, 200, 4, 2, "simplest_4x2.png"@),
        r@[3].is_job(200, 200, 8, 2, "simplest_8x3.png"@),
        r@[4].is_job(960, 540, 8, 3, "simplest_huge.png"@),
{
    let mut r: Vec<RenderConfig> = Vec::new();
    r.push(job(20, 20, 8, 2, "simplest_tiny.png"));
    r.push(job(200, 200, 1, 1, "simplest.png"));
    r.push(job(200, 200, 4, 2, "simplest_4x2.png"));
    r.push(job(200, 200, 8, 2, "simplest_8x3.png"));
    r.push(job(960, 540, 8, 3, "simplest_huge.png"));
    r
}

} // verus!

use vstd::prelude::*;

verus! {

/// A sphere march takes at most this many samples of the distance field.
pub const MARCH_SAMPLE_LIMIT: u32 = 100;

/// The sample budget of one sphere march along a ray.
#[derive(Debug, Clone, Copy, PartialEq, Eq, Structural)]
pub struct Marcher {
    pub samples: u32,
}

impl Marcher {
    pub open spec fn wf(self) -> bool {
        self.samples <= MARCH_SAMPLE_LIMIT
    }

    /// A march that has taken no sample yet.
    pub fn new() -> (m: Marcher)
        ensures
            m.wf(),
            m.samples == 0,
    {
        Marcher { samples: 0 }
    }

    /// Whether the march samples the field again: `within_range` says that
    /// the distance travelled along the ray is still under the march's range,
    /// and the sample budget must not be spent.
    pub fn may_sample(&self, within_range: bool) -> (r: bool)
        ensures
            r == (within_range && self.samples < MARCH_SAMPLE_LIMIT),
    {
        within_range && self.samples < MARCH_SAMPLE_LIMIT
    }

    /// Records a sample that found no surface close enough: the ray moves on.
    pub fn advance(&mut self)
        requires
            old(self).samples < MARCH_SAMPLE_LIMIT,
        ensures
            final(self).wf(),
            final(self).samples == old(self).samples + 1,
    {
        self.samples = self.samples + 1;
    }
}

} // verus!

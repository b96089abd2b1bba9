use crate::kind::SurfaceKind;
use vstd::prelude::*;

verus! {

/// The light that ends a path: the sun plane seen directly, or the sun's
/// direct light reaching a wall.
#[derive(Debug, Clone, Copy, PartialEq, Eq, Structural)]
pub enum Light {
    Sky,
    Direct,
}

/// Where a path stands: waiting for the hit of its current ray, waiting for
/// the outcome of a shadow ray toward the sun, or over.
#[derive(Debug, Clone, Copy, PartialEq, Eq, Structural)]
pub enum Phase {
    Marching,
    ShadowTest,
    Done,
}

/// What the caller does with the hit it reported.
#[derive(Debug, Clone, Copy, PartialEq, Eq, Structural)]
pub enum Step {
    /// The path ends with no further light.
    Stop,
    /// Mirror the ray about the normal, step off the surface, attenuate.
    Reflect,
    /// Draw a cosine-weighted direction, step off the surface, attenuate;
    /// when `test_light` holds, cast a shadow ray toward the sun next.
    Scatter { test_light: bool },
    /// Add the attenuated light and end the path.
    Emit(Light),
}

/// Radiance of each light, per channel; direct light is further scaled by
/// the cosine of its incidence.
pub open spec fn emission_spec(light: Light) -> (u32, u32, u32) {
    match light {
        Light::Sky => (50, 80, 100),
        Light::Direct => (500, 400, 100),
    }
}

/// The radiance of a light before attenuation.
pub fn emission(light: Light) -> (r: (u32, u32, u32))
    ensures
        r == emission_spec(light),
{
    match light {
        Light::Sky => (50, 80, 100),
        Light::Direct => (500, 400, 100),
    }
}

/// Each surface a path leaves keeps a fifth of its throughput, so light
/// reached after `depth` such surfaces is divided by this.
pub open spec fn attenuation_divisor(depth: nat) -> nat
    decreases depth,
{
    if depth == 0 {
        1
    } else {
        5 * attenuation_divisor((depth - 1) as nat)
    }
}

/// The state of one light path: how many rays it may cast, how many it has
/// cast, off how many surfaces it has bounced, and the light that ended it.
#[derive(Debug, Clone, Copy, PartialEq, Eq, Structural)]
pub struct PathState {
    pub max_bounces: u32,
    pub bounces: u32,
    pub depth: u32,
    pub phase: Phase,
    pub light: Option<Light>,
}

impl PathState {
    pub open spec fn wf(self) -> bool {
        &&& self.depth <= self.bounces <= self.max_bounces
        &&& (self.phase == Phase::ShadowTest ==> self.depth >= 1)
        &&& (self.light.is_some() ==> self.phase == Phase::Done)
    }

    pub open spec fn wants_ray_spec(self) -> bool {
        self.phase == Phase::Marching && self.bounces < self.max_bounces
    }

    /// A fresh path that may cast `max_bounces` rays.
    pub open spec fn initial(max_bounces: u32) -> PathState {
        PathState { max_bounces, bounces: 0, depth: 0, phase: Phase::Marching, light: None }
    }

    /// The state and step after the current ray hit a surface of `kind`;
    /// `facing_light` says whether that surface faces the sun.
    pub open spec fn after_hit(self, kind: SurfaceKind, facing_light: bool) -> (PathState, Step) {
        let s = PathState { bounces: (self.bounces + 1) as u32, ..self };
        match kind {
            SurfaceKind::Miss => (PathState { phase: Phase::Done, ..s }, Step::Stop),
            SurfaceKind::Letter => (PathState { depth: (s.depth + 1) as u32, ..s }, Step::Reflect),
            SurfaceKind::Wall => (
                PathState {
                    depth: (s.depth + 1) as u32,
                    phase: if facing_light {
                        Phase::ShadowTest
                    } else {
                        Phase::Marching
                    },
                    ..s
                },
                Step::Scatter { test_light: facing_light },
            ),
            SurfaceKind::Sun => (
                PathState { phase: Phase::Done, light: Some(Light::Sky), ..s },
                Step::Emit(Light::Sky),
            ),
        }
    }

    /// The state and step after the shadow ray toward the sun hit a surface
    /// of `kind`: the sun itself lights the wall and ends the path.
    pub open spec fn after_shadow(self, kind: SurfaceKind) -> (PathState, Step) {
        if kind == SurfaceKind::Sun {
            (
                PathState { phase: Phase::Done, light: Some(Light::Direct), ..self },
                Step::Emit(Light::Direct),
            )
        } else {
            (PathState { phase: Phase::Marching, ..self }, Step::Scatter { test_light: false })
        }
    }

    /// A fresh path that may cast `max_bounces` rays.
    pub fn new(max_bounces: u32) -> (s: PathState)
        ensures
            s.wf(),
            s == PathState::initial(max_bounces),
    {
        PathState { max_bounces, bounces: 0, depth: 0, phase: Phase::Marching, light: None }
    }

    /// Whether the path casts its current ray: it has not ended, awaits no
    /// shadow ray, and has rays left in its budget.
    pub fn wants_ray(&self) -> (r: bool)
        ensures
            r == self.wants_ray_spec(),
    {
        self.phase == Phase::Marching && self.bounces < self.max_bounces
    }

    /// Takes the kind of surface the current ray hit, and whether the surface
    /// faces the sun (its normal has a positive cosine with the light
    /// direction), and says what to do next: end on a miss, mirror off a
    /// glyph, scatter off a wall, take the sky's light from the sun plane.
    pub fn on_hit(&mut self, kind: SurfaceKind, facing_light: bool) -> (step: Step)
        requires
            old(self).wf(),
            old(self).wants_ray_spec(),
        ensures
            final(self).wf(),
            (*final(self), step) == old(self).after_hit(kind, facing_light),
    {
        self.bounces = self.bounces + 1;
        match kind {
            SurfaceKind::Miss => {
                self.phase = Phase::Done;
                Step::Stop
            },
            SurfaceKind::Letter => {
                self.depth = self.depth + 1;
                Step::Reflect
            },
            SurfaceKind::Wall => {
                self.depth = self.depth + 1;
                if facing_light {
                    self.phase = Phase::ShadowTest;
                }
                Step::Scatter { test_light: facing_light }
            },
            SurfaceKind::Sun => {
                self.phase = Phase::Done;
                self.light = Some(Light::Sky);
                Step::Emit(Light::Sky)
            },
        }
    }

    /// Takes the kind of surface the shadow ray toward the sun hit. When it
    /// is the sun, the wall is lit: the path ends with direct light.
    /// Otherwise the path goes on from the scattered ray.
    pub fn on_shadow(&mut self, kind: SurfaceKind) -> (step: Step)
        requires
            old(self).wf(),
            old(self).phase == Phase::ShadowTest,
        ensures
            final(self).wf(),
            (*final(self), step) == old(self).after_shadow(kind),
    {
        if kind == SurfaceKind::Sun {
            self.phase = Phase::Done;
            self.light = Some(Light::Direct);
            Step::Emit(Light::Direct)
        } else {
            self.phase = Phase::Marching;
            Step::Scatter { test_light: false }
        }
    }
}

/// A path whose first ray meets the sun plane ends there with the sky's
/// radiance, unattenuated, as long as its budget allows that one ray.
pub proof fn lemma_sun_first(max_bounces: u32, facing_light: bool)
    requires
        max_bounces >= 1,
    ensures
        PathState::initial(max_bounces).wants_ray_spec(),
        ({
            let (s, step) = PathState::initial(max_bounces).after_hit(SurfaceKind::Sun, facing_light);
            &&& step == Step::Emit(Light::Sky)
            &&& s.light == Some(Light::Sky)
            &&& !s.wants_ray_spec()
            &&& attenuation_divisor(s.depth as nat) == 1
            &&& emission_spec(Light::Sky) == (50u32, 80u32, 100u32)
        }),
{
    reveal_with_fuel(attenuation_divisor, 1);
}

/// A glyph or a wall keeps a fifth of the path's throughput; a miss or the
/// sun leaves it as it was.
pub proof fn lemma_attenuation_per_hit(s: PathState, kind: SurfaceKind, facing_light: bool)
    requires
        s.wf(),
        s.wants_ray_spec(),
    ensures
        ({
            let (t, step) = s.after_hit(kind, facing_light);
            attenuation_divisor(t.depth as nat) == attenuation_divisor(s.depth as nat) * (
            if step is Reflect || step is Scatter {
                5nat
            } else {
                1nat
            })
        }),
{
    reveal_with_fuel(attenuation_divisor, 2);
}

/// A path with no budget casts no ray and gathers no light.
pub proof fn lemma_empty_budget()
    ensures
        !PathState::initial(0).wants_ray_spec(),
        PathState::initial(0).light.is_none(),
{
}

/// Once a path has ended it casts no further ray, and each ray it casts
/// counts against its budget: no path casts more than `max_bounces` rays.
pub proof fn lemma_budget(s: PathState, kind: SurfaceKind, facing_light: bool)
    requires
        s.wf(),
        s.wants_ray_spec(),
    ensures
        s.after_hit(kind, facing_light).0.wf(),
        s.after_hit(kind, facing_light).0.bounces == s.bounces + 1,
        s.after_hit(kind, facing_light).0.bounces <= s.max_bounces,
        s.after_hit(kind, facing_light).0.phase == Phase::Done ==> !s.after_hit(
            kind,
            facing_light,
        ).0.wants_ray_spec(),
{
}

/// The single-hit preview shading: what to show for the kind of surface
/// the camera ray hit.
#[derive(Debug, Clone, Copy)]
pub enum PreviewStep {
    /// Show this color, each channel 0 or 1.
    Shade((u8, u8, u8)),
    /// A wall: shade it by whether the sun lights it.
    TestLight,
}

pub open spec fn preview_step_spec(kind: SurfaceKind) -> PreviewStep {
    match kind {
        SurfaceKind::Miss => PreviewStep::Shade((0, 0, 0)),
        SurfaceKind::Letter => PreviewStep::Shade((1, 0, 0)),
        SurfaceKind::Wall => PreviewStep::TestLight,
        SurfaceKind::Sun => PreviewStep::Shade((1, 1, 1)),
    }
}

/// Preview shading of a surface kind: black for a miss, red for a glyph,
/// white for the sun; a wall needs the light test.
pub fn preview_step(kind: SurfaceKind) -> (r: PreviewStep)
    ensures
        r == preview_step_spec(kind),
{
    match kind {
        SurfaceKind::Miss => PreviewStep::Shade((0, 0, 0)),
        SurfaceKind::Letter => PreviewStep::Shade((1, 0, 0)),
        SurfaceKind::Wall => PreviewStep::TestLight,
        SurfaceKind::Sun => PreviewStep::Shade((1, 1, 1)),
    }
}

/// Preview shading of a wall: green where the sun lights it, blue elsewhere.
pub fn preview_wall(lit: bool) -> (r: (u8, u8, u8))
    ensures
        r == (if lit {
            (0u8, 1u8, 0u8)
        } else {
            (0u8, 0u8, 1u8)
        }),
{
    if lit {
        (0, 1, 0)
    } else {
        (0, 0, 1)
    }
}

} // verus!

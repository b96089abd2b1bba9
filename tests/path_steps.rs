use sdf_tracer::kind::SurfaceKind;
use sdf_tracer::path::{emission, preview_step, preview_wall, Light, PathState, Phase, PreviewStep, Step};

#[test]
fn sun_hit_first_emits_unattenuated_sky() {
    let mut p = PathState::new(1);
    assert!(p.wants_ray());
    let step = p.on_hit(SurfaceKind::Sun, false);
    assert_eq!(step, Step::Emit(Light::Sky));
    assert_eq!(p.depth, 0);
    assert_eq!(p.light, Some(Light::Sky));
    assert!(!p.wants_ray());
    assert_eq!(emission(Light::Sky), (50, 80, 100));
}

#[test]
fn empty_budget_casts_nothing() {
    let p = PathState::new(0);
    assert!(!p.wants_ray());
    assert_eq!(p.light, None);
}

#[test]
fn miss_ends_path_without_light() {
    let mut p = PathState::new(3);
    assert_eq!(p.on_hit(SurfaceKind::Miss, true), Step::Stop);
    assert_eq!(p.phase, Phase::Done);
    assert_eq!(p.light, None);
    assert!(!p.wants_ray());
}

#[test]
fn letter_reflects_and_attenuates() {
    let mut p = PathState::new(3);
    assert_eq!(p.on_hit(SurfaceKind::Letter, true), Step::Reflect);
    assert_eq!(p.depth, 1);
    assert_eq!(p.bounces, 1);
    assert!(p.wants_ray());
    assert_eq!(p.on_hit(SurfaceKind::Sun, false), Step::Emit(Light::Sky));
    assert_eq!(p.depth, 1);
}

#[test]
fn lit_wall_ends_with_direct_light() {
    let mut p = PathState::new(2);
    assert_eq!(p.on_hit(SurfaceKind::Wall, true), Step::Scatter { test_light: true });
    assert_eq!(p.phase, Phase::ShadowTest);
    assert!(!p.wants_ray());
    assert_eq!(p.on_shadow(SurfaceKind::Sun), Step::Emit(Light::Direct));
    assert_eq!(p.light, Some(Light::Direct));
    assert_eq!(p.depth, 1);
    assert!(!p.wants_ray());
    assert_eq!(emission(Light::Direct), (500, 400, 100));
}

#[test]
fn shadowed_wall_goes_on() {
    let mut p = PathState::new(2);
    p.on_hit(SurfaceKind::Wall, true);
    assert_eq!(p.on_shadow(SurfaceKind::Letter), Step::Scatter { test_light: false });
    assert_eq!(p.phase, Phase::Marching);
    assert!(p.wants_ray());
}

#[test]
fn wall_facing_away_skips_shadow_ray() {
    let mut p = PathState::new(2);
    assert_eq!(p.on_hit(SurfaceKind::Wall, false), Step::Scatter { test_light: false });
    assert_eq!(p.phase, Phase::Marching);
    assert_eq!(p.depth, 1);
}

#[test]
fn budget_runs_out() {
    let mut p = PathState::new(2);
    p.on_hit(SurfaceKind::Letter, false);
    p.on_hit(SurfaceKind::Wall, false);
    assert_eq!(p.bounces, 2);
    assert_eq!(p.depth, 2);
    assert!(!p.wants_ray());
    assert_eq!(p.light, None);
}

#[test]
fn preview_shades() {
    assert!(matches!(preview_step(SurfaceKind::Miss), PreviewStep::Shade((0, 0, 0))));
    assert!(matches!(preview_step(SurfaceKind::Letter), PreviewStep::Shade((1, 0, 0))));
    assert!(matches!(preview_step(SurfaceKind::Wall), PreviewStep::TestLight));
    assert!(matches!(preview_step(SurfaceKind::Sun), PreviewStep::Shade((1, 1, 1))));
    assert_eq!(preview_wall(true), (0, 1, 0));
    assert_eq!(preview_wall(false), (0, 0, 1));
}

use sdf_tracer::config::presets;
use sdf_tracer::march::{Marcher, MARCH_SAMPLE_LIMIT};
use sdf_tracer::scene::{arc_centers, code_value, letter_strokes, Stroke};

#[test]
fn code_values() {
    assert_eq!(code_value(b'O'), 0);
    assert_eq!(code_value(b'5'), -26);
    assert_eq!(code_value(b'_'), 16);
    assert_eq!(code_value(b'i'), 26);
}

#[test]
fn strokes_decoded() {
    let s = letter_strokes();
    assert_eq!(s.len(), 15);
    assert_eq!(s[0], Stroke { x0: -26, y0: 0, x1: -26, y1: 16 });
    assert_eq!(s[7], Stroke { x0: -6, y0: 16, x1: 2, y1: 0 });
    assert_eq!(s[14], Stroke { x0: 20, y0: 8, x1: 26, y1: 0 });
}

#[test]
fn arcs() {
    assert_eq!(arc_centers(), vec![(11, 6), (-11, 6)]);
}

#[test]
fn marcher_budget() {
    let mut m = Marcher::new();
    assert!(!m.may_sample(false));
    let mut n: u32 = 0;
    while m.may_sample(true) {
        m.advance();
        n += 1;
    }
    assert_eq!(n, MARCH_SAMPLE_LIMIT);
    assert_eq!(n, 100);
}

#[test]
fn preset_jobs() {
    let p = presets();
    assert_eq!(p.len(), 5);
    assert_eq!((p[0].width, p[0].height, p[0].samples_per_pixel, p[0].max_bounces), (20, 20, 8, 2));
    assert_eq!(p[0].output_name, "simplest_tiny.png");
    assert_eq!((p[1].width, p[1].samples_per_pixel, p[1].max_bounces), (200, 1, 1));
    assert_eq!(p[1].output_name, "simplest.png");
    assert_eq!(p[3].output_name, "simplest_8x3.png");
    assert_eq!((p[4].width, p[4].height, p[4].samples_per_pixel, p[4].max_bounces), (960, 540, 8, 3));
    assert!(p.iter().all(|c| !c.trace_debug && !c.color_debug && c.is_renderable()));
}

#[test]
fn unrenderable_jobs() {
    let mut c = presets()[0].clone();
    c.samples_per_pixel = 0;
    assert!(!c.is_renderable());
    let mut d = presets()[0].clone();
    d.width = 0;
    assert!(!d.is_renderable());
    let mut e = presets()[0].clone();
    e.width = u32::MAX;
    e.height = u32::MAX;
    assert_eq!(e.is_renderable(), (u32::MAX as u128) * (u32::MAX as u128) * 3 <= isize::MAX as u128);
}

use map_editor::scale::{font_metrics, FontMetrics};

#[test]
fn unit_scale_is_the_identity() {
    assert_eq!(
        font_metrics(1),
        Some(FontMetrics { size_pixels: 20, scale_numerator: 1, scale_denominator: 1 })
    );
}

#[test]
fn double_scale_doubles_the_font_and_halves_the_interface() {
    let metrics = font_metrics(2).unwrap();
    assert_eq!(metrics.size_pixels, 40);
    assert_eq!((metrics.scale_numerator, metrics.scale_denominator), (1, 2));
    let size = metrics.size_pixels as f32;
    let scale = metrics.scale_numerator as f32 / metrics.scale_denominator as f32;
    assert_eq!(size, 20.0 * 2.0);
    assert_eq!(scale, 1.0 / 2.0);
    assert_eq!(size * scale, 20.0);
}

#[test]
fn unit_scale_in_floating_point() {
    let metrics = font_metrics(1).unwrap();
    let size = metrics.size_pixels as f32;
    let scale = metrics.scale_numerator as f32 / metrics.scale_denominator as f32;
    assert_eq!(size, 20.0);
    assert_eq!(scale, 1.0);
}

#[test]
fn largest_scale_does_not_overflow() {
    assert_eq!(
        font_metrics(u16::MAX),
        Some(FontMetrics { size_pixels: 1_310_700, scale_numerator: 1, scale_denominator: 65_535 })
    );
}

#[test]
fn zero_scale_has_no_metrics() {
    assert_eq!(font_metrics(0), None);
}

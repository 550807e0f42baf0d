use wellium::CoreError;
use wellium::layout::AspectRatio;
use wellium::layout::Mode;
use wellium::layout::PixelLength;
use wellium::layout::dimensions;
use wellium::layout::rounded_percent;
use wellium::layout::select;
use wellium::layout::threshold_scaled_of;

#[test]
fn select_landscape_wide_viewport() {
    // width/height = 2.0 exceeds the 20-widget threshold of 0.884.
    assert_eq!(select(1000, 500, 20), Ok(Mode::Landscape));
}

#[test]
fn select_portrait_tall_viewport() {
    // width/height = 0.5 is below the 20-widget threshold.
    assert_eq!(select(500, 1000, 20), Ok(Mode::Portrait));
}

#[test]
fn select_zero_height_is_invalid_viewport() {
    assert_eq!(select(800, 0, 20), Err(CoreError::InvalidViewport));
    assert_eq!(select(0, 0, 12), Err(CoreError::InvalidViewport));
}

#[test]
fn select_exact_threshold_is_portrait() {
    // At 20 widgets the scaled threshold is 8840: a 8840 x 10000 viewport
    // sits exactly on the boundary, and the tie goes to portrait.
    assert_eq!(threshold_scaled_of(20), 8840);
    assert_eq!(select(8840, 10000, 20), Ok(Mode::Portrait));
    assert_eq!(select(8841, 10000, 20), Ok(Mode::Landscape));
}

#[test]
fn threshold_band_endpoints() {
    assert_eq!(threshold_scaled_of(12), 13304);
    assert_eq!(threshold_scaled_of(24), 6608);
}

#[test]
fn threshold_clamps_widget_count() {
    assert_eq!(threshold_scaled_of(1), threshold_scaled_of(12));
    assert_eq!(threshold_scaled_of(0), threshold_scaled_of(12));
    assert_eq!(threshold_scaled_of(25), threshold_scaled_of(24));
    assert_eq!(threshold_scaled_of(1000), threshold_scaled_of(24));
}

#[test]
fn threshold_monotonically_decreasing_across_band() {
    let mut prev = threshold_scaled_of(12);
    let mut n: usize = 13;
    while n <= 24 {
        let cur = threshold_scaled_of(n);
        assert!(cur < prev, "threshold must strictly decrease at {}", n);
        prev = cur;
        n += 1;
    }
}

#[test]
fn portrait_dimensions_full_width() {
    // Portrait at width 360 with aspect 1/2: (360, 180) whatever the height
    // and widget count.
    let aspect = AspectRatio::new(1, 2);
    let (w, h) = dimensions(Mode::Portrait, 360, 999, 7, aspect);
    assert_eq!(w.num, 360);
    assert_eq!(w.den, 1);
    assert_eq!(h.num, 360);
    assert_eq!(h.den, 2);
    assert_eq!(h.whole_pixels(), 180);
}

#[test]
fn landscape_dimensions_sixteen_widgets() {
    // Landscape at height 1600 with 16 widgets: the column width is
    // 1600 / (16/16) = 1600, and aspect 1/2 gives height 800.
    let aspect = AspectRatio::new(1, 2);
    let (w, h) = dimensions(Mode::Landscape, 77, 1600, 16, aspect);
    assert_eq!(w.num, 16 * 1600);
    assert_eq!(w.den, 16);
    assert_eq!(w.whole_pixels(), 1600);
    assert_eq!(h.num, 16 * 1600);
    assert_eq!(h.den, 32);
    assert_eq!(h.whole_pixels(), 800);
}

#[test]
fn landscape_dimensions_clamp_small_count() {
    // 8 widgets clamps to 12: the column width is 1600 / (12/16) exactly.
    let aspect = AspectRatio::new(1, 3);
    let (w, _h) = dimensions(Mode::Landscape, 0, 1600, 8, aspect);
    assert_eq!(w.num, 16 * 1600);
    assert_eq!(w.den, 12);
    assert_eq!(w.whole_pixels(), 2133);
}

#[test]
fn whole_pixels_drops_fraction() {
    let third = PixelLength { num: 100, den: 3 };
    assert_eq!(third.whole_pixels(), 33);
}

#[test]
fn rounded_percent_values() {
    assert_eq!(rounded_percent(0, 100), 0);
    assert_eq!(rounded_percent(30, 100), 30);
    assert_eq!(rounded_percent(100, 100), 100);
    assert_eq!(rounded_percent(1, 3), 33);
    assert_eq!(rounded_percent(2, 3), 67);
    assert_eq!(rounded_percent(1, 200), 1);
}

#[test]
fn rounded_percent_zero_denominator_reads_zero() {
    assert_eq!(rounded_percent(5, 0), 0);
}

//! Adaptive layout engine: picks an orientation mode from the viewport shape
//! and derives per-widget pixel dimensions from it.
//!
//! The orientation switch compares the viewport's width/height ratio against a
//! count-sensitive threshold, `clamp(totalWidgets, 12, 24) * -0.0558 + 2.0`.
//! All arithmetic here is exact: the threshold is carried scaled by 10^4, and
//! widget dimensions are exact rationals, so no comparison ever loses
//! precision to rounding.

use vstd::prelude::*;

use crate::CoreError;

verus! {

/// The orientation-driven layout strategy, recomputed on every viewport
/// change.
#[derive(Clone, Copy, PartialEq, Eq, Structural, Debug)]
pub enum Mode {
    /// Multi-column flow: widgets share one column width derived from the
    /// viewport height.
    Landscape,
    /// Single-column flow: widgets span the full viewport width.
    Portrait,
}

/// The widget count is clamped to this band before it shapes the threshold.
pub const WIDGET_COUNT_FLOOR: u64 = 12;
pub const WIDGET_COUNT_CEILING: u64 = 24;

/// The threshold is `2.0 - 0.0558 * clamped_count`, held scaled by 10^4:
/// `THRESHOLD_BASE_SCALED` stands for 2.0 and `THRESHOLD_SLOPE_SCALED` for
/// 0.0558.
pub const THRESHOLD_BASE_SCALED: u64 = 20000;
pub const THRESHOLD_SLOPE_SCALED: u64 = 558;
pub const THRESHOLD_SCALE: u64 = 10000;

/// The widget count, clamped to the band [12, 24].
pub open spec fn clamped_count(total_widgets: int) -> int {
    if total_widgets < WIDGET_COUNT_FLOOR {
        WIDGET_COUNT_FLOOR as int
    } else if total_widgets > WIDGET_COUNT_CEILING {
        WIDGET_COUNT_CEILING as int
    } else {
        total_widgets
    }
}

/// The orientation threshold for a dashboard of `total_widgets` widgets,
/// scaled by 10^4: the viewport is landscape when
/// `width / height > threshold_scaled(total_widgets) / 10^4`.
pub open spec fn threshold_scaled(total_widgets: int) -> int {
    THRESHOLD_BASE_SCALED - THRESHOLD_SLOPE_SCALED * clamped_count(total_widgets)
}

/// Exactly the landscape test `width / height > threshold`, cross-multiplied
/// so it is stated over integers (sound because `height > 0`).
pub open spec fn is_landscape(width: int, height: int, total_widgets: int) -> bool {
    width * THRESHOLD_SCALE > threshold_scaled(total_widgets) * height
}

/// The widget count clamped to [12, 24], as executable code.
pub fn clamp_widget_count(total_widgets: usize) -> (r: u64)
    ensures
        r == clamped_count(total_widgets as int),
{
    if (total_widgets as u64) < WIDGET_COUNT_FLOOR {
        WIDGET_COUNT_FLOOR
    } else if (total_widgets as u64) > WIDGET_COUNT_CEILING {
        WIDGET_COUNT_CEILING
    } else {
        total_widgets as u64
    }
}

/// The scaled orientation threshold, as executable code.
pub fn threshold_scaled_of(total_widgets: usize) -> (r: u64)
    ensures
        r == threshold_scaled(total_widgets as int),
{
    let c = clamp_widget_count(total_widgets);
    THRESHOLD_BASE_SCALED - THRESHOLD_SLOPE_SCALED * c
}

/// The threshold narrows strictly as the dashboard grows through the clamp
/// band: for widget counts `lo < hi` inside [12, 24] the threshold at `hi` is
/// strictly below the threshold at `lo`. At the band's edges it is exactly
/// 1.3304 (scaled: 13304) and 0.6608 (scaled: 6608).
pub proof fn lemma_threshold_decreasing(lo: int, hi: int)
    requires
        12 <= lo < hi <= 24,
    ensures
        threshold_scaled(hi) < threshold_scaled(lo),
        threshold_scaled(12) == 13304,
        threshold_scaled(24) == 6608,
{
}

/// Selects the layout mode for a measured viewport.
///
/// Fails with `InvalidViewport` exactly when no usable measurement exists
/// (zero height); otherwise returns `Landscape` precisely when the viewport's
/// width/height ratio exceeds the count-sensitive threshold, and `Portrait`
/// otherwise. Pure and total: identical inputs always give identical output.
pub fn select(width: u64, height: u64, total_widgets: usize) -> (r: Result<Mode, CoreError>)
    ensures
        r is Err <==> height == 0,
        r is Err ==> r == Err::<Mode, CoreError>(CoreError::InvalidViewport),
        height > 0 ==> r == Ok::<Mode, CoreError>(
            if is_landscape(width as int, height as int, total_widgets as int) {
                Mode::Landscape
            } else {
                Mode::Portrait
            },
        ),
{
    if height == 0 {
        return Err(CoreError::InvalidViewport);
    }
    let th = threshold_scaled_of(total_widgets);
    proof {
        assert((th as int) * (height as int) <= u128::MAX) by (nonlinear_arith)
            requires
                th <= u64::MAX,
                height <= u64::MAX,
        ;
    }
    let lhs: u128 = (width as u128) * (THRESHOLD_SCALE as u128);
    let rhs: u128 = (th as u128) * (height as u128);
    if lhs > rhs {
        Ok(Mode::Landscape)
    } else {
        Ok(Mode::Portrait)
    }
}

/// A widget's declared height/width ratio, as an exact positive rational.
#[derive(Clone, Copy, PartialEq, Eq, Structural, Debug)]
pub struct AspectRatio {
    pub num: u32,
    pub den: u32,
}

impl AspectRatio {
    /// A usable ratio is strictly positive.
    pub open spec fn is_valid(self) -> bool {
        self.num > 0 && self.den > 0
    }

    pub fn new(num: u32, den: u32) -> (r: Self)
        requires
            num > 0,
            den > 0,
        ensures
            r.num == num,
            r.den == den,
            r.is_valid(),
    {
        AspectRatio { num, den }
    }
}

/// An exact non-negative rational number of pixels. Layout results are carried
/// this way so the contracts can pin them down without rounding.
#[derive(Clone, Copy, PartialEq, Eq, Structural, Debug)]
pub struct PixelLength {
    pub num: u128,
    pub den: u128,
}

impl PixelLength {
    /// A meaningful length has a non-zero denominator.
    pub open spec fn is_valid(self) -> bool {
        self.den > 0
    }

    /// Whether this length is exactly `v` whole pixels.
    pub open spec fn is_exactly(self, v: int) -> bool {
        self.num == v * self.den
    }

    /// The number of whole pixels in this length (the fractional part is
    /// dropped).
    pub fn whole_pixels(&self) -> (r: u128)
        requires
            self.is_valid(),
        ensures
            r == self.num as int / self.den as int,
    {
        self.num / self.den
    }
}

/// Per-widget pixel dimensions, `(width, height)`, for one widget under the
/// given mode:
/// - Portrait: the widget spans the full viewport width and its height is
///   `width * aspect`.
/// - Landscape: every widget shares one column width,
///   `height / (clamped_count / 16)`, and the widget's height is that column
///   width times its aspect ratio.
pub open spec fn dimensions_spec(
    mode: Mode,
    width: int,
    height: int,
    total_widgets: int,
    aspect: AspectRatio,
) -> (PixelLength, PixelLength) {
    match mode {
        Mode::Portrait => (
            (PixelLength { num: width as u128, den: 1 }),
            (PixelLength { num: (width * aspect.num) as u128, den: aspect.den as u128 }),
        ),
        Mode::Landscape => (
            (PixelLength {
                num: (16 * height) as u128,
                den: clamped_count(total_widgets) as u128,
            }),
            (PixelLength {
                num: (16 * height * aspect.num) as u128,
                den: (clamped_count(total_widgets) * aspect.den) as u128,
            }),
        ),
    }
}

/// Computes one widget's pixel dimensions. Pure: no I/O, no side effects, and
/// the result is exact — both lengths are well-formed rationals, equal to
/// `dimensions_spec` field for field.
pub fn dimensions(
    mode: Mode,
    width: u64,
    height: u64,
    total_widgets: usize,
    aspect: AspectRatio,
) -> (r: (PixelLength, PixelLength))
    requires
        aspect.is_valid(),
    ensures
        r == dimensions_spec(mode, width as int, height as int, total_widgets as int, aspect),
        r.0.is_valid(),
        r.1.is_valid(),
{
    match mode {
        Mode::Portrait => {
            proof {
                assert((width as int) * (aspect.num as int) <= u128::MAX) by (nonlinear_arith)
                    requires
                        width <= u64::MAX,
                        aspect.num <= u32::MAX,
                ;
            }
            let w = PixelLength { num: width as u128, den: 1 };
            let h = PixelLength {
                num: (width as u128) * (aspect.num as u128),
                den: aspect.den as u128,
            };
            (w, h)
        },
        Mode::Landscape => {
            let c = clamp_widget_count(total_widgets);
            let col: u128 = 16 * (height as u128);
            proof {
                assert((col as int) * (aspect.num as int) <= u128::MAX) by (nonlinear_arith)
                    requires
                        col <= 16 * (u64::MAX as int),
                        aspect.num <= u32::MAX,
                ;
                assert(1 <= (c as int) * (aspect.den as int) <= u128::MAX) by (nonlinear_arith)
                    requires
                        1 <= c <= 24,
                        1 <= aspect.den <= u32::MAX,
                ;
            }
            let w = PixelLength { num: col, den: c as u128 };
            let h = PixelLength {
                num: col * (aspect.num as u128),
                den: (c as u128) * (aspect.den as u128),
            };
            (w, h)
        },
    }
}

/// A progress display's percentage, `100 * numerator / denominator`, rounded
/// to the nearest whole percent (halves round up); a zero denominator reads as
/// zero percent.
pub open spec fn percent_spec(numerator: int, denominator: int) -> int {
    if denominator == 0 {
        0
    } else {
        (200 * numerator + denominator) / (2 * denominator)
    }
}

/// The rounded percentage a labeled progress bar displays. Never exceeds 100
/// when the numerator is within the denominator.
pub fn rounded_percent(numerator: u32, denominator: u32) -> (r: u64)
    ensures
        r == percent_spec(numerator as int, denominator as int),
        numerator <= denominator ==> r <= 100,
{
    if denominator == 0 {
        0
    } else {
        let n = numerator as u64;
        let d = denominator as u64;
        let r = (200 * n + d) / (2 * d);
        proof {
            if numerator <= denominator {
                assert((200 * (n as int) + d) / (2 * (d as int)) <= 100) by (nonlinear_arith)
                    requires
                        0 < d <= u32::MAX,
                        0 <= n <= d,
                ;
            }
        }
        r
    }
}

} // verus!

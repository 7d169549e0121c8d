//! Font metrics for a display scale that is a whole number, as a window
//! attached in rounded high-DPI mode reports it. The font is made larger by
//! the scale and the interface as a whole smaller by the same ratio, so that
//! text keeps its physical size on every display.

use vstd::prelude::*;
use crate::ui::FONT_PIXEL_SIZE;

verus! {

/// The size the font is rasterized at, and the scale applied to the whole
/// interface, the latter as a fraction.
#[derive(Clone, Copy, Debug, PartialEq, Eq)]
pub struct FontMetrics {
    /// Pixel size of the font.
    pub size_pixels: u32,
    /// Numerator of the global interface scale.
    pub scale_numerator: u32,
    /// Denominator of the global interface scale; never zero.
    pub scale_denominator: u32,
}

/// The metrics for a display scale of `factor`: the nominal font size times
/// the factor, and the reciprocal of the factor.
pub open spec fn metrics_for(factor: u16) -> FontMetrics {
    FontMetrics {
        size_pixels: (FONT_PIXEL_SIZE * factor) as u32,
        scale_numerator: 1,
        scale_denominator: factor as u32,
    }
}

/// Computes the font metrics for a display scale of `factor`. A scale of zero
/// has no reciprocal and gets no metrics.
pub fn font_metrics(factor: u16) -> (metrics: Option<FontMetrics>)
    ensures
        factor == 0 ==> metrics.is_none(),
        factor > 0 ==> metrics == Some(metrics_for(factor)),
{
    if factor == 0 {
        return None;
    }
    let wide: u32 = factor as u32;
    Some(
        FontMetrics {
            size_pixels: FONT_PIXEL_SIZE * wide,
            scale_numerator: 1,
            scale_denominator: wide,
        },
    )
}

/// At every scale the font size times the interface scale is the nominal font
/// size, and at a scale of one the font has its nominal size and the
/// interface is not scaled at all.
pub proof fn lemma_text_keeps_its_size(factor: u16)
    requires
        factor > 0,
    ensures
        metrics_for(factor).size_pixels == 20 * factor,
        metrics_for(factor).scale_denominator > 0,
        metrics_for(factor).size_pixels * metrics_for(factor).scale_numerator == FONT_PIXEL_SIZE
            * metrics_for(factor).scale_denominator,
        metrics_for(1) == (FontMetrics {
            size_pixels: 20,
            scale_numerator: 1,
            scale_denominator: 1,
        }),
{
}

} // verus!

use vstd::prelude::*;

use crate::error::RenderError;

verus! {

/// Fractional values (zoom factors, DPI, font sizes) are held in millionths.
pub const MICROS_PER_UNIT: i64 = 1_000_000;

/// A signed decimal with six fraction digits: the value is `micros / 10^6`.
#[derive(Debug, Clone, Copy, PartialEq, Eq, Structural)]
pub struct Fixed {
    pub micros: i64,
}

/// How the target raster size is derived from the document's intrinsic size.
#[derive(Debug, Clone, Copy, PartialEq, Eq, Structural)]
pub enum JsFitTo {
    /// Keep the intrinsic size.
    Original,
    /// Scale uniformly to the given width.
    Width { value: u32 },
    /// Scale uniformly to the given height.
    Height { value: u32 },
    /// Scale both sides by the given factor.
    Zoom { value: Fixed },
}

/// `n / d` rounded to the nearest integer, halves rounded up.
pub open spec fn round_div(n: int, d: int) -> int {
    (2 * n + d) / (2 * d)
}

/// The target size that `mode` asks for, before any range check.
pub open spec fn target_dims(iw: int, ih: int, mode: JsFitTo) -> (int, int) {
    match mode {
        JsFitTo::Original => (iw, ih),
        JsFitTo::Width { value } => (value as int, round_div(ih * value, iw)),
        JsFitTo::Height { value } => (round_div(iw * value, ih), value as int),
        JsFitTo::Zoom { value } => (
            round_div(iw * value.micros, MICROS_PER_UNIT as int),
            round_div(ih * value.micros, MICROS_PER_UNIT as int),
        ),
    }
}

/// The outcome of fitting a document of intrinsic size `iw` x `ih` with `mode`.
pub open spec fn fit_outcome(iw: int, ih: int, mode: JsFitTo) -> Result<(u32, u32), RenderError> {
    let (w, h) = target_dims(iw, ih, mode);
    if w <= 0 || h <= 0 {
        Err(RenderError::ZeroTargetSize)
    } else if w > u32::MAX || h > u32::MAX {
        Err(RenderError::CanvasTooLarge)
    } else {
        Ok((w as u32, h as u32))
    }
}

/// Rounded quotient of two non-negative numbers, in exact wide arithmetic.
fn round_div_u128(n: u128, d: u128) -> (r: u128)
    requires
        d > 0,
        n < 0x1_0000_0000_0000_0000_0000_0000,
        d < 0x1_0000_0000_0000_0000,
    ensures
        r == round_div(n as int, d as int),
{
    (2 * n + d) / (2 * d)
}

impl JsFitTo {
    /// Computes the target raster size for a document whose intrinsic size is
    /// `width` x `height` pixels. Fails with `ZeroTargetSize` when a side
    /// rounds to zero or below, and with `CanvasTooLarge` when a side does not
    /// fit in a `u32`.
    pub fn fit_to(&self, width: u32, height: u32) -> (r: Result<(u32, u32), RenderError>)
        requires
            width > 0,
            height > 0,
        ensures
            r == fit_outcome(width as int, height as int, *self),
    {
        let iw = width as u128;
        let ih = height as u128;
        let (w, h): (u128, u128) = match *self {
            JsFitTo::Original => (iw, ih),
            JsFitTo::Width { value } => {
                let v = value as u128;
                assert(ih * v < 0x1_0000_0000_0000_0000) by (nonlinear_arith)
                    requires ih < 0x1_0000_0000, v < 0x1_0000_0000;
                (v, round_div_u128(ih * v, iw))
            },
            JsFitTo::Height { value } => {
                let v = value as u128;
                assert(iw * v < 0x1_0000_0000_0000_0000) by (nonlinear_arith)
                    requires iw < 0x1_0000_0000, v < 0x1_0000_0000;
                (round_div_u128(iw * v, ih), v)
            },
            JsFitTo::Zoom { value } => {
                if value.micros <= 0 {
                    proof {
                        degenerate_fit_has_zero_size(width as int, height as int, *self);
                    }
                    return Err(RenderError::ZeroTargetSize);
                }
                let m = value.micros as u128;
                let d = MICROS_PER_UNIT as u128;
                assert(iw * m < 0x1_0000_0000_0000_0000_0000_0000) by (nonlinear_arith)
                    requires iw < 0x1_0000_0000, m < 0x1_0000_0000_0000_0000;
                assert(ih * m < 0x1_0000_0000_0000_0000_0000_0000) by (nonlinear_arith)
                    requires ih < 0x1_0000_0000, m < 0x1_0000_0000_0000_0000;
                (round_div_u128(iw * m, d), round_div_u128(ih * m, d))
            },
        };
        if w == 0 || h == 0 {
            Err(RenderError::ZeroTargetSize)
        } else if w > u32::MAX as u128 || h > u32::MAX as u128 {
            Err(RenderError::CanvasTooLarge)
        } else {
            Ok((w as u32, h as u32))
        }
    }
}

/// A zoom factor of zero or below, or a fixed width or height of zero,
/// leaves a side of zero pixels: fitting fails with `ZeroTargetSize`
/// whatever the document's size.
pub proof fn degenerate_fit_has_zero_size(iw: int, ih: int, mode: JsFitTo)
    requires
        iw > 0,
        ih > 0,
        match mode {
            JsFitTo::Zoom { value } => value.micros <= 0,
            JsFitTo::Width { value } => value == 0,
            JsFitTo::Height { value } => value == 0,
            JsFitTo::Original => false,
        },
    ensures
        fit_outcome(iw, ih, mode) == Err::<(u32, u32), RenderError>(RenderError::ZeroTargetSize),
{
    if let JsFitTo::Zoom { value } = mode {
        let m = value.micros as int;
        assert(round_div(iw * m, MICROS_PER_UNIT as int) <= 0) by (nonlinear_arith)
            requires iw > 0, m <= 0;
    }
}

} // verus!

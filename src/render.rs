use vstd::prelude::*;

use crate::canvas::{
    clone_rect, crop_bytes, fill_opaque, new_pixmap, opaque_fill, pixmap_bytes, pixmap_dims,
    pixmap_height, pixmap_len, pixmap_size_ok, pixmap_width, well_formed,
};
use crate::color::{color_literal, parse_color, Color};
use crate::document::{intrinsic_size, paint_tree, parse_svg, PaintScale};
use crate::encode::{png_rgba8, write_png};
use crate::error::RenderError;
use crate::fit::{degenerate_fit_has_zero_size, fit_outcome, JsFitTo};
use crate::options::{CropRect, JsOptions};

verus! {

/// The outcome of preparing the canvas for a document of intrinsic size
/// `iw` x `ih`: the fitted size, or the error that fitting or allocating
/// gives.
pub open spec fn canvas_outcome(iw: int, ih: int, fit: JsFitTo) -> Result<(u32, u32), RenderError> {
    match fit_outcome(iw, ih, fit) {
        Ok(dims) => if pixmap_size_ok(dims.0 as int, dims.1 as int) {
            Ok(dims)
        } else {
            Err(RenderError::CanvasTooLarge)
        },
        Err(e) => Err(e),
    }
}

/// The canvas bytes before rendering: transparent, or the background color.
pub open spec fn background_bytes(len: nat, background: Option<Color>) -> Seq<u8> {
    match background {
        Some(c) => opaque_fill(len, c.red, c.green, c.blue),
        None => Seq::new(len, |i: int| 0u8),
    }
}

/// Allocates the canvas for a document of intrinsic size `width` x `height`
/// fitted with `fit`, and fills it with the background color if one is set.
/// Fails with `ZeroTargetSize` or `CanvasTooLarge` before allocating.
pub fn prepare_canvas(fit: &JsFitTo, background: Option<Color>, width: u32, height: u32) -> (r: Result<
    tiny_skia::Pixmap,
    RenderError,
>)
    requires
        width > 0,
        height > 0,
    ensures
        r is Ok <==> canvas_outcome(width as int, height as int, *fit) is Ok,
        r is Err ==> canvas_outcome(width as int, height as int, *fit) == Err::<(u32, u32), RenderError>(r->Err_0),
        r is Ok ==> {
            let dims = canvas_outcome(width as int, height as int, *fit)->Ok_0;
            &&& pixmap_width(r->Ok_0) == dims.0
            &&& pixmap_height(r->Ok_0) == dims.1
            &&& pixmap_bytes(r->Ok_0) == background_bytes((dims.0 * dims.1 * 4) as nat, background)
            &&& well_formed(r->Ok_0)
        },
{
    let (w, h) = fit.fit_to(width, height)?;
    let mut pixmap = match new_pixmap(w, h) {
        Some(p) => p,
        None => return Err(RenderError::CanvasTooLarge),
    };
    if let Some(c) = background {
        fill_opaque(&mut pixmap, c.red, c.green, c.blue);
    }
    Ok(pixmap)
}

/// The region `(x, y, width, height)` that `crop` selects on a `w` x `h`
/// canvas, or `None` when it does not lie inside the canvas with positive
/// size, or reaches pixels that the raster backend cannot address (its
/// rectangles have `i32` corners, its pixel indices are `u32`), or the
/// canvas itself is taller than `i32::MAX` rows, which the backend cannot
/// crop.
pub open spec fn crop_region(crop: CropRect, w: int, h: int) -> Option<(int, int, int, int)> {
    let right = match crop.right {
        Some(v) => v as int,
        None => w,
    };
    let bottom = match crop.bottom {
        Some(v) => v as int,
        None => h,
    };
    if h <= i32::MAX && 0 <= crop.left < right <= w && 0 <= crop.top < bottom <= h && bottom <= i32::MAX && (bottom - 1)
        * w + right - 1 <= u32::MAX {
        Some((crop.left as int, crop.top as int, right - crop.left, bottom - crop.top))
    } else {
        None
    }
}

/// Works out the region that `crop` selects on a `w` x `h` canvas.
pub fn resolve_crop(crop: &CropRect, w: u32, h: u32) -> (r: Option<(u32, u32, u32, u32)>)
    ensures
        r is None <==> crop_region(*crop, w as int, h as int) is None,
        r is Some ==> crop_region(*crop, w as int, h as int) == Some(
            (r->Some_0.0 as int, r->Some_0.1 as int, r->Some_0.2 as int, r->Some_0.3 as int),
        ),
{
    let right: i64 = match crop.right {
        Some(v) => v as i64,
        None => w as i64,
    };
    let bottom: i64 = match crop.bottom {
        Some(v) => v as i64,
        None => h as i64,
    };
    let left = crop.left as i64;
    let top = crop.top as i64;
    if 0 <= left && left < right && right <= w as i64 && 0 <= top && top < bottom && bottom <= h as i64 {
        assert((bottom - 1) * w <= 0xffff_ffff * 0xffff_ffff) by (nonlinear_arith)
            requires 0 <= bottom - 1 <= 0xffff_ffff, w <= 0xffff_ffff;
        if h <= i32::MAX as u32 && bottom <= i32::MAX as i64 && ((bottom - 1) as u64) * (w as u64) + (right - 1) as u64
            <= u32::MAX as u64 {
            Some(((left as u32), (top as u32), ((right - left) as u32), ((bottom - top) as u32)))
        } else {
            None
        }
    } else {
        None
    }
}

/// The size and bytes of the image that cropping `p` with `crop` leaves. A
/// pixmap without exactly four bytes per pixel is left as it is.
pub open spec fn cropped_image(p: tiny_skia::Pixmap, crop: Option<CropRect>) -> (u32, u32, Seq<u8>) {
    let w = pixmap_width(p);
    let h = pixmap_height(p);
    match crop {
        Some(c) => match if well_formed(p) { crop_region(c, w as int, h as int) } else { None } {
            Some(region) => (
                region.2 as u32,
                region.3 as u32,
                crop_bytes(pixmap_bytes(p), w as int, region.0, region.1, region.2, region.3),
            ),
            None => (w, h, pixmap_bytes(p)),
        },
        None => (w, h, pixmap_bytes(p)),
    }
}

/// Crops the canvas to the region that `crop` selects. An absent or invalid
/// crop keeps the whole canvas.
pub fn apply_crop(canvas: tiny_skia::Pixmap, crop: &Option<CropRect>) -> (r: tiny_skia::Pixmap)
    ensures
        (pixmap_width(r), pixmap_height(r), pixmap_bytes(r)) == cropped_image(canvas, *crop),
        well_formed(canvas) ==> well_formed(r),
{
    match crop {
        None => canvas,
        Some(c) => {
            let (w, h) = pixmap_dims(&canvas);
            let len = pixmap_len(&canvas);
            assert((w as int) * (h as int) * 4 <= usize::MAX);
            if len != (w as usize) * (h as usize) * 4 {
                return canvas;
            }
            match resolve_crop(c, w, h) {
                None => canvas,
                Some((x, y, cw, ch)) => match clone_rect(&canvas, x, y, cw, ch) {
                    Some(p) => p,
                    None => canvas,
                },
            }
        },
    }
}

/// The size of the image that cropping a `w` x `h` canvas with `crop` leaves.
pub open spec fn output_size(crop: Option<CropRect>, w: u32, h: u32) -> (u32, u32) {
    match crop {
        Some(c) => match crop_region(c, w as int, h as int) {
            Some(region) => (region.2 as u32, region.3 as u32),
            None => (w, h),
        },
        None => (w, h),
    }
}

/// A crop whose right edge is not past its left edge, or whose bottom edge
/// is not below its top edge, selects nothing: the whole canvas is kept.
pub proof fn inverted_crop_keeps_canvas(p: tiny_skia::Pixmap, c: CropRect)
    requires
        (c.right is Some && c.right->Some_0 <= c.left) || (c.bottom is Some && c.bottom->Some_0 <= c.top),
    ensures
        cropped_image(p, Some(c)) == (pixmap_width(p), pixmap_height(p), pixmap_bytes(p)),
{
}

/// Turns the rendered canvas into the output bytes. When the renderer
/// produced nothing the output is empty; otherwise the canvas is cropped
/// and encoded as PNG.
pub fn finish_render(canvas: tiny_skia::Pixmap, crop: &Option<CropRect>, produced: bool) -> (r: Result<
    Vec<u8>,
    RenderError,
>)
    ensures
        !produced ==> r is Ok && r->Ok_0@.len() == 0,
        produced && well_formed(canvas) ==> r is Ok,
        produced && r is Ok ==> {
            let img = cropped_image(canvas, *crop);
            r->Ok_0@ == png_rgba8(img.0, img.1, img.2)
        },
        r is Err ==> produced && r->Err_0 is EncodingFailed,
{
    if !produced {
        return Ok(Vec::new());
    }
    let image = apply_crop(canvas, crop);
    write_png(&image)
}

/// Which canvas side the renderer scales the document to: the height in
/// height mode, the width otherwise.
pub open spec fn paint_scale_of(fit: JsFitTo) -> PaintScale {
    match fit {
        JsFitTo::Height { .. } => PaintScale::ToHeight,
        _ => PaintScale::ToWidth,
    }
}

/// Picks the canvas side the renderer scales the document to.
pub fn paint_scale(fit: &JsFitTo) -> (r: PaintScale)
    ensures
        r == paint_scale_of(*fit),
{
    match fit {
        JsFitTo::Height { .. } => PaintScale::ToHeight,
        _ => PaintScale::ToWidth,
    }
}

/// Renders markup to PNG bytes: parses the background color, parses the
/// document with `svg_options` (which carry the font database), prepares
/// the canvas at the fitted size, paints the document (scaled to the canvas
/// height in height mode, to its width otherwise), then crops and encodes.
/// A document that paints nothing gives empty output.
pub fn render_svg(svg: &str, svg_options: &usvg::Options, options: &JsOptions) -> (r: Result<
    Vec<u8>,
    RenderError,
>)
    ensures
        options.background is Some && color_literal(options.background->Some_0@) is None ==> r
            == Err::<Vec<u8>, RenderError>(RenderError::InvalidColor { text: options.background->Some_0 }),
        r is Err && r->Err_0 is InvalidColor ==> options.background is Some && color_literal(
            options.background->Some_0@,
        ) is None,
        r is Err ==> match r->Err_0 {
            RenderError::InvalidOptions { .. } => false,
            RenderError::EncodingFailed { .. } => false,
            _ => true,
        },
        (options.fit_to matches JsFitTo::Zoom { value } && value.micros <= 0) ==> r is Err,
        (options.fit_to matches JsFitTo::Width { value } && value == 0) ==> r is Err,
        (options.fit_to matches JsFitTo::Height { value } && value == 0) ==> r is Err,
        r is Ok ==> r->Ok_0@.len() == 0 || exists|iw: u32, ih: u32|
            #![trigger canvas_outcome(iw as int, ih as int, options.fit_to)]
            {
                &&& iw > 0
                &&& ih > 0
                &&& canvas_outcome(iw as int, ih as int, options.fit_to) is Ok
                &&& {
                    let dims = canvas_outcome(iw as int, ih as int, options.fit_to)->Ok_0;
                    let out = output_size(options.crop, dims.0, dims.1);
                    exists|data: Seq<u8>| r->Ok_0@ == png_rgba8(out.0, out.1, data)
                }
            },
{
    let background = parse_color(&options.background)?;
    let tree = match parse_svg(svg, svg_options) {
        Ok(t) => t,
        Err(reason) => return Err(RenderError::ParseFailed { reason }),
    };
    let (w, h) = intrinsic_size(&tree);
    proof {
        match options.fit_to {
            JsFitTo::Zoom { value } => if value.micros <= 0 {
                degenerate_fit_has_zero_size(w as int, h as int, options.fit_to);
            },
            JsFitTo::Width { value } => if value == 0 {
                degenerate_fit_has_zero_size(w as int, h as int, options.fit_to);
            },
            JsFitTo::Height { value } => if value == 0 {
                degenerate_fit_has_zero_size(w as int, h as int, options.fit_to);
            },
            JsFitTo::Original => {},
        }
    }
    let mut canvas = prepare_canvas(&options.fit_to, background, w, h)?;
    let scale = paint_scale(&options.fit_to);
    let produced = paint_tree(&tree, scale, &mut canvas);
    let out = finish_render(canvas, &options.crop, produced);
    proof {
        if produced && out is Ok {
            let dims = canvas_outcome(w as int, h as int, options.fit_to)->Ok_0;
            let o = output_size(options.crop, dims.0, dims.1);
            assert(out->Ok_0@ == png_rgba8(o.0, o.1, cropped_image(canvas, options.crop).2));
        }
    }
    out
}

} // verus!

use vstd::prelude::*;

verus! {

/// The widest pixmap the raster backend accepts: a row of four bytes per
/// pixel must fit in an `i32`.
pub const MAX_PIXMAP_WIDTH: u32 = 536_870_911;

#[verifier::external_type_specification]
#[verifier::external_body]
pub struct ExPixmap(tiny_skia::Pixmap);

/// Width in pixels of a pixmap.
pub uninterp spec fn pixmap_width(p: tiny_skia::Pixmap) -> u32;

/// Height in pixels of a pixmap.
pub uninterp spec fn pixmap_height(p: tiny_skia::Pixmap) -> u32;

/// Premultiplied RGBA bytes of a pixmap, row by row.
pub uninterp spec fn pixmap_bytes(p: tiny_skia::Pixmap) -> Seq<u8>;

/// Whether a pixmap of `w` x `h` pixels can be allocated.
pub open spec fn pixmap_size_ok(w: int, h: int) -> bool {
    0 < w <= MAX_PIXMAP_WIDTH && 0 < h && w * h * 4 <= usize::MAX
}

/// `len` bytes holding one opaque color, pixel after pixel.
pub open spec fn opaque_fill(len: nat, r: u8, g: u8, b: u8) -> Seq<u8> {
    Seq::new(len, |i: int| if i % 4 == 0 { r } else if i % 4 == 1 { g } else if i % 4 == 2 { b } else { 255u8 })
}

/// The bytes of the `w` x `h` sub-rectangle at (`x`, `y`) of an image whose
/// rows are `src_w` pixels wide.
pub open spec fn crop_bytes(src: Seq<u8>, src_w: int, x: int, y: int, w: int, h: int) -> Seq<u8> {
    Seq::new((w * h * 4) as nat, |i: int| {
        let px = i / 4;
        src[((px / w + y) * src_w + (px % w + x)) * 4 + i % 4]
    })
}

/// Relies on `tiny_skia::Pixmap::new`: a zero-filled pixmap, or `None` when
/// a side is zero, the width exceeds `i32::MAX / 4` or the byte count
/// overflows `usize`.
#[verifier::external_body]
pub(crate) fn new_pixmap(width: u32, height: u32) -> (r: Option<tiny_skia::Pixmap>)
    ensures
        r is Some <==> pixmap_size_ok(width as int, height as int),
        r is Some ==> pixmap_width(r->Some_0) == width,
        r is Some ==> pixmap_height(r->Some_0) == height,
        r is Some ==> pixmap_bytes(r->Some_0) == Seq::new((width * height * 4) as nat, |i: int| 0u8),
{
    tiny_skia::Pixmap::new(width, height)
}

/// Whether a pixmap holds exactly four bytes for each of its pixels, as
/// every pixmap that `Pixmap::new` or `clone_rect` makes does. One copied
/// from a longer borrowed slice may hold more.
pub open spec fn well_formed(p: tiny_skia::Pixmap) -> bool {
    pixmap_bytes(p).len() == pixmap_width(p) * pixmap_height(p) * 4
}

/// Relies on `tiny_skia::Pixmap::width` and `height`: every pixmap is built
/// from an `IntSize` that passed `data_len_for_size`, so its sides are
/// non-zero and its width is at most `i32::MAX / 4`.
#[verifier::external_body]
pub(crate) fn pixmap_dims(p: &tiny_skia::Pixmap) -> (r: (u32, u32))
    ensures
        r.0 == pixmap_width(*p),
        r.1 == pixmap_height(*p),
        pixmap_size_ok(r.0 as int, r.1 as int),
{
    (p.width(), p.height())
}

/// Relies on `tiny_skia::Pixmap::data`: the number of bytes it holds.
#[verifier::external_body]
pub(crate) fn pixmap_len(p: &tiny_skia::Pixmap) -> (r: usize)
    ensures
        r == pixmap_bytes(*p).len(),
{
    p.data().len()
}

/// Relies on `tiny_skia::Pixmap::fill`: every pixel becomes the given color.
/// An opaque color is stored unchanged by premultiplication.
#[verifier::external_body]
pub(crate) fn fill_opaque(p: &mut tiny_skia::Pixmap, red: u8, green: u8, blue: u8)
    requires
        well_formed(*old(p)),
    ensures
        pixmap_width(*final(p)) == pixmap_width(*old(p)),
        pixmap_height(*final(p)) == pixmap_height(*old(p)),
        pixmap_bytes(*final(p)) == opaque_fill(pixmap_bytes(*old(p)).len(), red, green, blue),
{
    p.fill(tiny_skia::Color::from_rgba8(red, green, blue, 255))
}

/// Relies on `tiny_skia::Pixmap::clone_rect`: a rectangle that lies inside
/// the pixmap is copied pixel for pixel into a new pixmap of its size. The
/// backend builds the rectangle with `i32` corners and indexes pixels with
/// `u32`, hence the bounds on the rectangle's last row and last pixel; it
/// also turns the whole pixmap into an `i32` rectangle, which fails (and
/// panics) for a pixmap taller than `i32::MAX` rows.
#[verifier::external_body]
pub(crate) fn clone_rect(p: &tiny_skia::Pixmap, x: u32, y: u32, width: u32, height: u32) -> (r: Option<tiny_skia::Pixmap>)
    requires
        well_formed(*p),
        pixmap_height(*p) <= i32::MAX,
        0 < width,
        0 < height,
        x + width <= pixmap_width(*p),
        y + height <= pixmap_height(*p),
        y + height <= i32::MAX,
        (y + height - 1) * pixmap_width(*p) + x + width - 1 <= u32::MAX,
    ensures
        r is Some,
        r is Some ==> pixmap_width(r->Some_0) == width,
        r is Some ==> pixmap_height(r->Some_0) == height,
        r is Some ==> pixmap_bytes(r->Some_0) == crop_bytes(
            pixmap_bytes(*p),
            pixmap_width(*p) as int,
            x as int,
            y as int,
            width as int,
            height as int,
        ),
{
    let rect = tiny_skia::IntRect::from_xywh(x as i32, y as i32, width, height)?;
    p.clone_rect(rect)
}

} // verus!

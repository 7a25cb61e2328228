use vstd::prelude::*;

use crate::canvas::{pixmap_bytes, pixmap_height, pixmap_width};

verus! {

#[verifier::external_type_specification]
#[verifier::external_body]
pub struct ExTree(usvg::Tree);

#[verifier::external_type_specification]
#[verifier::external_body]
pub struct ExSvgOptions(usvg::Options);

/// Relies on `usvg::Tree::from_str`: parses the markup with the given
/// parser options and font database; its error is kept as text.
#[verifier::external_body]
pub(crate) fn parse_svg(text: &str, opt: &usvg::Options) -> (r: Result<usvg::Tree, String>) {
    usvg::Tree::from_str(text, opt).map_err(|e| e.to_string())
}

/// Relies on `usvg::Size::to_screen_size` of the root element's size: the
/// intrinsic size rounded to whole pixels, at least 1 on each side.
#[verifier::external_body]
pub(crate) fn intrinsic_size(tree: &usvg::Tree) -> (r: (u32, u32))
    ensures
        r.0 > 0,
        r.1 > 0,
{
    let size = tree.svg_node().size.to_screen_size();
    (size.width(), size.height())
}

/// Which side of the canvas the document is scaled to fill.
#[derive(Debug, Clone, Copy, PartialEq, Eq, Structural)]
pub enum PaintScale {
    ToWidth,
    ToHeight,
}

/// Relies on `resvg::render`: paints the document onto the pixmap, scaled
/// uniformly so that its width (or height) is the pixmap's, and returns
/// whether anything was produced. Painting goes through a `PixmapMut` that
/// borrows the pixmap's bytes, so its size and byte count stay as they are.
#[verifier::external_body]
pub(crate) fn paint_tree(tree: &usvg::Tree, scale: PaintScale, p: &mut tiny_skia::Pixmap) -> (r: bool)
    ensures
        pixmap_width(*final(p)) == pixmap_width(*old(p)),
        pixmap_height(*final(p)) == pixmap_height(*old(p)),
        pixmap_bytes(*final(p)).len() == pixmap_bytes(*old(p)).len(),
{
    let fit_to = match scale {
        PaintScale::ToWidth => usvg::FitTo::Width(p.width()),
        PaintScale::ToHeight => usvg::FitTo::Height(p.height()),
    };
    resvg::render(tree, fit_to, p.as_mut()).is_some()
}

} // verus!

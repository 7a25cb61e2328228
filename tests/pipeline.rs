use resvg_render::color::Color;
use resvg_render::encode::write_png;
use resvg_render::error::RenderError;
use resvg_render::fit::{Fixed, JsFitTo};
use resvg_render::options::{CropRect, JsOptions};
use resvg_render::document::PaintScale;
use resvg_render::render::{apply_crop, finish_render, paint_scale, prepare_canvas, render_svg, resolve_crop};

fn decode_png(bytes: &[u8]) -> (u32, u32, Vec<u8>) {
    let decoder = png::Decoder::new(bytes);
    let (info, mut reader) = decoder.read_info().unwrap();
    let mut buf = vec![0; info.buffer_size()];
    reader.next_frame(&mut buf).unwrap();
    assert_eq!(info.color_type, png::ColorType::RGBA);
    assert_eq!(info.bit_depth, png::BitDepth::Eight);
    (info.width, info.height, buf)
}

fn gradient(width: u32, height: u32) -> tiny_skia::Pixmap {
    let mut p = tiny_skia::Pixmap::new(width, height).unwrap();
    for (i, b) in p.data_mut().iter_mut().enumerate() {
        // opaque pixels so that premultiplication changes nothing
        *b = if i % 4 == 3 { 255 } else { (i % 251) as u8 };
    }
    p
}

#[test]
fn canvas_without_background_is_transparent() {
    let p = prepare_canvas(&JsFitTo::Original, None, 3, 2).unwrap();
    assert_eq!((p.width(), p.height()), (3, 2));
    assert!(p.data().iter().all(|b| *b == 0));
}

#[test]
fn canvas_background_fills_every_pixel() {
    let bg = Some(Color { red: 10, green: 20, blue: 30 });
    let p = prepare_canvas(&JsFitTo::Width { value: 4 }, bg, 2, 1).unwrap();
    assert_eq!((p.width(), p.height()), (4, 2));
    for px in p.data().chunks(4) {
        assert_eq!(px, &[10, 20, 30, 255]);
    }
}

#[test]
fn canvas_zero_zoom_fails_before_allocating() {
    let zoom = JsFitTo::Zoom { value: Fixed { micros: 0 } };
    assert_eq!(prepare_canvas(&zoom, None, 100, 50).err(), Some(RenderError::ZeroTargetSize));
}

#[test]
fn canvas_too_wide_for_backend() {
    let wide = JsFitTo::Width { value: 600_000_000 };
    assert_eq!(prepare_canvas(&wide, None, 600_000_000, 1).err(), Some(RenderError::CanvasTooLarge));
}

#[test]
fn png_round_trip_keeps_size_and_pixels() {
    let p = gradient(5, 3);
    let bytes = write_png(&p).unwrap();
    let (w, h, data) = decode_png(&bytes);
    assert_eq!((w, h), (5, 3));
    assert_eq!(data, p.data().to_vec());
}

#[test]
fn single_red_pixel_encodes() {
    let mut p = tiny_skia::Pixmap::new(1, 1).unwrap();
    p.fill(tiny_skia::Color::from_rgba8(255, 0, 0, 255));
    let bytes = write_png(&p).unwrap();
    assert_eq!(decode_png(&bytes), (1, 1, vec![255, 0, 0, 255]));
}

fn oversized_buffer_pixmap() -> tiny_skia::Pixmap {
    let bytes = [7u8; 6];
    tiny_skia::PixmapRef::from_bytes(&bytes, 1, 1).unwrap().to_owned()
}

#[test]
fn crop_keeps_pixmap_with_extra_bytes() {
    let p = oversized_buffer_pixmap();
    assert_eq!(p.data().len(), 6);
    let crop = Some(CropRect { left: 0, top: 0, right: Some(1), bottom: Some(1) });
    let out = apply_crop(p, &crop);
    assert_eq!((out.width(), out.height()), (1, 1));
    assert_eq!(out.data(), &[7u8; 6][..]);
}

#[test]
fn pixmap_with_extra_bytes_fails_to_encode() {
    let p = oversized_buffer_pixmap();
    assert!(matches!(write_png(&p), Err(RenderError::EncodingFailed { .. })));
}

#[test]
fn render_svg_fits_height() {
    let mut options = JsOptions::new();
    options.fit_to = JsFitTo::Height { value: 25 };
    let bytes = render_svg(SQUARE, &usvg::Options::default(), &options).unwrap();
    let (w, h, data) = decode_png(&bytes);
    assert_eq!((w, h), (50, 25));
    assert_eq!(&data[data.len() - 4..], &[0, 0, 255, 255]);
}

#[test]
fn png_encoding_is_deterministic() {
    let p = gradient(7, 4);
    assert_eq!(write_png(&p).unwrap(), write_png(&p).unwrap());
}

#[test]
fn crop_region_defaults_to_canvas_edges() {
    let crop = CropRect { left: 2, top: 1, right: None, bottom: None };
    assert_eq!(resolve_crop(&crop, 10, 8), Some((2, 1, 8, 7)));
}

#[test]
fn inverted_crop_keeps_full_canvas() {
    let p = gradient(20, 20);
    let crop = Some(CropRect { left: 10, top: 10, right: Some(5), bottom: Some(5) });
    let out = apply_crop(p.clone(), &crop);
    assert_eq!((out.width(), out.height()), (20, 20));
    assert_eq!(out.data(), p.data());
}

#[test]
fn crop_outside_canvas_keeps_full_canvas() {
    let p = gradient(4, 4);
    let crop = Some(CropRect { left: 0, top: 0, right: Some(5), bottom: None });
    let out = apply_crop(p.clone(), &crop);
    assert_eq!((out.width(), out.height()), (4, 4));
    assert_eq!(out.data(), p.data());
}

#[test]
fn valid_crop_copies_sub_rectangle() {
    let p = gradient(4, 3);
    let crop = Some(CropRect { left: 1, top: 1, right: Some(3), bottom: None });
    let out = apply_crop(p.clone(), &crop);
    assert_eq!((out.width(), out.height()), (2, 2));
    let src = p.data();
    let mut expected = Vec::new();
    for y in 1..3usize {
        for x in 1..3usize {
            expected.extend_from_slice(&src[(y * 4 + x) * 4..(y * 4 + x) * 4 + 4]);
        }
    }
    assert_eq!(out.data(), &expected[..]);
}

#[test]
fn nothing_produced_gives_empty_output() {
    let p = gradient(2, 2);
    assert_eq!(finish_render(p, &None, false), Ok(vec![]));
}

#[test]
fn produced_output_is_cropped_png() {
    let p = gradient(6, 6);
    let crop = Some(CropRect { left: 0, top: 3, right: Some(2), bottom: None });
    let bytes = finish_render(p, &crop, true).unwrap();
    let (w, h, _) = decode_png(&bytes);
    assert_eq!((w, h), (2, 3));
}

const SQUARE: &str = "<svg xmlns=\"http://www.w3.org/2000/svg\" width=\"100\" height=\"50\">\
<rect x=\"0\" y=\"0\" width=\"100\" height=\"50\" fill=\"#0000ff\"/></svg>";

#[test]
fn render_svg_fits_width() {
    let mut options = JsOptions::new();
    options.fit_to = JsFitTo::Width { value: 200 };
    let bytes = render_svg(SQUARE, &usvg::Options::default(), &options).unwrap();
    let (w, h, data) = decode_png(&bytes);
    assert_eq!((w, h), (200, 100));
    assert_eq!(&data[0..4], &[0, 0, 255, 255]);
}

#[test]
fn render_svg_with_background_and_crop() {
    let mut options = JsOptions::new();
    options.background = Some("#ff0000".to_string());
    options.crop = Some(CropRect { left: 10, top: 10, right: Some(30), bottom: None });
    let empty = "<svg xmlns=\"http://www.w3.org/2000/svg\" width=\"100\" height=\"50\">\
<rect x=\"90\" y=\"40\" width=\"10\" height=\"10\" fill=\"#00ff00\"/></svg>";
    let bytes = render_svg(empty, &usvg::Options::default(), &options).unwrap();
    let (w, h, data) = decode_png(&bytes);
    assert_eq!((w, h), (20, 40));
    assert_eq!(&data[0..4], &[255, 0, 0, 255]);
}

#[test]
fn render_svg_rejects_bad_background() {
    let mut options = JsOptions::new();
    options.background = Some("not-a-color".to_string());
    assert_eq!(
        render_svg(SQUARE, &usvg::Options::default(), &options),
        Err(RenderError::InvalidColor { text: "not-a-color".to_string() })
    );
}

#[test]
fn render_svg_reports_parse_failure() {
    let options = JsOptions::new();
    let r = render_svg("this is not svg", &usvg::Options::default(), &options);
    assert!(matches!(r, Err(RenderError::ParseFailed { .. })));
}

#[test]
fn render_svg_zero_zoom_is_zero_target_size() {
    let mut options = JsOptions::new();
    options.fit_to = JsFitTo::Zoom { value: Fixed { micros: 0 } };
    assert_eq!(render_svg(SQUARE, &usvg::Options::default(), &options), Err(RenderError::ZeroTargetSize));
}

#[test]
fn paint_scale_follows_fit_mode() {
    assert_eq!(paint_scale(&JsFitTo::Height { value: 3 }), PaintScale::ToHeight);
    assert_eq!(paint_scale(&JsFitTo::Width { value: 3 }), PaintScale::ToWidth);
    assert_eq!(paint_scale(&JsFitTo::Original), PaintScale::ToWidth);
    assert_eq!(paint_scale(&JsFitTo::Zoom { value: Fixed { micros: 2_000_000 } }), PaintScale::ToWidth);
}

#[test]
fn crop_region_refuses_canvas_taller_than_i32() {
    let crop = CropRect { left: 0, top: 0, right: Some(1), bottom: Some(10) };
    assert_eq!(resolve_crop(&crop, 1, 2_147_483_653), None);
    assert_eq!(resolve_crop(&crop, 1, 2_147_483_647), Some((0, 0, 1, 10)));
}

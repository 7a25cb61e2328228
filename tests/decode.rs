use resvg_render::error::{InvalidReason, OptionField, RenderError};
use resvg_render::fit::{Fixed, JsFitTo};
use resvg_render::options::{
    decode_options, deserialize_image_rendering, deserialize_shape_rendering, deserialize_text_rendering,
    CropRect, ImageRendering, JsFontOptions, JsOptions, RawFontOptions, RawOptions, ShapeRendering,
    TextRendering,
};

fn out_of_range(field: OptionField, value: u64, max: u64) -> RenderError {
    RenderError::InvalidOptions { field, reason: InvalidReason::OutOfRange { value, max } }
}

#[test]
fn shape_rendering_codes() {
    assert_eq!(deserialize_shape_rendering(0), Ok(ShapeRendering::CrispEdges));
    assert_eq!(deserialize_shape_rendering(1), Ok(ShapeRendering::GeometricPrecision));
    assert_eq!(deserialize_shape_rendering(2), Ok(ShapeRendering::OptimizeSpeed));
    assert_eq!(deserialize_shape_rendering(3), Err(out_of_range(OptionField::ShapeRendering, 3, 2)));
}

#[test]
fn text_rendering_codes() {
    assert_eq!(deserialize_text_rendering(0), Ok(TextRendering::GeometricPrecision));
    assert_eq!(deserialize_text_rendering(1), Ok(TextRendering::OptimizeLegibility));
    assert_eq!(deserialize_text_rendering(2), Ok(TextRendering::OptimizeSpeed));
    assert_eq!(deserialize_text_rendering(7), Err(out_of_range(OptionField::TextRendering, 7, 2)));
}

#[test]
fn image_rendering_codes() {
    assert_eq!(deserialize_image_rendering(0), Ok(ImageRendering::OptimizeQuality));
    assert_eq!(deserialize_image_rendering(1), Ok(ImageRendering::OptimizeSpeed));
    assert_eq!(deserialize_image_rendering(2), Err(out_of_range(OptionField::ImageRendering, 2, 1)));
    assert_eq!(
        deserialize_image_rendering(u64::MAX),
        Err(out_of_range(OptionField::ImageRendering, u64::MAX, 1))
    );
}

#[test]
fn omitted_payload_gives_defaults() {
    let o = decode_options(None).unwrap();
    assert_eq!(o.path, None);
    assert_eq!(o.dpi, Fixed { micros: 96_000_000 });
    assert_eq!(o.languages, vec!["en".to_string()]);
    assert_eq!(o.shape_rendering, ShapeRendering::GeometricPrecision);
    assert_eq!(o.text_rendering, TextRendering::OptimizeLegibility);
    assert_eq!(o.image_rendering, ImageRendering::OptimizeQuality);
    assert_eq!(o.fit_to, JsFitTo::Original);
    assert_eq!(o.background, None);
    assert_eq!(o.crop, None);
    assert!(o.font.load_system_fonts);
    assert!(o.font.font_files.is_empty());
    assert!(o.font.font_dirs.is_empty());
    assert_eq!(o.font.default_font_family, "Times New Roman");
    assert_eq!(o.font.default_font_size, Fixed { micros: 12_000_000 });
    assert_eq!(o.font.serif_family, "Times New Roman");
    assert_eq!(o.font.sans_serif_family, "Arial");
    assert_eq!(o.font.cursive_family, "Comic Sans MS");
    assert_eq!(o.font.fantasy_family, "Impact");
    assert_eq!(o.font.monospace_family, "Courier New");
}

#[test]
fn empty_payload_matches_omitted_payload() {
    assert_eq!(decode_options(Some(RawOptions::default())), Ok(JsOptions::new()));
    assert_eq!(JsFontOptions::from_raw(RawFontOptions::default()), Ok(JsFontOptions::new()));
}

#[test]
fn given_fields_are_kept() {
    let raw = RawOptions {
        path: Some("/tmp/res".to_string()),
        font: Some(RawFontOptions {
            load_system_fonts: Some(false),
            font_files: Some(vec!["a.ttf".to_string()]),
            monospace_family: Some("Fira Mono".to_string()),
            ..RawFontOptions::default()
        }),
        dpi: Some(Fixed { micros: 300_000_000 }),
        languages: Some(vec!["de".to_string(), "fr".to_string()]),
        shape_rendering: Some(0),
        text_rendering: Some(2),
        image_rendering: Some(1),
        fit_to: Some(JsFitTo::Height { value: 64 }),
        background: Some("#123456".to_string()),
        crop: Some(CropRect { left: 1, top: 2, right: None, bottom: Some(9) }),
    };
    let o = decode_options(Some(raw)).unwrap();
    assert_eq!(o.path, Some("/tmp/res".to_string()));
    assert!(!o.font.load_system_fonts);
    assert_eq!(o.font.font_files, vec!["a.ttf".to_string()]);
    assert_eq!(o.font.monospace_family, "Fira Mono");
    assert_eq!(o.font.serif_family, "Times New Roman");
    assert_eq!(o.dpi, Fixed { micros: 300_000_000 });
    assert_eq!(o.languages, vec!["de".to_string(), "fr".to_string()]);
    assert_eq!(o.shape_rendering, ShapeRendering::CrispEdges);
    assert_eq!(o.text_rendering, TextRendering::OptimizeSpeed);
    assert_eq!(o.image_rendering, ImageRendering::OptimizeSpeed);
    assert_eq!(o.fit_to, JsFitTo::Height { value: 64 });
    assert_eq!(o.background, Some("#123456".to_string()));
    assert_eq!(o.crop, Some(CropRect { left: 1, top: 2, right: None, bottom: Some(9) }));
}

#[test]
fn out_of_range_code_rejects_payload() {
    let raw = RawOptions { text_rendering: Some(3), ..RawOptions::default() };
    assert_eq!(decode_options(Some(raw)), Err(out_of_range(OptionField::TextRendering, 3, 2)));
    let raw = RawOptions { image_rendering: Some(2), ..RawOptions::default() };
    assert_eq!(decode_options(Some(raw)), Err(out_of_range(OptionField::ImageRendering, 2, 1)));
}

#[test]
fn non_positive_dpi_is_rejected() {
    let raw = RawOptions { dpi: Some(Fixed { micros: 0 }), ..RawOptions::default() };
    assert_eq!(
        decode_options(Some(raw)),
        Err(RenderError::InvalidOptions { field: OptionField::Dpi, reason: InvalidReason::NotPositive })
    );
}

#[test]
fn empty_languages_are_rejected() {
    let raw = RawOptions { languages: Some(vec![]), ..RawOptions::default() };
    assert_eq!(
        decode_options(Some(raw)),
        Err(RenderError::InvalidOptions { field: OptionField::Languages, reason: InvalidReason::Empty })
    );
}

#[test]
fn empty_family_is_rejected() {
    let font = RawFontOptions { cursive_family: Some(String::new()), ..RawFontOptions::default() };
    let raw = RawOptions { font: Some(font), ..RawOptions::default() };
    assert_eq!(
        decode_options(Some(raw)),
        Err(RenderError::InvalidOptions { field: OptionField::CursiveFamily, reason: InvalidReason::Empty })
    );
}

#[test]
fn non_positive_font_size_is_rejected() {
    let font = RawFontOptions { default_font_size: Some(Fixed { micros: -1 }), ..RawFontOptions::default() };
    assert_eq!(
        JsFontOptions::from_raw(font),
        Err(RenderError::InvalidOptions { field: OptionField::DefaultFontSize, reason: InvalidReason::NotPositive })
    );
}

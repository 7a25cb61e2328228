use vstd::prelude::*;

use crate::error::{InvalidReason, OptionField, RenderError};
use crate::fit::{Fixed, JsFitTo};

verus! {

/// Default resolution: 96 DPI, in millionths.
pub const DEFAULT_DPI_MICROS: i64 = 96_000_000;

/// Default font size: 12, in millionths.
pub const DEFAULT_FONT_SIZE_MICROS: i64 = 12_000_000;

/// How shapes are anti-aliased.
#[derive(Debug, Clone, Copy, PartialEq, Eq, Structural)]
pub enum ShapeRendering {
    OptimizeSpeed,
    CrispEdges,
    GeometricPrecision,
}

/// How text is rendered.
#[derive(Debug, Clone, Copy, PartialEq, Eq, Structural)]
pub enum TextRendering {
    OptimizeSpeed,
    OptimizeLegibility,
    GeometricPrecision,
}

/// How raster images inside the document are scaled.
#[derive(Debug, Clone, Copy, PartialEq, Eq, Structural)]
pub enum ImageRendering {
    OptimizeQuality,
    OptimizeSpeed,
}

/// The sub-rectangle of the canvas to keep. Absent `right` and `bottom`
/// stand for the canvas width and height.
#[derive(Debug, Clone, Copy, PartialEq, Eq, Structural)]
pub struct CropRect {
    pub left: i32,
    pub top: i32,
    pub right: Option<i32>,
    pub bottom: Option<i32>,
}

/// Validated font configuration.
#[derive(Debug, Clone, PartialEq, Eq)]
pub struct JsFontOptions {
    pub load_system_fonts: bool,
    pub font_files: Vec<String>,
    pub font_dirs: Vec<String>,
    pub default_font_family: String,
    pub default_font_size: Fixed,
    pub serif_family: String,
    pub sans_serif_family: String,
    pub cursive_family: String,
    pub fantasy_family: String,
    pub monospace_family: String,
}

/// Validated rendering options for one render call.
#[derive(Debug, Clone, PartialEq, Eq)]
pub struct JsOptions {
    pub path: Option<String>,
    pub font: JsFontOptions,
    pub dpi: Fixed,
    pub languages: Vec<String>,
    pub shape_rendering: ShapeRendering,
    pub text_rendering: TextRendering,
    pub image_rendering: ImageRendering,
    pub fit_to: JsFitTo,
    pub background: Option<String>,
    pub crop: Option<CropRect>,
}

/// The font part of a configuration payload as the caller sent it: every
/// field may be missing.
#[derive(Debug, Clone, Default, PartialEq, Eq)]
pub struct RawFontOptions {
    pub load_system_fonts: Option<bool>,
    pub font_files: Option<Vec<String>>,
    pub font_dirs: Option<Vec<String>>,
    pub default_font_family: Option<String>,
    pub default_font_size: Option<Fixed>,
    pub serif_family: Option<String>,
    pub sans_serif_family: Option<String>,
    pub cursive_family: Option<String>,
    pub fantasy_family: Option<String>,
    pub monospace_family: Option<String>,
}

/// A configuration payload as the caller sent it, with the rendering modes
/// still in their legacy numeric codes.
#[derive(Debug, Clone, Default, PartialEq, Eq)]
pub struct RawOptions {
    pub path: Option<String>,
    pub font: Option<RawFontOptions>,
    pub dpi: Option<Fixed>,
    pub languages: Option<Vec<String>>,
    pub shape_rendering: Option<u64>,
    pub text_rendering: Option<u64>,
    pub image_rendering: Option<u64>,
    pub fit_to: Option<JsFitTo>,
    pub background: Option<String>,
    pub crop: Option<CropRect>,
}

pub open spec fn out_of_range(field: OptionField, value: u64, max: u64) -> RenderError {
    RenderError::InvalidOptions { field, reason: InvalidReason::OutOfRange { value, max } }
}

/// Legacy shape-rendering codes: 0 crisp edges, 1 geometric precision,
/// 2 optimize speed.
pub open spec fn shape_rendering_of(code: u64) -> Result<ShapeRendering, RenderError> {
    if code == 0 {
        Ok(ShapeRendering::CrispEdges)
    } else if code == 1 {
        Ok(ShapeRendering::GeometricPrecision)
    } else if code == 2 {
        Ok(ShapeRendering::OptimizeSpeed)
    } else {
        Err(out_of_range(OptionField::ShapeRendering, code, 2))
    }
}

/// Legacy text-rendering codes: 0 geometric precision, 1 optimize
/// legibility, 2 optimize speed.
pub open spec fn text_rendering_of(code: u64) -> Result<TextRendering, RenderError> {
    if code == 0 {
        Ok(TextRendering::GeometricPrecision)
    } else if code == 1 {
        Ok(TextRendering::OptimizeLegibility)
    } else if code == 2 {
        Ok(TextRendering::OptimizeSpeed)
    } else {
        Err(out_of_range(OptionField::TextRendering, code, 2))
    }
}

/// Legacy image-rendering codes: 0 optimize quality, 1 optimize speed.
pub open spec fn image_rendering_of(code: u64) -> Result<ImageRendering, RenderError> {
    if code == 0 {
        Ok(ImageRendering::OptimizeQuality)
    } else if code == 1 {
        Ok(ImageRendering::OptimizeSpeed)
    } else {
        Err(out_of_range(OptionField::ImageRendering, code, 1))
    }
}

/// Decodes a legacy shape-rendering code; a code above 2 is rejected with
/// the code and the valid range.
pub fn deserialize_shape_rendering(code: u64) -> (r: Result<ShapeRendering, RenderError>)
    ensures
        r == shape_rendering_of(code),
        code > 2 ==> r == Err::<ShapeRendering, RenderError>(out_of_range(OptionField::ShapeRendering, code, 2)),
{
    match code {
        0 => Ok(ShapeRendering::CrispEdges),
        1 => Ok(ShapeRendering::GeometricPrecision),
        2 => Ok(ShapeRendering::OptimizeSpeed),
        n => Err(RenderError::InvalidOptions {
            field: OptionField::ShapeRendering,
            reason: InvalidReason::OutOfRange { value: n, max: 2 },
        }),
    }
}

/// Decodes a legacy text-rendering code; a code above 2 is rejected with
/// the code and the valid range.
pub fn deserialize_text_rendering(code: u64) -> (r: Result<TextRendering, RenderError>)
    ensures
        r == text_rendering_of(code),
        code > 2 ==> r == Err::<TextRendering, RenderError>(out_of_range(OptionField::TextRendering, code, 2)),
{
    match code {
        0 => Ok(TextRendering::GeometricPrecision),
        1 => Ok(TextRendering::OptimizeLegibility),
        2 => Ok(TextRendering::OptimizeSpeed),
        n => Err(RenderError::InvalidOptions {
            field: OptionField::TextRendering,
            reason: InvalidReason::OutOfRange { value: n, max: 2 },
        }),
    }
}

/// Decodes a legacy image-rendering code; a code above 1 is rejected with
/// the code and the valid range.
pub fn deserialize_image_rendering(code: u64) -> (r: Result<ImageRendering, RenderError>)
    ensures
        r == image_rendering_of(code),
        code > 1 ==> r == Err::<ImageRendering, RenderError>(out_of_range(OptionField::ImageRendering, code, 1)),
{
    match code {
        0 => Ok(ImageRendering::OptimizeQuality),
        1 => Ok(ImageRendering::OptimizeSpeed),
        n => Err(RenderError::InvalidOptions {
            field: OptionField::ImageRendering,
            reason: InvalidReason::OutOfRange { value: n, max: 1 },
        }),
    }
}

pub open spec fn invalid(field: OptionField, reason: InvalidReason) -> RenderError {
    RenderError::InvalidOptions { field, reason }
}

pub open spec fn text_or(v: Option<String>, default: Seq<char>) -> Seq<char> {
    match v {
        Some(s) => s@,
        None => default,
    }
}

pub open spec fn list_or_empty(v: Option<Vec<String>>) -> Seq<String> {
    match v {
        Some(l) => l@,
        None => Seq::empty(),
    }
}

pub open spec fn fixed_or(v: Option<Fixed>, default_micros: i64) -> Fixed {
    match v {
        Some(f) => f,
        None => Fixed { micros: default_micros },
    }
}

/// A font payload with every field missing.
pub open spec fn empty_raw_font() -> RawFontOptions {
    RawFontOptions {
        load_system_fonts: None,
        font_files: None,
        font_dirs: None,
        default_font_family: None,
        default_font_size: None,
        serif_family: None,
        sans_serif_family: None,
        cursive_family: None,
        fantasy_family: None,
        monospace_family: None,
    }
}

/// A configuration payload with every field missing.
pub open spec fn empty_raw() -> RawOptions {
    RawOptions {
        path: None,
        font: None,
        dpi: None,
        languages: None,
        shape_rendering: None,
        text_rendering: None,
        image_rendering: None,
        fit_to: None,
        background: None,
        crop: None,
    }
}

/// `f` holds what `raw` gives, each missing field taking its default.
pub open spec fn font_decodes_to(raw: RawFontOptions, f: JsFontOptions) -> bool {
    &&& f.load_system_fonts == match raw.load_system_fonts {
        Some(b) => b,
        None => true,
    }
    &&& f.font_files@ == list_or_empty(raw.font_files)
    &&& f.font_dirs@ == list_or_empty(raw.font_dirs)
    &&& f.default_font_family@ == text_or(raw.default_font_family, "Times New Roman"@)
    &&& f.default_font_size == fixed_or(raw.default_font_size, DEFAULT_FONT_SIZE_MICROS)
    &&& f.serif_family@ == text_or(raw.serif_family, "Times New Roman"@)
    &&& f.sans_serif_family@ == text_or(raw.sans_serif_family, "Arial"@)
    &&& f.cursive_family@ == text_or(raw.cursive_family, "Comic Sans MS"@)
    &&& f.fantasy_family@ == text_or(raw.fantasy_family, "Impact"@)
    &&& f.monospace_family@ == text_or(raw.monospace_family, "Courier New"@)
}

pub open spec fn family_error(v: Option<String>, default: Seq<char>, field: OptionField) -> Option<RenderError> {
    if text_or(v, default).len() == 0 {
        Some(invalid(field, InvalidReason::Empty))
    } else {
        None
    }
}

pub open spec fn first_error(a: Option<RenderError>, b: Option<RenderError>) -> Option<RenderError> {
    match a {
        Some(e) => Some(e),
        None => b,
    }
}

/// The first invalid field of a font payload, if any: a font size that is
/// not positive, then each family name that is empty, in field order.
pub open spec fn font_error(raw: RawFontOptions) -> Option<RenderError> {
    if fixed_or(raw.default_font_size, DEFAULT_FONT_SIZE_MICROS).micros <= 0 {
        Some(invalid(OptionField::DefaultFontSize, InvalidReason::NotPositive))
    } else {
        first_error(
            family_error(raw.default_font_family, "Times New Roman"@, OptionField::DefaultFontFamily),
            first_error(
                family_error(raw.serif_family, "Times New Roman"@, OptionField::SerifFamily),
                first_error(
                    family_error(raw.sans_serif_family, "Arial"@, OptionField::SansSerifFamily),
                    first_error(
                        family_error(raw.cursive_family, "Comic Sans MS"@, OptionField::CursiveFamily),
                        first_error(
                            family_error(raw.fantasy_family, "Impact"@, OptionField::FantasyFamily),
                            family_error(raw.monospace_family, "Courier New"@, OptionField::MonospaceFamily),
                        ),
                    ),
                ),
            ),
        )
    }
}

/// A family name from the payload, or `default` when it is missing; an
/// empty name is rejected.
fn family_or(v: Option<String>, default: &str, field: OptionField) -> (r: Result<String, RenderError>)
    ensures
        r is Ok <==> family_error(v, default@, field) is None,
        r is Ok ==> r->Ok_0@ == text_or(v, default@),
        r is Err ==> family_error(v, default@, field) == Some(r->Err_0),
{
    let name = match v {
        Some(s) => s,
        None => default.to_owned(),
    };
    if name.as_str().is_empty() {
        Err(RenderError::InvalidOptions { field, reason: InvalidReason::Empty })
    } else {
        Ok(name)
    }
}

impl JsFontOptions {
    /// The default font configuration: system fonts on, no extra files or
    /// directories, Times New Roman at size 12, and the usual family names.
    pub fn new() -> (r: JsFontOptions)
        ensures
            font_decodes_to(empty_raw_font(), r),
    {
        JsFontOptions {
            load_system_fonts: true,
            font_files: Vec::new(),
            font_dirs: Vec::new(),
            default_font_family: "Times New Roman".to_owned(),
            default_font_size: Fixed { micros: DEFAULT_FONT_SIZE_MICROS },
            serif_family: "Times New Roman".to_owned(),
            sans_serif_family: "Arial".to_owned(),
            cursive_family: "Comic Sans MS".to_owned(),
            fantasy_family: "Impact".to_owned(),
            monospace_family: "Courier New".to_owned(),
        }
    }

    /// Validates a font payload, filling in defaults for missing fields.
    pub fn from_raw(raw: RawFontOptions) -> (r: Result<JsFontOptions, RenderError>)
        ensures
            r is Ok <==> font_error(raw) is None,
            r is Ok ==> font_decodes_to(raw, r->Ok_0),
            r is Err ==> font_error(raw) == Some(r->Err_0),
    {
        let RawFontOptions {
            load_system_fonts,
            font_files,
            font_dirs,
            default_font_family,
            default_font_size,
            serif_family,
            sans_serif_family,
            cursive_family,
            fantasy_family,
            monospace_family,
        } = raw;
        let size = match default_font_size {
            Some(f) => f,
            None => Fixed { micros: DEFAULT_FONT_SIZE_MICROS },
        };
        if size.micros <= 0 {
            return Err(RenderError::InvalidOptions {
                field: OptionField::DefaultFontSize,
                reason: InvalidReason::NotPositive,
            });
        }
        let default_font_family = family_or(default_font_family, "Times New Roman", OptionField::DefaultFontFamily)?;
        let serif_family = family_or(serif_family, "Times New Roman", OptionField::SerifFamily)?;
        let sans_serif_family = family_or(sans_serif_family, "Arial", OptionField::SansSerifFamily)?;
        let cursive_family = family_or(cursive_family, "Comic Sans MS", OptionField::CursiveFamily)?;
        let fantasy_family = family_or(fantasy_family, "Impact", OptionField::FantasyFamily)?;
        let monospace_family = family_or(monospace_family, "Courier New", OptionField::MonospaceFamily)?;
        let font_files = match font_files {
            Some(l) => l,
            None => Vec::new(),
        };
        let font_dirs = match font_dirs {
            Some(l) => l,
            None => Vec::new(),
        };
        let load_system_fonts = match load_system_fonts {
            Some(b) => b,
            None => true,
        };
        Ok(JsFontOptions {
            load_system_fonts,
            font_files,
            font_dirs,
            default_font_family,
            default_font_size: size,
            serif_family,
            sans_serif_family,
            cursive_family,
            fantasy_family,
            monospace_family,
        })
    }
}

pub open spec fn font_or_empty(v: Option<RawFontOptions>) -> RawFontOptions {
    match v {
        Some(f) => f,
        None => empty_raw_font(),
    }
}

/// The languages given, or `["en"]` when none were.
pub open spec fn languages_decode_to(v: Option<Vec<String>>, l: Seq<String>) -> bool {
    match v {
        Some(given) => l == given@,
        None => l.len() == 1 && l[0]@ == "en"@,
    }
}

/// `o` holds what `raw` gives, each missing field taking its default and
/// each legacy code decoded.
pub open spec fn options_decode_to(raw: RawOptions, o: JsOptions) -> bool {
    &&& o.path == raw.path
    &&& font_decodes_to(font_or_empty(raw.font), o.font)
    &&& o.dpi == fixed_or(raw.dpi, DEFAULT_DPI_MICROS)
    &&& languages_decode_to(raw.languages, o.languages@)
    &&& o.shape_rendering == match raw.shape_rendering {
        Some(code) => shape_rendering_of(code)->Ok_0,
        None => ShapeRendering::GeometricPrecision,
    }
    &&& o.text_rendering == match raw.text_rendering {
        Some(code) => text_rendering_of(code)->Ok_0,
        None => TextRendering::OptimizeLegibility,
    }
    &&& o.image_rendering == match raw.image_rendering {
        Some(code) => image_rendering_of(code)->Ok_0,
        None => ImageRendering::OptimizeQuality,
    }
    &&& o.fit_to == match raw.fit_to {
        Some(f) => f,
        None => JsFitTo::Original,
    }
    &&& o.background == raw.background
    &&& o.crop == raw.crop
}

/// The first invalid field of a payload, if any: the font part, then the
/// DPI, the languages and the three legacy codes.
pub open spec fn options_error(raw: RawOptions) -> Option<RenderError> {
    if font_error(font_or_empty(raw.font)) is Some {
        font_error(font_or_empty(raw.font))
    } else if fixed_or(raw.dpi, DEFAULT_DPI_MICROS).micros <= 0 {
        Some(invalid(OptionField::Dpi, InvalidReason::NotPositive))
    } else if raw.languages is Some && raw.languages->Some_0@.len() == 0 {
        Some(invalid(OptionField::Languages, InvalidReason::Empty))
    } else if raw.shape_rendering is Some && shape_rendering_of(raw.shape_rendering->Some_0) is Err {
        Some(shape_rendering_of(raw.shape_rendering->Some_0)->Err_0)
    } else if raw.text_rendering is Some && text_rendering_of(raw.text_rendering->Some_0) is Err {
        Some(text_rendering_of(raw.text_rendering->Some_0)->Err_0)
    } else if raw.image_rendering is Some && image_rendering_of(raw.image_rendering->Some_0) is Err {
        Some(image_rendering_of(raw.image_rendering->Some_0)->Err_0)
    } else {
        None
    }
}

impl JsOptions {
    /// The default options: no resource path, default fonts, 96 DPI,
    /// `["en"]`, geometric-precision shapes, legible text, quality images,
    /// original size, no background and no crop.
    pub fn new() -> (r: JsOptions)
        ensures
            options_decode_to(empty_raw(), r),
    {
        let mut languages: Vec<String> = Vec::new();
        languages.push("en".to_owned());
        JsOptions {
            path: None,
            font: JsFontOptions::new(),
            dpi: Fixed { micros: DEFAULT_DPI_MICROS },
            languages,
            shape_rendering: ShapeRendering::GeometricPrecision,
            text_rendering: TextRendering::OptimizeLegibility,
            image_rendering: ImageRendering::OptimizeQuality,
            fit_to: JsFitTo::Original,
            background: None,
            crop: None,
        }
    }

    /// Validates a payload, filling in defaults for missing fields and
    /// decoding the legacy rendering-mode codes.
    pub fn from_raw(raw: RawOptions) -> (r: Result<JsOptions, RenderError>)
        ensures
            r is Ok <==> options_error(raw) is None,
            r is Ok ==> options_decode_to(raw, r->Ok_0),
            r is Err ==> options_error(raw) == Some(r->Err_0),
    {
        let RawOptions {
            path,
            font,
            dpi,
            languages,
            shape_rendering,
            text_rendering,
            image_rendering,
            fit_to,
            background,
            crop,
        } = raw;
        let font_raw = match font {
            Some(f) => f,
            None => RawFontOptions {
                load_system_fonts: None,
                font_files: None,
                font_dirs: None,
                default_font_family: None,
                default_font_size: None,
                serif_family: None,
                sans_serif_family: None,
                cursive_family: None,
                fantasy_family: None,
                monospace_family: None,
            },
        };
        let font = JsFontOptions::from_raw(font_raw)?;
        let dpi = match dpi {
            Some(f) => f,
            None => Fixed { micros: DEFAULT_DPI_MICROS },
        };
        if dpi.micros <= 0 {
            return Err(RenderError::InvalidOptions { field: OptionField::Dpi, reason: InvalidReason::NotPositive });
        }
        let languages = match languages {
            Some(l) => {
                if l.len() == 0 {
                    return Err(RenderError::InvalidOptions {
                        field: OptionField::Languages,
                        reason: InvalidReason::Empty,
                    });
                }
                l
            },
            None => {
                let mut l: Vec<String> = Vec::new();
                l.push("en".to_owned());
                l
            },
        };
        let shape_rendering = match shape_rendering {
            Some(code) => deserialize_shape_rendering(code)?,
            None => ShapeRendering::GeometricPrecision,
        };
        let text_rendering = match text_rendering {
            Some(code) => deserialize_text_rendering(code)?,
            None => TextRendering::OptimizeLegibility,
        };
        let image_rendering = match image_rendering {
            Some(code) => deserialize_image_rendering(code)?,
            None => ImageRendering::OptimizeQuality,
        };
        let fit_to = match fit_to {
            Some(f) => f,
            None => JsFitTo::Original,
        };
        Ok(JsOptions {
            path,
            font,
            dpi,
            languages,
            shape_rendering,
            text_rendering,
            image_rendering,
            fit_to,
            background,
            crop,
        })
    }
}

/// Decodes an optional configuration payload. No payload at all gives the
/// default options.
pub fn decode_options(payload: Option<RawOptions>) -> (r: Result<JsOptions, RenderError>)
    ensures
        payload is None ==> r is Ok && options_decode_to(empty_raw(), r->Ok_0),
        payload is Some ==> (r is Ok <==> options_error(payload->Some_0) is None),
        payload is Some && r is Ok ==> options_decode_to(payload->Some_0, r->Ok_0),
        payload is Some && r is Err ==> options_error(payload->Some_0) == Some(r->Err_0),
{
    match payload {
        None => Ok(JsOptions::new()),
        Some(raw) => JsOptions::from_raw(raw),
    }
}

/// With no configuration payload the options take every default: 96 DPI,
/// Times New Roman at size 12 with its generic families, `["en"]`,
/// geometric-precision shapes, legible text, quality images, original size,
/// no background and no crop; and these defaults are valid.
pub proof fn omitted_payload_gives_defaults(o: JsOptions)
    requires
        options_decode_to(empty_raw(), o),
    ensures
        options_error(empty_raw()) is None,
        o.path is None,
        o.dpi.micros == 96_000_000,
        o.languages@.len() == 1 && o.languages@[0]@ == "en"@,
        o.shape_rendering == ShapeRendering::GeometricPrecision,
        o.text_rendering == TextRendering::OptimizeLegibility,
        o.image_rendering == ImageRendering::OptimizeQuality,
        o.fit_to == JsFitTo::Original,
        o.background is None,
        o.crop is None,
        o.font.load_system_fonts,
        o.font.font_files@.len() == 0,
        o.font.font_dirs@.len() == 0,
        o.font.default_font_family@ == "Times New Roman"@,
        o.font.default_font_size.micros == 12_000_000,
        o.font.serif_family@ == "Times New Roman"@,
        o.font.sans_serif_family@ == "Arial"@,
        o.font.cursive_family@ == "Comic Sans MS"@,
        o.font.fantasy_family@ == "Impact"@,
        o.font.monospace_family@ == "Courier New"@,
{
    reveal_strlit("Times New Roman");
    reveal_strlit("Arial");
    reveal_strlit("Comic Sans MS");
    reveal_strlit("Impact");
    reveal_strlit("Courier New");
}

} // verus!

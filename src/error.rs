use vstd::prelude::*;

verus! {

/// The configuration field that an `InvalidOptions` error is about.
#[derive(Debug, Clone, Copy, PartialEq, Eq, Structural)]
pub enum OptionField {
    Dpi,
    Languages,
    ShapeRendering,
    TextRendering,
    ImageRendering,
    DefaultFontFamily,
    DefaultFontSize,
    SerifFamily,
    SansSerifFamily,
    CursiveFamily,
    FantasyFamily,
    MonospaceFamily,
}

/// Why a configuration field was rejected.
#[derive(Debug, Clone, Copy, PartialEq, Eq, Structural)]
pub enum InvalidReason {
    /// A legacy numeric code outside `0..=max`.
    OutOfRange { value: u64, max: u64 },
    /// A number that must be positive was zero or negative.
    NotPositive,
    /// A text or list that must be non-empty was empty.
    Empty,
}

/// Every failure of a render call.
#[derive(Debug, Clone, PartialEq, Eq)]
pub enum RenderError {
    /// The background text is no color literal; holds the offending text.
    InvalidColor { text: String },
    /// A configuration field holds a value outside its valid range.
    InvalidOptions { field: OptionField, reason: InvalidReason },
    /// The document could not be parsed.
    ParseFailed { reason: String },
    /// The computed canvas has a zero (or negative) width or height.
    ZeroTargetSize,
    /// The computed canvas is too large to hold in memory.
    CanvasTooLarge,
    /// The PNG stream could not be written.
    EncodingFailed { reason: String },
}

} // verus!

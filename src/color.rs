use vstd::prelude::*;

use crate::error::RenderError;

verus! {

/// An RGB color; used as a fill it is always fully opaque.
#[derive(Debug, Clone, Copy, PartialEq, Eq, Structural)]
pub struct Color {
    pub red: u8,
    pub green: u8,
    pub blue: u8,
}

/// The red, green and blue channels that a color literal denotes, or `None`
/// when the text is no color literal.
pub uninterp spec fn color_literal(text: Seq<char>) -> Option<(u8, u8, u8)>;

/// Relies on svgtypes' `FromStr` for `Color`: the SVG color grammar (named
/// colors, `#rgb`, `#rrggbb`, `rgb(...)`), a function of the text alone.
#[verifier::external_body]
fn parse_color_literal(text: &str) -> (r: Option<(u8, u8, u8)>)
    ensures
        r == color_literal(text@),
{
    text.parse::<svgtypes::Color>().ok().map(|c| (c.red, c.green, c.blue))
}

/// The outcome of parsing `text` when the color grammar gave `parsed`.
pub open spec fn color_outcome(text: String, parsed: Option<(u8, u8, u8)>) -> Result<Color, RenderError> {
    match parsed {
        Some(rgb) => Ok(Color { red: rgb.0, green: rgb.1, blue: rgb.2 }),
        None => Err(RenderError::InvalidColor { text }),
    }
}

/// Builds the color for `text` from what the color grammar made of it:
/// `InvalidColor` naming the text when it was no color literal.
pub fn color_from_literal(text: &String, parsed: Option<(u8, u8, u8)>) -> (r: Result<Color, RenderError>)
    ensures
        r == color_outcome(*text, parsed),
{
    match parsed {
        Some(rgb) => Ok(Color { red: rgb.0, green: rgb.1, blue: rgb.2 }),
        None => Err(RenderError::InvalidColor { text: text.clone() }),
    }
}

/// Parses an optional background color. No text means no background; text
/// that is no color literal fails with `InvalidColor`.
pub fn parse_color(value: &Option<String>) -> (r: Result<Option<Color>, RenderError>)
    ensures
        value is None ==> r == Ok::<Option<Color>, RenderError>(None),
        value is Some ==> match color_outcome(value->Some_0, color_literal(value->Some_0@)) {
            Ok(c) => r == Ok::<Option<Color>, RenderError>(Some(c)),
            Err(e) => r == Err::<Option<Color>, RenderError>(e),
        },
{
    match value {
        None => Ok(None),
        Some(text) => {
            let parsed = parse_color_literal(text.as_str());
            match color_from_literal(text, parsed) {
                Ok(c) => Ok(Some(c)),
                Err(e) => Err(e),
            }
        },
    }
}

} // verus!

use vstd::prelude::*;

use crate::error::{InvalidReason, OptionField, RenderError};

verus! {

/// The text of one decimal digit.
pub open spec fn digit_text(d: nat) -> Seq<char> {
    if d == 0 {
        "0"@
    } else if d == 1 {
        "1"@
    } else if d == 2 {
        "2"@
    } else if d == 3 {
        "3"@
    } else if d == 4 {
        "4"@
    } else if d == 5 {
        "5"@
    } else if d == 6 {
        "6"@
    } else if d == 7 {
        "7"@
    } else if d == 8 {
        "8"@
    } else {
        "9"@
    }
}

/// `n` written in decimal, without leading zeros.
pub open spec fn decimal(n: nat) -> Seq<char>
    decreases n,
{
    if n < 10 {
        digit_text(n)
    } else {
        decimal(n / 10) + digit_text(n % 10)
    }
}

/// The name of a configuration field as callers write it.
pub open spec fn field_name_of(f: OptionField) -> Seq<char> {
    match f {
        OptionField::Dpi => "dpi"@,
        OptionField::Languages => "languages"@,
        OptionField::ShapeRendering => "shape_rendering"@,
        OptionField::TextRendering => "text_rendering"@,
        OptionField::ImageRendering => "image_rendering"@,
        OptionField::DefaultFontFamily => "default_font_family"@,
        OptionField::DefaultFontSize => "default_font_size"@,
        OptionField::SerifFamily => "serif_family"@,
        OptionField::SansSerifFamily => "sans_serif_family"@,
        OptionField::CursiveFamily => "cursive_family"@,
        OptionField::FantasyFamily => "fantasy_family"@,
        OptionField::MonospaceFamily => "monospace_family"@,
    }
}

/// Why a field was rejected, in words; a legacy code out of range reads
/// `value N out of range [0, max]`.
pub open spec fn reason_text_of(r: InvalidReason) -> Seq<char> {
    match r {
        InvalidReason::OutOfRange { value, max } => "value "@ + decimal(value as nat) + " out of range [0, "@
            + decimal(max as nat) + "]"@,
        InvalidReason::NotPositive => "must be positive"@,
        InvalidReason::Empty => "must not be empty"@,
    }
}

/// The human-readable reason that a failed render call reports.
pub open spec fn message_of(e: RenderError) -> Seq<char> {
    match e {
        RenderError::InvalidColor { text } => "invalid color: "@ + text@,
        RenderError::InvalidOptions { field, reason } => "invalid "@ + field_name_of(field) + ": "@
            + reason_text_of(reason),
        RenderError::ParseFailed { reason } => reason@,
        RenderError::ZeroTargetSize => "target size is zero"@,
        RenderError::CanvasTooLarge => "target size is too large"@,
        RenderError::EncodingFailed { reason } => reason@,
    }
}

fn digit_str(d: u64) -> (r: &'static str)
    requires
        d < 10,
    ensures
        r@ == digit_text(d as nat),
{
    match d {
        0 => "0",
        1 => "1",
        2 => "2",
        3 => "3",
        4 => "4",
        5 => "5",
        6 => "6",
        7 => "7",
        8 => "8",
        _ => "9",
    }
}

/// Appends `n` in decimal.
fn append_decimal(out: &mut String, n: u64)
    ensures
        final(out)@ == old(out)@ + decimal(n as nat),
    decreases n,
{
    if n >= 10 {
        append_decimal(out, n / 10);
    }
    out.append(digit_str(n % 10));
    proof {
        if n < 10 {
            assert(n % 10 == n);
        }
        assert(old(out)@ + decimal((n / 10) as nat) + digit_text((n % 10) as nat) =~= old(out)@ + (decimal(
            (n / 10) as nat,
        ) + digit_text((n % 10) as nat)));
    }
}

/// The name of a configuration field as callers write it.
pub fn field_name(f: OptionField) -> (r: &'static str)
    ensures
        r@ == field_name_of(f),
{
    match f {
        OptionField::Dpi => "dpi",
        OptionField::Languages => "languages",
        OptionField::ShapeRendering => "shape_rendering",
        OptionField::TextRendering => "text_rendering",
        OptionField::ImageRendering => "image_rendering",
        OptionField::DefaultFontFamily => "default_font_family",
        OptionField::DefaultFontSize => "default_font_size",
        OptionField::SerifFamily => "serif_family",
        OptionField::SansSerifFamily => "sans_serif_family",
        OptionField::CursiveFamily => "cursive_family",
        OptionField::FantasyFamily => "fantasy_family",
        OptionField::MonospaceFamily => "monospace_family",
    }
}

/// Appends the words for why a field was rejected.
fn append_reason(out: &mut String, r: InvalidReason)
    ensures
        final(out)@ == old(out)@ + reason_text_of(r),
{
    match r {
        InvalidReason::OutOfRange { value, max } => {
            out.append("value ");
            append_decimal(out, value);
            out.append(" out of range [0, ");
            append_decimal(out, max);
            out.append("]");
            assert(final(out)@ =~= old(out)@ + reason_text_of(r));
        },
        InvalidReason::NotPositive => out.append("must be positive"),
        InvalidReason::Empty => out.append("must not be empty"),
    }
}

impl RenderError {
    /// The human-readable reason for this failure, naming the offending
    /// text, field, value or valid range.
    pub fn message(&self) -> (r: String)
        ensures
            r@ == message_of(*self),
    {
        match self {
            RenderError::InvalidColor { text } => String::from_str("invalid color: ").concat(text.as_str()),
            RenderError::InvalidOptions { field, reason } => {
                let mut out = String::from_str("invalid ");
                out.append(field_name(*field));
                out.append(": ");
                append_reason(&mut out, *reason);
                assert(out@ =~= message_of(*self));
                out
            },
            RenderError::ParseFailed { reason } => reason.clone(),
            RenderError::ZeroTargetSize => String::from_str("target size is zero"),
            RenderError::CanvasTooLarge => String::from_str("target size is too large"),
            RenderError::EncodingFailed { reason } => reason.clone(),
        }
    }
}

} // verus!

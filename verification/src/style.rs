//! The colours of the tools, for a dark and for a light background.

use vstd::prelude::*;

verus! {

/// A colour by its red, green and blue parts.
#[derive(Clone, Copy, Debug, PartialEq, Eq, Structural)]
pub struct Rgb {
    pub r: u8,
    pub g: u8,
    pub b: u8,
}

/// The colour of a warning: yellow on dark, red on light.
pub fn warn_color(dark_mode: bool) -> (c: Rgb)
    ensures
        c == (if dark_mode {
            Rgb { r: 0xff, g: 0xff, b: 0x00 }
        } else {
            Rgb { r: 0xff, g: 0x00, b: 0x00 }
        }),
{
    if dark_mode {
        Rgb { r: 0xff, g: 0xff, b: 0x00 }
    } else {
        Rgb { r: 0xff, g: 0x00, b: 0x00 }
    }
}

/// The colour of the button that sets a tool to work.
pub fn primary_color(dark_mode: bool) -> (c: Rgb)
    ensures
        c == (if dark_mode {
            Rgb { r: 0x00, g: 0x5c, b: 0x12 }
        } else {
            Rgb { r: 0xbb, g: 0xe1, b: 0x9e }
        }),
{
    if dark_mode {
        Rgb { r: 0x00, g: 0x5c, b: 0x12 }
    } else {
        Rgb { r: 0xbb, g: 0xe1, b: 0x9e }
    }
}

/// The muted green of a short confirmation, which the parts of a log line share.
pub open spec fn spec_prompt_color(dark_mode: bool) -> Rgb {
    if dark_mode {
        Rgb { r: 0xa3, g: 0xb1, b: 0x8a }
    } else {
        Rgb { r: 0x58, g: 0x81, b: 0x57 }
    }
}

/// The colour of a short confirmation.
pub fn prompt_color(dark_mode: bool) -> (c: Rgb)
    ensures
        c == spec_prompt_color(dark_mode),
{
    if dark_mode {
        Rgb { r: 0xa3, g: 0xb1, b: 0x8a }
    } else {
        Rgb { r: 0x58, g: 0x81, b: 0x57 }
    }
}

/// The colour of a line that names a place in code.
pub fn highlight_color(dark_mode: bool) -> (c: Rgb)
    ensures
        c == (if dark_mode {
            Rgb { r: 0xff, g: 0xa5, b: 0xab }
        } else {
            Rgb { r: 0xa5, g: 0x38, b: 0x60 }
        }),
{
    if dark_mode {
        Rgb { r: 0xff, g: 0xa5, b: 0xab }
    } else {
        Rgb { r: 0xa5, g: 0x38, b: 0x60 }
    }
}

/// The colour of the time of a log line.
pub fn log_time_color(dark_mode: bool) -> (c: Rgb)
    ensures
        c == spec_prompt_color(dark_mode),
{
    prompt_color(dark_mode)
}

/// The colour of the message of a log line.
pub fn log_message_color(dark_mode: bool) -> (c: Rgb)
    ensures
        c == spec_prompt_color(dark_mode),
{
    prompt_color(dark_mode)
}

/// The colour of a log line that reports an error.
pub fn log_error_color(dark_mode: bool) -> (c: Rgb)
    ensures
        c == (if dark_mode {
            Rgb { r: 0xff, g: 0x69, b: 0x61 }
        } else {
            Rgb { r: 0xff, g: 0x00, b: 0x00 }
        }),
{
    if dark_mode {
        Rgb { r: 0xff, g: 0x69, b: 0x61 }
    } else {
        Rgb { r: 0xff, g: 0x00, b: 0x00 }
    }
}

/// The colour of the service that wrote a log line.
pub fn log_source_color(dark_mode: bool) -> (c: Rgb)
    ensures
        c == spec_prompt_color(dark_mode),
{
    prompt_color(dark_mode)
}

} // verus!

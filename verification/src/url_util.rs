//! Percent-encoding of text for a URL, and the way back.
//!
//! The coding is `urlencoding`'s; `percent_encoded` and `percent_decoded` say what
//! it does to the bytes of a text in UTF-8.

use vstd::prelude::*;
use vstd::utf8::{decode_utf8, encode_utf8, valid_utf8};
use crate::ToolItem;

verus! {

/// `std::string::FromUtf8Error`: why bytes are no text in UTF-8.
#[verifier::external_type_specification]
#[verifier::external_body]
pub struct ExFromUtf8Error(std::string::FromUtf8Error);

/// The direction of the coding.
#[derive(Clone, Copy, Debug, PartialEq, Eq, Structural)]
pub enum Conversion {
    Encode,
    Decode,
}

/// Whether the byte `b` stands for itself in encoded text: the ASCII letters and
/// digits, and `-`, `.`, `_`, `~`.
pub open spec fn is_unreserved(b: u8) -> bool {
    ||| 0x30 <= b <= 0x39
    ||| 0x41 <= b <= 0x5A
    ||| 0x61 <= b <= 0x7A
    ||| b == 0x2D
    ||| b == 0x2E
    ||| b == 0x5F
    ||| b == 0x7E
}

/// The upper-case hexadecimal digit for `n`, for `n` below sixteen.
pub open spec fn upper_hex_digit(n: nat) -> char
    recommends
        n < 16,
{
    if n < 10 {
        (('0' as u32) + n) as char
    } else {
        (('A' as u32) + n - 10) as char
    }
}

/// The bytes `bytes` percent-encoded: a byte that is not unreserved becomes `%`
/// and its two upper-case hexadecimal digits.
pub open spec fn percent_encoded(bytes: Seq<u8>) -> Seq<char>
    decreases bytes.len(),
{
    if bytes.len() == 0 {
        Seq::empty()
    } else {
        let b = bytes.last();
        let coded = if is_unreserved(b) {
            seq![b as char]
        } else {
            seq!['%', upper_hex_digit((b / 16) as nat), upper_hex_digit((b % 16) as nat)]
        };
        percent_encoded(bytes.drop_last()) + coded
    }
}

/// The number that the hexadecimal digit `b` stands for, in either case.
pub open spec fn hex_value(b: u8) -> Option<u8> {
    if 0x30 <= b <= 0x39 {
        Some((b - 0x30) as u8)
    } else if 0x41 <= b <= 0x46 {
        Some((b - 0x41 + 10) as u8)
    } else if 0x61 <= b <= 0x66 {
        Some((b - 0x61 + 10) as u8)
    } else {
        None
    }
}

/// The bytes `bytes` percent-decoded: `%` and two hexadecimal digits become the
/// byte they spell. A `%` that no two such digits follow stands for itself, and
/// so does every other byte, `+` among them.
pub open spec fn percent_decoded(bytes: Seq<u8>) -> Seq<u8>
    decreases bytes.len(),
{
    if bytes.len() == 0 {
        bytes
    } else if bytes[0] != 0x25 {
        seq![bytes[0]] + percent_decoded(bytes.skip(1))
    } else if bytes.len() < 3 {
        bytes
    } else {
        match (hex_value(bytes[1]), hex_value(bytes[2])) {
            (Some(high), Some(low)) => seq![(high * 16 + low) as u8] + percent_decoded(
                bytes.skip(3),
            ),
            (Some(_), None) => seq![bytes[0], bytes[1]] + percent_decoded(bytes.skip(2)),
            (None, _) => seq![bytes[0]] + percent_decoded(bytes.skip(1)),
        }
    }
}

/// The text that the percent-encoded `text` stands for: its bytes decoded and read
/// as UTF-8, or `None` where they are no UTF-8.
pub open spec fn url_decoded(text: Seq<char>) -> Option<Seq<char>> {
    let bytes = percent_decoded(encode_utf8(text));
    if valid_utf8(bytes) {
        Some(decode_utf8(bytes))
    } else {
        None
    }
}

/// The words of a `std::string::FromUtf8Error`, as its `Display` gives them.
pub uninterp spec fn utf8_error_message(e: std::string::FromUtf8Error) -> Seq<char>;

/// The text of a result of decoding, where there is one.
pub open spec fn decoded_text(r: Result<String, std::string::FromUtf8Error>) -> Option<
    Seq<char>,
> {
    match r {
        Ok(text) => Some(text@),
        Err(_) => None,
    }
}

/// The error with which `urlencoding::decode` turns `text` down; `None` where it
/// decodes it.
pub uninterp spec fn url_decode_failure(text: Seq<char>) -> Option<std::string::FromUtf8Error>;

/// The error of a result of decoding, where there is one.
pub open spec fn decoding_failure(r: Result<String, std::string::FromUtf8Error>) -> Option<
    std::string::FromUtf8Error,
> {
    match r {
        Ok(_) => None,
        Err(e) => Some(e),
    }
}

/// Calls `urlencoding::encode`: every byte of the text in UTF-8 is kept where it is
/// unreserved and percent-encoded otherwise.
#[verifier::external_body]
fn encode(text: &str) -> (r: String)
    ensures
        r@ == percent_encoded(encode_utf8(text@)),
{
    urlencoding::encode(text).into_owned()
}

/// Calls `urlencoding::decode`: the bytes of the text are percent-decoded and must
/// then be UTF-8, else it is an error, which the contract names.
#[verifier::external_body]
fn decode(text: &str) -> (r: Result<String, std::string::FromUtf8Error>)
    ensures
        decoded_text(r) == url_decoded(text@),
        decoding_failure(r) == url_decode_failure(text@),
{
    match urlencoding::decode(text) {
        Ok(decoded) => Ok(decoded.into_owned()),
        Err(e) => Err(e),
    }
}

/// Renders a `std::string::FromUtf8Error` with its `Display`. The contract names
/// the text.
#[verifier::external_body]
fn utf8_error_text(e: &std::string::FromUtf8Error) -> (r: String)
    ensures
        r@ == utf8_error_message(*e),
{
    e.to_string()
}

/// The state of the URL tool: the input, the text shown for it, the direction,
/// and the warning of the last failure.
pub struct UrlConverter {
    input: String,
    converted: String,
    conversion: Conversion,
    warning: String,
}

/// `UrlConverter` with its texts as sequences of characters.
pub struct UrlConverterView {
    pub input: Seq<char>,
    pub converted: Seq<char>,
    pub conversion: Conversion,
    pub warning: Seq<char>,
}

impl UrlConverterView {
    /// The state in which the tool opens: nothing entered, set to decode.
    pub open spec fn initial() -> UrlConverterView {
        UrlConverterView {
            input: Seq::empty(),
            converted: Seq::empty(),
            conversion: Conversion::Decode,
            warning: Seq::empty(),
        }
    }
}

impl View for UrlConverter {
    type V = UrlConverterView;

    closed spec fn view(&self) -> UrlConverterView {
        UrlConverterView {
            input: self.input@,
            converted: self.converted@,
            conversion: self.conversion,
            warning: self.warning@,
        }
    }
}

impl ToolItem for UrlConverter {
    open spec fn spec_name(&self) -> Seq<char> {
        "URL 转换"@
    }

    open spec fn spec_description(&self) -> Seq<char> {
        "URL 编解码处理"@
    }

    fn name(&self) -> (r: &str) {
        "URL 转换"
    }

    fn description(&self) -> (r: &str) {
        "URL 编解码处理"
    }
}

impl Default for UrlConverter {
    /// The tool as it opens.
    fn default() -> (r: Self)
        ensures
            r@ == UrlConverterView::initial(),
    {
        UrlConverter {
            input: String::new(),
            converted: String::new(),
            conversion: Conversion::Decode,
            warning: String::new(),
        }
    }
}

impl UrlConverter {
    /// The input.
    pub fn input(&self) -> (r: &str)
        ensures
            r@ == self@.input,
    {
        self.input.as_str()
    }

    /// The text shown: what a copy takes.
    pub fn converted(&self) -> (r: &str)
        ensures
            r@ == self@.converted,
    {
        self.converted.as_str()
    }

    /// The direction chosen.
    pub fn conversion(&self) -> (r: Conversion)
        ensures
            r == self@.conversion,
    {
        self.conversion
    }

    /// The warning of the last failure; empty where there was none.
    pub fn warning(&self) -> (r: &str)
        ensures
            r@ == self@.warning,
    {
        self.warning.as_str()
    }

    /// Replaces the input.
    pub fn set_input(&mut self, input: String)
        ensures
            final(self)@ == (UrlConverterView { input: input@, ..old(self)@ }),
    {
        self.input = input;
    }

    /// Chooses the direction.
    pub fn set_conversion(&mut self, conversion: Conversion)
        ensures
            final(self)@ == (UrlConverterView { conversion, ..old(self)@ }),
    {
        self.conversion = conversion;
    }

    /// Codes the input in the direction chosen.
    ///
    /// Encoding always gives new text to show. Decoding gives it where the decoded
    /// bytes are UTF-8; where they are not, the text shown stays and the warning
    /// says why. A warning, once set, stays until the next failure.
    pub fn convert(&mut self)
        ensures
            match old(self)@.conversion {
                Conversion::Encode => final(self)@ == (UrlConverterView {
                    converted: percent_encoded(encode_utf8(old(self)@.input)),
                    ..old(self)@
                }),
                Conversion::Decode => match url_decoded(old(self)@.input) {
                    Some(text) => final(self)@ == (UrlConverterView {
                        converted: text,
                        ..old(self)@
                    }),
                    None => url_decode_failure(old(self)@.input) matches Some(e) && final(self)@
                        == (UrlConverterView { warning: utf8_error_message(e), ..old(self)@ }),
                },
            },
    {
        match self.conversion {
            Conversion::Encode => {
                self.converted = encode(self.input.as_str());
            },
            Conversion::Decode => match decode(self.input.as_str()) {
                Ok(decoded) => {
                    self.converted = decoded;
                },
                Err(e) => {
                    self.warning = utf8_error_text(&e);
                },
            },
        }
    }
}

} // verus!

//! The JSON pipeline: an optional textual pass that turns the look of a Python
//! dict into JSON, an optional step that writes the text as a JSON string literal
//! or reads it as one, and an optional step that lays a JSON document out anew,
//! indented or compact.
//!
//! Reading and writing JSON is `serde_json`'s. How it writes a string as a
//! literal is said in full, by `json_quote`. Its other results are named, not
//! described: the contracts say which of its functions is applied to what, in
//! which order, and what becomes of each result.

use vstd::prelude::*;
use crate::text::{chars_of, replace_all, replace_chars, string_of};
use crate::{copied_words, ToolItem};

verus! {

/// `serde_json::Error`: why a text was not read, or a value not written.
#[verifier::external_type_specification]
#[verifier::external_body]
pub struct ExJsonError(serde_json::Error);

/// `serde_json::Value`: a JSON document in memory.
#[verifier::external_type_specification]
#[verifier::external_body]
pub struct ExJsonValue(serde_json::Value);

/// How a JSON document is laid out anew.
#[derive(Clone, Copy, Debug, PartialEq, Eq, Structural)]
pub enum Formatter {
    /// The text is not read as a document and stays as it is.
    Plain,
    /// Indented, one member to a line.
    Pretty,
    /// Without any white space between tokens.
    Minimize,
}

/// Whether the text is taken as, or made into, a JSON string literal.
#[derive(Clone, Copy, Debug, PartialEq, Eq, Structural)]
pub enum Conversion {
    /// The text stays as it is.
    Keep,
    /// The text is written as a JSON string literal.
    Serialize,
    /// The text is read as a JSON string literal.
    Deserialize,
}

/// The result of one run of the pipeline.
#[derive(Debug, PartialEq)]
pub enum JsonOutcome {
    /// The run succeeded.
    Converted {
        /// The text to show.
        text: String,
        /// Whether `text` is a JSON document that can be shown as a tree.
        structured: bool,
        /// The document itself, where `structured` holds.
        value: Option<serde_json::Value>,
    },
    /// The run failed, with the parser's words on why.
    Warning(String),
}

/// `JsonOutcome` with its texts as sequences of characters.
pub enum JsonOutcomeView {
    Converted { text: Seq<char>, structured: bool, value: Option<serde_json::Value> },
    Warning(Seq<char>),
}

impl View for JsonOutcome {
    type V = JsonOutcomeView;

    open spec fn view(&self) -> JsonOutcomeView {
        match *self {
            JsonOutcome::Converted { text, structured, value } => JsonOutcomeView::Converted {
                text: text@,
                structured,
                value,
            },
            JsonOutcome::Warning(message) => JsonOutcomeView::Warning(message@),
        }
    }
}

/// The words of a `serde_json::Error`, as its `Display` gives them.
pub uninterp spec fn error_message(e: serde_json::Error) -> Seq<char>;

/// What `serde_json::from_str::<String>` makes of `text`: the content of the JSON
/// string literal that `text` is, or the error.
pub uninterp spec fn decoded_string(text: Seq<char>) -> Result<Seq<char>, serde_json::Error>;

/// What `serde_json::from_str::<serde_json::Value>` makes of `text`: the document
/// that `text` is, or the error.
pub uninterp spec fn parsed_value(text: Seq<char>) -> Result<serde_json::Value, serde_json::Error>;

/// What `serde_json::to_string_pretty` makes of a document: its indented text.
pub uninterp spec fn pretty_text(value: serde_json::Value) -> Result<Seq<char>, serde_json::Error>;

/// What `serde_json::to_string` makes of a document: its compact text.
pub uninterp spec fn compact_text(value: serde_json::Value) -> Result<
    Seq<char>,
    serde_json::Error,
>;

/// The lower-case hexadecimal digit for `n`, for `n` below sixteen.
pub open spec fn hex_digit(n: nat) -> char
    recommends
        n < 16,
{
    if n < 10 {
        (('0' as u32) + n) as char
    } else {
        (('a' as u32) + n - 10) as char
    }
}

/// How one character stands inside a JSON string literal.
///
/// The quotation mark and the backslash get a backslash before them. Of the
/// control characters below U+0020, backspace, tab, line feed, form feed and
/// carriage return are written `\b`, `\t`, `\n`, `\f`, `\r`, and the others `\u00`
/// with two lower-case hexadecimal digits. Every other character stands for itself.
pub open spec fn escaped(c: char) -> Seq<char> {
    let u = c as u32;
    if c == '"' {
        seq!['\\', '"']
    } else if c == '\\' {
        seq!['\\', '\\']
    } else if u == 0x08 {
        seq!['\\', 'b']
    } else if u == 0x09 {
        seq!['\\', 't']
    } else if u == 0x0A {
        seq!['\\', 'n']
    } else if u == 0x0C {
        seq!['\\', 'f']
    } else if u == 0x0D {
        seq!['\\', 'r']
    } else if u < 0x20 {
        seq!['\\', 'u', '0', '0', hex_digit((u / 16) as nat), hex_digit((u % 16) as nat)]
    } else {
        seq![c]
    }
}

/// The characters of `s`, each as it stands inside a JSON string literal.
pub open spec fn escaped_text(s: Seq<char>) -> Seq<char>
    decreases s.len(),
{
    if s.len() == 0 {
        Seq::empty()
    } else {
        escaped_text(s.drop_last()) + escaped(s.last())
    }
}

/// The JSON string literal whose content is `s`.
pub open spec fn json_quote(s: Seq<char>) -> Seq<char> {
    seq!['"'] + escaped_text(s) + seq!['"']
}

/// What `serde_json::to_string` makes of the string `text`: always the JSON string
/// literal whose content is `text`.
pub open spec fn encoded_string(text: Seq<char>) -> Result<Seq<char>, serde_json::Error> {
    Ok(json_quote(text))
}

/// `input` after the pass for the look of a Python dict, where `pythonic` asks for
/// it: every `'` becomes `"`, then every `None` becomes `null`. The pass knows
/// nothing of JSON: it also changes what stands inside a string.
pub open spec fn normalized(input: Seq<char>, pythonic: bool) -> Seq<char> {
    if pythonic {
        replace_all(replace_all(input, "'"@, "\""@), "None"@, "null"@)
    } else {
        input
    }
}

/// A result of `serde_json` with the words of its error in place of the error.
pub open spec fn text_or_words(r: Result<Seq<char>, serde_json::Error>) -> Result<
    Seq<char>,
    Seq<char>,
> {
    match r {
        Ok(text) => Ok(text),
        Err(e) => Err(error_message(e)),
    }
}

/// The text after the conversion step, or the words of the error that ended the run.
pub open spec fn working_text(text: Seq<char>, conversion: Conversion) -> Result<
    Seq<char>,
    Seq<char>,
> {
    match conversion {
        Conversion::Keep => Ok(text),
        Conversion::Serialize => text_or_words(encoded_string(text)),
        Conversion::Deserialize => text_or_words(decoded_string(text)),
    }
}

/// The outcome for a document once it is written, as `text`, or was not, for the
/// reason in words. An indented document is shown as a tree and handed on; a
/// compact one is plain text.
pub open spec fn written(
    text: Result<Seq<char>, Seq<char>>,
    pretty: bool,
    document: serde_json::Value,
) -> JsonOutcomeView {
    match text {
        Ok(text) => JsonOutcomeView::Converted {
            text,
            structured: pretty,
            value: if pretty {
                Some(document)
            } else {
                None
            },
        },
        Err(message) => JsonOutcomeView::Warning(message),
    }
}

/// The outcome for text once it is read as a document, or was not: the document is
/// written indented where `pretty` holds and compact otherwise; an error in
/// reading is the warning.
pub open spec fn laid_out(
    parsed: Result<serde_json::Value, serde_json::Error>,
    pretty: bool,
) -> JsonOutcomeView {
    match parsed {
        Ok(document) => written(
            text_or_words(
                if pretty {
                    pretty_text(document)
                } else {
                    compact_text(document)
                },
            ),
            pretty,
            document,
        ),
        Err(e) => JsonOutcomeView::Warning(error_message(e)),
    }
}

/// The outcome of the format step on the text `working`.
pub open spec fn formatted(working: Seq<char>, format: Formatter) -> JsonOutcomeView {
    match format {
        Formatter::Plain => JsonOutcomeView::Converted {
            text: working,
            structured: false,
            value: None,
        },
        Formatter::Pretty => laid_out(parsed_value(working), true),
        Formatter::Minimize => laid_out(parsed_value(working), false),
    }
}

/// The outcome of the whole pipeline: the pass for Python's look, the conversion
/// step, then the format step. An error in the conversion step ends the run before
/// the format step.
pub open spec fn json_result(
    input: Seq<char>,
    conversion: Conversion,
    format: Formatter,
    pythonic: bool,
) -> JsonOutcomeView {
    match working_text(normalized(input, pythonic), conversion) {
        Ok(working) => formatted(working, format),
        Err(message) => JsonOutcomeView::Warning(message),
    }
}

/// A result of `serde_json` with its text as a sequence of characters.
pub open spec fn read_as_text(r: Result<String, serde_json::Error>) -> Result<
    Seq<char>,
    serde_json::Error,
> {
    match r {
        Ok(text) => Ok(text@),
        Err(e) => Err(e),
    }
}

/// Renders a `serde_json::Error` with its `Display`. The contract names the text.
#[verifier::external_body]
fn error_text(e: &serde_json::Error) -> (r: String)
    ensures
        r@ == error_message(*e),
{
    e.to_string()
}

/// Calls `serde_json::from_str::<String>`. The contract names the result: the
/// content read, or the error.
#[verifier::external_body]
fn decode_string(text: &str) -> (r: Result<String, serde_json::Error>)
    ensures
        read_as_text(r) == decoded_string(text@),
{
    serde_json::from_str::<String>(text)
}

/// Calls `serde_json::to_string` on a string. Writing a string into memory does
/// not fail, and the text written is the string between quotation marks, each
/// character escaped as `escaped` says.
#[verifier::external_body]
fn encode_string(text: &str) -> (r: Result<String, serde_json::Error>)
    ensures
        read_as_text(r) == encoded_string(text@),
{
    serde_json::to_string(text)
}

/// Calls `serde_json::from_str::<serde_json::Value>`. The contract names the result.
#[verifier::external_body]
fn parse_value(text: &str) -> (r: Result<serde_json::Value, serde_json::Error>)
    ensures
        r == parsed_value(text@),
{
    serde_json::from_str::<serde_json::Value>(text)
}

/// Calls `serde_json::to_string_pretty` on a document. The contract names the result.
#[verifier::external_body]
fn write_pretty(value: &serde_json::Value) -> (r: Result<String, serde_json::Error>)
    ensures
        read_as_text(r) == pretty_text(*value),
{
    serde_json::to_string_pretty(value)
}

/// Calls `serde_json::to_string` on a document. The contract names the result.
#[verifier::external_body]
fn write_compact(value: &serde_json::Value) -> (r: Result<String, serde_json::Error>)
    ensures
        read_as_text(r) == compact_text(*value),
{
    serde_json::to_string(value)
}

/// The pass for the look of a Python dict.
pub fn normalize(input: &str, pythonic: bool) -> (r: String)
    ensures
        r@ == normalized(input@, pythonic),
{
    if pythonic {
        let chars = chars_of(input);
        let quote = chars_of("'");
        let double = chars_of("\"");
        let none = chars_of("None");
        let null = chars_of("null");
        proof {
            reveal_strlit("'");
            reveal_strlit("None");
        }
        let step = replace_chars(&chars, &quote, &double);
        let done = replace_chars(&step, &none, &null);
        string_of(&done)
    } else {
        input.to_owned()
    }
}

/// Text, or words, as sequences of characters.
pub open spec fn text_view(r: Result<String, String>) -> Result<Seq<char>, Seq<char>> {
    match r {
        Ok(text) => Ok(text@),
        Err(words) => Err(words@),
    }
}

/// Puts the words of the error in the place of an error of `serde_json`.
pub fn words_of(r: Result<String, serde_json::Error>) -> (out: Result<String, String>)
    ensures
        text_view(out) == text_or_words(read_as_text(r)),
{
    match r {
        Ok(text) => Ok(text),
        Err(e) => Err(error_text(&e)),
    }
}

/// The conversion step.
pub fn convert_text(text: String, conversion: Conversion) -> (r: Result<String, String>)
    ensures
        text_view(r) == working_text(text@, conversion),
{
    match conversion {
        Conversion::Keep => Ok(text),
        Conversion::Serialize => words_of(encode_string(text.as_str())),
        Conversion::Deserialize => words_of(decode_string(text.as_str())),
    }
}

/// The outcome for a document once it is written, or was not.
pub fn written_outcome(text: Result<String, String>, pretty: bool, document: serde_json::Value) -> (r:
    JsonOutcome)
    ensures
        r@ == written(text_view(text), pretty, document),
{
    match text {
        Ok(text) => JsonOutcome::Converted {
            text,
            structured: pretty,
            value: if pretty {
                Some(document)
            } else {
                None
            },
        },
        Err(message) => JsonOutcome::Warning(message),
    }
}

/// The outcome for text once it is read as a document, or was not.
pub fn layout_parsed(parsed: Result<serde_json::Value, serde_json::Error>, pretty: bool) -> (r:
    JsonOutcome)
    ensures
        r@ == laid_out(parsed, pretty),
{
    match parsed {
        Ok(document) => {
            let text = if pretty {
                words_of(write_pretty(&document))
            } else {
                words_of(write_compact(&document))
            };
            written_outcome(text, pretty, document)
        },
        Err(e) => JsonOutcome::Warning(error_text(&e)),
    }
}

/// The format step.
pub fn format_text(working: String, format: Formatter) -> (r: JsonOutcome)
    ensures
        r@ == formatted(working@, format),
{
    match format {
        Formatter::Plain => JsonOutcome::Converted { text: working, structured: false, value: None },
        Formatter::Pretty => layout_parsed(parse_value(working.as_str()), true),
        Formatter::Minimize => layout_parsed(parse_value(working.as_str()), false),
    }
}

/// The JSON pipeline. It keeps nothing between calls.
pub struct JsonEngine;

impl JsonEngine {
    /// Runs the pipeline on `input`.
    pub fn process(input: &str, conversion: Conversion, format: Formatter, pythonic: bool) -> (r:
        JsonOutcome)
        ensures
            r@ == json_result(input@, conversion, format, pythonic),
    {
        let text = normalize(input, pythonic);
        match convert_text(text, conversion) {
            Ok(working) => format_text(working, format),
            Err(message) => JsonOutcome::Warning(message),
        }
    }
}

/// The state of the JSON tool: the input, the text shown for it, the steps
/// chosen, the warning of the last run, and what the view of the result needs.
pub struct JsonConverter {
    input: String,
    converted: String,
    format: Formatter,
    conversion: Conversion,
    warning: String,
    use_json_tree: bool,
    tree: Option<serde_json::Value>,
    search_input: String,
    copied_prompt: bool,
    pythonic_style: bool,
}

/// `JsonConverter` with its texts as sequences of characters.
pub struct JsonConverterView {
    pub input: Seq<char>,
    pub converted: Seq<char>,
    pub format: Formatter,
    pub conversion: Conversion,
    pub warning: Seq<char>,
    pub use_json_tree: bool,
    pub tree: Option<serde_json::Value>,
    pub search_input: Seq<char>,
    pub copied: bool,
    pub pythonic_style: bool,
}

impl JsonConverterView {
    /// The state in which the tool opens: nothing entered, nothing shown, the
    /// input taken as it is and laid out indented.
    pub open spec fn initial() -> JsonConverterView {
        JsonConverterView {
            input: Seq::empty(),
            converted: Seq::empty(),
            format: Formatter::Pretty,
            conversion: Conversion::Keep,
            warning: Seq::empty(),
            use_json_tree: false,
            tree: None,
            search_input: Seq::empty(),
            copied: false,
            pythonic_style: false,
        }
    }

    /// The state after a run that ended in `outcome`.
    ///
    /// A run that succeeded replaces the text shown and takes the warning away;
    /// the text is shown as a tree where it is a document. A run that failed sets
    /// the warning and leaves the text shown as it was, as plain text. Either way
    /// the mark of a copy is gone.
    pub open spec fn after(self, outcome: JsonOutcomeView) -> JsonConverterView {
        match outcome {
            JsonOutcomeView::Converted { text, structured, value } => JsonConverterView {
                converted: text,
                warning: Seq::empty(),
                use_json_tree: structured,
                tree: value,
                copied: false,
                ..self
            },
            JsonOutcomeView::Warning(message) => JsonConverterView {
                warning: message,
                use_json_tree: false,
                tree: None,
                copied: false,
                ..self
            },
        }
    }
}

impl View for JsonConverter {
    type V = JsonConverterView;

    closed spec fn view(&self) -> JsonConverterView {
        JsonConverterView {
            input: self.input@,
            converted: self.converted@,
            format: self.format,
            conversion: self.conversion,
            warning: self.warning@,
            use_json_tree: self.use_json_tree,
            tree: self.tree,
            search_input: self.search_input@,
            copied: self.copied_prompt,
            pythonic_style: self.pythonic_style,
        }
    }
}

impl ToolItem for JsonConverter {
    open spec fn spec_name(&self) -> Seq<char> {
        "JSON 转换"@
    }

    open spec fn spec_description(&self) -> Seq<char> {
        "JSON 字符串格式处理"@
    }

    fn name(&self) -> (r: &str) {
        "JSON 转换"
    }

    fn description(&self) -> (r: &str) {
        "JSON 字符串格式处理"
    }
}

impl Default for JsonConverter {
    /// The tool as it opens.
    fn default() -> (r: Self)
        ensures
            r@ == JsonConverterView::initial(),
    {
        JsonConverter {
            input: String::new(),
            converted: String::new(),
            format: Formatter::Pretty,
            conversion: Conversion::Keep,
            warning: String::new(),
            use_json_tree: false,
            tree: None,
            search_input: String::new(),
            copied_prompt: false,
            pythonic_style: false,
        }
    }
}

impl JsonConverter {
    /// The input.
    pub fn input(&self) -> (r: &str)
        ensures
            r@ == self@.input,
    {
        self.input.as_str()
    }

    /// The text shown: what a copy takes.
    pub fn converted(&self) -> (r: &str)
        ensures
            r@ == self@.converted,
    {
        self.converted.as_str()
    }

    /// The layout chosen.
    pub fn format(&self) -> (r: Formatter)
        ensures
            r == self@.format,
    {
        self.format
    }

    /// The conversion chosen.
    pub fn conversion(&self) -> (r: Conversion)
        ensures
            r == self@.conversion,
    {
        self.conversion
    }

    /// The warning of the last run; empty after a run that succeeded.
    pub fn warning(&self) -> (r: &str)
        ensures
            r@ == self@.warning,
    {
        self.warning.as_str()
    }

    /// Whether the text shown is a document to show as a tree.
    pub fn use_json_tree(&self) -> (r: bool)
        ensures
            r == self@.use_json_tree,
    {
        self.use_json_tree
    }

    /// The document shown as a tree, where there is one.
    pub fn tree(&self) -> (r: Option<&serde_json::Value>)
        ensures
            r is Some <==> self@.tree is Some,
            r matches Some(document) ==> self@.tree == Some(*document),
    {
        self.tree.as_ref()
    }

    /// The words searched for in the tree.
    pub fn search_input(&self) -> (r: &str)
        ensures
            r@ == self@.search_input,
    {
        self.search_input.as_str()
    }

    /// Whether the text shown was copied since the last run.
    pub fn copied(&self) -> (r: bool)
        ensures
            r == self@.copied,
    {
        self.copied_prompt
    }

    /// The words that confirm a copy; empty where none was made.
    pub fn copied_prompt(&self) -> (r: &'static str)
        ensures
            r@ == copied_words(self@.copied),
    {
        if self.copied_prompt {
            "已复制"
        } else {
            ""
        }
    }

    /// Whether the input is taken to have the look of a Python dict.
    pub fn pythonic_style(&self) -> (r: bool)
        ensures
            r == self@.pythonic_style,
    {
        self.pythonic_style
    }

    /// Replaces the input.
    pub fn set_input(&mut self, input: String)
        ensures
            final(self)@ == (JsonConverterView { input: input@, ..old(self)@ }),
    {
        self.input = input;
    }

    /// Chooses the layout.
    pub fn set_format(&mut self, format: Formatter)
        ensures
            final(self)@ == (JsonConverterView { format, ..old(self)@ }),
    {
        self.format = format;
    }

    /// Chooses the conversion. A string literal is no document to lay out: with
    /// `Serialize` the layout falls back to `Plain`.
    pub fn set_conversion(&mut self, conversion: Conversion)
        ensures
            final(self)@ == (JsonConverterView {
                conversion,
                format: if conversion == Conversion::Serialize {
                    Formatter::Plain
                } else {
                    old(self)@.format
                },
                ..old(self)@
            }),
    {
        self.conversion = conversion;
        if conversion == Conversion::Serialize {
            self.format = Formatter::Plain;
        }
    }

    /// Says whether the input has the look of a Python dict.
    pub fn set_pythonic_style(&mut self, pythonic_style: bool)
        ensures
            final(self)@ == (JsonConverterView { pythonic_style, ..old(self)@ }),
    {
        self.pythonic_style = pythonic_style;
    }

    /// Replaces the words searched for in the tree.
    pub fn set_search_input(&mut self, search_input: String)
        ensures
            final(self)@ == (JsonConverterView { search_input: search_input@, ..old(self)@ }),
    {
        self.search_input = search_input;
    }

    /// Empties the words searched for in the tree.
    pub fn clear_search(&mut self)
        ensures
            final(self)@ == (JsonConverterView { search_input: Seq::empty(), ..old(self)@ }),
    {
        self.search_input = String::new();
    }

    /// Records that the text shown was copied.
    pub fn mark_copied(&mut self)
        ensures
            final(self)@ == (JsonConverterView { copied: true, ..old(self)@ }),
    {
        self.copied_prompt = true;
    }

    /// Takes the confirmation of a copy away again.
    pub fn dismiss_copied(&mut self)
        ensures
            final(self)@ == (JsonConverterView { copied: false, ..old(self)@ }),
    {
        self.copied_prompt = false;
    }

    /// Takes over the outcome of a run.
    pub fn apply(&mut self, outcome: JsonOutcome)
        ensures
            final(self)@ == old(self)@.after(outcome@),
    {
        self.copied_prompt = false;
        match outcome {
            JsonOutcome::Converted { text, structured, value } => {
                self.converted = text;
                self.warning = String::new();
                self.use_json_tree = structured;
                self.tree = value;
            },
            JsonOutcome::Warning(message) => {
                self.warning = message;
                self.use_json_tree = false;
                self.tree = None;
            },
        }
    }

    /// Runs the pipeline on the input with the steps chosen, and takes over the
    /// outcome.
    pub fn process(&mut self)
        ensures
            final(self)@ == old(self)@.after(
                json_result(
                    old(self)@.input,
                    old(self)@.conversion,
                    old(self)@.format,
                    old(self)@.pythonic_style,
                ),
            ),
    {
        let outcome = JsonEngine::process(
            self.input.as_str(),
            self.conversion,
            self.format,
            self.pythonic_style,
        );
        self.apply(outcome);
    }
}

/// A run that fails sets the warning to the parser's words and leaves the text
/// shown as it was before the run.
pub proof fn lemma_failed_run_keeps_output(before: JsonConverterView, message: Seq<char>)
    requires
        json_result(before.input, before.conversion, before.format, before.pythonic_style)
            == JsonOutcomeView::Warning(message),
    ensures
        before.after(
            json_result(before.input, before.conversion, before.format, before.pythonic_style),
        ) == (JsonConverterView {
            warning: message,
            use_json_tree: false,
            tree: None,
            copied: false,
            ..before
        }),
{
}

/// A run that succeeds takes the warning away.
pub proof fn lemma_good_run_clears_warning(before: JsonConverterView)
    requires
        json_result(
            before.input,
            before.conversion,
            before.format,
            before.pythonic_style,
        ) is Converted,
    ensures
        before.after(
            json_result(before.input, before.conversion, before.format, before.pythonic_style),
        ).warning == Seq::<char>::empty(),
{
}

/// The result is shown as a tree exactly where a run that laid the document out
/// indented succeeded, and exactly then the document is handed on.
pub proof fn lemma_tree_only_when_pretty(
    input: Seq<char>,
    conversion: Conversion,
    format: Formatter,
    pythonic: bool,
)
    ensures
        json_result(input, conversion, format, pythonic) matches JsonOutcomeView::Converted {
            structured,
            value,
            ..
        } ==> structured == (format == Formatter::Pretty) && (value is Some <==> structured),
{
}

/// With no conversion and no layout the pipeline hands its input back, and with
/// no layout it never reads the text as a document.
pub proof fn lemma_plain_run(input: Seq<char>, conversion: Conversion, pythonic: bool)
    ensures
        json_result(input, Conversion::Keep, Formatter::Plain, false)
            == (JsonOutcomeView::Converted { text: input, structured: false, value: None }),
        working_text(normalized(input, pythonic), conversion) matches Ok(working) ==> json_result(
            input,
            conversion,
            Formatter::Plain,
            pythonic,
        ) == (JsonOutcomeView::Converted { text: working, structured: false, value: None }),
{
}

/// Writing text as a string literal always succeeds, and the literal begins and
/// ends with a quotation mark.
pub proof fn lemma_serialize_succeeds(input: Seq<char>)
    ensures
        json_result(input, Conversion::Serialize, Formatter::Plain, false)
            == (JsonOutcomeView::Converted {
            text: json_quote(input),
            structured: false,
            value: None,
        }),
        json_quote(input).len() >= 2,
        json_quote(input).first() == '"',
        json_quote(input).last() == '"',
{
}

/// An error in the conversion step ends the run: the layout chosen plays no part.
pub proof fn lemma_conversion_error_ends_run(
    input: Seq<char>,
    format: Formatter,
    pythonic: bool,
    e: serde_json::Error,
)
    requires
        decoded_string(normalized(input, pythonic)) == Err::<Seq<char>, serde_json::Error>(e),
    ensures
        json_result(input, Conversion::Deserialize, format, pythonic) == JsonOutcomeView::Warning(
            error_message(e),
        ),
{
}

} // verus!

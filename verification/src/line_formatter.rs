//! A stack trace that arrives as one line, its line breaks and tabs written out as
//! `\n` and `\t`, is broken into lines again, and the lines that name a place in
//! code are marked.
//!
//! Which lines name a place in code is decided by a regular expression of the
//! `regex` crate; what it finds is named here, not described.

use vstd::prelude::*;
use crate::text::{chars_of, push_all, replace_all, replace_chars, string_of};
use crate::ToolItem;

verus! {

/// `regex::Regex`: a regular expression ready to be matched.
#[verifier::external_type_specification]
#[verifier::external_body]
pub struct ExRegex(regex::Regex);

/// How a line break is written out in the input.
#[derive(Clone, Copy, Debug, PartialEq, Eq, Structural)]
pub enum LineFormat {
    /// As `\n`.
    LF,
    /// As `\r\n`.
    CRLF,
}

/// One line of the result.
#[derive(Debug, PartialEq, Eq)]
pub struct FormattedLine {
    /// The line with a line feed after it.
    pub text: String,
    /// Whether the line names a place in code.
    pub code: bool,
}

/// What `regex::Regex::new` makes of `pattern`: the expression, or `None` where
/// it reports an error.
pub uninterp spec fn compiled(pattern: Seq<char>) -> Option<regex::Regex>;

/// Whether `regex::Regex::is_match` finds the expression anywhere in `text`.
pub uninterp spec fn regex_matches(expression: regex::Regex, text: Seq<char>) -> bool;

/// Calls `regex::Regex::new` and drops the error's detail. The contract names the
/// result.
#[verifier::external_body]
fn compile(pattern: &str) -> (r: Option<regex::Regex>)
    ensures
        r == compiled(pattern@),
{
    regex::Regex::new(pattern).ok()
}

/// Calls `regex::Regex::is_match`. The contract names the result.
#[verifier::external_body]
fn is_match(expression: &regex::Regex, text: &str) -> (r: bool)
    ensures
        r == regex_matches(*expression, text@),
{
    expression.is_match(text)
}

/// The pattern of a place in code: a word, a colon and a number, as in
/// `main.rs:12`, with or without ` +` and a word after it.
pub open spec fn code_pattern() -> Seq<char> {
    "\\w+:\\d+( \\+\\w+)?"@
}

/// The text that stands for a line break in the input.
pub open spec fn break_mark(format: LineFormat) -> Seq<char> {
    match format {
        LineFormat::LF => "\\n"@,
        LineFormat::CRLF => "\\r\\n"@,
    }
}

/// The input with its line breaks and tabs no longer written out: every mark of a
/// line break becomes a line feed, then every `\t` a tab.
pub open spec fn unescaped(input: Seq<char>, format: LineFormat) -> Seq<char> {
    replace_all(replace_all(input, break_mark(format), "\n"@), "\\t"@, "\t"@)
}

/// The index of the first line feed in `s`, or `s.len()` where it has none.
pub open spec fn line_end(s: Seq<char>) -> int
    decreases s.len(),
{
    if s.len() == 0 || s[0] == '\n' {
        0
    } else {
        1 + line_end(s.skip(1))
    }
}

/// `line` without the carriage return at its end, where it has one.
pub open spec fn without_return(line: Seq<char>) -> Seq<char> {
    if line.len() > 0 && line.last() == '\r' {
        line.drop_last()
    } else {
        line
    }
}

/// The lines of `s`. A line ends with a line feed, or with a carriage return and a
/// line feed; neither belongs to the line. What follows the last line feed is a
/// line of its own unless it is empty, and keeps a carriage return at its end.
pub open spec fn lines_of(s: Seq<char>) -> Seq<Seq<char>>
    decreases s.len(),
{
    if s.len() == 0 {
        Seq::empty()
    } else {
        let k = line_end(s);
        if k < 0 || k >= s.len() {
            seq![s]
        } else {
            seq![without_return(s.take(k))] + lines_of(s.skip(k + 1))
        }
    }
}

/// Whether `line` names a place in code, given the expression for it; no line does
/// where there is no expression.
pub open spec fn is_code(expression: Option<regex::Regex>, line: Seq<char>) -> bool {
    match expression {
        Some(e) => regex_matches(e, line),
        None => false,
    }
}

/// `FormattedLine` with its text as a sequence of characters.
pub struct FormattedLineView {
    pub text: Seq<char>,
    pub code: bool,
}

impl View for FormattedLine {
    type V = FormattedLineView;

    open spec fn view(&self) -> FormattedLineView {
        FormattedLineView { text: self.text@, code: self.code }
    }
}

/// The result for `input`: each line of the unescaped input with a line feed after
/// it, marked where it names a place in code.
pub open spec fn formatted_lines(
    input: Seq<char>,
    format: LineFormat,
    expression: Option<regex::Regex>,
) -> Seq<FormattedLineView> {
    let lines = lines_of(unescaped(input, format));
    Seq::new(
        lines.len(),
        |i: int| FormattedLineView { text: lines[i] + seq!['\n'], code: is_code(expression, lines[i]) },
    )
}

/// An index with no line feed before it, and one at it unless it is the length,
/// is the end of the first line.
proof fn lemma_line_end_is(s: Seq<char>, k: int)
    requires
        0 <= k <= s.len(),
        forall|j: int| 0 <= j < k ==> s[j] != '\n',
        k < s.len() ==> s[k] == '\n',
    ensures
        line_end(s) == k,
    decreases s.len(),
{
    if s.len() == 0 || s[0] == '\n' {
        if k > 0 {
            assert(s[0] != '\n');
        }
    } else {
        assert(k > 0);
        assert forall|j: int| 0 <= j < k - 1 implies s.skip(1)[j] != '\n' by {
            assert(s.skip(1)[j] == s[j + 1]);
        }
        if k - 1 < s.skip(1).len() {
            assert(s.skip(1)[k - 1] == s[k]);
        }
        lemma_line_end_is(s.skip(1), k - 1);
    }
}

/// Breaks `s` into its lines.
pub fn split_lines(s: &Vec<char>) -> (r: Vec<Vec<char>>)
    ensures
        r@.len() == lines_of(s@).len(),
        forall|i: int| 0 <= i < r@.len() ==> (#[trigger] r@[i])@ == lines_of(s@)[i],
{
    let mut out: Vec<Vec<char>> = Vec::new();
    let ghost mut done: Seq<Seq<char>> = Seq::empty();
    let mut start: usize = 0;
    assert(s@.skip(0) == s@);
    while start < s.len()
        invariant
            start <= s.len(),
            out@.len() == done.len(),
            forall|i: int| 0 <= i < out@.len() ==> (#[trigger] out@[i])@ == done[i],
            lines_of(s@) == done + lines_of(s@.skip(start as int)),
        decreases s.len() - start,
    {
        let ghost rest = s@.skip(start as int);
        let mut end: usize = start;
        while end < s.len() && s[end] != '\n'
            invariant
                start <= end <= s.len(),
                forall|j: int| start <= j < end ==> s@[j] != '\n',
            decreases s.len() - end,
        {
            end += 1;
        }
        proof {
            assert forall|j: int| 0 <= j < end - start implies rest[j] != '\n' by {
                assert(rest[j] == s@[start + j]);
            }
            if end - start < rest.len() {
                assert(rest[end - start] == s@[end as int]);
            }
            lemma_line_end_is(rest, end - start);
        }
        let whole = end == s.len();
        let stop: usize = if !whole && end > start && s[end - 1] == '\r' {
            end - 1
        } else {
            end
        };
        let mut line: Vec<char> = Vec::new();
        let mut i: usize = start;
        while i < stop
            invariant
                start <= i <= stop <= s.len(),
                line@ == s@.subrange(start as int, i as int),
            decreases stop - i,
        {
            line.push(s[i]);
            i += 1;
        }
        proof {
            if whole {
                assert(line@ == rest);
                assert(lines_of(rest) == seq![rest]);
                assert(s@.skip(s@.len() as int).len() == 0);
                assert(lines_of(s@.skip(s@.len() as int)) == Seq::<Seq<char>>::empty());
                assert(seq![rest] + Seq::<Seq<char>>::empty() == seq![rest]);
            } else {
                let first = rest.take(end - start);
                assert(first == s@.subrange(start as int, end as int));
                if end > start {
                    assert(first.last() == s@[end - 1]);
                }
                assert(line@ == without_return(first));
                assert(rest.skip(end - start + 1) == s@.skip(end + 1));
            }
        }
        let ghost before = done;
        proof {
            done = done.push(line@);
            if whole {
                assert(before + seq![rest] == done);
            } else {
                assert(before + (seq![line@] + lines_of(s@.skip(end + 1))) == done + lines_of(
                    s@.skip(end + 1),
                ));
            }
        }
        out.push(line);
        start = if whole {
            end
        } else {
            end + 1
        };
    }
    proof {
        assert(lines_of(s@.skip(start as int)) == Seq::<Seq<char>>::empty());
        assert(done + Seq::<Seq<char>>::empty() == done);
    }
    out
}

/// The state of the tool for stack traces: the input, how its line breaks are
/// written out, and the lines of the result.
pub struct LineFormatter {
    input: String,
    converted: Vec<FormattedLine>,
    line_format: LineFormat,
    expression: Option<regex::Regex>,
}

impl LineFormatter {
    /// The input, as a sequence of characters.
    pub closed spec fn spec_input(&self) -> Seq<char> {
        self.input@
    }

    /// How line breaks are written out in the input.
    pub closed spec fn spec_line_format(&self) -> LineFormat {
        self.line_format
    }

    /// The lines of the result.
    pub closed spec fn spec_converted(&self) -> Seq<FormattedLineView> {
        Seq::new(self.converted@.len(), |i: int| self.converted@[i]@)
    }

    /// The expression that finds a place in code.
    pub closed spec fn spec_expression(&self) -> Option<regex::Regex> {
        self.expression
    }

    /// The input.
    pub fn input(&self) -> (r: &str)
        ensures
            r@ == self.spec_input(),
    {
        self.input.as_str()
    }

    /// How line breaks are written out in the input.
    pub fn line_format(&self) -> (r: LineFormat)
        ensures
            r == self.spec_line_format(),
    {
        self.line_format
    }

    /// The lines of the result.
    pub fn converted(&self) -> (r: &Vec<FormattedLine>)
        ensures
            r@.len() == self.spec_converted().len(),
            forall|i: int| 0 <= i < r@.len() ==> (#[trigger] r@[i])@ == self.spec_converted()[i],
    {
        &self.converted
    }

    /// Replaces the input. The result stays until `format` is called.
    pub fn set_input(&mut self, input: String)
        ensures
            final(self).spec_input() == input@,
            final(self).spec_line_format() == old(self).spec_line_format(),
            final(self).spec_converted() == old(self).spec_converted(),
            final(self).spec_expression() == old(self).spec_expression(),
    {
        self.input = input;
    }

    /// Says how line breaks are written out. The result stays until `format` is
    /// called.
    pub fn set_line_format(&mut self, line_format: LineFormat)
        ensures
            final(self).spec_line_format() == line_format,
            final(self).spec_input() == old(self).spec_input(),
            final(self).spec_converted() == old(self).spec_converted(),
            final(self).spec_expression() == old(self).spec_expression(),
    {
        self.line_format = line_format;
    }

    /// Breaks the input into lines and marks those that name a place in code.
    pub fn format(&mut self)
        ensures
            final(self).spec_converted() == formatted_lines(
                old(self).spec_input(),
                old(self).spec_line_format(),
                old(self).spec_expression(),
            ),
            final(self).spec_input() == old(self).spec_input(),
            final(self).spec_line_format() == old(self).spec_line_format(),
            final(self).spec_expression() == old(self).spec_expression(),
    {
        let chars = chars_of(self.input.as_str());
        let mark = match self.line_format {
            LineFormat::LF => chars_of("\\n"),
            LineFormat::CRLF => chars_of("\\r\\n"),
        };
        let feed = chars_of("\n");
        let tab_mark = chars_of("\\t");
        let tab = chars_of("\t");
        proof {
            reveal_strlit("\\n");
            reveal_strlit("\\r\\n");
            reveal_strlit("\\t");
            reveal_strlit("\n");
        }
        let step = replace_chars(&chars, &mark, &feed);
        let plain = replace_chars(&step, &tab_mark, &tab);
        let lines = split_lines(&plain);
        let ghost wanted = formatted_lines(self.spec_input(), self.line_format, self.expression);
        let mut out: Vec<FormattedLine> = Vec::new();
        let mut i: usize = 0;
        while i < lines.len()
            invariant
                i <= lines.len(),
                lines@.len() == wanted.len(),
                self.expression == old(self).expression,
                out@.len() == i,
                forall|j: int| 0 <= j < i ==> (#[trigger] out@[j])@ == wanted[j],
                forall|j: int|
                    0 <= j < lines@.len() ==> wanted[j] == (FormattedLineView {
                        text: (#[trigger] lines@[j])@ + seq!['\n'],
                        code: is_code(self.expression, lines@[j]@),
                    }),
            decreases lines.len() - i,
        {
            let line = string_of(&lines[i]);
            let code = match &self.expression {
                Some(e) => is_match(e, line.as_str()),
                None => false,
            };
            let mut text: Vec<char> = Vec::new();
            push_all(&mut text, &lines[i]);
            text.push('\n');
            assert(text@ == lines@[i as int]@ + seq!['\n']);
            let entry = FormattedLine { text: string_of(&text), code };
            assert(entry@ == wanted[i as int]);
            out.push(entry);
            i += 1;
        }
        self.converted = out;
        assert(self.spec_converted() =~= wanted);
    }

    /// The whole result as one text: what a copy takes.
    pub fn converted_text(&self) -> (r: String)
        ensures
            r@ == joined(self.spec_converted()),
    {
        let mut out: Vec<char> = Vec::new();
        let mut i: usize = 0;
        let ghost lines = self.spec_converted();
        assert(lines.take(0) == Seq::<FormattedLineView>::empty());
        while i < self.converted.len()
            invariant
                i <= self.converted.len(),
                lines == self.spec_converted(),
                lines.len() == self.converted@.len(),
                out@ == joined(lines.take(i as int)),
            decreases self.converted.len() - i,
        {
            let chars = chars_of(self.converted[i].text.as_str());
            proof {
                assert(lines.take(i + 1).drop_last() == lines.take(i as int));
                assert(lines.take(i + 1).last().text == chars@);
            }
            push_all(&mut out, &chars);
            i += 1;
        }
        assert(lines.take(lines.len() as int) == lines);
        string_of(&out)
    }
}

/// The texts of `lines`, one after the other.
pub open spec fn joined(lines: Seq<FormattedLineView>) -> Seq<char>
    decreases lines.len(),
{
    if lines.len() == 0 {
        Seq::empty()
    } else {
        joined(lines.drop_last()) + lines.last().text
    }
}

impl ToolItem for LineFormatter {
    open spec fn spec_name(&self) -> Seq<char> {
        "堆栈字符串格式处理"@
    }

    open spec fn spec_description(&self) -> Seq<char> {
        "将堆栈字符串重新分行，并高亮展示代码行"@
    }

    fn name(&self) -> (r: &str) {
        "堆栈字符串格式处理"
    }

    fn description(&self) -> (r: &str) {
        "将堆栈字符串重新分行，并高亮展示代码行"
    }
}

impl Default for LineFormatter {
    /// The tool as it opens: nothing entered, line breaks written as `\n`, and the
    /// expression for a place in code made ready.
    fn default() -> (r: Self)
        ensures
            r.spec_input() == Seq::<char>::empty(),
            r.spec_converted() == Seq::<FormattedLineView>::empty(),
            r.spec_line_format() == LineFormat::LF,
            r.spec_expression() == compiled(code_pattern()),
    {
        let r = LineFormatter {
            input: String::new(),
            converted: Vec::new(),
            line_format: LineFormat::LF,
            expression: compile("\\w+:\\d+( \\+\\w+)?"),
        };
        assert(r.spec_converted() =~= Seq::<FormattedLineView>::empty());
        r
    }
}

} // verus!

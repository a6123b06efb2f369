//! Small tools for everyday development work, each a form that takes text and
//! shows text: timestamps to local time and back, JSON laid out or packed into a
//! string literal, URLs percent-encoded and decoded, stack traces broken into
//! lines, and jumps to the pages of issues, task graphs and logs.
//!
//! This crate holds what the tools decide and compute, with the state that each
//! keeps between frames. Drawing them is left to the application around it.

use vstd::prelude::*;

pub mod issue_jump;
pub mod json_util;
pub mod line_formatter;
pub mod log_ck;
pub mod style;
pub mod taskgraph;
pub mod text;
pub mod timestamp;
pub mod tool_card;
pub mod toolbox;
pub mod url_util;

verus! {

/// A tool that can be listed by name.
pub trait ToolItem {
    /// The tool's caption, as a sequence of characters.
    spec fn spec_name(&self) -> Seq<char>;

    /// One line on what the tool does, as a sequence of characters.
    spec fn spec_description(&self) -> Seq<char>;

    /// The tool's caption.
    fn name(&self) -> (r: &str)
        ensures
            r@ == self.spec_name(),
    ;

    /// One line on what the tool does.
    fn description(&self) -> (r: &str)
        ensures
            r@ == self.spec_description(),
    ;
}

/// The words that confirm a copy; empty where none was made.
pub open spec fn copied_words(copied: bool) -> Seq<char> {
    if copied {
        "已复制"@
    } else {
        ""@
    }
}

} // verus!

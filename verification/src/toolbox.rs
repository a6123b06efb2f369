//! The tools on offer, in the order of the side panel, and which of them is open.

use vstd::prelude::*;
use crate::issue_jump::IssueJump;
use crate::json_util::{JsonConverter, JsonConverterView};
use crate::line_formatter::LineFormatter;
use crate::log_ck::retriever::LogRetriever;
use crate::taskgraph::TaskGraphJump;
use crate::timestamp::{opens_with_now, TimestampConverter};
use crate::url_util::{UrlConverter, UrlConverterView};
use crate::ToolItem;

verus! {

/// One tool with its state.
pub enum Tool {
    Timestamp(TimestampConverter),
    Json(JsonConverter),
    Url(UrlConverter),
    LineFormat(LineFormatter),
    IssueJump(IssueJump),
    TaskGraphJump(TaskGraphJump),
    LogRetriever(LogRetriever),
}

impl ToolItem for Tool {
    open spec fn spec_name(&self) -> Seq<char> {
        match self {
            Tool::Timestamp(t) => t.spec_name(),
            Tool::Json(t) => t.spec_name(),
            Tool::Url(t) => t.spec_name(),
            Tool::LineFormat(t) => t.spec_name(),
            Tool::IssueJump(t) => t.spec_name(),
            Tool::TaskGraphJump(t) => t.spec_name(),
            Tool::LogRetriever(t) => t.spec_name(),
        }
    }

    open spec fn spec_description(&self) -> Seq<char> {
        match self {
            Tool::Timestamp(t) => t.spec_description(),
            Tool::Json(t) => t.spec_description(),
            Tool::Url(t) => t.spec_description(),
            Tool::LineFormat(t) => t.spec_description(),
            Tool::IssueJump(t) => t.spec_description(),
            Tool::TaskGraphJump(t) => t.spec_description(),
            Tool::LogRetriever(t) => t.spec_description(),
        }
    }

    fn name(&self) -> (r: &str) {
        match self {
            Tool::Timestamp(t) => t.name(),
            Tool::Json(t) => t.name(),
            Tool::Url(t) => t.name(),
            Tool::LineFormat(t) => t.name(),
            Tool::IssueJump(t) => t.name(),
            Tool::TaskGraphJump(t) => t.name(),
            Tool::LogRetriever(t) => t.name(),
        }
    }

    fn description(&self) -> (r: &str) {
        match self {
            Tool::Timestamp(t) => t.description(),
            Tool::Json(t) => t.description(),
            Tool::Url(t) => t.description(),
            Tool::LineFormat(t) => t.description(),
            Tool::IssueJump(t) => t.description(),
            Tool::TaskGraphJump(t) => t.description(),
            Tool::LogRetriever(t) => t.description(),
        }
    }
}

/// The tools in the order of the side panel, and the index of the one that is
/// open, if any.
pub struct Toolbox {
    tools: Vec<Tool>,
    active_tool: Option<usize>,
}

impl Toolbox {
    /// The tools, in order.
    pub closed spec fn spec_tools(&self) -> Seq<Tool> {
        self.tools@
    }

    /// The index of the tool that is open.
    pub closed spec fn spec_active(&self) -> Option<usize> {
        self.active_tool
    }

    /// The tool that is open is one of the tools.
    pub open spec fn wf(&self) -> bool {
        self.spec_active() matches Some(i) ==> i < self.spec_tools().len()
    }

    /// The tools of the application: timestamps, JSON and URLs, each as it opens,
    /// with the first open.
    pub fn new() -> (r: Self)
        ensures
            r.wf(),
            r.spec_tools().len() == 3,
            r.spec_tools()[0] matches Tool::Timestamp(t) && opens_with_now(t@),
            r.spec_tools()[1] matches Tool::Json(j) && j@ == JsonConverterView::initial(),
            r.spec_tools()[2] matches Tool::Url(u) && u@ == UrlConverterView::initial(),
            r.spec_active() == Some(0usize),
    {
        let mut tools: Vec<Tool> = Vec::new();
        tools.push(Tool::Timestamp(TimestampConverter::default()));
        tools.push(Tool::Json(JsonConverter::default()));
        tools.push(Tool::Url(UrlConverter::default()));
        Toolbox { tools, active_tool: Some(0) }
    }

    /// The given tools, with the first open where there is one.
    pub fn with_tools(tools: Vec<Tool>) -> (r: Self)
        ensures
            r.wf(),
            r.spec_tools() == tools@,
            r.spec_active() == (if tools@.len() > 0 {
                Some(0usize)
            } else {
                None
            }),
    {
        let active_tool = if tools.len() > 0 {
            Some(0)
        } else {
            None
        };
        Toolbox { tools, active_tool }
    }

    /// The number of tools.
    pub fn len(&self) -> (r: usize)
        ensures
            r == self.spec_tools().len(),
    {
        self.tools.len()
    }

    /// The index of the tool that is open.
    pub fn active_tool(&self) -> (r: Option<usize>)
        ensures
            r == self.spec_active(),
    {
        self.active_tool
    }

    /// Whether the tool at `index` is the one that is open.
    pub fn is_active(&self, index: usize) -> (r: bool)
        ensures
            r == (self.spec_active() == Some(index)),
    {
        match self.active_tool {
            Some(i) => i == index,
            None => false,
        }
    }

    /// Whether the tool at `index` is the last: no line is drawn below its card.
    pub fn is_last(&self, index: usize) -> (r: bool)
        ensures
            r == (index + 1 == self.spec_tools().len()),
    {
        self.tools.len() > 0 && index == self.tools.len() - 1
    }

    /// The tool at `index`.
    pub fn tool(&self, index: usize) -> (r: Option<&Tool>)
        ensures
            index < self.spec_tools().len() ==> r == Some(&self.spec_tools()[index as int]),
            index >= self.spec_tools().len() ==> r is None,
    {
        if index < self.tools.len() {
            Some(&self.tools[index])
        } else {
            None
        }
    }

    /// The tool that is open, to work with.
    pub fn active_mut(&mut self) -> (r: Option<&mut Tool>)
        ensures
            final(self).spec_active() == old(self).spec_active(),
            match old(self).spec_active() {
                Some(i) if i < old(self).spec_tools().len() => r matches Some(tool) && *tool == old(
                    self,
                ).spec_tools()[i as int] && final(self).spec_tools() == old(
                    self,
                ).spec_tools().update(i as int, *final(tool)),
                _ => r is None && final(self).spec_tools() == old(self).spec_tools(),
            },
    {
        match self.active_tool {
            Some(i) => {
                if i < self.tools.len() {
                    Some(&mut self.tools[i])
                } else {
                    None
                }
            },
            None => None,
        }
    }

    /// Opens the tool at `index`, as a click on its card does. An index past the
    /// last tool changes nothing.
    pub fn select(&mut self, index: usize)
        ensures
            old(self).wf() ==> final(self).wf(),
            final(self).spec_tools() == old(self).spec_tools(),
            final(self).spec_active() == (if index < old(self).spec_tools().len() {
                Some(index)
            } else {
                old(self).spec_active()
            }),
    {
        if index < self.tools.len() {
            self.active_tool = Some(index);
        }
    }

    /// Hands the tools out, and with them the index of the one that was open.
    pub fn into_parts(self) -> (r: (Vec<Tool>, Option<usize>))
        ensures
            r.0@ == self.spec_tools(),
            r.1 == self.spec_active(),
    {
        (self.tools, self.active_tool)
    }
}

} // verus!

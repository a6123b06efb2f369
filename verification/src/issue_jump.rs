//! The jump from the id of an event, a triage, a data set or a scenario to the
//! page of its issue.
//!
//! The issue is looked up over the network. This module holds what is decided
//! before and after: what is asked, what a reply means, and how the tool moves
//! between waiting and idle.

use vstd::prelude::*;
use crate::text::{
    chars_of, decimal_u64, nat_decimal, parse_u64, push_text, read_u64, trim_chars, trimmed,
};
use crate::ToolItem;

verus! {

/// What an id entered refers to.
#[derive(Clone, Copy, Debug, PartialEq, Eq, Structural)]
pub enum IdType {
    Event,
    Triage,
    Data,
    Scenario,
}

impl IdType {
    /// The field that the id is compared with.
    pub open spec fn spec_field(self) -> Seq<char> {
        match self {
            IdType::Event => "event.id"@,
            IdType::Scenario => "scenario.unique_id"@,
            IdType::Triage => "triage.id"@,
            IdType::Data => "data.id"@,
        }
    }

    /// The model that the field belongs to.
    pub open spec fn spec_model(self) -> Seq<char> {
        match self {
            IdType::Event => "event"@,
            IdType::Scenario => "scenario"@,
            IdType::Triage => "triage"@,
            IdType::Data => "data"@,
        }
    }

    /// The field that the id is compared with.
    pub fn field(&self) -> (r: &'static str)
        ensures
            r@ == self.spec_field(),
    {
        match self {
            IdType::Event => "event.id",
            IdType::Scenario => "scenario.unique_id",
            IdType::Triage => "triage.id",
            IdType::Data => "data.id",
        }
    }

    /// The model that the field belongs to.
    pub fn model(&self) -> (r: &'static str)
        ensures
            r@ == self.spec_model(),
    {
        match self {
            IdType::Event => "event",
            IdType::Scenario => "scenario",
            IdType::Triage => "triage",
            IdType::Data => "data",
        }
    }
}

/// Whether a lookup is under way.
#[derive(Clone, Copy, Debug, PartialEq, Eq, Structural)]
pub enum ReqStatus {
    Idle,
    Pending,
}

/// A lookup: the id and what it refers to.
#[derive(Clone, Copy, Debug, PartialEq, Eq, Structural)]
pub struct Query {
    pub id: u64,
    pub ty: IdType,
}

/// One condition of a lookup.
pub struct FilterItem {
    pub category: &'static str,
    pub field: &'static str,
    pub model: &'static str,
    pub operator: &'static str,
    pub symbol: &'static str,
    pub ty: &'static str,
    pub value: Vec<String>,
}

/// What is sent to look an issue up: the conditions, and which page of how many
/// results is wanted.
pub struct ListRequest {
    pub items: Vec<FilterItem>,
    pub page: u32,
    pub size: u32,
}

/// What a reply to a lookup holds: the service's code and message, and the ids of
/// the issues found, in the order of the reply.
pub struct ListReply {
    pub code: u32,
    pub ids: Vec<u64>,
    pub message: String,
}

impl Query {
    /// The lookup of `id`, which refers to a `ty`.
    pub fn new(id: u64, ty: IdType) -> (r: Self)
        ensures
            r == (Query { id, ty }),
    {
        Query { id, ty }
    }

    /// What is sent for this lookup: one condition, that the field of the id's kind
    /// equal the id as a number, and the first page of ten results.
    pub fn request(&self) -> (r: ListRequest)
        ensures
            r.page == 1,
            r.size == 10,
            r.items@.len() == 1,
            r.items@[0].category@ == "tags"@,
            r.items@[0].field@ == self.ty.spec_field(),
            r.items@[0].model@ == self.ty.spec_model(),
            r.items@[0].operator@ == "="@,
            r.items@[0].symbol@ == "and"@,
            r.items@[0].ty@ == "number"@,
            r.items@[0].value@.len() == 1,
            r.items@[0].value@[0]@ == nat_decimal(self.id as nat),
    {
        let mut value: Vec<String> = Vec::new();
        value.push(decimal_u64(self.id));
        let mut items: Vec<FilterItem> = Vec::new();
        items.push(
            FilterItem {
                category: "tags",
                field: self.ty.field(),
                model: self.ty.model(),
                operator: "=",
                symbol: "and",
                ty: "number",
                value,
            },
        );
        ListRequest { items, page: 1, size: 10 }
    }
}

/// What a reply means, or the words that say why it names no issue.
///
/// A status other than 200 is an error of the transport. A body that cannot be
/// read is reported in the reader's words, `unreadable`. A reply without issues
/// says that none was found, whatever its code; a code other than 200 is reported
/// with the service's message. Otherwise the first issue of the reply is the one.
pub open spec fn reply_meaning(
    status: u16,
    unreadable: Option<Seq<char>>,
    code: u32,
    ids: Seq<u64>,
    message: Seq<char>,
) -> Result<u64, Seq<char>> {
    if status != 200 {
        Err("HTTP error: "@ + nat_decimal(status as nat))
    } else if unreadable is Some {
        Err(unreadable->0)
    } else if ids.len() == 0 {
        Err("未找到对应 issue"@)
    } else if code != 200 {
        Err("API error: "@ + message)
    } else {
        Ok(ids[0])
    }
}

/// The meaning of a reply with status `status` whose body was read as `reply`.
pub open spec fn meaning_of(status: u16, reply: Result<ListReply, String>) -> Result<
    u64,
    Seq<char>,
> {
    match reply {
        Ok(list) => reply_meaning(status, None, list.code, list.ids@, list.message@),
        Err(words) => reply_meaning(status, Some(words@), 0, Seq::empty(), Seq::empty()),
    }
}

/// An id, or words as a sequence of characters.
pub open spec fn id_or_words(r: Result<u64, String>) -> Result<u64, Seq<char>> {
    match r {
        Ok(id) => Ok(id),
        Err(words) => Err(words@),
    }
}

/// Decides what a reply means.
pub fn issue_of_reply(status: u16, reply: Result<ListReply, String>) -> (r: Result<u64, String>)
    ensures
        id_or_words(r) == meaning_of(status, reply),
{
    if status != 200 {
        let mut words = String::new();
        push_text(&mut words, "HTTP error: ");
        let number = decimal_u64(status as u64);
        push_text(&mut words, number.as_str());
        return Err(words);
    }
    match reply {
        Err(words) => Err(words),
        Ok(list) => {
            if list.ids.len() == 0 {
                let mut words = String::new();
                push_text(&mut words, "未找到对应 issue");
                Err(words)
            } else if list.code != 200 {
                let mut words = String::new();
                push_text(&mut words, "API error: ");
                push_text(&mut words, list.message.as_str());
                Err(words)
            } else {
                Ok(list.ids[0])
            }
        },
    }
}

/// The address of the page of the issue `id`.
pub open spec fn issue_url(id: u64) -> Seq<char> {
    "https://aip.nioint.com/#/issue-scenario/issue/"@ + nat_decimal(id as nat) + "/info"@
}

/// The state of the jump to an issue.
pub struct IssueJump {
    id: String,
    id_type: IdType,
    warning: String,
    req_status: ReqStatus,
}

/// `IssueJump` with its texts as sequences of characters.
pub struct IssueJumpView {
    pub id: Seq<char>,
    pub id_type: IdType,
    pub warning: Seq<char>,
    pub req_status: ReqStatus,
}

impl View for IssueJump {
    type V = IssueJumpView;

    closed spec fn view(&self) -> IssueJumpView {
        IssueJumpView {
            id: self.id@,
            id_type: self.id_type,
            warning: self.warning@,
            req_status: self.req_status,
        }
    }
}

impl ToolItem for IssueJump {
    open spec fn spec_name(&self) -> Seq<char> {
        "Issue 快速跳转"@
    }

    open spec fn spec_description(&self) -> Seq<char> {
        "通过 id 快速打开 issue 页面"@
    }

    fn name(&self) -> (r: &str) {
        "Issue 快速跳转"
    }

    fn description(&self) -> (r: &str) {
        "通过 id 快速打开 issue 页面"
    }
}

impl Default for IssueJump {
    /// The tool as it opens: no id, the id of an event expected, nothing under way.
    fn default() -> (r: Self)
        ensures
            r@ == (IssueJumpView {
                id: Seq::empty(),
                id_type: IdType::Event,
                warning: Seq::empty(),
                req_status: ReqStatus::Idle,
            }),
    {
        IssueJump {
            id: String::new(),
            id_type: IdType::Event,
            warning: String::new(),
            req_status: ReqStatus::Idle,
        }
    }
}

impl IssueJump {
    /// The id entered.
    pub fn id(&self) -> (r: &str)
        ensures
            r@ == self@.id,
    {
        self.id.as_str()
    }

    /// What the id refers to.
    pub fn id_type(&self) -> (r: IdType)
        ensures
            r == self@.id_type,
    {
        self.id_type
    }

    /// The warning shown; empty where there is none.
    pub fn warning(&self) -> (r: &str)
        ensures
            r@ == self@.warning,
    {
        self.warning.as_str()
    }

    /// Whether a lookup is under way.
    pub fn req_status(&self) -> (r: ReqStatus)
        ensures
            r == self@.req_status,
    {
        self.req_status
    }

    /// Replaces the id entered and takes the warning away.
    pub fn set_id(&mut self, id: String)
        ensures
            final(self)@ == (IssueJumpView { id: id@, warning: Seq::empty(), ..old(self)@ }),
    {
        self.id = id;
        self.warning = String::new();
    }

    /// Says what the id refers to and takes the warning away.
    pub fn set_id_type(&mut self, id_type: IdType)
        ensures
            final(self)@ == (IssueJumpView { id_type, warning: Seq::empty(), ..old(self)@ }),
    {
        self.id_type = id_type;
        self.warning = String::new();
    }

    /// The button was pressed.
    ///
    /// Where the id entered, without the white space around it, is a number: a
    /// lookup under way is given up, and otherwise one is begun, which the caller
    /// is to send. Where it is no number, that is the warning.
    pub fn on_click(&mut self) -> (r: Option<Query>)
        ensures
            match parse_u64(trimmed(old(self)@.id)) {
                Some(id) => match old(self)@.req_status {
                    ReqStatus::Pending => r is None && final(self)@ == (IssueJumpView {
                        req_status: ReqStatus::Idle,
                        ..old(self)@
                    }),
                    ReqStatus::Idle => r == Some(Query { id, ty: old(self)@.id_type })
                        && final(self)@ == (IssueJumpView {
                        req_status: ReqStatus::Pending,
                        ..old(self)@
                    }),
                },
                None => r is None && final(self)@ == (IssueJumpView {
                    warning: "无效的ID"@,
                    ..old(self)@
                }),
            },
    {
        let chars = chars_of(self.id.as_str());
        let t = trim_chars(&chars);
        assert(t@.subrange(0, t@.len() as int) == t@);
        match read_u64(&t, 0, t.len()) {
            Some(id) => match self.req_status {
                ReqStatus::Pending => {
                    self.req_status = ReqStatus::Idle;
                    None
                },
                ReqStatus::Idle => {
                    self.req_status = ReqStatus::Pending;
                    Some(Query::new(id, self.id_type))
                },
            },
            None => {
                let mut words = String::new();
                push_text(&mut words, "无效的ID");
                self.warning = words;
                None
            },
        }
    }

    /// The answer to a lookup came in: the issue's id, or words on why there is
    /// none. Returns the address to open for an issue; the words become the
    /// warning. Either way nothing is under way afterwards.
    pub fn on_reply(&mut self, reply: Result<u64, String>) -> (r: Option<String>)
        ensures
            match reply {
                Ok(id) => r matches Some(url) && url@ == issue_url(id) && final(self)@ == (
                IssueJumpView { req_status: ReqStatus::Idle, ..old(self)@ }),
                Err(words) => r is None && final(self)@ == (IssueJumpView {
                    warning: words@,
                    req_status: ReqStatus::Idle,
                    ..old(self)@
                }),
            },
    {
        self.req_status = ReqStatus::Idle;
        match reply {
            Ok(id) => {
                let mut url = String::new();
                push_text(&mut url, "https://aip.nioint.com/#/issue-scenario/issue/");
                let number = decimal_u64(id);
                push_text(&mut url, number.as_str());
                push_text(&mut url, "/info");
                Some(url)
            },
            Err(words) => {
                self.warning = words;
                None
            },
        }
    }
}

} // verus!

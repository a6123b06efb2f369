//! One line of a service's log, and the service that wrote it.

use vstd::prelude::*;
use crate::style::{spec_prompt_color, log_message_color, log_source_color, log_time_color, Rgb};
use crate::text::same_text;

verus! {

/// The service that wrote a log line.
#[derive(Debug, PartialEq, Eq)]
pub enum ServiceType {
    Issue,
    SimApi,
    SimMQ,
    SimCron,
    /// A service that is none of the four, by the name it logs under.
    Other(String),
}

/// `ServiceType` with the name as a sequence of characters.
pub enum ServiceTypeView {
    Issue,
    SimApi,
    SimMQ,
    SimCron,
    Other(Seq<char>),
}

impl View for ServiceType {
    type V = ServiceTypeView;

    open spec fn view(&self) -> ServiceTypeView {
        match *self {
            ServiceType::Issue => ServiceTypeView::Issue,
            ServiceType::SimApi => ServiceTypeView::SimApi,
            ServiceType::SimMQ => ServiceTypeView::SimMQ,
            ServiceType::SimCron => ServiceTypeView::SimCron,
            ServiceType::Other(name) => ServiceTypeView::Other(name@),
        }
    }
}

impl ServiceTypeView {
    /// The short name under which the service is shown.
    pub open spec fn name(self) -> Seq<char> {
        match self {
            ServiceTypeView::Issue => "issue"@,
            ServiceTypeView::SimApi => "sim-api"@,
            ServiceTypeView::SimMQ => "sim-mq"@,
            ServiceTypeView::SimCron => "sim-cron"@,
            ServiceTypeView::Other(name) => name,
        }
    }

    /// The service that logs under `name`: one of the four by its full name, and
    /// any other by the name itself.
    pub open spec fn of_name(name: Seq<char>) -> ServiceTypeView {
        if name == "issue-mgmt"@ {
            ServiceTypeView::Issue
        } else if name == "issue-issue-sim-api-api"@ {
            ServiceTypeView::SimApi
        } else if name == "issue-issue-sim-mq-mq"@ {
            ServiceTypeView::SimMQ
        } else if name == "issue-issue-sim-cron-cron"@ {
            ServiceTypeView::SimCron
        } else {
            ServiceTypeView::Other(name)
        }
    }
}

impl ServiceType {
    /// The short name under which the service is shown.
    pub fn to_str(&self) -> (r: &str)
        ensures
            r@ == self@.name(),
    {
        match self {
            ServiceType::Issue => "issue",
            ServiceType::SimApi => "sim-api",
            ServiceType::SimMQ => "sim-mq",
            ServiceType::SimCron => "sim-cron",
            ServiceType::Other(s) => s.as_str(),
        }
    }

    /// The short names of the four services known, in their order.
    pub fn service_names() -> (r: Vec<&'static str>)
        ensures
            r@.len() == 4,
            r@[0]@ == ServiceTypeView::Issue.name(),
            r@[1]@ == ServiceTypeView::SimApi.name(),
            r@[2]@ == ServiceTypeView::SimMQ.name(),
            r@[3]@ == ServiceTypeView::SimCron.name(),
    {
        let mut names: Vec<&'static str> = Vec::new();
        names.push("issue");
        names.push("sim-api");
        names.push("sim-mq");
        names.push("sim-cron");
        names
    }

    /// The service that logs under `name`.
    pub fn from_name(name: String) -> (r: ServiceType)
        ensures
            r@ == ServiceTypeView::of_name(name@),
    {
        if same_text(name.as_str(), "issue-mgmt") {
            ServiceType::Issue
        } else if same_text(name.as_str(), "issue-issue-sim-api-api") {
            ServiceType::SimApi
        } else if same_text(name.as_str(), "issue-issue-sim-mq-mq") {
            ServiceType::SimMQ
        } else if same_text(name.as_str(), "issue-issue-sim-cron-cron") {
            ServiceType::SimCron
        } else {
            ServiceType::Other(name)
        }
    }
}

/// One line of a log: when it was written, by which service, and what it says.
#[derive(Debug, PartialEq, Eq)]
pub struct LogLine {
    pub ts: String,
    pub message: String,
    pub service: ServiceType,
}

/// `LogLine` with its texts as sequences of characters.
pub struct LogLineView {
    pub ts: Seq<char>,
    pub message: Seq<char>,
    pub service: ServiceTypeView,
}

impl View for LogLine {
    type V = LogLineView;

    open spec fn view(&self) -> LogLineView {
        LogLineView { ts: self.ts@, message: self.message@, service: self.service@ }
    }
}

/// A part of a log line as it is shown.
#[derive(Clone, Copy, Debug, PartialEq, Eq, Structural)]
pub enum LogPart {
    Time,
    Source,
    Message,
}

impl LogPart {
    /// The colour in which the part is shown.
    pub fn color(&self, dark_mode: bool) -> (c: Rgb)
        ensures
            c == spec_prompt_color(dark_mode),
    {
        match self {
            LogPart::Time => log_time_color(dark_mode),
            LogPart::Source => log_source_color(dark_mode),
            LogPart::Message => log_message_color(dark_mode),
        }
    }
}

/// A stretch of text to show: which part of the line it is, and the space to
/// leave before it, in points.
#[derive(Debug, PartialEq, Eq)]
pub struct Segment<'a> {
    pub text: &'a str,
    pub leading_space: u8,
    pub part: LogPart,
}

impl LogLine {
    /// The line that reports an error in place of a log: the words as its message,
    /// no time, and `<error>` as the service.
    pub fn error(message: String) -> (r: LogLine)
        ensures
            r@ == (LogLineView {
                ts: Seq::empty(),
                message: message@,
                service: ServiceTypeView::Other("<error>"@),
            }),
    {
        LogLine {
            ts: String::new(),
            message,
            service: ServiceType::Other("<error>".to_owned()),
        }
    }

    /// The line as it is shown: the time, then the service's short name, then the
    /// message, the last two set off by twelve points.
    pub fn segments(&self) -> (r: Vec<Segment<'_>>)
        ensures
            r@.len() == 3,
            r@[0].text@ == self@.ts && r@[0].leading_space == 0 && r@[0].part == LogPart::Time,
            r@[1].text@ == self@.service.name() && r@[1].leading_space == 12 && r@[1].part
                == LogPart::Source,
            r@[2].text@ == self@.message && r@[2].leading_space == 12 && r@[2].part
                == LogPart::Message,
    {
        let mut out: Vec<Segment<'_>> = Vec::new();
        out.push(Segment { text: self.ts.as_str(), leading_space: 0, part: LogPart::Time });
        out.push(
            Segment { text: self.service.to_str(), leading_space: 12, part: LogPart::Source },
        );
        out.push(
            Segment { text: self.message.as_str(), leading_space: 12, part: LogPart::Message },
        );
        out
    }
}

} // verus!

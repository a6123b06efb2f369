//! The query for the log lines that mention a trace, and what becomes of the reply.
//!
//! The address of the query is put together by the `url` crate; what it makes of
//! each step is named here, not described.

use vstd::prelude::*;
use crate::log_ck::log_line::{LogLine, LogLineView, ServiceTypeView};
use crate::text::push_text;
use crate::ToolItem;

verus! {

/// `url::Url`: a URL that was read and found well formed.
#[verifier::external_type_specification]
#[verifier::external_body]
pub struct ExUrl(url::Url);

/// The address of the ClickHouse server.
pub open spec fn host() -> Seq<char> {
    "http://observability-ch-prod.middleware.hlmd-prod.ch.nioint.com"@
}

/// The database that holds the logs.
pub open spec fn database() -> Seq<char> {
    "log"@
}

/// The condition that a line mention `key`.
pub open spec fn condition(key: Seq<char>) -> Seq<char> {
    "rawLog LIKE '%"@ + key + "%'"@
}

/// The conditions for `keys`, joined by `AND`: a line must mention every key.
pub open spec fn conditions(keys: Seq<Seq<char>>) -> Seq<char>
    decreases keys.len(),
{
    if keys.len() == 0 {
        Seq::empty()
    } else if keys.len() == 1 {
        condition(keys[0])
    } else {
        conditions(keys.drop_last()) + " AND "@ + condition(keys.last())
    }
}

/// The query for the lines that mention every one of `keys`: service, time and
/// text of at most a thousand lines, the newest first, as JSON. The keys stand in
/// the query as they are.
pub open spec fn query_text(keys: Seq<Seq<char>>) -> Seq<char> {
    "SELECT serviceName, ts, rawLog FROM unified_log_v1 WHERE "@ + conditions(keys)
        + " ORDER BY ts DESC LIMIT 1000 FORMAT JSON"@
}

/// The texts of `keys` as sequences of characters.
pub open spec fn texts(keys: Seq<String>) -> Seq<Seq<char>> {
    Seq::new(keys.len(), |i: int| keys[i]@)
}

/// What `url::Url::parse` makes of `text`: the URL, or `None` where it reports an
/// error.
pub uninterp spec fn parsed_url(text: Seq<char>) -> Option<url::Url>;

/// The URL that `url` becomes once the pair of `name` and `value` is appended to
/// its query, as `url::Url::query_pairs_mut` and `append_pair` of
/// `form_urlencoded` do it.
pub uninterp spec fn with_pair(url: url::Url, name: Seq<char>, value: Seq<char>) -> url::Url;

/// The text of a URL, as its `Display` gives it.
pub uninterp spec fn url_text(url: url::Url) -> Seq<char>;

/// The address made of `base` with two pairs appended to its query, the first
/// before the second; `None` where `base` is no URL.
pub open spec fn url_with_pairs(
    base: Seq<char>,
    name1: Seq<char>,
    value1: Seq<char>,
    name2: Seq<char>,
    value2: Seq<char>,
) -> Option<Seq<char>> {
    match parsed_url(base) {
        Some(url) => Some(url_text(with_pair(with_pair(url, name1, value1), name2, value2))),
        None => None,
    }
}

/// The text of an address, where there is one.
pub open spec fn address_text(r: Option<String>) -> Option<Seq<char>> {
    match r {
        Some(text) => Some(text@),
        None => None,
    }
}

/// Calls `url::Url::parse` and drops the error's detail. The contract names the
/// result.
#[verifier::external_body]
fn parse_url(text: &str) -> (r: Option<url::Url>)
    ensures
        r == parsed_url(text@),
{
    url::Url::parse(text).ok()
}

/// Calls `url::Url::query_pairs_mut` and on the query it opens `append_pair`,
/// which closes again when the call ends. The contract names the URL that
/// results.
#[verifier::external_body]
fn append_pair(url: &mut url::Url, name: &str, value: &str)
    ensures
        *final(url) == with_pair(*old(url), name@, value@),
{
    url.query_pairs_mut().append_pair(name, value);
}

/// Renders a URL with its `Display`. The contract names the text.
#[verifier::external_body]
fn url_string(url: &url::Url) -> (r: String)
    ensures
        r@ == url_text(*url),
{
    url.to_string()
}

/// Writes the query for the lines that mention every one of `keys`.
pub fn make_query(keys: &Vec<String>) -> (r: String)
    ensures
        r@ == query_text(texts(keys@)),
{
    let mut query = String::new();
    push_text(&mut query, "SELECT serviceName, ts, rawLog FROM unified_log_v1 WHERE ");
    let ghost head = query@;
    let ghost all = texts(keys@);
    let mut i: usize = 0;
    assert(all.take(0) == Seq::<Seq<char>>::empty());
    assert(head + Seq::<char>::empty() == head);
    while i < keys.len()
        invariant
            i <= keys.len(),
            all == texts(keys@),
            query@ == head + conditions(all.take(i as int)),
        decreases keys.len() - i,
    {
        let ghost before = all.take(i as int);
        let ghost now = all.take(i + 1);
        proof {
            assert(now.drop_last() == before);
            assert(now.last() == keys@[i as int]@);
            if i == 0 {
                assert(conditions(before) == Seq::<char>::empty());
                assert(now[0] == keys@[0]@);
            }
        }
        if i > 0 {
            push_text(&mut query, " AND ");
        }
        push_text(&mut query, "rawLog LIKE '%");
        push_text(&mut query, keys[i].as_str());
        push_text(&mut query, "%'");
        proof {
            let c = condition(keys@[i as int]@);
            if i == 0 {
                assert(query@ == head + c);
            } else {
                assert(query@ == head + (conditions(before) + " AND "@ + c));
            }
        }
        i += 1;
    }
    assert(all.take(all.len() as int) == all);
    push_text(&mut query, " ORDER BY ts DESC LIMIT 1000 FORMAT JSON");
    query
}

/// The address at which the server answers the query for `keys`; `None` where the
/// server's address is no URL.
pub fn make_ck_query(keys: &Vec<String>) -> (r: Option<String>)
    ensures
        address_text(r) == url_with_pairs(
            host(),
            "query"@,
            query_text(texts(keys@)),
            "database"@,
            database(),
        ),
{
    let query = make_query(keys);
    match parse_url("http://observability-ch-prod.middleware.hlmd-prod.ch.nioint.com") {
        Some(mut url) => {
            append_pair(&mut url, "query", query.as_str());
            append_pair(&mut url, "database", "log");
            Some(url_string(&url))
        },
        None => None,
    }
}

/// The lines to show for a reply that came with status `status`.
///
/// With status 200 they are the lines read from the body, or one line that
/// reports why the body could not be read. With any other status the body's text
/// is reported as one line.
pub fn lines_of_reply(status: u16, parsed: Result<Vec<LogLine>, String>, text: String) -> (r: Vec<
    LogLine,
>)
    ensures
        status == 200 ==> match parsed {
            Ok(lines) => r@ == lines@,
            Err(words) => r@.len() == 1 && r@[0]@ == (LogLineView {
                ts: Seq::empty(),
                message: words@,
                service: ServiceTypeView::Other("<error>"@),
            }),
        },
        status != 200 ==> r@.len() == 1 && r@[0]@ == (LogLineView {
            ts: Seq::empty(),
            message: text@,
            service: ServiceTypeView::Other("<error>"@),
        }),
{
    if status == 200 {
        match parsed {
            Ok(lines) => lines,
            Err(words) => error_lines(words),
        }
    } else {
        error_lines(text)
    }
}

/// The one line to show where there is an error in place of a reply.
pub fn error_lines(words: String) -> (r: Vec<LogLine>)
    ensures
        r@.len() == 1,
        r@[0]@ == (LogLineView {
            ts: Seq::empty(),
            message: words@,
            service: ServiceTypeView::Other("<error>"@),
        }),
{
    let mut out: Vec<LogLine> = Vec::new();
    out.push(LogLine::error(words));
    out
}

/// The state of the log tool: the trace looked for, the span of time, the lines
/// shown, and whether a reply is awaited.
pub struct LogRetriever {
    trace_id: String,
    from: String,
    to: String,
    rendered: Vec<LogLine>,
    loading: bool,
}

impl LogRetriever {
    /// The trace looked for, as a sequence of characters.
    pub closed spec fn spec_trace_id(&self) -> Seq<char> {
        self.trace_id@
    }

    /// The start of the span of time, as a sequence of characters.
    pub closed spec fn spec_from(&self) -> Seq<char> {
        self.from@
    }

    /// The end of the span of time, as a sequence of characters.
    pub closed spec fn spec_to(&self) -> Seq<char> {
        self.to@
    }

    /// The lines shown.
    pub closed spec fn spec_rendered(&self) -> Seq<LogLine> {
        self.rendered@
    }

    /// Whether a reply is awaited.
    pub closed spec fn spec_loading(&self) -> bool {
        self.loading
    }

    /// The trace looked for.
    pub fn trace_id(&self) -> (r: &str)
        ensures
            r@ == self.spec_trace_id(),
    {
        self.trace_id.as_str()
    }

    /// The start of the span of time.
    pub fn from(&self) -> (r: &str)
        ensures
            r@ == self.spec_from(),
    {
        self.from.as_str()
    }

    /// The end of the span of time.
    pub fn to(&self) -> (r: &str)
        ensures
            r@ == self.spec_to(),
    {
        self.to.as_str()
    }

    /// The lines shown.
    pub fn rendered(&self) -> (r: &Vec<LogLine>)
        ensures
            r@ == self.spec_rendered(),
    {
        &self.rendered
    }

    /// Whether a reply is awaited.
    pub fn loading(&self) -> (r: bool)
        ensures
            r == self.spec_loading(),
    {
        self.loading
    }

    /// Replaces the trace looked for.
    pub fn set_trace_id(&mut self, trace_id: String)
        ensures
            final(self).spec_trace_id() == trace_id@,
            final(self).spec_from() == old(self).spec_from(),
            final(self).spec_to() == old(self).spec_to(),
            final(self).spec_rendered() == old(self).spec_rendered(),
            final(self).spec_loading() == old(self).spec_loading(),
    {
        self.trace_id = trace_id;
    }

    /// Replaces the start of the span of time.
    pub fn set_from(&mut self, from: String)
        ensures
            final(self).spec_from() == from@,
            final(self).spec_trace_id() == old(self).spec_trace_id(),
            final(self).spec_to() == old(self).spec_to(),
            final(self).spec_rendered() == old(self).spec_rendered(),
            final(self).spec_loading() == old(self).spec_loading(),
    {
        self.from = from;
    }

    /// Replaces the end of the span of time.
    pub fn set_to(&mut self, to: String)
        ensures
            final(self).spec_to() == to@,
            final(self).spec_trace_id() == old(self).spec_trace_id(),
            final(self).spec_from() == old(self).spec_from(),
            final(self).spec_rendered() == old(self).spec_rendered(),
            final(self).spec_loading() == old(self).spec_loading(),
    {
        self.to = to;
    }

    /// The button was pressed: a reply is awaited from now on. Returns the address
    /// to fetch, which asks for the lines that mention the trace.
    pub fn begin_query(&mut self) -> (r: Option<String>)
        ensures
            final(self).spec_loading(),
            final(self).spec_trace_id() == old(self).spec_trace_id(),
            final(self).spec_from() == old(self).spec_from(),
            final(self).spec_to() == old(self).spec_to(),
            final(self).spec_rendered() == old(self).spec_rendered(),
            address_text(r) == url_with_pairs(
                host(),
                "query"@,
                query_text(seq![old(self).spec_trace_id()]),
                "database"@,
                database(),
            ),
    {
        self.loading = true;
        let mut keys: Vec<String> = Vec::new();
        keys.push(self.trace_id.clone());
        assert(texts(keys@) =~= seq![self.trace_id@]);
        make_ck_query(&keys)
    }

    /// Lines came in. Where a reply is awaited they are shown and the wait is
    /// over; where none is awaited they are dropped.
    pub fn receive(&mut self, lines: Vec<LogLine>)
        ensures
            final(self).spec_trace_id() == old(self).spec_trace_id(),
            final(self).spec_from() == old(self).spec_from(),
            final(self).spec_to() == old(self).spec_to(),
            !final(self).spec_loading(),
            final(self).spec_rendered() == (if old(self).spec_loading() {
                lines@
            } else {
                old(self).spec_rendered()
            }),
    {
        if self.loading {
            self.rendered = lines;
            self.loading = false;
        }
    }
}

impl ToolItem for LogRetriever {
    open spec fn spec_name(&self) -> Seq<char> {
        "Issue 日志整合查询"@
    }

    open spec fn spec_description(&self) -> Seq<char> {
        "综合查询 issue/issue-sim 日志"@
    }

    fn name(&self) -> (r: &str) {
        "Issue 日志整合查询"
    }

    fn description(&self) -> (r: &str) {
        "综合查询 issue/issue-sim 日志"
    }
}

impl Default for LogRetriever {
    /// The tool as it opens: nothing entered, nothing shown, nothing awaited.
    fn default() -> (r: Self)
        ensures
            r.spec_trace_id() == Seq::<char>::empty(),
            r.spec_from() == Seq::<char>::empty(),
            r.spec_to() == Seq::<char>::empty(),
            r.spec_rendered() == Seq::<LogLine>::empty(),
            !r.spec_loading(),
    {
        LogRetriever {
            trace_id: String::new(),
            from: String::new(),
            to: String::new(),
            rendered: Vec::new(),
            loading: false,
        }
    }
}

} // verus!

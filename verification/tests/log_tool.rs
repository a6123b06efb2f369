use handy::log_ck::log_line::{LogLine, LogPart, Segment, ServiceType};
use handy::log_ck::retriever::{
    error_lines, lines_of_reply, make_ck_query, make_query, LogRetriever,
};
use handy::style::prompt_color;
use handy::ToolItem;

#[test]
fn services_have_short_names() {
    assert_eq!(ServiceType::Issue.to_str(), "issue");
    assert_eq!(ServiceType::SimApi.to_str(), "sim-api");
    assert_eq!(ServiceType::SimMQ.to_str(), "sim-mq");
    assert_eq!(ServiceType::SimCron.to_str(), "sim-cron");
    assert_eq!(ServiceType::Other("x-y".to_string()).to_str(), "x-y");
    assert_eq!(ServiceType::service_names(), vec!["issue", "sim-api", "sim-mq", "sim-cron"]);
}

#[test]
fn services_are_known_by_their_full_names() {
    assert_eq!(ServiceType::from_name("issue-mgmt".to_string()), ServiceType::Issue);
    assert_eq!(ServiceType::from_name("issue-issue-sim-api-api".to_string()), ServiceType::SimApi);
    assert_eq!(ServiceType::from_name("issue-issue-sim-mq-mq".to_string()), ServiceType::SimMQ);
    assert_eq!(
        ServiceType::from_name("issue-issue-sim-cron-cron".to_string()),
        ServiceType::SimCron
    );
    assert_eq!(
        ServiceType::from_name("issue".to_string()),
        ServiceType::Other("issue".to_string())
    );
    assert_eq!(ServiceType::from_name(String::new()), ServiceType::Other(String::new()));
}

#[test]
fn a_line_is_shown_in_three_parts() {
    let line = LogLine {
        ts: "2024-01-01 00:00:00".to_string(),
        message: "started".to_string(),
        service: ServiceType::SimMQ,
    };
    assert_eq!(
        line.segments(),
        vec![
            Segment { text: "2024-01-01 00:00:00", leading_space: 0, part: LogPart::Time },
            Segment { text: "sim-mq", leading_space: 12, part: LogPart::Source },
            Segment { text: "started", leading_space: 12, part: LogPart::Message },
        ]
    );
    for part in [LogPart::Time, LogPart::Source, LogPart::Message] {
        assert_eq!(part.color(true), prompt_color(true));
        assert_eq!(part.color(false), prompt_color(false));
    }
}

#[test]
fn query_names_every_key() {
    assert_eq!(
        make_query(&vec!["abc".to_string()]),
        "SELECT serviceName, ts, rawLog FROM unified_log_v1 WHERE rawLog LIKE '%abc%' ORDER BY ts DESC LIMIT 1000 FORMAT JSON"
    );
    assert_eq!(
        make_query(&vec!["a".to_string(), "b c".to_string(), "".to_string()]),
        "SELECT serviceName, ts, rawLog FROM unified_log_v1 WHERE rawLog LIKE '%a%' AND rawLog LIKE '%b c%' AND rawLog LIKE '%%' ORDER BY ts DESC LIMIT 1000 FORMAT JSON"
    );
    assert_eq!(
        make_query(&Vec::new()),
        "SELECT serviceName, ts, rawLog FROM unified_log_v1 WHERE  ORDER BY ts DESC LIMIT 1000 FORMAT JSON"
    );
}

#[test]
fn query_address_is_form_encoded() {
    assert_eq!(
        make_ck_query(&vec!["t-1".to_string()]).as_deref(),
        Some("http://observability-ch-prod.middleware.hlmd-prod.ch.nioint.com/?query=SELECT+serviceName%2C+ts%2C+rawLog+FROM+unified_log_v1+WHERE+rawLog+LIKE+%27%25t-1%25%27+ORDER+BY+ts+DESC+LIMIT+1000+FORMAT+JSON&database=log")
    );
}

fn error_line(words: &str) -> LogLine {
    LogLine {
        ts: String::new(),
        message: words.to_string(),
        service: ServiceType::Other("<error>".to_string()),
    }
}

#[test]
fn reply_becomes_lines_or_one_line_of_error() {
    let lines = vec![LogLine {
        ts: "t".to_string(),
        message: "m".to_string(),
        service: ServiceType::Issue,
    }];
    let same = vec![LogLine {
        ts: "t".to_string(),
        message: "m".to_string(),
        service: ServiceType::Issue,
    }];
    assert_eq!(lines_of_reply(200, Ok(lines), "body".to_string()), same);
    assert_eq!(
        lines_of_reply(200, Err("bad json".to_string()), "body".to_string()),
        vec![error_line("bad json")]
    );
    assert_eq!(
        lines_of_reply(503, Ok(Vec::new()), "unavailable".to_string()),
        vec![error_line("unavailable")]
    );
    assert_eq!(
        lines_of_reply(404, Err("bad json".to_string()), String::new()),
        vec![error_line("")]
    );
    assert_eq!(error_lines("refused".to_string()), vec![error_line("refused")]);
    assert_eq!(LogLine::error("x".to_string()), error_line("x"));
}

#[test]
fn log_tool_waits_for_one_reply() {
    let mut tool = LogRetriever::default();
    assert_eq!(tool.trace_id(), "");
    assert_eq!(tool.from(), "");
    assert_eq!(tool.to(), "");
    assert!(tool.rendered().is_empty());
    assert!(!tool.loading());
    assert_eq!(tool.name(), "Issue 日志整合查询");
    assert_eq!(tool.description(), "综合查询 issue/issue-sim 日志");

    tool.receive(vec![error_line("early")]);
    assert!(tool.rendered().is_empty());

    tool.set_trace_id("xyz".to_string());
    tool.set_from("a".to_string());
    tool.set_to("b".to_string());
    let address = tool.begin_query();
    assert_eq!(address, make_ck_query(&vec!["xyz".to_string()]));
    assert!(address.unwrap().contains("%27%25xyz%25%27"));
    assert!(tool.loading());
    tool.receive(vec![error_line("one")]);
    assert!(!tool.loading());
    assert_eq!(tool.rendered(), &vec![error_line("one")]);
    tool.receive(vec![error_line("two")]);
    assert_eq!(tool.rendered(), &vec![error_line("one")]);
    assert_eq!(tool.trace_id(), "xyz");
    assert_eq!(tool.from(), "a");
    assert_eq!(tool.to(), "b");
}

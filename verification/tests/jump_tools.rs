use handy::issue_jump::{issue_of_reply, IdType, IssueJump, ListReply, Query, ReqStatus};
use handy::style::{
    highlight_color, log_error_color, log_message_color, log_source_color, log_time_color,
    primary_color, prompt_color, warn_color, Rgb,
};
use handy::taskgraph::{GraphType, TaskGraphJump};
use handy::tool_card::{CardTone, ToolCard};
use handy::ToolItem;

#[test]
fn card_holds_caption_and_description() {
    let card = ToolCard::new("caption", "what it does");
    assert_eq!(card.caption(), "caption");
    assert_eq!(card.description(), "what it does");
}

#[test]
fn card_tone_by_state_and_background() {
    assert_eq!(ToolCard::tone(true, true), CardTone::White);
    assert_eq!(ToolCard::tone(false, true), CardTone::Gray);
    assert_eq!(ToolCard::tone(true, false), CardTone::Black);
    assert_eq!(ToolCard::tone(false, false), CardTone::Gray);
}

#[test]
fn colours_for_dark_and_light() {
    assert_eq!(warn_color(true), Rgb { r: 255, g: 255, b: 0 });
    assert_eq!(warn_color(false), Rgb { r: 255, g: 0, b: 0 });
    assert_eq!(primary_color(true), Rgb { r: 0x00, g: 0x5c, b: 0x12 });
    assert_eq!(primary_color(false), Rgb { r: 0xbb, g: 0xe1, b: 0x9e });
    assert_eq!(prompt_color(true), Rgb { r: 0xa3, g: 0xb1, b: 0x8a });
    assert_eq!(prompt_color(false), Rgb { r: 0x58, g: 0x81, b: 0x57 });
    assert_eq!(highlight_color(true), Rgb { r: 0xff, g: 0xa5, b: 0xab });
    assert_eq!(highlight_color(false), Rgb { r: 0xa5, g: 0x38, b: 0x60 });
    assert_eq!(log_error_color(true), Rgb { r: 0xff, g: 0x69, b: 0x61 });
    assert_eq!(log_error_color(false), Rgb { r: 0xff, g: 0x00, b: 0x00 });
    for dark in [true, false] {
        assert_eq!(log_time_color(dark), prompt_color(dark));
        assert_eq!(log_message_color(dark), prompt_color(dark));
        assert_eq!(log_source_color(dark), prompt_color(dark));
    }
}

#[test]
fn graph_kinds_have_names() {
    assert_eq!(GraphType::ReproduceTask.as_str(), "task_reproduce");
    assert_eq!(GraphType::RetestTask.as_str(), "task_retest");
    assert_eq!(GraphType::ReproduceResult.as_str(), "result_reproduce");
    assert_eq!(GraphType::RetestResult.as_str(), "result_retest");
    assert_eq!(GraphType::TaskTrigger.as_str(), "trigger_task");
}

#[test]
fn graph_url_is_built_from_kind_and_id() {
    let mut jump = TaskGraphJump::default();
    assert_eq!(jump.graph_type(), GraphType::ReproduceTask);
    assert_eq!(jump.exec_id(), "");
    assert_eq!(
        jump.url(),
        "https://aip.nioint.com/api/issue-sim-beta/v1/taskgraph/render?type=task_reproduce&exec_id=&redirect=true"
    );
    jump.set_graph_type(GraphType::RetestResult);
    jump.set_exec_id("abc-123".to_string());
    assert_eq!(
        jump.url(),
        "https://aip.nioint.com/api/issue-sim-beta/v1/taskgraph/render?type=result_retest&exec_id=abc-123&redirect=true"
    );
    assert_eq!(jump.name(), "任务图快速跳转");
    assert_eq!(jump.description(), "通过 id 快速打开任务图页面");
}

#[test]
fn id_kinds_have_field_and_model() {
    assert_eq!(IdType::Event.field(), "event.id");
    assert_eq!(IdType::Scenario.field(), "scenario.unique_id");
    assert_eq!(IdType::Triage.field(), "triage.id");
    assert_eq!(IdType::Data.field(), "data.id");
    assert_eq!(IdType::Event.model(), "event");
    assert_eq!(IdType::Scenario.model(), "scenario");
    assert_eq!(IdType::Triage.model(), "triage");
    assert_eq!(IdType::Data.model(), "data");
}

#[test]
fn query_asks_for_one_condition() {
    let q = Query::new(42, IdType::Scenario);
    assert_eq!(q, Query { id: 42, ty: IdType::Scenario });
    let request = q.request();
    assert_eq!(request.page, 1);
    assert_eq!(request.size, 10);
    assert_eq!(request.items.len(), 1);
    let item = &request.items[0];
    assert_eq!(item.category, "tags");
    assert_eq!(item.field, "scenario.unique_id");
    assert_eq!(item.model, "scenario");
    assert_eq!(item.operator, "=");
    assert_eq!(item.symbol, "and");
    assert_eq!(item.ty, "number");
    assert_eq!(item.value, vec!["42".to_string()]);
}

fn reply(code: u32, ids: Vec<u64>, message: &str) -> Result<ListReply, String> {
    Ok(ListReply { code, ids, message: message.to_string() })
}

#[test]
fn reply_is_read_in_order_of_checks() {
    assert_eq!(issue_of_reply(200, reply(200, vec![7, 8], "ok")), Ok(7));
    assert_eq!(
        issue_of_reply(404, reply(200, vec![7], "ok")),
        Err("HTTP error: 404".to_string())
    );
    assert_eq!(
        issue_of_reply(500, Err("bad body".to_string())),
        Err("HTTP error: 500".to_string())
    );
    assert_eq!(issue_of_reply(200, Err("bad body".to_string())), Err("bad body".to_string()));
    assert_eq!(
        issue_of_reply(200, reply(500, vec![], "boom")),
        Err("未找到对应 issue".to_string())
    );
    assert_eq!(
        issue_of_reply(200, reply(500, vec![7], "boom")),
        Err("API error: boom".to_string())
    );
}

#[test]
fn issue_tool_opens_idle() {
    let jump = IssueJump::default();
    assert_eq!(jump.id(), "");
    assert_eq!(jump.id_type(), IdType::Event);
    assert_eq!(jump.warning(), "");
    assert_eq!(jump.req_status(), ReqStatus::Idle);
    assert_eq!(jump.name(), "Issue 快速跳转");
    assert_eq!(jump.description(), "通过 id 快速打开 issue 页面");
}

#[test]
fn click_starts_and_cancels_a_lookup() {
    let mut jump = IssueJump::default();
    jump.set_id(" 123 ".to_string());
    jump.set_id_type(IdType::Triage);
    assert_eq!(jump.on_click(), Some(Query { id: 123, ty: IdType::Triage }));
    assert_eq!(jump.req_status(), ReqStatus::Pending);
    assert_eq!(jump.on_click(), None);
    assert_eq!(jump.req_status(), ReqStatus::Idle);
    assert_eq!(jump.warning(), "");
}

#[test]
fn click_with_no_number_warns() {
    let mut jump = IssueJump::default();
    jump.set_id("12x".to_string());
    assert_eq!(jump.on_click(), None);
    assert_eq!(jump.warning(), "无效的ID");
    assert_eq!(jump.req_status(), ReqStatus::Idle);
    jump.set_id("12".to_string());
    assert_eq!(jump.warning(), "");
    jump.set_id("-1".to_string());
    assert_eq!(jump.on_click(), None);
    assert_eq!(jump.warning(), "无效的ID");
    jump.set_id_type(IdType::Data);
    assert_eq!(jump.warning(), "");
}

#[test]
fn reply_opens_the_issue_or_warns() {
    let mut jump = IssueJump::default();
    jump.set_id("5".to_string());
    assert!(jump.on_click().is_some());
    assert_eq!(
        jump.on_reply(Ok(98765)),
        Some("https://aip.nioint.com/#/issue-scenario/issue/98765/info".to_string())
    );
    assert_eq!(jump.req_status(), ReqStatus::Idle);
    assert!(jump.on_click().is_some());
    assert_eq!(jump.on_reply(Err("HTTP error: 500".to_string())), None);
    assert_eq!(jump.warning(), "HTTP error: 500");
    assert_eq!(jump.req_status(), ReqStatus::Idle);
}

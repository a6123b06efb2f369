use handy::json_util::JsonConverter;
use handy::taskgraph::TaskGraphJump;
use handy::toolbox::{Tool, Toolbox};
use handy::ToolItem;

#[test]
fn toolbox_opens_with_three_tools() {
    let toolbox = Toolbox::new();
    assert_eq!(toolbox.len(), 3);
    assert_eq!(toolbox.active_tool(), Some(0));
    assert!(matches!(toolbox.tool(0), Some(Tool::Timestamp(_))));
    assert!(matches!(toolbox.tool(1), Some(Tool::Json(_))));
    assert!(matches!(toolbox.tool(2), Some(Tool::Url(_))));
    assert!(toolbox.tool(3).is_none());
    assert_eq!(toolbox.tool(0).unwrap().name(), "时间戳转换");
    assert_eq!(toolbox.tool(1).unwrap().name(), "JSON 转换");
    assert_eq!(toolbox.tool(2).unwrap().description(), "URL 编解码处理");
}

#[test]
fn a_click_opens_a_tool() {
    let mut toolbox = Toolbox::new();
    assert!(toolbox.is_active(0));
    assert!(!toolbox.is_active(1));
    toolbox.select(2);
    assert_eq!(toolbox.active_tool(), Some(2));
    assert!(toolbox.is_active(2));
    toolbox.select(3);
    assert_eq!(toolbox.active_tool(), Some(2));
    assert!(!toolbox.is_last(0));
    assert!(!toolbox.is_last(1));
    assert!(toolbox.is_last(2));
    assert!(!toolbox.is_last(3));
}

#[test]
fn the_open_tool_can_be_worked_with() {
    let mut toolbox = Toolbox::new();
    toolbox.select(1);
    match toolbox.active_mut() {
        Some(Tool::Json(json)) => {
            json.set_input("[1]".to_string());
            json.process();
        }
        _ => panic!("the JSON tool should be open"),
    }
    match toolbox.tool(1) {
        Some(Tool::Json(json)) => assert_eq!(json.converted(), "[\n  1\n]"),
        _ => panic!("the JSON tool should be second"),
    }
}

#[test]
fn a_toolbox_of_chosen_tools() {
    let empty = Toolbox::with_tools(Vec::new());
    assert_eq!(empty.len(), 0);
    assert_eq!(empty.active_tool(), None);
    assert!(!empty.is_last(0));
    let mut one = Toolbox::with_tools(vec![
        Tool::TaskGraphJump(TaskGraphJump::default()),
        Tool::Json(JsonConverter::default()),
    ]);
    assert_eq!(one.active_tool(), Some(0));
    assert!(one.active_mut().is_some());
    assert_eq!(one.tool(0).unwrap().name(), "任务图快速跳转");
    let (tools, active) = one.into_parts();
    assert_eq!(tools.len(), 2);
    assert_eq!(active, Some(0));
}

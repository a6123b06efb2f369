use handy::line_formatter::{split_lines, FormattedLine, LineFormat, LineFormatter};
use handy::ToolItem;

fn chars(s: &str) -> Vec<char> {
    s.chars().collect()
}

fn lines(s: &str) -> Vec<String> {
    split_lines(&chars(s)).into_iter().map(|l| l.into_iter().collect()).collect()
}

fn formatted(input: &str, format: LineFormat) -> Vec<(String, bool)> {
    let mut tool = LineFormatter::default();
    tool.set_line_format(format);
    tool.set_input(input.to_string());
    tool.format();
    tool.converted().iter().map(|l| (l.text.clone(), l.code)).collect()
}

#[test]
fn split_lines_agrees_with_std() {
    let samples = [
        "",
        "a",
        "a\n",
        "a\nb",
        "a\n\nb\n",
        "\n",
        "\n\n",
        "a\r\nb\r\n",
        "a\rb",
        "a\r",
        "a\r\n\r",
        "\r\n",
        "\r\r\n",
        "one\ntwo\r\nthree",
        "中\n文",
    ];
    for s in samples {
        let expected: Vec<String> = s.lines().map(|l| l.to_string()).collect();
        assert_eq!(lines(s), expected);
    }
}

#[test]
fn line_tool_opens_empty() {
    let tool = LineFormatter::default();
    assert_eq!(tool.input(), "");
    assert_eq!(tool.line_format(), LineFormat::LF);
    assert!(tool.converted().is_empty());
    assert_eq!(tool.converted_text(), "");
    assert_eq!(tool.name(), "堆栈字符串格式处理");
    assert_eq!(tool.description(), "将堆栈字符串重新分行，并高亮展示代码行");
}

#[test]
fn written_out_breaks_and_tabs_become_real() {
    let r = formatted("panic at main\\n\\tat src/main.rs:12 +0x1f\\nnote: done", LineFormat::LF);
    assert_eq!(
        r,
        vec![
            ("panic at main\n".to_string(), false),
            ("\tat src/main.rs:12 +0x1f\n".to_string(), true),
            ("note: done\n".to_string(), false),
        ]
    );
}

#[test]
fn crlf_marks_are_replaced_only_in_crlf_mode() {
    let input = "a\\r\\nb.go:7\\nc";
    assert_eq!(
        formatted(input, LineFormat::CRLF),
        vec![("a\n".to_string(), false), ("b.go:7\\nc\n".to_string(), true)]
    );
    assert_eq!(
        formatted(input, LineFormat::LF),
        vec![("a\\r\n".to_string(), false), ("b.go:7\n".to_string(), true), ("c\n".to_string(), false)]
    );
}

#[test]
fn code_lines_need_word_colon_digit() {
    let cases = [
        ("x:1", true),
        ("a b:22 c", true),
        ("file.rs:10 +abc", true),
        ("x: 1", false),
        (":1", false),
        ("x:", false),
        ("12:30", true),
        ("no colon here", false),
        ("", false),
        ("中文:٣", true),
    ];
    for (line, code) in cases {
        let r = formatted(line, LineFormat::LF);
        if line.is_empty() {
            assert!(r.is_empty());
        } else {
            assert_eq!(r, vec![(format!("{}\n", line), code)]);
        }
    }
}

#[test]
fn real_line_breaks_in_the_input_also_split() {
    let r = formatted("a\r\nb\n\nc", LineFormat::LF);
    assert_eq!(
        r,
        vec![
            ("a\n".to_string(), false),
            ("b\n".to_string(), false),
            ("\n".to_string(), false),
            ("c\n".to_string(), false),
        ]
    );
}

#[test]
fn copy_takes_all_lines() {
    let mut tool = LineFormatter::default();
    tool.set_input("a\\nb:1\\n".to_string());
    tool.format();
    assert_eq!(tool.converted_text(), "a\nb:1\n");
    assert_eq!(
        tool.converted(),
        &vec![
            FormattedLine { text: "a\n".to_string(), code: false },
            FormattedLine { text: "b:1\n".to_string(), code: true },
        ]
    );
    tool.set_input("changed".to_string());
    assert_eq!(tool.converted_text(), "a\nb:1\n");
    assert_eq!(tool.input(), "changed");
}

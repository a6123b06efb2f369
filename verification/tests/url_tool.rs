use handy::url_util::{Conversion, UrlConverter};
use handy::ToolItem;

fn coded(input: &str, conversion: Conversion) -> UrlConverter {
    let mut c = UrlConverter::default();
    c.set_conversion(conversion);
    c.set_input(input.to_string());
    c.convert();
    c
}

#[test]
fn url_tool_opens_decoding() {
    let c = UrlConverter::default();
    assert_eq!(c.input(), "");
    assert_eq!(c.converted(), "");
    assert_eq!(c.conversion(), Conversion::Decode);
    assert_eq!(c.warning(), "");
    assert_eq!(c.name(), "URL 转换");
    assert_eq!(c.description(), "URL 编解码处理");
}

#[test]
fn encode_keeps_unreserved_bytes() {
    let plain = "AZaz09-._~";
    assert_eq!(coded(plain, Conversion::Encode).converted(), plain);
}

#[test]
fn encode_escapes_everything_else() {
    assert_eq!(coded("a b&c/d", Conversion::Encode).converted(), "a%20b%26c%2Fd");
    assert_eq!(coded("中", Conversion::Encode).converted(), "%E4%B8%AD");
    assert_eq!(coded("%+\n", Conversion::Encode).converted(), "%25%2B%0A");
    assert_eq!(coded("\u{7f}@[`{", Conversion::Encode).converted(), "%7F%40%5B%60%7B");
    assert_eq!(coded("", Conversion::Encode).converted(), "");
}

#[test]
fn decode_reads_escapes_in_either_case() {
    assert_eq!(coded("a%20b%2fc%2Fd", Conversion::Decode).converted(), "a b/c/d");
    assert_eq!(coded("%E4%B8%AD", Conversion::Decode).converted(), "中");
    assert_eq!(coded("%e4%b8%ad", Conversion::Decode).converted(), "中");
}

#[test]
fn decode_leaves_what_is_no_escape() {
    assert_eq!(coded("a+b", Conversion::Decode).converted(), "a+b");
    assert_eq!(coded("100%", Conversion::Decode).converted(), "100%");
    assert_eq!(coded("%4", Conversion::Decode).converted(), "%4");
    assert_eq!(coded("%zz", Conversion::Decode).converted(), "%zz");
    assert_eq!(coded("%4z%41", Conversion::Decode).converted(), "%4zA");
    assert_eq!(coded("%%41", Conversion::Decode).converted(), "%A");
    assert_eq!(coded("%4%41", Conversion::Decode).converted(), "%4A");
    assert_eq!(coded("%%", Conversion::Decode).converted(), "%%");
}

#[test]
fn decode_of_bytes_that_are_no_utf8_warns_and_keeps_output() {
    let mut c = coded("ok", Conversion::Decode);
    assert_eq!(c.converted(), "ok");
    c.set_input("%FF".to_string());
    c.convert();
    assert_eq!(c.converted(), "ok");
    assert_eq!(c.warning(), "invalid utf-8 sequence of 1 bytes from index 0");
    c.set_input("fine".to_string());
    c.convert();
    assert_eq!(c.converted(), "fine");
    assert_eq!(c.warning(), "invalid utf-8 sequence of 1 bytes from index 0");
}

#[test]
fn encode_then_decode_gives_the_text_back() {
    for s in ["", "a b", "中文 & more ~", "100% sure?", "\u{1F600}/\\"] {
        let encoded = coded(s, Conversion::Encode).converted().to_string();
        assert_eq!(coded(&encoded, Conversion::Decode).converted(), s);
    }
}

use ding::json::push_json_escaped;

fn escaped(s: &str) -> String {
    let mut out = String::new();
    push_json_escaped(&mut out, s);
    out
}

#[test]
fn plain_text_is_unchanged() {
    assert_eq!(escaped("echo hi 🚀 ok"), "echo hi 🚀 ok");
    assert_eq!(escaped(""), "");
}

#[test]
fn quotes_and_backslashes_are_escaped() {
    assert_eq!(escaped("say \"hi\""), "say \\\"hi\\\"");
    assert_eq!(escaped("C:\\tmp"), "C:\\\\tmp");
}

#[test]
fn control_characters_are_escaped() {
    assert_eq!(escaped("a\nb\rc\td"), "a\\nb\\rc\\td");
    assert_eq!(escaped("\u{1}\u{1f}"), "\\u0001\\u001f");
}

#[test]
fn escaping_appends_to_what_is_there() {
    let mut out = String::from("x=");
    push_json_escaped(&mut out, "\"");
    assert_eq!(out, "x=\\\"");
}

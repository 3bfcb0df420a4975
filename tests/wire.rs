use uaf::wire::frame_line;

#[test]
fn frame_appends_newline() {
    assert_eq!(
        frame_line("{\"a\":1}".to_string()),
        Some("{\"a\":1}\n".to_string())
    );
    assert_eq!(frame_line(String::new()), Some("\n".to_string()));
}

#[test]
fn frame_refuses_embedded_newline() {
    assert_eq!(frame_line("{\"a\":\n1}".to_string()), None);
    assert_eq!(frame_line("x\n".to_string()), None);
}

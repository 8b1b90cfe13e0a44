use typr::typing::type_text_impl;

#[test]
fn typing_script_wraps_the_text_in_the_keystroke_loop() {
    let script = type_text_impl("hello");
    let expected = "tell application \"System Events\"\n    set theText to \"hello\"\n    repeat with i from 1 to (count of characters in theText)\n        set theChar to character i of theText\n        keystroke theChar\n    end repeat\nend tell";
    assert_eq!(script, expected);
}

#[test]
fn quotes_and_backslashes_are_escaped_for_the_script() {
    let script = type_text_impl("say \"hi\" \\ done");
    assert!(script.contains("set theText to \"say \\\"hi\\\" \\\\ done\""));
}

#[test]
fn plain_text_passes_through_unescaped() {
    let script = type_text_impl("line one\nline two $`");
    assert!(script.contains("set theText to \"line one\nline two $`\""));
}

use tars::term::{
    command_lines, tabs_expanded, Execution, ExecutionCapture, OutputLines, PwdScan, EOC_MARKER,
    EOC_PROMPT, PWD_COMMAND, PWD_END_MARKER,
};

#[test]
fn tabs_become_two_spaces() {
    assert_eq!(tabs_expanded("a\tb\t\t"), "a  b    ");
    assert_eq!(tabs_expanded("none"), "none");
}

#[test]
fn plain_output_strips_escapes_and_is_kept() {
    let mut e = Execution::default();
    e.raw_output = "\x1b[32mgreen\x1b[0m\tx\n".to_string();
    assert_eq!(e.plain_output(), "green  x\n");
    e.raw_output = "changed".to_string();
    assert_eq!(e.plain_output(), "green  x\n");
}

#[test]
fn output_lines_drop_carriage_returns_and_replace_bad_utf8() {
    let mut o = OutputLines::new();
    assert_eq!(o.push_bytes(b"hi\r\nthe"), vec!["hi".to_string()]);
    assert_eq!(o.push_bytes(b"re\n\xff\xfe\n"), vec!["there".to_string(), "\u{FFFD}\u{FFFD}".to_string()]);
    assert_eq!(o.push_bytes(b"a\rb\r\r\n"), vec!["a\rb\r".to_string()]);
}

#[test]
fn command_lines_follow_str_lines() {
    for c in ["ls", "a\r\nb\n", "a\rb", "", "\n", "x\n\ny", "tail\r"] {
        let expected: Vec<String> = c.lines().map(|l| l.to_string()).collect();
        assert_eq!(command_lines(c), expected, "{c:?}");
    }
}

#[test]
fn capture_separates_echo_and_output() {
    let mut cap = ExecutionCapture::new("ls".to_string());
    // The echo ends with the terminal's bracketed-paste switch, not with the marker.
    assert!(!cap.on_line(&format!("$ ls{EOC_PROMPT}\x1b[?2004l")));
    assert!(!cap.on_line("file1"));
    assert!(!cap.on_line("file2"));
    assert!(cap.on_line(EOC_MARKER));
    assert!(cap.on_line("ignored"));
    let e = cap.finish(std::time::Duration::from_millis(5));
    assert_eq!(e.command, "ls");
    assert_eq!(e.raw_prompt, "$ ls\n");
    assert_eq!(e.raw_output, "file1\nfile2\n");
    assert_eq!(e.duration, std::time::Duration::from_millis(5));
}

#[test]
fn capture_keeps_text_before_the_marker() {
    let mut cap = ExecutionCapture::new("printf abc".to_string());
    cap.on_line("printf abc; echo __END_OF_COMMAND__\x1b[?2004l");
    assert!(cap.on_line("abc__END_OF_COMMAND____END_OF_COMMAND__"));
    let e = cap.finish(std::time::Duration::ZERO);
    assert_eq!(e.raw_output, "abc\n");
}

#[test]
fn capture_of_a_multi_line_command_skips_each_echo() {
    let mut cap = ExecutionCapture::new("echo a\necho b".to_string());
    cap.on_line("echo a");
    cap.on_line("> echo b; echo __END_OF_COMMAND__\x1b[?2004l");
    cap.on_line("a");
    cap.on_line("b");
    assert!(cap.on_line("__END_OF_COMMAND__"));
    let e = cap.finish(std::time::Duration::ZERO);
    assert_eq!(e.raw_prompt, "echo a\n> echo b\n");
    assert_eq!(e.raw_output, "a\nb\n");
}

#[test]
fn an_echo_ending_with_the_marker_ends_the_run() {
    let mut cap = ExecutionCapture::new("ls".to_string());
    assert!(cap.on_line("ls; echo __END_OF_COMMAND__"));
    let e = cap.finish(std::time::Duration::ZERO);
    assert_eq!(e.raw_prompt, "");
    assert_eq!(e.raw_output, "ls; echo \n");
}

#[test]
fn pwd_scan_takes_the_last_line_before_the_marker() {
    assert_eq!(PWD_COMMAND, "pwd; echo __PWD_END__\n");
    let mut s = PwdScan::new();
    assert_eq!(s.on_line("pwd; echo __PWD_END__".to_string()), None);
    assert_eq!(s.on_line("/home/user".to_string()), None);
    assert_eq!(s.on_line(PWD_END_MARKER.to_string()), Some(Ok("/home/user".to_string())));
    let mut empty = PwdScan::new();
    assert_eq!(
        empty.on_line(PWD_END_MARKER.to_string()),
        Some(Err("pwd output not found".to_string()))
    );
}

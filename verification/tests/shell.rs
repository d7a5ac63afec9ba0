use tui_playground::app::App;
use tui_playground::key::Key;

fn type_text(app: &mut App, text: &str) {
    for c in text.chars() {
        assert!(app.handle_key(Key::Char(c), false).is_none());
    }
}

#[test]
fn shell_line_asks_for_its_command() {
    let mut app = App::new();
    type_text(&mut app, "!  ls -la ");
    let cmd = app.handle_key(Key::Enter, false);
    assert_eq!(cmd, Some("ls -la".to_string()));
    assert_eq!(app.output().clone(), vec!["> !  ls -la".to_string()]);
}

#[test]
fn bare_shell_prefix_runs_nothing() {
    let mut app = App::new();
    type_text(&mut app, "!");
    assert_eq!(app.handle_key(Key::Enter, false), None);
    assert_eq!(app.output().clone(), vec!["> !".to_string()]);
}

#[test]
fn shell_output_is_split_into_lines() {
    let mut app = App::new();
    app.record_shell_output(b"one\ntwo\r\n\nthree\r", b"err\n", Some(0));
    assert_eq!(
        app.output().clone(),
        vec![
            "one".to_string(),
            "two".to_string(),
            "".to_string(),
            "three\r".to_string(),
            "err".to_string(),
            "[exit: 0]".to_string(),
        ]
    );
}

#[test]
fn shell_command_reports_its_exit_code() {
    let mut app = App::new();
    app.record_shell_output(b"", b"", Some(2));
    assert_eq!(app.output().clone(), vec!["[exit: 2]".to_string()]);
    let mut app = App::new();
    app.record_shell_output(b"", b"", None);
    assert_eq!(app.output().clone(), vec!["[exit: -1]".to_string()]);
    let mut app = App::new();
    app.record_shell_output(b"", b"", Some(-2147483648));
    assert_eq!(app.output().clone(), vec!["[exit: -2147483648]".to_string()]);
    let mut app = App::new();
    app.record_shell_output(b"", b"", Some(127));
    assert_eq!(app.output().clone(), vec!["[exit: 127]".to_string()]);
}

#[test]
fn invalid_utf8_is_replaced() {
    let mut app = App::new();
    app.record_shell_output(&[b'a', 0xff, b'b'], b"", Some(0));
    assert_eq!(app.output().clone(), vec!["a\u{FFFD}b".to_string(), "[exit: 0]".to_string()]);
}

#[test]
fn shell_error_is_reported() {
    let mut app = App::new();
    app.record_shell_error("No such file or directory (os error 2)");
    assert_eq!(
        app.output().clone(),
        vec!["[error] No such file or directory (os error 2)".to_string()]
    );
}

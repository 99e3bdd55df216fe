use shell_tui::output::{command_output, RunOutcome};
use shell_tui::render::INPUT_ROWS;
use shell_tui::session::{Action, Key, ShellApp};

fn typed(app: &mut ShellApp<()>, line: &str) {
    for c in line.chars() {
        assert_eq!(app.handle_key(Key::Char(c)), Action::Idle);
    }
}

fn input_of(app: &ShellApp<()>) -> String {
    app.render().input.body
}

fn history_of(app: &ShellApp<()>) -> String {
    app.render().history.body
}

#[test]
fn typing_appends_characters_in_order() {
    let mut app = ShellApp::new(());
    typed(&mut app, "echo hi");
    assert_eq!(input_of(&app), "echo hi");
    typed(&mut app, "ßé");
    assert_eq!(input_of(&app), "echo hißé");
}

#[test]
fn backspace_removes_exactly_the_last_character() {
    let mut app = ShellApp::new(());
    typed(&mut app, "abé");
    assert_eq!(app.handle_key(Key::Backspace), Action::Idle);
    assert_eq!(input_of(&app), "ab");
    app.handle_key(Key::Backspace);
    app.handle_key(Key::Backspace);
    assert_eq!(input_of(&app), "");
}

#[test]
fn backspace_on_empty_input_changes_nothing() {
    let mut app = ShellApp::new(());
    assert_eq!(app.handle_key(Key::Backspace), Action::Idle);
    assert_eq!(input_of(&app), "");
    assert_eq!(history_of(&app), "");
}

#[test]
fn submit_runs_trimmed_line_and_clears_input() {
    let mut app = ShellApp::new(());
    typed(&mut app, "  ls -la \t");
    let action = app.handle_key(Key::Enter);
    assert_eq!(action, Action::Run("ls -la".to_string()));
    assert_eq!(input_of(&app), "");
    if let Action::Run(cmd) = action {
        app.record(cmd, "a\nb\n".to_string());
    }
    assert_eq!(history_of(&app), "$ ls -la\na\nb\n");
}

#[test]
fn unicode_white_space_is_trimmed() {
    let mut app = ShellApp::new(());
    typed(&mut app, "\u{3000}pwd\u{a0}");
    assert_eq!(app.handle_key(Key::Enter), Action::Run("pwd".to_string()));
}

#[test]
fn blank_line_runs_the_empty_command() {
    let mut app = ShellApp::new(());
    typed(&mut app, "   ");
    assert_eq!(app.handle_key(Key::Enter), Action::Run(String::new()));
    let mut fresh = ShellApp::new(());
    assert_eq!(fresh.handle_key(Key::Enter), Action::Run(String::new()));
}

#[test]
fn exit_tokens_quit_in_any_case() {
    for line in ["/exit", "/Exit", "/QUIT", "/quit", "  /eXiT  ", "/QuIt\t"] {
        let mut app = ShellApp::new(());
        typed(&mut app, line);
        assert_eq!(app.handle_key(Key::Enter), Action::Quit, "{}", line);
        assert_eq!(history_of(&app), "");
        assert_eq!(input_of(&app), "");
    }
}

#[test]
fn near_exit_tokens_run_as_commands() {
    for line in ["exit", "/exits", "/ex it", "quit", "/qu1t"] {
        let mut app = ShellApp::new(());
        typed(&mut app, line);
        assert_eq!(app.handle_key(Key::Enter), Action::Run(line.to_string()));
    }
}

#[test]
fn escape_quits_without_touching_history() {
    let mut app = ShellApp::new(());
    typed(&mut app, "ls");
    app.handle_key(Key::Enter);
    app.record("ls".to_string(), "file\n".to_string());
    typed(&mut app, "half typed");
    assert_eq!(app.handle_key(Key::Esc), Action::Quit);
    assert_eq!(history_of(&app), "$ ls\nfile\n");
    assert_eq!(input_of(&app), "half typed");
}

#[test]
fn other_keys_are_ignored() {
    let mut app = ShellApp::new(());
    typed(&mut app, "x");
    assert_eq!(app.handle_key(Key::Other), Action::Idle);
    assert_eq!(input_of(&app), "x");
}

#[test]
fn stdout_alone_is_kept_exactly() {
    let out = command_output(&RunOutcome::Finished {
        stdout: b"hello\n".to_vec(),
        stderr: Vec::new(),
    });
    assert_eq!(out, "hello\n");
}

#[test]
fn stderr_follows_stdout_without_separator() {
    let out = command_output(&RunOutcome::Finished {
        stdout: b"out".to_vec(),
        stderr: b"err\n".to_vec(),
    });
    assert_eq!(out, "outerr\n");
    let only_err = command_output(&RunOutcome::Finished {
        stdout: Vec::new(),
        stderr: b"fish: Unknown command\n".to_vec(),
    });
    assert_eq!(only_err, "fish: Unknown command\n");
}

#[test]
fn invalid_utf8_is_replaced() {
    let out = command_output(&RunOutcome::Finished {
        stdout: vec![b'o', b'k', 0xff, b'!'],
        stderr: vec![0xc3],
    });
    assert_eq!(out, "ok\u{fffd}!\u{fffd}");
}

#[test]
fn failed_spawn_reads_as_error_text() {
    let out = command_output(&RunOutcome::Failed {
        cause: "No such file or directory (os error 2)".to_string(),
    });
    assert!(out.starts_with("Error: "));
    assert_eq!(out, "Error: No such file or directory (os error 2)");
}

#[test]
fn render_without_history() {
    let mut app = ShellApp::new(());
    typed(&mut app, "echo 1");
    let screen = app.render();
    assert_eq!(screen.history.body, "");
    assert_eq!(screen.history.title, "Shell Output");
    assert_eq!(screen.input.body, "echo 1");
    assert_eq!(screen.input.title, "Command");
    assert_eq!(INPUT_ROWS, 3);
}

#[test]
fn history_entries_are_joined_by_a_blank_line() {
    let mut app = ShellApp::new(());
    app.record("echo a".to_string(), "a\n".to_string());
    app.record("true".to_string(), String::new());
    app.record("echo c".to_string(), "c\n".to_string());
    assert_eq!(history_of(&app), "$ echo a\na\n\n\n$ true\n\n\n$ echo c\nc\n");
}

#[test]
fn runner_is_kept() {
    let app = ShellApp::new(7u32);
    assert_eq!(*app.runner(), 7);
}

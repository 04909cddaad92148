use rctf::Context;
use rctf::commands::Commands;
use rctf::editor::EditorOutcome;
use rctf::editor::Key;
use rctf::editor::LineEditor;
use rctf::errors::RctfError;
use rctf::history::CommandHistory;
use rctf::input::finish_line_turn;

#[test]
fn cli_carries_the_parsed_command() {
    let cli = rctf::commands::Cli { command: Commands::Clear };
    let mut ctx = Context::new(false, None, None);
    let effect = ctx.handle_command(cli.command);
    assert_eq!(effect, rctf::commands::CommandEffect::ClearScreen);
}

#[test]
fn command_line_splits_into_shell_words() {
    let ctx = Context::new(false, None, None);
    let args = ctx.prepare_command_line("ssh root \"bastion host\"").unwrap().unwrap();
    assert_eq!(
        args,
        vec!["ssh".to_string(), "root".to_string(), "bastion host".to_string()]
    );
}

#[test]
fn command_line_expands_before_splitting() {
    let mut ctx = Context::new(false, None, None);
    ctx.handle_command(Commands::Var {
        name: Some("host".to_string()),
        value: Some("10.0.0.7".to_string()),
    });
    let args = ctx.prepare_command_line("ssh root #{host}").unwrap().unwrap();
    assert_eq!(
        args,
        vec!["ssh".to_string(), "root".to_string(), "10.0.0.7".to_string()]
    );
}

#[test]
fn unclosed_quoting_is_reported() {
    let ctx = Context::new(false, None, None);
    let err = ctx.prepare_command_line("ssh \"unclosed").unwrap_err();
    assert_eq!(err, RctfError::InvalidQuoting);
    assert_eq!(err.message(), "Invalid quoting.");
}

#[test]
fn a_blank_line_reprompts() {
    let ctx = Context::new(false, None, None);
    assert_eq!(ctx.prepare_command_line("").unwrap(), None);
    assert_eq!(ctx.prepare_command_line("   ").unwrap(), None);
}

#[test]
fn an_undefined_variable_aborts_the_line() {
    let ctx = Context::new(false, None, None);
    let err = ctx.prepare_command_line("ssh #{nope}").unwrap_err();
    assert_eq!(err, RctfError::UndefinedVariable("nope".to_string()));
}

#[test]
fn committed_lines_join_the_history() {
    let mut history = CommandHistory::new();
    let mut editor = LineEditor::new(&history);
    for c in "whoami".chars() {
        editor.handle_key(Key::Char(c));
    }
    let (outcome, _) = editor.handle_key(Key::Enter);
    assert_eq!(outcome, EditorOutcome::Committed);
    let line = finish_line_turn(&editor, outcome, &mut history);
    assert_eq!(line, Some("whoami".to_string()));
    assert_eq!(history.len(), 1);
    assert_eq!(history.get(0), Some(&"whoami".to_string()));
}

#[test]
fn escape_aborts_the_turn_as_exit() {
    let mut history = CommandHistory::new();
    let mut editor = LineEditor::new(&history);
    editor.handle_key(Key::Char('x'));
    let (outcome, _) = editor.handle_key(Key::Esc);
    let line = finish_line_turn(&editor, outcome, &mut history);
    assert_eq!(line, Some("exit".to_string()));
    assert_eq!(history.len(), 0);
}

#[test]
fn interrupt_aborts_the_turn_with_nothing() {
    let mut history = CommandHistory::new();
    let mut editor = LineEditor::new(&history);
    editor.handle_key(Key::Char('x'));
    let (outcome, _) = editor.handle_key(Key::CtrlC);
    let line = finish_line_turn(&editor, outcome, &mut history);
    assert_eq!(line, None);
    assert_eq!(history.len(), 0);
}

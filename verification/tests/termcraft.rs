use rctf::Context;
use rctf::commands::CommandEffect;
use rctf::commands::Commands;
use rctf::errors::RctfError;
use rctf::rctf::SessionSelection;
use rctf::rctf::ssh_settings_from_args;
use rctf::session::SshSession;
use rctf::termcraft::TermcraftCommands;
use rctf::termcraft::TermcraftResponse;
use rctf::termcraft::TermcraftStep;

fn context_with_session() -> (Context, usize) {
    let mut ctx = Context::new(false, None, None);
    let settings = ssh_settings_from_args("u".to_string(), "h".to_string(), None, 22);
    let mut session = SshSession::new(settings);
    session.mark_connected();
    let index = ctx.register_session(session);
    (ctx, index)
}

#[test]
fn printf_with_no_variables_sends_the_literal_text() {
    let (mut ctx, index) = context_with_session();
    let step = ctx
        .termcraft_step(index, TermcraftCommands::Printf("ls -la\\n".to_string()))
        .unwrap();
    assert_eq!(
        step,
        TermcraftStep::Respond(TermcraftResponse::Cmd("ls -la\n".to_string()))
    );
}

#[test]
fn printf_expands_variables() {
    let (mut ctx, index) = context_with_session();
    ctx.handle_command(Commands::Var {
        name: Some("flag".to_string()),
        value: Some("-la".to_string()),
    });
    let step = ctx
        .termcraft_step(index, TermcraftCommands::Printf("ls #{flag}".to_string()))
        .unwrap();
    assert_eq!(
        step,
        TermcraftStep::Respond(TermcraftResponse::Cmd("ls -la".to_string()))
    );
}

#[test]
fn printf_with_a_missing_variable_reprompts() {
    let (mut ctx, index) = context_with_session();
    let step = ctx
        .termcraft_step(index, TermcraftCommands::Printf("#{nope}".to_string()))
        .unwrap();
    assert_eq!(
        step,
        TermcraftStep::ErrorOutput("Variable nope is not defined.".to_string())
    );
}

#[test]
fn bg_and_exit_end_control_mode() {
    let (mut ctx, index) = context_with_session();
    let step = ctx.termcraft_step(index, TermcraftCommands::Bg).unwrap();
    assert_eq!(step, TermcraftStep::Respond(TermcraftResponse::Background));

    let step = ctx
        .termcraft_step(index, TermcraftCommands::Command(Commands::Exit))
        .unwrap();
    assert_eq!(step, TermcraftStep::Respond(TermcraftResponse::Exit));
}

#[test]
fn rename_updates_the_session_and_the_name_index() {
    let (mut ctx, index) = context_with_session();

    let step = ctx.termcraft_step(index, TermcraftCommands::Name(None)).unwrap();
    assert_eq!(
        step,
        TermcraftStep::Output("This session is currently unnamed.".to_string())
    );

    let step = ctx
        .termcraft_step(index, TermcraftCommands::Name(Some("web".to_string())))
        .unwrap();
    assert_eq!(step, TermcraftStep::Output("web".to_string()));
    assert_eq!(ctx.session_at(index).unwrap().name(), Some("web"));

    let resolved = ctx
        .resolve_selection(&SessionSelection::Name("web".to_string()))
        .unwrap();
    assert_eq!(resolved, index);

    let err = ctx
        .resolve_selection(&SessionSelection::Name("db".to_string()))
        .unwrap_err();
    assert_eq!(err, RctfError::NameNotFound("db".to_string()));
    assert_eq!(err.message(), "No session found with name db.");
}

#[test]
fn removal_drops_the_name_binding() {
    let (mut ctx, index) = context_with_session();
    ctx.termcraft_step(index, TermcraftCommands::Name(Some("web".to_string())))
        .unwrap();
    ctx.end_session(index).unwrap();
    let err = ctx
        .resolve_selection(&SessionSelection::Name("web".to_string()))
        .unwrap_err();
    assert_eq!(err, RctfError::NameNotFound("web".to_string()));
}

#[test]
fn shared_commands_run_inside_control_mode() {
    let (mut ctx, index) = context_with_session();
    let step = ctx
        .termcraft_step(
            index,
            TermcraftCommands::Command(Commands::Var {
                name: Some("x".to_string()),
                value: Some("1".to_string()),
            }),
        )
        .unwrap();
    assert_eq!(step, TermcraftStep::Effect(CommandEffect::Print("1".to_string())));

    let step = ctx
        .termcraft_step(index, TermcraftCommands::Command(Commands::Clear))
        .unwrap();
    assert_eq!(step, TermcraftStep::Effect(CommandEffect::ClearScreen));
}

#[test]
fn a_stale_index_is_reported() {
    let (mut ctx, index) = context_with_session();
    ctx.end_session(index).unwrap();
    let err = ctx.termcraft_step(index, TermcraftCommands::Bg).unwrap_err();
    assert_eq!(err, RctfError::IndexNotFound(index));
}

#[test]
fn session_listing_rows_follow_the_registry() {
    let (mut ctx, first) = context_with_session();
    let settings = ssh_settings_from_args("u".to_string(), "h2".to_string(), None, 22);
    let second = ctx.register_session(SshSession::new(settings));
    ctx.termcraft_step(first, TermcraftCommands::Name(Some("alpha".to_string())))
        .unwrap();

    let rows = ctx.session_rows();
    assert_eq!(rows.len(), 2);
    assert_eq!(rows[0], (first, "Ssh".to_string(), "alpha".to_string()));
    assert_eq!(rows[1], (second, "Ssh".to_string(), String::new()));

    ctx.end_session(first).unwrap();
    let rows = ctx.session_rows();
    assert_eq!(rows.len(), 1);
    assert_eq!(rows[0].0, second);
}

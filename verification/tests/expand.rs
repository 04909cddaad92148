use rctf::Context;
use rctf::commands::Commands;
use rctf::errors::RctfError;

fn context_with(vars: &[(&str, &str)]) -> Context {
    let mut ctx = Context::new(false, None, None);
    for (name, value) in vars {
        ctx.handle_command(Commands::Var {
            name: Some(name.to_string()),
            value: Some(value.to_string()),
        });
    }
    ctx
}

#[test]
fn braced_reference_expands() {
    let ctx = context_with(&[("x", "1")]);
    assert_eq!(ctx.expand("#{x}").unwrap(), "1");
}

#[test]
fn plain_reference_expands() {
    let ctx = context_with(&[("target", "10.0.0.7")]);
    assert_eq!(ctx.expand("ping #target now").unwrap(), "ping 10.0.0.7 now");
}

#[test]
fn escaped_reference_stays_literal() {
    let ctx = context_with(&[("x", "1")]);
    assert_eq!(ctx.expand("\\#{x}").unwrap(), "#{x}");
    assert_eq!(ctx.expand("\\#x").unwrap(), "#x");
}

#[test]
fn doubly_escaped_reference_expands() {
    let ctx = context_with(&[("x", "1")]);
    assert_eq!(ctx.expand("\\\\#{x}").unwrap(), "\\1");
}

#[test]
fn missing_variable_fails() {
    let ctx = context_with(&[]);
    let err = ctx.expand("#{missing}").unwrap_err();
    assert_eq!(err, RctfError::UndefinedVariable("missing".to_string()));
    assert_eq!(err.message(), "Variable missing is not defined.");
}

#[test]
fn double_backslash_collapses() {
    let ctx = context_with(&[]);
    assert_eq!(ctx.expand("a\\\\b").unwrap(), "a\\b");
}

#[test]
fn special_characters_substitute() {
    let ctx = context_with(&[]);
    assert_eq!(ctx.expand("a\\nb\\rc\\td").unwrap(), "a\nb\rc\td");
}

#[test]
fn references_expand_recursively() {
    let ctx = context_with(&[("inner", "world"), ("outer", "hello #{inner}")]);
    assert_eq!(ctx.expand("#{outer}!").unwrap(), "hello world!");
}

#[test]
fn self_reference_hits_the_depth_limit() {
    let ctx = context_with(&[("loops", "#{loops}")]);
    let err = ctx.expand("#{loops}").unwrap_err();
    assert_eq!(err, RctfError::ExpansionDepthExceeded);
}

#[test]
fn name_stops_at_non_word_characters() {
    let ctx = context_with(&[("a", "1"), ("a_b2", "2")]);
    assert_eq!(ctx.expand("#a.b").unwrap(), "1.b");
    assert_eq!(ctx.expand("#a_b2!").unwrap(), "2!");
}

#[test]
fn unclosed_brace_is_not_a_reference() {
    let ctx = context_with(&[("x", "1")]);
    assert_eq!(ctx.expand("#{x").unwrap(), "#{x");
    assert_eq!(ctx.expand("#{}").unwrap(), "#{}");
    assert_eq!(ctx.expand("# x").unwrap(), "# x");
}

#[test]
fn variable_get_and_unset_messages() {
    let mut ctx = context_with(&[("x", "1")]);
    let effect = ctx.handle_command(Commands::Var { name: Some("x".to_string()), value: None });
    assert_eq!(effect, rctf::commands::CommandEffect::Print("1".to_string()));
    let effect = ctx.handle_command(Commands::Var { name: Some("y".to_string()), value: None });
    assert_eq!(
        effect,
        rctf::commands::CommandEffect::Print("Variable `y` is currently unset.".to_string())
    );
}

#[test]
fn variable_listing_effects() {
    let mut ctx = context_with(&[]);
    let effect = ctx.handle_command(Commands::Var { name: None, value: None });
    assert_eq!(
        effect,
        rctf::commands::CommandEffect::PrintError("There are currently no variables.".to_string())
    );
    ctx.handle_command(Commands::Var {
        name: Some("k".to_string()),
        value: Some("v".to_string()),
    });
    let effect = ctx.handle_command(Commands::Var { name: None, value: None });
    assert_eq!(effect, rctf::commands::CommandEffect::VarList);
    let entries = ctx.variable_entries();
    assert_eq!(entries.len(), 1);
    assert_eq!(entries[0], ("k".to_string(), "v".to_string()));
}

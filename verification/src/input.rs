//! One input turn at a prompt: a line is edited and committed, expanded
//! against the variable store, and divided into shell words for the command
//! grammar.

use vstd::prelude::*;
use crate::Context;
use crate::editor::EditorOutcome;
use crate::editor::LineEditor;
use crate::errors::RctfError;
use crate::expand::ExpandOutcome;
use crate::expand::MAX_EXPANSION_DEPTH;
use crate::expand::expand_outcome;
use crate::expand::expand_with;
use crate::history::CommandHistory;
use crate::history::committed;

verus! {

/// The shell words of a line, or nothing when its quoting is erroneous;
/// a function of the characters alone.
pub uninterp spec fn shell_split(s: Seq<char>) -> Option<Seq<Seq<char>>>;

/// Relies on `shlex::split`: divides a line into shell words, `None` on
/// erroneous input such as an unclosed quote.
#[verifier::external_body]
fn split_words(line: &str) -> (r: Option<Vec<String>>)
    ensures
        match r {
            Some(words) => shell_split(line@) matches Some(w) && words.deep_view() == w,
            None => shell_split(line@) is None,
        },
{
    shlex::split(line)
}

/// Ends an editing turn: Enter commits the active buffer into the history
/// (capped at its bound) and yields it; Escape aborts the turn as if the
/// `exit` command had been entered, committing nothing; Ctrl-C aborts with
/// nothing entered.
pub fn finish_line_turn(
    editor: &LineEditor,
    outcome: EditorOutcome,
    history: &mut CommandHistory,
) -> (r: Option<String>)
    requires
        editor.model().wf(),
        !(outcome is Pending),
    ensures
        outcome is Committed ==> (r matches Some(line) && line@ == editor.model().active()
            && final(history)@ == committed(old(history)@, editor.model().active())),
        outcome is Escaped ==> (r matches Some(line) && line@ == "exit"@
            && final(history)@ == old(history)@),
        outcome is Interrupted ==> r is None && final(history)@ == old(history)@,
{
    match outcome {
        EditorOutcome::Committed => {
            let line = editor.current_line();
            history.commit(line.clone());
            Some(line)
        },
        EditorOutcome::Escaped => Some("exit".to_owned()),
        _ => None,
    }
}

impl Context {
    /// Ends an editing turn at the top-level prompt against the top-level
    /// history.
    pub fn finish_rctf_turn(&mut self, editor: &LineEditor, outcome: EditorOutcome) -> (r: Option<
        String,
    >)
        requires
            editor.model().wf(),
            !(outcome is Pending),
        ensures
            outcome is Committed ==> (r matches Some(line) && line@ == editor.model().active()
                && final(self).rctf_history_spec() == committed(
                old(self).rctf_history_spec(),
                editor.model().active(),
            )),
            outcome is Escaped ==> (r matches Some(line) && line@ == "exit"@
                && final(self).rctf_history_spec() == old(self).rctf_history_spec()),
            outcome is Interrupted ==> (r is None && final(self).rctf_history_spec() == old(
                self,
            ).rctf_history_spec()),
            final(self).sessions_spec() == old(self).sessions_spec(),
            final(self).named_spec() == old(self).named_spec(),
            final(self).vars_spec() == old(self).vars_spec(),
            final(self).termcraft_history_spec() == old(self).termcraft_history_spec(),
    {
        finish_line_turn(editor, outcome, &mut self.rctf_history)
    }

    /// Ends an editing turn at the control-mode prompt against the
    /// control-mode history.
    pub fn finish_termcraft_turn(&mut self, editor: &LineEditor, outcome: EditorOutcome) -> (r:
        Option<String>)
        requires
            editor.model().wf(),
            !(outcome is Pending),
        ensures
            outcome is Committed ==> (r matches Some(line) && line@ == editor.model().active()
                && final(self).termcraft_history_spec() == committed(
                old(self).termcraft_history_spec(),
                editor.model().active(),
            )),
            outcome is Escaped ==> (r matches Some(line) && line@ == "exit"@
                && final(self).termcraft_history_spec() == old(self).termcraft_history_spec()),
            outcome is Interrupted ==> (r is None && final(self).termcraft_history_spec() == old(
                self,
            ).termcraft_history_spec()),
            final(self).sessions_spec() == old(self).sessions_spec(),
            final(self).named_spec() == old(self).named_spec(),
            final(self).vars_spec() == old(self).vars_spec(),
            final(self).rctf_history_spec() == old(self).rctf_history_spec(),
    {
        finish_line_turn(editor, outcome, &mut self.termcraft_history)
    }

    /// Expands a line against the variable store: escape substitution,
    /// recursive variable substitution, backslash collapsing. Fails exactly
    /// when a reference names an unbound variable or nesting passes the
    /// depth limit.
    pub fn expand(&self, input: &str) -> (r: Result<String, RctfError>)
        ensures
            match r {
                Ok(v) => expand_outcome(self.vars_spec(), input@, MAX_EXPANSION_DEPTH as nat)
                    == ExpandOutcome::Done(v@),
                Err(e) => match e {
                    RctfError::UndefinedVariable(name) => expand_outcome(
                        self.vars_spec(),
                        input@,
                        MAX_EXPANSION_DEPTH as nat,
                    ) == ExpandOutcome::Undefined(name@),
                    RctfError::ExpansionDepthExceeded => expand_outcome(
                        self.vars_spec(),
                        input@,
                        MAX_EXPANSION_DEPTH as nat,
                    ) == ExpandOutcome::TooDeep,
                    _ => false,
                },
            },
    {
        expand_with(&self.variables, input)
    }

    /// Prepares a committed line for the command grammar: expands it, then
    /// divides it into shell words. An all-blank line yields nothing and
    /// the prompt is shown again; erroneous quoting and expansion failures
    /// are recoverable errors that leave every part of the state untouched.
    pub fn prepare_command_line(&self, line: &str) -> (r: Result<Option<Vec<String>>, RctfError>)
        ensures
            ({
                let o = expand_outcome(self.vars_spec(), line@, MAX_EXPANSION_DEPTH as nat);
                match r {
                    Ok(Some(args)) => o matches ExpandOutcome::Done(x) && shell_split(x)
                        matches Some(w) && args.deep_view() == w && w.len() > 0,
                    Ok(None) => o matches ExpandOutcome::Done(x) && shell_split(x) matches Some(w)
                        && w.len() == 0,
                    Err(e) => match e {
                        RctfError::InvalidQuoting => o matches ExpandOutcome::Done(x)
                            && shell_split(x) is None,
                        RctfError::UndefinedVariable(name) => o == ExpandOutcome::Undefined(name@),
                        RctfError::ExpansionDepthExceeded => o == ExpandOutcome::TooDeep,
                        _ => false,
                    },
                }
            }),
    {
        let expanded = match self.expand(line) {
            Ok(v) => v,
            Err(e) => {
                return Err(e);
            },
        };
        match split_words(expanded.as_str()) {
            None => Err(RctfError::InvalidQuoting),
            Some(args) => {
                if args.len() == 0 {
                    Ok(None)
                } else {
                    Ok(Some(args))
                }
            },
        }
    }
}

} // verus!

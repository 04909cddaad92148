//! The control-mode command processor ("termcraft"): the local command
//! surface over the currently selected session, entered with Escape and
//! left without severing the connection.

use vstd::prelude::*;
use crate::Context;
use crate::commands::CommandEffect;
use crate::commands::Commands;
use crate::commands::command_effect_spec;
use crate::commands::vars_after_command;
use crate::errors::RctfError;
use crate::expand::ExpandOutcome;
use crate::expand::MAX_EXPANSION_DEPTH;
use crate::expand::expand_outcome;

verus! {

/// How a control-mode sitting ends.
#[derive(Debug, Clone, PartialEq, Eq)]
pub enum TermcraftResponse {
    /// Inject this text into the session and resume passthrough.
    Cmd(String),
    /// Leave the session connected and registered, in the background.
    Background,
    /// End control mode and resume passthrough.
    Exit,
}

/// A parsed control-mode input line.
#[derive(Debug, Clone, PartialEq, Eq)]
pub enum TermcraftCommands {
    /// Send the current session to the background.
    Bg,
    /// Show the session name, or change it.
    Name(Option<String>),
    /// Format text through variable expansion and inject it.
    Printf(String),
    /// A shared primitive; `exit` here ends control mode only.
    Command(Commands),
}

/// What one handled control-mode command asks of the caller's loop.
#[derive(Debug, Clone, PartialEq, Eq)]
pub enum TermcraftStep {
    /// Control mode is over, with this response.
    Respond(TermcraftResponse),
    /// Print the text and keep prompting.
    Output(String),
    /// Print the text as an error and keep prompting.
    ErrorOutput(String),
    /// Apply the shared command's effect and keep prompting.
    Effect(CommandEffect),
}

/// The message shown for a session that has no name.
pub open spec fn unnamed_message() -> Seq<char> {
    "This session is currently unnamed."@
}

impl Context {
    /// Handles one parsed control-mode command against the session at
    /// `session_index`. A stale index is a recoverable error; renaming
    /// updates both the session and the name index; `printf` runs its
    /// format string through variable expansion, and an expansion failure
    /// re-prompts instead of ending control mode.
    pub fn termcraft_step(&mut self, session_index: usize, cmd: TermcraftCommands) -> (r: Result<
        TermcraftStep,
        RctfError,
    >)
        ensures
            final(self).rctf_history_spec() == old(self).rctf_history_spec(),
            final(self).termcraft_history_spec() == old(self).termcraft_history_spec(),
            !(session_index < old(self).sessions_spec().len()
                && old(self).sessions_spec()[session_index as int] is Some) ==> {
                &&& r == Err::<TermcraftStep, RctfError>(RctfError::IndexNotFound(session_index))
                &&& final(self).sessions_spec() == old(self).sessions_spec()
                &&& final(self).named_spec() == old(self).named_spec()
                &&& final(self).vars_spec() == old(self).vars_spec()
            },
            (session_index < old(self).sessions_spec().len()
                && old(self).sessions_spec()[session_index as int] is Some) ==> match cmd {
                TermcraftCommands::Bg => {
                    &&& r == Ok::<TermcraftStep, RctfError>(TermcraftStep::Respond(
                        TermcraftResponse::Background,
                    ))
                    &&& final(self).sessions_spec() == old(self).sessions_spec()
                    &&& final(self).named_spec() == old(self).named_spec()
                    &&& final(self).vars_spec() == old(self).vars_spec()
                },
                TermcraftCommands::Name(new_name) => {
                    let s = old(self).sessions_spec()[session_index as int]->Some_0;
                    match new_name {
                        Some(n) => {
                            &&& (r matches Ok(TermcraftStep::Output(msg)) && msg@ == (
                            if n@.len() > 0 {
                                n@
                            } else {
                                unnamed_message()
                            }))
                            &&& final(self).sessions_spec().len() == old(
                                self,
                            ).sessions_spec().len()
                            &&& (final(self).sessions_spec()[session_index as int]
                                matches Some(s2) && s2.name_spec() == n@ && s2.is_connected_spec()
                                == s.is_connected_spec() && s2.settings_spec()
                                == s.settings_spec())
                            &&& (forall|j: int|
                                0 <= j < old(self).sessions_spec().len() && j
                                    != session_index as int ==> final(self).sessions_spec()[j]
                                    == old(self).sessions_spec()[j])
                            &&& final(self).named_spec() == old(self).named_spec().insert(
                                n@,
                                session_index,
                            )
                            &&& final(self).vars_spec() == old(self).vars_spec()
                        },
                        None => {
                            &&& (r matches Ok(TermcraftStep::Output(msg)) && msg@ == (
                            if s.name_spec().len() > 0 {
                                s.name_spec()
                            } else {
                                unnamed_message()
                            }))
                            &&& final(self).sessions_spec() == old(self).sessions_spec()
                            &&& final(self).named_spec() == old(self).named_spec()
                            &&& final(self).vars_spec() == old(self).vars_spec()
                        },
                    }
                },
                TermcraftCommands::Printf(format_string) => {
                    let o = expand_outcome(
                        old(self).vars_spec(),
                        format_string@,
                        MAX_EXPANSION_DEPTH as nat,
                    );
                    &&& final(self).sessions_spec() == old(self).sessions_spec()
                    &&& final(self).named_spec() == old(self).named_spec()
                    &&& final(self).vars_spec() == old(self).vars_spec()
                    &&& match o {
                        ExpandOutcome::Done(x) => r matches Ok(TermcraftStep::Respond(
                            TermcraftResponse::Cmd(text),
                        )) && text@ == x,
                        ExpandOutcome::Undefined(name) => r matches Ok(TermcraftStep::ErrorOutput(
                            msg,
                        )) && msg@ == "Variable "@ + name + " is not defined."@,
                        ExpandOutcome::TooDeep => r matches Ok(TermcraftStep::ErrorOutput(msg))
                            && msg@ == "Variable expansion exceeded the depth limit."@,
                    }
                },
                TermcraftCommands::Command(Commands::Exit) => {
                    &&& r == Ok::<TermcraftStep, RctfError>(TermcraftStep::Respond(
                        TermcraftResponse::Exit,
                    ))
                    &&& final(self).sessions_spec() == old(self).sessions_spec()
                    &&& final(self).named_spec() == old(self).named_spec()
                    &&& final(self).vars_spec() == old(self).vars_spec()
                },
                TermcraftCommands::Command(c) => {
                    &&& final(self).sessions_spec() == old(self).sessions_spec()
                    &&& final(self).named_spec() == old(self).named_spec()
                    &&& final(self).vars_spec() == vars_after_command(old(self).vars_spec(), c)
                    &&& (r matches Ok(TermcraftStep::Effect(eff)) && command_effect_spec(
                        old(self).vars_spec(),
                        final(self).vars_spec(),
                        c,
                        eff,
                    ))
                },
            },
    {
        if self.sessions.get(session_index).is_none() {
            return Err(RctfError::IndexNotFound(session_index));
        }
        match cmd {
            TermcraftCommands::Bg => Ok(TermcraftStep::Respond(TermcraftResponse::Background)),
            TermcraftCommands::Name(new_name) => {
                match new_name {
                    Some(n) => {
                        let session = self.sessions.get_mut(session_index);
                        let name_slot = session.name_mut();
                        *name_slot = n.clone();
                        self.named_sessions.set(n.clone(), session_index);
                        let msg = if n.as_str().is_empty() {
                            "This session is currently unnamed.".to_owned()
                        } else {
                            n
                        };
                        Ok(TermcraftStep::Output(msg))
                    },
                    None => {
                        let msg = match self.sessions.get(session_index) {
                            Some(session) => match session.name() {
                                Some(n) => n.to_owned(),
                                None => "This session is currently unnamed.".to_owned(),
                            },
                            None => "This session is currently unnamed.".to_owned(),
                        };
                        Ok(TermcraftStep::Output(msg))
                    },
                }
            },
            TermcraftCommands::Printf(format_string) => {
                match self.expand(format_string.as_str()) {
                    Ok(text) => Ok(TermcraftStep::Respond(TermcraftResponse::Cmd(text))),
                    Err(e) => Ok(TermcraftStep::ErrorOutput(e.message())),
                }
            },
            TermcraftCommands::Command(Commands::Exit) => Ok(
                TermcraftStep::Respond(TermcraftResponse::Exit),
            ),
            TermcraftCommands::Command(c) => {
                let effect = self.handle_command(c);
                Ok(TermcraftStep::Effect(effect))
            },
        }
    }
}

} // verus!

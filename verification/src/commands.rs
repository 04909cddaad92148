//! The shared command primitives available at the top-level prompt and in
//! control mode: clearing the terminal, exiting, and reading or setting
//! variables.

use vstd::prelude::*;
use vstd::string::StringExecFns;
use crate::Context;

verus! {

/// A parsed top-level input line.
#[derive(Debug, Clone, PartialEq, Eq)]
pub struct Cli {
    pub command: Commands,
}

/// The shared command primitives.
#[derive(Debug, Clone, PartialEq, Eq)]
pub enum Commands {
    /// Clear the terminal.
    Clear,
    /// Exit the program (or, in control mode, end control mode).
    Exit,
    /// Get or modify variables: `var` lists them, `var name` shows one,
    /// `var name value` sets one.
    Var { name: Option<String>, value: Option<String> },
}

/// What a handled command asks of the terminal.
#[derive(Debug, Clone, PartialEq, Eq)]
pub enum CommandEffect {
    /// Clear the whole screen and home the cursor.
    ClearScreen,
    /// Print the text.
    Print(String),
    /// Print the text as an error.
    PrintError(String),
    /// Render the variable table from `Context::variable_entries`.
    VarList,
    /// Nothing to show.
    NoEffect,
}

/// The message shown for a variable that has no binding.
pub open spec fn unset_message(name: Seq<char>) -> Seq<char> {
    "Variable `"@ + name + "` is currently unset."@
}

/// The variable store after a shared command: only `var name value`
/// changes it.
pub open spec fn vars_after_command(
    vars: Map<Seq<char>, Seq<char>>,
    command: Commands,
) -> Map<Seq<char>, Seq<char>> {
    match command {
        Commands::Var { name: Some(n), value: Some(v) } => vars.insert(n@, v@),
        _ => vars,
    }
}

/// What a shared command shows, given the store before and after it:
/// `clear` wipes the screen; `var name [value]` shows the binding (or the
/// unset notice); a bare `var` lists the store or reports it empty; `exit`
/// shows nothing.
pub open spec fn command_effect_spec(
    vars_before: Map<Seq<char>, Seq<char>>,
    vars_after: Map<Seq<char>, Seq<char>>,
    command: Commands,
    r: CommandEffect,
) -> bool {
    match command {
        Commands::Clear => r == CommandEffect::ClearScreen,
        Commands::Exit => r == CommandEffect::NoEffect,
        Commands::Var { name, value } => match name {
            Some(n) => r matches CommandEffect::Print(msg) && msg@ == (
            if vars_after.contains_key(n@) {
                vars_after[n@]
            } else {
                unset_message(n@)
            }),
            None => if vars_before == Map::<Seq<char>, Seq<char>>::empty() {
                r matches CommandEffect::PrintError(msg) && msg@
                    == "There are currently no variables."@
            } else {
                r == CommandEffect::VarList
            },
        },
    }
}

impl Context {
    /// Handles one shared command: `Clear` asks for a screen wipe, `Exit`
    /// is acted on by the calling loop, and `Var` reads or writes the
    /// variable store. Only the variable store ever changes.
    pub fn handle_command(&mut self, command: Commands) -> (r: CommandEffect)
        ensures
            final(self).sessions_spec() == old(self).sessions_spec(),
            final(self).named_spec() == old(self).named_spec(),
            final(self).rctf_history_spec() == old(self).rctf_history_spec(),
            final(self).termcraft_history_spec() == old(self).termcraft_history_spec(),
            final(self).vars_spec() == vars_after_command(old(self).vars_spec(), command),
            command_effect_spec(old(self).vars_spec(), final(self).vars_spec(), command, r),
    {
        match command {
            Commands::Clear => CommandEffect::ClearScreen,
            Commands::Exit => CommandEffect::NoEffect,
            Commands::Var { name, value } => self.variable(name, value),
        }
    }

    /// Reads or writes the variable store: with a value the variable is
    /// set, then the binding (or an unset notice) is shown; with no name
    /// the whole store is listed.
    fn variable(&mut self, name: Option<String>, value: Option<String>) -> (r: CommandEffect)
        ensures
            final(self).sessions_spec() == old(self).sessions_spec(),
            final(self).named_spec() == old(self).named_spec(),
            final(self).rctf_history_spec() == old(self).rctf_history_spec(),
            final(self).termcraft_history_spec() == old(self).termcraft_history_spec(),
            match name {
                Some(n) => {
                    &&& final(self).vars_spec() == match value {
                        Some(v) => old(self).vars_spec().insert(n@, v@),
                        None => old(self).vars_spec(),
                    }
                    &&& (r matches CommandEffect::Print(msg) && msg@ == (
                    if final(self).vars_spec().contains_key(n@) {
                        final(self).vars_spec()[n@]
                    } else {
                        unset_message(n@)
                    }))
                },
                None => {
                    &&& final(self).vars_spec() == old(self).vars_spec()
                    &&& (if old(self).vars_spec() == Map::<Seq<char>, Seq<char>>::empty() {
                        r matches CommandEffect::PrintError(msg) && msg@
                            == "There are currently no variables."@
                    } else {
                        r == CommandEffect::VarList
                    })
                },
            },
    {
        match name {
            Some(n) => {
                match value {
                    Some(v) => {
                        self.variables.set(n.clone(), v);
                    },
                    None => {},
                }
                let msg = match self.variables.get(&n) {
                    Some(bound) => bound.clone(),
                    None => {
                        let mut m = "Variable `".to_owned();
                        m.append(n.as_str());
                        m.append("` is currently unset.");
                        m
                    },
                };
                CommandEffect::Print(msg)
            },
            None => {
                if self.variables.is_empty() {
                    CommandEffect::PrintError("There are currently no variables.".to_owned())
                } else {
                    CommandEffect::VarList
                }
            },
        }
    }

    /// The variable bindings, for rendering the `var` listing.
    pub fn variable_entries(&self) -> (r: &Vec<(String, String)>)
        ensures
            forall|j: int|
                0 <= j < r@.len() ==> self.vars_spec().contains_key(#[trigger] r@[j].0@)
                    && self.vars_spec()[r@[j].0@] == r@[j].1@,
            forall|k: Seq<char>|
                self.vars_spec().contains_key(k) ==> exists|j: int|
                    0 <= j < r@.len() && #[trigger] r@[j].0@ == k,
    {
        self.variables.entries()
    }
}

} // verus!

//! An interactive shell that manages live remote-execution sessions and lets
//! the user switch between passthrough mode (keystrokes routed to the remote
//! end) and a local control mode for session administration.
//!
//! This crate holds the verified core: the stable-index session registry, the
//! session state machine, the raw-mode line editor with history, the variable
//! expansion engine, and the decision logic of the orchestration loop and the
//! control-mode command processor. The unverified shell around it performs the
//! terminal and network I/O and hands plain values in and out.

pub mod commands;
pub mod editor;
pub mod errors;
pub mod expand;
pub mod history;
pub mod input;
pub mod kvmap;
pub mod rctf;
pub mod session;
pub mod stable_vec;
pub mod termcraft;
pub mod text;

use vstd::prelude::*;
use crate::expand::VarStore;
use crate::history::CommandHistory;
use crate::kvmap::KvMap;
use crate::session::SshSession;
use crate::stable_vec::StableVec;

verus! {

/// The shell's state: the session registry, the name index over it, the
/// variable store, and one command history per prompt. The orchestration
/// loop around the library owns exactly one of these.
pub struct Context {
    pub(crate) supports_keyboard_enhancement: bool,
    pub(crate) sessions: StableVec<SshSession>,
    pub(crate) named_sessions: KvMap<usize>,
    pub(crate) variables: VarStore,
    pub(crate) rctf_history: CommandHistory,
    pub(crate) termcraft_history: CommandHistory,
}

impl Context {
    /// The registry's slots: freed slots are `None`, and an index once
    /// given to a live session keeps pointing at it until removal.
    pub closed spec fn sessions_spec(&self) -> Seq<Option<SshSession>> {
        self.sessions@
    }

    /// The name index: display name to stable index.
    pub closed spec fn named_spec(&self) -> Map<Seq<char>, usize> {
        self.named_sessions@
    }

    /// The variable store consulted by expansion.
    pub closed spec fn vars_spec(&self) -> Map<Seq<char>, Seq<char>> {
        self.variables@
    }

    pub closed spec fn rctf_history_spec(&self) -> Seq<Seq<char>> {
        self.rctf_history@
    }

    pub closed spec fn termcraft_history_spec(&self) -> Seq<Seq<char>> {
        self.termcraft_history@
    }

    pub closed spec fn keyboard_enhancement_spec(&self) -> bool {
        self.supports_keyboard_enhancement
    }

    /// A fresh context: no sessions, no names, no variables, and the given
    /// histories (fresh ones where none were loaded). Whether the terminal
    /// supports keyboard enhancement is probed outside and handed in.
    pub fn new(
        supports_keyboard_enhancement: bool,
        rctf_history: Option<CommandHistory>,
        termcraft_history: Option<CommandHistory>,
    ) -> (r: Self)
        ensures
            r.sessions_spec() == Seq::<Option<SshSession>>::empty(),
            r.named_spec() == Map::<Seq<char>, usize>::empty(),
            r.vars_spec() == Map::<Seq<char>, Seq<char>>::empty(),
            r.rctf_history_spec() == match rctf_history {
                Some(h) => h@,
                None => Seq::<Seq<char>>::empty(),
            },
            r.termcraft_history_spec() == match termcraft_history {
                Some(h) => h@,
                None => Seq::<Seq<char>>::empty(),
            },
            r.keyboard_enhancement_spec() == supports_keyboard_enhancement,
    {
        let rctf_history = match rctf_history {
            Some(h) => h,
            None => CommandHistory::new(),
        };
        let termcraft_history = match termcraft_history {
            Some(h) => h,
            None => CommandHistory::new(),
        };
        Self {
            supports_keyboard_enhancement,
            sessions: StableVec::new(),
            named_sessions: KvMap::new(),
            variables: KvMap::new(),
            rctf_history,
            termcraft_history,
        }
    }

    pub fn rctf_history(&self) -> (r: &CommandHistory)
        ensures
            r@ == self.rctf_history_spec(),
    {
        &self.rctf_history
    }

    pub fn termcraft_history(&self) -> (r: &CommandHistory)
        ensures
            r@ == self.termcraft_history_spec(),
    {
        &self.termcraft_history
    }

    pub fn supports_keyboard_enhancement(&self) -> (r: bool)
        ensures
            r == self.keyboard_enhancement_spec(),
    {
        self.supports_keyboard_enhancement
    }
}

} // verus!

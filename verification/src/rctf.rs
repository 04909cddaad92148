//! Top-level orchestration decisions: registering a connected session under
//! a stable index, resolving a `session` command's selection, listing the
//! registry, and freeing a session's slot when it ends.
//!
//! The surrounding loop owns the I/O: it connects transports, drives each
//! session's read loop and renders listings; every decision it acts on is
//! taken here.

use vstd::prelude::*;
use crate::Context;
use crate::errors::RctfError;
use crate::session::SshSession;
use crate::session::SshSettings;
use crate::stable_vec::is_lowest_free;

verus! {

/// How the user picked a session to resume: by stable index or by name.
#[derive(Debug, Clone, PartialEq, Eq)]
pub enum SessionSelection {
    Index(usize),
    Name(String),
}

/// The settings of an `ssh` command's arguments: a missing password means
/// an empty one.
pub fn ssh_settings_from_args(
    username: String,
    hostname: String,
    password: Option<String>,
    port: u16,
) -> (r: SshSettings)
    ensures
        r.hostname@ == hostname@,
        r.port == port,
        r.username@ == username@,
        r.password@ == match password {
            Some(p) => p@,
            None => Seq::<char>::empty(),
        },
{
    let password = match password {
        Some(p) => p,
        None => String::new(),
    };
    SshSettings { hostname, port, username, password }
}

/// The outcome of the transport's password authentication: rejection is
/// fatal to the connect attempt, and the session is never registered.
pub fn auth_result(authenticated: bool) -> (r: Result<(), RctfError>)
    ensures
        r is Ok <==> authenticated,
        r is Err ==> r->Err_0 == RctfError::AuthenticationFailure,
{
    if authenticated {
        Ok(())
    } else {
        Err(RctfError::AuthenticationFailure)
    }
}

impl Context {
    /// The index the next registered session will receive: the lowest
    /// freed slot, else the registry's length.
    pub fn next_session_index(&self) -> (r: usize)
        ensures
            is_lowest_free(self.sessions_spec(), r as int),
    {
        self.sessions.next_index()
    }

    /// Registers a session in the lowest free slot and returns its stable
    /// index.
    pub fn register_session(&mut self, session: SshSession) -> (index: usize)
        ensures
            is_lowest_free(old(self).sessions_spec(), index as int),
            index < old(self).sessions_spec().len() ==> final(self).sessions_spec() == old(
                self,
            ).sessions_spec().update(index as int, Some(session)),
            index == old(self).sessions_spec().len() ==> final(self).sessions_spec() == old(
                self,
            ).sessions_spec().push(Some(session)),
            final(self).named_spec() == old(self).named_spec(),
            final(self).vars_spec() == old(self).vars_spec(),
            final(self).rctf_history_spec() == old(self).rctf_history_spec(),
            final(self).termcraft_history_spec() == old(self).termcraft_history_spec(),
    {
        self.sessions.push(session)
    }

    /// The live session at a stable index, if any.
    pub fn session_at(&self, index: usize) -> (r: Option<&SshSession>)
        ensures
            match r {
                Some(s) => index < self.sessions_spec().len()
                    && self.sessions_spec()[index as int] == Some(*s),
                None => index >= self.sessions_spec().len()
                    || self.sessions_spec()[index as int] is None,
            },
    {
        self.sessions.get(index)
    }

    /// Whether a stable index points at a live session; a freed or
    /// out-of-range index is the recoverable `IndexNotFound`.
    pub fn check_session(&self, index: usize) -> (r: Result<(), RctfError>)
        ensures
            r is Ok <==> (index < self.sessions_spec().len()
                && self.sessions_spec()[index as int] is Some),
            r is Err ==> r->Err_0 == RctfError::IndexNotFound(index),
    {
        match self.sessions.get(index) {
            Some(_) => Ok(()),
            None => Err(RctfError::IndexNotFound(index)),
        }
    }

    /// Resolves a `session` command's selection to a stable index. A name
    /// picks the lowest-indexed live session carrying it; an index is
    /// taken as given and checked when the session is next used.
    #[verifier::loop_isolation(false)]
    pub fn resolve_selection(&self, selection: &SessionSelection) -> (r: Result<usize, RctfError>)
        ensures
            match *selection {
                SessionSelection::Index(i) => r == Ok::<usize, RctfError>(i),
                SessionSelection::Name(n) => match r {
                    Ok(i) => {
                        &&& i < self.sessions_spec().len()
                        &&& (self.sessions_spec()[i as int] matches Some(s) && s.name_spec() == n@
                            && n@.len() > 0)
                        &&& (forall|j: int|
                            0 <= j < i ==> !(#[trigger] self.sessions_spec()[j] matches Some(s2)
                                && s2.name_spec() == n@ && n@.len() > 0))
                    },
                    Err(e) => {
                        &&& (e matches RctfError::NameNotFound(m) && m@ == n@)
                        &&& (forall|j: int|
                            0 <= j < self.sessions_spec().len() ==> !(
                            #[trigger] self.sessions_spec()[j] matches Some(s2) && s2.name_spec()
                                == n@ && n@.len() > 0))
                    },
                },
            },
    {
        match selection {
            SessionSelection::Index(i) => Ok(*i),
            SessionSelection::Name(n) => {
                let slots = self.sessions.iter();
                let mut i: usize = 0;
                while i < slots.len()
                    invariant
                        slots@ == self.sessions_spec(),
                        i <= slots@.len(),
                        forall|j: int|
                            0 <= j < i ==> !(#[trigger] slots@[j] matches Some(s2)
                                && s2.name_spec() == n@ && n@.len() > 0),
                    decreases slots@.len() - i,
                {
                    match &slots[i] {
                        Some(s) => {
                            if !n.as_str().is_empty() && s.has_name(n) {
                                return Ok(i);
                            }
                        },
                        None => {},
                    }
                    i = i + 1;
                }
                Err(RctfError::NameNotFound(n.clone()))
            },
        }
    }

    /// The listing of live sessions: for each occupied slot, in index
    /// order, its stable index, its transport kind and its display name
    /// (empty while unnamed).
    pub fn session_rows(&self) -> (r: Vec<(usize, String, String)>)
        ensures
            forall|j: int|
                0 <= j < r@.len() ==> (((#[trigger] r@[j].0) as int) < self.sessions_spec().len()
                    && (self.sessions_spec()[r@[j].0 as int] matches Some(s) && r@[j].1@ == "Ssh"@
                    && r@[j].2@ == s.name_spec())),
            forall|j1: int, j2: int| 0 <= j1 < j2 < r@.len() ==> r@[j1].0 < r@[j2].0,
            forall|i: int|
                0 <= i < self.sessions_spec().len() && self.sessions_spec()[i] is Some
                    ==> exists|j: int| 0 <= j < r@.len() && (#[trigger] r@[j].0) as int == i,
    {
        let slots = self.sessions.iter();
        let mut rows: Vec<(usize, String, String)> = Vec::new();
        let mut i: usize = 0;
        while i < slots.len()
            invariant
                slots@ == self.sessions_spec(),
                i <= slots@.len(),
                forall|j: int|
                    0 <= j < rows@.len() ==> (((#[trigger] rows@[j].0) as int) < i
                        && (slots@[rows@[j].0 as int] matches Some(s) && rows@[j].1@ == "Ssh"@
                        && rows@[j].2@ == s.name_spec())),
                forall|j1: int, j2: int| 0 <= j1 < j2 < rows@.len() ==> rows@[j1].0 < rows@[j2].0,
                forall|k: int|
                    0 <= k < i && slots@[k] is Some ==> exists|j: int|
                        0 <= j < rows@.len() && (#[trigger] rows@[j].0) as int == k,
            decreases slots@.len() - i,
        {
            let ghost rows0 = rows@;
            match &slots[i] {
                Some(s) => {
                    let name = match s.name() {
                        Some(n) => n.to_owned(),
                        None => String::new(),
                    };
                    rows.push((i, s.kind_name().to_owned(), name));
                },
                None => {},
            }
            proof {
                assert forall|k: int| 0 <= k < i + 1 && slots@[k] is Some implies exists|j: int|
                    0 <= j < rows@.len() && ((#[trigger] rows@[j].0) as int) == k by {
                    if k == i as int {
                        assert(((rows@[rows@.len() - 1].0) as int) == k);
                    } else {
                        let j0 = choose|j: int|
                            0 <= j < rows0.len() && ((#[trigger] rows0[j].0) as int) == k;
                        assert(((rows@[j0].0) as int) == k);
                    }
                };
            }
            i = i + 1;
        }
        rows
    }

    /// Ends the session at `index`: its slot is freed for reuse and its
    /// name, if it had one, leaves the name index. The caller closes the
    /// transport exactly when the returned flag says the session was still
    /// connected. A freed or out-of-range index is the recoverable
    /// `IndexNotFound` and nothing changes.
    pub fn end_session(&mut self, index: usize) -> (r: Result<bool, RctfError>)
        ensures
            final(self).vars_spec() == old(self).vars_spec(),
            final(self).rctf_history_spec() == old(self).rctf_history_spec(),
            final(self).termcraft_history_spec() == old(self).termcraft_history_spec(),
            match r {
                Ok(was_connected) => {
                    &&& index < old(self).sessions_spec().len()
                    &&& (old(self).sessions_spec()[index as int] matches Some(s) && was_connected
                        == s.is_connected_spec() && final(self).named_spec() == (
                    if s.name_spec().len() > 0 {
                        old(self).named_spec().remove(s.name_spec())
                    } else {
                        old(self).named_spec()
                    }))
                    &&& final(self).sessions_spec() == old(self).sessions_spec().update(
                        index as int,
                        None,
                    )
                },
                Err(e) => {
                    &&& e == RctfError::IndexNotFound(index)
                    &&& (index >= old(self).sessions_spec().len() || old(
                        self,
                    ).sessions_spec()[index as int] is None)
                    &&& final(self).sessions_spec() == old(self).sessions_spec()
                    &&& final(self).named_spec() == old(self).named_spec()
                },
            },
    {
        match self.sessions.remove(index) {
            None => Err(RctfError::IndexNotFound(index)),
            Some(mut session) => {
                let was_connected = session.disconnect();
                match session.name() {
                    Some(n) => {
                        let owned = n.to_owned();
                        self.named_sessions.remove(&owned);
                    },
                    None => {},
                }
                Ok(was_connected)
            },
        }
    }
}

} // verus!

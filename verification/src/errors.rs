//! Error taxonomy of the shell. Connection errors are fatal to the attempt
//! or the open session; input, parse and expansion errors are recoverable
//! and abort only the current command.

use vstd::prelude::*;
use vstd::string::StringExecFns;
use crate::text::dec_rep;
use crate::text::u64_string;

verus! {

#[derive(Debug, Clone, PartialEq, Eq)]
pub enum RctfError {
    /// The credentials were rejected; the session is never registered.
    AuthenticationFailure,
    /// The transport failed; the session is disconnected and removed.
    TransportFailure(String),
    /// The remote process ended with a nonzero status; reported as an error,
    /// then the session is cleanly removed.
    RemoteNonZeroExit(u32),
    /// The remote process was ended by a signal, with the signal's name and
    /// the reported reason; handled like a nonzero exit.
    RemoteSignalExit(String, String),
    /// An operation that needs an open channel was called while disconnected.
    NotConnected,
    /// The input line's quoting never closed; the user is re-prompted.
    InvalidQuoting,
    /// The input line did not parse as a command; the user is re-prompted.
    ParseError(String),
    /// Expansion met a reference to a variable with no binding.
    UndefinedVariable(String),
    /// Expansion of nested variable references passed the depth limit.
    ExpansionDepthExceeded,
    /// A session reference by index found no live session.
    IndexNotFound(usize),
    /// A session reference by name found no live session.
    NameNotFound(String),
}

/// The user-facing message of each error.
pub open spec fn message_view(e: RctfError) -> Seq<char> {
    match e {
        RctfError::AuthenticationFailure => "Failed to authenticate."@,
        RctfError::TransportFailure(d) => d@,
        RctfError::RemoteNonZeroExit(code) => "Process exited with code "@ + dec_rep(code as nat)
            + "."@,
        RctfError::RemoteSignalExit(sig, reason) => "Process exited with signal SIG"@ + sig@ + ": "@
            + reason@,
        RctfError::NotConnected => "Session is not connected."@,
        RctfError::InvalidQuoting => "Invalid quoting."@,
        RctfError::ParseError(d) => d@,
        RctfError::UndefinedVariable(name) => "Variable "@ + name@ + " is not defined."@,
        RctfError::ExpansionDepthExceeded => "Variable expansion exceeded the depth limit."@,
        RctfError::IndexNotFound(i) => "No session found with index "@ + dec_rep(i as nat) + "."@,
        RctfError::NameNotFound(n) => "No session found with name "@ + n@ + "."@,
    }
}

impl RctfError {
    /// The message shown to the user for this error.
    pub fn message(&self) -> (r: String)
        ensures
            r@ == message_view(*self),
    {
        match self {
            RctfError::AuthenticationFailure => "Failed to authenticate.".to_owned(),
            RctfError::TransportFailure(d) => d.clone(),
            RctfError::RemoteNonZeroExit(code) => {
                let mut m = "Process exited with code ".to_owned();
                let digits = u64_string(*code as u64);
                m.append(digits.as_str());
                m.append(".");
                m
            },
            RctfError::RemoteSignalExit(sig, reason) => {
                let mut m = "Process exited with signal SIG".to_owned();
                m.append(sig.as_str());
                m.append(": ");
                m.append(reason.as_str());
                m
            },
            RctfError::NotConnected => "Session is not connected.".to_owned(),
            RctfError::InvalidQuoting => "Invalid quoting.".to_owned(),
            RctfError::ParseError(d) => d.clone(),
            RctfError::UndefinedVariable(name) => {
                let mut m = "Variable ".to_owned();
                m.append(name.as_str());
                m.append(" is not defined.");
                m
            },
            RctfError::ExpansionDepthExceeded => {
                "Variable expansion exceeded the depth limit.".to_owned()
            },
            RctfError::IndexNotFound(i) => {
                let mut m = "No session found with index ".to_owned();
                let digits = u64_string(*i as u64);
                m.append(digits.as_str());
                m.append(".");
                m
            },
            RctfError::NameNotFound(n) => {
                let mut m = "No session found with name ".to_owned();
                m.append(n.as_str());
                m.append(".");
                m
            },
        }
    }
}

} // verus!

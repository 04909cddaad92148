//! The session capability's state machine and the decisions of its
//! passthrough read loop.
//!
//! A session is `Disconnected` until the transport connects and
//! authenticates, then `Connected` until it is disconnected. The read loop
//! races decoded keystrokes against remote output and the one-shot exit
//! notification; the decisions here say, for each event, what to forward to
//! the remote end, when to hand over to control mode, and how a reported
//! exit ends the session. The transport I/O itself happens outside the
//! library against these contracts.

use vstd::prelude::*;
use vstd::string::StringSliceAdditionalSpecFns;
use crate::editor::Key;
use crate::errors::RctfError;

verus! {

/// The interrupt byte, sent for Ctrl-C and by `reset_prompt`.
pub const ETX: u8 = 3;

/// The end-of-transmission byte, sent for Ctrl-D.
pub const EOT: u8 = 4;

/// The erase byte, sent for Backspace.
pub const BACKSPACE: u8 = 8;

/// How the remote process ended, as reported by the transport.
#[derive(Debug, Clone, PartialEq, Eq)]
pub enum ExitReason {
    /// Exit with a status code.
    Status(u32),
    /// Termination by a signal, with its name and the reported message.
    Signal(String, String),
}

/// How a read loop turn ended: a hand-over to control mode, or the end of
/// the session.
#[derive(Debug, Clone, Copy, PartialEq, Eq, Structural)]
pub enum SessionExit {
    /// Escape: enter control mode without closing the connection.
    Termcraft,
    /// The remote process exited cleanly.
    Exit,
}

#[derive(Debug, Clone, Copy, PartialEq, Eq, Structural)]
pub enum ConnState {
    Disconnected,
    Connected,
}

/// What an SSH session needs to connect: destination, port and a single
/// username/password credential.
#[derive(Debug, Clone)]
pub struct SshSettings {
    pub hostname: String,
    pub port: u16,
    pub username: String,
    pub password: String,
}

/// An event the read loop multiplexes: a decoded keystroke, the remote
/// exit notification, or the closing of either source.
#[derive(Debug, Clone, PartialEq, Eq)]
pub enum ReadEvent {
    Key(Key),
    /// The one-shot exit notification fired.
    RemoteExit(ExitReason),
    /// The exit notification channel closed without a reported exit.
    ExitChannelClosed,
    /// The keystroke source ended.
    KeyStreamClosed,
}

/// What one read loop event asks of the loop's driver.
#[derive(Debug, Clone, PartialEq, Eq)]
pub enum ReadStep {
    /// Write these bytes to the remote channel and keep reading.
    Forward(Vec<u8>),
    /// Nothing to do; keep reading.
    Ignore,
    /// Leave the loop for control mode; the connection stays open.
    ControlMode,
    /// The remote process exited cleanly; disconnect and free the slot.
    Exited,
    /// The turn failed; the caller still disconnects and frees the slot on
    /// remote-exit errors.
    Failed(RctfError),
}

/// The bytes a keystroke forwards to the remote channel in passthrough
/// mode: arrow keys as their terminal escape sequences, control chords as
/// their control bytes, a plain character as itself. `None` for Escape
/// (which yields to control mode) and for keys passthrough ignores.
pub open spec fn key_forward(k: Key) -> Option<Seq<u8>> {
    match k {
        Key::Enter => Some(seq![10u8]),
        Key::Backspace => Some(seq![BACKSPACE]),
        Key::Tab => Some(seq![9u8]),
        Key::Up => Some(seq![27u8, 91u8, 65u8]),
        Key::Down => Some(seq![27u8, 91u8, 66u8]),
        Key::Right => Some(seq![27u8, 91u8, 67u8]),
        Key::Left => Some(seq![27u8, 91u8, 68u8]),
        Key::CtrlC => Some(seq![ETX]),
        Key::CtrlD => Some(seq![EOT]),
        Key::Char(c) => Some(seq![(c as u32) as u8]),
        _ => None,
    }
}

/// One session over the SSH transport: its settings, connection state and
/// display name.
pub struct SshSession {
    settings: SshSettings,
    state: ConnState,
    name: String,
}

impl SshSession {
    pub closed spec fn is_connected_spec(&self) -> bool {
        self.state is Connected
    }

    pub closed spec fn name_spec(&self) -> Seq<char> {
        self.name@
    }

    pub closed spec fn settings_spec(&self) -> SshSettings {
        self.settings
    }

    /// A fresh, disconnected, unnamed session.
    pub fn new(settings: SshSettings) -> (r: Self)
        ensures
            !r.is_connected_spec(),
            r.name_spec() == Seq::<char>::empty(),
            r.settings_spec() == settings,
    {
        Self { settings, state: ConnState::Disconnected, name: String::new() }
    }

    pub fn kind_name(&self) -> (r: &'static str)
        ensures
            r@ == "Ssh"@,
    {
        "Ssh"
    }

    pub fn is_connected(&self) -> (r: bool)
        ensures
            r == self.is_connected_spec(),
    {
        match self.state {
            ConnState::Connected => true,
            ConnState::Disconnected => false,
        }
    }

    pub fn settings(&self) -> (r: &SshSettings)
        ensures
            r == &self.settings_spec(),
    {
        &self.settings
    }

    /// Records that the transport connected, authenticated and opened its
    /// interactive channel.
    pub fn mark_connected(&mut self)
        ensures
            final(self).is_connected_spec(),
            final(self).name_spec() == old(self).name_spec(),
            final(self).settings_spec() == old(self).settings_spec(),
    {
        self.state = ConnState::Connected;
    }

    /// Ends the session's connected state; the caller closes the channel
    /// and sends the disconnect notice exactly when this returns true.
    /// Already-disconnected sessions are left alone.
    pub fn disconnect(&mut self) -> (was_connected: bool)
        ensures
            !final(self).is_connected_spec(),
            was_connected == old(self).is_connected_spec(),
            final(self).name_spec() == old(self).name_spec(),
            final(self).settings_spec() == old(self).settings_spec(),
    {
        let was = self.is_connected();
        self.state = ConnState::Disconnected;
        was
    }

    /// Sending needs an open channel: the error a send or a read loop gets
    /// on a disconnected session.
    pub fn check_connected(&self) -> (r: Result<(), RctfError>)
        ensures
            r is Ok <==> self.is_connected_spec(),
            r is Err ==> r->Err_0 == RctfError::NotConnected,
    {
        if self.is_connected() {
            Ok(())
        } else {
            Err(RctfError::NotConnected)
        }
    }

    /// The decision for one multiplexed event of the passthrough read
    /// loop. The connection state never changes here: Escape hands over to
    /// control mode with the channel open, and a reported exit is ended by
    /// the caller through `disconnect`.
    pub fn read_loop_step(&self, ev: ReadEvent) -> (r: ReadStep)
        ensures
            !self.is_connected_spec() ==> r == ReadStep::Failed(RctfError::NotConnected),
            self.is_connected_spec() ==> match ev {
                ReadEvent::Key(k) => {
                    if k is Esc {
                        r == ReadStep::ControlMode
                    } else {
                        match key_forward(k) {
                            Some(bs) => r matches ReadStep::Forward(v) && v@ == bs,
                            None => r == ReadStep::Ignore,
                        }
                    }
                },
                ReadEvent::RemoteExit(reason) => match reason {
                    ExitReason::Status(code) => {
                        if code == 0 {
                            r == ReadStep::Exited
                        } else {
                            r == ReadStep::Failed(RctfError::RemoteNonZeroExit(code))
                        }
                    },
                    ExitReason::Signal(sig, msg) => r == ReadStep::Failed(
                        RctfError::RemoteSignalExit(sig, msg),
                    ),
                },
                ReadEvent::ExitChannelClosed => r matches ReadStep::Failed(e) && e matches
                    RctfError::TransportFailure(m) && m@ == "Failed to get exit status."@,
                ReadEvent::KeyStreamClosed => r matches ReadStep::Failed(e) && e matches
                    RctfError::TransportFailure(m) && m@ == "Out of events."@,
            },
    {
        if !self.is_connected() {
            return ReadStep::Failed(RctfError::NotConnected);
        }
        match ev {
            ReadEvent::Key(k) => match k {
                Key::Esc => ReadStep::ControlMode,
                Key::Enter => ReadStep::Forward(vec![10u8]),
                Key::Backspace => ReadStep::Forward(vec![BACKSPACE]),
                Key::Tab => ReadStep::Forward(vec![9u8]),
                Key::Up => ReadStep::Forward(vec![27u8, 91u8, 65u8]),
                Key::Down => ReadStep::Forward(vec![27u8, 91u8, 66u8]),
                Key::Right => ReadStep::Forward(vec![27u8, 91u8, 67u8]),
                Key::Left => ReadStep::Forward(vec![27u8, 91u8, 68u8]),
                Key::CtrlC => ReadStep::Forward(vec![ETX]),
                Key::CtrlD => ReadStep::Forward(vec![EOT]),
                Key::Char(c) => {
                    let b: u8 = #[verifier::truncate] (c as u8);
                    ReadStep::Forward(vec![b])
                },
                Key::Delete => ReadStep::Ignore,
                Key::Other => ReadStep::Ignore,
            },
            ReadEvent::RemoteExit(reason) => match reason {
                ExitReason::Status(code) => {
                    if code == 0 {
                        ReadStep::Exited
                    } else {
                        ReadStep::Failed(RctfError::RemoteNonZeroExit(code))
                    }
                },
                ExitReason::Signal(sig, msg) => ReadStep::Failed(
                    RctfError::RemoteSignalExit(sig, msg),
                ),
            },
            ReadEvent::ExitChannelClosed => ReadStep::Failed(
                RctfError::TransportFailure("Failed to get exit status.".to_owned()),
            ),
            ReadEvent::KeyStreamClosed => ReadStep::Failed(
                RctfError::TransportFailure("Out of events.".to_owned()),
            ),
        }
    }

    /// Whether the session carries exactly this display name.
    pub fn has_name(&self, n: &String) -> (r: bool)
        ensures
            r == (self.name_spec() == n@),
    {
        self.name == *n
    }

    /// The display name, absent while unnamed.
    pub fn name(&self) -> (r: Option<&str>)
        ensures
            match r {
                Some(n) => self.name_spec().len() > 0 && n@ == self.name_spec(),
                None => self.name_spec().len() == 0,
            },
    {
        if self.name.as_str().is_empty() {
            None
        } else {
            Some(self.name.as_str())
        }
    }

    /// The display name, for renaming; independent of transport identity.
    pub fn name_mut(&mut self) -> (r: &mut String)
        ensures
            r@ == old(self).name_spec(),
            final(self).name_spec() == final(r)@,
            final(self).is_connected_spec() == old(self).is_connected_spec(),
            final(self).settings_spec() == old(self).settings_spec(),
    {
        &mut self.name
    }
}

/// The byte sequence `reset_prompt` sends before its drain: the interrupt
/// byte alone.
pub fn reset_prompt_bytes() -> (r: Vec<u8>)
    ensures
        r@ == seq![ETX],
{
    vec![ETX]
}

/// The bytes a control-mode command injects into the session: the command's
/// text with a newline appended.
pub fn command_payload(cmd: &str) -> (r: Vec<u8>)
    ensures
        r@ == cmd.spec_bytes().push(10u8),
{
    let mut v = cmd.as_bytes_vec();
    v.push(10u8);
    v
}

} // verus!

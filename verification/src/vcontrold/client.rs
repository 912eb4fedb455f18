//! The session with the device daemon as a state machine.
//!
//! The bridge keeps one connection to the daemon and runs one command at a
//! time over it. This module decides what is done next; the caller dials,
//! writes and reads as it is told and reports what came of it.

use crate::error::{VcontroldError, VcontroldErrorView};
use crate::text::{decimal_nat, u64_to_decimal};
use crate::vcontrold::protocol::{
    command_error, command_line, extract_response, extract_response_spec, format_command,
    format_quit, is_valid_command, quit_line, validate_command,
};
use vstd::prelude::*;
use vstd::string::StringExecFns;

verus! {

/// The port the daemon listens on.
pub const DEFAULT_PORT: u16 = 3002;

/// The host the daemon runs on.
pub const DEFAULT_HOST: &'static str = "127.0.0.1";

/// The seconds a dial may take, name resolution included.
pub const CONNECT_TIMEOUT_SECS: u64 = 10;

/// The seconds the daemon may take to send its prompt.
pub const READ_TIMEOUT_SECS: u64 = 30;

/// Where the daemon is reached.
#[derive(Debug)]
pub struct Endpoint {
    /// The host name or address.
    pub host: String,
    /// The TCP port.
    pub port: u16,
}

impl Endpoint {
    /// The endpoint `host:port`.
    pub fn new(host: &str, port: u16) -> (r: Endpoint)
        ensures
            r.host@ == host@,
            r.port == port,
    {
        Endpoint { host: host.to_owned(), port }
    }

    /// The daemon on this machine, at its default port.
    pub fn localhost() -> (r: Endpoint)
        ensures
            r.host@ == DEFAULT_HOST@,
            r.port == DEFAULT_PORT,
    {
        Endpoint::new(DEFAULT_HOST, DEFAULT_PORT)
    }

    /// The address to dial: host, colon, port.
    pub fn address(&self) -> (r: String)
        ensures
            r@ == self.host@ + ":"@ + decimal_nat(self.port as nat),
    {
        let mut address: String = self.host.clone();
        address.append(":");
        address.append(u64_to_decimal(self.port as u64).as_str());
        address
    }
}

/// Where a session stands.
#[derive(Clone, Copy, Debug, PartialEq, Eq, Structural)]
pub enum SessionState {
    /// No connection was opened yet.
    Idle,
    /// A connection is being opened.
    Dialing,
    /// The connection is open and the daemon's first prompt is awaited.
    AwaitingPrompt,
    /// The daemon waits for a command.
    Ready,
    /// A command was handed over and its response is awaited.
    Executing,
    /// The connection is gone.
    Closed,
}

/// Whether a session in `state` holds a connection.
pub open spec fn holds_connection(state: SessionState) -> bool {
    state is AwaitingPrompt || state is Ready || state is Executing
}

/// Whether a command handed to a session in `state` makes it dial first.
pub open spec fn dials_first(state: SessionState) -> bool {
    state is Idle || state is Closed
}

/// How an attempt to open the connection ended.
#[derive(Debug)]
pub enum DialOutcome {
    /// The connection is open.
    Connected,
    /// The connection was refused, with the reason.
    Failed(String),
    /// The connection did not open in time.
    TimedOut,
}

/// The mathematical model of a [`DialOutcome`].
pub enum DialOutcomeView {
    Connected,
    Failed(Seq<char>),
    TimedOut,
}

impl View for DialOutcome {
    type V = DialOutcomeView;

    open spec fn view(&self) -> DialOutcomeView {
        match self {
            DialOutcome::Connected => DialOutcomeView::Connected,
            DialOutcome::Failed(reason) => DialOutcomeView::Failed(reason@),
            DialOutcome::TimedOut => DialOutcomeView::TimedOut,
        }
    }
}

/// How reading up to the next prompt ended.
#[derive(Debug)]
pub enum ReadOutcome {
    /// The prompt arrived; this is everything read, the prompt included.
    Prompt(String),
    /// The stream ended before a prompt.
    EndOfStream,
    /// Writing or reading failed.
    Failed(std::io::Error),
    /// The prompt did not arrive in time.
    TimedOut,
}

/// The mathematical model of a [`ReadOutcome`].
pub enum ReadOutcomeView {
    Prompt(Seq<char>),
    EndOfStream,
    Failed(std::io::Error),
    TimedOut,
}

impl View for ReadOutcome {
    type V = ReadOutcomeView;

    open spec fn view(&self) -> ReadOutcomeView {
        match self {
            ReadOutcome::Prompt(buffer) => ReadOutcomeView::Prompt(buffer@),
            ReadOutcome::EndOfStream => ReadOutcomeView::EndOfStream,
            ReadOutcome::Failed(cause) => ReadOutcomeView::Failed(*cause),
            ReadOutcome::TimedOut => ReadOutcomeView::TimedOut,
        }
    }
}

/// What the caller of a session does next.
#[derive(Debug)]
pub enum Action {
    /// Open the connection, within [`CONNECT_TIMEOUT_SECS`], and report with
    /// [`Session::dialed`].
    Dial,
    /// Read up to the daemon's first prompt, within [`READ_TIMEOUT_SECS`],
    /// and report with [`Session::received`].
    AwaitPrompt,
    /// Write this line and flush, then read up to the next prompt, within
    /// [`READ_TIMEOUT_SECS`], and report with [`Session::received`].
    Exchange(String),
    /// Write this line and flush, ignoring failures, and drop the
    /// connection.
    Quit(String),
    /// The command is done, with this response or this error. Where the
    /// session holds no connection any more, drop the connection.
    Finish(Result<String, VcontroldError>),
}

/// The mathematical model of an [`Action`].
pub enum ActionView {
    Dial,
    AwaitPrompt,
    Exchange(Seq<char>),
    Quit(Seq<char>),
    Finish(Result<Seq<char>, VcontroldErrorView>),
}

impl View for Action {
    type V = ActionView;

    open spec fn view(&self) -> ActionView {
        match self {
            Action::Dial => ActionView::Dial,
            Action::AwaitPrompt => ActionView::AwaitPrompt,
            Action::Exchange(line) => ActionView::Exchange(line@),
            Action::Quit(line) => ActionView::Quit(line@),
            Action::Finish(Ok(response)) => ActionView::Finish(Ok(response@)),
            Action::Finish(Err(e)) => ActionView::Finish(Err(e@)),
        }
    }
}

/// The seconds within which the caller has to be done with `action`; there
/// is no bound on saying good-bye or on finishing.
pub open spec fn time_bound(action: ActionView) -> Option<u64> {
    match action {
        ActionView::Dial => Some(CONNECT_TIMEOUT_SECS),
        ActionView::AwaitPrompt => Some(READ_TIMEOUT_SECS),
        ActionView::Exchange(_) => Some(READ_TIMEOUT_SECS),
        _ => None,
    }
}

impl Action {
    /// The seconds within which the caller has to be done with this action:
    /// a dial that takes longer has timed out, and so has a read. Writing a
    /// line is not bounded.
    pub fn timeout_secs(&self) -> (r: Option<u64>)
        ensures
            r == time_bound(self@),
    {
        match self {
            Action::Dial => Some(CONNECT_TIMEOUT_SECS),
            Action::AwaitPrompt => Some(READ_TIMEOUT_SECS),
            Action::Exchange(_) => Some(READ_TIMEOUT_SECS),
            _ => None,
        }
    }
}

/// The mathematical model of a [`Session`].
pub struct SessionView {
    /// Where the session stands.
    pub state: SessionState,
    /// The line that goes out once the daemon has prompted. There is none
    /// while the session only probes the daemon.
    pub pending: Option<Seq<char>>,
}

/// The session that holds no connection and has nothing to send.
pub open spec fn closed_session() -> SessionView {
    SessionView { state: SessionState::Closed, pending: None }
}

/// The error that refuses something that comes out of turn.
pub open spec fn out_of_turn(what: Seq<char>) -> ActionView {
    ActionView::Finish(Err(VcontroldErrorView::Protocol(what)))
}

/// What handing `command` to a session does.
///
/// A command that is not valid is refused and nothing else happens. A
/// session without a connection dials first and sends the command after the
/// daemon's first prompt; a session that is ready sends it at once. A
/// session that is in the middle of something refuses the command and stays
/// as it is.
pub open spec fn execute_step(s: SessionView, command: Seq<char>) -> (SessionView, ActionView) {
    if !is_valid_command(command) {
        (s, ActionView::Finish(Err(command_error(command))))
    } else if dials_first(s.state) {
        (
            SessionView { state: SessionState::Dialing, pending: Some(command_line(command)) },
            ActionView::Dial,
        )
    } else if s.state is Ready {
        (
            SessionView { state: SessionState::Executing, pending: None },
            ActionView::Exchange(command_line(command)),
        )
    } else {
        (s, out_of_turn("session is busy"@))
    }
}

/// What beginning a probe does: a session without a connection dials, with
/// nothing to send; any other session refuses and stays as it is.
pub open spec fn probe_step(s: SessionView) -> (SessionView, ActionView) {
    if dials_first(s.state) {
        (SessionView { state: SessionState::Dialing, pending: None }, ActionView::Dial)
    } else {
        (s, out_of_turn("session is busy"@))
    }
}

/// What the outcome of a dial does.
///
/// An open connection waits for the daemon's first prompt. A dial that
/// failed or took too long closes the session with `ConnectionFailed`. A
/// report that comes while no dial is under way closes the session.
pub open spec fn dialed_step(s: SessionView, outcome: DialOutcomeView) -> (
    SessionView,
    ActionView,
) {
    if !(s.state is Dialing) {
        (closed_session(), out_of_turn("no dial was under way"@))
    } else {
        match outcome {
            DialOutcomeView::Connected => (
                SessionView { state: SessionState::AwaitingPrompt, pending: s.pending },
                ActionView::AwaitPrompt,
            ),
            DialOutcomeView::Failed(reason) => (
                closed_session(),
                ActionView::Finish(Err(VcontroldErrorView::ConnectionFailed(reason))),
            ),
            DialOutcomeView::TimedOut => (
                closed_session(),
                ActionView::Finish(
                    Err(VcontroldErrorView::ConnectionFailed("connection timeout"@)),
                ),
            ),
        }
    }
}

/// The response in everything that was read up to a prompt: what stands
/// before the prompt, trimmed.
pub open spec fn response_in(buffer: Seq<char>) -> Seq<char> {
    match extract_response_spec(buffer) {
        Some(text) => text,
        None => Seq::empty(),
    }
}

/// What the outcome of reading up to a prompt does.
///
/// The daemon's first prompt lets the pending command go out, or ends a
/// probe with a good-bye. The prompt after a command ends the command with
/// its response and leaves the session ready. An end of stream, a failure
/// or a timeout closes the session, and so does a report that comes while
/// no read is under way.
pub open spec fn received_step(s: SessionView, outcome: ReadOutcomeView) -> (
    SessionView,
    ActionView,
) {
    if !(s.state is AwaitingPrompt || s.state is Executing) {
        (closed_session(), out_of_turn("no read was under way"@))
    } else {
        match outcome {
            ReadOutcomeView::Prompt(buffer) => if s.state is Executing {
                (
                    SessionView { state: SessionState::Ready, pending: None },
                    ActionView::Finish(Ok(response_in(buffer))),
                )
            } else {
                match s.pending {
                    Some(line) => (
                        SessionView { state: SessionState::Executing, pending: None },
                        ActionView::Exchange(line),
                    ),
                    None => (closed_session(), ActionView::Quit(quit_line())),
                }
            },
            ReadOutcomeView::EndOfStream => (
                closed_session(),
                ActionView::Finish(Err(VcontroldErrorView::ConnectionLost)),
            ),
            ReadOutcomeView::Failed(cause) => (
                closed_session(),
                ActionView::Finish(Err(VcontroldErrorView::Io(cause))),
            ),
            ReadOutcomeView::TimedOut => (
                closed_session(),
                ActionView::Finish(Err(VcontroldErrorView::Timeout)),
            ),
        }
    }
}

/// After a read that ended without a prompt, be it by a timeout, by the end
/// of the stream or by a failure, the session holds no connection, whatever
/// it was doing before; and the next command dials anew.
pub proof fn lemma_failed_read_closes(s: SessionView, outcome: ReadOutcomeView, next: Seq<char>)
    requires
        !(outcome is Prompt),
        is_valid_command(next),
    ensures
        !holds_connection(received_step(s, outcome).0.state),
        execute_step(received_step(s, outcome).0, next).1 is Dial,
{
}

/// One session with the daemon.
#[derive(Debug)]
pub struct Session {
    state: SessionState,
    pending: Option<String>,
}

impl View for Session {
    type V = SessionView;

    closed spec fn view(&self) -> SessionView {
        SessionView {
            state: self.state,
            pending: match self.pending {
                Some(line) => Some(line@),
                None => None,
            },
        }
    }
}

impl Session {
    /// A session that has not dialed yet.
    pub fn new() -> (r: Session)
        ensures
            r@ == (SessionView { state: SessionState::Idle, pending: None }),
    {
        Session { state: SessionState::Idle, pending: None }
    }

    /// Where the session stands.
    pub fn state(&self) -> (r: SessionState)
        ensures
            r == self@.state,
    {
        self.state
    }

    /// Whether the session holds a connection.
    pub fn is_connected(&self) -> (r: bool)
        ensures
            r == holds_connection(self@.state),
    {
        match self.state {
            SessionState::AwaitingPrompt | SessionState::Ready | SessionState::Executing => true,
            _ => false,
        }
    }

    /// Begins the execution of `command` and says what is done first.
    pub fn execute(&mut self, command: &str) -> (action: Action)
        ensures
            (final(self)@, action@) == execute_step(old(self)@, command@),
    {
        match validate_command(command) {
            Err(e) => {
                return Action::Finish(Err(e));
            },
            Ok(()) => {},
        }
        match self.state {
            SessionState::Idle | SessionState::Closed => {
                self.state = SessionState::Dialing;
                self.pending = Some(format_command(command));
                Action::Dial
            },
            SessionState::Ready => {
                self.state = SessionState::Executing;
                self.pending = None;
                Action::Exchange(format_command(command))
            },
            _ => Action::Finish(Err(VcontroldError::Protocol("session is busy".to_owned()))),
        }
    }

    /// Begins a probe of the daemon: dial, wait for the first prompt, say
    /// good-bye.
    pub fn probe(&mut self) -> (action: Action)
        ensures
            (final(self)@, action@) == probe_step(old(self)@),
    {
        match self.state {
            SessionState::Idle | SessionState::Closed => {
                self.state = SessionState::Dialing;
                self.pending = None;
                Action::Dial
            },
            _ => Action::Finish(Err(VcontroldError::Protocol("session is busy".to_owned()))),
        }
    }

    /// Takes the outcome of a dial and says what is done next.
    pub fn dialed(&mut self, outcome: DialOutcome) -> (action: Action)
        ensures
            (final(self)@, action@) == dialed_step(old(self)@, outcome@),
    {
        match self.state {
            SessionState::Dialing => {},
            _ => {
                self.state = SessionState::Closed;
                self.pending = None;
                return Action::Finish(
                    Err(VcontroldError::Protocol("no dial was under way".to_owned())),
                );
            },
        }
        match outcome {
            DialOutcome::Connected => {
                self.state = SessionState::AwaitingPrompt;
                Action::AwaitPrompt
            },
            DialOutcome::Failed(reason) => {
                self.state = SessionState::Closed;
                self.pending = None;
                Action::Finish(Err(VcontroldError::ConnectionFailed(reason)))
            },
            DialOutcome::TimedOut => {
                self.state = SessionState::Closed;
                self.pending = None;
                Action::Finish(
                    Err(VcontroldError::ConnectionFailed("connection timeout".to_owned())),
                )
            },
        }
    }

    /// Takes the outcome of reading up to a prompt and says what is done
    /// next.
    pub fn received(&mut self, outcome: ReadOutcome) -> (action: Action)
        ensures
            (final(self)@, action@) == received_step(old(self)@, outcome@),
    {
        let state: SessionState = self.state;
        let pending: Option<String> = self.pending.take();
        self.state = SessionState::Closed;
        match state {
            SessionState::AwaitingPrompt | SessionState::Executing => {},
            _ => {
                return Action::Finish(
                    Err(VcontroldError::Protocol("no read was under way".to_owned())),
                );
            },
        }
        match outcome {
            ReadOutcome::Prompt(buffer) => match state {
                SessionState::AwaitingPrompt => match pending {
                    Some(line) => {
                        self.state = SessionState::Executing;
                        Action::Exchange(line)
                    },
                    None => Action::Quit(format_quit()),
                },
                _ => {
                    self.state = SessionState::Ready;
                    let response: String = match extract_response(buffer.as_str()) {
                        Some(text) => text.to_owned(),
                        None => String::new(),
                    };
                    Action::Finish(Ok(response))
                },
            },
            ReadOutcome::EndOfStream => Action::Finish(Err(VcontroldError::ConnectionLost)),
            ReadOutcome::Failed(cause) => Action::Finish(Err(VcontroldError::Io(cause))),
            ReadOutcome::TimedOut => Action::Finish(Err(VcontroldError::Timeout)),
        }
    }

    /// Ends the session in good order: where there is a connection, the
    /// line to say good-bye with is returned, and the session is closed
    /// either way.
    pub fn disconnect(&mut self) -> (line: Option<String>)
        ensures
            final(self)@ == closed_session(),
            holds_connection(old(self)@.state) ==> (line matches Some(sent) && sent@
                == quit_line()),
            !holds_connection(old(self)@.state) ==> line is None,
    {
        let connected: bool = self.is_connected();
        self.state = SessionState::Closed;
        self.pending = None;
        if connected {
            Some(format_quit())
        } else {
            None
        }
    }

    /// Gives the connection up without a good-bye and says whether there
    /// was one.
    pub fn mark_disconnected(&mut self) -> (had_connection: bool)
        ensures
            final(self)@ == closed_session(),
            had_connection == holds_connection(old(self)@.state),
    {
        let connected: bool = self.is_connected();
        self.state = SessionState::Closed;
        self.pending = None;
        connected
    }
}

} // verus!

//! Error types of the bridge, one enum per component.

use crate::config::ConfigError;
use vstd::prelude::*;
use vstd::std_specs::convert::FromSpecImpl;

verus! {

/// `std::io::Error`, carried through without looking inside.
#[verifier::external_type_specification]
#[verifier::external_body]
pub struct ExIoError(std::io::Error);

/// Errors of the session with the device daemon.
#[derive(Debug)]
pub enum VcontroldError {
    /// The daemon could not be reached.
    ConnectionFailed(String),
    /// The daemon closed the stream before sending its prompt.
    ConnectionLost,
    /// The daemon sent something the protocol does not allow.
    Protocol(String),
    /// The command was refused before anything was sent.
    Command(String),
    /// The prompt did not arrive in time.
    Timeout,
    /// Reading or writing the stream failed.
    Io(std::io::Error),
}

/// The mathematical model of a [`VcontroldError`]: the same cases, with
/// their messages as sequences of characters.
pub enum VcontroldErrorView {
    ConnectionFailed(Seq<char>),
    ConnectionLost,
    Protocol(Seq<char>),
    Command(Seq<char>),
    Timeout,
    Io(std::io::Error),
}

impl View for VcontroldError {
    type V = VcontroldErrorView;

    open spec fn view(&self) -> VcontroldErrorView {
        match self {
            VcontroldError::ConnectionFailed(msg) => VcontroldErrorView::ConnectionFailed(msg@),
            VcontroldError::ConnectionLost => VcontroldErrorView::ConnectionLost,
            VcontroldError::Protocol(msg) => VcontroldErrorView::Protocol(msg@),
            VcontroldError::Command(msg) => VcontroldErrorView::Command(msg@),
            VcontroldError::Timeout => VcontroldErrorView::Timeout,
            VcontroldError::Io(e) => VcontroldErrorView::Io(*e),
        }
    }
}

/// Errors of the MQTT session.
#[derive(Debug)]
pub enum MqttError {
    /// The session could not be set up.
    ConnectionFailed(String),
    /// A message could not be handed to the broker session.
    PublishFailed(String),
    /// Any other failure of the broker client.
    Client(String),
}

/// Errors of the supervised daemon process.
#[derive(Debug)]
pub enum ProcessError {
    /// The daemon could not be started.
    StartFailed(String),
    /// Waiting for the daemon to exit failed.
    WaitFailed(String),
    /// The daemon exited, with this code if it had one.
    UnexpectedExit(Option<i32>),
    /// The daemon did not answer within this many seconds.
    ReadinessTimeout(u64),
    /// The daemon's configuration file does not exist.
    ConfigNotFound(String),
}

/// Any error of the bridge.
#[derive(Debug)]
pub enum Error {
    /// The configuration was refused.
    Config(ConfigError),
    /// The session with the daemon failed.
    Vcontrold(VcontroldError),
    /// The MQTT session failed.
    Mqtt(MqttError),
    /// The daemon process failed.
    Process(ProcessError),
    /// An input or output operation failed.
    Io(std::io::Error),
}

impl From<ConfigError> for Error {
    fn from(e: ConfigError) -> (r: Error) {
        Error::Config(e)
    }
}

impl FromSpecImpl<ConfigError> for Error {
    open spec fn obeys_from_spec() -> bool {
        true
    }

    open spec fn from_spec(e: ConfigError) -> Error {
        Error::Config(e)
    }
}

impl From<VcontroldError> for Error {
    fn from(e: VcontroldError) -> (r: Error) {
        Error::Vcontrold(e)
    }
}

impl FromSpecImpl<VcontroldError> for Error {
    open spec fn obeys_from_spec() -> bool {
        true
    }

    open spec fn from_spec(e: VcontroldError) -> Error {
        Error::Vcontrold(e)
    }
}

impl From<MqttError> for Error {
    fn from(e: MqttError) -> (r: Error) {
        Error::Mqtt(e)
    }
}

impl FromSpecImpl<MqttError> for Error {
    open spec fn obeys_from_spec() -> bool {
        true
    }

    open spec fn from_spec(e: MqttError) -> Error {
        Error::Mqtt(e)
    }
}

impl From<ProcessError> for Error {
    fn from(e: ProcessError) -> (r: Error) {
        Error::Process(e)
    }
}

impl FromSpecImpl<ProcessError> for Error {
    open spec fn obeys_from_spec() -> bool {
        true
    }

    open spec fn from_spec(e: ProcessError) -> Error {
        Error::Process(e)
    }
}

impl From<std::io::Error> for Error {
    fn from(e: std::io::Error) -> (r: Error) {
        Error::Io(e)
    }
}

impl FromSpecImpl<std::io::Error> for Error {
    open spec fn obeys_from_spec() -> bool {
        true
    }

    open spec fn from_spec(e: std::io::Error) -> Error {
        Error::Io(e)
    }
}

impl From<std::io::Error> for VcontroldError {
    fn from(e: std::io::Error) -> (r: VcontroldError) {
        VcontroldError::Io(e)
    }
}

impl FromSpecImpl<std::io::Error> for VcontroldError {
    open spec fn obeys_from_spec() -> bool {
        true
    }

    open spec fn from_spec(e: std::io::Error) -> VcontroldError {
        VcontroldError::Io(e)
    }
}

} // verus!

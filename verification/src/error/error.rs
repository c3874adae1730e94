use vstd::prelude::*;
use crate::tokio::SystemPrepareError;
use super::recv_error::RecvError;
use super::send_error::SendError;
use super::try_recv_error::TryRecvError;
use super::try_send_error::TrySendError;

verus! {

/// `std::io::Error`, carried as an opaque value.
#[verifier::external_type_specification]
#[verifier::external_body]
pub struct ExIoError(std::io::Error);

/// `tokio::task::JoinError`, carried as an opaque value.
#[verifier::external_type_specification]
#[verifier::external_body]
pub struct ExJoinError(::tokio::task::JoinError);

/// Any failure of a port, a process, or system preparation.
#[derive(Debug)]
pub enum Error {
    /// A receive failed.
    Recv(RecvError),
    /// A non-blocking receive failed.
    TryRecv(TryRecvError),
    /// A send failed.
    Send(SendError),
    /// A non-blocking send failed.
    TrySend(TrySendError),
    /// A system definition could not be prepared.
    Prepare(SystemPrepareError),
    /// Standard input or output failed.
    Stdio(std::io::Error),
    /// A process task panicked or was cancelled.
    Join(::tokio::task::JoinError),
}

impl From<RecvError> for Error {
    fn from(error: RecvError) -> (r: Self) {
        Error::Recv(error)
    }
}

impl vstd::std_specs::convert::FromSpecImpl<RecvError> for Error {
    open spec fn obeys_from_spec() -> bool {
        true
    }

    open spec fn from_spec(error: RecvError) -> Self {
        Error::Recv(error)
    }
}

impl From<TryRecvError> for Error {
    fn from(error: TryRecvError) -> (r: Self) {
        Error::TryRecv(error)
    }
}

impl vstd::std_specs::convert::FromSpecImpl<TryRecvError> for Error {
    open spec fn obeys_from_spec() -> bool {
        true
    }

    open spec fn from_spec(error: TryRecvError) -> Self {
        Error::TryRecv(error)
    }
}

impl From<SendError> for Error {
    fn from(error: SendError) -> (r: Self) {
        Error::Send(error)
    }
}

impl vstd::std_specs::convert::FromSpecImpl<SendError> for Error {
    open spec fn obeys_from_spec() -> bool {
        true
    }

    open spec fn from_spec(error: SendError) -> Self {
        Error::Send(error)
    }
}

impl From<TrySendError> for Error {
    fn from(error: TrySendError) -> (r: Self) {
        Error::TrySend(error)
    }
}

impl vstd::std_specs::convert::FromSpecImpl<TrySendError> for Error {
    open spec fn obeys_from_spec() -> bool {
        true
    }

    open spec fn from_spec(error: TrySendError) -> Self {
        Error::TrySend(error)
    }
}

impl From<SystemPrepareError> for Error {
    fn from(error: SystemPrepareError) -> (r: Self) {
        Error::Prepare(error)
    }
}

impl vstd::std_specs::convert::FromSpecImpl<SystemPrepareError> for Error {
    open spec fn obeys_from_spec() -> bool {
        true
    }

    open spec fn from_spec(error: SystemPrepareError) -> Self {
        Error::Prepare(error)
    }
}

impl From<std::io::Error> for Error {
    fn from(error: std::io::Error) -> (r: Self) {
        Error::Stdio(error)
    }
}

impl vstd::std_specs::convert::FromSpecImpl<std::io::Error> for Error {
    open spec fn obeys_from_spec() -> bool {
        true
    }

    open spec fn from_spec(error: std::io::Error) -> Self {
        Error::Stdio(error)
    }
}

impl From<::tokio::task::JoinError> for Error {
    fn from(error: ::tokio::task::JoinError) -> (r: Self) {
        Error::Join(error)
    }
}

impl vstd::std_specs::convert::FromSpecImpl<::tokio::task::JoinError> for Error {
    open spec fn obeys_from_spec() -> bool {
        true
    }

    open spec fn from_spec(error: ::tokio::task::JoinError) -> Self {
        Error::Join(error)
    }
}

/// The result of a port operation or a process, failing with [`Error`] by default.
pub type Result<T = (), E = Error> = core::result::Result<T, E>;

} // verus!

//! Why a listener gives up.

use crate::listener::Protocol;
use vstd::prelude::*;

verus! {

/// `std::io::ErrorKind`, carried through unopened.
#[verifier::external_type_specification]
#[verifier::external_body]
pub struct ExIoErrorKind(std::io::ErrorKind);

/// The kind of a [`ListenError`].
#[derive(Debug, Clone, Copy, PartialEq, Eq)]
pub enum ErrorKind {
    Other,
    Interrupted,
    TimedOut,
    WouldBlock,
    /// The kind that the failed I/O operation itself reports.
    Io(std::io::ErrorKind),
}

/// What made an operation on the connection fail.
#[derive(Debug, Clone, Copy, PartialEq, Eq)]
pub enum FailureCause {
    /// An I/O operation would have had to block.
    WouldBlock,
    /// An I/O operation failed otherwise, with this kind.
    Io(std::io::ErrorKind),
    /// The compositor reported a protocol error.
    Protocol,
    /// A message did not match the interface of its object.
    BadMessage,
}

/// A failed operation on the connection.
#[derive(Debug)]
pub struct BackendFailure {
    pub cause: FailureCause,
    /// How the failure describes itself.
    pub message: String,
}

/// Why a listener gives up.
#[derive(Debug)]
pub enum ListenError {
    /// There is no connection.
    Connect,
    /// The announcements of the globals could not be dispatched.
    InitialDispatch(String),
    /// The compositor announced no seat, or no manager.
    GlobalsMissing,
    /// The name of the seat could not be waited for.
    Roundtrip,
    /// The device of this protocol finished.
    DeviceFinished(Protocol),
    /// The exit flag was raised during initialization.
    Cancelled,
    /// The compositor did not announce the existing selection in time.
    TimedOut,
    /// An operation on the connection failed during initialization.
    Backend(BackendFailure),
    /// There is no event queue to read from.
    QueueMissing,
    /// The event queue could not be locked.
    Lock(String),
    /// The exit flag was raised.
    Exit,
    /// The requests could not be flushed.
    Flush(String),
    /// The read could not be prepared.
    PrepareRead,
    /// The events that were read could not be dispatched.
    DispatchPending(String),
    /// The events could not be read.
    Read(String),
}

/// The kind under which a failed operation is reported: that of the I/O error, where it is one.
pub open spec fn failure_kind(cause: FailureCause) -> ErrorKind {
    match cause {
        FailureCause::WouldBlock => ErrorKind::WouldBlock,
        FailureCause::Io(kind) => ErrorKind::Io(kind),
        FailureCause::Protocol | FailureCause::BadMessage => ErrorKind::Other,
    }
}

/// What is said when the device of a protocol finished.
pub open spec fn finished_text(protocol: Protocol) -> Seq<char> {
    match protocol {
        Protocol::Ext => "Wayland ext_data_control_v1 device finished"@,
        Protocol::Zwlr => "Wayland zwlr_data_control_v1 device finished"@,
    }
}

/// The text with a cause behind it.
fn with_cause(text: &str, cause: &String) -> (message: String)
    ensures
        message@ == text@ + cause@,
{
    let mut message = text.to_owned();
    message.append(cause.as_str());
    message
}

impl ListenError {
    /// The kind of an error.
    pub open spec fn spec_kind(self) -> ErrorKind {
        match self {
            ListenError::Cancelled => ErrorKind::Interrupted,
            ListenError::TimedOut => ErrorKind::TimedOut,
            ListenError::Backend(failure) => failure_kind(failure.cause),
            _ => ErrorKind::Other,
        }
    }

    /// The text of an error.
    pub open spec fn text(self) -> Seq<char> {
        match self {
            ListenError::Connect => "Cannot connect to wayland server, is it running?"@,
            ListenError::InitialDispatch(cause) => "Inital dispatch failed: "@ + cause@,
            ListenError::GlobalsMissing =>
                "Cannot get seat and data manager (neither ext_data_control_v1 nor zwlr_data_control_v1 available)"@,
            ListenError::Roundtrip => "Cannot roundtrip during init"@,
            ListenError::DeviceFinished(protocol) => finished_text(protocol),
            ListenError::Cancelled => "Data device initialization cancelled"@,
            ListenError::TimedOut =>
                "Timed out waiting for the initial Wayland clipboard selection"@,
            ListenError::Backend(failure) => failure.message@,
            ListenError::QueueMissing => "Event queue not initialized"@,
            ListenError::Lock(cause) => "Cannot lock queue: "@ + cause@,
            ListenError::Exit => "Exit signal received, exiting"@,
            ListenError::Flush(cause) => "Flush failed: "@ + cause@,
            ListenError::PrepareRead => "Prepare read failed"@,
            ListenError::DispatchPending(cause) => "Dispatch pending failed: "@ + cause@,
            ListenError::Read(cause) => "Read failed: "@ + cause@,
        }
    }

    /// The kind of the error.
    pub fn kind(&self) -> (kind: ErrorKind)
        ensures
            kind == self.spec_kind(),
    {
        match self {
            ListenError::Cancelled => ErrorKind::Interrupted,
            ListenError::TimedOut => ErrorKind::TimedOut,
            ListenError::Backend(failure) => match failure.cause {
                FailureCause::WouldBlock => ErrorKind::WouldBlock,
                FailureCause::Io(kind) => ErrorKind::Io(kind),
                FailureCause::Protocol | FailureCause::BadMessage => ErrorKind::Other,
            },
            _ => ErrorKind::Other,
        }
    }

    /// The text of the error.
    pub fn message(&self) -> (message: String)
        ensures
            message@ == self.text(),
    {
        match self {
            ListenError::Connect => "Cannot connect to wayland server, is it running?".to_owned(),
            ListenError::InitialDispatch(cause) => with_cause("Inital dispatch failed: ", cause),
            ListenError::GlobalsMissing =>
                "Cannot get seat and data manager (neither ext_data_control_v1 nor zwlr_data_control_v1 available)".to_owned(),
            ListenError::Roundtrip => "Cannot roundtrip during init".to_owned(),
            ListenError::DeviceFinished(Protocol::Ext) =>
                "Wayland ext_data_control_v1 device finished".to_owned(),
            ListenError::DeviceFinished(Protocol::Zwlr) =>
                "Wayland zwlr_data_control_v1 device finished".to_owned(),
            ListenError::Cancelled => "Data device initialization cancelled".to_owned(),
            ListenError::TimedOut =>
                "Timed out waiting for the initial Wayland clipboard selection".to_owned(),
            ListenError::Backend(failure) => failure.message.clone(),
            ListenError::QueueMissing => "Event queue not initialized".to_owned(),
            ListenError::Lock(cause) => with_cause("Cannot lock queue: ", cause),
            ListenError::Exit => "Exit signal received, exiting".to_owned(),
            ListenError::Flush(cause) => with_cause("Flush failed: ", cause),
            ListenError::PrepareRead => "Prepare read failed".to_owned(),
            ListenError::DispatchPending(cause) => with_cause("Dispatch pending failed: ", cause),
            ListenError::Read(cause) => with_cause("Read failed: ", cause),
        }
    }
}

} // verus!

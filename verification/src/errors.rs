//! The network and transport errors of the client.
use vstd::prelude::*;

verus! {

/// Why talking to the signalling server failed.
#[derive(Debug)]
pub enum NetworkErrors {
    ConnectionFailed,
    ConnectionIsNotOpened,
    SendControlFailed,
    SendDataFailed,
    /// A message could not be (de)serialized; the text says why.
    SerdeError(String),
}

impl NetworkErrors {
    /// The text shown for this error.
    pub fn message(&self) -> (s: &'static str)
        ensures
            self is ConnectionFailed ==> s@ == "Connection failed"@,
            self is ConnectionIsNotOpened ==> s@ == "Connection is not openned"@,
            self is SendControlFailed ==> s@ == "Failed tp send control message"@,
            self is SendDataFailed ==> s@ == "Failed to send data message"@,
            self is SerdeError ==> s@ == "Failed to (de)serialize message"@,
    {
        match self {
            NetworkErrors::ConnectionFailed => "Connection failed",
            NetworkErrors::ConnectionIsNotOpened => "Connection is not openned",
            NetworkErrors::SendControlFailed => "Failed tp send control message",
            NetworkErrors::SendDataFailed => "Failed to send data message",
            NetworkErrors::SerdeError(_) => "Failed to (de)serialize message",
        }
    }
}

/// Why the data transport failed.
#[derive(Debug, Clone, Copy, PartialEq, Eq, Structural)]
pub enum TransportErrors {
    ConnectionFailed,
    ConnectionIsNotOpened,
    SendControlFailed,
    SendDataFailed,
}

impl TransportErrors {
    /// The text shown for this error.
    pub fn message(&self) -> (s: &'static str)
        ensures
            *self == TransportErrors::ConnectionFailed ==> s@ == "Connection failed"@,
            *self == TransportErrors::ConnectionIsNotOpened ==> s@ == "Connection is not openned"@,
            *self == TransportErrors::SendControlFailed ==> s@ == "Failed tp send control message"@,
            *self == TransportErrors::SendDataFailed ==> s@ == "Failed to send data message"@,
    {
        match self {
            TransportErrors::ConnectionFailed => "Connection failed",
            TransportErrors::ConnectionIsNotOpened => "Connection is not openned",
            TransportErrors::SendControlFailed => "Failed tp send control message",
            TransportErrors::SendDataFailed => "Failed to send data message",
        }
    }
}

/// How an attempt to send a signalling message went.
#[derive(Debug)]
pub enum SendAttempt {
    /// There is no connection to the server.
    NotConnected,
    /// The message could not be serialized; the text says why.
    SerializeFailed(String),
    /// Writing to the socket failed.
    SendFailed,
    Sent,
}

/// The result of sending a signalling message.
pub fn signalling_send_result(attempt: SendAttempt) -> (r: Result<(), NetworkErrors>)
    ensures
        match attempt {
            SendAttempt::NotConnected => r matches Err(NetworkErrors::ConnectionIsNotOpened),
            SendAttempt::SerializeFailed(why) => r matches Err(NetworkErrors::SerdeError(w)) && w
                == why,
            SendAttempt::SendFailed => r matches Err(NetworkErrors::SendControlFailed),
            SendAttempt::Sent => r is Ok,
        },
{
    match attempt {
        SendAttempt::NotConnected => Err(NetworkErrors::ConnectionIsNotOpened),
        SendAttempt::SerializeFailed(why) => Err(NetworkErrors::SerdeError(why)),
        SendAttempt::SendFailed => Err(NetworkErrors::SendControlFailed),
        SendAttempt::Sent => Ok(()),
    }
}

} // verus!

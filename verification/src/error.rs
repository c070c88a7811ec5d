//! Why an exchange with a time server can fail.

use vstd::prelude::*;

verus! {

/// Which way a datagram of the wrong size was travelling.
#[derive(Clone, Copy, Debug, PartialEq, Eq)]
pub enum Direction {
    /// The transport wrote another number of octets than the request has.
    Sent,
    /// The transport delivered another number of octets than a reply has.
    Received,
}

/// A violation of the protocol, found by looking at one datagram alone.
#[derive(Clone, Copy, Debug, PartialEq, Eq)]
pub enum ProtocolError {
    /// The datagram does not have the size of an SNTP packet: it was cut
    /// short, is too long, or is no SNTP traffic at all.
    SizeMismatch(Direction),
    /// The reply carries another version number than this client speaks.
    VersionMismatch,
    /// The reply's mode is neither server nor broadcast: the datagram is not a
    /// server's answer, for instance a client request that came back.
    WrongMessageType,
}

/// The failure of one exchange. `E` is the error type of the transport, which
/// the library hands through untouched.
#[derive(Debug, PartialEq, Eq)]
pub enum SntpError<E> {
    /// Sending or receiving failed or timed out.
    Transport(E),
    /// A datagram went through but breaks the protocol.
    Protocol(ProtocolError),
}

impl ProtocolError {
    /// The text that describes each violation.
    pub open spec fn message_text(self) -> Seq<char> {
        match self {
            ProtocolError::SizeMismatch(Direction::Sent) => "Invalid SNTP packet size sent"@,
            ProtocolError::SizeMismatch(Direction::Received) => "Invalid SNTP packet size received"@,
            ProtocolError::VersionMismatch => "Server returned wrong SNTP version"@,
            ProtocolError::WrongMessageType => "Not a SNTP server reply"@,
        }
    }

    /// A short description of the violation, for the caller to show or log.
    pub fn message(&self) -> (text: &'static str)
        ensures
            text@ == self.message_text(),
    {
        match self {
            ProtocolError::SizeMismatch(Direction::Sent) => "Invalid SNTP packet size sent",
            ProtocolError::SizeMismatch(Direction::Received) => "Invalid SNTP packet size received",
            ProtocolError::VersionMismatch => "Server returned wrong SNTP version",
            ProtocolError::WrongMessageType => "Not a SNTP server reply",
        }
    }

    /// Whether the violation is a datagram of the wrong size, as opposed to a
    /// well-sized datagram with unacceptable content.
    pub fn is_size_mismatch(&self) -> (yes: bool)
        ensures
            yes == (*self is SizeMismatch),
    {
        match self {
            ProtocolError::SizeMismatch(_) => true,
            _ => false,
        }
    }
}

} // verus!

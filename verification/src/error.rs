//! The failures that the protocol reports.

use vstd::prelude::*;
use vstd::string::StringExecFns;

verus! {

/// Why a round trip to the server produced no response.
#[derive(Clone, Copy, Debug, PartialEq, Eq, Structural)]
pub enum NetworkFailure {
    /// The request took longer than the timeout it was sent with.
    Timeout,
    /// The connection could not be made or broke down.
    Connection,
}

/// In which way the exchange left the protocol.
#[derive(Clone, Copy, Debug, PartialEq, Eq, Structural)]
pub enum ProtocolViolation {
    /// The server's nonce is not exactly twelve bytes long.
    NonceSize,
    /// The payload is longer than the cipher can seal under one nonce.
    PayloadSize,
}

/// Every way in which a registration or a request can fail.
#[derive(Clone, Debug, PartialEq, Eq)]
pub enum Error {
    /// The proxy address or the address of the server cannot be built.
    Config,
    /// A key file is missing or cannot be read.
    Io,
    /// The file of the server's public key does not hold exactly 32 bytes.
    CorruptKey,
    /// A client identifier is already stored, so the device is registered.
    AlreadyRegistered,
    /// The server answered with a status outside of 200 to 299.
    Server { status: u16, body: Vec<u8> },
    /// No response arrived.
    Network(NetworkFailure),
    /// The exchange did not follow the protocol.
    Protocol(ProtocolViolation),
    /// The response does not carry a valid authentication tag.
    Integrity,
    /// A message body cannot be decoded.
    Decode,
}

/// An [`Error`] with its bytes as a sequence.
pub ghost enum ErrorView {
    Config,
    Io,
    CorruptKey,
    AlreadyRegistered,
    Server { status: u16, body: Seq<u8> },
    Network(NetworkFailure),
    Protocol(ProtocolViolation),
    Integrity,
    Decode,
}

impl View for Error {
    type V = ErrorView;

    open spec fn view(&self) -> ErrorView {
        match *self {
            Error::Config => ErrorView::Config,
            Error::Io => ErrorView::Io,
            Error::CorruptKey => ErrorView::CorruptKey,
            Error::AlreadyRegistered => ErrorView::AlreadyRegistered,
            Error::Server { status, body } => ErrorView::Server { status, body: body@ },
            Error::Network(failure) => ErrorView::Network(failure),
            Error::Protocol(violation) => ErrorView::Protocol(violation),
            Error::Integrity => ErrorView::Integrity,
            Error::Decode => ErrorView::Decode,
        }
    }
}

/// The view of an optional value: the view of what it holds, if anything.
pub open spec fn option_view<T: View>(o: Option<T>) -> Option<T::V> {
    match o {
        Some(value) => Some(value@),
        None => None,
    }
}

/// The view of a result: the view of what it holds on either side.
pub open spec fn result_view<T: View, E: View>(r: Result<T, E>) -> Result<T::V, E::V> {
    match r {
        Ok(value) => Ok(value@),
        Err(error) => Err(error@),
    }
}

impl ErrorView {
    /// What went wrong, in words.
    pub open spec fn message(self) -> Seq<char> {
        match self {
            ErrorView::Config => "could not build the address of the proxy or of the server"@,
            ErrorView::Io => "could not read a key file"@,
            ErrorView::CorruptKey => "server public key file has wrong size, it might be corrupt"@,
            ErrorView::AlreadyRegistered => "client is already registered"@,
            ErrorView::Server { .. } => "the server refused the request"@,
            ErrorView::Network(NetworkFailure::Timeout) => "the request timed out"@,
            ErrorView::Network(NetworkFailure::Connection) => "could not reach the server"@,
            ErrorView::Protocol(ProtocolViolation::NonceSize) => "invalid nonce size"@,
            ErrorView::Protocol(ProtocolViolation::PayloadSize) => {
                "payload is too large to encrypt"@
            },
            ErrorView::Integrity => "could not decrypt the message"@,
            ErrorView::Decode => "could not decode the message"@,
        }
    }
}

impl Error {
    /// What went wrong, in words. A server error carries the status and the
    /// body beside it.
    pub fn message(&self) -> (text: String)
        ensures
            text@ == self@.message(),
    {
        let text = match self {
            Error::Config => "could not build the address of the proxy or of the server",
            Error::Io => "could not read a key file",
            Error::CorruptKey => "server public key file has wrong size, it might be corrupt",
            Error::AlreadyRegistered => "client is already registered",
            Error::Server { .. } => "the server refused the request",
            Error::Network(NetworkFailure::Timeout) => "the request timed out",
            Error::Network(NetworkFailure::Connection) => "could not reach the server",
            Error::Protocol(ProtocolViolation::NonceSize) => "invalid nonce size",
            Error::Protocol(ProtocolViolation::PayloadSize) => "payload is too large to encrypt",
            Error::Integrity => "could not decrypt the message",
            Error::Decode => "could not decode the message",
        };
        String::from_str(text)
    }
}

} // verus!

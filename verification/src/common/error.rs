use vstd::prelude::*;

verus! {

/// Why a byte slice could not be decoded into a message.
#[derive(Debug, Clone, Copy, PartialEq, Eq)]
pub enum MessageParseError<'a> {
    /// The bytes are the beginning of a frame whose end has not arrived yet.
    Incomplete,
    /// A sweep was cut short; `remainder` holds the bytes at which decoding
    /// should start again.
    Truncated { remainder: Option<&'a [u8]> },
    /// The bytes break the layout of the frame their prefix announces.
    Invalid,
    /// The bytes start with no known frame prefix.
    UnknownMessageType,
}

/// The mathematical value of a [`MessageParseError`].
pub enum ParseFailure {
    Incomplete,
    Truncated { remainder: Option<Seq<u8>> },
    Invalid,
    UnknownMessageType,
}

impl<'a> View for MessageParseError<'a> {
    type V = ParseFailure;

    open spec fn view(&self) -> ParseFailure {
        match *self {
            MessageParseError::Incomplete => ParseFailure::Incomplete,
            MessageParseError::Truncated { remainder: Some(rest) } => ParseFailure::Truncated {
                remainder: Some(rest@),
            },
            MessageParseError::Truncated { remainder: None } => ParseFailure::Truncated {
                remainder: None,
            },
            MessageParseError::Invalid => ParseFailure::Invalid,
            MessageParseError::UnknownMessageType => ParseFailure::UnknownMessageType,
        }
    }
}

impl<'a> MessageParseError<'a> {
    /// The text that describes the failure.
    pub fn message(&self) -> (text: &'static str)
        ensures
            text@ == match self@ {
                ParseFailure::Incomplete => "Attempted to parse an incomplete message"@,
                ParseFailure::Truncated { .. } => "Attempted to parse a truncated message"@,
                ParseFailure::Invalid => "Attempted to parse an invalid message"@,
                ParseFailure::UnknownMessageType => "Attempted to parse an unknown message type"@,
            },
    {
        match self {
            MessageParseError::Incomplete => "Attempted to parse an incomplete message",
            MessageParseError::Truncated { .. } => "Attempted to parse a truncated message",
            MessageParseError::Invalid => "Attempted to parse an invalid message",
            MessageParseError::UnknownMessageType => "Attempted to parse an unknown message type",
        }
    }
}

/// Why an operation on a connected device did not succeed.
#[derive(Debug, Clone, PartialEq, Eq)]
pub enum Error {
    /// The caller asked for something the device cannot be set to. Nothing
    /// was sent.
    InvalidInput(String),
    /// The device is in no state to do what was asked. Nothing was sent.
    InvalidOperation(String),
    /// The device did not confirm the request within this many milliseconds.
    TimedOut(u64),
}

/// The mathematical value of an [`Error`].
pub enum Failure {
    InvalidInput(Seq<char>),
    InvalidOperation(Seq<char>),
    TimedOut(u64),
}

impl View for Error {
    type V = Failure;

    open spec fn view(&self) -> Failure {
        match self {
            Error::InvalidInput(text) => Failure::InvalidInput(text@),
            Error::InvalidOperation(text) => Failure::InvalidOperation(text@),
            Error::TimedOut(timeout_ms) => Failure::TimedOut(*timeout_ms),
        }
    }
}

impl Error {
    /// An `InvalidInput` with the given text.
    pub fn invalid_input(text: &str) -> (e: Error)
        ensures
            e@ == Failure::InvalidInput(text@),
    {
        Error::InvalidInput(String::from_str(text))
    }

    /// An `InvalidOperation` with the given text.
    pub fn invalid_operation(text: &str) -> (e: Error)
        ensures
            e@ == Failure::InvalidOperation(text@),
    {
        Error::InvalidOperation(String::from_str(text))
    }
}

/// Why no device could be reached through a port.
#[derive(Debug, Clone, Copy, PartialEq, Eq, Structural)]
pub enum ConnectionError {
    /// The port could not be opened.
    PortOpen,
    /// The port was opened, and the device did not send its configuration
    /// and setup frames in time.
    DeviceInfoTimeout,
    /// Reading from the port or writing to it failed.
    Io,
}

} // verus!

use vstd::prelude::*;

verus! {

/// The kind of error that can be produced while talking to the daemon.
#[derive(Debug, PartialEq, Eq)]
pub enum ErrorKind {
    /// The transport failed to connect, read or write, or a read came back short.
    Io,
    /// A frame header was short or could not be parsed.
    MalformedFrame,
    /// The response carried a message kind that the caller does not understand.
    UnexpectedMessageKind(u32),
    /// A payload did not have the expected shape.
    PayloadDecode,
    /// A payload could not be encoded, or its frame would not fit in a `u32` length.
    PayloadEncode,
    /// The daemon could not be reached, or the request could not be sent;
    /// the underlying error is kept.
    Connection(Box<ErrorKind>),
    /// `unsubscribe` named a listener that is not subscribed.
    ListenerNotFound,
}

/// The result of an operation of this library.
pub type Result<T> = core::result::Result<T, ErrorKind>;

} // verus!

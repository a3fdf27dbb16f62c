//! The kernel's errors.

use vstd::prelude::*;

use crate::msg_type::MsgType;

verus! {

/// Everything that can go wrong in the kernel's logic. Decode and dispatch
/// errors concern one message: an endpoint reports them and goes on with the
/// next message.
#[derive(Debug, Clone, PartialEq, Eq)]
pub enum KernelError {
    /// No frame of a message was the delimiter.
    MissingDelimiter,
    /// A message ended before all the frames that follow the delimiter.
    Truncated,
    /// A frame that must hold text is not valid UTF-8.
    NotText,
    /// A message-type tag that names no known type; the tag.
    UnrecognizedType(String),
    /// A content body that does not decode for its message type.
    ContentDecode(MsgType),
    /// A message without a header, so without a type to answer.
    MissingHeader,
    /// A request of a type that has no reply.
    Unhandled(MsgType),
    /// A reply or notification that could not be written as JSON text.
    Serialization,
    /// A connection configuration that is no JSON document.
    ConfigSyntax,
    /// A connection configuration field that is missing or of the wrong
    /// type; the field's name.
    ConfigField(String),
}

/// What an `KernelError` is, with texts as character sequences.
pub enum ErrorView {
    MissingDelimiter,
    Truncated,
    NotText,
    UnrecognizedType(Seq<char>),
    ContentDecode(MsgType),
    MissingHeader,
    Unhandled(MsgType),
    Serialization,
    ConfigSyntax,
    ConfigField(Seq<char>),
}

impl View for KernelError {
    type V = ErrorView;

    open spec fn view(&self) -> ErrorView {
        match self {
            KernelError::MissingDelimiter => ErrorView::MissingDelimiter,
            KernelError::Truncated => ErrorView::Truncated,
            KernelError::NotText => ErrorView::NotText,
            KernelError::UnrecognizedType(t) => ErrorView::UnrecognizedType(t@),
            KernelError::ContentDecode(t) => ErrorView::ContentDecode(*t),
            KernelError::MissingHeader => ErrorView::MissingHeader,
            KernelError::Unhandled(t) => ErrorView::Unhandled(*t),
            KernelError::Serialization => ErrorView::Serialization,
            KernelError::ConfigSyntax => ErrorView::ConfigSyntax,
            KernelError::ConfigField(f) => ErrorView::ConfigField(f@),
        }
    }
}

/// A result seen through the views of its two sides.
pub open spec fn viewed<T: View, E: View>(r: Result<T, E>) -> Result<T::V, E::V> {
    match r {
        Ok(t) => Ok(t@),
        Err(e) => Err(e@),
    }
}

} // verus!

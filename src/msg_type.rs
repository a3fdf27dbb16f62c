//! The closed set of message types, and their tags on the wire.

use vstd::prelude::*;

use crate::errors::KernelError;

verus! {

/// A message type, as a header's `msg_type` tag names it.
#[derive(Debug, Clone, Copy, PartialEq, Eq, Structural)]
pub enum MsgType {
    KernelInfoRequest,
    KernelInfoReply,
    CommOpenRequest,
    CommOpenReply,
}

/// The tag of each message type.
pub open spec fn tag_of(t: MsgType) -> Seq<char> {
    match t {
        MsgType::KernelInfoRequest => "kernel_info_request"@,
        MsgType::KernelInfoReply => "kernel_info_reply"@,
        MsgType::CommOpenRequest => "comm_open"@,
        MsgType::CommOpenReply => "comm_open_reply"@,
    }
}

/// The message type that a tag names, if any.
pub open spec fn type_of_tag(tag: Seq<char>) -> Option<MsgType> {
    if tag == tag_of(MsgType::KernelInfoRequest) {
        Some(MsgType::KernelInfoRequest)
    } else if tag == tag_of(MsgType::KernelInfoReply) {
        Some(MsgType::KernelInfoReply)
    } else if tag == tag_of(MsgType::CommOpenRequest) {
        Some(MsgType::CommOpenRequest)
    } else if tag == tag_of(MsgType::CommOpenReply) {
        Some(MsgType::CommOpenReply)
    } else {
        None
    }
}

/// Whether two texts are the same.
pub fn same_text(a: &str, b: &str) -> (r: bool)
    ensures
        r == (a@ == b@),
{
    a.to_owned() == b.to_owned()
}

impl MsgType {
    /// The tag that names this type on the wire.
    pub fn tag(&self) -> (r: &'static str)
        ensures
            r@ == tag_of(*self),
    {
        match self {
            MsgType::KernelInfoRequest => "kernel_info_request",
            MsgType::KernelInfoReply => "kernel_info_reply",
            MsgType::CommOpenRequest => "comm_open",
            MsgType::CommOpenReply => "comm_open_reply",
        }
    }

    /// The type that a tag names; a tag that names none is an error that
    /// carries the tag.
    pub fn from_tag(tag: &str) -> (r: Result<MsgType, KernelError>)
        ensures
            match type_of_tag(tag@) {
                Some(t) => r == Ok::<MsgType, KernelError>(t),
                None => r matches Err(KernelError::UnrecognizedType(s)) && s@ == tag@,
            },
    {
        if same_text(tag, "kernel_info_request") {
            Ok(MsgType::KernelInfoRequest)
        } else if same_text(tag, "kernel_info_reply") {
            Ok(MsgType::KernelInfoReply)
        } else if same_text(tag, "comm_open") {
            Ok(MsgType::CommOpenRequest)
        } else if same_text(tag, "comm_open_reply") {
            Ok(MsgType::CommOpenReply)
        } else {
            Err(KernelError::UnrecognizedType(tag.to_owned()))
        }
    }
}

/// No two message types share a tag, and each type's tag names it.
pub proof fn lemma_tags_name_their_types(t: MsgType)
    ensures
        type_of_tag(tag_of(t)) == Some(t),
{
    reveal_strlit("kernel_info_request");
    reveal_strlit("kernel_info_reply");
    reveal_strlit("comm_open");
    reveal_strlit("comm_open_reply");
    assert(tag_of(MsgType::KernelInfoRequest).len() == 19);
    assert(tag_of(MsgType::KernelInfoReply).len() == 17);
    assert(tag_of(MsgType::CommOpenRequest).len() == 9);
    assert(tag_of(MsgType::CommOpenReply).len() == 15);
}

} // verus!

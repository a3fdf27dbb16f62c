//! The typed message model: headers, contents decoded by message type, and
//! the reply that each request gets.

use vstd::prelude::*;

use crate::errors::{viewed, ErrorView, KernelError};
use crate::json::{member_text, parse_json, parsed_json, str_member, JsonView};
use crate::msg_type::{type_of_tag, MsgType};
use crate::reply::{default_kernel_info, kernel_info_of_json, KernelInfoReply, KernelInfoReplyView, Reply, ReplyView};

verus! {

/// A message header.
#[derive(Debug, PartialEq)]
pub struct Header {
    pub msg_id: String,
    pub username: String,
    pub session: String,
    pub msg_type: MsgType,
    pub version: String,
}

pub struct HeaderView {
    pub msg_id: Seq<char>,
    pub username: Seq<char>,
    pub session: Seq<char>,
    pub msg_type: MsgType,
    pub version: Seq<char>,
}

impl View for Header {
    type V = HeaderView;

    open spec fn view(&self) -> HeaderView {
        HeaderView {
            msg_id: self.msg_id@,
            username: self.username@,
            session: self.session@,
            msg_type: self.msg_type,
            version: self.version@,
        }
    }
}

/// The header that a JSON value holds. A value with the five string members
/// is a header; where its `msg_type` names no known type, that is an error
/// that carries the tag. A value without them holds no header.
pub open spec fn header_of_json(j: JsonView) -> Result<Option<HeaderView>, ErrorView> {
    match (
        str_member(j, "msg_id"@),
        str_member(j, "username"@),
        str_member(j, "session"@),
        str_member(j, "msg_type"@),
        str_member(j, "version"@),
    ) {
        (Some(msg_id), Some(username), Some(session), Some(tag), Some(version)) => match type_of_tag(tag) {
            Some(msg_type) => Ok(Some(HeaderView { msg_id, username, session, msg_type, version })),
            None => Err(ErrorView::UnrecognizedType(tag)),
        },
        _ => Ok(None),
    }
}

/// The header that a JSON text holds; a text that is no JSON holds none.
pub open spec fn header_of_text(text: Seq<char>) -> Result<Option<HeaderView>, ErrorView> {
    match parsed_json(text) {
        Some(j) => header_of_json(j),
        None => Ok(None),
    }
}

/// The parent header that a JSON text holds. It may be the header of a
/// message of a type this kernel does not know: such a header counts as none.
pub open spec fn parent_header_of_text(text: Seq<char>) -> Option<HeaderView> {
    match header_of_text(text) {
        Ok(h) => h,
        Err(_) => None,
    }
}

/// An optional header seen through its view.
pub open spec fn header_view(h: Option<Header>) -> Option<HeaderView> {
    match h {
        Some(h) => Some(h@),
        None => None,
    }
}

impl Header {
    /// The header that a JSON text holds: none where the text is no JSON or
    /// does not hold the header's members, and an error naming the tag where
    /// its message type is unknown.
    pub fn parse(text: &str) -> (r: Result<Option<Header>, KernelError>)
        ensures
            match r {
                Ok(h) => header_of_text(text@) == Ok::<_, ErrorView>(header_view(h)),
                Err(e) => header_of_text(text@) == Err::<Option<HeaderView>, _>(e@),
            },
    {
        let v = match parse_json(text) {
            Ok(v) => v,
            Err(_) => return Ok(None),
        };
        let msg_id = member_text(&v, "msg_id");
        let username = member_text(&v, "username");
        let session = member_text(&v, "session");
        let tag = member_text(&v, "msg_type");
        let version = member_text(&v, "version");
        match (msg_id, username, session, tag, version) {
            (Some(msg_id), Some(username), Some(session), Some(tag), Some(version)) => {
                match MsgType::from_tag(tag.as_str()) {
                    Ok(msg_type) => Ok(Some(Header { msg_id, username, session, msg_type, version })),
                    Err(e) => Err(e),
                }
            },
            _ => Ok(None),
        }
    }

    /// The parent header that a JSON text holds; one of an unknown message
    /// type counts as none.
    pub fn parse_parent(text: &str) -> (r: Option<Header>)
        ensures
            header_view(r) == parent_header_of_text(text@),
    {
        match Header::parse(text) {
            Ok(h) => h,
            Err(_) => None,
        }
    }
}

/// A message's metadata, kept as the text that came in.
#[derive(Debug, PartialEq)]
pub struct Metadata {
    pub text: String,
}

/// A message's content, by message type.
#[derive(Debug, PartialEq)]
pub enum Content {
    KernelInfoRequest,
    KernelInfoReply(KernelInfoReply),
    CommOpenRequest,
    CommOpenReply,
}

pub enum ContentView {
    KernelInfoRequest,
    KernelInfoReply(KernelInfoReplyView),
    CommOpenRequest,
    CommOpenReply,
}

impl View for Content {
    type V = ContentView;

    open spec fn view(&self) -> ContentView {
        match self {
            Content::KernelInfoRequest => ContentView::KernelInfoRequest,
            Content::KernelInfoReply(k) => ContentView::KernelInfoReply(k@),
            Content::CommOpenRequest => ContentView::CommOpenRequest,
            Content::CommOpenReply => ContentView::CommOpenReply,
        }
    }
}

/// The message type of each content.
pub open spec fn type_of_content(c: ContentView) -> MsgType {
    match c {
        ContentView::KernelInfoRequest => MsgType::KernelInfoRequest,
        ContentView::KernelInfoReply(_) => MsgType::KernelInfoReply,
        ContentView::CommOpenRequest => MsgType::CommOpenRequest,
        ContentView::CommOpenReply => MsgType::CommOpenReply,
    }
}

/// The content of a type that a JSON value holds. A request, and a comm
/// reply, has an object for body; a `kernel_info_reply` has the reply's
/// fields.
pub open spec fn content_of_json(t: MsgType, j: JsonView) -> Option<ContentView> {
    match t {
        MsgType::KernelInfoRequest => if j is Object {
            Some(ContentView::KernelInfoRequest)
        } else {
            None
        },
        MsgType::KernelInfoReply => match kernel_info_of_json(j) {
            Some(k) => Some(ContentView::KernelInfoReply(k)),
            None => None,
        },
        MsgType::CommOpenRequest => if j is Object {
            Some(ContentView::CommOpenRequest)
        } else {
            None
        },
        MsgType::CommOpenReply => if j is Object {
            Some(ContentView::CommOpenReply)
        } else {
            None
        },
    }
}

/// The content of a type that a JSON text holds.
pub open spec fn content_of_text(t: MsgType, text: Seq<char>) -> Option<ContentView> {
    match parsed_json(text) {
        Some(j) => content_of_json(t, j),
        None => None,
    }
}

/// Content decoded for a message type: an error names the type whose body
/// did not decode.
pub open spec fn decode_content(t: MsgType, text: Seq<char>) -> Result<ContentView, ErrorView> {
    match content_of_text(t, text) {
        Some(c) => Ok(c),
        None => Err(ErrorView::ContentDecode(t)),
    }
}

/// Content decoded for a message-type tag: a tag that names no type is an
/// error that carries it.
pub open spec fn dispatch_spec(tag: Seq<char>, text: Seq<char>) -> Result<ContentView, ErrorView> {
    match type_of_tag(tag) {
        Some(t) => decode_content(t, text),
        None => Err(ErrorView::UnrecognizedType(tag)),
    }
}

/// The content of a message with this header: none without a header, else
/// the content decoded for the header's type.
pub open spec fn content_for_header(header: Option<HeaderView>, text: Seq<char>) -> Result<
    Option<ContentView>,
    ErrorView,
> {
    match header {
        None => Ok(None),
        Some(h) => match decode_content(h.msg_type, text) {
            Ok(c) => Ok(Some(c)),
            Err(e) => Err(e),
        },
    }
}

/// The reply to a content: a `kernel_info_request` gets the canned
/// `kernel_info_reply`; no other content has a reply.
pub open spec fn reply_to(c: ContentView) -> Result<ReplyView, ErrorView> {
    match c {
        ContentView::KernelInfoRequest => Ok(ReplyView::KernelInfoReply(default_kernel_info())),
        _ => Err(ErrorView::Unhandled(type_of_content(c))),
    }
}

impl Content {
    /// The content of a message type that a JSON text holds.
    pub fn parse(t: MsgType, text: &str) -> (r: Result<Content, KernelError>)
        ensures
            viewed(r) == decode_content(t, text@),
    {
        let v = match parse_json(text) {
            Ok(v) => v,
            Err(_) => return Err(KernelError::ContentDecode(t)),
        };
        match t {
            MsgType::KernelInfoRequest => if v.is_object() {
                Ok(Content::KernelInfoRequest)
            } else {
                Err(KernelError::ContentDecode(t))
            },
            MsgType::KernelInfoReply => match KernelInfoReply::from_json(&v) {
                Some(k) => Ok(Content::KernelInfoReply(k)),
                None => Err(KernelError::ContentDecode(t)),
            },
            MsgType::CommOpenRequest => if v.is_object() {
                Ok(Content::CommOpenRequest)
            } else {
                Err(KernelError::ContentDecode(t))
            },
            MsgType::CommOpenReply => if v.is_object() {
                Ok(Content::CommOpenReply)
            } else {
                Err(KernelError::ContentDecode(t))
            },
        }
    }

    /// The message type of this content.
    pub fn msg_type(&self) -> (r: MsgType)
        ensures
            r == type_of_content(self@),
    {
        match self {
            Content::KernelInfoRequest => MsgType::KernelInfoRequest,
            Content::KernelInfoReply(_) => MsgType::KernelInfoReply,
            Content::CommOpenRequest => MsgType::CommOpenRequest,
            Content::CommOpenReply => MsgType::CommOpenReply,
        }
    }

    /// The reply content for this request.
    pub fn reply(&self) -> (r: Result<Content, KernelError>)
        ensures
            viewed(r) == match reply_to(self@) {
                Ok(ReplyView::KernelInfoReply(k)) => Ok(ContentView::KernelInfoReply(k)),
                Err(e) => Err(e),
            },
    {
        match self {
            Content::KernelInfoRequest => Ok(Content::KernelInfoReply(KernelInfoReply::default())),
            _ => Err(KernelError::Unhandled(self.msg_type())),
        }
    }
}

/// Decodes a content body by its message-type tag. Every tag of a known type
/// selects that type's decoding; any other tag is an error that names it.
pub fn dispatch(tag: &str, text: &str) -> (r: Result<Content, KernelError>)
    ensures
        viewed(r) == dispatch_spec(tag@, text@),
{
    match MsgType::from_tag(tag) {
        Ok(t) => Content::parse(t, text),
        Err(e) => Err(e),
    }
}

/// The content of a message with this header.
pub fn parse_content(header: &Option<Header>, text: &str) -> (r: Result<Option<Content>, KernelError>)
    ensures
        match r {
            Ok(c) => content_for_header(header_view(*header), text@) == Ok::<_, ErrorView>(
                match c {
                    Some(c) => Some(c@),
                    None => None,
                },
            ),
            Err(e) => content_for_header(header_view(*header), text@) == Err::<Option<ContentView>, _>(e@),
        },
{
    match header {
        Some(h) => match Content::parse(h.msg_type, text) {
            Ok(c) => Ok(Some(c)),
            Err(e) => Err(e),
        },
        None => Ok(None),
    }
}

/// Dispatch knows every message type by its tag, and fails on any other tag
/// with an error that names it.
pub proof fn lemma_dispatch_total(tag: Seq<char>, text: Seq<char>)
    ensures
        type_of_tag(tag) is Some ==> dispatch_spec(tag, text) == decode_content(type_of_tag(tag)->Some_0, text),
        type_of_tag(tag) is None ==> dispatch_spec(tag, text) == Err::<ContentView, _>(ErrorView::UnrecognizedType(tag)),
        forall|t: MsgType| dispatch_spec(#[trigger] crate::msg_type::tag_of(t), text) == decode_content(t, text),
{
    assert forall|t: MsgType| dispatch_spec(#[trigger] crate::msg_type::tag_of(t), text) == decode_content(t, text) by {
        crate::msg_type::lemma_tags_name_their_types(t);
    }
}

/// The bytes of each frame.
pub open spec fn frames_view(frames: Seq<Vec<u8>>) -> Seq<Seq<u8>> {
    frames.map_values(|f: Vec<u8>| f@)
}

/// One decoded message. The signature is carried as it came: it is not
/// checked against the connection key.
#[derive(Debug)]
pub struct Message {
    /// The routing frames that came before the delimiter, in order.
    pub identities: Vec<Vec<u8>>,
    pub signature: String,
    pub header: Option<Header>,
    pub parent_header: Option<Header>,
    pub metadata: Metadata,
    /// The content, decoded by the header's message type; none where there
    /// is no header.
    pub content: Option<Content>,
    /// The frames that followed the content.
    pub buffers: Vec<Vec<u8>>,
}

pub struct MessageView {
    pub identities: Seq<Seq<u8>>,
    pub signature: Seq<char>,
    pub header: Option<HeaderView>,
    pub parent_header: Option<HeaderView>,
    pub metadata: Seq<char>,
    pub content: Option<ContentView>,
    pub buffers: Seq<Seq<u8>>,
}

impl View for Message {
    type V = MessageView;

    open spec fn view(&self) -> MessageView {
        MessageView {
            identities: frames_view(self.identities@),
            signature: self.signature@,
            header: header_view(self.header),
            parent_header: header_view(self.parent_header),
            metadata: self.metadata.text@,
            content: match self.content {
                Some(c) => Some(c@),
                None => None,
            },
            buffers: frames_view(self.buffers@),
        }
    }
}

/// The reply to a message: that of its content; a message without content
/// has no header to answer by.
pub open spec fn message_reply(m: MessageView) -> Result<ReplyView, ErrorView> {
    match m.content {
        Some(c) => reply_to(c),
        None => Err(ErrorView::MissingHeader),
    }
}

/// The id of a message, to which the kernel's status notifications refer:
/// its header's `msg_id`, and empty without a header.
pub open spec fn message_id(m: MessageView) -> Seq<char> {
    match m.header {
        Some(h) => h.msg_id,
        None => Seq::empty(),
    }
}

impl Message {
    /// The reply that this message gets.
    pub fn reply(&self) -> (r: Result<Reply, KernelError>)
        ensures
            viewed(r) == message_reply(self@),
    {
        match &self.content {
            Some(Content::KernelInfoRequest) => Ok(Reply::KernelInfoReply(KernelInfoReply::default())),
            Some(c) => Err(KernelError::Unhandled(c.msg_type())),
            None => Err(KernelError::MissingHeader),
        }
    }

    /// The id to which status notifications about this message refer.
    pub fn id(&self) -> (r: String)
        ensures
            r@ == message_id(self@),
    {
        match &self.header {
            Some(h) => h.msg_id.clone(),
            None => String::new(),
        }
    }
}

} // verus!

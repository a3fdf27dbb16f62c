use jupyter_kernel::errors::KernelError;
use jupyter_kernel::message::{dispatch, parse_content, Content, Header};
use jupyter_kernel::msg_type::MsgType;
use jupyter_kernel::reply::KernelInfoReply;

#[test]
fn dispatch_rejects_unknown_tag() {
    assert_eq!(
        dispatch("bogus_type", "{}").unwrap_err(),
        KernelError::UnrecognizedType("bogus_type".to_string())
    );
    assert_eq!(dispatch("", "{}").unwrap_err(), KernelError::UnrecognizedType(String::new()));
}

#[test]
fn dispatch_knows_every_type() {
    assert_eq!(dispatch("kernel_info_request", "{}").unwrap(), Content::KernelInfoRequest);
    assert_eq!(dispatch("comm_open", "{\"comm_id\":\"1\"}").unwrap(), Content::CommOpenRequest);
    assert_eq!(dispatch("comm_open_reply", "{}").unwrap(), Content::CommOpenReply);
    let reply_text = serde_json::to_string(&KernelInfoReply::default().to_json()).unwrap();
    assert_eq!(
        dispatch("kernel_info_reply", &reply_text).unwrap(),
        Content::KernelInfoReply(KernelInfoReply::default())
    );
    for t in [MsgType::KernelInfoRequest, MsgType::KernelInfoReply, MsgType::CommOpenRequest, MsgType::CommOpenReply] {
        assert_eq!(MsgType::from_tag(t.tag()).unwrap(), t);
    }
}

#[test]
fn dispatch_fails_on_body_of_wrong_shape() {
    assert_eq!(
        dispatch("kernel_info_request", "3").unwrap_err(),
        KernelError::ContentDecode(MsgType::KernelInfoRequest)
    );
    assert_eq!(
        dispatch("comm_open", "{").unwrap_err(),
        KernelError::ContentDecode(MsgType::CommOpenRequest)
    );
    assert_eq!(
        dispatch("kernel_info_reply", "{\"banner\": \"x\"}").unwrap_err(),
        KernelError::ContentDecode(MsgType::KernelInfoReply)
    );
}

#[test]
fn content_needs_a_header() {
    assert_eq!(parse_content(&None, "{}").unwrap(), None);
    let h = Header::parse(
        "{\"msg_id\":\"a\",\"username\":\"u\",\"session\":\"s\",\"msg_type\":\"comm_open\",\"version\":\"5.3\",\"date\":\"x\"}",
    )
    .unwrap();
    assert_eq!(h.as_ref().unwrap().msg_type, MsgType::CommOpenRequest);
    assert_eq!(parse_content(&h, "{}").unwrap(), Some(Content::CommOpenRequest));
    assert_eq!(
        parse_content(&h, "null").unwrap_err(),
        KernelError::ContentDecode(MsgType::CommOpenRequest)
    );
}

#[test]
fn header_parse_rejects_what_is_not_a_header() {
    assert!(Header::parse("").unwrap().is_none());
    assert!(Header::parse("[]").unwrap().is_none());
    assert!(Header::parse(
        "{\"msg_id\":1,\"username\":\"u\",\"session\":\"s\",\"msg_type\":\"comm_open\",\"version\":\"5.3\"}"
    )
    .unwrap()
    .is_none());
}

#[test]
fn header_parse_names_an_unknown_type() {
    let text = "{\"msg_id\":\"a\",\"username\":\"u\",\"session\":\"s\",\"msg_type\":\"bogus_type\",\"version\":\"5.3\"}";
    assert_eq!(
        Header::parse(text).unwrap_err(),
        KernelError::UnrecognizedType("bogus_type".to_string())
    );
    assert!(Header::parse_parent(text).is_none());
}

#[test]
fn content_reply_answers_kernel_info_only() {
    assert_eq!(
        Content::KernelInfoRequest.reply().unwrap(),
        Content::KernelInfoReply(KernelInfoReply::default())
    );
    assert_eq!(
        Content::CommOpenRequest.reply().unwrap_err(),
        KernelError::Unhandled(MsgType::CommOpenRequest)
    );
    assert_eq!(
        Content::CommOpenReply.reply().unwrap_err(),
        KernelError::Unhandled(MsgType::CommOpenReply)
    );
    assert_eq!(
        Content::KernelInfoReply(KernelInfoReply::default()).reply().unwrap_err(),
        KernelError::Unhandled(MsgType::KernelInfoReply)
    );
}

#[test]
fn tags_are_the_wire_names() {
    assert_eq!(MsgType::KernelInfoRequest.tag(), "kernel_info_request");
    assert_eq!(MsgType::KernelInfoReply.tag(), "kernel_info_reply");
    assert_eq!(MsgType::CommOpenRequest.tag(), "comm_open");
    assert_eq!(MsgType::CommOpenReply.tag(), "comm_open_reply");
}

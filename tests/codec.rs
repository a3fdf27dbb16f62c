use jupyter_kernel::codec::{DecodeState, FrameDecoder};
use jupyter_kernel::errors::KernelError;
use jupyter_kernel::message::{Content, Message};
use jupyter_kernel::msg_type::MsgType;

fn header(id: &str, msg_type: &str) -> Vec<u8> {
    format!(
        "{{\"msg_id\":\"{}\",\"username\":\"user\",\"session\":\"s1\",\"msg_type\":\"{}\",\"version\":\"5.0\"}}",
        id, msg_type
    )
    .into_bytes()
}

fn envelope(identities: &[&[u8]], id: &str, msg_type: &str, content: &str) -> Vec<Vec<u8>> {
    let mut frames: Vec<Vec<u8>> = identities.iter().map(|f| f.to_vec()).collect();
    frames.push(b"<IDS|MSG>".to_vec());
    frames.push(b"abc123".to_vec());
    frames.push(header(id, msg_type));
    frames.push(b"{}".to_vec());
    frames.push(b"{}".to_vec());
    frames.push(content.as_bytes().to_vec());
    frames
}

fn check_decoded(identities: &[&[u8]]) {
    let frames = envelope(identities, "m-1", "kernel_info_request", "{}");
    let m = Message::from_frames(&frames).unwrap();
    let expected: Vec<Vec<u8>> = identities.iter().map(|f| f.to_vec()).collect();
    assert_eq!(m.identities, expected);
    assert_eq!(m.signature, "abc123");
    let h = m.header.as_ref().unwrap();
    assert_eq!(h.msg_id, "m-1");
    assert_eq!(h.username, "user");
    assert_eq!(h.session, "s1");
    assert_eq!(h.msg_type, MsgType::KernelInfoRequest);
    assert_eq!(h.version, "5.0");
    assert!(m.parent_header.is_none());
    assert_eq!(m.metadata.text, "{}");
    assert_eq!(m.content, Some(Content::KernelInfoRequest));
    assert!(m.buffers.is_empty());
}

#[test]
fn decodes_without_identity_frames() {
    check_decoded(&[]);
}

#[test]
fn decodes_with_one_identity_frame() {
    check_decoded(&[b"\x00k\x8b\x45\x67"]);
}

#[test]
fn decodes_with_many_identity_frames() {
    check_decoded(&[b"router-a", b"router-b", b"\x00\x01\x02", b""]);
}

#[test]
fn keeps_extra_buffers() {
    let mut frames = envelope(&[b"id"], "m-2", "kernel_info_request", "{}");
    frames.push(vec![1, 2, 3]);
    frames.push(vec![]);
    let m = Message::from_frames(&frames).unwrap();
    assert_eq!(m.buffers, vec![vec![1u8, 2, 3], vec![]]);
}

#[test]
fn parent_header_is_decoded() {
    let mut frames = envelope(&[b"id"], "m-3", "kernel_info_request", "{}");
    frames[4] = header("parent-9", "kernel_info_reply");
    let m = Message::from_frames(&frames).unwrap();
    let p = m.parent_header.unwrap();
    assert_eq!(p.msg_id, "parent-9");
    assert_eq!(p.msg_type, MsgType::KernelInfoReply);
}

#[test]
fn missing_delimiter_fails() {
    let frames: Vec<Vec<u8>> = vec![
        b"id".to_vec(),
        b"sig".to_vec(),
        header("m", "kernel_info_request"),
        b"{}".to_vec(),
        b"{}".to_vec(),
        b"{}".to_vec(),
    ];
    assert_eq!(Message::from_frames(&frames).unwrap_err(), KernelError::MissingDelimiter);
}

#[test]
fn wrong_delimiter_value_fails() {
    let mut frames = envelope(&[b"id"], "m", "kernel_info_request", "{}");
    frames[1] = b"<IDS|MSX>".to_vec();
    assert_eq!(Message::from_frames(&frames).unwrap_err(), KernelError::MissingDelimiter);
    frames[1] = b"<IDS|MSG> ".to_vec();
    assert_eq!(Message::from_frames(&frames).unwrap_err(), KernelError::MissingDelimiter);
}

#[test]
fn no_frames_fail() {
    let frames: Vec<Vec<u8>> = Vec::new();
    assert_eq!(Message::from_frames(&frames).unwrap_err(), KernelError::MissingDelimiter);
}

#[test]
fn truncated_envelope_fails() {
    let mut frames = envelope(&[b"id"], "m", "kernel_info_request", "{}");
    frames.pop();
    assert_eq!(Message::from_frames(&frames).unwrap_err(), KernelError::Truncated);
    let frames: Vec<Vec<u8>> = vec![b"<IDS|MSG>".to_vec()];
    assert_eq!(Message::from_frames(&frames).unwrap_err(), KernelError::Truncated);
}

#[test]
fn non_text_frame_fails() {
    let mut frames = envelope(&[b"id"], "m", "kernel_info_request", "{}");
    frames[2] = vec![0xff, 0xfe];
    assert_eq!(Message::from_frames(&frames).unwrap_err(), KernelError::NotText);
    let mut frames = envelope(&[b"id"], "m", "kernel_info_request", "{}");
    frames[5] = vec![0xc3, 0x28];
    assert_eq!(Message::from_frames(&frames).unwrap_err(), KernelError::NotText);
}

#[test]
fn identity_frames_need_not_be_text() {
    let frames = envelope(&[&[0xff, 0x00, 0x80]], "m", "kernel_info_request", "{}");
    let m = Message::from_frames(&frames).unwrap();
    assert_eq!(m.identities, vec![vec![0xffu8, 0x00, 0x80]]);
}

#[test]
fn unparseable_header_gives_no_header_and_no_content() {
    let mut frames = envelope(&[b"id"], "m", "kernel_info_request", "not json at all");
    frames[3] = b"{\"msg_id\": 3}".to_vec();
    let m = Message::from_frames(&frames).unwrap();
    assert!(m.header.is_none());
    assert!(m.content.is_none());
    assert_eq!(m.reply().unwrap_err(), KernelError::MissingHeader);
}

#[test]
fn unknown_type_in_header_is_named() {
    let frames = envelope(&[b"id"], "m", "bogus_type", "{}");
    assert_eq!(
        Message::from_frames(&frames).unwrap_err(),
        KernelError::UnrecognizedType("bogus_type".to_string())
    );
}

#[test]
fn unknown_type_in_parent_header_gives_no_parent() {
    let mut frames = envelope(&[b"id"], "m", "kernel_info_request", "{}");
    frames[4] = header("p", "execute_request");
    let m = Message::from_frames(&frames).unwrap();
    assert!(m.parent_header.is_none());
    assert_eq!(m.content, Some(Content::KernelInfoRequest));
}

#[test]
fn content_that_does_not_decode_fails() {
    let frames = envelope(&[b"id"], "m", "kernel_info_request", "[1, 2]");
    assert_eq!(
        Message::from_frames(&frames).unwrap_err(),
        KernelError::ContentDecode(MsgType::KernelInfoRequest)
    );
    let frames = envelope(&[b"id"], "m", "kernel_info_reply", "{}");
    assert_eq!(
        Message::from_frames(&frames).unwrap_err(),
        KernelError::ContentDecode(MsgType::KernelInfoReply)
    );
}

#[test]
fn decoder_walks_its_states_and_starts_over() {
    let frames = envelope(&[b"a", b"b"], "m-7", "comm_open", "{\"comm_id\": \"x\"}");
    let mut d = FrameDecoder::new();
    let expected = [
        DecodeState::Start,
        DecodeState::Start,
        DecodeState::Start,
        DecodeState::GetSignature,
        DecodeState::GetHeader,
        DecodeState::GetParentHeader,
        DecodeState::GetMetadata,
        DecodeState::GetContent,
        DecodeState::Finish,
    ];
    assert_eq!(d.state(), DecodeState::Start);
    for (i, f) in frames.iter().enumerate() {
        d.feed(f.clone());
        assert_eq!(d.state(), expected[i + 1]);
    }
    let m = d.finish().unwrap();
    assert_eq!(m.content, Some(Content::CommOpenRequest));
    assert_eq!(m.identities, vec![b"a".to_vec(), b"b".to_vec()]);
    assert_eq!(d.state(), DecodeState::Start);
    for f in frames.iter() {
        d.feed(f.clone());
    }
    assert_eq!(d.finish().unwrap().header.unwrap().msg_id, "m-7");
}

#[test]
fn decoder_reports_a_message_that_ends_early() {
    let mut d = FrameDecoder::new();
    d.feed(b"id".to_vec());
    assert_eq!(d.finish().unwrap_err(), KernelError::MissingDelimiter);
    d.feed(b"<IDS|MSG>".to_vec());
    d.feed(b"sig".to_vec());
    assert_eq!(d.finish().unwrap_err(), KernelError::Truncated);
    assert_eq!(d.state(), DecodeState::Start);
}

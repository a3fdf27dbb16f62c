use jupyter_kernel::message::Message;
use jupyter_kernel::reply::{HelpLinks, KernelInfoReply, LanguageInfo, Reply};

fn custom_reply() -> KernelInfoReply {
    KernelInfoReply {
        protocol_version: "5.3".to_string(),
        implementation: "evcxr \"quoted\"".to_string(),
        implementation_version: "9.9.9".to_string(),
        language_info: LanguageInfo {
            name: "rust".to_string(),
            version: "1.80".to_string(),
            mimetype: "text/rust".to_string(),
            file_extension: ".rs".to_string(),
            pygments_lexer: "rust".to_string(),
            codemirror_mode: "rust".to_string(),
            nbconvert_exporter: "script".to_string(),
        },
        banner: "line one\nline two ✓".to_string(),
        help_links: vec![
            HelpLinks { text: "Book".to_string(), url: "https://doc.rust-lang.org/book".to_string() },
            HelpLinks::from("https://docs.rs"),
        ],
    }
}

#[test]
fn default_kernel_info_values() {
    let k = KernelInfoReply::default();
    assert_eq!(k.protocol_version, "5.1");
    assert_eq!(k.implementation, "rust");
    assert_eq!(k.implementation_version, "0.1.0");
    assert_eq!(k.banner, "Welcome to rust!");
    assert_eq!(k.language_info, LanguageInfo::default());
    assert_eq!(k.language_info.name, "rust");
    assert_eq!(k.language_info.version, "1.14.0-nightly");
    assert_eq!(k.language_info.mimetype, "application/rust");
    assert_eq!(k.language_info.file_extension, "rs");
    assert_eq!(k.language_info.pygments_lexer, "rust");
    assert_eq!(k.language_info.codemirror_mode, "rust");
    assert_eq!(k.language_info.nbconvert_exporter, "");
    assert_eq!(k.help_links, vec![HelpLinks::from("https://doc.rust-lang.org")]);
    assert_eq!(k.help_links[0].text, "https://doc.rust-lang.org");
    assert_eq!(k.help_links[0].url, "https://doc.rust-lang.org");
}

#[test]
fn kernel_info_json_has_documented_fields() {
    let v = Reply::KernelInfoReply(KernelInfoReply::default()).to_json();
    assert_eq!(v["status"], "ok");
    assert_eq!(v["protocol_version"], "5.1");
    assert_eq!(v["implementation"], "rust");
    assert_eq!(v["implementation_version"], "0.1.0");
    assert_eq!(v["banner"], "Welcome to rust!");
    assert_eq!(v["language_info"]["name"], "rust");
    assert_eq!(v["language_info"]["version"], "1.14.0-nightly");
    assert_eq!(v["language_info"]["mimetype"], "application/rust");
    assert_eq!(v["language_info"]["file_extension"], "rs");
    assert_eq!(v["language_info"]["pygments_lexer"], "rust");
    assert_eq!(v["language_info"]["codemirror_mode"], "rust");
    assert_eq!(v["language_info"]["nbconvert_exporter"], "");
    assert_eq!(v["help_links"].as_array().unwrap().len(), 1);
    assert_eq!(v["help_links"][0]["text"], "https://doc.rust-lang.org");
    assert_eq!(v["help_links"][0]["url"], "https://doc.rust-lang.org");
    assert_eq!(v.as_object().unwrap().len(), 7);
}

#[test]
fn reply_round_trips_through_json_value() {
    let k = custom_reply();
    let v = k.to_json();
    assert_eq!(KernelInfoReply::from_json(&v), Some(custom_reply()));
    let d = Reply::KernelInfoReply(KernelInfoReply::default()).to_json();
    assert_eq!(KernelInfoReply::from_json(&d), Some(KernelInfoReply::default()));
}

#[test]
fn reply_round_trips_through_json_text() {
    let text = serde_json::to_string(&custom_reply().to_json()).unwrap();
    let v: serde_json::Value = serde_json::from_str(&text).unwrap();
    assert_eq!(KernelInfoReply::from_json(&v), Some(custom_reply()));
}

#[test]
fn reply_round_trips_with_no_help_links() {
    let mut k = custom_reply();
    k.help_links.clear();
    let v = k.to_json();
    let back = KernelInfoReply::from_json(&v).unwrap();
    assert!(back.help_links.is_empty());
    assert_eq!(back.banner, "line one\nline two ✓");
}

#[test]
fn reading_a_reply_needs_every_field() {
    let mut v = custom_reply().to_json();
    v.as_object_mut().unwrap().remove("banner");
    assert_eq!(KernelInfoReply::from_json(&v), None);
    let mut v = custom_reply().to_json();
    v["language_info"].as_object_mut().unwrap().remove("mimetype");
    assert_eq!(KernelInfoReply::from_json(&v), None);
    let mut v = custom_reply().to_json();
    v["help_links"][1]["url"] = serde_json::Value::from(3);
    assert_eq!(KernelInfoReply::from_json(&v), None);
    let mut v = custom_reply().to_json();
    v["help_links"] = serde_json::Value::from("none");
    assert_eq!(KernelInfoReply::from_json(&v), None);
}

#[test]
fn help_link_from_text() {
    let h = HelpLinks::from("https://example.org");
    assert_eq!(h.text, "https://example.org");
    assert_eq!(h.url, "https://example.org");
    let v = h.to_json();
    assert_eq!(v["text"], "https://example.org");
    assert_eq!(HelpLinks::from_json(&v), Some(h));
}

#[test]
fn message_reply_for_kernel_info_request() {
    let frames: Vec<Vec<u8>> = vec![
        b"id".to_vec(),
        b"<IDS|MSG>".to_vec(),
        b"".to_vec(),
        br#"{"msg_id":"x","username":"u","session":"s","msg_type":"kernel_info_request","version":"5.0"}"#.to_vec(),
        b"{}".to_vec(),
        b"{}".to_vec(),
        b"{}".to_vec(),
    ];
    let m = Message::from_frames(&frames).unwrap();
    assert_eq!(m.reply().unwrap(), Reply::KernelInfoReply(KernelInfoReply::default()));
}

//! The kernel's replies: their fields, their canned values and their JSON
//! form.

use vstd::prelude::*;

use crate::json::{
    json_array, json_member, json_object, json_of, json_string, member, member_text, str_member,
    JsonView,
};

verus! {

/// A help link offered by the kernel.
#[derive(Debug, PartialEq)]
pub struct HelpLinks {
    pub text: String,
    pub url: String,
}

pub struct HelpLinksView {
    pub text: Seq<char>,
    pub url: Seq<char>,
}

impl View for HelpLinks {
    type V = HelpLinksView;

    open spec fn view(&self) -> HelpLinksView {
        HelpLinksView { text: self.text@, url: self.url@ }
    }
}

/// What the kernel says of its language.
#[derive(Debug, PartialEq)]
pub struct LanguageInfo {
    pub name: String,
    pub version: String,
    pub mimetype: String,
    pub file_extension: String,
    pub pygments_lexer: String,
    pub codemirror_mode: String,
    pub nbconvert_exporter: String,
}

pub struct LanguageInfoView {
    pub name: Seq<char>,
    pub version: Seq<char>,
    pub mimetype: Seq<char>,
    pub file_extension: Seq<char>,
    pub pygments_lexer: Seq<char>,
    pub codemirror_mode: Seq<char>,
    pub nbconvert_exporter: Seq<char>,
}

impl View for LanguageInfo {
    type V = LanguageInfoView;

    open spec fn view(&self) -> LanguageInfoView {
        LanguageInfoView {
            name: self.name@,
            version: self.version@,
            mimetype: self.mimetype@,
            file_extension: self.file_extension@,
            pygments_lexer: self.pygments_lexer@,
            codemirror_mode: self.codemirror_mode@,
            nbconvert_exporter: self.nbconvert_exporter@,
        }
    }
}

/// The body of a `kernel_info_reply`.
#[derive(Debug, PartialEq)]
pub struct KernelInfoReply {
    pub protocol_version: String,
    pub implementation: String,
    pub implementation_version: String,
    pub language_info: LanguageInfo,
    pub banner: String,
    pub help_links: Vec<HelpLinks>,
}

pub struct KernelInfoReplyView {
    pub protocol_version: Seq<char>,
    pub implementation: Seq<char>,
    pub implementation_version: Seq<char>,
    pub language_info: LanguageInfoView,
    pub banner: Seq<char>,
    pub help_links: Seq<HelpLinksView>,
}

impl View for KernelInfoReply {
    type V = KernelInfoReplyView;

    open spec fn view(&self) -> KernelInfoReplyView {
        KernelInfoReplyView {
            protocol_version: self.protocol_version@,
            implementation: self.implementation@,
            implementation_version: self.implementation_version@,
            language_info: self.language_info@,
            banner: self.banner@,
            help_links: self.help_links@.map_values(|h: HelpLinks| h@),
        }
    }
}

/// A reply that the kernel sends for a request.
#[derive(Debug, PartialEq)]
pub enum Reply {
    KernelInfoReply(KernelInfoReply),
}

pub enum ReplyView {
    KernelInfoReply(KernelInfoReplyView),
}

impl View for Reply {
    type V = ReplyView;

    open spec fn view(&self) -> ReplyView {
        match self {
            Reply::KernelInfoReply(k) => ReplyView::KernelInfoReply(k@),
        }
    }
}

// The canned values.

/// The help link that the kernel offers.
pub open spec fn default_help_link() -> HelpLinksView {
    HelpLinksView { text: "https://doc.rust-lang.org"@, url: "https://doc.rust-lang.org"@ }
}

/// What the kernel says of its language.
pub open spec fn default_language_info() -> LanguageInfoView {
    LanguageInfoView {
        name: "rust"@,
        version: "1.14.0-nightly"@,
        mimetype: "application/rust"@,
        file_extension: "rs"@,
        pygments_lexer: "rust"@,
        codemirror_mode: "rust"@,
        nbconvert_exporter: ""@,
    }
}

/// The kernel's answer to a `kernel_info_request`.
pub open spec fn default_kernel_info() -> KernelInfoReplyView {
    KernelInfoReplyView {
        protocol_version: "5.1"@,
        implementation: "rust"@,
        implementation_version: "0.1.0"@,
        language_info: default_language_info(),
        banner: "Welcome to rust!"@,
        help_links: seq![default_help_link()],
    }
}

// The JSON form.

pub open spec fn link_json(h: HelpLinksView) -> JsonView {
    JsonView::Object(Map::empty().insert("text"@, JsonView::Str(h.text)).insert("url"@, JsonView::Str(h.url)))
}

pub open spec fn language_info_json(l: LanguageInfoView) -> JsonView {
    JsonView::Object(
        Map::empty()
            .insert("name"@, JsonView::Str(l.name))
            .insert("version"@, JsonView::Str(l.version))
            .insert("mimetype"@, JsonView::Str(l.mimetype))
            .insert("file_extension"@, JsonView::Str(l.file_extension))
            .insert("pygments_lexer"@, JsonView::Str(l.pygments_lexer))
            .insert("codemirror_mode"@, JsonView::Str(l.codemirror_mode))
            .insert("nbconvert_exporter"@, JsonView::Str(l.nbconvert_exporter)),
    )
}

/// The JSON body of a `kernel_info_reply`: the fields, with `status` set to
/// `ok`.
pub open spec fn kernel_info_json(k: KernelInfoReplyView) -> JsonView {
    JsonView::Object(
        Map::empty()
            .insert("status"@, JsonView::Str("ok"@))
            .insert("protocol_version"@, JsonView::Str(k.protocol_version))
            .insert("implementation"@, JsonView::Str(k.implementation))
            .insert("implementation_version"@, JsonView::Str(k.implementation_version))
            .insert("language_info"@, language_info_json(k.language_info))
            .insert("banner"@, JsonView::Str(k.banner))
            .insert("help_links"@, JsonView::Array(k.help_links.map_values(|h: HelpLinksView| link_json(h)))),
    )
}

pub open spec fn reply_json(r: ReplyView) -> JsonView {
    match r {
        ReplyView::KernelInfoReply(k) => kernel_info_json(k),
    }
}

// Reading the JSON form back.

pub open spec fn link_of_json(j: JsonView) -> Option<HelpLinksView> {
    match (str_member(j, "text"@), str_member(j, "url"@)) {
        (Some(text), Some(url)) => Some(HelpLinksView { text, url }),
        _ => None,
    }
}

/// The help links of an array whose items all read as help links.
pub open spec fn links_of_json(j: JsonView) -> Option<Seq<HelpLinksView>> {
    match j {
        JsonView::Array(items) => if forall|i: int| 0 <= i < items.len() ==> #[trigger] link_of_json(items[i]) is Some {
            Some(items.map_values(|x: JsonView| link_of_json(x)->Some_0))
        } else {
            None
        },
        _ => None,
    }
}

pub open spec fn language_info_of_json(j: JsonView) -> Option<LanguageInfoView> {
    if str_member(j, "name"@) is Some && str_member(j, "version"@) is Some && str_member(j, "mimetype"@) is Some
        && str_member(j, "file_extension"@) is Some && str_member(j, "pygments_lexer"@) is Some
        && str_member(j, "codemirror_mode"@) is Some && str_member(j, "nbconvert_exporter"@) is Some {
        Some(LanguageInfoView {
            name: str_member(j, "name"@)->Some_0,
            version: str_member(j, "version"@)->Some_0,
            mimetype: str_member(j, "mimetype"@)->Some_0,
            file_extension: str_member(j, "file_extension"@)->Some_0,
            pygments_lexer: str_member(j, "pygments_lexer"@)->Some_0,
            codemirror_mode: str_member(j, "codemirror_mode"@)->Some_0,
            nbconvert_exporter: str_member(j, "nbconvert_exporter"@)->Some_0,
        })
    } else {
        None
    }
}

/// The fields of a `kernel_info_reply` body, where all are present with the
/// right JSON types.
pub open spec fn kernel_info_of_json(j: JsonView) -> Option<KernelInfoReplyView> {
    match (member(j, "language_info"@), member(j, "help_links"@)) {
        (Some(l), Some(h)) => if str_member(j, "protocol_version"@) is Some && str_member(j, "implementation"@) is Some
            && str_member(j, "implementation_version"@) is Some && str_member(j, "banner"@) is Some
            && language_info_of_json(l) is Some && links_of_json(h) is Some {
            Some(KernelInfoReplyView {
                protocol_version: str_member(j, "protocol_version"@)->Some_0,
                implementation: str_member(j, "implementation"@)->Some_0,
                implementation_version: str_member(j, "implementation_version"@)->Some_0,
                language_info: language_info_of_json(l)->Some_0,
                banner: str_member(j, "banner"@)->Some_0,
                help_links: links_of_json(h)->Some_0,
            })
        } else {
            None
        },
        _ => None,
    }
}

// Building the values and their JSON form.

impl HelpLinks {
    /// A help link whose text is its address.
    pub fn from(s: &str) -> (r: HelpLinks)
        ensures
            r@ == (HelpLinksView { text: s@, url: s@ }),
    {
        HelpLinks { text: s.to_owned(), url: s.to_owned() }
    }

    pub fn to_json(&self) -> (r: serde_json::Value)
        ensures
            json_of(r) == link_json(self@),
    {
        let mut m = serde_json::Map::new();
        m.insert("text".to_owned(), json_string(self.text.clone()));
        m.insert("url".to_owned(), json_string(self.url.clone()));
        json_object(m)
    }

    /// The help link that a JSON object holds.
    pub fn from_json(v: &serde_json::Value) -> (r: Option<HelpLinks>)
        ensures
            match r {
                Some(h) => link_of_json(json_of(*v)) == Some(h@),
                None => link_of_json(json_of(*v)) is None,
            },
    {
        let text = member_text(v, "text");
        let url = member_text(v, "url");
        match (text, url) {
            (Some(text), Some(url)) => Some(HelpLinks { text, url }),
            _ => None,
        }
    }
}

impl Default for LanguageInfo {
    fn default() -> (r: LanguageInfo)
        ensures
            r@ == default_language_info(),
    {
        LanguageInfo {
            name: "rust".to_owned(),
            version: "1.14.0-nightly".to_owned(),
            mimetype: "application/rust".to_owned(),
            file_extension: "rs".to_owned(),
            pygments_lexer: "rust".to_owned(),
            codemirror_mode: "rust".to_owned(),
            nbconvert_exporter: "".to_owned(),
        }
    }
}

impl LanguageInfo {
    pub fn to_json(&self) -> (r: serde_json::Value)
        ensures
            json_of(r) == language_info_json(self@),
    {
        let mut m = serde_json::Map::new();
        m.insert("name".to_owned(), json_string(self.name.clone()));
        m.insert("version".to_owned(), json_string(self.version.clone()));
        m.insert("mimetype".to_owned(), json_string(self.mimetype.clone()));
        m.insert("file_extension".to_owned(), json_string(self.file_extension.clone()));
        m.insert("pygments_lexer".to_owned(), json_string(self.pygments_lexer.clone()));
        m.insert("codemirror_mode".to_owned(), json_string(self.codemirror_mode.clone()));
        m.insert("nbconvert_exporter".to_owned(), json_string(self.nbconvert_exporter.clone()));
        json_object(m)
    }

    /// The language description that a JSON object holds.
    pub fn from_json(v: &serde_json::Value) -> (r: Option<LanguageInfo>)
        ensures
            match r {
                Some(l) => language_info_of_json(json_of(*v)) == Some(l@),
                None => language_info_of_json(json_of(*v)) is None,
            },
    {
        let name = member_text(v, "name");
        let version = member_text(v, "version");
        let mimetype = member_text(v, "mimetype");
        let file_extension = member_text(v, "file_extension");
        let pygments_lexer = member_text(v, "pygments_lexer");
        let codemirror_mode = member_text(v, "codemirror_mode");
        let nbconvert_exporter = member_text(v, "nbconvert_exporter");
        match (name, version, mimetype, file_extension, pygments_lexer, codemirror_mode, nbconvert_exporter) {
            (
                Some(name),
                Some(version),
                Some(mimetype),
                Some(file_extension),
                Some(pygments_lexer),
                Some(codemirror_mode),
                Some(nbconvert_exporter),
            ) => Some(
                LanguageInfo {
                    name,
                    version,
                    mimetype,
                    file_extension,
                    pygments_lexer,
                    codemirror_mode,
                    nbconvert_exporter,
                },
            ),
            _ => None,
        }
    }
}

impl Default for KernelInfoReply {
    fn default() -> (r: KernelInfoReply)
        ensures
            r@ == default_kernel_info(),
    {
        let help_links = vec![HelpLinks::from("https://doc.rust-lang.org")];
        let r = KernelInfoReply {
            protocol_version: "5.1".to_owned(),
            implementation: "rust".to_owned(),
            implementation_version: "0.1.0".to_owned(),
            language_info: LanguageInfo::default(),
            banner: "Welcome to rust!".to_owned(),
            help_links,
        };
        assert(r@.help_links =~= default_kernel_info().help_links);
        r
    }
}

/// The links read from JSON items, all of which read as links.
proof fn lemma_links_read(items: Seq<JsonView>)
    requires
        forall|i: int| 0 <= i < items.len() ==> #[trigger] link_of_json(items[i]) is Some,
    ensures
        links_of_json(JsonView::Array(items)) == Some(items.map_values(|x: JsonView| link_of_json(x)->Some_0)),
{
}

impl KernelInfoReply {
    pub fn to_json(&self) -> (r: serde_json::Value)
        ensures
            json_of(r) == kernel_info_json(self@),
    {
        let mut links: Vec<serde_json::Value> = Vec::new();
        let mut i: usize = 0;
        while i < self.help_links.len()
            invariant
                i <= self.help_links@.len(),
                links@.len() == i,
                forall|k: int| 0 <= k < i ==> json_of(#[trigger] links@[k]) == link_json(self.help_links@[k]@),
            decreases self.help_links@.len() - i,
        {
            links.push(self.help_links[i].to_json());
            i = i + 1;
        }
        assert(links@.map_values(|x: serde_json::Value| json_of(x)) =~= self@.help_links.map_values(
            |h: HelpLinksView| link_json(h),
        ));
        let mut m = serde_json::Map::new();
        m.insert("status".to_owned(), json_string("ok".to_owned()));
        m.insert("protocol_version".to_owned(), json_string(self.protocol_version.clone()));
        m.insert("implementation".to_owned(), json_string(self.implementation.clone()));
        m.insert("implementation_version".to_owned(), json_string(self.implementation_version.clone()));
        m.insert("language_info".to_owned(), self.language_info.to_json());
        m.insert("banner".to_owned(), json_string(self.banner.clone()));
        m.insert("help_links".to_owned(), json_array(links));
        json_object(m)
    }

    /// The reply that a JSON object holds, where every field is present
    /// with the right JSON type.
    pub fn from_json(v: &serde_json::Value) -> (r: Option<KernelInfoReply>)
        ensures
            match r {
                Some(k) => kernel_info_of_json(json_of(*v)) == Some(k@),
                None => kernel_info_of_json(json_of(*v)) is None,
            },
    {
        let protocol_version = member_text(v, "protocol_version");
        let implementation = member_text(v, "implementation");
        let implementation_version = member_text(v, "implementation_version");
        let banner = member_text(v, "banner");
        let language_info = match json_member(v, "language_info") {
            Some(l) => LanguageInfo::from_json(l),
            None => None,
        };
        let help_links = match json_member(v, "help_links") {
            Some(h) => read_links(h),
            None => None,
        };
        match (protocol_version, implementation, implementation_version, banner, language_info, help_links) {
            (
                Some(protocol_version),
                Some(implementation),
                Some(implementation_version),
                Some(banner),
                Some(language_info),
                Some(help_links),
            ) => Some(
                KernelInfoReply {
                    protocol_version,
                    implementation,
                    implementation_version,
                    language_info,
                    banner,
                    help_links,
                },
            ),
            _ => None,
        }
    }
}

/// The help links of a JSON array whose items all read as help links.
fn read_links(v: &serde_json::Value) -> (r: Option<Vec<HelpLinks>>)
    ensures
        match r {
            Some(links) => links_of_json(json_of(*v)) == Some(links@.map_values(|h: HelpLinks| h@)),
            None => links_of_json(json_of(*v)) is None,
        },
{
    let items = match v.as_array() {
        Some(items) => items,
        None => return None,
    };
    let ghost js = items@.map_values(|x: serde_json::Value| json_of(x));
    let mut links: Vec<HelpLinks> = Vec::new();
    let mut i: usize = 0;
    while i < items.len()
        invariant
            i <= items@.len(),
            js == items@.map_values(|x: serde_json::Value| json_of(x)),
            json_of(*v) == JsonView::Array(js),
            links@.len() == i,
            forall|k: int| 0 <= k < i ==> link_of_json(#[trigger] js[k]) == Some(links@[k]@),
        decreases items@.len() - i,
    {
        match HelpLinks::from_json(&items[i]) {
            Some(h) => links.push(h),
            None => {
                assert(link_of_json(js[i as int]) is None);
                return None;
            },
        }
        i = i + 1;
    }
    proof {
        lemma_links_read(js);
        assert(links@.map_values(|h: HelpLinks| h@) =~= js.map_values(|x: JsonView| link_of_json(x)->Some_0));
    }
    Some(links)
}

impl Reply {
    /// The reply's JSON body.
    pub fn to_json(self) -> (r: serde_json::Value)
        ensures
            json_of(r) == reply_json(self@),
    {
        match self {
            Reply::KernelInfoReply(k) => k.to_json(),
        }
    }
}

// Laws.

/// A help link written as JSON reads back as the same link.
pub proof fn lemma_link_round_trip(h: HelpLinksView)
    ensures
        link_of_json(link_json(h)) == Some(h),
{
    reveal_strlit("text");
    reveal_strlit("url");
    assert("text"@.len() != "url"@.len());
}

/// A language description written as JSON reads back unchanged.
pub proof fn lemma_language_info_round_trip(l: LanguageInfoView)
    ensures
        language_info_of_json(language_info_json(l)) == Some(l),
{
    reveal_strlit("name");
    reveal_strlit("version");
    reveal_strlit("mimetype");
    reveal_strlit("file_extension");
    reveal_strlit("pygments_lexer");
    reveal_strlit("codemirror_mode");
    reveal_strlit("nbconvert_exporter");
    assert("file_extension"@[0] != "pygments_lexer"@[0]);
    assert("name"@.len() == 4);
    assert("version"@.len() == 7);
    assert("mimetype"@.len() == 8);
    assert("file_extension"@.len() == 14);
    assert("pygments_lexer"@.len() == 14);
    assert("codemirror_mode"@.len() == 15);
    assert("nbconvert_exporter"@.len() == 18);
}

/// A `kernel_info_reply` written as JSON and read back gives every field
/// unchanged: protocol version, implementation and its version, each field
/// of the language description, banner, and each help link.
pub proof fn lemma_kernel_info_round_trip(k: KernelInfoReplyView)
    ensures
        kernel_info_of_json(kernel_info_json(k)) == Some(k),
{
    reveal_strlit("status");
    reveal_strlit("protocol_version");
    reveal_strlit("implementation");
    reveal_strlit("implementation_version");
    reveal_strlit("language_info");
    reveal_strlit("banner");
    reveal_strlit("help_links");
    assert("status"@[0] != "banner"@[0]);
    assert("status"@.len() == 6);
    assert("protocol_version"@.len() == 16);
    assert("implementation"@.len() == 14);
    assert("implementation_version"@.len() == 22);
    assert("language_info"@.len() == 13);
    assert("banner"@.len() == 6);
    assert("help_links"@.len() == 10);
    lemma_language_info_round_trip(k.language_info);
    let items = k.help_links.map_values(|h: HelpLinksView| link_json(h));
    assert forall|i: int| 0 <= i < items.len() implies #[trigger] link_of_json(items[i]) == Some(k.help_links[i]) by {
        lemma_link_round_trip(k.help_links[i]);
    }
    assert(items.map_values(|x: JsonView| link_of_json(x)->Some_0) =~= k.help_links);
}

/// A reply written as JSON and read back as the content of its message
/// type gives the same reply.
pub proof fn lemma_reply_round_trip(r: ReplyView)
    ensures
        r matches ReplyView::KernelInfoReply(k) && kernel_info_of_json(reply_json(r)) == Some(k),
{
    match r {
        ReplyView::KernelInfoReply(k) => lemma_kernel_info_round_trip(k),
    }
}

} // verus!

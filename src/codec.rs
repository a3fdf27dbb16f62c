//! The envelope codec: one logical message from the frames of a routed
//! socket.
//!
//! A message is `[identity]* <IDS|MSG> signature header parent_header
//! metadata content [buffer]*`. The decoder is a state machine that takes the
//! frames one at a time: it gathers routing frames until the delimiter, then
//! stores one frame per role, then gathers the extra buffers; when the message
//! ends it checks what it holds and yields the message or an error, and starts
//! over.

use vstd::prelude::*;
use vstd::utf8::{decode_utf8, valid_utf8};

use crate::errors::{viewed, ErrorView, KernelError};
use crate::message::{
    content_for_header, frames_view, header_of_text, parent_header_of_text, parse_content, Header,
    Message, MessageView,
    Metadata,
};

verus! {

/// The bytes of the delimiter frame, `<IDS|MSG>`.
pub open spec fn delimiter() -> Seq<u8> {
    seq![60u8, 73u8, 68u8, 83u8, 124u8, 77u8, 83u8, 71u8, 62u8]
}

pub open spec fn no_delimiter(frames: Seq<Seq<u8>>) -> bool {
    forall|j: int| 0 <= j < frames.len() ==> #[trigger] frames[j] != delimiter()
}

/// The first delimiter of the frames stands at `d`.
pub open spec fn first_delimiter_at(frames: Seq<Seq<u8>>, d: int) -> bool {
    &&& 0 <= d < frames.len()
    &&& frames[d] == delimiter()
    &&& forall|j: int| 0 <= j < d ==> #[trigger] frames[j] != delimiter()
}

/// The text that a frame holds, where it is valid UTF-8.
pub open spec fn frame_text(b: Seq<u8>) -> Option<Seq<char>> {
    if valid_utf8(b) {
        Some(decode_utf8(b))
    } else {
        None
    }
}

/// The message made of these routing frames and of the frames that follow
/// the delimiter. A header of an unknown message type fails the message with
/// an error that names the tag; a header frame that holds no header leaves
/// the message without header and content.
pub open spec fn decode_parts(identities: Seq<Seq<u8>>, rest: Seq<Seq<u8>>) -> Result<MessageView, ErrorView> {
    if rest.len() < 5 {
        Err(ErrorView::Truncated)
    } else {
        match (frame_text(rest[0]), frame_text(rest[1]), frame_text(rest[2]), frame_text(rest[3]), frame_text(rest[4])) {
            (Some(signature), Some(header), Some(parent_header), Some(metadata), Some(content)) => {
                match header_of_text(header) {
                    Err(e) => Err(e),
                    Ok(header) => match content_for_header(header, content) {
                        Ok(content) => Ok(
                            MessageView {
                                identities,
                                signature,
                                header,
                                parent_header: parent_header_of_text(parent_header),
                                metadata,
                                content,
                                buffers: rest.skip(5),
                            },
                        ),
                        Err(e) => Err(e),
                    },
                }
            },
            _ => Err(ErrorView::NotText),
        }
    }
}

/// The message that the frames of one logical message make: everything
/// before the first delimiter is routing frames, whatever their number.
pub open spec fn decode_spec(frames: Seq<Seq<u8>>) -> Result<MessageView, ErrorView> {
    if exists|d: int| first_delimiter_at(frames, d) {
        let d = choose|d: int| first_delimiter_at(frames, d);
        decode_parts(frames.take(d), frames.skip(d + 1))
    } else {
        Err(ErrorView::MissingDelimiter)
    }
}

/// Relies on `std::str::from_utf8`: the text of bytes that are valid UTF-8.
#[verifier::external_body]
pub(crate) fn text_of(b: &[u8]) -> (r: Option<&str>)
    ensures
        match r {
            Some(s) => valid_utf8(b@) && s@ == decode_utf8(b@),
            None => !valid_utf8(b@),
        },
{
    std::str::from_utf8(b).ok()
}

/// Whether a frame is the delimiter.
pub fn is_delimiter(frame: &[u8]) -> (r: bool)
    ensures
        r == (frame@ == delimiter()),
{
    let r = frame.len() == 9 && frame[0] == 60 && frame[1] == 73 && frame[2] == 68 && frame[3] == 83
        && frame[4] == 124 && frame[5] == 77 && frame[6] == 83 && frame[7] == 71 && frame[8] == 62;
    assert(r ==> frame@ =~= delimiter());
    r
}

/// Where the decoder stands in a message.
#[derive(Debug, Clone, Copy, PartialEq, Eq, Structural)]
pub enum DecodeState {
    /// Gathering routing frames until the delimiter.
    Start,
    GetSignature,
    GetHeader,
    GetParentHeader,
    GetMetadata,
    GetContent,
    /// All the roles are filled; further frames are extra buffers.
    Finish,
}

/// The state after `k` frames past the delimiter.
pub open spec fn state_after(k: int) -> DecodeState {
    if k == 0 {
        DecodeState::GetSignature
    } else if k == 1 {
        DecodeState::GetHeader
    } else if k == 2 {
        DecodeState::GetParentHeader
    } else if k == 3 {
        DecodeState::GetMetadata
    } else if k == 4 {
        DecodeState::GetContent
    } else {
        DecodeState::Finish
    }
}

/// Where a decoder stands after these frames of a message.
pub open spec fn state_of(fed: Seq<Seq<u8>>) -> DecodeState {
    if exists|d: int| first_delimiter_at(fed, d) {
        let d = choose|d: int| first_delimiter_at(fed, d);
        state_after(fed.len() - d - 1)
    } else {
        DecodeState::Start
    }
}

/// A sequence of frames has one first delimiter at most.
proof fn lemma_first_delimiter_unique(frames: Seq<Seq<u8>>, d: int)
    requires
        first_delimiter_at(frames, d),
    ensures
        (choose|e: int| first_delimiter_at(frames, e)) == d,
{
    let e = choose|e: int| first_delimiter_at(frames, e);
    if e < d {
        assert(frames[e] != delimiter());
    } else if e > d {
        assert(frames[d] != delimiter());
    }
}

/// Decodes one message from its frames, fed one at a time.
pub struct FrameDecoder {
    state: DecodeState,
    identities: Vec<Vec<u8>>,
    signature: Vec<u8>,
    header: Vec<u8>,
    parent_header: Vec<u8>,
    metadata: Vec<u8>,
    content: Vec<u8>,
    buffers: Vec<Vec<u8>>,
    /// The frames fed since the decoder last started over.
    fed: Ghost<Seq<Seq<u8>>>,
}

impl FrameDecoder {
    /// The frames fed since the decoder last started over.
    pub closed spec fn fed(&self) -> Seq<Seq<u8>> {
        self.fed@
    }

    /// What the decoder holds, by role, agrees with the frames fed.
    pub closed spec fn wf(&self) -> bool {
        let fed = self.fed@;
        let d = self.identities@.len() as int;
        if self.state == DecodeState::Start {
            &&& no_delimiter(fed)
            &&& frames_view(self.identities@) == fed
            &&& self.buffers@.len() == 0
        } else {
            let rest = fed.skip(d + 1);
            &&& first_delimiter_at(fed, d)
            &&& frames_view(self.identities@) == fed.take(d)
            &&& self.state == state_after(rest.len() as int)
            &&& rest.len() > 0 ==> self.signature@ == rest[0]
            &&& rest.len() > 1 ==> self.header@ == rest[1]
            &&& rest.len() > 2 ==> self.parent_header@ == rest[2]
            &&& rest.len() > 3 ==> self.metadata@ == rest[3]
            &&& rest.len() > 4 ==> self.content@ == rest[4]
            &&& frames_view(self.buffers@) == if rest.len() > 5 {
                rest.skip(5)
            } else {
                Seq::empty()
            }
        }
    }

    /// A decoder at the start of a message.
    pub fn new() -> (r: FrameDecoder)
        ensures
            r.wf(),
            r.fed() == Seq::<Seq<u8>>::empty(),
    {
        let r = FrameDecoder {
            state: DecodeState::Start,
            identities: Vec::new(),
            signature: Vec::new(),
            header: Vec::new(),
            parent_header: Vec::new(),
            metadata: Vec::new(),
            content: Vec::new(),
            buffers: Vec::new(),
            fed: Ghost(Seq::empty()),
        };
        assert(frames_view(r.identities@) =~= Seq::<Seq<u8>>::empty());
        r
    }

    /// Where the decoder stands.
    pub fn state(&self) -> (r: DecodeState)
        requires
            self.wf(),
        ensures
            r == state_of(self.fed()),
    {
        proof {
            if self.state != DecodeState::Start {
                lemma_first_delimiter_unique(self.fed@, self.identities@.len() as int);
            }
        }
        self.state
    }

    /// Takes the next frame of the message.
    pub fn feed(&mut self, frame: Vec<u8>)
        requires
            old(self).wf(),
        ensures
            final(self).wf(),
            final(self).fed() == old(self).fed().push(frame@),
    {
        let ghost fed0 = self.fed@;
        let ghost d = self.identities@.len() as int;
        let ghost f = frame@;
        self.fed = Ghost(fed0.push(f));
        match self.state {
            DecodeState::Start => {
                assert(d == fed0.len());
                if is_delimiter(frame.as_slice()) {
                    self.state = DecodeState::GetSignature;
                    assert(fed0.push(f).take(d) =~= fed0);
                    assert(fed0.push(f).skip(d + 1) =~= Seq::<Seq<u8>>::empty());
                    assert(first_delimiter_at(fed0.push(f), d));
                    assert(frames_view(self.buffers@) =~= Seq::<Seq<u8>>::empty());
                } else {
                    self.identities.push(frame);
                    assert(frames_view(self.identities@) =~= fed0.push(f));
                    assert(no_delimiter(fed0.push(f)));
                }
            },
            DecodeState::Finish => {
                let ghost buffers0 = self.buffers@;
                let ghost rest0 = fed0.skip(d + 1);
                self.buffers.push(frame);
                assert(rest0.len() >= 5);
                assert(fed0.push(f).take(d) =~= fed0.take(d));
                assert(fed0.push(f).skip(d + 1) =~= rest0.push(f));
                assert(frames_view(self.buffers@) =~= frames_view(buffers0).push(f));
                assert(rest0.push(f).skip(5) =~= (if rest0.len() > 5 {
                    rest0.skip(5)
                } else {
                    Seq::empty()
                }).push(f));
            },
            _ => {
                assert(fed0.push(f).take(d) =~= fed0.take(d));
                assert(fed0.push(f).skip(d + 1) =~= fed0.skip(d + 1).push(f));
                match self.state {
                    DecodeState::GetSignature => {
                        self.signature = frame;
                        self.state = DecodeState::GetHeader;
                    },
                    DecodeState::GetHeader => {
                        self.header = frame;
                        self.state = DecodeState::GetParentHeader;
                    },
                    DecodeState::GetParentHeader => {
                        self.parent_header = frame;
                        self.state = DecodeState::GetMetadata;
                    },
                    DecodeState::GetMetadata => {
                        self.metadata = frame;
                        self.state = DecodeState::GetContent;
                    },
                    _ => {
                        self.content = frame;
                        self.state = DecodeState::Finish;
                    },
                }
            },
        }
    }

    /// Ends the message: yields what the frames fed make, and starts over.
    pub fn finish(&mut self) -> (r: Result<Message, KernelError>)
        requires
            old(self).wf(),
        ensures
            final(self).wf(),
            final(self).fed() == Seq::<Seq<u8>>::empty(),
            viewed(r) == decode_spec(old(self).fed()),
    {
        let mut done = FrameDecoder::new();
        std::mem::swap(self, &mut done);
        done.into_message()
    }

    /// The message that the frames fed make.
    fn into_message(self) -> (r: Result<Message, KernelError>)
        requires
            self.wf(),
        ensures
            viewed(r) == decode_spec(self.fed()),
    {
        let ghost fed = self.fed@;
        let ghost d = self.identities@.len() as int;
        let ghost rest = fed.skip(d + 1);
        proof {
            if self.state != DecodeState::Start {
                lemma_first_delimiter_unique(fed, d);
            }
        }
        match self.state {
            DecodeState::Start => {
                assert(!exists|e: int| first_delimiter_at(fed, e));
                Err(KernelError::MissingDelimiter)
            },
            DecodeState::Finish => {
                assert(decode_spec(fed) == decode_parts(fed.take(d), rest));
                let FrameDecoder {
                    state: _,
                    identities,
                    signature,
                    header,
                    parent_header,
                    metadata,
                    content,
                    buffers,
                    fed: _,
                } = self;
                match (
                    text_of(signature.as_slice()),
                    text_of(header.as_slice()),
                    text_of(parent_header.as_slice()),
                    text_of(metadata.as_slice()),
                    text_of(content.as_slice()),
                ) {
                    (Some(signature), Some(header), Some(parent_header), Some(metadata), Some(content)) => {
                        let header = match Header::parse(header) {
                            Ok(h) => h,
                            Err(e) => return Err(e),
                        };
                        let parent_header = Header::parse_parent(parent_header);
                        match parse_content(&header, content) {
                            Ok(content) => {
                                let m = Message {
                                    identities,
                                    signature: signature.to_owned(),
                                    header,
                                    parent_header,
                                    metadata: Metadata { text: metadata.to_owned() },
                                    content,
                                    buffers,
                                };
                                assert(m@.buffers == rest.skip(5));
                                Ok(m)
                            },
                            Err(e) => Err(e),
                        }
                    },
                    _ => Err(KernelError::NotText),
                }
            },
            _ => {
                assert(rest.len() < 5);
                Err(KernelError::Truncated)
            },
        }
    }
}

impl Message {
    /// Decodes one logical message from all its frames, in order.
    pub fn from_frames(frames: &Vec<Vec<u8>>) -> (r: Result<Message, KernelError>)
        ensures
            viewed(r) == decode_spec(frames_view(frames@)),
    {
        let mut decoder = FrameDecoder::new();
        let mut i: usize = 0;
        while i < frames.len()
            invariant
                i <= frames@.len(),
                decoder.wf(),
                decoder.fed() == frames_view(frames@).take(i as int),
            decreases frames@.len() - i,
        {
            let frame = frames[i].clone();
            assert(frame@ =~= frames@[i as int]@);
            decoder.feed(frame);
            assert(frames_view(frames@).take(i as int).push(frames@[i as int]@) =~= frames_view(frames@).take(
                i + 1,
            ));
            i = i + 1;
        }
        assert(frames_view(frames@).take(i as int) =~= frames_view(frames@));
        decoder.finish()
    }
}

// Laws.

/// A well-formed message decodes to its parts, whatever the number of
/// routing frames before the delimiter (none, one or many): the identities,
/// the signature, the header and with it the message type, and the content
/// decoded for that type are those of the frames.
pub proof fn lemma_decode_well_formed(
    identities: Seq<Seq<u8>>,
    signature: Seq<u8>,
    header: Seq<u8>,
    parent_header: Seq<u8>,
    metadata: Seq<u8>,
    content: Seq<u8>,
    buffers: Seq<Seq<u8>>,
)
    requires
        no_delimiter(identities),
        frame_text(signature) is Some,
        frame_text(header) is Some,
        frame_text(parent_header) is Some,
        frame_text(metadata) is Some,
        frame_text(content) is Some,
        header_of_text(frame_text(header)->Some_0) is Ok,
        content_for_header(header_of_text(frame_text(header)->Some_0)->Ok_0, frame_text(content)->Some_0) is Ok,
    ensures
        ({
            let frames = identities + seq![delimiter(), signature, header, parent_header, metadata, content] + buffers;
            let h = header_of_text(frame_text(header)->Some_0)->Ok_0;
            decode_spec(frames) == Ok::<MessageView, ErrorView>(
                MessageView {
                    identities,
                    signature: frame_text(signature)->Some_0,
                    header: h,
                    parent_header: parent_header_of_text(frame_text(parent_header)->Some_0),
                    metadata: frame_text(metadata)->Some_0,
                    content: content_for_header(h, frame_text(content)->Some_0)->Ok_0,
                    buffers,
                },
            )
        }),
{
    let parts = seq![delimiter(), signature, header, parent_header, metadata, content];
    let frames = identities + parts + buffers;
    let d = identities.len() as int;
    assert(frames[d] == delimiter());
    assert forall|j: int| 0 <= j < d implies #[trigger] frames[j] != delimiter() by {
        assert(frames[j] == identities[j]);
    }
    assert(first_delimiter_at(frames, d));
    lemma_first_delimiter_unique(frames, d);
    assert(frames.take(d) =~= identities);
    let rest = frames.skip(d + 1);
    assert(rest =~= seq![signature, header, parent_header, metadata, content] + buffers);
    assert(rest.skip(5) =~= buffers);
}

/// Frames without the delimiter, including a message whose delimiter frame
/// holds anything but the delimiter's exact bytes, do not decode.
pub proof fn lemma_decode_without_delimiter(frames: Seq<Seq<u8>>)
    requires
        no_delimiter(frames),
    ensures
        decode_spec(frames) == Err::<MessageView, ErrorView>(ErrorView::MissingDelimiter),
{
    assert forall|d: int| !first_delimiter_at(frames, d) by {
        if 0 <= d < frames.len() {
            assert(frames[d] != delimiter());
        }
    }
}

} // verus!

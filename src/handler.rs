//! What the Shell and Control endpoints do with one request: they run the
//! same loop, and this is its body. The endpoint receives the frames of a
//! message, hands them here, and performs the actions that come back, in
//! order.

use vstd::prelude::*;

use crate::codec::{decode_spec, first_delimiter_at};
use crate::errors::{ErrorView, KernelError};
use crate::json::{json_text, json_to_text};
use crate::message::{frames_view, message_id, message_reply, ContentView, Message, MessageView};
use crate::reply::{default_kernel_info, reply_json, ReplyView};
use crate::status::{Status, StatusView};

verus! {

/// A reply on its way: the routing frames that address the sender, then the
/// reply's JSON text as one frame.
#[derive(Debug)]
pub struct Outgoing {
    pub identities: Vec<Vec<u8>>,
    pub body: String,
}

pub struct OutgoingView {
    pub identities: Seq<Seq<u8>>,
    pub body: Seq<char>,
}

impl View for Outgoing {
    type V = OutgoingView;

    open spec fn view(&self) -> OutgoingView {
        OutgoingView { identities: frames_view(self.identities@), body: self.body@ }
    }
}

/// One thing for an endpoint to do.
#[derive(Debug)]
pub enum Action {
    /// Pass a status to the Iopub endpoint.
    Publish(Status),
    /// Send a reply on the endpoint's own socket.
    Send(Outgoing),
}

pub enum ActionView {
    Publish(StatusView),
    Send(OutgoingView),
}

impl View for Action {
    type V = ActionView;

    open spec fn view(&self) -> ActionView {
        match self {
            Action::Publish(s) => ActionView::Publish(s@),
            Action::Send(o) => ActionView::Send(o@),
        }
    }
}

/// The outcome of one request: the actions, in order, and what went wrong,
/// if anything, for the endpoint to report.
#[derive(Debug)]
pub struct Handled {
    pub actions: Vec<Action>,
    pub problem: Option<KernelError>,
}

pub struct HandledView {
    pub actions: Seq<ActionView>,
    pub problem: Option<ErrorView>,
}

impl View for Handled {
    type V = HandledView;

    open spec fn view(&self) -> HandledView {
        HandledView {
            actions: self.actions@.map_values(|a: Action| a@),
            problem: match self.problem {
                Some(e) => Some(e@),
                None => None,
            },
        }
    }
}

/// What follows the decoding of a message: busy, the reply where there is
/// one, then idle. The reply is its JSON text, or the error that stood in its
/// way.
pub open spec fn planned(m: MessageView, reply: Result<Seq<char>, ErrorView>) -> HandledView {
    let id = message_id(m);
    match reply {
        Ok(body) => HandledView {
            actions: seq![
                ActionView::Publish(StatusView::Busy(id)),
                ActionView::Send(OutgoingView { identities: m.identities, body }),
                ActionView::Publish(StatusView::Idle(id)),
            ],
            problem: None,
        },
        Err(e) => HandledView {
            actions: seq![ActionView::Publish(StatusView::Busy(id)), ActionView::Publish(StatusView::Idle(id))],
            problem: Some(e),
        },
    }
}

/// A message that did not decode: nothing to do but report it.
pub open spec fn rejected(e: ErrorView) -> HandledView {
    HandledView { actions: Seq::empty(), problem: Some(e) }
}

/// The statuses published for a decoded message: busy, then idle.
pub open spec fn request_statuses(m: MessageView) -> Seq<StatusView> {
    seq![StatusView::Busy(message_id(m)), StatusView::Idle(message_id(m))]
}

/// What handling a request from its frames comes to: nothing but the error
/// for a message that does not decode; else busy, the reply's JSON text
/// where the message has a reply, and idle.
pub open spec fn handled_spec(frames: Seq<Seq<u8>>) -> HandledView {
    match decode_spec(frames) {
        Err(e) => rejected(e),
        Ok(m) => match message_reply(m) {
            Ok(reply) => planned(m, Ok(json_text(reply_json(reply)))),
            Err(e) => planned(m, Err(e)),
        },
    }
}

/// The actions for a decoded message, given its reply's text or the error
/// that stood in its way.
pub fn plan(message: Message, reply: Result<String, KernelError>) -> (r: Handled)
    ensures
        r@ == planned(
            message@,
            match reply {
                Ok(t) => Ok(t@),
                Err(e) => Err(e@),
            },
        ),
{
    let id = message.id();
    let mut actions: Vec<Action> = Vec::new();
    actions.push(Action::Publish(Status::Busy(id.clone())));
    let problem = match reply {
        Ok(body) => {
            actions.push(Action::Send(Outgoing { identities: message.identities, body }));
            None
        },
        Err(e) => Some(e),
    };
    actions.push(Action::Publish(Status::Idle(id)));
    let r = Handled { actions, problem };
    assert(r@.actions =~= planned(
        message@,
        match reply {
            Ok(t) => Ok(t@),
            Err(e) => Err(e@),
        },
    ).actions);
    r
}

/// Handles one request from all its frames. A message that does not decode
/// gets no action. One that does is answered between a busy and an idle
/// status: a `kernel_info_request` gets the canned reply, addressed to its
/// own routing frames; any other message gets no reply.
pub fn handle_request(frames: &Vec<Vec<u8>>) -> (r: Handled)
    ensures
        r@ == handled_spec(frames_view(frames@)),
{
    let message = match Message::from_frames(frames) {
        Ok(m) => m,
        Err(e) => {
            let r = Handled { actions: Vec::new(), problem: Some(e) };
            assert(r@.actions =~= Seq::<ActionView>::empty());
            return r;
        },
    };
    let text = match message.reply() {
        Ok(reply) => match json_to_text(&reply.to_json()) {
            Ok(text) => Ok(text),
            Err(_) => Err(KernelError::Serialization),
        },
        Err(e) => Err(e),
    };
    plan(message, text)
}

// Laws.

/// The statuses among some actions, in order.
pub open spec fn published(actions: Seq<ActionView>) -> Seq<StatusView>
    decreases actions.len(),
{
    if actions.len() == 0 {
        Seq::empty()
    } else {
        let earlier = published(actions.drop_last());
        match actions.last() {
            ActionView::Publish(s) => earlier.push(s),
            ActionView::Send(_) => earlier,
        }
    }
}

/// The statuses that a run of requests publishes, in order.
pub open spec fn status_trace(handled: Seq<HandledView>) -> Seq<StatusView>
    decreases handled.len(),
{
    if handled.len() == 0 {
        Seq::empty()
    } else {
        status_trace(handled.drop_last()) + published(handled.last().actions)
    }
}

/// Each decoded request publishes busy, then idle, whether or not it got a
/// reply.
pub proof fn lemma_planned_statuses(m: MessageView, reply: Result<Seq<char>, ErrorView>)
    ensures
        published(planned(m, reply).actions) == request_statuses(m),
{
    let a = planned(m, reply).actions;
    reveal_with_fuel(published, 4);
    match reply {
        Ok(_) => {
            assert(a.drop_last().drop_last().drop_last() =~= Seq::<ActionView>::empty());
            assert(a.drop_last().drop_last() =~= seq![a[0]]);
            assert(a.drop_last() =~= seq![a[0], a[1]]);
        },
        Err(_) => {
            assert(a.drop_last().drop_last() =~= Seq::<ActionView>::empty());
            assert(a.drop_last() =~= seq![a[0]]);
        },
    }
    assert(published(a) =~= request_statuses(m));
}

/// A run of K requests that decode publishes exactly 2K statuses: for each
/// request in turn, busy and then idle, with the request's id; none is lost
/// or repeated, whether or not a request got a reply.
pub proof fn lemma_status_trace(requests: Seq<Seq<Seq<u8>>>, handled: Seq<HandledView>)
    requires
        handled.len() == requests.len(),
        forall|i: int| 0 <= i < requests.len() ==> (#[trigger] decode_spec(requests[i])) is Ok,
        forall|i: int| 0 <= i < requests.len() ==> #[trigger] handled[i] == handled_spec(requests[i]),
    ensures
        status_trace(handled).len() == 2 * handled.len(),
        forall|i: int|
            0 <= i < handled.len() ==> status_trace(handled)[2 * i] == StatusView::Busy(
                message_id(decode_spec(#[trigger] requests[i])->Ok_0),
            ) && status_trace(handled)[2 * i + 1] == StatusView::Idle(message_id(decode_spec(requests[i])->Ok_0)),
    decreases handled.len(),
{
    if handled.len() > 0 {
        let n = handled.len() - 1;
        lemma_status_trace(requests.drop_last(), handled.drop_last());
        let m = decode_spec(requests[n])->Ok_0;
        match message_reply(m) {
            Ok(reply) => lemma_planned_statuses(m, Ok(json_text(reply_json(reply)))),
            Err(e) => lemma_planned_statuses(m, Err(e)),
        }
        let earlier = status_trace(handled.drop_last());
        assert(handled[n] == handled_spec(requests[n]));
        assert(status_trace(handled) == earlier + request_statuses(m));
        assert forall|i: int| 0 <= i < handled.len() implies status_trace(handled)[2 * i] == StatusView::Busy(
            message_id(decode_spec(#[trigger] requests[i])->Ok_0),
        ) && status_trace(handled)[2 * i + 1] == StatusView::Idle(message_id(decode_spec(requests[i])->Ok_0)) by {
            if i < n {
                assert(requests.drop_last()[i] == requests[i]);
            }
        }
    }
}

/// The body of the reply to a `kernel_info_request`.
pub open spec fn kernel_info_text() -> Seq<char> {
    json_text(reply_json(ReplyView::KernelInfoReply(default_kernel_info())))
}

/// Replies do not cross: a `kernel_info_request` that decodes is answered
/// with exactly one reply, sent to its own routing frames (those before the
/// delimiter), between busy and idle for its id; the reply's body is the
/// `kernel_info_reply` text, the same for every request whatever its id.
pub proof fn lemma_replies_addressed(frames: Seq<Seq<u8>>)
    requires
        decode_spec(frames) is Ok,
        decode_spec(frames)->Ok_0.content == Some(ContentView::KernelInfoRequest),
    ensures
        ({
            let m = decode_spec(frames)->Ok_0;
            &&& handled_spec(frames).problem is None
            &&& handled_spec(frames).actions == seq![
                ActionView::Publish(StatusView::Busy(message_id(m))),
                ActionView::Send(OutgoingView { identities: m.identities, body: kernel_info_text() }),
                ActionView::Publish(StatusView::Idle(message_id(m))),
            ]
            &&& exists|d: int| first_delimiter_at(frames, d) && m.identities == frames.take(d)
        }),
{
    let d = choose|d: int| first_delimiter_at(frames, d);
    assert(exists|d: int| first_delimiter_at(frames, d));
    assert(first_delimiter_at(frames, d));
}

} // verus!

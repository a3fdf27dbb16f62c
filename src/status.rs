//! Kernel status, sent from the request endpoints to the Iopub endpoint.

use vstd::prelude::*;

use crate::errors::KernelError;
use crate::json::{json_object, json_of, json_string, json_text, json_to_text, JsonView};

verus! {

/// The kernel's state while or after it handles a request, with the id of
/// that request.
#[derive(Debug, Clone, PartialEq, Eq)]
pub enum Status {
    Busy(String),
    Idle(String),
}

pub enum StatusView {
    Busy(Seq<char>),
    Idle(Seq<char>),
}

impl View for Status {
    type V = StatusView;

    open spec fn view(&self) -> StatusView {
        match self {
            Status::Busy(id) => StatusView::Busy(id@),
            Status::Idle(id) => StatusView::Idle(id@),
        }
    }
}

/// The notification that Iopub publishes for a status: the execution state
/// and the id of the request that it concerns.
pub open spec fn status_json(s: StatusView) -> JsonView {
    match s {
        StatusView::Busy(id) => JsonView::Object(
            Map::empty().insert("execution_state"@, JsonView::Str("busy"@)).insert(
                "parent_msg_id"@,
                JsonView::Str(id),
            ),
        ),
        StatusView::Idle(id) => JsonView::Object(
            Map::empty().insert("execution_state"@, JsonView::Str("idle"@)).insert(
                "parent_msg_id"@,
                JsonView::Str(id),
            ),
        ),
    }
}

impl Status {
    /// The notification as a JSON value.
    pub fn to_json(&self) -> (r: serde_json::Value)
        ensures
            json_of(r) == status_json(self@),
    {
        let (state, id) = match self {
            Status::Busy(id) => ("busy", id),
            Status::Idle(id) => ("idle", id),
        };
        let mut m = serde_json::Map::new();
        m.insert("execution_state".to_owned(), json_string(state.to_owned()));
        m.insert("parent_msg_id".to_owned(), json_string(id.clone()));
        json_object(m)
    }

    /// The notification as JSON text.
    pub fn notification(&self) -> (r: Result<String, KernelError>)
        ensures
            r is Ok,
            r->Ok_0@ == json_text(status_json(self@)),
    {
        match json_to_text(&self.to_json()) {
            Ok(text) => Ok(text),
            Err(_) => Err(KernelError::Serialization),
        }
    }
}

} // verus!

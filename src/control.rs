//! The control endpoint: a routed socket that handles requests as the shell does.

use vstd::prelude::*;

use crate::address::{address_of, endpoint_address, EndpointView};
use crate::handler::{handle_request, handled_spec, Handled};
use crate::message::frames_view;
verus! {

pub struct Control {
    transport: String,
    addr: String,
    port: u32,
}

impl View for Control {
    type V = EndpointView;

    closed spec fn view(&self) -> EndpointView {
        EndpointView { transport: self.transport@, addr: self.addr@, port: self.port }
    }
}

impl Control {
    pub fn new(transport: &str, addr: &str, port: u32) -> (r: Control)
        ensures
            r@ == (EndpointView { transport: transport@, addr: addr@, port }),
    {
        Control { transport: transport.to_owned(), addr: addr.to_owned(), port }
    }

    /// The address that the endpoint binds to.
    pub fn address(&self) -> (r: String)
        ensures
            r@ == address_of(self@.transport, self@.addr, self@.port),
    {
        endpoint_address(self.transport.as_str(), self.addr.as_str(), self.port)
    }

    /// Handles one request from all its frames; see [`handle_request`].
    pub fn handle(&self, frames: &Vec<Vec<u8>>) -> (r: Handled)
        ensures
            r@ == handled_spec(frames_view(frames@)),
    {
        handle_request(frames)
    }
}

} // verus!

//! The heartbeat endpoint: a request-response socket that echoes every frame it receives, unchanged.

use vstd::prelude::*;

use crate::address::{address_of, endpoint_address, EndpointView};

verus! {

pub struct Heartbeat {
    transport: String,
    addr: String,
    port: u32,
}

impl View for Heartbeat {
    type V = EndpointView;

    closed spec fn view(&self) -> EndpointView {
        EndpointView { transport: self.transport@, addr: self.addr@, port: self.port }
    }
}

impl Heartbeat {
    pub fn new(transport: &str, addr: &str, port: u32) -> (r: Heartbeat)
        ensures
            r@ == (EndpointView { transport: transport@, addr: addr@, port }),
    {
        Heartbeat { transport: transport.to_owned(), addr: addr.to_owned(), port }
    }

    /// The address that the endpoint binds to.
    pub fn address(&self) -> (r: String)
        ensures
            r@ == address_of(self@.transport, self@.addr, self@.port),
    {
        endpoint_address(self.transport.as_str(), self.addr.as_str(), self.port)
    }

    /// The answer to a heartbeat frame: the same bytes.
    pub fn echo(&self, frame: Vec<u8>) -> (r: Vec<u8>)
        ensures
            r@ == frame@,
    {
        frame
    }
}

} // verus!

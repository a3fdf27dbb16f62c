//! The stdin endpoint: a routed socket for input requests. Beyond its binding, no protocol is handled on it.

use vstd::prelude::*;

use crate::address::{address_of, endpoint_address, EndpointView};

verus! {

pub struct Stdin {
    transport: String,
    addr: String,
    port: u32,
}

impl View for Stdin {
    type V = EndpointView;

    closed spec fn view(&self) -> EndpointView {
        EndpointView { transport: self.transport@, addr: self.addr@, port: self.port }
    }
}

impl Stdin {
    pub fn new(transport: &str, addr: &str, port: u32) -> (r: Stdin)
        ensures
            r@ == (EndpointView { transport: transport@, addr: addr@, port }),
    {
        Stdin { transport: transport.to_owned(), addr: addr.to_owned(), port }
    }

    /// The address that the endpoint binds to.
    pub fn address(&self) -> (r: String)
        ensures
            r@ == address_of(self@.transport, self@.addr, self@.port),
    {
        endpoint_address(self.transport.as_str(), self.addr.as_str(), self.port)
    }
}

} // verus!

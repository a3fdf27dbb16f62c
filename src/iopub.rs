//! The iopub endpoint: a publish-only socket that broadcasts the kernel's status as the request endpoints report it.

use vstd::prelude::*;

use crate::address::{address_of, endpoint_address, EndpointView};
use crate::errors::KernelError;
use crate::json::json_text;
use crate::status::{status_json, Status};
verus! {

pub struct Iopub {
    transport: String,
    addr: String,
    port: u32,
}

impl View for Iopub {
    type V = EndpointView;

    closed spec fn view(&self) -> EndpointView {
        EndpointView { transport: self.transport@, addr: self.addr@, port: self.port }
    }
}

impl Iopub {
    pub fn new(transport: &str, addr: &str, port: u32) -> (r: Iopub)
        ensures
            r@ == (EndpointView { transport: transport@, addr: addr@, port }),
    {
        Iopub { transport: transport.to_owned(), addr: addr.to_owned(), port }
    }

    /// The address that the endpoint binds to.
    pub fn address(&self) -> (r: String)
        ensures
            r@ == address_of(self@.transport, self@.addr, self@.port),
    {
        endpoint_address(self.transport.as_str(), self.addr.as_str(), self.port)
    }

    /// The notification to publish for a status: the JSON text of an object
    /// with the execution state and the id of the request it concerns.
    pub fn notification(&self, status: &Status) -> (r: Result<String, KernelError>)
        ensures
            r is Ok,
            r->Ok_0@ == json_text(status_json(status@)),
    {
        status.notification()
    }
}

} // verus!

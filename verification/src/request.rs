//! The request envelope: an ordered list of opcode, path and payload
//! triples sent to a device.

use vstd::prelude::*;
use crate::property::{NodeView, Property};

verus! {

/// The read opcode.
pub const OP_READ: u8 = 2;

/// The write opcode.
pub const OP_WRITE: u8 = 3;

/// The mathematical content of one request entry.
pub ghost struct RequestView {
    pub op: u8,
    pub pc: NodeView,
    pub to: Seq<char>,
}

/// One request entry: an opcode (2 read, 3 write), a payload tree and the
/// route it is addressed to.
#[derive(Debug)]
pub struct Request {
    pub op: u8,
    pub pc: Property,
    pub to: String,
}

impl View for Request {
    type V = RequestView;

    open spec fn view(&self) -> RequestView {
        RequestView { op: self.op, pc: self.pc@, to: self.to@ }
    }
}

/// The views of a sequence of request entries, elementwise.
pub open spec fn request_views(s: Seq<Request>) -> Seq<RequestView> {
    Seq::new(s.len(), |i: int| s[i]@)
}

/// A whole request envelope: its entries in order.
#[derive(Debug)]
pub struct DaikinRequest {
    pub requests: Vec<Request>,
}

impl View for DaikinRequest {
    type V = Seq<RequestView>;

    open spec fn view(&self) -> Seq<RequestView> {
        request_views(self.requests@)
    }
}

} // verus!

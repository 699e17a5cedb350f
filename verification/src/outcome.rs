//! Requests as they are handed to the transport, and what comes back.

use vstd::prelude::*;

verus! {

/// The HTTP method of a request.
#[derive(Debug, Clone, Copy, PartialEq, Eq, Structural)]
pub enum Method {
    Get,
    Post,
    Put,
    Patch,
    Delete,
}

/// A request that is ready to be issued.
#[derive(Debug, Clone, PartialEq, Eq)]
pub struct PendingRequest {
    pub url: String,
    pub method: Method,
}

/// The single result of one issued request.
#[derive(Debug, Clone, PartialEq, Eq)]
pub enum TransportOutcome {
    /// The transport got a response.
    Success { status: u16, headers: Vec<(String, String)>, body: Vec<u8> },
    /// The transport could not complete the request.
    Failure { message: String },
}

/// The mathematical value of a [`TransportOutcome`].
pub ghost enum OutcomeView {
    Success { status: u16, headers: Seq<(Seq<char>, Seq<char>)>, body: Seq<u8> },
    Failure { message: Seq<char> },
}

impl View for TransportOutcome {
    type V = OutcomeView;

    open spec fn view(&self) -> OutcomeView {
        match *self {
            TransportOutcome::Success { status, headers, body } => OutcomeView::Success {
                status,
                headers: Seq::new(headers@.len(), |i: int| (headers@[i].0@, headers@[i].1@)),
                body: body@,
            },
            TransportOutcome::Failure { message } => OutcomeView::Failure { message: message@ },
        }
    }
}

impl PendingRequest {
    /// A GET request for `url`, which is taken as given.
    pub fn get(url: String) -> (r: Self)
        ensures
            r.url@ == url@,
            r.method == Method::Get,
    {
        PendingRequest { url, method: Method::Get }
    }
}

} // verus!

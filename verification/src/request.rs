//! The requests that the clients ask a transport to send.

use std::time::Duration;
use vstd::prelude::*;

verus! {

/// The method of a request. The service only reads from its upstreams.
#[derive(Debug, PartialEq, Eq, Structural, Clone, Copy)]
pub enum Method {
    Get,
}

/// A request for a transport to send.
#[derive(Debug)]
pub struct Request {
    pub method: Method,
    /// The address to ask.
    pub url: String,
    /// The query parameter to add to the address, if any: its name and its
    /// value. The transport encodes both.
    pub query: Option<(String, String)>,
    /// The time that the whole exchange may take.
    pub timeout: Duration,
}

/// The mathematical value of a [`Request`].
#[verifier::ext_equal]
pub struct RequestView {
    pub method: Method,
    pub url: Seq<char>,
    pub query: Option<(Seq<char>, Seq<char>)>,
    pub timeout: Duration,
}

impl View for Request {
    type V = RequestView;

    open spec fn view(&self) -> RequestView {
        RequestView {
            method: self.method,
            url: self.url@,
            query: match self.query {
                Some((name, value)) => Some((name@, value@)),
                None => None,
            },
            timeout: self.timeout,
        }
    }
}

} // verus!

use vstd::prelude::*;
use vstd::string::*;

use crate::response::Response;

verus! {

/// HTTP method of the request being composed.
#[allow(non_camel_case_types)]
#[derive(Clone, Copy, Debug, PartialEq, Eq, Structural)]
pub enum Method {
    GET,
    POST,
    PUT,
    PATCH,
    DELETE,
    HEAD,
    OPTIONS,
}

/// The cyclic successor order of methods.
pub open spec fn next_method(m: Method) -> Method {
    match m {
        Method::GET => Method::POST,
        Method::POST => Method::PUT,
        Method::PUT => Method::PATCH,
        Method::PATCH => Method::DELETE,
        Method::DELETE => Method::HEAD,
        Method::HEAD => Method::OPTIONS,
        Method::OPTIONS => Method::GET,
    }
}

/// The method applied `n` times.
pub open spec fn next_method_n(m: Method, n: nat) -> Method
    decreases n,
{
    if n == 0 {
        m
    } else {
        next_method_n(next_method(m), (n - 1) as nat)
    }
}

/// Seven successive steps walk GET, POST, PUT, PATCH, DELETE, HEAD, OPTIONS
/// and come back to the method they started from.
pub proof fn lemma_method_cycle(m: Method)
    ensures
        next_method(Method::GET) == Method::POST,
        next_method(Method::POST) == Method::PUT,
        next_method(Method::PUT) == Method::PATCH,
        next_method(Method::PATCH) == Method::DELETE,
        next_method(Method::DELETE) == Method::HEAD,
        next_method(Method::HEAD) == Method::OPTIONS,
        next_method(Method::OPTIONS) == Method::GET,
        next_method_n(m, 7) == m,
        forall|k: nat| 0 < k < 7 ==> #[trigger] next_method_n(m, k) != m,
{
    reveal_with_fuel(next_method_n, 8);
    assert forall|k: nat| 0 < k < 7 implies #[trigger] next_method_n(m, k) != m by {}
}

/// Name of a method as sent on the wire.
pub open spec fn method_name(m: Method) -> Seq<char> {
    match m {
        Method::GET => "GET"@,
        Method::POST => "POST"@,
        Method::PUT => "PUT"@,
        Method::PATCH => "PATCH"@,
        Method::DELETE => "DELETE"@,
        Method::HEAD => "HEAD"@,
        Method::OPTIONS => "OPTIONS"@,
    }
}

/// The request being composed, with the response of its last execution.
#[derive(Clone)]
pub struct Request {
    pub method: Method,
    pub url: String,
    pub response: Option<Response>,
}

impl Request {
    /// A GET request with an empty URL and no response.
    pub fn new() -> (r: Request)
        ensures
            r.method == Method::GET,
            r.url@ == Seq::<char>::empty(),
            r.response is None,
    {
        Request { method: Method::GET, url: String::new(), response: None }
    }

    /// Moves to the next method in the cyclic order.
    pub fn change_next_method(&mut self)
        ensures
            final(self).method == next_method(old(self).method),
            final(self).url == old(self).url,
            final(self).response == old(self).response,
    {
        let new_method = match self.method {
            Method::GET => Method::POST,
            Method::POST => Method::PUT,
            Method::PUT => Method::PATCH,
            Method::PATCH => Method::DELETE,
            Method::DELETE => Method::HEAD,
            Method::HEAD => Method::OPTIONS,
            Method::OPTIONS => Method::GET,
        };
        self.method = new_method;
    }

    /// Name of the current method.
    pub fn get_method_str(&self) -> (r: String)
        ensures
            r@ == method_name(self.method),
    {
        match self.method {
            Method::GET => String::from_str("GET"),
            Method::POST => String::from_str("POST"),
            Method::PUT => String::from_str("PUT"),
            Method::PATCH => String::from_str("PATCH"),
            Method::DELETE => String::from_str("DELETE"),
            Method::HEAD => String::from_str("HEAD"),
            Method::OPTIONS => String::from_str("OPTIONS"),
        }
    }
}

} // verus!

use vstd::prelude::*;

verus! {

/// Pane shown inside the request view.
#[derive(Clone, Copy, Debug, PartialEq, Eq, Structural)]
pub enum RequestTab {
    Params,
    Authorization,
    Headers,
    Body,
    Settings,
    Response,
}

/// Pane shown inside the response view.
#[derive(Clone, Copy, Debug, PartialEq, Eq, Structural)]
pub enum ResponseTab {
    Body,
    Cookies,
    Headers,
}

/// Number of request panes.
pub const REQUEST_TAB_COUNT: usize = 6;

/// Number of response panes.
pub const RESPONSE_TAB_COUNT: usize = 3;

/// Zero-based display position of a request pane.
pub open spec fn request_tab_index(t: RequestTab) -> nat {
    match t {
        RequestTab::Params => 0,
        RequestTab::Authorization => 1,
        RequestTab::Headers => 2,
        RequestTab::Body => 3,
        RequestTab::Settings => 4,
        RequestTab::Response => 5,
    }
}

/// Zero-based display position of a response pane.
pub open spec fn response_tab_index(t: ResponseTab) -> nat {
    match t {
        ResponseTab::Body => 0,
        ResponseTab::Cookies => 1,
        ResponseTab::Headers => 2,
    }
}

impl RequestTab {
    pub fn index(&self) -> (r: usize)
        ensures
            r == request_tab_index(*self),
            r < REQUEST_TAB_COUNT,
    {
        match self {
            RequestTab::Params => 0,
            RequestTab::Authorization => 1,
            RequestTab::Headers => 2,
            RequestTab::Body => 3,
            RequestTab::Settings => 4,
            RequestTab::Response => 5,
        }
    }

    /// The pane at display position `i`.
    pub fn from_index(i: usize) -> (r: RequestTab)
        requires
            i < REQUEST_TAB_COUNT,
        ensures
            request_tab_index(r) == i,
    {
        if i == 0 {
            RequestTab::Params
        } else if i == 1 {
            RequestTab::Authorization
        } else if i == 2 {
            RequestTab::Headers
        } else if i == 3 {
            RequestTab::Body
        } else if i == 4 {
            RequestTab::Settings
        } else {
            RequestTab::Response
        }
    }
}

impl ResponseTab {
    pub fn index(&self) -> (r: usize)
        ensures
            r == response_tab_index(*self),
            r < RESPONSE_TAB_COUNT,
    {
        match self {
            ResponseTab::Body => 0,
            ResponseTab::Cookies => 1,
            ResponseTab::Headers => 2,
        }
    }

    /// The pane at display position `i`.
    pub fn from_index(i: usize) -> (r: ResponseTab)
        requires
            i < RESPONSE_TAB_COUNT,
        ensures
            response_tab_index(r) == i,
    {
        if i == 0 {
            ResponseTab::Body
        } else if i == 1 {
            ResponseTab::Cookies
        } else {
            ResponseTab::Headers
        }
    }
}

/// Pane and display position determine each other.
pub proof fn lemma_request_tab_bijective(a: RequestTab, b: RequestTab)
    ensures
        request_tab_index(a) < REQUEST_TAB_COUNT,
        request_tab_index(a) == request_tab_index(b) ==> a == b,
{
}

/// Pane and display position determine each other.
pub proof fn lemma_response_tab_bijective(a: ResponseTab, b: ResponseTab)
    ensures
        response_tab_index(a) < RESPONSE_TAB_COUNT,
        response_tab_index(a) == response_tab_index(b) ==> a == b,
{
}

} // verus!

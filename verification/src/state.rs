//! What the session knows of the request and of the response that pass
//! through it.

use vstd::prelude::*;

use crate::address::viewed;

verus! {

/// How far a chunked body has been parsed.
#[derive(Debug, Clone, Copy, PartialEq, Eq, Structural)]
pub enum Chunk {
    Initial,
    InProgress,
    Ended,
    Error,
}

/// How far a request has been parsed.
#[derive(Debug, Clone, Copy, PartialEq, Eq, Structural)]
pub enum RequestState {
    Initial,
    HasRequestLine,
    HasHost,
    HasLength,
    HasHostAndLength,
    Request,
    RequestWithBody,
    RequestWithBodyChunks(Chunk),
    /// Any other state, a parse error among them.
    Other,
}

/// How far a response has been parsed.
#[derive(Debug, PartialEq, Eq)]
pub enum ResponseState {
    Initial,
    HasStatusLine,
    HasUpgrade,
    HasLength,
    Response,
    ResponseWithBody,
    ResponseWithBodyChunks(Chunk),
    /// The backend switched to the protocol of this name.
    ResponseUpgrade(String),
    Error,
    /// Any other state.
    Other,
}

pub enum ResponseStateView {
    Initial,
    HasStatusLine,
    HasUpgrade,
    HasLength,
    Response,
    ResponseWithBody,
    ResponseWithBodyChunks(Chunk),
    ResponseUpgrade(Seq<char>),
    Error,
    Other,
}

impl View for ResponseState {
    type V = ResponseStateView;

    open spec fn view(&self) -> ResponseStateView {
        match self {
            ResponseState::Initial => ResponseStateView::Initial,
            ResponseState::HasStatusLine => ResponseStateView::HasStatusLine,
            ResponseState::HasUpgrade => ResponseStateView::HasUpgrade,
            ResponseState::HasLength => ResponseStateView::HasLength,
            ResponseState::Response => ResponseStateView::Response,
            ResponseState::ResponseWithBody => ResponseStateView::ResponseWithBody,
            ResponseState::ResponseWithBodyChunks(chunk) =>
                ResponseStateView::ResponseWithBodyChunks(*chunk),
            ResponseState::ResponseUpgrade(protocol) =>
                ResponseStateView::ResponseUpgrade(protocol@),
            ResponseState::Error => ResponseStateView::Error,
            ResponseState::Other => ResponseStateView::Other,
        }
    }
}

/// The request line: the method and the URI, as text.
#[derive(Debug, PartialEq, Eq)]
pub struct RRequestLine {
    pub method: String,
    pub uri: String,
}

pub struct RRequestLineView {
    pub method: Seq<char>,
    pub uri: Seq<char>,
}

impl View for RRequestLine {
    type V = RRequestLineView;

    open spec fn view(&self) -> RRequestLineView {
        RRequestLineView { method: self.method@, uri: self.uri@ }
    }
}

impl Clone for RRequestLine {
    fn clone(&self) -> (r: Self)
        ensures
            r == *self,
    {
        RRequestLine { method: self.method.clone(), uri: self.uri.clone() }
    }
}

/// The status line: the status code and the reason.
#[derive(Debug, PartialEq, Eq)]
pub struct RStatusLine {
    pub status: u16,
    pub reason: String,
}

pub struct RStatusLineView {
    pub status: u16,
    pub reason: Seq<char>,
}

impl View for RStatusLine {
    type V = RStatusLineView;

    open spec fn view(&self) -> RStatusLineView {
        RStatusLineView { status: self.status, reason: self.reason@ }
    }
}

impl Clone for RStatusLine {
    fn clone(&self) -> (r: Self)
        ensures
            r == *self,
    {
        RStatusLine { status: self.status, reason: self.reason.clone() }
    }
}

/// The state of one exchange: where the parser stands in the request and in
/// the response, what it has found in them, and the headers to add on the
/// way.
#[derive(Debug, PartialEq, Eq)]
pub struct HttpState {
    pub request: Option<RequestState>,
    pub response: Option<ResponseState>,
    /// The request cannot be parsed.
    pub front_error: bool,
    /// The response cannot be parsed.
    pub back_error: bool,
    /// The request has named its host.
    pub has_host: bool,
    /// The client holds its body back until the backend asks for it, and so
    /// much of it is to be passed on then.
    pub must_continue: Option<usize>,
    /// The request says that it expects to be asked for its body.
    pub continues: bool,
    /// The client wants its connection kept.
    pub request_keep_alive: bool,
    /// The backend keeps its connection.
    pub response_keep_alive: bool,
    pub host: Option<String>,
    pub request_line: Option<RRequestLine>,
    pub status_line: Option<RStatusLine>,
    /// Where the head of the response ends.
    pub res_header_end: Option<usize>,
    /// Header lines to add to the request.
    pub added_req_header: String,
    /// Header lines to add to the response.
    pub added_res_header: String,
}

pub struct HttpStateView {
    pub request: Option<RequestState>,
    pub response: Option<ResponseStateView>,
    pub front_error: bool,
    pub back_error: bool,
    pub has_host: bool,
    pub must_continue: Option<usize>,
    pub continues: bool,
    pub request_keep_alive: bool,
    pub response_keep_alive: bool,
    pub host: Option<Seq<char>>,
    pub request_line: Option<RRequestLineView>,
    pub status_line: Option<RStatusLineView>,
    pub res_header_end: Option<usize>,
    pub added_req_header: Seq<char>,
    pub added_res_header: Seq<char>,
}

impl View for HttpState {
    type V = HttpStateView;

    open spec fn view(&self) -> HttpStateView {
        HttpStateView {
            request: self.request,
            response: viewed(self.response),
            front_error: self.front_error,
            back_error: self.back_error,
            has_host: self.has_host,
            must_continue: self.must_continue,
            continues: self.continues,
            request_keep_alive: self.request_keep_alive,
            response_keep_alive: self.response_keep_alive,
            host: viewed(self.host),
            request_line: viewed(self.request_line),
            status_line: viewed(self.status_line),
            res_header_end: self.res_header_end,
            added_req_header: self.added_req_header@,
            added_res_header: self.added_res_header@,
        }
    }
}

impl HttpStateView {
    /// Nothing has been parsed yet, and there are no headers to add.
    pub open spec fn initial() -> HttpStateView {
        HttpStateView {
            request: Some(RequestState::Initial),
            response: Some(ResponseStateView::Initial),
            front_error: false,
            back_error: false,
            has_host: false,
            must_continue: None,
            continues: false,
            request_keep_alive: false,
            response_keep_alive: false,
            host: None,
            request_line: None,
            status_line: None,
            res_header_end: None,
            added_req_header: Seq::empty(),
            added_res_header: Seq::empty(),
        }
    }

    /// The same exchange with other headers to add.
    pub open spec fn adding(self, req_header: Seq<char>, res_header: Seq<char>) -> HttpStateView {
        HttpStateView { added_req_header: req_header, added_res_header: res_header, ..self }
    }

    /// The backend's request for the body has been passed on: nothing is known
    /// any more of that response, the response proper is still to come, and
    /// the request holds nothing back any more.
    pub open spec fn continued(self) -> HttpStateView {
        HttpStateView {
            response: Some(ResponseStateView::Initial),
            back_error: false,
            response_keep_alive: false,
            status_line: None,
            res_header_end: None,
            continues: if self.request is Some { false } else { self.continues },
            must_continue: if self.request is Some { None } else { self.must_continue },
            ..self
        }
    }

    /// Whether the client's connection outlives this exchange.
    pub open spec fn front_keep_alive(self) -> bool {
        self.request is Some && self.request_keep_alive
    }

    /// Whether the backend's connection outlives this exchange.
    pub open spec fn back_keep_alive(self) -> bool {
        self.response is Some && self.response_keep_alive
    }

    pub open spec fn request_is(self, state: RequestState) -> bool {
        self.request == Some(state)
    }

    pub open spec fn response_is(self, state: ResponseStateView) -> bool {
        self.response == Some(state)
    }
}

impl HttpState {
    /// Nothing has been parsed yet, and there are no headers to add.
    pub fn new() -> (r: HttpState)
        ensures
            r@ == HttpStateView::initial(),
    {
        HttpState {
            request: Some(RequestState::Initial),
            response: Some(ResponseState::Initial),
            front_error: false,
            back_error: false,
            has_host: false,
            must_continue: None,
            continues: false,
            request_keep_alive: false,
            response_keep_alive: false,
            host: None,
            request_line: None,
            status_line: None,
            res_header_end: None,
            added_req_header: String::new(),
            added_res_header: String::new(),
        }
    }

    /// Back to the state in which nothing has been parsed.
    pub fn reset(&mut self)
        ensures
            final(self)@ == HttpStateView::initial(),
    {
        *self = HttpState::new();
    }

    /// The backend's request for the body has been passed on.
    pub fn set_continued(&mut self)
        ensures
            final(self)@ == old(self)@.continued(),
    {
        self.response = Some(ResponseState::Initial);
        self.back_error = false;
        self.response_keep_alive = false;
        self.status_line = None;
        self.res_header_end = None;
        if self.request.is_some() {
            self.continues = false;
            self.must_continue = None;
        }
    }

    /// Whether the client's connection outlives this exchange.
    pub fn front_keep_alive(&self) -> (r: bool)
        ensures
            r == self@.front_keep_alive(),
    {
        self.request.is_some() && self.request_keep_alive
    }

    /// Whether the backend's connection outlives this exchange.
    pub fn back_keep_alive(&self) -> (r: bool)
        ensures
            r == self@.back_keep_alive(),
    {
        self.response.is_some() && self.response_keep_alive
    }

    /// Whether no byte of the request has been parsed.
    pub fn is_initial(&self) -> (r: bool)
        ensures
            r == self@.request_is(RequestState::Initial),
    {
        match self.request {
            Some(RequestState::Initial) => true,
            _ => false,
        }
    }
}

} // verus!

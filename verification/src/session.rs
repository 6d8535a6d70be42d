//! A session: one client's connection, the backend it is connected to, and
//! the exchange that passes between them.

use std::rc::Rc;

use mio::Token;
use vstd::prelude::*;
use vstd::slice::slice_subrange;

use crate::address::{
    clone_first_of, first_of, viewed, FrontAddresses, FrontAddressesView, IpAddr, IpAddrView,
    SocketAddr, SocketAddrView,
};
use crate::forward::{
    append_id_line, forwarding, id_line, is_way_known, make_request_header, request_header, Protocol,
};
use crate::readiness::{Kind, Readiness, ReadinessView};
use crate::report::{
    diagnosis, text_or_dash, Diagnostic, DiagnosticView, Effect, EffectView, Effects, Level,
    LogEntry, LogEntryView, LogKind, LogKindView, LogMessage, LogMessageView, Measure, MeasureView,
    Metric, SessionMetrics,
};
use crate::request_id::{is_request_id, new_request_id};
use crate::state::{
    HttpState, HttpStateView, RRequestLine, RRequestLineView, RStatusLine, RStatusLineView,
};
use crate::text::{append_decimal, decimal};

verus! {

/// The backend that a client is to be sent back to.
#[derive(Debug, PartialEq, Eq)]
pub struct StickySession {
    pub sticky_id: String,
}

impl View for StickySession {
    type V = Seq<char>;

    open spec fn view(&self) -> Seq<char> {
        self.sticky_id@
    }
}

impl Clone for StickySession {
    fn clone(&self) -> (r: Self)
        ensures
            r == *self,
    {
        StickySession { sticky_id: self.sticky_id.clone() }
    }
}

impl StickySession {
    pub fn new(backend_id: String) -> (r: StickySession)
        ensures
            r.sticky_id == backend_id,
    {
        StickySession { sticky_id: backend_id }
    }
}

/// An answer that the session gives by itself.
#[derive(Debug, Clone, Copy, PartialEq, Eq, Structural)]
pub enum DefaultAnswerStatus {
    Answer301,
    Answer400,
    Answer404,
    Answer503,
    Answer413,
}

impl DefaultAnswerStatus {
    /// The measure that counts these answers.
    pub open spec fn spec_metric(self) -> Metric {
        match self {
            DefaultAnswerStatus::Answer301 => Metric::Redirection301,
            DefaultAnswerStatus::Answer400 => Metric::Errors400,
            DefaultAnswerStatus::Answer404 => Metric::Errors404,
            DefaultAnswerStatus::Answer503 => Metric::Errors503,
            DefaultAnswerStatus::Answer413 => Metric::Errors413,
        }
    }

    fn metric(self) -> (r: Metric)
        ensures
            r == self.spec_metric(),
    {
        match self {
            DefaultAnswerStatus::Answer301 => Metric::Redirection301,
            DefaultAnswerStatus::Answer400 => Metric::Errors400,
            DefaultAnswerStatus::Answer404 => Metric::Errors404,
            DefaultAnswerStatus::Answer503 => Metric::Errors503,
            DefaultAnswerStatus::Answer413 => Metric::Errors413,
        }
    }

    pub open spec fn spec_name(self) -> Seq<char> {
        match self {
            DefaultAnswerStatus::Answer301 => "Answer301"@,
            DefaultAnswerStatus::Answer400 => "Answer400"@,
            DefaultAnswerStatus::Answer404 => "Answer404"@,
            DefaultAnswerStatus::Answer503 => "Answer503"@,
            DefaultAnswerStatus::Answer413 => "Answer413"@,
        }
    }

    fn name(self) -> (r: &'static str)
        ensures
            r@ == self.spec_name(),
    {
        match self {
            DefaultAnswerStatus::Answer301 => "Answer301",
            DefaultAnswerStatus::Answer400 => "Answer400",
            DefaultAnswerStatus::Answer404 => "Answer404",
            DefaultAnswerStatus::Answer503 => "Answer503",
            DefaultAnswerStatus::Answer413 => "Answer413",
        }
    }

    /// The status code and its reason.
    pub open spec fn spec_text(self) -> Seq<char> {
        match self {
            DefaultAnswerStatus::Answer301 => "301 Moved Permanently"@,
            DefaultAnswerStatus::Answer400 => "400 Bad Request"@,
            DefaultAnswerStatus::Answer404 => "404 Not Found"@,
            DefaultAnswerStatus::Answer503 => "503 Service Unavailable"@,
            DefaultAnswerStatus::Answer413 => "413 Payload Too Large"@,
        }
    }

    fn text(self) -> (r: &'static str)
        ensures
            r@ == self.spec_text(),
    {
        match self {
            DefaultAnswerStatus::Answer301 => "301 Moved Permanently",
            DefaultAnswerStatus::Answer400 => "400 Bad Request",
            DefaultAnswerStatus::Answer404 => "404 Not Found",
            DefaultAnswerStatus::Answer503 => "503 Service Unavailable",
            DefaultAnswerStatus::Answer413 => "413 Payload Too Large",
        }
    }
}

/// Whether the session passes data on or answers by itself.
#[derive(Debug, PartialEq, Eq)]
pub enum SessionStatus {
    Normal,
    /// Status, HTTP answer, index in the HTTP answer.
    DefaultAnswer(DefaultAnswerStatus, Rc<Vec<u8>>, usize),
}

pub enum SessionStatusView {
    Normal,
    DefaultAnswer(DefaultAnswerStatus, Seq<u8>, usize),
}

impl View for SessionStatus {
    type V = SessionStatusView;

    open spec fn view(&self) -> SessionStatusView {
        match self {
            SessionStatus::Normal => SessionStatusView::Normal,
            SessionStatus::DefaultAnswer(status, answer, index) =>
                SessionStatusView::DefaultAnswer(*status, answer@, *index),
        }
    }
}

impl SessionStatusView {
    /// What is left of the session's own answer from this index on.
    pub open spec fn answer_rest(self, index: usize) -> Seq<u8> {
        match self {
            SessionStatusView::Normal => Seq::empty(),
            SessionStatusView::DefaultAnswer(_, answer, _) => answer.skip(index as int),
        }
    }
}

impl SessionStatus {
    /// The bytes of the session's own answer that are to be written from this
    /// index on, if there is such an answer and it is that long.
    pub fn answer_from(&self, index: usize) -> (rest: Option<&[u8]>)
        ensures
            match self@ {
                SessionStatusView::DefaultAnswer(_, answer, _) if index <= answer.len() => rest
                    is Some && rest->0@ == self@.answer_rest(index),
                _ => rest is None,
            },
    {
        match self {
            SessionStatus::DefaultAnswer(_, answer, _) if index <= answer.len() => Some(
                slice_subrange(answer.as_slice(), index, answer.len()),
            ),
            _ => None,
        }
    }
}

impl Clone for SessionStatus {
    fn clone(&self) -> (r: Self)
        ensures
            r == *self,
    {
        match self {
            SessionStatus::Normal => SessionStatus::Normal,
            SessionStatus::DefaultAnswer(status, answer, index) => SessionStatus::DefaultAnswer(
                *status,
                answer.clone(),
                *index,
            ),
        }
    }
}

/// What becomes of the session after an event.
#[derive(Debug, Clone, Copy, PartialEq, Eq)]
pub enum SessionResult {
    CloseSession,
    CloseBackend(Option<Token>),
    Continue,
    ConnectBackend,
}

/// Whether the session goes on to speak HTTP.
#[derive(Debug, Clone, Copy, PartialEq, Eq, Structural)]
pub enum ProtocolResult {
    Upgrade,
    Continue,
}

/// How a read or a write on a socket went.
#[derive(Debug, Clone, Copy, PartialEq, Eq, Structural)]
pub enum SocketResult {
    Continue,
    Closed,
    WouldBlock,
    Error,
}

/// A session. `Front` and `Back` are the sockets and `Buf` is a buffer: the
/// session keeps them and lets them go, and leaves it to its owner to read
/// and write through them.
pub struct Http<Front, Back, Buf> {
    pub frontend: Front,
    pub backend: Option<Back>,
    pub frontend_token: Token,
    pub backend_token: Option<Token>,
    pub status: SessionStatus,
    pub state: Option<HttpState>,
    pub front_buf: Option<Buf>,
    pub back_buf: Option<Buf>,
    pub app_id: Option<String>,
    pub request_id: String,
    pub front_readiness: Readiness,
    pub back_readiness: Readiness,
    pub log_ctx: String,
    pub public_address: Option<IpAddr>,
    pub session_address: Option<SocketAddr>,
    pub sticky_name: String,
    pub sticky_session: Option<StickySession>,
    pub protocol: Protocol,
}

/// A session, with its texts as sequences and its readiness as sets.
#[verifier::ext_equal]
pub struct HttpView<Front, Back, Buf> {
    pub frontend: Front,
    pub backend: Option<Back>,
    pub frontend_token: Token,
    pub backend_token: Option<Token>,
    pub status: SessionStatusView,
    pub state: Option<HttpStateView>,
    pub front_buf: Option<Buf>,
    pub back_buf: Option<Buf>,
    pub app_id: Option<Seq<char>>,
    pub request_id: Seq<char>,
    pub front_readiness: ReadinessView,
    pub back_readiness: ReadinessView,
    pub log_ctx: Seq<char>,
    pub public_address: Option<IpAddrView>,
    pub session_address: Option<SocketAddrView>,
    pub sticky_name: Seq<char>,
    pub sticky_session: Option<Seq<char>>,
    pub protocol: Protocol,
}

impl<Front, Back, Buf> View for Http<Front, Back, Buf> {
    type V = HttpView<Front, Back, Buf>;

    open spec fn view(&self) -> HttpView<Front, Back, Buf> {
        HttpView {
            frontend: self.frontend,
            backend: self.backend,
            frontend_token: self.frontend_token,
            backend_token: self.backend_token,
            status: self.status@,
            state: viewed(self.state),
            front_buf: self.front_buf,
            back_buf: self.back_buf,
            app_id: viewed(self.app_id),
            request_id: self.request_id@,
            front_readiness: self.front_readiness@,
            back_readiness: self.back_readiness@,
            log_ctx: self.log_ctx@,
            public_address: viewed(self.public_address),
            session_address: viewed(self.session_address),
            sticky_name: self.sticky_name@,
            sticky_session: viewed(self.sticky_session),
            protocol: self.protocol,
        }
    }
}

/// The prefix of the log lines of a request.
pub open spec fn log_prefix(request_id: Seq<char>, app_id: Option<Seq<char>>) -> Seq<char> {
    match app_id {
        Some(app_id) => request_id + " "@ + app_id + "\t"@,
        None => request_id + " "@ + "unknown"@ + "\t"@,
    }
}

fn make_log_prefix(request_id: &str, app_id: &Option<String>) -> (text: String)
    ensures
        text@ == log_prefix(request_id@, viewed(*app_id)),
{
    let mut text = request_id.to_owned();
    text.append(" ");
    match app_id {
        Some(app_id) => text.append(app_id.as_str()),
        None => text.append("unknown"),
    }
    text.append("\t");
    text
}

impl<Front, Back, Buf> HttpView<Front, Back, Buf> {
    /// The session answers by itself.
    pub open spec fn is_answering(self) -> bool {
        self.status is DefaultAnswer
    }

    pub open spec fn front_waits(self, kind: Kind) -> Self {
        HttpView { front_readiness: self.front_readiness.waiting_for(kind), ..self }
    }

    pub open spec fn front_ignores(self, kind: Kind) -> Self {
        HttpView { front_readiness: self.front_readiness.ignoring(kind), ..self }
    }

    pub open spec fn front_used_up(self, kind: Kind) -> Self {
        HttpView { front_readiness: self.front_readiness.used_up(kind), ..self }
    }

    pub open spec fn back_waits(self, kind: Kind) -> Self {
        HttpView { back_readiness: self.back_readiness.waiting_for(kind), ..self }
    }

    pub open spec fn back_ignores(self, kind: Kind) -> Self {
        HttpView { back_readiness: self.back_readiness.ignoring(kind), ..self }
    }

    pub open spec fn back_used_up(self, kind: Kind) -> Self {
        HttpView { back_readiness: self.back_readiness.used_up(kind), ..self }
    }

    /// The session has no events left and waits for none.
    pub open spec fn idle(self) -> Self {
        HttpView {
            front_readiness: ReadinessView::none(),
            back_readiness: ReadinessView::none(),
            ..self
        }
    }

    pub open spec fn with_state(self, state: HttpStateView) -> Self {
        HttpView { state: Some(state), ..self }
    }

    /// The session drops its buffers, and waits for nothing but to send
    /// `answer` to the client.
    pub open spec fn answered(self, status: DefaultAnswerStatus, answer: Seq<u8>) -> Self {
        HttpView {
            front_buf: None,
            back_buf: None,
            status: SessionStatusView::DefaultAnswer(status, answer, 0),
            front_readiness: self.front_readiness.waiting_only_for(Kind::Writable),
            back_readiness: self.back_readiness.waiting_for_end(),
            ..self
        }
    }

    /// An answer counts only if it is the session's first. Any other is an
    /// error of whoever sets it.
    pub open spec fn answer_effects(self, status: DefaultAnswerStatus) -> Seq<EffectView> {
        match self.status {
            SessionStatusView::DefaultAnswer(first, _, _) => diagnosis(
                Level::Error,
                "already set the default answer to "@ + first.spec_name() + ", trying to set to "@
                    + status.spec_name(),
            ),
            SessionStatusView::Normal => seq![
                EffectView::Measure(MeasureView::Incr(status.spec_metric())),
            ],
        }
    }

    /// The effect of a diagnostic that names the request.
    pub open spec fn request_diagnosis(self, level: Level, text: Seq<char>) -> Seq<EffectView> {
        diagnosis(level, self.log_ctx + text)
    }

    /// The effect of letting the backend go.
    pub open spec fn backend_closed_effects(self) -> Seq<EffectView> {
        seq![
            EffectView::Diagnose(
                Level::Debug,
                DiagnosticView::BackendClosed {
                    log_ctx: self.log_ctx,
                    front: self.frontend_token,
                    back: self.backend_token,
                },
            ),
        ]
    }

    /// The log lines begin with the request and its application again.
    pub open spec fn with_log_context(self) -> Self {
        HttpView { log_ctx: log_prefix(self.request_id, self.app_id), ..self }
    }

    /// The request goes to this application.
    pub open spec fn with_app_id(self, app_id: Seq<char>) -> Self {
        HttpView {
            app_id: Some(app_id),
            log_ctx: log_prefix(self.request_id, Some(app_id)),
            ..self
        }
    }

    /// The session has a socket to the backend.
    pub open spec fn with_backend(self, socket: Back) -> Self {
        HttpView { backend: Some(socket), ..self }
    }

    /// The backend's socket is registered under this token, if any.
    pub open spec fn with_backend_token(self, token: Option<Token>) -> Self {
        HttpView { backend_token: token, ..self }
    }

    /// The session has no backend.
    pub open spec fn without_backend(self) -> Self {
        HttpView { backend: None, backend_token: None, ..self }
    }

    pub open spec fn host(self) -> Option<Seq<char>> {
        match self.state {
            Some(state) => state.host,
            None => None,
        }
    }

    pub open spec fn request_line(self) -> Option<RRequestLineView> {
        match self.state {
            Some(state) => state.request_line,
            None => None,
        }
    }

    pub open spec fn status_line(self) -> Option<RStatusLineView> {
        match self.state {
            Some(state) => state.status_line,
            None => None,
        }
    }

    pub open spec fn request_line_text(self) -> Seq<char> {
        match self.request_line() {
            Some(line) => line.method + " "@ + line.uri,
            None => "-"@,
        }
    }

    /// The status line of the response.
    pub open spec fn status_line_text(self) -> Seq<char> {
        match self.status_line() {
            Some(line) => decimal(line.status as nat) + " "@ + line.reason,
            None => "-"@,
        }
    }

    /// The status line of the answer that the session gives by itself.
    pub open spec fn answer_text(self) -> Seq<char> {
        match self.status {
            SessionStatusView::Normal => "-"@,
            SessionStatusView::DefaultAnswer(status, _, _) => status.spec_text(),
        }
    }

    /// The entry that the session makes into the access log.
    pub open spec fn log_entry(self, kind: LogKindView, metrics: SessionMetrics) -> LogEntryView {
        LogEntryView {
            kind,
            log_ctx: self.log_ctx,
            session_address: self.session_address,
            app_id: self.app_id,
            status_line: if kind is DefaultAnswer {
                self.answer_text()
            } else {
                self.status_line_text()
            },
            host: text_or_dash(self.host()),
            request_line: self.request_line_text(),
            metrics,
        }
    }

    /// The effects of a failure: the clock stops and the log gets an entry.
    pub open spec fn error_effects(self, message: LogMessageView, metrics: SessionMetrics) -> Seq<
        EffectView,
    > {
        seq![
            EffectView::ServiceStop,
            EffectView::Log(self.log_entry(LogKindView::Error(message), metrics)),
        ]
    }

    /// The header lines for the request under way.
    pub open spec fn req_header(self, addresses: FrontAddressesView) -> Seq<char> {
        request_header(
            forwarding(self.public_address, self.session_address, addresses),
            self.protocol,
            self.request_id,
        )
    }

    /// The session can name its protocol, or does not have to.
    pub open spec fn can_forward(self, addresses: FrontAddressesView) -> bool {
        forwarding(self.public_address, self.session_address, addresses) is Some ==> self.protocol
            != Protocol::Other
    }

    /// The session is ready for another request of its client. A front buffer
    /// that still holds data is kept, and counts as something to read; the
    /// headers to add are those of the request that is over.
    pub open spec fn after_reset(
        self,
        request_id: Seq<char>,
        addresses: FrontAddressesView,
        front_is_empty: bool,
    ) -> Self {
        let keeps_front = self.front_buf is Some && !front_is_empty;
        HttpView {
            state: match self.state {
                Some(_) => Some(
                    HttpStateView::initial().adding(
                        self.req_header(addresses),
                        id_line(self.request_id),
                    ),
                ),
                None => None,
            },
            front_buf: if keeps_front { self.front_buf } else { None },
            front_readiness: if keeps_front {
                self.front_readiness.seeing(Kind::Readable)
            } else {
                self.front_readiness
            },
            back_buf: None,
            request_id,
            log_ctx: log_prefix(request_id, self.app_id),
            ..self
        }
    }

    pub open spec fn reset_effects(self) -> Seq<EffectView> {
        let gauge = EffectView::Measure(
            MeasureView::GaugeAdd(Metric::ActiveRequests, (-1) as i64),
        );
        if self.state is Some {
            seq![gauge, EffectView::ResetState]
        } else {
            seq![gauge]
        }
    }
}

impl<Front, Back, Buf> Http<Front, Back, Buf> {
    /// A session for a client that has just connected.
    pub fn new(
        sock: Front,
        token: Token,
        public_address: Option<IpAddr>,
        session_address: Option<SocketAddr>,
        sticky_name: String,
        protocol: Protocol,
        addresses: &FrontAddresses,
    ) -> (r: Option<Self>)
        requires
            forwarding(viewed(public_address), viewed(session_address), addresses@) is Some
                ==> protocol != Protocol::Other,
        ensures
            r is Some,
            is_request_id(r->0@.request_id),
            r->0@ == fresh_session::<Front, Back, Buf>(
                sock,
                token,
                r->0@.request_id,
                viewed(public_address),
                viewed(session_address),
                sticky_name@,
                protocol,
                addresses@,
            ),
    {
        let request_id = new_request_id();
        Some(
            Self::with_request_id(
                sock,
                token,
                request_id,
                public_address,
                session_address,
                sticky_name,
                protocol,
                addresses,
            ),
        )
    }

    /// A session whose first request has this identifier.
    pub fn with_request_id(
        sock: Front,
        token: Token,
        request_id: String,
        public_address: Option<IpAddr>,
        session_address: Option<SocketAddr>,
        sticky_name: String,
        protocol: Protocol,
        addresses: &FrontAddresses,
    ) -> (r: Self)
        requires
            forwarding(viewed(public_address), viewed(session_address), addresses@) is Some
                ==> protocol != Protocol::Other,
        ensures
            r@ == fresh_session::<Front, Back, Buf>(
                sock,
                token,
                request_id@,
                viewed(public_address),
                viewed(session_address),
                sticky_name@,
                protocol,
                addresses@,
            ),
    {
        let log_ctx = make_log_prefix(request_id.as_str(), &None);
        let mut state = HttpState::new();
        state.added_req_header = make_request_header(
            &public_address,
            &session_address,
            addresses,
            protocol,
            request_id.as_str(),
        );
        let mut res_header = String::new();
        append_id_line(&mut res_header, request_id.as_str());
        state.added_res_header = res_header;
        Http {
            frontend: sock,
            backend: None,
            frontend_token: token,
            backend_token: None,
            status: SessionStatus::Normal,
            state: Some(state),
            front_buf: None,
            back_buf: None,
            app_id: None,
            request_id,
            front_readiness: Readiness::new(),
            back_readiness: Readiness::new(),
            log_ctx,
            public_address,
            session_address,
            sticky_name,
            sticky_session: None,
            protocol,
        }
    }

    /// Makes the session ready for another request of its client.
    /// `front_is_empty` tells of the front buffer, if there is one.
    pub fn reset(&mut self, addresses: &FrontAddresses, front_is_empty: bool, effects: &mut Effects)
        requires
            old(self)@.can_forward(addresses@),
        ensures
            is_request_id(final(self)@.request_id),
            final(self)@ == old(self)@.after_reset(
                final(self)@.request_id,
                addresses@,
                front_is_empty,
            ),
            final(effects)@ == old(effects)@ + old(self)@.reset_effects(),
    {
        let request_id = new_request_id();
        self.reset_to(request_id, addresses, front_is_empty, effects);
    }

    /// Makes the session ready for the request with this identifier.
    pub fn reset_to(
        &mut self,
        request_id: String,
        addresses: &FrontAddresses,
        front_is_empty: bool,
        effects: &mut Effects,
    )
        requires
            old(self)@.can_forward(addresses@),
        ensures
            final(self)@ == old(self)@.after_reset(request_id@, addresses@, front_is_empty),
            final(effects)@ == old(effects)@ + old(self)@.reset_effects(),
    {
        effects.measure(Measure::GaugeAdd(Metric::ActiveRequests, -1));
        if self.state.is_some() {
            effects.emit(Effect::ResetState);
            self.state().reset();
        }
        let req_header = self.added_request_header(
            &self.public_address,
            &self.session_address,
            addresses,
        );
        let res_header = self.added_response_header();
        if self.state.is_some() {
            let state = self.state();
            state.added_req_header = req_header;
            state.added_res_header = res_header;
        }
        // if HTTP requests are pipelined, we might still have some data in the front buffer
        if self.front_buf.is_some() && !front_is_empty {
            self.front_readiness.see(Kind::Readable);
        } else {
            self.front_buf = None;
        }
        self.back_buf = None;
        self.request_id = request_id;
        self.reset_log_context();
    }

    pub fn reset_log_context(&mut self)
        ensures
            final(self)@ == old(self)@.with_log_context(),
    {
        self.log_ctx = make_log_prefix(self.request_id.as_str(), &self.app_id);
    }

    /// The tokens of both sockets, once there is a backend.
    pub fn tokens(&self) -> (r: Option<(Token, Token)>)
        ensures
            r == (match self@.backend_token {
                Some(back) => Some((self@.frontend_token, back)),
                None => None,
            }),
    {
        if let Some(back) = self.backend_token {
            return Some((self.frontend_token, back));
        }
        None
    }

    /// The state of the exchange.
    pub fn state(&mut self) -> (r: &mut HttpState)
        requires
            old(self).state is Some,
        ensures
            *r == old(self).state->0,
            final(self)@ == old(self)@.with_state(final(r)@),
    {
        self.state.as_mut().unwrap()
    }

    pub fn set_state(&mut self, state: HttpState)
        ensures
            final(self)@ == old(self)@.with_state(state@),
    {
        self.state = Some(state);
    }

    /// From now on the session does nothing but send this answer.
    pub fn set_answer(
        &mut self,
        answer: DefaultAnswerStatus,
        buf: Rc<Vec<u8>>,
        effects: &mut Effects,
    )
        ensures
            final(self)@ == old(self)@.answered(answer, buf@),
            final(effects)@ == old(effects)@ + old(self)@.answer_effects(answer),
    {
        self.front_buf = None;
        self.back_buf = None;
        match self.status {
            SessionStatus::Normal => {
                effects.measure(Measure::Incr(answer.metric()));
            },
            SessionStatus::DefaultAnswer(first, _, _) => {
                let mut text = "already set the default answer to ".to_owned();
                text.append(first.name());
                text.append(", trying to set to ");
                text.append(answer.name());
                effects.diagnose(Level::Error, text);
            },
        }
        self.status = SessionStatus::DefaultAnswer(answer, buf, 0);
        self.front_readiness.wait_only_for(Kind::Writable);
        self.back_readiness.wait_for_end();
    }

    /// The header lines that a request gets on its way to the backend.
    pub fn added_request_header(
        &self,
        public_address: &Option<IpAddr>,
        session_address: &Option<SocketAddr>,
        addresses: &FrontAddresses,
    ) -> (header: String)
        requires
            forwarding(viewed(*public_address), viewed(*session_address), addresses@) is Some
                ==> self@.protocol != Protocol::Other,
        ensures
            header@ == request_header(
                forwarding(viewed(*public_address), viewed(*session_address), addresses@),
                self@.protocol,
                self@.request_id,
            ),
    {
        make_request_header(
            public_address,
            session_address,
            addresses,
            self.protocol(),
            self.request_id.as_str(),
        )
    }

    /// Whether the session can write the header lines of its requests: it
    /// speaks a protocol that it can name, or does not know their way.
    pub fn can_add_headers(&self, addresses: &FrontAddresses) -> (r: bool)
        ensures
            r == self@.can_forward(addresses@),
    {
        let is_known = is_way_known(&self.public_address, &self.session_address, addresses);
        !is_known || self.protocol() != Protocol::Other
    }

    /// The header line that a response gets on its way to the client.
    pub fn added_response_header(&self) -> (header: String)
        ensures
            header@ == id_line(self@.request_id),
    {
        let mut header = String::new();
        append_id_line(&mut header, self.request_id.as_str());
        header
    }

    pub fn front_socket(&self) -> (r: &Front)
        ensures
            *r == self@.frontend,
    {
        &self.frontend
    }

    pub fn back_socket(&self) -> (r: Option<&Back>)
        ensures
            r == (match self@.backend {
                Some(socket) => Some(&socket),
                None => None,
            }),
    {
        self.backend.as_ref()
    }

    pub fn back_token(&self) -> (r: Option<Token>)
        ensures
            r == self@.backend_token,
    {
        self.backend_token
    }

    /// A session has nothing to do when it is closed.
    pub fn close(&mut self)
        ensures
            *final(self) == *old(self),
    {
    }

    /// The request and its application, for a log.
    pub fn log_context(&self) -> (text: String)
        ensures
            text@ == self@.request_id + "\t"@ + (match self@.app_id {
                Some(app_id) => app_id,
                None => "unknown"@,
            }) + "\t"@,
    {
        let mut text = self.request_id.clone();
        text.append("\t");
        match &self.app_id {
            Some(app_id) => text.append(app_id.as_str()),
            None => text.append("unknown"),
        }
        text.append("\t");
        text
    }

    pub fn set_back_socket(&mut self, socket: Back)
        ensures
            final(self)@ == old(self)@.with_backend(socket),
    {
        self.backend = Some(socket);
    }

    pub fn set_app_id(&mut self, app_id: String)
        ensures
            final(self)@ == old(self)@.with_app_id(app_id@),
    {
        self.app_id = Some(app_id);
        self.log_ctx = make_log_prefix(self.request_id.as_str(), &self.app_id);
    }

    pub fn set_back_token(&mut self, token: Token)
        ensures
            final(self)@ == old(self)@.with_backend_token(Some(token)),
    {
        self.backend_token = Some(token);
    }

    pub fn clear_back_token(&mut self)
        ensures
            final(self)@ == old(self)@.with_backend_token(None),
    {
        self.backend_token = None;
    }

    pub fn front_readiness(&mut self) -> (r: &mut Readiness)
        ensures
            *r == old(self).front_readiness,
            final(self)@ == (HttpView { front_readiness: final(r)@, ..old(self)@ }),
    {
        &mut self.front_readiness
    }

    pub fn back_readiness(&mut self) -> (r: &mut Readiness)
        ensures
            *r == old(self).back_readiness,
            final(self)@ == (HttpView { back_readiness: final(r)@, ..old(self)@ }),
    {
        &mut self.back_readiness
    }

    fn protocol(&self) -> (r: Protocol)
        ensures
            r == self@.protocol,
    {
        self.protocol
    }

    /// Lets the backend go, and tells which application and which address it
    /// served. `peer` is the far end that the backend's socket reports, if
    /// any.
    pub fn remove_backend(&mut self, peer: Option<SocketAddr>, effects: &mut Effects) -> (r: (
        Option<String>,
        Option<SocketAddr>,
    ))
        ensures
            final(self)@ == old(self)@.without_backend(),
            final(effects)@ == old(effects)@ + old(self)@.backend_closed_effects(),
            viewed(r.0) == old(self)@.app_id,
            viewed(r.1) == if old(self)@.backend is Some {
                viewed(peer)
            } else {
                None
            },
    {
        let log_ctx = self.log_ctx.clone();
        effects.emit(
            Effect::Diagnose(
                Level::Debug,
                Diagnostic::BackendClosed {
                    log_ctx,
                    front: self.frontend_token,
                    back: self.backend_token,
                },
            ),
        );
        let address = self.get_backend_address(peer);
        self.backend = None;
        self.backend_token = None;
        (self.app_id.clone(), address)
    }

    /// The client has hung up.
    pub fn front_hup(&mut self) -> (r: SessionResult)
        ensures
            *final(self) == *old(self),
            r == SessionResult::CloseSession,
    {
        SessionResult::CloseSession
    }

    /// The status line of the response, once it is parsed.
    pub fn get_response_status(&self) -> (r: Option<RStatusLine>)
        ensures
            viewed(r) == self@.status_line(),
    {
        match &self.state {
            Some(state) => state.status_line.clone(),
            None => None,
        }
    }

    pub fn get_host(&self) -> (r: Option<String>)
        ensures
            viewed(r) == self@.host(),
    {
        match &self.state {
            Some(state) => state.host.clone(),
            None => None,
        }
    }

    pub fn get_request_line(&self) -> (r: Option<RRequestLine>)
        ensures
            viewed(r) == self@.request_line(),
    {
        match &self.state {
            Some(state) => state.request_line.clone(),
            None => None,
        }
    }

    /// The address of the client: the one that the session was given, else
    /// `peer`, the far end that the client's socket reports.
    pub fn get_session_address(&self, peer: &Option<SocketAddr>) -> (r: Option<SocketAddr>)
        ensures
            viewed(r) == first_of(self@.session_address, viewed(*peer)),
    {
        clone_first_of(&self.session_address, peer)
    }

    /// The address of the backend, if there is one: `peer`, the far end that
    /// the backend's socket reports.
    pub fn get_backend_address(&self, peer: Option<SocketAddr>) -> (r: Option<SocketAddr>)
        ensures
            viewed(r) == if self@.backend is Some {
                viewed(peer)
            } else {
                None
            },
    {
        if self.backend.is_some() {
            peer
        } else {
            None
        }
    }
}

impl<Front, Back, Buf> Http<Front, Back, Buf> {
    fn request_line_text(&self) -> (text: String)
        ensures
            text@ == self@.request_line_text(),
    {
        match self.get_request_line() {
            Some(line) => {
                let mut text = line.method;
                text.append(" ");
                text.append(line.uri.as_str());
                text
            },
            None => "-".to_owned(),
        }
    }

    fn status_line_text(&self) -> (text: String)
        ensures
            text@ == self@.status_line_text(),
    {
        match self.get_response_status() {
            Some(line) => {
                let mut text = String::new();
                append_decimal(&mut text, line.status as usize);
                text.append(" ");
                text.append(line.reason.as_str());
                text
            },
            None => "-".to_owned(),
        }
    }

    fn answer_text(&self) -> (text: String)
        ensures
            text@ == self@.answer_text(),
    {
        match self.status {
            SessionStatus::Normal => "-".to_owned(),
            SessionStatus::DefaultAnswer(status, _, _) => status.text().to_owned(),
        }
    }

    fn make_log_entry(&self, kind: LogKind, metrics: &SessionMetrics) -> (entry: LogEntry)
        ensures
            entry@ == self@.log_entry(kind@, *metrics),
    {
        let status_line = match kind {
            LogKind::DefaultAnswer => self.answer_text(),
            _ => self.status_line_text(),
        };
        let host = match self.get_host() {
            Some(host) => host,
            None => "-".to_owned(),
        };
        LogEntry {
            kind,
            log_ctx: self.log_ctx.clone(),
            session_address: self.session_address.clone(),
            app_id: self.app_id.clone(),
            status_line,
            host,
            request_line: self.request_line_text(),
            metrics: *metrics,
        }
    }

    /// Reports a diagnostic that names the request.
    pub(crate) fn diagnose(&self, level: Level, text: &str, effects: &mut Effects)
        ensures
            final(effects)@ == old(effects)@ + self@.request_diagnosis(level, text@),
    {
        let mut line = self.log_ctx.clone();
        line.append(text);
        effects.diagnose(level, line);
    }

    /// Logs a response that was passed on.
    pub fn log_request_success(&self, metrics: &SessionMetrics, effects: &mut Effects)
        ensures
            final(effects)@ == old(effects)@.push(
                EffectView::Log(self@.log_entry(LogKindView::Success, *metrics)),
            ),
    {
        effects.emit(Effect::Log(self.make_log_entry(LogKind::Success, metrics)));
    }

    /// Logs an answer that the session gave by itself.
    pub fn log_default_answer_success(&self, metrics: &SessionMetrics, effects: &mut Effects)
        ensures
            final(effects)@ == old(effects)@.push(
                EffectView::Log(self@.log_entry(LogKindView::DefaultAnswer, *metrics)),
            ),
    {
        effects.emit(Effect::Log(self.make_log_entry(LogKind::DefaultAnswer, metrics)));
    }

    /// Logs a failure: the clock stops, and the session waits for nothing
    /// any more.
    pub fn log_request_error(
        &mut self,
        metrics: &SessionMetrics,
        message: LogMessage,
        effects: &mut Effects,
    )
        ensures
            final(self)@ == old(self)@.idle(),
            final(effects)@ == old(effects)@ + old(self)@.error_effects(message@, *metrics),
    {
        effects.emit(Effect::ServiceStop);
        self.front_readiness.reset();
        self.back_readiness.reset();
        effects.emit(Effect::Log(self.make_log_entry(LogKind::Error(message), metrics)));
    }

    /// Logs a failure that `message` describes.
    pub(crate) fn fail(&mut self, metrics: &SessionMetrics, message: &str, effects: &mut Effects)
        ensures
            final(self)@ == old(self)@.idle(),
            final(effects)@ == old(effects)@ + old(self)@.error_effects(
                LogMessageView::Text(message@),
                *metrics,
            ),
    {
        self.log_request_error(metrics, LogMessage::Text(message.to_owned()), effects);
    }
}

/// A session for a client that has just connected, whose first request has
/// this identifier.
pub open spec fn fresh_session<Front, Back, Buf>(
    sock: Front,
    token: Token,
    request_id: Seq<char>,
    public_address: Option<IpAddrView>,
    session_address: Option<SocketAddrView>,
    sticky_name: Seq<char>,
    protocol: Protocol,
    addresses: FrontAddressesView,
) -> HttpView<Front, Back, Buf> {
    HttpView {
        frontend: sock,
        backend: None,
        frontend_token: token,
        backend_token: None,
        status: SessionStatusView::Normal,
        state: Some(
            HttpStateView::initial().adding(
                request_header(
                    forwarding(public_address, session_address, addresses),
                    protocol,
                    request_id,
                ),
                id_line(request_id),
            ),
        ),
        front_buf: None,
        back_buf: None,
        app_id: None,
        request_id,
        front_readiness: ReadinessView::none(),
        back_readiness: ReadinessView::none(),
        log_ctx: log_prefix(request_id, None),
        public_address,
        session_address,
        sticky_name,
        sticky_session: None,
        protocol,
    }
}

} // verus!

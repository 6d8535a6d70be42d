//! What the session reports while it works: measures, log entries, and
//! requests to the parts that it does not hold itself.

use mio::Token;
use vstd::prelude::*;

use crate::address::{clone_first_of, first_of, viewed, SocketAddr, SocketAddrView};
use crate::elapsed::{millis_in, whole_millis};
use crate::hex::{can_dump, hex_dump, to_hex};
use crate::readiness::{Readiness, ReadinessView};
use crate::state::{RStatusLine, RStatusLineView};
use crate::text::{append_decimal, decimal};

verus! {

/// The name of a measure.
#[derive(Debug, Clone, Copy, PartialEq, Eq, Structural)]
pub enum Metric {
    ActiveRequests,
    Requests,
    Redirection301,
    Errors400,
    Errors404,
    Errors413,
    Errors503,
    FrontParseErrors,
    Errors,
    BytesIn,
    BytesOut,
    RequestTime,
    DefaultAnswerTime,
    Status1xx,
    Status2xx,
    Status3xx,
    Status4xx,
    Status5xx,
    StatusOther,
}

impl Metric {
    pub open spec fn spec_name(self) -> Seq<char> {
        match self {
            Metric::ActiveRequests => "http.active_requests"@,
            Metric::Requests => "http.requests"@,
            Metric::Redirection301 => "http.301.redirection"@,
            Metric::Errors400 => "http.400.errors"@,
            Metric::Errors404 => "http.404.errors"@,
            Metric::Errors413 => "http.413.errors"@,
            Metric::Errors503 => "http.503.errors"@,
            Metric::FrontParseErrors => "http.front_parse_errors"@,
            Metric::Errors => "http.errors"@,
            Metric::BytesIn => "bytes_in"@,
            Metric::BytesOut => "bytes_out"@,
            Metric::RequestTime => "request_time"@,
            Metric::DefaultAnswerTime => "http.request.time"@,
            Metric::Status1xx => "http.status.1xx"@,
            Metric::Status2xx => "http.status.2xx"@,
            Metric::Status3xx => "http.status.3xx"@,
            Metric::Status4xx => "http.status.4xx"@,
            Metric::Status5xx => "http.status.5xx"@,
            Metric::StatusOther => "http.status.other"@,
        }
    }

    /// The name under which the measure is published.
    pub fn name(self) -> (r: &'static str)
        ensures
            r@ == self.spec_name(),
    {
        match self {
            Metric::ActiveRequests => "http.active_requests",
            Metric::Requests => "http.requests",
            Metric::Redirection301 => "http.301.redirection",
            Metric::Errors400 => "http.400.errors",
            Metric::Errors404 => "http.404.errors",
            Metric::Errors413 => "http.413.errors",
            Metric::Errors503 => "http.503.errors",
            Metric::FrontParseErrors => "http.front_parse_errors",
            Metric::Errors => "http.errors",
            Metric::BytesIn => "bytes_in",
            Metric::BytesOut => "bytes_out",
            Metric::RequestTime => "request_time",
            Metric::DefaultAnswerTime => "http.request.time",
            Metric::Status1xx => "http.status.1xx",
            Metric::Status2xx => "http.status.2xx",
            Metric::Status3xx => "http.status.3xx",
            Metric::Status4xx => "http.status.4xx",
            Metric::Status5xx => "http.status.5xx",
            Metric::StatusOther => "http.status.other",
        }
    }
}

/// One measure.
#[derive(Debug, PartialEq, Eq)]
pub enum Measure {
    /// One more of these.
    Incr(Metric),
    /// So many more of these.
    Count(Metric, i64),
    /// The gauge moves by this much.
    GaugeAdd(Metric, i64),
    /// The application took so many milliseconds.
    Time { metric: Metric, app_id: String, millis: i64 },
    /// A backend answered: how fast, and how many bytes came and went.
    Backend { app_id: String, backend_id: String, millis: i64, bin: usize, bout: usize },
}

pub enum MeasureView {
    Incr(Metric),
    Count(Metric, i64),
    GaugeAdd(Metric, i64),
    Time { metric: Metric, app_id: Seq<char>, millis: i64 },
    Backend { app_id: Seq<char>, backend_id: Seq<char>, millis: i64, bin: usize, bout: usize },
}

impl View for Measure {
    type V = MeasureView;

    open spec fn view(&self) -> MeasureView {
        match self {
            Measure::Incr(metric) => MeasureView::Incr(*metric),
            Measure::Count(metric, n) => MeasureView::Count(*metric, *n),
            Measure::GaugeAdd(metric, n) => MeasureView::GaugeAdd(*metric, *n),
            Measure::Time { metric, app_id, millis } =>
                MeasureView::Time { metric: *metric, app_id: app_id@, millis: *millis },
            Measure::Backend { app_id, backend_id, millis, bin, bout } => MeasureView::Backend {
                app_id: app_id@,
                backend_id: backend_id@,
                millis: *millis,
                bin: *bin,
                bout: *bout,
            },
        }
    }
}

/// The byte counts of the exchange under way.
#[derive(Debug, Clone, Copy, PartialEq, Eq, Structural)]
pub struct SessionMetrics {
    /// Bytes read from the client.
    pub bin: usize,
    /// Bytes written to the client.
    pub bout: usize,
    /// Bytes read from the backend.
    pub backend_bin: usize,
    /// Bytes written to the backend.
    pub backend_bout: usize,
}

impl SessionMetrics {
    pub open spec fn zero() -> SessionMetrics {
        SessionMetrics { bin: 0, bout: 0, backend_bin: 0, backend_bout: 0 }
    }

    /// Nothing counted yet.
    pub fn new() -> (r: SessionMetrics)
        ensures
            r == SessionMetrics::zero(),
    {
        SessionMetrics { bin: 0, bout: 0, backend_bin: 0, backend_bout: 0 }
    }

    /// Starts to count from nothing again.
    pub fn reset(&mut self)
        ensures
            *final(self) == SessionMetrics::zero(),
    {
        *self = SessionMetrics::new();
    }
}

/// Why a session failed.
#[derive(Debug)]
pub enum LogMessage {
    Text(String),
    /// The client's socket failed while the two sides were this ready.
    FrontSocketError { front: Readiness, back: Readiness },
}

pub enum LogMessageView {
    Text(Seq<char>),
    FrontSocketError { front: ReadinessView, back: ReadinessView },
}

impl View for LogMessage {
    type V = LogMessageView;

    open spec fn view(&self) -> LogMessageView {
        match self {
            LogMessage::Text(text) => LogMessageView::Text(text@),
            LogMessage::FrontSocketError { front, back } =>
                LogMessageView::FrontSocketError { front: front@, back: back@ },
        }
    }
}

/// The message for a client socket that failed, with the readiness of both
/// sides in text.
pub open spec fn front_socket_error_text(front: Seq<char>, back: Seq<char>) -> Seq<char> {
    "front socket error, closing the connection. Readiness: "@ + front + " -> "@ + back
}

impl LogMessageView {
    /// Whether `text` is this message in text.
    pub open spec fn prints_as(self, text: Seq<char>) -> bool {
        match self {
            LogMessageView::Text(message) => text == message,
            LogMessageView::FrontSocketError { front, back } =>
                exists|front_text: Seq<char>, back_text: Seq<char>|
                    #![trigger front_socket_error_text(front_text, back_text)]
                    {
                        &&& front.prints_as(front_text)
                        &&& back.prints_as(back_text)
                        &&& text == front_socket_error_text(front_text, back_text)
                    },
        }
    }
}

impl LogMessage {
    /// The message in text.
    pub fn text(&self) -> (text: String)
        ensures
            self@.prints_as(text@),
    {
        match self {
            LogMessage::Text(text) => text.clone(),
            LogMessage::FrontSocketError { front, back } => {
                let front_text = front.text();
                let back_text = back.text();
                LogMessage::front_socket_error(front_text.as_str(), back_text.as_str())
            },
        }
    }

    /// The message for a client socket that failed.
    pub fn front_socket_error(front: &str, back: &str) -> (text: String)
        ensures
            text@ == front_socket_error_text(front@, back@),
    {
        let mut text = "front socket error, closing the connection. Readiness: ".to_owned();
        text.append(front);
        text.append(" -> ");
        text.append(back);
        text
    }
}

/// What a log entry is about.
#[derive(Debug)]
pub enum LogKind {
    /// A response was passed on.
    Success,
    /// The session answered by itself.
    DefaultAnswer,
    /// The session failed.
    Error(LogMessage),
}

pub enum LogKindView {
    Success,
    DefaultAnswer,
    Error(LogMessageView),
}

impl View for LogKind {
    type V = LogKindView;

    open spec fn view(&self) -> LogKindView {
        match self {
            LogKind::Success => LogKindView::Success,
            LogKind::DefaultAnswer => LogKindView::DefaultAnswer,
            LogKind::Error(message) => LogKindView::Error(message@),
        }
    }
}

/// An entry of the access log, as the session stood when it was made.
#[derive(Debug)]
pub struct LogEntry {
    pub kind: LogKind,
    pub log_ctx: String,
    pub session_address: Option<SocketAddr>,
    pub app_id: Option<String>,
    pub status_line: String,
    pub host: String,
    pub request_line: String,
    pub metrics: SessionMetrics,
}

pub struct LogEntryView {
    pub kind: LogKindView,
    pub log_ctx: Seq<char>,
    pub session_address: Option<SocketAddrView>,
    pub app_id: Option<Seq<char>>,
    pub status_line: Seq<char>,
    pub host: Seq<char>,
    pub request_line: Seq<char>,
    pub metrics: SessionMetrics,
}

impl View for LogEntry {
    type V = LogEntryView;

    open spec fn view(&self) -> LogEntryView {
        LogEntryView {
            kind: self.kind@,
            log_ctx: self.log_ctx@,
            session_address: viewed(self.session_address),
            app_id: viewed(self.app_id),
            status_line: self.status_line@,
            host: self.host@,
            request_line: self.request_line@,
            metrics: self.metrics,
        }
    }
}

/// What the clock and the sockets say when an entry is written.
#[derive(Debug)]
pub struct Readings {
    /// How long the request took, in nanoseconds and in text.
    pub response_nanos: i64,
    pub response_time: String,
    /// How long the session worked on it, in text.
    pub service_time: String,
    /// The backend, and how many nanoseconds it took to answer.
    pub backend_id: Option<String>,
    pub backend_response_nanos: Option<i64>,
    /// The far ends of the two connections.
    pub peer: Option<SocketAddr>,
    pub backend: Option<SocketAddr>,
}

pub struct ReadingsView {
    pub response_nanos: i64,
    pub response_time: Seq<char>,
    pub service_time: Seq<char>,
    pub backend_id: Option<Seq<char>>,
    pub backend_response_nanos: Option<i64>,
    pub peer: Option<SocketAddrView>,
    pub backend: Option<SocketAddrView>,
}

impl View for Readings {
    type V = ReadingsView;

    open spec fn view(&self) -> ReadingsView {
        ReadingsView {
            response_nanos: self.response_nanos,
            response_time: self.response_time@,
            service_time: self.service_time@,
            backend_id: viewed(self.backend_id),
            backend_response_nanos: self.backend_response_nanos,
            peer: viewed(self.peer),
            backend: viewed(self.backend),
        }
    }
}

/// The text of an address, or a dash.
pub open spec fn address_or_dash(address: Option<SocketAddrView>) -> Seq<char> {
    match address {
        Some(address) => address.display,
        None => "-"@,
    }
}

/// The text, or a dash.
pub open spec fn text_or_dash(text: Option<Seq<char>>) -> Seq<char> {
    match text {
        Some(text) => text,
        None => "-"@,
    }
}

fn append_address(out: &mut String, address: &Option<SocketAddr>)
    ensures
        final(out)@ == old(out)@ + address_or_dash(viewed(*address)),
{
    match address {
        Some(address) => out.append(address.display.as_str()),
        None => out.append("-"),
    }
}

impl LogEntryView {
    /// The times, the byte counts and the exchange, as every entry ends.
    pub open spec fn details(self, readings: ReadingsView) -> Seq<char> {
        "\t"@ + readings.response_time + " "@ + readings.service_time + " "@ + decimal(
            self.metrics.bin as nat,
        ) + " "@ + decimal(self.metrics.bout as nat) + "\t"@ + self.status_line + " "@ + self.host
            + " "@ + self.request_line
    }

    /// The entry as a line; `message` stands for what went wrong, if anything.
    pub open spec fn line(self, readings: ReadingsView, message: Seq<char>) -> Seq<char> {
        let start = self.log_ctx + address_or_dash(first_of(self.session_address, readings.peer))
            + " -> "@;
        match self.kind {
            LogKindView::Success => start + address_or_dash(readings.backend) + self.details(
                readings,
            ),
            LogKindView::DefaultAnswer => start + "X"@ + self.details(readings),
            LogKindView::Error(_) => start + address_or_dash(readings.backend) + self.details(
                readings,
            ) + " | "@ + message,
        }
    }

    /// Whether `message` tells what went wrong.
    pub open spec fn explains(self, message: Seq<char>) -> bool {
        match self.kind {
            LogKindView::Error(reason) => reason.prints_as(message),
            _ => message.len() == 0,
        }
    }

    /// The measures that go with the entry.
    pub open spec fn measures(self, readings: ReadingsView) -> Seq<EffectView> {
        match self.kind {
            LogKindView::Success => {
                let app_id = text_or_dash(self.app_id);
                let time = MeasureView::Time {
                    metric: Metric::RequestTime,
                    app_id,
                    millis: millis_in(readings.response_nanos),
                };
                match (readings.backend_id, readings.backend_response_nanos) {
                    (Some(backend_id), Some(nanos)) => seq![
                        EffectView::Measure(time),
                        EffectView::Measure(
                            MeasureView::Backend {
                                app_id,
                                backend_id,
                                millis: millis_in(nanos),
                                bin: self.metrics.backend_bin,
                                bout: self.metrics.backend_bout,
                            },
                        ),
                    ],
                    _ => seq![EffectView::Measure(time)],
                }
            },
            LogKindView::DefaultAnswer => {
                let errors = EffectView::Measure(MeasureView::Incr(Metric::Errors));
                match self.app_id {
                    Some(app_id) => seq![
                        EffectView::Measure(
                            MeasureView::Time {
                                metric: Metric::DefaultAnswerTime,
                                app_id,
                                millis: millis_in(readings.response_nanos),
                            },
                        ),
                        errors,
                    ],
                    None => seq![errors],
                }
            },
            LogKindView::Error(_) => seq![EffectView::Measure(MeasureView::Incr(Metric::Errors))],
        }
    }
}

impl LogEntry {
    fn append_details(&self, out: &mut String, readings: &Readings)
        ensures
            final(out)@ == old(out)@ + self@.details(readings@),
    {
        out.append("\t");
        out.append(readings.response_time.as_str());
        out.append(" ");
        out.append(readings.service_time.as_str());
        out.append(" ");
        append_decimal(out, self.metrics.bin);
        out.append(" ");
        append_decimal(out, self.metrics.bout);
        out.append("\t");
        out.append(self.status_line.as_str());
        out.append(" ");
        out.append(self.host.as_str());
        out.append(" ");
        out.append(self.request_line.as_str());
    }

    /// The entry as a line of the access log.
    pub fn line(&self, readings: &Readings) -> (line: String)
        ensures
            exists|message: Seq<char>|
                self@.explains(message) && line@ == #[trigger] self@.line(readings@, message),
    {
        let message = match &self.kind {
            LogKind::Error(message) => message.text(),
            _ => String::new(),
        };
        assert(self@.explains(message@));
        self.line_with(readings, message.as_str())
    }

    /// The entry as a line of the access log, with what went wrong in text.
    pub fn line_with(&self, readings: &Readings, message: &str) -> (line: String)
        ensures
            line@ == self@.line(readings@, message@),
    {
        let mut line = self.log_ctx.clone();
        let session = clone_first_of(&self.session_address, &readings.peer);
        append_address(&mut line, &session);
        line.append(" -> ");
        match &self.kind {
            LogKind::Success => {
                append_address(&mut line, &readings.backend);
                self.append_details(&mut line, readings);
            },
            LogKind::DefaultAnswer => {
                line.append("X");
                self.append_details(&mut line, readings);
            },
            LogKind::Error(_) => {
                append_address(&mut line, &readings.backend);
                self.append_details(&mut line, readings);
                line.append(" | ");
                line.append(message);
            },
        }
        line
    }

    /// Reports the measures that go with the entry.
    pub fn measure(&self, readings: &Readings, effects: &mut Effects)
        ensures
            final(effects)@ == old(effects)@ + self@.measures(readings@),
    {
        match &self.kind {
            LogKind::Success => {
                let app_id = match &self.app_id {
                    Some(app_id) => app_id.clone(),
                    None => "-".to_owned(),
                };
                let millis: i64 = whole_millis(readings.response_nanos);
                effects.measure(
                    Measure::Time { metric: Metric::RequestTime, app_id: app_id.clone(), millis },
                );
                match (&readings.backend_id, readings.backend_response_nanos) {
                    (Some(backend_id), Some(nanos)) => {
                        effects.measure(
                            Measure::Backend {
                                app_id,
                                backend_id: backend_id.clone(),
                                millis: whole_millis(nanos),
                                bin: self.metrics.backend_bin,
                                bout: self.metrics.backend_bout,
                            },
                        );
                    },
                    _ => {},
                }
            },
            LogKind::DefaultAnswer => {
                match &self.app_id {
                    Some(app_id) => {
                        let millis: i64 = whole_millis(readings.response_nanos);
                        effects.measure(
                            Measure::Time {
                                metric: Metric::DefaultAnswerTime,
                                app_id: app_id.clone(),
                                millis,
                            },
                        );
                    },
                    None => {},
                }
                effects.measure(Measure::Incr(Metric::Errors));
            },
            LogKind::Error(_) => {
                effects.measure(Measure::Incr(Metric::Errors));
            },
        }
    }
}

/// How much a diagnostic matters.
#[derive(Debug, Clone, Copy, PartialEq, Eq, Structural)]
pub enum Level {
    /// Something should not have happened.
    Error,
    /// A step of the session.
    Debug,
    /// A detail of a step.
    Trace,
}

/// A line for the diagnostic log.
#[derive(Debug)]
pub enum Diagnostic {
    Text(String),
    /// The backend has sent something behind its last chunk.
    DataAfterEnd { log_ctx: String },
    /// The session lets its backend go.
    BackendClosed { log_ctx: String, front: Token, back: Option<Token> },
    /// A turn of writing to the client has sent `sz` bytes of `output_size`.
    FrontWrote {
        log_ctx: String,
        front: Token,
        back: Token,
        sz: usize,
        output_size: usize,
        buffer_position: usize,
        restart_position: usize,
    },
    /// A turn of writing to the backend has sent `sz` bytes of `output_size`.
    BackWrote { log_ctx: String, front: Token, back: Token, sz: usize, output_size: usize },
    /// The backend has sent `sz` bytes.
    BackRead { log_ctx: String, front: Token, back: Token, sz: usize },
    /// The backend switches to this protocol. `is_new` tells whether it was
    /// parsed just now.
    Upgrade { protocol: String, is_new: bool },
}

pub enum DiagnosticView {
    Text(Seq<char>),
    DataAfterEnd { log_ctx: Seq<char> },
    BackendClosed { log_ctx: Seq<char>, front: Token, back: Option<Token> },
    FrontWrote {
        log_ctx: Seq<char>,
        front: Token,
        back: Token,
        sz: usize,
        output_size: usize,
        buffer_position: usize,
        restart_position: usize,
    },
    BackWrote { log_ctx: Seq<char>, front: Token, back: Token, sz: usize, output_size: usize },
    BackRead { log_ctx: Seq<char>, front: Token, back: Token, sz: usize },
    Upgrade { protocol: Seq<char>, is_new: bool },
}

impl View for Diagnostic {
    type V = DiagnosticView;

    open spec fn view(&self) -> DiagnosticView {
        match self {
            Diagnostic::Text(text) => DiagnosticView::Text(text@),
            Diagnostic::DataAfterEnd { log_ctx } =>
                DiagnosticView::DataAfterEnd { log_ctx: log_ctx@ },
            Diagnostic::BackendClosed { log_ctx, front, back } =>
                DiagnosticView::BackendClosed { log_ctx: log_ctx@, front: *front, back: *back },
            Diagnostic::FrontWrote {
                log_ctx,
                front,
                back,
                sz,
                output_size,
                buffer_position,
                restart_position,
            } => DiagnosticView::FrontWrote {
                log_ctx: log_ctx@,
                front: *front,
                back: *back,
                sz: *sz,
                output_size: *output_size,
                buffer_position: *buffer_position,
                restart_position: *restart_position,
            },
            Diagnostic::BackWrote { log_ctx, front, back, sz, output_size } =>
                DiagnosticView::BackWrote {
                    log_ctx: log_ctx@,
                    front: *front,
                    back: *back,
                    sz: *sz,
                    output_size: *output_size,
                },
            Diagnostic::BackRead { log_ctx, front, back, sz } => DiagnosticView::BackRead {
                log_ctx: log_ctx@,
                front: *front,
                back: *back,
                sz: *sz,
            },
            Diagnostic::Upgrade { protocol, is_new } =>
                DiagnosticView::Upgrade { protocol: protocol@, is_new: *is_new },
        }
    }
}

/// What a diagnostic is written with, besides what it holds itself. Only some
/// of them need any of it.
#[derive(Debug)]
pub struct Details {
    /// The numbers of the tokens that the diagnostic names.
    pub front: usize,
    pub back: Option<usize>,
    /// The state of the exchange in text.
    pub state: String,
    /// The protocol that the diagnostic names, in quotes.
    pub protocol: String,
    /// The place that reports a protocol.
    pub place: usize,
}

pub struct DetailsView {
    pub front: usize,
    pub back: Option<usize>,
    pub state: Seq<char>,
    pub protocol: Seq<char>,
    pub place: usize,
}

impl View for Details {
    type V = DetailsView;

    open spec fn view(&self) -> DetailsView {
        DetailsView {
            front: self.front,
            back: self.back,
            state: self.state@,
            protocol: self.protocol@,
            place: self.place,
        }
    }
}

/// The number of a token, or a dash.
pub open spec fn number_or_dash(number: Option<usize>) -> Seq<char> {
    match number {
        Some(number) => decimal(number as nat),
        None => "-"@,
    }
}

fn append_number(out: &mut String, number: Option<usize>)
    ensures
        final(out)@ == old(out)@ + number_or_dash(number),
{
    match number {
        Some(number) => append_decimal(out, number),
        None => out.append("-"),
    }
}

impl DiagnosticView {
    /// The diagnostic in text; `dump` stands for the data that was not parsed.
    pub open spec fn text(self, details: DetailsView, dump: Seq<char>) -> Seq<char> {
        let front = decimal(details.front as nat);
        let back = number_or_dash(details.back);
        match self {
            DiagnosticView::Text(text) => text,
            DiagnosticView::DataAfterEnd { log_ctx } => log_ctx
                + "\tback read should have stopped on chunk ended\nstate: "@ + details.state
                + "\ndata:"@ + dump,
            DiagnosticView::BackendClosed { log_ctx, .. } => log_ctx + "\tPROXY ["@ + front
                + " -> "@ + back + "] CLOSED BACKEND"@,
            DiagnosticView::FrontWrote {
                log_ctx,
                sz,
                output_size,
                buffer_position,
                restart_position,
                ..
            } => log_ctx + "\tFRONT ["@ + front + "<-"@ + back + "]: wrote "@ + decimal(sz as nat)
                + " bytes of "@ + decimal(output_size as nat) + ", buffer position "@ + decimal(
                buffer_position as nat,
            ) + " restart position "@ + decimal(restart_position as nat),
            DiagnosticView::BackWrote { log_ctx, sz, output_size, .. } => log_ctx + "\tBACK ["@
                + front + "->"@ + back + "]: wrote "@ + decimal(sz as nat) + " bytes of "@
                + decimal(output_size as nat),
            DiagnosticView::BackRead { log_ctx, sz, .. } => log_ctx + "\tBACK  ["@ + front
                + "<-"@ + back + "]: read "@ + decimal(sz as nat) + " bytes"@,
            DiagnosticView::Upgrade { .. } => "got an upgrade state["@ + decimal(
                details.place as nat,
            ) + "]: "@ + details.protocol,
        }
    }
}

impl Diagnostic {
    /// The diagnostic in text. `unparsed` is the data in the back buffer that
    /// was not parsed.
    pub fn text(&self, details: &Details, unparsed: &[u8]) -> (text: String)
        requires
            self@ is DataAfterEnd ==> can_dump(unparsed@, 16),
        ensures
            text@ == self@.text(details@, hex_dump(unparsed@, 16)),
    {
        match self {
            Diagnostic::DataAfterEnd { .. } => {
                let dump = to_hex(unparsed, 16);
                self.text_with(details, dump.as_str())
            },
            _ => self.text_with(details, ""),
        }
    }

    /// The diagnostic in text, with the data that was not parsed in text too.
    pub fn text_with(&self, details: &Details, dump: &str) -> (text: String)
        ensures
            text@ == self@.text(details@, dump@),
    {
        match self {
            Diagnostic::Text(text) => text.clone(),
            Diagnostic::DataAfterEnd { log_ctx } => {
                let mut text = log_ctx.clone();
                text.append("\tback read should have stopped on chunk ended\nstate: ");
                text.append(details.state.as_str());
                text.append("\ndata:");
                text.append(dump);
                text
            },
            Diagnostic::BackendClosed { log_ctx, .. } => {
                let mut text = log_ctx.clone();
                text.append("\tPROXY [");
                append_decimal(&mut text, details.front);
                text.append(" -> ");
                append_number(&mut text, details.back);
                text.append("] CLOSED BACKEND");
                text
            },
            Diagnostic::FrontWrote {
                log_ctx,
                sz,
                output_size,
                buffer_position,
                restart_position,
                ..
            } => {
                let mut text = log_ctx.clone();
                text.append("\tFRONT [");
                append_decimal(&mut text, details.front);
                text.append("<-");
                append_number(&mut text, details.back);
                text.append("]: wrote ");
                append_decimal(&mut text, *sz);
                text.append(" bytes of ");
                append_decimal(&mut text, *output_size);
                text.append(", buffer position ");
                append_decimal(&mut text, *buffer_position);
                text.append(" restart position ");
                append_decimal(&mut text, *restart_position);
                text
            },
            Diagnostic::BackWrote { log_ctx, sz, output_size, .. } => {
                let mut text = log_ctx.clone();
                text.append("\tBACK [");
                append_decimal(&mut text, details.front);
                text.append("->");
                append_number(&mut text, details.back);
                text.append("]: wrote ");
                append_decimal(&mut text, *sz);
                text.append(" bytes of ");
                append_decimal(&mut text, *output_size);
                text
            },
            Diagnostic::BackRead { log_ctx, sz, .. } => {
                let mut text = log_ctx.clone();
                text.append("\tBACK  [");
                append_decimal(&mut text, details.front);
                text.append("<-");
                append_number(&mut text, details.back);
                text.append("]: read ");
                append_decimal(&mut text, *sz);
                text.append(" bytes");
                text
            },
            Diagnostic::Upgrade { .. } => {
                let mut text = "got an upgrade state[".to_owned();
                append_decimal(&mut text, details.place);
                text.append("]: ");
                text.append(details.protocol.as_str());
                text
            },
        }
    }
}

/// Something to be done outside the session.
#[derive(Debug)]
pub enum Effect {
    /// Publish a measure.
    Measure(Measure),
    /// The session stops to work on the request: stop its clock.
    ServiceStop,
    /// Set the clocks of the exchange back.
    ResetMetrics,
    /// Set the parser back to its initial state.
    ResetState,
    /// Plan so many body bytes of the front buffer for the backend, take them
    /// as parsed, and let the parser expect the response proper.
    ContinueBody(usize),
    /// Write an entry into the access log, and report its measures.
    Log(LogEntry),
    /// Write a line into the diagnostic log.
    Diagnose(Level, Diagnostic),
}

pub enum EffectView {
    Measure(MeasureView),
    ServiceStop,
    ResetMetrics,
    ResetState,
    ContinueBody(usize),
    Log(LogEntryView),
    Diagnose(Level, DiagnosticView),
}

/// The effect of a diagnostic with this text.
pub open spec fn diagnosis(level: Level, text: Seq<char>) -> Seq<EffectView> {
    seq![EffectView::Diagnose(level, DiagnosticView::Text(text))]
}

impl View for Effect {
    type V = EffectView;

    open spec fn view(&self) -> EffectView {
        match self {
            Effect::Measure(measure) => EffectView::Measure(measure@),
            Effect::ServiceStop => EffectView::ServiceStop,
            Effect::ResetMetrics => EffectView::ResetMetrics,
            Effect::ResetState => EffectView::ResetState,
            Effect::ContinueBody(size) => EffectView::ContinueBody(*size),
            Effect::Log(entry) => EffectView::Log(entry@),
            Effect::Diagnose(level, diagnostic) => EffectView::Diagnose(*level, diagnostic@),
        }
    }
}

/// The effects of a session's work, first to last.
#[derive(Debug)]
pub struct Effects {
    pub list: Vec<Effect>,
}

impl View for Effects {
    type V = Seq<EffectView>;

    open spec fn view(&self) -> Seq<EffectView> {
        self.list@.map_values(|effect: Effect| effect@)
    }
}

impl Effects {
    pub fn new() -> (r: Effects)
        ensures
            r@ == Seq::<EffectView>::empty(),
    {
        Effects { list: Vec::new() }
    }

    /// One more effect.
    pub fn emit(&mut self, effect: Effect)
        ensures
            final(self)@ == old(self)@.push(effect@),
    {
        self.list.push(effect);
    }

    /// One more measure.
    pub fn measure(&mut self, measure: Measure)
        ensures
            final(self)@ == old(self)@.push(EffectView::Measure(measure@)),
    {
        self.emit(Effect::Measure(measure));
    }

    /// One more diagnostic.
    pub fn diagnose(&mut self, level: Level, text: String)
        ensures
            final(self)@ == old(self)@ + diagnosis(level, text@),
    {
        self.emit(Effect::Diagnose(level, Diagnostic::Text(text)));
    }
}

/// The class of a status code.
pub open spec fn status_metric(status: u16) -> Metric {
    match status / 100 {
        1 => Metric::Status1xx,
        2 => Metric::Status2xx,
        3 => Metric::Status3xx,
        4 => Metric::Status4xx,
        5 => Metric::Status5xx,
        _ => Metric::StatusOther,
    }
}

/// The measure of a response: one more of its class, if it has a status.
pub open spec fn status_effects(status_line: Option<RStatusLineView>) -> Seq<EffectView> {
    match status_line {
        Some(line) => seq![EffectView::Measure(MeasureView::Incr(status_metric(line.status)))],
        None => Seq::empty(),
    }
}

/// Counts a response of the backend by the class of its status code.
pub fn save_http_status_metric(rs_status_line: Option<RStatusLine>, effects: &mut Effects)
    ensures
        final(effects)@ == old(effects)@ + status_effects(viewed(rs_status_line)),
{
    if let Some(line) = rs_status_line {
        let metric = if 100 <= line.status && line.status <= 199 {
            Metric::Status1xx
        } else if 200 <= line.status && line.status <= 299 {
            Metric::Status2xx
        } else if 300 <= line.status && line.status <= 399 {
            Metric::Status3xx
        } else if 400 <= line.status && line.status <= 499 {
            Metric::Status4xx
        } else if 500 <= line.status && line.status <= 599 {
            Metric::Status5xx
        } else {
            Metric::StatusOther
        };
        effects.measure(Measure::Incr(metric));
    }
}

} // verus!

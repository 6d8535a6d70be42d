//! What holds of a session's bookkeeping: its start, its own answers, its
//! resets, and the headers that it adds.

use mio::Token;
use vstd::prelude::*;

use crate::address::{first_of, FrontAddressesView, IpAddrView, SocketAddrView};
use crate::forward::{forwarding, id_line, request_header, Forwarding, Protocol};
use crate::frame::{
    counts_one, is_cleared, kind_if, no_kind, same_but_readiness, says, turned, waits_just_for,
};
use crate::outcome::Outcome;
use crate::readiness::{Kind, ReadinessView};
use crate::report::{
    DiagnosticView, EffectView, Level, LogKindView, LogMessageView, MeasureView, Metric,
    SessionMetrics,
};
use crate::session::{
    fresh_session, log_prefix, DefaultAnswerStatus, HttpView, SessionStatusView,
};
use crate::state::{HttpStateView, RequestState, ResponseStateView};
use crate::text::decimal;

verus! {

/// Nothing is known yet of the exchange.
pub open spec fn is_blank(state: HttpStateView) -> bool {
    &&& state.request == Some(RequestState::Initial)
    &&& state.response == Some(ResponseStateView::Initial)
    &&& !state.front_error
    &&& !state.back_error
    &&& !state.has_host
    &&& state.must_continue is None
    &&& !state.continues
    &&& !state.request_keep_alive
    &&& !state.response_keep_alive
    &&& state.host is None
    &&& state.request_line is None
    &&& state.status_line is None
    &&& state.res_header_end is None
}

/// The name of an answer.
pub open spec fn answer_name(status: DefaultAnswerStatus) -> Seq<char> {
    match status {
        DefaultAnswerStatus::Answer301 => "Answer301"@,
        DefaultAnswerStatus::Answer400 => "Answer400"@,
        DefaultAnswerStatus::Answer404 => "Answer404"@,
        DefaultAnswerStatus::Answer413 => "Answer413"@,
        DefaultAnswerStatus::Answer503 => "Answer503"@,
    }
}

/// A step's contract fixes all that the step comes to: two runs of it from
/// the same start cannot differ.
pub proof fn law_step_is_determined<Front, Back, Buf, R>(
    outcome: Outcome<Front, Back, Buf, R>,
    session: HttpView<Front, Back, Buf>,
    metrics: SessionMetrics,
    before: Seq<EffectView>,
    effects: Seq<EffectView>,
    result: R,
)
    requires
        outcome.reached(session, metrics, before, effects, result),
    ensures
        session == outcome.session,
        metrics == outcome.metrics,
        effects == before + outcome.effects,
        before.is_prefix_of(effects),
        result == outcome.result,
{
    assert(effects.subrange(0, before.len() as int) =~= before);
}

/// A new session has no backend, no buffers, no application and no sticky
/// session, passes data on, and waits for nothing yet. It has what it was
/// made with, and adds to its first request and response the headers that go
/// with its identifier.
pub proof fn law_new_session_is_blank<Front, Back, Buf>(
    sock: Front,
    token: Token,
    request_id: Seq<char>,
    public_address: Option<IpAddrView>,
    session_address: Option<SocketAddrView>,
    sticky_name: Seq<char>,
    protocol: Protocol,
    addresses: FrontAddressesView,
)
    ensures
        ({
            let session = fresh_session::<Front, Back, Buf>(
                sock,
                token,
                request_id,
                public_address,
                session_address,
                sticky_name,
                protocol,
                addresses,
            );
            &&& session.frontend == sock
            &&& session.frontend_token == token
            &&& session.backend is None
            &&& session.backend_token is None
            &&& session.status is Normal
            &&& session.front_buf is None
            &&& session.back_buf is None
            &&& session.app_id is None
            &&& session.request_id == request_id
            &&& is_cleared(session.front_readiness)
            &&& is_cleared(session.back_readiness)
            &&& session.log_ctx == request_id + " "@ + "unknown"@ + "\t"@
            &&& session.public_address == public_address
            &&& session.session_address == session_address
            &&& session.sticky_name == sticky_name
            &&& session.sticky_session is None
            &&& session.protocol == protocol
            &&& session.state is Some
            &&& is_blank(session.state->0)
            &&& session.state->0.added_req_header == request_header(
                forwarding(public_address, session_address, addresses),
                protocol,
                request_id,
            )
            &&& session.state->0.added_res_header == "Sozu-Id: "@ + request_id + "\r\n"@
        }),
{
}

/// The next request of a kept connection is forwarded with the same
/// information as a first one: after a reset the exchange is that of a new
/// session with the same addresses and protocol, and the identifier that the
/// session had. The session keeps its client, its backend, its application and
/// all else that outlives a request, and what is left in the front buffer is
/// there to be read.
pub proof fn law_reset_session_is_like_a_new_one<Front, Back, Buf>(
    session: HttpView<Front, Back, Buf>,
    request_id: Seq<char>,
    addresses: FrontAddressesView,
    front_is_empty: bool,
)
    ensures
        ({
            let after = session.after_reset(request_id, addresses, front_is_empty);
            let new = fresh_session::<Front, Back, Buf>(
                session.frontend,
                session.frontend_token,
                session.request_id,
                session.public_address,
                session.session_address,
                session.sticky_name,
                session.protocol,
                addresses,
            );
            let pipelined = session.front_buf is Some && !front_is_empty;
            &&& session.state is Some ==> after.state == new.state
            &&& session.state is Some ==> is_blank(after.state->0)
            &&& session.state is Some ==> after.state->0.added_req_header == request_header(
                forwarding(session.public_address, session.session_address, addresses),
                session.protocol,
                session.request_id,
            )
            &&& session.state is None ==> after.state is None
            &&& same_but_readiness(
                HttpView {
                    state: after.state,
                    front_buf: if pipelined { session.front_buf } else { None },
                    back_buf: None,
                    request_id,
                    log_ctx: after.log_ctx,
                    ..session
                },
                after,
            )
            &&& after.log_ctx == match session.app_id {
                Some(app_id) => request_id + " "@ + app_id + "\t"@,
                None => request_id + " "@ + "unknown"@ + "\t"@,
            }
            &&& after.back_readiness == session.back_readiness
            &&& after.front_readiness.interest == session.front_readiness.interest
            &&& after.front_readiness.other_interest == session.front_readiness.other_interest
            &&& after.front_readiness.other_event == session.front_readiness.other_event
            &&& after.front_readiness.event =~= session.front_readiness.event.union(
                kind_if(pipelined, Kind::Readable),
            )
            &&& session.reset_effects().len() == if session.state is Some { 2int } else { 1 }
            &&& session.reset_effects()[0] == EffectView::Measure(
                MeasureView::GaugeAdd(Metric::ActiveRequests, (-1) as i64),
            )
            &&& session.state is Some ==> session.reset_effects()[1] is ResetState
        }),
{
}

/// A session that is set to answer lets its buffers go, and waits for nothing
/// but to write the answer from its first byte on, and for the ends of both
/// connections. It loses no event and nothing else. The answer is counted
/// under its status the first time, and reported as an error after that.
pub proof fn law_answer_takes_over<Front, Back, Buf>(
    session: HttpView<Front, Back, Buf>,
    status: DefaultAnswerStatus,
    answer: Seq<u8>,
)
    ensures
        ({
            let after = session.answered(status, answer);
            let effects = session.answer_effects(status);
            &&& same_but_readiness(
                HttpView {
                    status: SessionStatusView::DefaultAnswer(status, answer, 0),
                    front_buf: None,
                    back_buf: None,
                    ..session
                },
                after,
            )
            &&& waits_just_for(
                after.front_readiness,
                set![Kind::Writable, Kind::Hup, Kind::Error],
            )
            &&& waits_just_for(after.back_readiness, set![Kind::Hup, Kind::Error])
            &&& after.front_readiness.event == session.front_readiness.event
            &&& after.front_readiness.other_event == session.front_readiness.other_event
            &&& after.back_readiness.event == session.back_readiness.event
            &&& after.back_readiness.other_event == session.back_readiness.other_event
            &&& effects.len() == 1
            &&& session.status is DefaultAnswer ==> says(
                effects[0],
                Level::Error,
                "already set the default answer to "@ + answer_name(
                    session.status->DefaultAnswer_0,
                ) + ", trying to set to "@ + answer_name(status),
            )
            &&& session.status is Normal ==> counts_one(
                effects[0],
                match status {
                    DefaultAnswerStatus::Answer301 => Metric::Redirection301,
                    DefaultAnswerStatus::Answer400 => Metric::Errors400,
                    DefaultAnswerStatus::Answer404 => Metric::Errors404,
                    DefaultAnswerStatus::Answer413 => Metric::Errors413,
                    DefaultAnswerStatus::Answer503 => Metric::Errors503,
                },
            )
        }),
{
}

/// What is left of an answer from an index on, put behind what comes before
/// it, is the answer.
pub proof fn law_rest_completes_answer(
    status: DefaultAnswerStatus,
    answer: Seq<u8>,
    start: usize,
    index: usize,
)
    requires
        index <= answer.len(),
    ensures
        answer.take(index as int) + SessionStatusView::DefaultAnswer(
            status,
            answer,
            start,
        ).answer_rest(index) == answer,
{
    assert(answer.take(index as int) + SessionStatusView::DefaultAnswer(
        status,
        answer,
        start,
    ).answer_rest(index) =~= answer);
}

/// The setters of a session set what they are named after, and with the
/// application the log context, and leave all else alone.
pub proof fn law_setters_set_one_thing<Front, Back, Buf>(
    session: HttpView<Front, Back, Buf>,
    state: HttpStateView,
    socket: Back,
    token: Option<Token>,
    app_id: Seq<char>,
)
    ensures
        session.with_state(state) == (HttpView { state: Some(state), ..session }),
        session.with_backend(socket) == (HttpView { backend: Some(socket), ..session }),
        session.with_backend_token(token) == (HttpView { backend_token: token, ..session }),
        session.without_backend() == (HttpView { backend: None, backend_token: None, ..session }),
        session.with_app_id(app_id) == (HttpView {
            app_id: Some(app_id),
            log_ctx: session.request_id + " "@ + app_id + "\t"@,
            ..session
        }),
        session.app_id == Some(app_id) ==> session.with_log_context().log_ctx == session.request_id
            + " "@ + app_id + "\t"@,
        session.app_id is None ==> session.with_log_context().log_ctx == session.request_id + " "@
            + "unknown"@ + "\t"@,
        same_but_readiness(
            HttpView { log_ctx: session.with_log_context().log_ctx, ..session },
            session.with_log_context(),
        ),
        session.with_log_context().front_readiness == session.front_readiness,
        session.with_log_context().back_readiness == session.back_readiness,
{
}

/// Letting the backend go is noted with the tokens of both sides.
pub proof fn law_closed_backend_is_noted<Front, Back, Buf>(session: HttpView<Front, Back, Buf>)
    ensures
        session.backend_closed_effects().len() == 1,
        session.backend_closed_effects()[0] == EffectView::Diagnose(
            Level::Debug,
            DiagnosticView::BackendClosed {
                log_ctx: session.log_ctx,
                front: session.frontend_token,
                back: session.backend_token,
            },
        ),
{
}

/// What one side waits for and has seen changes by exactly the kind that is
/// named, and never touches the other set.
pub proof fn law_readiness_changes_by_one_kind(side: ReadinessView, kind: Kind)
    ensures
        turned(side, side.waiting_for(kind), set![kind], no_kind(), no_kind()),
        turned(side, side.ignoring(kind), no_kind(), set![kind], no_kind()),
        turned(side, side.used_up(kind), no_kind(), no_kind(), set![kind]),
        side.seeing(kind).interest == side.interest,
        side.seeing(kind).event =~= side.event.union(set![kind]),
        side.seeing(kind).other_interest == side.other_interest,
        side.seeing(kind).other_event == side.other_event,
        waits_just_for(side.waiting_for_end(), set![Kind::Hup, Kind::Error]),
        side.waiting_for_end().event == side.event,
        side.waiting_for_end().other_event == side.other_event,
        waits_just_for(side.waiting_only_for(kind), set![kind, Kind::Hup, Kind::Error]),
        side.waiting_only_for(kind).event == side.event,
        side.waiting_only_for(kind).other_event == side.other_event,
        is_cleared(ReadinessView::none()),
{
}

/// The way of a request is known when its sender is and when the socket can
/// tell its own end. Addresses that the session was given come before those
/// of the socket; the port is always the socket's.
pub proof fn law_given_addresses_come_first(
    public_address: Option<IpAddrView>,
    session_address: Option<SocketAddrView>,
    addresses: FrontAddressesView,
)
    ensures
        ({
            let way = forwarding(public_address, session_address, addresses);
            &&& way is Some <==> (session_address is Some || addresses.peer is Some)
                && addresses.local is Some
            &&& way is Some ==> {
                &&& session_address is Some ==> way->0.peer == session_address->0
                &&& session_address is None ==> way->0.peer == addresses.peer->0
                &&& public_address is Some ==> way->0.front == public_address->0
                &&& public_address is None ==> way->0.front == addresses.local->0.ip
                &&& way->0.port == addresses.local->0.port
            }
        }),
{
}

/// A request whose way is known tells it to the backend in five lines: the
/// protocol, the sender with its port and the address it was sent to, all at
/// once and then the protocol, the sender and the incoming port one by one,
/// and the identifier. IPv6 addresses stand in quotes in the first line, and
/// nowhere else.
pub proof fn law_known_way_is_told(way: Forwarding, protocol: Protocol, request_id: Seq<char>)
    requires
        protocol != Protocol::Other,
    ensures
        ({
            let proto = if protocol == Protocol::HTTPS { "https"@ } else { "http"@ };
            let (sender, sender_quote) = match way.peer.ip {
                IpAddrView::V4(text) => (text, Seq::<char>::empty()),
                IpAddrView::V6(text) => (text, "\""@),
            };
            let (front, front_quote) = match way.front {
                IpAddrView::V4(text) => (text, Seq::<char>::empty()),
                IpAddrView::V6(text) => (text, "\""@),
            };
            let forwarded = "Forwarded: proto="@ + proto + ";for="@ + sender_quote + sender + ":"@
                + decimal(way.peer.port as nat) + sender_quote + ";by="@ + front_quote + front
                + front_quote;
            request_header(Some(way), protocol, request_id) == forwarded
                + "\r\nX-Forwarded-Proto: "@ + proto + "\r\nX-Forwarded-For: "@ + sender
                + "\r\nX-Forwarded-Port: "@ + decimal(way.port as nat) + "\r\n"@ + ("Sozu-Id: "@
                + request_id + "\r\n"@)
        }),
{
    let (sender, sender_quote) = match way.peer.ip {
        IpAddrView::V4(text) => (text, Seq::<char>::empty()),
        IpAddrView::V6(text) => (text, "\""@),
    };
    let (front, front_quote) = match way.front {
        IpAddrView::V4(text) => (text, Seq::<char>::empty()),
        IpAddrView::V6(text) => (text, "\""@),
    };
    let proto = if protocol == Protocol::HTTPS { "https"@ } else { "http"@ };
    let start = "Forwarded: proto="@ + proto + ";for="@;
    let peer = sender + ":"@ + decimal(way.peer.port as nat);
    let quoted_peer = if way.peer.ip is V6 { "\""@ + peer + "\""@ } else { peer };
    let quoted_front = if way.front is V6 { "\""@ + front + "\""@ } else { front };
    assert(start + sender_quote + sender + ":"@ + decimal(way.peer.port as nat) + sender_quote
        =~= start + quoted_peer);
    assert(start + quoted_peer + ";by="@ + front_quote + front + front_quote =~= start + quoted_peer
        + ";by="@ + quoted_front);
}

/// A request whose way is not known tells the backend its identifier alone,
/// and a response always does.
pub proof fn law_unknown_way_is_not_told(protocol: Protocol, request_id: Seq<char>)
    ensures
        request_header(None, protocol, request_id) == "Sozu-Id: "@ + request_id + "\r\n"@,
        id_line(request_id) == "Sozu-Id: "@ + request_id + "\r\n"@,
{
}

/// An entry of the access log tells of the session as it stands: its context,
/// its address and application, the exchange as far as it is known with a
/// dash for what is not, and the byte counts. The status is that of the
/// response, or that of the session's own answer when that is logged.
pub proof fn law_log_entry_tells_the_exchange<Front, Back, Buf>(
    session: HttpView<Front, Back, Buf>,
    kind: LogKindView,
    metrics: SessionMetrics,
)
    ensures
        ({
            let entry = session.log_entry(kind, metrics);
            let state = session.state;
            &&& entry.kind == kind
            &&& entry.log_ctx == session.log_ctx
            &&& entry.session_address == session.session_address
            &&& entry.app_id == session.app_id
            &&& entry.metrics == metrics
            &&& entry.host == if state is Some && state->0.host is Some {
                state->0.host->0
            } else {
                "-"@
            }
            &&& entry.request_line == if state is Some && state->0.request_line is Some {
                state->0.request_line->0.method + " "@ + state->0.request_line->0.uri
            } else {
                "-"@
            }
            &&& entry.status_line == if kind is DefaultAnswer {
                match session.status {
                    SessionStatusView::Normal => "-"@,
                    SessionStatusView::DefaultAnswer(status, _, _) => match status {
                        DefaultAnswerStatus::Answer301 => "301 Moved Permanently"@,
                        DefaultAnswerStatus::Answer400 => "400 Bad Request"@,
                        DefaultAnswerStatus::Answer404 => "404 Not Found"@,
                        DefaultAnswerStatus::Answer503 => "503 Service Unavailable"@,
                        DefaultAnswerStatus::Answer413 => "413 Payload Too Large"@,
                    },
                }
            } else if state is Some && state->0.status_line is Some {
                decimal(state->0.status_line->0.status as nat) + " "@
                    + state->0.status_line->0.reason
            } else {
                "-"@
            }
        }),
{
}

/// What is known of the exchange is what its state tells, and nothing is
/// known without one. The first of two values is taken if there is one.
pub proof fn law_exchange_is_known_from_its_state<Front, Back, Buf, T>(
    session: HttpView<Front, Back, Buf>,
    first: Option<T>,
    second: Option<T>,
)
    ensures
        session.state is Some ==> session.host() == session.state->0.host,
        session.state is Some ==> session.request_line() == session.state->0.request_line,
        session.state is Some ==> session.status_line() == session.state->0.status_line,
        session.state is None ==> session.host() is None && session.request_line() is None
            && session.status_line() is None,
        first is Some ==> first_of(first, second) == first,
        first is None ==> first_of(first, second) == second,
{
}

/// A failure stops the clock, is logged with its message and with the byte
/// counts, and leaves the session at rest and otherwise as it was.
pub proof fn law_failure_is_logged<Front, Back, Buf>(
    session: HttpView<Front, Back, Buf>,
    message: LogMessageView,
    metrics: SessionMetrics,
)
    ensures
        ({
            let effects = session.error_effects(message, metrics);
            &&& effects.len() == 2
            &&& effects[0] is ServiceStop
            &&& effects[1] == EffectView::Log(
                session.log_entry(LogKindView::Error(message), metrics),
            )
            &&& same_but_readiness(session, session.idle())
            &&& is_cleared(session.idle().front_readiness)
            &&& is_cleared(session.idle().back_readiness)
        }),
{
}

/// A prefix of log lines names the request and its application.
pub proof fn law_log_prefix_names_request(request_id: Seq<char>, app_id: Seq<char>)
    ensures
        log_prefix(request_id, Some(app_id)) == request_id + " "@ + app_id + "\t"@,
        log_prefix(request_id, None) == request_id + " "@ + "unknown"@ + "\t"@,
{
}

/// Nothing is known of an exchange that has not begun. One side's connection
/// is kept only if that side has spoken and said so.
pub proof fn law_exchange_begins_blank(state: HttpStateView, req: Seq<char>, res: Seq<char>)
    ensures
        is_blank(HttpStateView::initial()),
        HttpStateView::initial().added_req_header.len() == 0,
        HttpStateView::initial().added_res_header.len() == 0,
        state.adding(req, res) == (HttpStateView {
            added_req_header: req,
            added_res_header: res,
            ..state
        }),
        state.front_keep_alive() <==> state.request is Some && state.request_keep_alive,
        state.back_keep_alive() <==> state.response is Some && state.response_keep_alive,
{
}

} // verus!

use std::rc::Rc;

use http_session::address::FrontAddresses;
use http_session::back_read::{BackParseStep, BackReadStep, ResponseStage};
use http_session::back_write::BackWriteStep;
use http_session::buffer::BufferState;
use http_session::forward::Protocol;
use http_session::front_write::Progress;
use http_session::readiness::{Kind, Readiness};
use http_session::report::{
    Details, Diagnostic, Effect, Effects, Level, LogKind, SessionMetrics,
};
use http_session::session::{
    DefaultAnswerStatus, Http, ProtocolResult, SessionResult, SocketResult, StickySession,
};
use http_session::state::{Chunk, HttpState, RequestState, ResponseState};
use mio::Token;

type Session = Http<&'static str, &'static str, &'static str>;

const GO_ON: (ProtocolResult, SessionResult) = (ProtocolResult::Continue, SessionResult::Continue);
const CLOSE: (ProtocolResult, SessionResult) =
    (ProtocolResult::Continue, SessionResult::CloseSession);

fn session() -> Session {
    let addresses = FrontAddresses { peer: None, local: None };
    let mut http: Session = Http::with_request_id(
        "front",
        Token(1),
        "id".to_string(),
        None,
        None,
        "sticky".to_string(),
        Protocol::HTTP,
        &addresses,
    );
    http.front_buf = Some("front buffer");
    http.back_buf = Some("back buffer");
    http.set_back_socket("back");
    http.set_back_token(Token(2));
    http
}

fn buffer() -> BufferState {
    BufferState {
        buffer_position: 0,
        available_space: 100,
        input_data_size: 0,
        start_parsing_position: 0,
        parsed_position: 0,
        output_data_size: 0,
        next_output_size: 0,
        needs_input: true,
        can_restart_parsing: true,
        empty: true,
    }
}

fn so_far(sz: usize) -> Progress {
    Progress { sz, output_size: 5 }
}

fn with_output(size: usize) -> BufferState {
    BufferState { output_data_size: size, next_output_size: size, empty: false, ..buffer() }
}

fn kinds(readiness: &Readiness) -> (bool, bool) {
    (readiness.interest.is_readable(), readiness.interest.is_writable())
}

fn is_idle(http: &Session) -> bool {
    let none = Readiness::new();
    let is_none = |r: &Readiness| r.event == none.event && r.interest == none.interest;
    is_none(&http.front_readiness) && is_none(&http.back_readiness)
}

fn busy(mut http: Session) -> Session {
    for kind in [Kind::Readable, Kind::Writable, Kind::Error, Kind::Hup] {
        http.front_readiness.see(kind);
        http.front_readiness.wait_for(kind);
        http.back_readiness.see(kind);
        http.back_readiness.wait_for(kind);
    }
    http
}

fn failure(effects: &Effects) -> String {
    let rest: Vec<&Effect> = effects
        .list
        .iter()
        .filter(|effect| !matches!(effect, Effect::Diagnose(_, _)))
        .collect();
    match &rest[..] {
        [Effect::ServiceStop, Effect::Log(entry)] => match &entry.kind {
            LogKind::Error(message) => message.text(),
            other => panic!("unexpected entry: {:?}", other),
        },
        other => panic!("unexpected effects: {:?}", other),
    }
}

fn line_of(diagnostic: &Diagnostic) -> String {
    let (front, back) = match diagnostic {
        Diagnostic::BackendClosed { front, back, .. } => (front.0, back.map(|back| back.0)),
        Diagnostic::FrontWrote { front, back, .. }
        | Diagnostic::BackWrote { front, back, .. }
        | Diagnostic::BackRead { front, back, .. } => (front.0, Some(back.0)),
        _ => (0, None),
    };
    let (protocol, place) = match diagnostic {
        Diagnostic::Upgrade { protocol, is_new } => {
            (format!("{:?}", protocol), if *is_new { 2 } else { 1 })
        }
        _ => (String::new(), 0),
    };
    let details = Details { front, back, state: "the state".to_string(), protocol, place };
    diagnostic.text(&details, b"GET /")
}

fn lines(effects: &Effects, level: Level) -> Vec<String> {
    effects
        .list
        .iter()
        .filter_map(|effect| match effect {
            Effect::Diagnose(of, diagnostic) if *of == level => Some(line_of(diagnostic)),
            _ => None,
        })
        .collect()
}

fn diagnoses(effects: &Effects) -> Vec<String> {
    lines(effects, Level::Error)
}

fn notes(effects: &Effects) -> Vec<String> {
    lines(effects, Level::Debug)
}

/// The effects without the notes on what the session does.
fn quiet(effects: &Effects) -> Vec<&Effect> {
    effects
        .list
        .iter()
        .filter(|effect| {
            !matches!(effect, Effect::Diagnose(Level::Debug | Level::Trace, _))
        })
        .collect()
}

fn requesting(request: RequestState) -> HttpState {
    let mut state = HttpState::new();
    state.request = Some(request);
    state.has_host = true;
    state
}

fn responding(response: ResponseState) -> HttpState {
    let mut state = requesting(RequestState::Request);
    state.response = Some(response);
    state
}

#[test]
fn backend_is_left_alone_while_answering() {
    let mut http = busy(session());
    let metrics = SessionMetrics::new();
    let mut effects = Effects::new();
    http.set_answer(DefaultAnswerStatus::Answer400, Rc::new(vec![1]), &mut effects);
    http.front_readiness.ignore(Kind::Writable);
    http.back_readiness.wait_for(Kind::Writable);
    http.back_readiness.wait_for(Kind::Readable);
    let step = http.back_writable(&metrics, &with_output(3), &mut effects);
    assert_eq!(step, BackWriteStep::Done(SessionResult::Continue));
    assert_eq!(kinds(&http.front_readiness), (false, true));
    assert_eq!(kinds(&http.back_readiness), (true, false));
    let step = http.back_readable(&metrics, 10, &mut effects);
    assert_eq!(step, BackReadStep::Done(GO_ON.0, GO_ON.1));
    assert_eq!(kinds(&http.back_readiness), (false, false));
    assert_eq!(quiet(&effects).len(), 3);
    assert_eq!(
        diagnoses(&effects),
        vec![
            "id unknown\t\tsending default answer, should not write to back",
            "id unknown\t\tsending default answer, should not read from back socket",
        ]
    );
}

#[test]
fn writing_to_the_backend_needs_output() {
    let metrics = SessionMetrics::new();
    for front in [buffer(), BufferState { next_output_size: 0, ..with_output(5) }] {
        let mut http = session();
        let mut effects = Effects::new();
        http.back_readiness.wait_for(Kind::Writable);
        let step = http.back_writable(&metrics, &front, &mut effects);
        assert_eq!(step, BackWriteStep::Done(SessionResult::Continue));
        assert_eq!(kinds(&http.front_readiness), (true, false));
        assert_eq!(kinds(&http.back_readiness), (false, false));
        assert!(quiet(&effects).is_empty());
    }
    let mut http = session();
    let mut effects = Effects::new();
    assert_eq!(
        http.back_writable(&metrics, &with_output(5), &mut effects),
        BackWriteStep::Write(so_far(0))
    );
}

#[test]
fn missing_backend_is_a_failure() {
    let metrics = SessionMetrics::new();
    let mut http = busy(session());
    let mut effects = Effects::new();
    http.backend = None;
    let step = http.back_writable(&metrics, &with_output(5), &mut effects);
    assert_eq!(step, BackWriteStep::Done(SessionResult::CloseSession));
    assert_eq!(failure(&effects), "back socket not found, closing connection");
    assert!(is_idle(&http));

    let mut http = busy(session());
    let mut effects = Effects::new();
    http.backend = None;
    let step = http.back_readable(&metrics, 5, &mut effects);
    assert_eq!(step, BackReadStep::Done(CLOSE.0, CLOSE.1));
    assert_eq!(failure(&effects), "back socket not found, closing connection");
    assert!(is_idle(&http));
}

#[test]
fn turn_of_writing_to_the_backend_counts_its_bytes_once() {
    let mut http = busy(session());
    let mut metrics = SessionMetrics::new();
    let mut effects = Effects::new();
    http.set_state(requesting(RequestState::Request));
    let step = http.back_writable_written(
        &mut metrics,
        so_far(0),
        10,
        SocketResult::Continue,
        &with_output(5),
        &mut effects,
    );
    assert_eq!(step, BackWriteStep::Write(so_far(10)));
    assert_eq!(metrics.backend_bout, 0);
    let step = http.back_writable_written(
        &mut metrics,
        so_far(10),
        5,
        SocketResult::WouldBlock,
        &buffer(),
        &mut effects,
    );
    assert_eq!(step, BackWriteStep::Done(SessionResult::Continue));
    assert_eq!(metrics.backend_bout, 15);
    assert_eq!(notes(&effects), vec!["id unknown\t\tBACK [1->2]: wrote 15 bytes of 5"]);
    assert!(!http.back_readiness.event.is_writable());
    assert!(quiet(&effects).is_empty());
}

#[test]
fn turn_of_writing_to_the_backend_ends_where_output_is_still_to_come() {
    let mut http = session();
    let mut metrics = SessionMetrics::new();
    let mut effects = Effects::new();
    http.back_readiness.wait_for(Kind::Writable);
    let step = http.back_writable_written(
        &mut metrics,
        so_far(3),
        4,
        SocketResult::Continue,
        &BufferState { next_output_size: 0, ..with_output(5) },
        &mut effects,
    );
    assert_eq!(step, BackWriteStep::Done(SessionResult::Continue));
    assert_eq!(metrics.backend_bout, 7);
    assert_eq!(kinds(&http.front_readiness), (true, false));
    assert_eq!(kinds(&http.back_readiness), (false, false));
}

#[test]
fn failed_write_to_the_backend_closes() {
    for res in [SocketResult::Error, SocketResult::Closed] {
        let mut http = busy(session());
        let mut metrics = SessionMetrics::new();
        let mut effects = Effects::new();
        let step =
            http.back_writable_written(&mut metrics, so_far(0), 4, res, &with_output(5), &mut effects);
        assert_eq!(step, BackWriteStep::Done(SessionResult::CloseSession));
        assert_eq!(failure(&effects), "back socket write error, closing connection");
        assert_eq!(metrics.backend_bout, 4);
        assert!(is_idle(&http));
    }
}

#[test]
fn sent_request_calls_for_what_follows() {
    // (state, waits to read from the client, waits to read from the backend)
    let cases = [
        (RequestState::Request, false, true),
        (RequestState::RequestWithBody, false, true),
        (RequestState::RequestWithBodyChunks(Chunk::Ended), false, true),
        (RequestState::RequestWithBodyChunks(Chunk::Initial), true, false),
        (RequestState::RequestWithBodyChunks(Chunk::InProgress), true, false),
        (RequestState::RequestWithBodyChunks(Chunk::Error), true, false),
        (RequestState::HasRequestLine, true, false),
        (RequestState::HasHost, true, false),
        (RequestState::HasLength, true, false),
        (RequestState::HasHostAndLength, true, false),
    ];
    for (request, front_reads, back_reads) in cases {
        let mut http = session();
        let mut metrics = SessionMetrics::new();
        let mut effects = Effects::new();
        http.back_readiness.wait_for(Kind::Writable);
        http.set_state(requesting(request));
        let step = http.back_writable_written(
            &mut metrics,
            so_far(0),
            5,
            SocketResult::Continue,
            &buffer(),
            &mut effects,
        );
        assert_eq!(step, BackWriteStep::Done(SessionResult::Continue));
        assert_eq!(kinds(&http.front_readiness), (front_reads, false), "{:?}", request);
        assert_eq!(kinds(&http.back_readiness), (back_reads, !back_reads), "{:?}", request);
        let is_whole = back_reads;
        assert_eq!(http.front_buf, if is_whole { None } else { Some("front buffer") });
        assert!(quiet(&effects).is_empty());
    }
}

#[test]
fn front_buffer_is_kept_while_it_is_needed() {
    let whole = [
        RequestState::Request,
        RequestState::RequestWithBody,
        RequestState::RequestWithBodyChunks(Chunk::Ended),
    ];
    let pipelined = BufferState { empty: false, ..buffer() };
    let cases =
        [(buffer(), None, true), (pipelined, None, false), (buffer(), Some(3), false)];
    for request in whole {
        for (front, must_continue, is_returned) in cases {
            let mut http = session();
            let mut metrics = SessionMetrics::new();
            let mut effects = Effects::new();
            let mut state = requesting(request);
            state.must_continue = must_continue;
            http.set_state(state);
            let step = http.back_writable_written(
                &mut metrics,
                so_far(0),
                5,
                SocketResult::Continue,
                &front,
                &mut effects,
            );
            assert_eq!(step, BackWriteStep::Done(SessionResult::Continue));
            assert_eq!(http.front_buf, if is_returned { None } else { Some("front buffer") });
            assert_eq!(kinds(&http.front_readiness), (false, false));
            assert_eq!(kinds(&http.back_readiness), (true, false));
        }
    }
}

#[test]
fn held_back_chunks_wait_for_the_backend() {
    let mut http = session();
    let mut metrics = SessionMetrics::new();
    let mut effects = Effects::new();
    http.front_readiness.wait_for(Kind::Readable);
    http.back_readiness.wait_for(Kind::Writable);
    let mut state = requesting(RequestState::RequestWithBodyChunks(Chunk::Initial));
    state.must_continue = Some(0);
    http.set_state(state);
    let step = http.back_writable_written(
        &mut metrics,
        so_far(0),
        5,
        SocketResult::Continue,
        &buffer(),
        &mut effects,
    );
    assert_eq!(step, BackWriteStep::Done(SessionResult::Continue));
    assert_eq!(http.front_buf, Some("front buffer"));
    assert_eq!(kinds(&http.front_readiness), (false, false));
    assert_eq!(kinds(&http.back_readiness), (true, false));
}

#[test]
fn unsent_part_of_a_request_needs_more() {
    let mut http = session();
    let mut metrics = SessionMetrics::new();
    let mut effects = Effects::new();
    let step = http.back_writable_written(
        &mut metrics,
        so_far(0),
        5,
        SocketResult::Continue,
        &BufferState { can_restart_parsing: false, ..buffer() },
        &mut effects,
    );
    assert_eq!(step, BackWriteStep::Done(SessionResult::Continue));
    assert_eq!(kinds(&http.front_readiness), (true, false));
    assert_eq!(kinds(&http.back_readiness), (false, true));
}

#[test]
fn request_in_no_known_state_is_a_failure() {
    for request in [RequestState::Initial, RequestState::Other] {
        let mut http = busy(session());
        let mut metrics = SessionMetrics::new();
        let mut effects = Effects::new();
        http.set_state(requesting(request));
        let step = http.back_writable_written(
            &mut metrics,
            so_far(0),
            5,
            SocketResult::Continue,
            &buffer(),
            &mut effects,
        );
        assert_eq!(step, BackWriteStep::Done(SessionResult::CloseSession));
        assert_eq!(failure(&effects), "invalid state, closing connection");
        assert!(is_idle(&http));
    }
}

#[test]
fn reading_from_the_backend_needs_a_buffer_with_room() {
    let metrics = SessionMetrics::new();
    let mut effects = Effects::new();
    let mut http = session();
    http.back_buf = None;
    assert_eq!(http.back_readable(&metrics, 0, &mut effects), BackReadStep::Checkout);
    assert_eq!(
        http.back_readable_checked_out(&metrics, None, 0, &mut effects),
        BackReadStep::Done(CLOSE.0, CLOSE.1)
    );
    assert_eq!(http.back_buf, None);
    assert_eq!(diagnoses(&effects), vec!["cannot get back buffer from pool, closing"]);
    let mut effects = Effects::new();
    assert_eq!(
        http.back_readable_checked_out(&metrics, Some("other"), 9, &mut effects),
        BackReadStep::Read
    );
    assert_eq!(http.back_buf, Some("other"));
    http.back_readiness.wait_for(Kind::Readable);
    assert_eq!(
        http.back_readable(&metrics, 0, &mut effects),
        BackReadStep::Done(GO_ON.0, GO_ON.1)
    );
    assert_eq!(kinds(&http.back_readiness), (false, false));
    assert!(quiet(&effects).is_empty());
}

#[test]
fn read_from_the_backend_is_counted() {
    let mut http = busy(session());
    let mut metrics = SessionMetrics::new();
    let mut effects = Effects::new();
    http.sticky_session = Some(StickySession::new("backend-0".to_string()));
    let step = http.back_readable_read(
        &mut metrics,
        33,
        SocketResult::Continue,
        &buffer(),
        &mut effects,
    );
    assert_eq!(
        step,
        BackParseStep::Parse(
            ResponseStage::Rest,
            Some(StickySession::new("backend-0".to_string()))
        )
    );
    assert_eq!(metrics.backend_bin, 33);
    assert_eq!(notes(&effects), vec!["id unknown\t\tBACK  [1<-2]: read 33 bytes"]);
    assert!(http.back_readiness.event.is_readable());
    // the sticky session is given once
    let step = http.back_readable_read(
        &mut metrics,
        0,
        SocketResult::Continue,
        &buffer(),
        &mut effects,
    );
    assert_eq!(step, BackParseStep::Parse(ResponseStage::Rest, None));
    assert!(!http.back_readiness.event.is_readable());
    assert!(quiet(&effects).is_empty());
}

#[test]
fn failed_read_from_the_backend_closes() {
    let mut http = busy(session());
    let mut metrics = SessionMetrics::new();
    let mut effects = Effects::new();
    let step =
        http.back_readable_read(&mut metrics, 1, SocketResult::Error, &buffer(), &mut effects);
    assert_eq!(step, BackParseStep::Done(CLOSE.0, CLOSE.1));
    assert_eq!(failure(&effects), "back socket read error, closing connection");
    assert!(is_idle(&http));
    assert_eq!(metrics.backend_bin, 1);
}

#[test]
fn closed_backend_is_still_parsed() {
    let mut http = busy(session());
    let mut metrics = SessionMetrics::new();
    let mut effects = Effects::new();
    let step =
        http.back_readable_read(&mut metrics, 4, SocketResult::Closed, &buffer(), &mut effects);
    assert_eq!(step, BackParseStep::Parse(ResponseStage::Rest, None));
    assert!(!http.back_readiness.event.is_readable());
}

#[test]
fn reading_depends_on_the_state_of_the_response() {
    let wants = BufferState { needs_input: true, ..buffer() };
    let full = BufferState { needs_input: false, ..buffer() };
    let go_on = || BackParseStep::Done(GO_ON.0, GO_ON.1);
    // (state, size, buffer, step, still reads from the backend, waits to write to the client)
    let cases = vec![
        (ResponseState::ResponseWithBody, 5, wants, go_on(), true, true),
        (ResponseState::ResponseWithBody, 5, full, go_on(), false, true),
        (ResponseState::ResponseWithBodyChunks(Chunk::Ended), 0, full, go_on(), false, false),
        (ResponseState::ResponseWithBodyChunks(Chunk::InProgress), 5, wants, go_on(), true, true),
        (
            ResponseState::ResponseWithBodyChunks(Chunk::InProgress),
            5,
            full,
            BackParseStep::Parse(ResponseStage::Chunks, None),
            true,
            false,
        ),
        (
            ResponseState::HasLength,
            5,
            full,
            BackParseStep::Parse(ResponseStage::Rest, None),
            true,
            false,
        ),
        (
            ResponseState::ResponseUpgrade("websocket".to_string()),
            5,
            full,
            BackParseStep::Done(ProtocolResult::Upgrade, SessionResult::Continue),
            true,
            false,
        ),
        (ResponseState::ResponseUpgrade("h2c".to_string()), 5, full, go_on(), true, false),
    ];
    for (response, size, back, expected, back_reads, front_writes) in cases {
        let mut http = session();
        let mut metrics = SessionMetrics::new();
        let mut effects = Effects::new();
        http.back_readiness.wait_for(Kind::Readable);
        http.set_state(responding(response));
        let step = http.back_readable_read(
            &mut metrics,
            size,
            SocketResult::Continue,
            &back,
            &mut effects,
        );
        assert_eq!(step, expected);
        assert_eq!(kinds(&http.back_readiness), (back_reads, false));
        assert_eq!(kinds(&http.front_readiness), (false, front_writes));
        assert!(quiet(&effects).is_empty());
    }
}

#[test]
fn reading_behind_a_response_is_a_failure() {
    let cases = vec![
        (
            ResponseState::Response,
            "should not go back in back_readable if the whole response was parsed",
            vec![],
        ),
        (
            ResponseState::ResponseWithBodyChunks(Chunk::Ended),
            "back read should have stopped on chunk ended",
            vec![
                "id unknown\t\tback read should have stopped on chunk ended\nstate: the state\n\
                 data:00000000\t47 45 54 20 2f                                  \tGET /\n".to_string(),
            ],
        ),
        (
            ResponseState::ResponseWithBodyChunks(Chunk::Error),
            "back read should have stopped on chunk error",
            vec![],
        ),
    ];
    for (response, message, expected) in cases {
        let mut http = busy(session());
        let mut metrics = SessionMetrics::new();
        let mut effects = Effects::new();
        http.set_state(responding(response));
        let step = http.back_readable_read(
            &mut metrics,
            5,
            SocketResult::Continue,
            &buffer(),
            &mut effects,
        );
        assert_eq!(step, BackParseStep::Done(CLOSE.0, CLOSE.1));
        assert_eq!(failure(&effects), message);
        assert_eq!(diagnoses(&effects), expected);
        assert!(is_idle(&http));
    }
}

#[test]
fn parsed_response_goes_to_the_client() {
    // (stage, state, result, still reads from the backend, waits to write to the client)
    let cases = vec![
        (ResponseStage::Rest, ResponseState::Response, GO_ON, false, true),
        (ResponseStage::Rest, ResponseState::HasLength, GO_ON, true, true),
        (
            ResponseStage::Rest,
            ResponseState::ResponseWithBodyChunks(Chunk::Ended),
            GO_ON,
            true,
            true,
        ),
        (
            ResponseStage::Chunks,
            ResponseState::ResponseWithBodyChunks(Chunk::Ended),
            GO_ON,
            false,
            true,
        ),
        (
            ResponseStage::Chunks,
            ResponseState::ResponseWithBodyChunks(Chunk::InProgress),
            GO_ON,
            true,
            true,
        ),
        (
            ResponseStage::Rest,
            ResponseState::ResponseUpgrade("websocket".to_string()),
            (ProtocolResult::Upgrade, SessionResult::Continue),
            true,
            false,
        ),
        (
            ResponseStage::Rest,
            ResponseState::ResponseUpgrade("WebSocket".to_string()),
            GO_ON,
            true,
            false,
        ),
    ];
    for (stage, response, expected, back_reads, front_writes) in cases {
        let mut http = session();
        let mut effects = Effects::new();
        http.back_readiness.wait_for(Kind::Readable);
        let result = http.back_readable_parsed(
            &SessionMetrics::new(),
            stage,
            responding(response),
            &mut effects,
        );
        assert_eq!(result, expected);
        assert_eq!(kinds(&http.back_readiness), (back_reads, false));
        assert_eq!(kinds(&http.front_readiness), (false, front_writes));
        assert!(quiet(&effects).is_empty());
    }
}

#[test]
fn switch_of_protocol_is_noted() {
    let upgrade = || responding(ResponseState::ResponseUpgrade("websocket".to_string()));
    let mut http = session();
    let mut metrics = SessionMetrics::new();
    let mut effects = Effects::new();
    http.set_state(upgrade());
    http.clear_back_token();
    http.back_readable_read(&mut metrics, 5, SocketResult::Continue, &buffer(), &mut effects);
    http.back_readable_parsed(&metrics, ResponseStage::Rest, upgrade(), &mut effects);
    assert_eq!(
        notes(&effects),
        vec![
            "got an upgrade state[1]: \"websocket\"",
            "got an upgrade state[2]: \"websocket\"",
        ]
    );
}

#[test]
fn response_that_cannot_be_parsed_closes() {
    let cases = [
        (ResponseStage::Chunks, "back socket chunk parse error, closing connection"),
        (ResponseStage::Rest, "back socket parse error, closing connection"),
    ];
    for (stage, message) in cases {
        let mut http = busy(session());
        let mut effects = Effects::new();
        let mut state = responding(ResponseState::Error);
        state.back_error = true;
        let result =
            http.back_readable_parsed(&SessionMetrics::new(), stage, state, &mut effects);
        assert_eq!(result, CLOSE);
        assert_eq!(failure(&effects), message);
        assert!(is_idle(&http));
    }
}

#[test]
fn backend_that_hangs_up_may_leave_data() {
    let mut http = session();
    http.back_buf = None;
    http.back_readiness.see(Kind::Readable);
    assert_eq!(http.back_hup(&with_output(5)), SessionResult::CloseSession);

    let mut http = session();
    assert_eq!(http.back_hup(&buffer()), SessionResult::CloseSession);
    assert_eq!(kinds(&http.back_readiness), (false, false));
    http.back_readiness.see(Kind::Readable);
    assert_eq!(http.back_hup(&buffer()), SessionResult::Continue);
    assert_eq!(kinds(&http.back_readiness), (true, false));
    assert_eq!(kinds(&http.front_readiness), (false, false));

    let mut http = session();
    assert_eq!(http.back_hup(&with_output(5)), SessionResult::Continue);
    assert_eq!(kinds(&http.back_readiness), (false, false));
    assert_eq!(kinds(&http.front_readiness), (false, true));
    http.back_readiness.see(Kind::Readable);
    assert_eq!(http.back_hup(&with_output(5)), SessionResult::Continue);
    assert_eq!(kinds(&http.back_readiness), (true, false));
}

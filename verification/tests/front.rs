use std::rc::Rc;

use http_session::address::{FrontAddresses, IpAddr, SocketAddr};
use http_session::buffer::BufferState;
use http_session::forward::Protocol;
use http_session::front_read::{ParseStage, ParseStep, ReadStep};
use http_session::front_write::{needs_state, AnswerCursor, Progress, WriteStep};
use http_session::readiness::{Kind, Readiness};
use http_session::report::{
    Details, Diagnostic, Effect, Effects, Level, LogEntry, LogKind, LogMessage, Measure, Metric,
    SessionMetrics,
};
use http_session::session::{
    DefaultAnswerStatus, Http, SessionResult, SessionStatus, SocketResult,
};
use http_session::state::{Chunk, HttpState, RStatusLine, RequestState, ResponseState};
use mio::Token;

type Session = Http<&'static str, &'static str, &'static str>;

fn nowhere() -> FrontAddresses {
    FrontAddresses { peer: None, local: None }
}

fn session() -> Session {
    Http::with_request_id(
        "front",
        Token(1),
        "id".to_string(),
        None,
        None,
        "sticky".to_string(),
        Protocol::HTTP,
        &nowhere(),
    )
}

fn buffer() -> BufferState {
    BufferState {
        buffer_position: 0,
        available_space: 100,
        input_data_size: 0,
        start_parsing_position: 0,
        parsed_position: 0,
        output_data_size: 0,
        next_output_size: 0,
        needs_input: true,
        can_restart_parsing: true,
        empty: true,
    }
}

fn so_far(sz: usize) -> Progress {
    Progress { sz, output_size: 5 }
}

fn with_output(size: usize) -> BufferState {
    BufferState { output_data_size: size, next_output_size: size, empty: false, ..buffer() }
}

fn kinds(readiness: &Readiness) -> (bool, bool) {
    (readiness.interest.is_readable(), readiness.interest.is_writable())
}

fn is_idle(http: &Session) -> bool {
    let none = Readiness::new();
    let is_none = |r: &Readiness| r.event == none.event && r.interest == none.interest;
    is_none(&http.front_readiness) && is_none(&http.back_readiness)
}

fn measures(effects: &Effects) -> Vec<&Measure> {
    effects
        .list
        .iter()
        .filter_map(|effect| match effect {
            Effect::Measure(measure) => Some(measure),
            _ => None,
        })
        .collect()
}

fn line_of(diagnostic: &Diagnostic) -> String {
    let (front, back) = match diagnostic {
        Diagnostic::BackendClosed { front, back, .. } => (front.0, back.map(|back| back.0)),
        Diagnostic::FrontWrote { front, back, .. }
        | Diagnostic::BackWrote { front, back, .. }
        | Diagnostic::BackRead { front, back, .. } => (front.0, Some(back.0)),
        _ => (0, None),
    };
    let (protocol, place) = match diagnostic {
        Diagnostic::Upgrade { protocol, is_new } => {
            (format!("{:?}", protocol), if *is_new { 2 } else { 1 })
        }
        _ => (String::new(), 0),
    };
    let details = Details { front, back, state: "the state".to_string(), protocol, place };
    diagnostic.text(&details, b"GET /")
}

fn lines(effects: &Effects, level: Level) -> Vec<String> {
    effects
        .list
        .iter()
        .filter_map(|effect| match effect {
            Effect::Diagnose(of, diagnostic) if *of == level => Some(line_of(diagnostic)),
            _ => None,
        })
        .collect()
}

fn diagnoses(effects: &Effects) -> Vec<String> {
    lines(effects, Level::Error)
}

fn notes(effects: &Effects) -> Vec<String> {
    lines(effects, Level::Debug)
}

/// The effects without the notes on what the session does.
fn quiet(effects: &Effects) -> Vec<&Effect> {
    effects
        .list
        .iter()
        .filter(|effect| {
            !matches!(effect, Effect::Diagnose(Level::Debug | Level::Trace, _))
        })
        .collect()
}

fn entry(effects: &Effects) -> &LogEntry {
    effects
        .list
        .iter()
        .find_map(|effect| match effect {
            Effect::Log(entry) => Some(entry),
            _ => None,
        })
        .unwrap()
}

fn failure(effects: &Effects) -> String {
    match &entry(effects).kind {
        LogKind::Error(message) => message.text(),
        other => panic!("unexpected entry: {:?}", other),
    }
}

fn busy(mut http: Session) -> Session {
    for kind in [Kind::Readable, Kind::Writable, Kind::Error, Kind::Hup] {
        http.front_readiness.see(kind);
        http.front_readiness.wait_for(kind);
        http.back_readiness.see(kind);
        http.back_readiness.wait_for(kind);
    }
    http
}

fn parsing(request: RequestState, has_host: bool) -> HttpState {
    let mut state = HttpState::new();
    state.request = Some(request);
    state.has_host = has_host;
    state
}

fn responding(response: ResponseState) -> HttpState {
    let mut state = parsing(RequestState::Request, true);
    state.response = Some(response);
    state
}

#[test]
fn reading_while_answering_waits_to_write() {
    let mut http = busy(session());
    let mut effects = Effects::new();
    http.set_answer(DefaultAnswerStatus::Answer404, Rc::new(vec![1]), &mut effects);
    http.front_readiness.ignore(Kind::Writable);
    http.back_readiness.wait_for(Kind::Readable);
    http.back_readiness.wait_for(Kind::Writable);
    let step = http.readable(&SessionMetrics::new(), 10, &mut effects);
    assert_eq!(step, ReadStep::Done(SessionResult::Continue));
    assert_eq!(kinds(&http.front_readiness), (false, true));
    assert_eq!(kinds(&http.back_readiness), (false, false));
    assert_eq!(quiet(&effects).len(), 1);
}

#[test]
fn reading_needs_a_buffer() {
    let metrics = SessionMetrics::new();
    let mut effects = Effects::new();
    let mut http = session();
    assert_eq!(http.readable(&metrics, 0, &mut effects), ReadStep::Checkout);
    assert_eq!(
        http.readable_checked_out(&metrics, None, 0, &mut effects),
        ReadStep::Done(SessionResult::CloseSession)
    );
    assert_eq!(http.front_buf, None);
    assert_eq!(diagnoses(&effects), vec!["cannot get front buffer from pool, closing"]);
    let mut effects = Effects::new();
    assert_eq!(
        http.readable_checked_out(&metrics, Some("buffer"), 100, &mut effects),
        ReadStep::Read
    );
    assert_eq!(http.front_buf, Some("buffer"));
    assert_eq!(http.readable(&metrics, 100, &mut effects), ReadStep::Read);
    assert!(quiet(&effects).is_empty());
}

#[test]
fn request_without_backend_that_fills_the_buffer_is_too_large() {
    let mut http = session();
    let mut effects = Effects::new();
    http.front_buf = Some("buffer");
    http.front_readiness.wait_for(Kind::Readable);
    let step = http.readable(&SessionMetrics::new(), 0, &mut effects);
    assert_eq!(step, ReadStep::Done(SessionResult::Continue));
    let answer = b"HTTP/1.1 413 Payload Too Large\r\nContent-Length: 0\r\n\r\n".to_vec();
    assert_eq!(
        http.status,
        SessionStatus::DefaultAnswer(DefaultAnswerStatus::Answer413, Rc::new(answer), 0)
    );
    assert_eq!(http.front_buf, None);
    assert_eq!(kinds(&http.front_readiness), (false, true));
    assert_eq!(measures(&effects), vec![&Measure::Incr(Metric::Errors413)]);
}

#[test]
fn request_with_backend_that_fills_the_buffer_waits() {
    let mut http = session();
    let mut effects = Effects::new();
    http.front_buf = Some("buffer");
    http.set_back_token(Token(2));
    http.front_readiness.wait_for(Kind::Readable);
    let step = http.readable(&SessionMetrics::new(), 0, &mut effects);
    assert_eq!(step, ReadStep::Done(SessionResult::Continue));
    assert_eq!(http.status, SessionStatus::Normal);
    assert_eq!(http.front_buf, Some("buffer"));
    assert_eq!(kinds(&http.front_readiness), (false, false));
    assert_eq!(kinds(&http.back_readiness), (false, true));
    assert!(quiet(&effects).is_empty());
}

#[test]
fn bytes_parsed_ahead_are_consumed() {
    assert_eq!(buffer().to_consume(), None);
    let ahead = BufferState {
        start_parsing_position: 30,
        parsed_position: 10,
        input_data_size: 50,
        ..buffer()
    };
    assert_eq!(ahead.to_consume(), Some(20));
    assert_eq!(BufferState { input_data_size: 5, ..ahead }.to_consume(), Some(5));
    assert_eq!(BufferState { parsed_position: 30, ..ahead }.to_consume(), None);
    assert_eq!(BufferState { parsed_position: 31, ..ahead }.to_consume(), None);
}

#[test]
fn read_bytes_are_counted_and_parsed() {
    let mut http = busy(session());
    let mut metrics = SessionMetrics::new();
    let mut effects = Effects::new();
    http.front_buf = Some("buffer");
    let step =
        http.readable_read(&mut metrics, 42, SocketResult::Continue, &buffer(), &mut effects);
    assert_eq!(step, ParseStep::Parse(ParseStage::Head { was_initial: true }));
    assert_eq!(metrics.bin, 42);
    assert_eq!(notes(&effects), vec!["id unknown\t\tFRONT: read 42 bytes"]);
    assert!(matches!(effects.list[0], Effect::Diagnose(Level::Debug, _)));
    assert_eq!(measures(&effects), vec![&Measure::Count(Metric::BytesIn, 42)]);
    assert_eq!(kinds(&http.front_readiness), (true, true));
    assert!(http.front_readiness.event.is_readable());
    let full = BufferState { available_space: 0, ..buffer() };
    http.readable_read(&mut metrics, 8, SocketResult::WouldBlock, &full, &mut effects);
    assert_eq!(metrics.bin, 50);
    assert_eq!(kinds(&http.front_readiness), (false, true));
    assert!(!http.front_readiness.event.is_readable());
}

#[test]
fn empty_read_uses_the_event_up() {
    let mut http = busy(session());
    let mut metrics = SessionMetrics::new();
    let mut effects = Effects::new();
    http.front_buf = Some("buffer");
    http.readable_read(&mut metrics, 0, SocketResult::Continue, &buffer(), &mut effects);
    assert!(!http.front_readiness.event.is_readable());
    assert_eq!(metrics, SessionMetrics::new());
    assert!(quiet(&effects).is_empty());
}

#[test]
fn failed_read_closes_and_tells_the_readiness() {
    let mut http = busy(session());
    let mut metrics = SessionMetrics::new();
    let mut effects = Effects::new();
    http.front_buf = Some("buffer");
    let front = http.front_readiness;
    let back = http.back_readiness;
    let step = http.readable_read(&mut metrics, 3, SocketResult::Error, &buffer(), &mut effects);
    assert_eq!(step, ParseStep::Done(SessionResult::CloseSession));
    assert!(is_idle(&http));
    assert_eq!(
        failure(&effects),
        format!(
            "front socket error, closing the connection. Readiness: {:?} -> {:?}",
            front, back
        )
    );
    assert_eq!(quiet(&effects).len(), 3);
    assert!(matches!(quiet(&effects)[1], Effect::ServiceStop));
    assert_eq!(entry(&effects).metrics.bin, 3);
}

#[test]
fn client_may_leave_between_requests() {
    let mut http = busy(session());
    let mut metrics = SessionMetrics::new();
    let mut effects = Effects::new();
    http.front_buf = Some("buffer");
    let step = http.readable_read(&mut metrics, 0, SocketResult::Closed, &buffer(), &mut effects);
    assert_eq!(step, ParseStep::Done(SessionResult::CloseSession));
    assert!(is_idle(&http));
    assert_eq!(quiet(&effects).len(), 1);
    assert!(matches!(quiet(&effects)[0], Effect::ServiceStop));
}

#[test]
fn client_that_leaves_within_a_request_is_a_failure() {
    let mut http = busy(session());
    let mut metrics = SessionMetrics::new();
    let mut effects = Effects::new();
    http.front_buf = Some("buffer");
    http.set_state(parsing(RequestState::HasHost, true));
    let step = http.readable_read(&mut metrics, 0, SocketResult::Closed, &buffer(), &mut effects);
    assert_eq!(step, ParseStep::Done(SessionResult::CloseSession));
    assert!(is_idle(&http));
    assert!(failure(&effects).starts_with("front socket error, closing the connection."));
}

#[test]
fn parsing_depends_on_the_state_of_the_request() {
    let wants = BufferState { needs_input: true, ..buffer() };
    let full = BufferState { needs_input: false, ..buffer() };
    let go_on = ParseStep::Done(SessionResult::Continue);
    let cases = [
        (RequestState::Initial, false, full, ParseStep::Parse(ParseStage::Head { was_initial: true }), true),
        (RequestState::HasRequestLine, false, full, ParseStep::Parse(ParseStage::Head { was_initial: false }), true),
        (RequestState::Request, true, full, go_on, false),
        (RequestState::Request, true, wants, go_on, true),
        (RequestState::RequestWithBody, true, full, go_on, false),
        (RequestState::RequestWithBody, true, wants, go_on, true),
        (RequestState::RequestWithBodyChunks(Chunk::Ended), true, wants, go_on, false),
        (RequestState::RequestWithBodyChunks(Chunk::Initial), true, full, ParseStep::Parse(ParseStage::Chunks), true),
        (RequestState::RequestWithBodyChunks(Chunk::InProgress), true, full, ParseStep::Parse(ParseStage::Chunks), true),
        (RequestState::RequestWithBodyChunks(Chunk::InProgress), true, wants, go_on, true),
        (RequestState::HasHost, true, full, ParseStep::Parse(ParseStage::Rest), true),
        (RequestState::HasHostAndLength, true, wants, ParseStep::Parse(ParseStage::Rest), true),
    ];
    for (request, has_host, front, expected, still_reading) in cases {
        let mut http = session();
        let mut effects = Effects::new();
        http.front_buf = Some("buffer");
        http.front_readiness.wait_for(Kind::Readable);
        http.set_state(parsing(request, has_host));
        let step = http.readable_parse(&SessionMetrics::new(), &front, &mut effects);
        assert_eq!(step, expected, "{:?}", request);
        assert_eq!(kinds(&http.front_readiness), (still_reading, false), "{:?}", request);
        assert_eq!(kinds(&http.back_readiness), (false, has_host), "{:?}", request);
        if request == RequestState::RequestWithBodyChunks(Chunk::Ended) {
            assert_eq!(
                diagnoses(&effects),
                vec!["id unknown\t\tfront read should have stopped on chunk ended"]
            );
        } else {
            assert!(quiet(&effects).is_empty());
        }
    }
}

#[test]
fn reading_behind_a_broken_chunk_is_a_failure() {
    let mut http = busy(session());
    let mut effects = Effects::new();
    http.set_state(parsing(RequestState::RequestWithBodyChunks(Chunk::Error), true));
    let step = http.readable_parse(&SessionMetrics::new(), &buffer(), &mut effects);
    assert_eq!(step, ParseStep::Done(SessionResult::CloseSession));
    assert_eq!(failure(&effects), "front read should have stopped on chunk error");
    assert!(is_idle(&http));
}

#[test]
fn host_calls_for_a_backend() {
    let mut http = session();
    let mut effects = Effects::new();
    let result = http.readable_parsed(
        &SessionMetrics::new(),
        ParseStage::Head { was_initial: true },
        parsing(RequestState::HasHost, true),
        &mut effects,
    );
    assert_eq!(result, SessionResult::ConnectBackend);
    assert_eq!(kinds(&http.back_readiness), (false, true));
    assert_eq!(
        measures(&effects),
        vec![
            &Measure::GaugeAdd(Metric::ActiveRequests, 1),
            &Measure::Incr(Metric::Requests)
        ]
    );
    assert_eq!(http.state.as_ref().unwrap().request, Some(RequestState::HasHost));
}

#[test]
fn head_without_host_needs_more() {
    let mut http = session();
    let mut effects = Effects::new();
    let head = ParseStage::Head { was_initial: true };
    let metrics = SessionMetrics::new();
    let result =
        http.readable_parsed(&metrics, head, parsing(RequestState::Initial, false), &mut effects);
    assert_eq!(result, SessionResult::Continue);
    assert!(quiet(&effects).is_empty());
    assert_eq!(kinds(&http.front_readiness), (true, false));
    let later = ParseStage::Head { was_initial: false };
    let result = http.readable_parsed(
        &metrics,
        later,
        parsing(RequestState::HasRequestLine, false),
        &mut effects,
    );
    assert_eq!(result, SessionResult::Continue);
    assert!(quiet(&effects).is_empty());
}

#[test]
fn head_that_cannot_be_parsed_closes() {
    let mut http = busy(session());
    let mut effects = Effects::new();
    let mut state = parsing(RequestState::Other, false);
    state.front_error = true;
    let result = http.readable_parsed(
        &SessionMetrics::new(),
        ParseStage::Head { was_initial: true },
        state,
        &mut effects,
    );
    assert_eq!(result, SessionResult::CloseSession);
    assert_eq!(failure(&effects), "front parsing error, closing the connection");
    assert_eq!(
        measures(&effects),
        vec![
            &Measure::Incr(Metric::FrontParseErrors),
            &Measure::GaugeAdd(Metric::ActiveRequests, 1)
        ]
    );
    assert!(is_idle(&http));
}

#[test]
fn parsed_body_goes_to_the_backend() {
    let cases = [
        (ParseStage::Chunks, RequestState::RequestWithBodyChunks(Chunk::Ended), false),
        (ParseStage::Chunks, RequestState::RequestWithBodyChunks(Chunk::InProgress), true),
        (ParseStage::Rest, RequestState::Request, false),
        (ParseStage::Rest, RequestState::RequestWithBody, true),
    ];
    for (stage, request, still_reading) in cases {
        let mut http = session();
        let mut effects = Effects::new();
        http.front_readiness.wait_for(Kind::Readable);
        let result = http.readable_parsed(
            &SessionMetrics::new(),
            stage,
            parsing(request, true),
            &mut effects,
        );
        assert_eq!(result, SessionResult::Continue);
        assert_eq!(kinds(&http.front_readiness), (still_reading, false));
        assert_eq!(kinds(&http.back_readiness), (false, true));
        assert!(quiet(&effects).is_empty());
    }
}

#[test]
fn body_that_cannot_be_parsed_closes() {
    let cases = [
        (ParseStage::Chunks, "front chunk parsing error, closing the connection"),
        (ParseStage::Rest, "front parsing error, closing the connection"),
    ];
    for (stage, message) in cases {
        let mut http = busy(session());
        let mut effects = Effects::new();
        let mut state = parsing(RequestState::Other, true);
        state.front_error = true;
        let result = http.readable_parsed(&SessionMetrics::new(), stage, state, &mut effects);
        assert_eq!(result, SessionResult::CloseSession);
        assert_eq!(failure(&effects), message);
        assert!(measures(&effects).is_empty());
        assert!(is_idle(&http));
    }
}

#[test]
fn own_answer_is_sent_whole() {
    let mut http = busy(session());
    let mut metrics = SessionMetrics::new();
    let mut effects = Effects::new();
    http.set_answer(DefaultAnswerStatus::Answer503, Rc::new(vec![7; 10]), &mut effects);
    let step = http.writable(&mut metrics, &buffer(), &mut effects);
    let start = AnswerCursor { index: 0, sz: 0, res: SocketResult::Continue };
    assert_eq!(step, WriteStep::WriteAnswer(start));
    let step =
        http.writable_answer_written(&mut metrics, start, 4, SocketResult::Continue, &mut effects);
    let next = AnswerCursor { index: 4, sz: 4, res: SocketResult::Continue };
    assert_eq!(step, WriteStep::WriteAnswer(next));
    assert_eq!(metrics.bout, 0);
    let step =
        http.writable_answer_written(&mut metrics, next, 6, SocketResult::Continue, &mut effects);
    assert_eq!(step, WriteStep::Done(SessionResult::CloseSession));
    assert_eq!(metrics.bout, 10);
    assert!(is_idle(&http));
    assert_eq!(
        measures(&effects),
        vec![&Measure::Incr(Metric::Errors503), &Measure::Count(Metric::BytesOut, 10)]
    );
    assert!(matches!(quiet(&effects)[2], Effect::ServiceStop));
    assert!(matches!(entry(&effects).kind, LogKind::DefaultAnswer));
    assert_eq!(entry(&effects).status_line, "503 Service Unavailable");
    assert_eq!(entry(&effects).metrics.bout, 10);
}

#[test]
fn blocked_answer_goes_on_where_it_was_left() {
    let answer = Rc::new(vec![0, 1, 2, 3, 4, 5, 6, 7, 8, 9]);
    let mut http = busy(session());
    let mut metrics = SessionMetrics::new();
    let mut effects = Effects::new();
    http.set_answer(DefaultAnswerStatus::Answer404, answer.clone(), &mut effects);
    let start = AnswerCursor { index: 0, sz: 0, res: SocketResult::Continue };
    let blocked = SocketResult::WouldBlock;
    let step = http.writable_answer_written(&mut metrics, start, 4, blocked, &mut effects);
    assert_eq!(step, WriteStep::Done(SessionResult::Continue));
    assert_eq!(metrics.bout, 4);
    assert!(!http.front_readiness.event.is_writable());
    assert_eq!(
        http.status,
        SessionStatus::DefaultAnswer(DefaultAnswerStatus::Answer404, answer.clone(), 4)
    );
    let next = AnswerCursor { index: 4, sz: 0, res: SocketResult::Continue };
    assert_eq!(
        http.writable(&mut metrics, &buffer(), &mut effects),
        WriteStep::WriteAnswer(next)
    );
    assert_eq!(http.status.answer_from(4), Some(&[4, 5, 6, 7, 8, 9][..]));
}

#[test]
fn answer_arrives_once_over_several_turns() {
    let answer: Vec<u8> = b"hello, client".to_vec();
    let mut http = busy(session());
    let mut metrics = SessionMetrics::new();
    let mut effects = Effects::new();
    http.set_answer(DefaultAnswerStatus::Answer503, Rc::new(answer.clone()), &mut effects);
    let mut received: Vec<u8> = Vec::new();
    let mut turns = 0;
    loop {
        turns += 1;
        let mut step = http.writable(&mut metrics, &buffer(), &mut effects);
        // each turn makes two writes, and the second blocks
        let mut res = SocketResult::Continue;
        while let WriteStep::WriteAnswer(cursor) = step {
            let rest = http.status.answer_from(cursor.index).unwrap();
            let size = rest.len().min(2);
            received.extend_from_slice(&rest[..size]);
            step = http.writable_answer_written(&mut metrics, cursor, size, res, &mut effects);
            res = SocketResult::WouldBlock;
        }
        assert_eq!(metrics.bout, received.len());
        if step == WriteStep::Done(SessionResult::CloseSession) {
            break;
        }
        assert_eq!(step, WriteStep::Done(SessionResult::Continue));
    }
    assert_eq!(received, answer);
    assert_eq!(turns, 4);
}

#[test]
fn failed_answer_closes() {
    let mut http = busy(session());
    let mut metrics = SessionMetrics::new();
    let mut effects = Effects::new();
    http.set_answer(DefaultAnswerStatus::Answer404, Rc::new(vec![7; 10]), &mut effects);
    let start = AnswerCursor { index: 0, sz: 0, res: SocketResult::Continue };
    let step =
        http.writable_answer_written(&mut metrics, start, 0, SocketResult::Error, &mut effects);
    assert_eq!(step, WriteStep::Done(SessionResult::CloseSession));
    assert_eq!(failure(&effects), "error writing default answer to front socket, closing");
    assert!(is_idle(&http));
    let mut normal = session();
    let step = normal.writable_default_answer(&mut metrics, start, &mut effects);
    assert_eq!(step, WriteStep::Done(SessionResult::CloseSession));
}

#[test]
fn writing_needs_output() {
    let mut http = session();
    let mut metrics = SessionMetrics::new();
    let mut effects = Effects::new();
    assert_eq!(
        http.writable(&mut metrics, &with_output(5), &mut effects),
        WriteStep::Done(SessionResult::CloseSession)
    );
    assert_eq!(diagnoses(&effects), vec!["no back buffer to write on the front socket"]);
    let mut effects = Effects::new();
    http.back_buf = Some("buffer");
    http.front_readiness.wait_for(Kind::Writable);
    for back in [buffer(), BufferState { next_output_size: 0, ..with_output(5) }] {
        assert_eq!(
            http.writable(&mut metrics, &back, &mut effects),
            WriteStep::Done(SessionResult::Continue)
        );
        assert_eq!(kinds(&http.front_readiness), (false, false));
        assert_eq!(kinds(&http.back_readiness), (true, false));
    }
    assert_eq!(http.writable(&mut metrics, &with_output(5), &mut effects), WriteStep::Write(so_far(0)));
    assert!(quiet(&effects).is_empty());
}

#[test]
fn turn_of_writing_counts_its_bytes_once() {
    let mut http = busy(session());
    let mut metrics = SessionMetrics::new();
    let mut effects = Effects::new();
    http.back_buf = Some("buffer");
    http.set_state(responding(ResponseState::ResponseWithBodyChunks(Chunk::InProgress)));
    let step = http.writable_written(
        &mut metrics,
        so_far(0),
        10,
        SocketResult::Continue,
        &with_output(20),
        true,
        &nowhere(),
        &mut effects,
    );
    assert_eq!(step, WriteStep::Write(so_far(10)));
    assert_eq!(metrics.bout, 0);
    let step = http.writable_written(
        &mut metrics,
        so_far(10),
        20,
        SocketResult::WouldBlock,
        &buffer(),
        true,
        &nowhere(),
        &mut effects,
    );
    assert_eq!(step, WriteStep::Done(SessionResult::Continue));
    assert_eq!(metrics.bout, 30);
    assert_eq!(measures(&effects), vec![&Measure::Count(Metric::BytesOut, 30)]);
    assert!(notes(&effects).is_empty());
    assert!(!http.front_readiness.event.is_writable());
    assert!(http.back_readiness.interest.is_readable());
}

#[test]
fn turn_of_writing_is_noted() {
    let mut http = session();
    let mut metrics = SessionMetrics::new();
    let mut effects = Effects::new();
    http.back_buf = Some("buffer");
    http.set_back_token(Token(7));
    let step = http.writable(&mut metrics, &with_output(60), &mut effects);
    assert_eq!(step, WriteStep::Write(Progress { sz: 0, output_size: 60 }));
    let back = BufferState {
        buffer_position: 300,
        start_parsing_position: 340,
        can_restart_parsing: false,
        ..with_output(20)
    };
    http.writable_written(
        &mut metrics,
        Progress { sz: 30, output_size: 60 },
        10,
        SocketResult::WouldBlock,
        &back,
        true,
        &nowhere(),
        &mut effects,
    );
    assert_eq!(
        notes(&effects),
        vec![
            "id unknown\t\tFRONT [1<-7]: wrote 40 bytes of 60, \
             buffer position 300 restart position 340"
        ]
    );
    assert!(matches!(effects.list[0], Effect::Measure(Measure::Count(Metric::BytesOut, 40))));
}

#[test]
fn turn_of_writing_ends_where_output_is_still_to_come() {
    let mut http = session();
    let mut metrics = SessionMetrics::new();
    let mut effects = Effects::new();
    http.back_buf = Some("buffer");
    http.front_readiness.wait_for(Kind::Writable);
    let back = BufferState { next_output_size: 0, ..with_output(5) };
    let step = http.writable_written(
        &mut metrics,
        so_far(1),
        2,
        SocketResult::Continue,
        &back,
        true,
        &nowhere(),
        &mut effects,
    );
    assert_eq!(step, WriteStep::Done(SessionResult::Continue));
    assert_eq!(metrics.bout, 3);
    assert_eq!(kinds(&http.front_readiness), (false, false));
    assert_eq!(kinds(&http.back_readiness), (true, false));
    assert_eq!(measures(&effects), vec![&Measure::Count(Metric::BytesOut, 3)]);
}

#[test]
fn failed_write_to_the_client_closes() {
    for res in [SocketResult::Error, SocketResult::Closed] {
        let mut http = busy(session());
        let mut metrics = SessionMetrics::new();
        let mut effects = Effects::new();
        http.back_buf = Some("buffer");
        let step = http.writable_written(
            &mut metrics,
            so_far(0),
            2,
            res,
            &with_output(5),
            true,
            &nowhere(),
            &mut effects,
        );
        assert_eq!(step, WriteStep::Done(SessionResult::CloseSession));
        assert_eq!(failure(&effects), "error writing to front socket, closing");
        assert_eq!(metrics.bout, 2);
        assert!(is_idle(&http));
    }
}

fn end_of_turn(mut http: Session, metrics: &mut SessionMetrics, effects: &mut Effects) -> (Session, WriteStep) {
    http.back_buf = Some("buffer");
    let step = http.writable_written(
        metrics,
        so_far(0),
        5,
        SocketResult::Continue,
        &buffer(),
        true,
        &nowhere(),
        effects,
    );
    (http, step)
}

#[test]
fn unsent_part_of_a_response_needs_more() {
    let mut http = session();
    let mut metrics = SessionMetrics::new();
    let mut effects = Effects::new();
    http.back_buf = Some("buffer");
    let back = BufferState { can_restart_parsing: false, ..buffer() };
    let step = http.writable_written(
        &mut metrics,
        so_far(0),
        5,
        SocketResult::Continue,
        &back,
        true,
        &nowhere(),
        &mut effects,
    );
    assert_eq!(step, WriteStep::Done(SessionResult::Continue));
    assert_eq!(kinds(&http.back_readiness), (true, false));
}

#[test]
fn incomplete_responses_go_on() {
    let responses = [
        ResponseState::ResponseWithBodyChunks(Chunk::Initial),
        ResponseState::ResponseWithBodyChunks(Chunk::InProgress),
        ResponseState::ResponseWithBodyChunks(Chunk::Error),
        ResponseState::HasStatusLine,
        ResponseState::HasUpgrade,
        ResponseState::HasLength,
    ];
    for response in responses {
        let mut http = session();
        let mut metrics = SessionMetrics::new();
        let mut effects = Effects::new();
        http.set_state(responding(response));
        let (http, step) = end_of_turn(http, &mut metrics, &mut effects);
        assert_eq!(step, WriteStep::Done(SessionResult::Continue));
        assert_eq!(kinds(&http.back_readiness), (true, false));
        assert_eq!(quiet(&effects).len(), 1);
    }
}

#[test]
fn response_in_no_known_state_closes() {
    let responses = [
        ResponseState::Initial,
        ResponseState::ResponseUpgrade("websocket".to_string()),
        ResponseState::Error,
        ResponseState::Other,
    ];
    for response in responses {
        let mut http = busy(session());
        let mut metrics = SessionMetrics::new();
        let mut effects = Effects::new();
        http.set_state(responding(response));
        let (http, step) = end_of_turn(http, &mut metrics, &mut effects);
        assert_eq!(step, WriteStep::Done(SessionResult::CloseSession));
        assert!(is_idle(&http));
        assert_eq!(quiet(&effects).len(), 1);
    }
}

#[test]
fn body_held_back_is_passed_on() {
    let mut http = session();
    let mut metrics = SessionMetrics::new();
    let mut effects = Effects::new();
    http.front_buf = Some("front");
    http.front_readiness.wait_for(Kind::Writable);
    let mut state = responding(ResponseState::Response);
    state.must_continue = Some(12);
    state.continues = true;
    state.res_header_end = Some(25);
    state.response_keep_alive = true;
    state.status_line = Some(RStatusLine { status: 100, reason: "Continue".to_string() });
    http.set_state(state);
    let (http, step) = end_of_turn(http, &mut metrics, &mut effects);
    assert_eq!(step, WriteStep::Done(SessionResult::Continue));
    assert_eq!(kinds(&http.front_readiness), (true, false));
    assert!(matches!(quiet(&effects)[1], Effect::ContinueBody(12)));
    assert_eq!(
        lines(&effects, Level::Trace),
        vec!["100-Continue => copying 12 of body from front to back"]
    );
    assert_eq!(http.get_response_status(), None);
    let state = http.state.as_ref().unwrap();
    assert_eq!(state.response, Some(ResponseState::Initial));
    assert_eq!(state.res_header_end, None);
    assert!(!state.continues);
    assert!(!state.response_keep_alive);
    assert_eq!(state.status_line, None);
    assert_eq!(state.must_continue, None);
    assert_eq!(http.front_buf, Some("front"));
}

#[test]
fn body_held_back_in_no_buffer_closes() {
    let mut http = session();
    let mut metrics = SessionMetrics::new();
    let mut effects = Effects::new();
    let mut state = responding(ResponseState::Response);
    state.must_continue = Some(12);
    http.set_state(state);
    let (http, step) = end_of_turn(http, &mut metrics, &mut effects);
    assert_eq!(step, WriteStep::Done(SessionResult::CloseSession));
    assert_eq!(http.state.as_ref().unwrap().response, Some(ResponseState::Response));
    assert_eq!(
        diagnoses(&effects),
        vec!["got 100 continue but front buffer was already removed"]
    );
    assert_eq!(quiet(&effects).len(), 2);
}

#[test]
fn keep_alive_decides_what_follows_a_response() {
    let cases = [
        (true, true, SessionResult::Continue),
        (true, false, SessionResult::CloseBackend(Some(Token(8)))),
        (false, true, SessionResult::CloseSession),
        (false, false, SessionResult::CloseSession),
    ];
    let responses = || {
        vec![
            ResponseState::Response,
            ResponseState::ResponseWithBody,
            ResponseState::ResponseWithBodyChunks(Chunk::Ended),
        ]
    };
    for (front, back, expected) in cases {
        for response in responses() {
            let mut http = busy(session());
            let mut metrics = SessionMetrics { bin: 1, bout: 2, backend_bin: 3, backend_bout: 4 };
            let mut effects = Effects::new();
            http.set_back_token(Token(8));
            let mut state = responding(response);
            state.request_keep_alive = front;
            state.response_keep_alive = back;
            state.status_line = Some(RStatusLine { status: 204, reason: "No Content".to_string() });
            http.set_state(state);
            let (http, step) = end_of_turn(http, &mut metrics, &mut effects);
            assert_eq!(step, WriteStep::Done(expected));
            assert_eq!(metrics, SessionMetrics::new());
            let note = match (front, back) {
                (true, true) => "id unknown\t keep alive front/back",
                (true, false) => "id unknown\t keep alive front",
                _ => "id unknown\t no keep alive",
            };
            assert_eq!(
                notes(&effects),
                vec![
                    "id unknown\t\tFRONT [1<-8]: wrote 5 bytes of 5, \
                     buffer position 0 restart position 0",
                    note,
                ]
            );
            assert!(matches!(entry(&effects).kind, LogKind::Success));
            assert_eq!(entry(&effects).status_line, "204 No Content");
            assert_eq!(entry(&effects).metrics.bout, 7);
            assert!(matches!(
                quiet(&effects)[..2],
                [
                    Effect::Measure(Measure::Count(Metric::BytesOut, 5)),
                    Effect::Measure(Measure::Incr(Metric::Status2xx))
                ]
            ));
            assert!(matches!(quiet(&effects)[3], Effect::ResetMetrics));
            if front {
                assert_ne!(http.request_id, "id");
                assert!(http.state.as_ref().unwrap().is_initial());
                assert_eq!(kinds(&http.front_readiness), (true, false));
                assert_eq!(kinds(&http.back_readiness), (false, false));
                assert!(http.back_readiness.interest.is_hup());
                assert_eq!(http.back_token(), if back { Some(Token(8)) } else { None });
                assert!(matches!(
                    quiet(&effects)[4],
                    Effect::Measure(Measure::GaugeAdd(Metric::ActiveRequests, -1))
                ));
                assert!(matches!(quiet(&effects)[5], Effect::ResetState));
                assert_eq!(quiet(&effects).len(), 6);
            } else {
                assert!(is_idle(&http));
                assert_eq!(http.request_id, "id");
                assert_eq!(quiet(&effects).len(), 4);
            }
        }
    }
}

#[test]
fn missing_request_is_not_kept_alive() {
    let mut http = busy(session());
    let mut metrics = SessionMetrics::new();
    let mut effects = Effects::new();
    let mut state = responding(ResponseState::Response);
    state.request = None;
    state.request_keep_alive = true;
    state.response_keep_alive = true;
    http.set_state(state);
    let (_, step) = end_of_turn(http, &mut metrics, &mut effects);
    assert_eq!(step, WriteStep::Done(SessionResult::CloseSession));
}

#[test]
fn any_message_can_be_logged() {
    let mut http = busy(session());
    let mut effects = Effects::new();
    http.log_request_error(
        &SessionMetrics::new(),
        LogMessage::Text("out of luck".to_string()),
        &mut effects,
    );
    assert_eq!(failure(&effects), "out of luck");
    assert!(is_idle(&http));
}

#[test]
fn client_gets_the_whole_answer_in_order() {
    let answer = b"HTTP/1.1 404 Not Found\r\nContent-Length: 0\r\n\r\n".to_vec();
    let mut http = session();
    let mut metrics = SessionMetrics::new();
    let mut effects = Effects::new();
    http.set_answer(DefaultAnswerStatus::Answer404, Rc::new(answer.clone()), &mut effects);
    let mut received: Vec<u8> = Vec::new();
    let mut step = http.writable(&mut metrics, &buffer(), &mut effects);
    while let WriteStep::WriteAnswer(cursor) = step {
        let rest = http.status.answer_from(cursor.index).unwrap();
        let size = rest.len().min(7);
        received.extend_from_slice(&rest[..size]);
        step = http.writable_answer_written(
            &mut metrics,
            cursor,
            size,
            SocketResult::Continue,
            &mut effects,
        );
    }
    assert_eq!(step, WriteStep::Done(SessionResult::CloseSession));
    assert_eq!(received, answer);
    assert_eq!(metrics.bout, answer.len());
}

#[test]
fn answer_is_left_from_an_index_on() {
    let status =
        SessionStatus::DefaultAnswer(DefaultAnswerStatus::Answer503, Rc::new(vec![1, 2, 3]), 0);
    assert_eq!(status.answer_from(0), Some(&[1, 2, 3][..]));
    assert_eq!(status.answer_from(2), Some(&[3][..]));
    assert_eq!(status.answer_from(3), Some(&[][..]));
    assert_eq!(status.answer_from(4), None);
    assert_eq!(SessionStatus::Normal.answer_from(0), None);
}

#[test]
fn session_tells_whether_it_will_start_over() {
    let mut http = session();
    let mut state = responding(ResponseState::Response);
    state.request_keep_alive = true;
    http.set_state(state);
    assert!(http.will_start_over(SocketResult::Continue, &buffer()));
    assert!(http.will_start_over(SocketResult::WouldBlock, &with_output(3)));
    assert!(!http.will_start_over(SocketResult::Continue, &with_output(3)));
    assert!(!http.will_start_over(SocketResult::Closed, &buffer()));
    assert!(!http.will_start_over(SocketResult::Error, &buffer()));
    let unsent = BufferState { can_restart_parsing: false, ..buffer() };
    assert!(!http.will_start_over(SocketResult::Continue, &unsent));
    http.state().must_continue = Some(1);
    assert!(!http.will_start_over(SocketResult::Continue, &buffer()));
    http.set_state(responding(ResponseState::Response));
    assert!(!http.will_start_over(SocketResult::Continue, &buffer()));
    let mut state = responding(ResponseState::HasLength);
    state.request_keep_alive = true;
    http.set_state(state);
    assert!(!http.will_start_over(SocketResult::Continue, &buffer()));
}

#[test]
fn headers_need_a_protocol_with_a_name() {
    let address = || SocketAddr {
        ip: IpAddr::V4("10.0.0.1".to_string()),
        port: 80,
        display: "10.0.0.1:80".to_string(),
    };
    let known = FrontAddresses { peer: Some(address()), local: Some(address()) };
    let no_peer = FrontAddresses { peer: None, local: Some(address()) };
    let no_local = FrontAddresses { peer: Some(address()), local: None };
    let mut http = session();
    assert!(http.can_add_headers(&known));
    http.protocol = Protocol::HTTPS;
    assert!(http.can_add_headers(&known));
    http.protocol = Protocol::Other;
    assert!(!http.can_add_headers(&known));
    assert!(http.can_add_headers(&no_peer));
    assert!(http.can_add_headers(&no_local));
    http.session_address = Some(address());
    assert!(!http.can_add_headers(&no_peer));
}

#[test]
fn ends_of_turns_that_look_at_the_exchange() {
    let unsent = BufferState { can_restart_parsing: false, ..buffer() };
    assert!(needs_state(SocketResult::Continue, &buffer()));
    assert!(!needs_state(SocketResult::Continue, &with_output(1)));
    assert!(needs_state(SocketResult::WouldBlock, &with_output(1)));
    assert!(!needs_state(SocketResult::WouldBlock, &unsent));
    assert!(!needs_state(SocketResult::Continue, &unsent));
    assert!(!needs_state(SocketResult::Error, &buffer()));
    assert!(!needs_state(SocketResult::Closed, &buffer()));
}

#[test]
fn parsed_chunks_need_no_front_buffer() {
    let mut http = session();
    assert!(http.needs_front_buffer());
    for chunk in [Chunk::Ended, Chunk::Error] {
        http.set_state(parsing(RequestState::RequestWithBodyChunks(chunk), true));
        assert!(!http.needs_front_buffer());
        http.state().has_host = false;
        assert!(http.needs_front_buffer());
    }
    http.set_state(parsing(RequestState::RequestWithBodyChunks(Chunk::InProgress), true));
    assert!(http.needs_front_buffer());
}

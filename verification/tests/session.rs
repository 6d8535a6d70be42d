use std::rc::Rc;

use http_session::address::{FrontAddresses, IpAddr, SocketAddr};
use http_session::forward::Protocol;
use http_session::readiness::Kind;
use http_session::report::{Diagnostic, Effect, Effects, Level, Measure, Metric};
use http_session::session::{
    DefaultAnswerStatus, Http, SessionResult, SessionStatus, StickySession,
};
use http_session::state::{HttpState, RRequestLine, RStatusLine, RequestState, ResponseState};
use mio::unix::UnixReady;
use mio::{Ready, Token};

type Session = Http<&'static str, &'static str, &'static str>;

const ID: &str = "6f9619ff-8b86-4011-b42d-00c04fc964ff";

fn nowhere() -> FrontAddresses {
    FrontAddresses { peer: None, local: None }
}

fn v4(ip: &str, port: u16) -> SocketAddr {
    SocketAddr { ip: IpAddr::V4(ip.to_string()), port, display: format!("{}:{}", ip, port) }
}

fn v6(ip: &str, port: u16) -> SocketAddr {
    SocketAddr { ip: IpAddr::V6(ip.to_string()), port, display: format!("[{}]:{}", ip, port) }
}

fn session_at(
    public: Option<IpAddr>,
    session: Option<SocketAddr>,
    protocol: Protocol,
    addresses: &FrontAddresses,
) -> Session {
    Http::with_request_id(
        "front",
        Token(1),
        ID.to_string(),
        public,
        session,
        "SOZUBALANCEID".to_string(),
        protocol,
        addresses,
    )
}

fn session() -> Session {
    session_at(None, None, Protocol::HTTP, &nowhere())
}

fn looks_like_an_id(id: &str) -> bool {
    let hyphens = [8, 13, 18, 23];
    id.len() == 36
        && id.char_indices().all(|(i, c)| {
            if hyphens.contains(&i) {
                c == '-'
            } else {
                c.is_ascii_digit() || ('a'..='f').contains(&c)
            }
        })
        && id.as_bytes()[14] == b'4'
        && b"89ab".contains(&id.as_bytes()[19])
}

fn is_waiting(interest: UnixReady, readable: bool, writable: bool, end: bool) -> bool {
    interest.is_readable() == readable
        && interest.is_writable() == writable
        && interest.is_hup() == end
        && interest.is_error() == end
}

#[test]
fn new_session_has_a_random_id() {
    let new = || -> Session {
        Http::new("f", Token(3), None, None, "s".to_string(), Protocol::HTTPS, &nowhere()).unwrap()
    };
    let first = new();
    let second = new();
    assert!(looks_like_an_id(&first.request_id));
    assert!(looks_like_an_id(&second.request_id));
    assert_ne!(first.request_id, second.request_id);
    assert_eq!(first.log_ctx, format!("{} unknown\t", first.request_id));
    let state = first.state.as_ref().unwrap();
    assert_eq!(state.added_req_header, format!("Sozu-Id: {}\r\n", first.request_id));
    assert_eq!(state.added_res_header, format!("Sozu-Id: {}\r\n", first.request_id));
}

#[test]
fn fresh_session_is_empty() {
    let http = session();
    assert_eq!(http.frontend, "front");
    assert_eq!(*http.front_socket(), "front");
    assert_eq!(http.back_socket(), None);
    assert_eq!(http.back_token(), None);
    assert_eq!(http.tokens(), None);
    assert_eq!(http.status, SessionStatus::Normal);
    assert_eq!(http.front_buf, None);
    assert_eq!(http.back_buf, None);
    assert_eq!(http.app_id, None);
    assert_eq!(http.sticky_name, "SOZUBALANCEID");
    assert_eq!(http.sticky_session, None);
    assert!(is_waiting(http.front_readiness.interest, false, false, false));
    assert!(is_waiting(http.back_readiness.interest, false, false, false));
    let state = http.state.as_ref().unwrap();
    assert_eq!(state.request, Some(RequestState::Initial));
    assert_eq!(state.response, Some(ResponseState::Initial));
    assert!(state.is_initial());
}

#[test]
fn header_between_ipv4_addresses() {
    let addresses = FrontAddresses { peer: Some(v4("10.0.0.1", 5000)), local: Some(v4("10.0.0.2", 80)) };
    let http = session_at(None, None, Protocol::HTTP, &addresses);
    assert_eq!(
        http.added_request_header(&None, &None, &addresses),
        "Forwarded: proto=http;for=10.0.0.1:5000;by=10.0.0.2\r\nX-Forwarded-Proto: http\r\n\
         X-Forwarded-For: 10.0.0.1\r\nX-Forwarded-Port: 80\r\n\
         Sozu-Id: 6f9619ff-8b86-4011-b42d-00c04fc964ff\r\n"
    );
    assert_eq!(
        http.state.as_ref().unwrap().added_req_header,
        http.added_request_header(&None, &None, &addresses)
    );
}

#[test]
fn header_from_ipv4_to_ipv6() {
    let addresses = FrontAddresses { peer: Some(v4("10.0.0.1", 5000)), local: Some(v6("::2", 443)) };
    let http = session_at(None, None, Protocol::HTTPS, &addresses);
    assert_eq!(
        http.added_request_header(&None, &None, &addresses),
        format!(
            "Forwarded: proto=https;for=10.0.0.1:5000;by=\"::2\"\r\nX-Forwarded-Proto: https\r\n\
             X-Forwarded-For: 10.0.0.1\r\nX-Forwarded-Port: 443\r\nSozu-Id: {}\r\n",
            ID
        )
    );
}

#[test]
fn header_from_ipv6_to_ipv4() {
    let addresses = FrontAddresses { peer: Some(v6("::1", 6)), local: Some(v4("10.0.0.2", 8080)) };
    let http = session_at(None, None, Protocol::HTTP, &addresses);
    assert_eq!(
        http.added_request_header(&None, &None, &addresses),
        format!(
            "Forwarded: proto=http;for=\"::1:6\";by=10.0.0.2\r\nX-Forwarded-Proto: http\r\n\
             X-Forwarded-For: ::1\r\nX-Forwarded-Port: 8080\r\nSozu-Id: {}\r\n",
            ID
        )
    );
}

#[test]
fn header_between_ipv6_addresses() {
    let addresses = FrontAddresses { peer: Some(v6("::1", 65535)), local: Some(v6("::2", 0)) };
    let http = session_at(None, None, Protocol::HTTPS, &addresses);
    assert_eq!(
        http.added_request_header(&None, &None, &addresses),
        format!(
            "Forwarded: proto=https;for=\"::1:65535\";by=\"::2\"\r\nX-Forwarded-Proto: https\r\n\
             X-Forwarded-For: ::1\r\nX-Forwarded-Port: 0\r\nSozu-Id: {}\r\n",
            ID
        )
    );
}

#[test]
fn given_addresses_take_precedence() {
    let addresses = FrontAddresses { peer: Some(v6("::1", 1)), local: Some(v6("::2", 80)) };
    let public = Some(IpAddr::V4("1.2.3.4".to_string()));
    let client = Some(v4("9.9.9.9", 99));
    let http = session_at(public.clone(), client.clone(), Protocol::HTTP, &addresses);
    assert_eq!(
        http.added_request_header(&public, &client, &addresses),
        format!(
            "Forwarded: proto=http;for=9.9.9.9:99;by=1.2.3.4\r\nX-Forwarded-Proto: http\r\n\
             X-Forwarded-For: 9.9.9.9\r\nX-Forwarded-Port: 80\r\nSozu-Id: {}\r\n",
            ID
        )
    );
    assert_eq!(http.get_session_address(&addresses.peer), client);
    assert_eq!(session().get_session_address(&addresses.peer), addresses.peer);
    assert_eq!(session().get_session_address(&None), None);
}

#[test]
fn header_of_an_unknown_way_is_the_id() {
    let peer_only = FrontAddresses { peer: Some(v4("10.0.0.1", 5000)), local: None };
    let http = session_at(None, None, Protocol::Other, &peer_only);
    let public = Some(IpAddr::V4("1.2.3.4".to_string()));
    assert_eq!(
        http.added_request_header(&public, &None, &peer_only),
        format!("Sozu-Id: {}\r\n", ID)
    );
    let local_only = FrontAddresses { peer: None, local: Some(v4("10.0.0.2", 80)) };
    assert_eq!(
        http.added_request_header(&None, &None, &local_only),
        format!("Sozu-Id: {}\r\n", ID)
    );
    assert_eq!(http.added_response_header(), format!("Sozu-Id: {}\r\n", ID));
}

#[test]
fn reset_starts_over_with_another_id() {
    let mut http = session();
    let mut effects = Effects::new();
    http.set_app_id("app".to_string());
    http.set_back_token(Token(9));
    http.front_buf = Some("front");
    http.back_buf = Some("back");
    http.state().request = Some(RequestState::Request);
    http.state().has_host = true;
    http.reset(&nowhere(), true, &mut effects);
    assert!(looks_like_an_id(&http.request_id));
    assert_ne!(http.request_id, ID);
    assert_eq!(http.log_ctx, format!("{} app\t", http.request_id));
    assert_eq!(http.front_buf, None);
    assert_eq!(http.back_buf, None);
    assert_eq!(http.back_token(), Some(Token(9)));
    assert!(!http.front_readiness.event.is_readable());
    let state = http.state.as_ref().unwrap();
    assert!(state.is_initial());
    assert!(!state.has_host);
    // the headers still name the request that is over
    assert_eq!(state.added_req_header, format!("Sozu-Id: {}\r\n", ID));
    assert_eq!(state.added_res_header, format!("Sozu-Id: {}\r\n", ID));
    assert_eq!(effects.list.len(), 2);
    assert!(matches!(
        effects.list[0],
        Effect::Measure(Measure::GaugeAdd(Metric::ActiveRequests, -1))
    ));
    assert!(matches!(effects.list[1], Effect::ResetState));
}

#[test]
fn reset_keeps_pipelined_data() {
    let mut http = session();
    let mut effects = Effects::new();
    http.front_buf = Some("next request");
    http.reset_to("next".to_string(), &nowhere(), false, &mut effects);
    assert_eq!(http.request_id, "next");
    assert_eq!(http.front_buf, Some("next request"));
    assert!(http.front_readiness.event.is_readable());

    let mut empty = session();
    empty.reset_to("next".to_string(), &nowhere(), false, &mut effects);
    assert_eq!(empty.front_buf, None);
    assert!(!empty.front_readiness.event.is_readable());
}

#[test]
fn reset_without_a_state_leaves_it_missing() {
    let mut http = session();
    let mut effects = Effects::new();
    http.state = None;
    http.reset_to("next".to_string(), &nowhere(), true, &mut effects);
    assert_eq!(http.state, None);
    assert_eq!(effects.list.len(), 1);
}

#[test]
fn log_contexts() {
    let mut http = session();
    assert_eq!(http.log_context(), format!("{}\tunknown\t", ID));
    assert_eq!(http.log_ctx, format!("{} unknown\t", ID));
    http.set_app_id("app".to_string());
    assert_eq!(http.log_context(), format!("{}\tapp\t", ID));
    assert_eq!(http.log_ctx, format!("{} app\t", ID));
    http.reset_log_context();
    assert_eq!(http.log_ctx, format!("{} app\t", ID));
    http.app_id = None;
    http.reset_log_context();
    assert_eq!(http.log_ctx, format!("{} unknown\t", ID));
}

#[test]
fn answers_count_once() {
    let answers = [
        (DefaultAnswerStatus::Answer301, Metric::Redirection301, "http.301.redirection"),
        (DefaultAnswerStatus::Answer400, Metric::Errors400, "http.400.errors"),
        (DefaultAnswerStatus::Answer404, Metric::Errors404, "http.404.errors"),
        (DefaultAnswerStatus::Answer413, Metric::Errors413, "http.413.errors"),
        (DefaultAnswerStatus::Answer503, Metric::Errors503, "http.503.errors"),
    ];
    for (answer, metric, name) in answers {
        let mut http = session();
        let mut effects = Effects::new();
        http.front_buf = Some("front");
        http.back_buf = Some("back");
        http.front_readiness.wait_for(Kind::Readable);
        http.back_readiness.wait_for(Kind::Readable);
        http.set_answer(answer, Rc::new(vec![1, 2, 3]), &mut effects);
        assert_eq!(http.status, SessionStatus::DefaultAnswer(answer, Rc::new(vec![1, 2, 3]), 0));
        assert_eq!(http.front_buf, None);
        assert_eq!(http.back_buf, None);
        assert!(is_waiting(http.front_readiness.interest, false, true, true));
        assert!(is_waiting(http.back_readiness.interest, false, false, true));
        assert_eq!(effects.list.len(), 1);
        match &effects.list[0] {
            Effect::Measure(Measure::Incr(counted)) => {
                assert_eq!(*counted, metric);
                assert_eq!(counted.name(), name);
            }
            other => panic!("unexpected effect: {:?}", other),
        }
        http.set_answer(DefaultAnswerStatus::Answer503, Rc::new(vec![4]), &mut effects);
        assert_eq!(
            http.status,
            SessionStatus::DefaultAnswer(DefaultAnswerStatus::Answer503, Rc::new(vec![4]), 0)
        );
        assert_eq!(effects.list.len(), 2);
        match &effects.list[1] {
            Effect::Diagnose(Level::Error, Diagnostic::Text(text)) => assert_eq!(
                *text,
                format!(
                    "already set the default answer to {:?}, trying to set to Answer503",
                    answer
                )
            ),
            other => panic!("unexpected effect: {:?}", other),
        }
    }
}

#[test]
fn removing_a_backend_undoes_setting_it() {
    let mut http = session();
    http.set_app_id("app".to_string());
    http.set_back_socket("back");
    http.set_back_token(Token(5));
    assert_eq!(http.back_socket(), Some(&"back"));
    assert_eq!(http.back_token(), Some(Token(5)));
    assert_eq!(http.tokens(), Some((Token(1), Token(5))));
    assert_eq!(http.get_backend_address(Some(v4("10.1.1.1", 8080))), Some(v4("10.1.1.1", 8080)));
    let mut effects = Effects::new();
    let (app_id, address) = http.remove_backend(Some(v4("10.1.1.1", 8080)), &mut effects);
    assert_eq!(app_id, Some("app".to_string()));
    assert_eq!(address, Some(v4("10.1.1.1", 8080)));
    assert_eq!(http.back_socket(), None);
    assert_eq!(http.tokens(), None);
    let (_, address) = http.remove_backend(Some(v4("10.1.1.1", 8080)), &mut effects);
    let tokens: Vec<(Token, Option<Token>)> = effects
        .list
        .iter()
        .map(|effect| match effect {
            Effect::Diagnose(Level::Debug, Diagnostic::BackendClosed { log_ctx, front, back }) => {
                assert_eq!(*log_ctx, format!("{} app\t", http.request_id));
                (*front, *back)
            }
            other => panic!("unexpected effect: {:?}", other),
        })
        .collect();
    assert_eq!(tokens, vec![(Token(1), Some(Token(5))), (Token(1), None)]);
    assert_eq!(address, None);
    assert_eq!(http.get_backend_address(Some(v4("10.1.1.1", 8080))), None);
    http.set_back_token(Token(6));
    http.clear_back_token();
    assert_eq!(http.back_token(), None);
}

#[test]
fn what_the_parser_found() {
    let mut http = session();
    assert_eq!(http.get_host(), None);
    assert_eq!(http.get_request_line(), None);
    assert_eq!(http.get_response_status(), None);
    let mut state = HttpState::new();
    state.host = Some("lolcatho.st".to_string());
    state.request_line =
        Some(RRequestLine { method: "GET".to_string(), uri: "/index.html".to_string() });
    state.status_line = Some(RStatusLine { status: 200, reason: "OK".to_string() });
    http.set_state(state);
    assert_eq!(http.get_host(), Some("lolcatho.st".to_string()));
    assert_eq!(http.get_request_line().unwrap().uri, "/index.html");
    assert_eq!(http.get_response_status().unwrap().status, 200);
    http.state = None;
    assert_eq!(http.get_host(), None);
    assert_eq!(http.get_request_line(), None);
    assert_eq!(http.get_response_status(), None);
}

#[test]
fn readiness_can_be_reached_through_the_session() {
    let mut http = session();
    http.front_readiness().event.insert(Ready::readable());
    http.back_readiness().interest.insert(UnixReady::hup());
    assert!(http.front_readiness.event.is_readable());
    assert!(http.back_readiness.interest.is_hup());
    assert_eq!(http.front_hup(), SessionResult::CloseSession);
    http.close();
    assert!(http.front_readiness.event.is_readable());
}

#[test]
fn sticky_session_keeps_its_id() {
    let sticky = StickySession::new("backend-0".to_string());
    assert_eq!(sticky.sticky_id, "backend-0");
    assert_eq!(sticky.clone(), sticky);
}

#[test]
fn readiness_in_text() {
    let mut http = session();
    http.front_readiness.see(Kind::Readable);
    http.front_readiness.see(Kind::Hup);
    http.front_readiness.wait_for(Kind::Writable);
    http.front_readiness.wait_for(Kind::Error);
    let text = http.front_readiness.text();
    assert_eq!(text, format!("{:?}", http.front_readiness));
    assert!(text.starts_with("Readiness { event: Readable | Hup"));
    assert!(text.contains(", interest: Writable | Error"));
}

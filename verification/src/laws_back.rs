//! What holds of every step on the backend's side.

use vstd::prelude::*;

use crate::back_read::{BackParseStepView, BackReadStep, ResponseStage};
use crate::back_write::BackWriteStep;
use crate::buffer::BufferState;
use crate::frame::{
    fails_with, is_chunk, is_switch, kind_if, more_back_in, more_back_out, no_kind,
    only_cleared, same_but_readiness, says, turned,
};
use crate::front_write::Progress;
use crate::readiness::Kind;
use crate::report::{DiagnosticView, EffectView, Level, SessionMetrics};
use crate::session::{HttpView, ProtocolResult, SessionResult, SocketResult};
use crate::state::{Chunk, HttpStateView, RequestState, ResponseStateView};

verus! {

// Writing.

/// A backend that can be written to gets what the front buffer has to send.
/// With nothing to send the session waits for the client, and one that
/// answers waits to write to the client. Only a missing backend closes it.
pub proof fn law_writable_backend_is_written_or_waits<Front, Back, Buf>(
    session: HttpView<Front, Back, Buf>,
    metrics: SessionMetrics,
    front: BufferState,
)
    ensures
        ({
            let step = session.on_back_writable(metrics, front);
            let answering = session.status is DefaultAnswer;
            let sends = !answering && front.output_data_size > 0 && front.next_output_size > 0;
            let lost = sends && session.backend is None;
            let waits = !answering && !sends;
            &&& step.metrics == metrics
            &&& step.result is Write <==> sends && session.backend is Some
            &&& step.result is Write ==> step.result->Write_0.sz == 0
                && step.result->Write_0.output_size == front.output_data_size
            &&& step.result == BackWriteStep::Done(SessionResult::CloseSession) <==> lost
            &&& answering || waits ==> step.result == BackWriteStep::Done(SessionResult::Continue)
            &&& lost ==> only_cleared(session, step.session) && fails_with(
                session,
                metrics,
                step.effects,
                0,
                "back socket not found, closing connection"@,
            )
            &&& !lost ==> {
                &&& same_but_readiness(session, step.session)
                &&& turned(
                    session.front_readiness,
                    step.session.front_readiness,
                    kind_if(waits, Kind::Readable).union(kind_if(answering, Kind::Writable)),
                    no_kind(),
                    no_kind(),
                )
                &&& turned(
                    session.back_readiness,
                    step.session.back_readiness,
                    no_kind(),
                    kind_if(waits || answering, Kind::Writable),
                    no_kind(),
                )
                &&& step.effects.len() == if answering { 1int } else { 0 }
                &&& answering ==> says(
                    step.effects[0],
                    Level::Error,
                    session.log_ctx + "\tsending default answer, should not write to back"@,
                )
            }
        }),
{
}

/// While a write to the backend goes well and there is more to send, nothing
/// changes and the next write follows. If the rest is still to come, the turn
/// ends and the session waits for the client instead of the backend.
pub proof fn law_request_is_written_on<Front, Back, Buf>(
    session: HttpView<Front, Back, Buf>,
    metrics: SessionMetrics,
    progress: Progress,
    front: BufferState,
)
    requires
        front.output_data_size > 0,
        metrics.backend_bout + progress.sz <= usize::MAX,
    ensures
        ({
            let step = session.on_back_written(metrics, progress, SocketResult::Continue, front);
            &&& step.effects.len() == 0
            &&& front.next_output_size > 0 ==> {
                &&& step.result == BackWriteStep::Write(progress)
                &&& step.session == session
                &&& step.metrics == metrics
            }
            &&& front.next_output_size == 0 ==> {
                &&& step.result == BackWriteStep::Done(SessionResult::Continue)
                &&& more_back_out(metrics, step.metrics, progress.sz)
                &&& same_but_readiness(session, step.session)
                &&& turned(
                    session.front_readiness,
                    step.session.front_readiness,
                    set![Kind::Readable],
                    no_kind(),
                    no_kind(),
                )
                &&& turned(
                    session.back_readiness,
                    step.session.back_readiness,
                    no_kind(),
                    set![Kind::Writable],
                    no_kind(),
                )
            }
        }),
{
}

/// A write to the backend that leaves part of the request unsent never closes
/// the session: whether it blocked or not, the session continues, waits to
/// read more of the request from the client, and waits to write the rest to
/// the backend. Nothing else changes.
pub proof fn law_unsent_request_is_kept<Front, Back, Buf>(
    session: HttpView<Front, Back, Buf>,
    metrics: SessionMetrics,
    progress: Progress,
    res: SocketResult,
    front: BufferState,
)
    requires
        res == SocketResult::WouldBlock || res == SocketResult::Continue && front.output_data_size
            == 0,
        !front.can_restart_parsing,
    ensures
        ({
            let step = session.on_back_written(metrics, progress, res, front);
            &&& step.result == BackWriteStep::Done(SessionResult::Continue)
            &&& same_but_readiness(session, step.session)
            &&& turned(
                session.front_readiness,
                step.session.front_readiness,
                set![Kind::Readable],
                no_kind(),
                no_kind(),
            )
            &&& turned(
                session.back_readiness,
                step.session.back_readiness,
                set![Kind::Writable],
                no_kind(),
                kind_if(res == SocketResult::WouldBlock, Kind::Writable),
            )
            &&& step.effects.len() == if session.backend_token is Some { 1int } else { 0 }
        }),
{
}

/// Every turn of writing to the backend that is over counts its bytes, and is
/// noted with them if the backend has a token. It is the first thing that is
/// reported of it.
pub proof fn law_request_turn_is_reported<Front, Back, Buf>(
    session: HttpView<Front, Back, Buf>,
    metrics: SessionMetrics,
    progress: Progress,
    res: SocketResult,
    front: BufferState,
)
    requires
        res != SocketResult::Continue || front.output_data_size == 0,
        metrics.backend_bout + progress.sz <= usize::MAX,
    ensures
        ({
            let step = session.on_back_written(metrics, progress, res, front);
            &&& more_back_out(metrics, step.metrics, progress.sz)
            &&& session.backend_token is Some ==> {
                &&& step.effects.len() >= 1
                &&& step.effects[0] == EffectView::Diagnose(
                    Level::Debug,
                    DiagnosticView::BackWrote {
                        log_ctx: session.log_ctx,
                        front: session.frontend_token,
                        back: session.backend_token->0,
                        sz: progress.sz,
                        output_size: progress.output_size,
                    },
                )
            }
        }),
{
}

/// Writing to the backend closes the session for one of two reasons and for
/// no other: the socket failed or was closed, or all is sent and there is no
/// request. Either is logged as a failure, and the session comes to rest.
pub proof fn law_back_writing_closes_only_with_cause<Front, Back, Buf>(
    session: HttpView<Front, Back, Buf>,
    metrics: SessionMetrics,
    progress: Progress,
    res: SocketResult,
    front: BufferState,
)
    requires
        session.state is Some,
    ensures
        ({
            let step = session.on_back_written(metrics, progress, res, front);
            let request = session.state->0.request;
            let looks = (res == SocketResult::WouldBlock || res == SocketResult::Continue
                && front.output_data_size == 0) && front.can_restart_parsing;
            let lost = res == SocketResult::Error || res == SocketResult::Closed;
            let nothing = looks && (request is None || request == Some(RequestState::Initial)
                || request == Some(RequestState::Other));
            let start = if session.backend_token is Some { 1int } else { 0 };
            &&& step.result == BackWriteStep::Done(SessionResult::CloseSession) <==> lost || nothing
            &&& step.result is Done && !lost && !nothing ==> step.result == BackWriteStep::Done(
                SessionResult::Continue,
            )
            &&& lost || nothing ==> {
                &&& only_cleared(session, step.session)
                &&& fails_with(
                    session,
                    step.metrics,
                    step.effects,
                    start,
                    if lost {
                        "back socket write error, closing connection"@
                    } else {
                        "invalid state, closing connection"@
                    },
                )
            }
        }),
{
}

/// When all that was parsed of a request is sent, the session turns to the
/// side that has to act next. That is the backend if the request is complete
/// or its body is held back, and then nothing is read from the client or
/// written to the backend; otherwise it is the client, and the backend's side
/// stays as it was. The front buffer is let go only behind a complete request,
/// when it is empty and no body is held back.
pub proof fn law_sent_request_turns_to_who_is_next<Front, Back, Buf>(
    session: HttpView<Front, Back, Buf>,
    metrics: SessionMetrics,
    progress: Progress,
    res: SocketResult,
    front: BufferState,
)
    requires
        session.state is Some,
        session.state->0.request is Some,
        session.state->0.request->0 != RequestState::Initial,
        session.state->0.request->0 != RequestState::Other,
        res == SocketResult::WouldBlock || res == SocketResult::Continue && front.output_data_size
            == 0,
        front.can_restart_parsing,
    ensures
        ({
            let step = session.on_back_written(metrics, progress, res, front);
            let request = session.state->0.request->0;
            let held_back = session.state->0.must_continue is Some;
            let complete = request == RequestState::Request || request
                == RequestState::RequestWithBody || request == RequestState::RequestWithBodyChunks(
                Chunk::Ended,
            );
            let backend_is_next = complete || held_back && request
                == RequestState::RequestWithBodyChunks(Chunk::Initial);
            let let_go = complete && front.empty && !held_back;
            &&& step.result == BackWriteStep::Done(SessionResult::Continue)
            &&& same_but_readiness(
                HttpView {
                    front_buf: if let_go { None } else { session.front_buf },
                    ..session
                },
                step.session,
            )
            &&& turned(
                session.front_readiness,
                step.session.front_readiness,
                kind_if(!backend_is_next, Kind::Readable),
                kind_if(backend_is_next, Kind::Readable),
                no_kind(),
            )
            &&& turned(
                session.back_readiness,
                step.session.back_readiness,
                kind_if(backend_is_next, Kind::Readable),
                kind_if(backend_is_next, Kind::Writable),
                kind_if(res == SocketResult::WouldBlock, Kind::Writable),
            )
            &&& step.effects.len() == if session.backend_token is Some { 1int } else { 0 }
        }),
{
}

// Reading.

/// A backend that can be read from is read if there is a buffer with room,
/// and a buffer is asked for if there is none. Without room, and while the
/// session answers, it is not waited for any more. Only a missing backend
/// closes the session.
pub proof fn law_readable_backend_is_read_or_waits<Front, Back, Buf>(
    session: HttpView<Front, Back, Buf>,
    metrics: SessionMetrics,
    space: usize,
)
    ensures
        ({
            let step = session.on_back_readable(metrics, space);
            let answering = session.status is DefaultAnswer;
            let has_room = !answering && session.back_buf is Some && space > 0;
            let full = !answering && session.back_buf is Some && space == 0;
            let lost = has_room && session.backend is None;
            &&& step.metrics == metrics
            &&& step.result == BackReadStep::Checkout <==> !answering && session.back_buf is None
            &&& step.result == BackReadStep::Read <==> has_room && session.backend is Some
            &&& step.result == BackReadStep::Done(
                ProtocolResult::Continue,
                SessionResult::CloseSession,
            ) <==> lost
            &&& answering || full ==> step.result == BackReadStep::Done(
                ProtocolResult::Continue,
                SessionResult::Continue,
            )
            &&& lost ==> only_cleared(session, step.session) && fails_with(
                session,
                metrics,
                step.effects,
                0,
                "back socket not found, closing connection"@,
            )
            &&& !lost ==> {
                &&& same_but_readiness(session, step.session)
                &&& step.session.front_readiness == session.front_readiness
                &&& turned(
                    session.back_readiness,
                    step.session.back_readiness,
                    no_kind(),
                    kind_if(answering || full, Kind::Readable),
                    no_kind(),
                )
                &&& step.effects.len() == if answering { 1int } else { 0 }
                &&& answering ==> says(
                    step.effects[0],
                    Level::Error,
                    session.log_ctx
                        + "\tsending default answer, should not read from back socket"@,
                )
            }
        }),
{
}

/// A buffer from the pool is kept, and the session goes on as if it had had
/// it from the start. Without one, the session reports it and closes, and is
/// otherwise as it was.
pub proof fn law_back_buffer_from_pool_is_kept<Front, Back, Buf>(
    session: HttpView<Front, Back, Buf>,
    metrics: SessionMetrics,
    buf: Buf,
    space: usize,
)
    requires
        session.status is Normal,
    ensures
        ({
            let given = session.on_back_checkout(metrics, Some(buf), space);
            let had = HttpView { back_buf: Some(buf), ..session }.on_back_readable(metrics, space);
            let missing = session.on_back_checkout(metrics, None, space);
            &&& given == had
            &&& given.session.back_buf == Some(buf)
            &&& missing.session == session
            &&& missing.metrics == metrics
            &&& missing.result == BackReadStep::Done(
                ProtocolResult::Continue,
                SessionResult::CloseSession,
            )
            &&& missing.effects.len() == 1
            &&& says(
                missing.effects[0],
                Level::Error,
                "cannot get back buffer from pool, closing"@,
            )
        }),
{
}

/// Every read from the backend counts its bytes and is noted if the backend
/// has a token. It uses the event up unless it went on and gave something.
/// A failed socket closes the session; anything else the backend sent, even
/// before it closed, is dealt with like data that is already there.
pub proof fn law_backend_data_is_looked_at<Front, Back, Buf>(
    session: HttpView<Front, Back, Buf>,
    metrics: SessionMetrics,
    size: usize,
    res: SocketResult,
    back: BufferState,
)
    requires
        metrics.backend_bin + size <= usize::MAX,
        res != SocketResult::Error ==> session.state is Some,
    ensures
        ({
            let step = session.on_back_read(metrics, size, res, back);
            let data = session.on_response_data(step.metrics, size, back);
            let start = if session.backend_token is Some { 1int } else { 0 };
            let used = res != SocketResult::Continue || size == 0;
            let close = BackParseStepView::Done(
                ProtocolResult::Continue,
                SessionResult::CloseSession,
            );
            &&& more_back_in(metrics, step.metrics, size)
            &&& session.backend_token is Some ==> {
                &&& step.effects.len() >= 1
                &&& step.effects[0] == EffectView::Diagnose(
                    Level::Debug,
                    DiagnosticView::BackRead {
                        log_ctx: session.log_ctx,
                        front: session.frontend_token,
                        back: session.backend_token->0,
                        sz: size,
                    },
                )
            }
            &&& res == SocketResult::Error ==> {
                &&& step.result == close
                &&& only_cleared(session, step.session)
                &&& fails_with(
                    session,
                    step.metrics,
                    step.effects,
                    start,
                    "back socket read error, closing connection"@,
                )
            }
            &&& res != SocketResult::Error ==> {
                &&& step.result == data.result
                &&& step.effects.len() == start + data.effects.len()
                &&& step.effects.skip(start) =~= data.effects
                &&& same_but_readiness(data.session, step.session)
                &&& step.session.front_readiness == data.session.front_readiness
                &&& turned(
                    data.session.back_readiness,
                    step.session.back_readiness,
                    no_kind(),
                    no_kind(),
                    kind_if(used, Kind::Readable),
                )
            }
        }),
{
    let step = session.on_back_read(metrics, size, res, back);
    if res != SocketResult::Error {
        let data = session.on_response_data(step.metrics, size, back);
        let start: int = if session.backend_token is Some { 1 } else { 0 };
        assert(step.effects.skip(start) =~= data.effects);
    }
}

/// What is done with response data depends on how far the response is. It is
/// parsed unless it belongs to a body that is passed on as it is, or to
/// another protocol. A body makes the session wait to write to the client, and
/// it is read on while it needs input. Data that should not be there closes
/// the session, and nothing else does.
pub proof fn law_response_data_is_parsed_or_sent<Front, Back, Buf>(
    session: HttpView<Front, Back, Buf>,
    metrics: SessionMetrics,
    size: usize,
    back: BufferState,
)
    requires
        session.state is Some,
        session.state->0.response != Some(ResponseStateView::Error),
    ensures
        ({
            let step = session.on_response_data(metrics, size, back);
            let response = session.state->0.response;
            let in_chunks = is_chunk(response, Chunk::Initial) || is_chunk(
                response,
                Chunk::InProgress,
            );
            let has_body = response == Some(ResponseStateView::ResponseWithBody);
            let ended = is_chunk(response, Chunk::Ended);
            let late = ended && size > 0;
            let wrong = response == Some(ResponseStateView::Response) || late || is_chunk(
                response,
                Chunk::Error,
            );
            let passes = has_body || in_chunks && back.needs_input;
            let parses = in_chunks && !back.needs_input || !in_chunks && !has_body && !ended && !wrong
                && !is_switch(response);
            let websocket = response == Some(ResponseStateView::ResponseUpgrade("websocket"@));
            &&& step.metrics == metrics
            &&& step.result is Parse <==> parses
            &&& parses ==> step.result == BackParseStepView::Parse(
                if in_chunks {
                    ResponseStage::Chunks
                } else {
                    ResponseStage::Rest
                },
                session.sticky_session,
            )
            &&& !parses ==> step.result == BackParseStepView::Done(
                if websocket {
                    ProtocolResult::Upgrade
                } else {
                    ProtocolResult::Continue
                },
                if wrong {
                    SessionResult::CloseSession
                } else {
                    SessionResult::Continue
                },
            )
            &&& wrong ==> {
                &&& only_cleared(session, step.session)
                &&& fails_with(
                    session,
                    metrics,
                    step.effects,
                    if late { 1int } else { 0 },
                    if late {
                        "back read should have stopped on chunk ended"@
                    } else if response == Some(ResponseStateView::Response) {
                        "should not go back in back_readable if the whole response was parsed"@
                    } else {
                        "back read should have stopped on chunk error"@
                    },
                )
                &&& late ==> step.effects[0] == EffectView::Diagnose(
                    Level::Error,
                    DiagnosticView::DataAfterEnd { log_ctx: session.log_ctx },
                )
            }
            &&& !wrong ==> {
                &&& same_but_readiness(
                    HttpView {
                        sticky_session: if parses { None } else { session.sticky_session },
                        ..session
                    },
                    step.session,
                )
                &&& turned(
                    session.front_readiness,
                    step.session.front_readiness,
                    kind_if(passes, Kind::Writable),
                    no_kind(),
                    no_kind(),
                )
                &&& turned(
                    session.back_readiness,
                    step.session.back_readiness,
                    no_kind(),
                    kind_if(ended || has_body && !back.needs_input, Kind::Readable),
                    no_kind(),
                )
                &&& step.effects.len() == if is_switch(response) { 1int } else { 0 }
                &&& is_switch(response) ==> step.effects[0] == EffectView::Diagnose(
                    Level::Debug,
                    DiagnosticView::Upgrade {
                        protocol: response->0->ResponseUpgrade_0,
                        is_new: false,
                    },
                )
            }
        }),
{
}

/// A response that is parsed without an error never closes the session.
/// Unless it switches protocols, the session then waits to write it to the
/// client, and it stops to read from the backend only behind its end. The
/// session is handed over only to a websocket.
pub proof fn law_parsed_response_is_passed_on<Front, Back, Buf>(
    session: HttpView<Front, Back, Buf>,
    metrics: SessionMetrics,
    stage: ResponseStage,
    state: HttpStateView,
)
    ensures
        ({
            let step = session.on_response_parsed(metrics, stage, state);
            let taken = HttpView { state: Some(state), ..session };
            let switches = stage == ResponseStage::Rest && is_switch(state.response);
            let websocket = switches && state.response == Some(
                ResponseStateView::ResponseUpgrade("websocket"@),
            );
            let ends = if stage == ResponseStage::Chunks {
                is_chunk(state.response, Chunk::Ended)
            } else {
                state.response == Some(ResponseStateView::Response)
            };
            &&& step.metrics == metrics
            &&& step.session.state == Some(state)
            &&& step.result.1 == SessionResult::CloseSession <==> state.back_error
            &&& step.result.1 == SessionResult::Continue <==> !state.back_error
            &&& step.result.0 == ProtocolResult::Upgrade <==> !state.back_error && websocket
            &&& state.back_error ==> {
                &&& only_cleared(taken, step.session)
                &&& fails_with(
                    taken,
                    metrics,
                    step.effects,
                    0,
                    if stage == ResponseStage::Chunks {
                        "back socket chunk parse error, closing connection"@
                    } else {
                        "back socket parse error, closing connection"@
                    },
                )
            }
            &&& !state.back_error ==> {
                &&& same_but_readiness(taken, step.session)
                &&& !is_switch(state.response)
                    ==> step.session.front_readiness.interest.contains(Kind::Writable)
                &&& turned(
                    session.front_readiness,
                    step.session.front_readiness,
                    kind_if(!switches, Kind::Writable),
                    no_kind(),
                    no_kind(),
                )
                &&& turned(
                    session.back_readiness,
                    step.session.back_readiness,
                    no_kind(),
                    kind_if(ends, Kind::Readable),
                    no_kind(),
                )
                &&& step.effects.len() == if switches { 1int } else { 0 }
                &&& switches ==> step.effects[0] == EffectView::Diagnose(
                    Level::Debug,
                    DiagnosticView::Upgrade {
                        protocol: state.response->0->ResponseUpgrade_0,
                        is_new: true,
                    },
                )
            }
        }),
{
}

/// A backend that hangs up leaves the session open exactly as long as there
/// is something of its response to send or to read: then the session waits to
/// send what there is, and to read what there is.
pub proof fn law_hung_up_backend_is_emptied<Front, Back, Buf>(
    session: HttpView<Front, Back, Buf>,
    back: BufferState,
)
    ensures
        ({
            let (after, result) = session.on_back_hup(back);
            let sends = session.back_buf is Some && back.output_data_size > 0
                && back.next_output_size > 0;
            let reads = session.back_buf is Some && session.back_readiness.event.contains(
                Kind::Readable,
            );
            &&& result == SessionResult::Continue <==> sends || reads
            &&& result == SessionResult::CloseSession <==> !(sends || reads)
            &&& same_but_readiness(session, after)
            &&& turned(
                session.front_readiness,
                after.front_readiness,
                kind_if(sends, Kind::Writable),
                no_kind(),
                no_kind(),
            )
            &&& turned(
                session.back_readiness,
                after.back_readiness,
                kind_if(reads, Kind::Readable),
                no_kind(),
                no_kind(),
            )
        }),
{
}

} // verus!

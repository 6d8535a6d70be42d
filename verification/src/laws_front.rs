//! What holds of every step on the client's side.

use vstd::prelude::*;

use crate::address::FrontAddressesView;
use crate::buffer::BufferState;
use crate::forward::{forwarding, request_header, Protocol};
use crate::frame::{
    counts, counts_one, fails_with, is_begun_response, is_whole_response, kind_if,
    more_in, more_out, no_kind, only_cleared, same_but_readiness, says, turned, waits_just_for,
};
use crate::front_read::{ParseStage, ParseStep, ReadStep};
use crate::front_write::{looks_at_state, AnswerCursor, Progress, WriteStep};
use crate::laws_session::is_blank;
use crate::readiness::Kind;
use crate::report::{
    status_metric, DiagnosticView, EffectView, Level, LogKindView, MeasureView, Metric,
    SessionMetrics,
};
use crate::session::{
    DefaultAnswerStatus, HttpView, SessionResult, SessionStatusView, SocketResult,
};
use crate::state::{Chunk, HttpStateView, RequestState, ResponseStateView};
use crate::text::decimal;

verus! {

// Reading.

/// A client that can be read from never closes its session. It is read if
/// there is a buffer with room, and a buffer is asked for if there is none.
/// Where it cannot be read, the session waits for the side that makes room: a
/// session that answers waits to write to the client, and one whose buffer is
/// full waits to write to its backend and no longer to read.
pub proof fn law_readable_client_is_read_or_waits<Front, Back, Buf>(
    session: HttpView<Front, Back, Buf>,
    metrics: SessionMetrics,
    space: usize,
)
    ensures
        ({
            let step = session.on_readable(metrics, space);
            let answering = session.status is DefaultAnswer;
            let full = !answering && session.front_buf is Some && space == 0;
            let refused = full && session.backend_token is None;
            &&& step.metrics == metrics
            &&& step.result == ReadStep::Checkout <==> !answering && session.front_buf is None
            &&& step.result == ReadStep::Read <==> !answering && session.front_buf is Some && space
                > 0
            &&& step.result is Done ==> step.result == ReadStep::Done(SessionResult::Continue)
            &&& !refused ==> {
                &&& step.effects.len() == 0
                &&& same_but_readiness(session, step.session)
                &&& turned(
                    session.front_readiness,
                    step.session.front_readiness,
                    kind_if(answering, Kind::Writable),
                    kind_if(full, Kind::Readable),
                    no_kind(),
                )
                &&& turned(
                    session.back_readiness,
                    step.session.back_readiness,
                    kind_if(full, Kind::Writable),
                    kind_if(answering, Kind::Readable).union(kind_if(answering, Kind::Writable)),
                    no_kind(),
                )
            }
            &&& refused ==> {
                &&& step.effects.len() == 1
                &&& counts_one(step.effects[0], Metric::Errors413)
                &&& same_but_readiness(
                    HttpView {
                        status: step.session.status,
                        front_buf: None,
                        back_buf: None,
                        ..session
                    },
                    step.session,
                )
                &&& step.session.status is DefaultAnswer
                &&& step.session.status->DefaultAnswer_0 == DefaultAnswerStatus::Answer413
                &&& step.session.status->DefaultAnswer_1 == vstd::utf8::encode_utf8(
                    "HTTP/1.1 413 Payload Too Large\r\nContent-Length: 0\r\n\r\n"@,
                )
                &&& step.session.status->DefaultAnswer_2 == 0
                &&& waits_just_for(
                    step.session.front_readiness,
                    set![Kind::Writable, Kind::Hup, Kind::Error],
                )
                &&& waits_just_for(step.session.back_readiness, set![Kind::Hup, Kind::Error])
                &&& step.session.front_readiness.event == session.front_readiness.event
                &&& step.session.back_readiness.event == session.back_readiness.event
            }
        }),
{
}

/// A buffer from the pool is kept, and the session goes on as if it had had
/// it from the start. Without one, the session reports it and closes, and is
/// otherwise as it was.
pub proof fn law_front_buffer_from_pool_is_kept<Front, Back, Buf>(
    session: HttpView<Front, Back, Buf>,
    metrics: SessionMetrics,
    buf: Buf,
    space: usize,
)
    requires
        session.status is Normal,
    ensures
        ({
            let given = session.on_front_checkout(metrics, Some(buf), space);
            let had = HttpView { front_buf: Some(buf), ..session }.on_readable(metrics, space);
            let missing = session.on_front_checkout(metrics, None, space);
            &&& given == had
            &&& space > 0 ==> given.session.front_buf == Some(buf) && given.result
                == ReadStep::Read
            &&& missing.session == session
            &&& missing.metrics == metrics
            &&& missing.result == ReadStep::Done(SessionResult::CloseSession)
            &&& missing.effects.len() == 1
            &&& says(
                missing.effects[0],
                Level::Error,
                "cannot get front buffer from pool, closing"@,
            )
        }),
{
}

/// Whatever a read from the client gave is looked at, unless the socket
/// failed or was closed: a read that emptied the socket counts like any
/// other. Without a host the head is parsed; with one, the session does with
/// the data what it does with data that is already there.
pub proof fn law_client_data_is_looked_at<Front, Back, Buf>(
    session: HttpView<Front, Back, Buf>,
    metrics: SessionMetrics,
    size: usize,
    res: SocketResult,
    front: BufferState,
)
    requires
        session.state is Some,
        metrics.bin + size <= usize::MAX,
        res == SocketResult::Continue || res == SocketResult::WouldBlock,
    ensures
        ({
            let step = session.on_front_read(metrics, size, res, front);
            let state = session.state->0;
            let data = session.on_request_data(step.metrics, front);
            let used = size == 0 || res == SocketResult::WouldBlock;
            let full = size > 0 && front.available_space == 0;
            &&& !state.has_host ==> step.result == ParseStep::Parse(
                ParseStage::Head { was_initial: state.request == Some(RequestState::Initial) },
            )
            &&& step.result == data.result
            &&& step.effects.len() == data.effects.len() + (if size > 0 { 2int } else { 1 })
            &&& forall|i: int|
                0 <= i < data.effects.len() ==> step.effects[i + step.effects.len()
                    - data.effects.len()] == #[trigger] data.effects[i]
            &&& step.result != ParseStep::Done(SessionResult::CloseSession) ==> {
                &&& same_but_readiness(session, step.session)
                &&& step.session.back_readiness == data.session.back_readiness
                &&& turned(
                    data.session.front_readiness,
                    step.session.front_readiness,
                    no_kind(),
                    kind_if(full, Kind::Readable),
                    kind_if(used, Kind::Readable),
                )
            }
        }),
{
    let step = session.on_front_read(metrics, size, res, front);
    let data = session.on_request_data(step.metrics, front);
    let ahead: int = if size > 0 { 2 } else { 1 };
    assert(step.effects.skip(ahead) =~= data.effects);
    assert forall|i: int| 0 <= i < data.effects.len() implies step.effects[i + step.effects.len()
        - data.effects.len()] == #[trigger] data.effects[i] by {
        assert(step.effects.skip(ahead)[i] == data.effects[i]);
    }
}

/// Every read from the client is noted, and counts exactly its bytes, however
/// the socket fared.
pub proof fn law_client_read_is_counted<Front, Back, Buf>(
    session: HttpView<Front, Back, Buf>,
    metrics: SessionMetrics,
    size: usize,
    res: SocketResult,
    front: BufferState,
)
    requires
        metrics.bin + size <= usize::MAX,
    ensures
        ({
            let step = session.on_front_read(metrics, size, res, front);
            &&& more_in(metrics, step.metrics, size)
            &&& step.effects.len() >= 1
            &&& step.effects[0] == EffectView::Diagnose(
                Level::Debug,
                DiagnosticView::Text(
                    session.log_ctx + ("\tFRONT: read "@ + decimal(size as nat) + " bytes"@),
                ),
            )
            &&& size > 0 ==> step.effects.len() >= 2 && counts(
                step.effects[1],
                Metric::BytesIn,
                size as i64,
            )
            &&& forall|i: int|
                0 <= i < step.effects.len() && (i != 1 || size == 0) ==> !(
                #[trigger] step.effects[i] is Measure)
        }),
{
}

/// A client's socket that fails or is closed ends its session, which comes to
/// rest. It is a failure, and logged with what both sides were ready for,
/// unless the client leaves before a request has begun.
pub proof fn law_lost_client_ends_session<Front, Back, Buf>(
    session: HttpView<Front, Back, Buf>,
    metrics: SessionMetrics,
    size: usize,
    res: SocketResult,
    front: BufferState,
)
    requires
        session.state is Some,
        metrics.bin + size <= usize::MAX,
        res == SocketResult::Error || res == SocketResult::Closed,
    ensures
        ({
            let step = session.on_front_read(metrics, size, res, front);
            let start = if size > 0 { 2int } else { 1 };
            let leaves = res == SocketResult::Closed && session.state->0.request == Some(
                RequestState::Initial,
            );
            &&& step.result == ParseStep::Done(SessionResult::CloseSession)
            &&& only_cleared(session, step.session)
            &&& leaves ==> step.effects.len() == start + 1 && step.effects[start] is ServiceStop
            &&& !leaves ==> {
                &&& step.effects.len() == start + 2
                &&& step.effects[start] is ServiceStop
                &&& step.effects[start + 1] is Log
                &&& step.effects[start + 1]->Log_0.kind is Error
                &&& step.effects[start + 1]->Log_0 == session.log_entry(
                    step.effects[start + 1]->Log_0.kind,
                    step.metrics,
                )
                &&& step.effects[start + 1]->Log_0.kind->Error_0 is FrontSocketError
                &&& turned(
                    session.front_readiness,
                    step.effects[start + 1]->Log_0.kind->Error_0->front,
                    no_kind(),
                    kind_if(size > 0 && front.available_space == 0, Kind::Readable),
                    kind_if(size == 0, Kind::Readable),
                )
                &&& step.effects[start + 1]->Log_0.kind->Error_0->back == session.back_readiness
            }
        }),
{
}

/// What is done with request data depends on how far the request is. Data
/// before the host is always parsed, and so are chunks as soon as those read
/// before are sent. A session whose request has a host waits to write to the
/// backend, and stops to read from the client only when the request needs no
/// more input. Only a broken chunk closes it.
pub proof fn law_request_data_is_parsed_or_sent<Front, Back, Buf>(
    session: HttpView<Front, Back, Buf>,
    metrics: SessionMetrics,
    front: BufferState,
)
    requires
        session.state is Some,
    ensures
        ({
            let step = session.on_request_data(metrics, front);
            let request = session.state->0.request;
            let has_host = session.state->0.has_host;
            let chunk = match request {
                Some(RequestState::RequestWithBodyChunks(chunk)) => Some(chunk),
                _ => None,
            };
            let is_head = request == Some(RequestState::Request) || request == Some(
                RequestState::RequestWithBody,
            );
            let broken = has_host && chunk == Some(Chunk::Error);
            let stops = has_host && (chunk == Some(Chunk::Ended) || is_head && !front.needs_input);
            &&& step.metrics == metrics
            &&& step.result == ParseStep::Parse(ParseStage::Head { was_initial: true }) <==> !has_host
                && request == Some(RequestState::Initial)
            &&& step.result == ParseStep::Parse(ParseStage::Head { was_initial: false })
                <==> !has_host && request != Some(RequestState::Initial)
            &&& step.result == ParseStep::Parse(ParseStage::Chunks) <==> has_host
                && !front.needs_input && (chunk == Some(Chunk::Initial) || chunk == Some(
                Chunk::InProgress,
            ))
            &&& step.result == ParseStep::Parse(ParseStage::Rest) <==> has_host && chunk is None
                && !is_head
            &&& step.result == ParseStep::Done(SessionResult::CloseSession) <==> broken
            &&& step.result is Done && !broken ==> step.result == ParseStep::Done(
                SessionResult::Continue,
            )
            &&& broken ==> only_cleared(session, step.session) && fails_with(
                session,
                metrics,
                step.effects,
                0,
                "front read should have stopped on chunk error"@,
            )
            &&& !broken ==> {
                &&& same_but_readiness(session, step.session)
                &&& turned(
                    session.front_readiness,
                    step.session.front_readiness,
                    no_kind(),
                    kind_if(stops, Kind::Readable),
                    no_kind(),
                )
                &&& turned(
                    session.back_readiness,
                    step.session.back_readiness,
                    kind_if(has_host, Kind::Writable),
                    no_kind(),
                    no_kind(),
                )
                &&& if has_host && chunk == Some(Chunk::Ended) {
                    step.effects.len() == 1 && says(
                        step.effects[0],
                        Level::Error,
                        session.log_ctx + "\tfront read should have stopped on chunk ended"@,
                    )
                } else {
                    step.effects.len() == 0
                }
            }
        }),
{
}

/// The session takes over what the parser made of a request. An error closes
/// it and nothing else does. A head with a host calls for a backend, a head
/// without one for more of the request; anything behind the head is for the
/// backend, and the client is read on unless its request is complete.
pub proof fn law_parsed_request_is_taken_over<Front, Back, Buf>(
    session: HttpView<Front, Back, Buf>,
    metrics: SessionMetrics,
    stage: ParseStage,
    state: HttpStateView,
)
    ensures
        ({
            let step = session.on_request_parsed(metrics, stage, state);
            let taken = HttpView { state: Some(state), ..session };
            let begins = stage == (ParseStage::Head { was_initial: true }) && state.request != Some(
                RequestState::Initial,
            );
            let complete = match stage {
                ParseStage::Head { .. } => false,
                ParseStage::Chunks => state.request == Some(
                    RequestState::RequestWithBodyChunks(Chunk::Ended),
                ),
                ParseStage::Rest => state.request == Some(RequestState::Request),
            };
            let is_head = stage is Head;
            &&& step.metrics == metrics
            &&& step.session.state == Some(state)
            &&& step.result == SessionResult::CloseSession <==> state.front_error
            &&& step.result == SessionResult::ConnectBackend <==> !state.front_error && is_head
                && state.has_host
            &&& step.result == SessionResult::Continue <==> !state.front_error && !(is_head
                && state.has_host)
            &&& state.front_error ==> {
                &&& only_cleared(taken, step.session)
                &&& fails_with(
                    taken,
                    metrics,
                    step.effects.take(2),
                    0,
                    if stage is Chunks {
                        "front chunk parsing error, closing the connection"@
                    } else {
                        "front parsing error, closing the connection"@
                    },
                )
                &&& step.effects.len() == if is_head { 4int } else { 2 }
                &&& is_head ==> counts_one(step.effects[2], Metric::FrontParseErrors)
                    && step.effects[3] == EffectView::Measure(
                    MeasureView::GaugeAdd(Metric::ActiveRequests, 1),
                )
            }
            &&& !state.front_error ==> {
                &&& same_but_readiness(taken, step.session)
                &&& turned(
                    session.front_readiness,
                    step.session.front_readiness,
                    kind_if(is_head && !state.has_host, Kind::Readable),
                    kind_if(complete, Kind::Readable),
                    no_kind(),
                )
                &&& turned(
                    session.back_readiness,
                    step.session.back_readiness,
                    kind_if(!is_head || state.has_host, Kind::Writable),
                    no_kind(),
                    no_kind(),
                )
                &&& step.effects.len() == if begins { 2int } else { 0 }
                &&& begins ==> counts_one(step.effects[1], Metric::Requests) && step.effects[0]
                    == EffectView::Measure(MeasureView::GaugeAdd(Metric::ActiveRequests, 1))
            }
        }),
{
}

// Writing.

/// A client that can be written to gets the session's own answer if there is
/// one, from where it was left off, and else what the back buffer has to
/// send. With nothing to send the session waits for the backend, and only
/// without any back buffer does it close.
pub proof fn law_writable_client_is_written_or_waits<Front, Back, Buf>(
    session: HttpView<Front, Back, Buf>,
    metrics: SessionMetrics,
    back: BufferState,
)
    requires
        session.status is Normal,
    ensures
        ({
            let step = session.on_writable(metrics, back);
            let sends = back.output_data_size > 0 && back.next_output_size > 0;
            let waits = session.back_buf is Some && !sends;
            &&& step.metrics == metrics
            &&& step.result is Write <==> session.back_buf is Some && sends
            &&& step.result is Write ==> step.result->Write_0.sz == 0
                && step.result->Write_0.output_size == back.output_data_size
            &&& step.result == WriteStep::Done(SessionResult::CloseSession)
                <==> session.back_buf is None
            &&& waits ==> step.result == WriteStep::Done(SessionResult::Continue)
            &&& same_but_readiness(session, step.session)
            &&& turned(
                session.front_readiness,
                step.session.front_readiness,
                no_kind(),
                kind_if(waits, Kind::Writable),
                no_kind(),
            )
            &&& turned(
                session.back_readiness,
                step.session.back_readiness,
                kind_if(waits, Kind::Readable),
                no_kind(),
                no_kind(),
            )
            &&& if session.back_buf is None {
                step.effects.len() == 1 && says(
                    step.effects[0],
                    Level::Error,
                    "no back buffer to write on the front socket"@,
                )
            } else {
                step.effects.len() == 0
            }
        }),
{
}

/// A session that answers is written on from its index, byte by byte, for as
/// long as the writes go on. A write that blocks never closes it while some
/// of the answer is left: it keeps all it waits for, and the index it has come
/// to. It closes when the answer is sent, and on an error.
pub proof fn law_answer_is_written_on<Front, Back, Buf>(
    session: HttpView<Front, Back, Buf>,
    metrics: SessionMetrics,
    back: BufferState,
    cursor: AnswerCursor,
    status: DefaultAnswerStatus,
    answer: Seq<u8>,
    start: usize,
)
    requires
        session.status == SessionStatusView::DefaultAnswer(status, answer, start),
        metrics.bout + cursor.sz <= usize::MAX,
    ensures
        ({
            let first = session.on_writable(metrics, back);
            let step = session.on_answer(metrics, cursor);
            let goes_on = cursor.res == SocketResult::Continue && cursor.index < answer.len();
            let is_sent = cursor.index == answer.len();
            let fails = !goes_on && !is_sent && cursor.res == SocketResult::Error;
            &&& start < answer.len() ==> first.result == WriteStep::WriteAnswer(
                AnswerCursor { index: start, sz: 0, res: SocketResult::Continue },
            ) && first.session == session && first.metrics == metrics && first.effects.len() == 0
            &&& step.result == WriteStep::WriteAnswer(cursor) <==> goes_on
            &&& goes_on ==> step.session == session && step.metrics == metrics
                && step.effects.len() == 0
            &&& !goes_on ==> {
                &&& step.result == WriteStep::Done(
                    if is_sent || fails {
                        SessionResult::CloseSession
                    } else {
                        SessionResult::Continue
                    },
                )
                &&& more_out(metrics, step.metrics, cursor.sz)
                &&& step.effects.len() >= 1
                &&& counts(step.effects[0], Metric::BytesOut, cursor.sz as i64)
            }
            &&& is_sent ==> {
                &&& only_cleared(session, step.session)
                &&& step.effects.len() == 3
                &&& step.effects[1] is ServiceStop
                &&& step.effects[2] == EffectView::Log(
                    session.log_entry(LogKindView::DefaultAnswer, step.metrics),
                )
            }
            &&& fails ==> only_cleared(session, step.session) && fails_with(
                session,
                step.metrics,
                step.effects,
                1,
                "error writing default answer to front socket, closing"@,
            )
            &&& !goes_on && !is_sent && !fails ==> {
                &&& step.effects.len() == 1
                &&& same_but_readiness(
                    HttpView {
                        status: SessionStatusView::DefaultAnswer(status, answer, cursor.index),
                        ..session
                    },
                    step.session,
                )
                &&& turned(
                    session.front_readiness,
                    step.session.front_readiness,
                    no_kind(),
                    no_kind(),
                    kind_if(cursor.res != SocketResult::Continue, Kind::Writable),
                )
                &&& turned(
                    session.back_readiness,
                    step.session.back_readiness,
                    no_kind(),
                    no_kind(),
                    no_kind(),
                )
            }
        }),
{
}

/// A session that has no answer of its own cannot send one: it closes, and
/// nothing changes.
pub proof fn law_missing_answer_closes<Front, Back, Buf>(
    session: HttpView<Front, Back, Buf>,
    metrics: SessionMetrics,
    cursor: AnswerCursor,
)
    requires
        session.status is Normal,
    ensures
        ({
            let step = session.on_answer(metrics, cursor);
            &&& step.result == WriteStep::Done(SessionResult::CloseSession)
            &&& step.session == session
            &&& step.metrics == metrics
            &&& step.effects.len() == 0
        }),
{
}

/// While a write to the client goes well and there is more to send, nothing
/// changes and the next write follows. If the rest is still to come, the turn
/// ends and the session waits for the backend instead of the client.
pub proof fn law_response_is_written_on<Front, Back, Buf>(
    session: HttpView<Front, Back, Buf>,
    metrics: SessionMetrics,
    progress: Progress,
    back: BufferState,
    front_is_empty: bool,
    addresses: FrontAddressesView,
    next_id: Seq<char>,
)
    requires
        back.output_data_size > 0,
        metrics.bout + progress.sz <= usize::MAX,
    ensures
        ({
            let step = session.on_written(
                metrics,
                progress,
                SocketResult::Continue,
                back,
                front_is_empty,
                addresses,
                next_id,
            );
            &&& back.next_output_size > 0 ==> {
                &&& step.result == WriteStep::Write(progress)
                &&& step.session == session
                &&& step.metrics == metrics
                &&& step.effects.len() == 0
            }
            &&& back.next_output_size == 0 ==> {
                &&& step.result == WriteStep::Done(SessionResult::Continue)
                &&& more_out(metrics, step.metrics, progress.sz)
                &&& step.effects.len() == 1
                &&& counts(step.effects[0], Metric::BytesOut, progress.sz as i64)
                &&& same_but_readiness(session, step.session)
                &&& turned(
                    session.front_readiness,
                    step.session.front_readiness,
                    no_kind(),
                    set![Kind::Writable],
                    no_kind(),
                )
                &&& turned(
                    session.back_readiness,
                    step.session.back_readiness,
                    set![Kind::Readable],
                    no_kind(),
                    no_kind(),
                )
            }
        }),
{
}

/// A write to the client that leaves part of the response unsent never closes
/// the session: whether it blocked or not, the session continues, waits for
/// the client just as before, and waits to read from the backend. Nothing else
/// changes, and the bytes are counted.
pub proof fn law_unsent_response_is_kept<Front, Back, Buf>(
    session: HttpView<Front, Back, Buf>,
    metrics: SessionMetrics,
    progress: Progress,
    res: SocketResult,
    back: BufferState,
    front_is_empty: bool,
    addresses: FrontAddressesView,
    next_id: Seq<char>,
)
    requires
        metrics.bout + progress.sz <= usize::MAX,
        res == SocketResult::WouldBlock || res == SocketResult::Continue && back.output_data_size
            == 0,
        !back.can_restart_parsing,
    ensures
        ({
            let step = session.on_written(
                metrics,
                progress,
                res,
                back,
                front_is_empty,
                addresses,
                next_id,
            );
            &&& step.result == WriteStep::Done(SessionResult::Continue)
            &&& more_out(metrics, step.metrics, progress.sz)
            &&& same_but_readiness(session, step.session)
            &&& turned(
                session.front_readiness,
                step.session.front_readiness,
                no_kind(),
                no_kind(),
                kind_if(res == SocketResult::WouldBlock, Kind::Writable),
            )
            &&& turned(
                session.back_readiness,
                step.session.back_readiness,
                set![Kind::Readable],
                no_kind(),
                no_kind(),
            )
            &&& step.effects.len() == if session.backend_token is Some { 2int } else { 1 }
        }),
{
}

/// Every turn of writing to the client that is over counts its bytes, and is
/// noted with them if there is a backend.
pub proof fn law_response_turn_is_reported<Front, Back, Buf>(
    session: HttpView<Front, Back, Buf>,
    metrics: SessionMetrics,
    progress: Progress,
    res: SocketResult,
    back: BufferState,
    front_is_empty: bool,
    addresses: FrontAddressesView,
    next_id: Seq<char>,
)
    requires
        res != SocketResult::Continue || back.output_data_size == 0,
    ensures
        ({
            let step = session.on_written(
                metrics,
                progress,
                res,
                back,
                front_is_empty,
                addresses,
                next_id,
            );
            &&& step.effects.len() >= 1
            &&& counts(step.effects[0], Metric::BytesOut, progress.sz as i64)
            &&& session.backend_token is Some ==> {
                &&& step.effects.len() >= 2
                &&& step.effects[1] == EffectView::Diagnose(
                    Level::Debug,
                    DiagnosticView::FrontWrote {
                        log_ctx: session.log_ctx,
                        front: session.frontend_token,
                        back: session.backend_token->0,
                        sz: progress.sz,
                        output_size: progress.output_size,
                        buffer_position: back.buffer_position,
                        restart_position: back.start_parsing_position,
                    },
                )
            }
        }),
{
}

/// Writing to the client closes the session for one of four reasons and for
/// no other: the socket failed or was closed, the exchange is over and the
/// client does not keep its connection, the body to be passed on is gone, or
/// there is no response that could be sent.
pub proof fn law_writing_closes_only_with_cause<Front, Back, Buf>(
    session: HttpView<Front, Back, Buf>,
    metrics: SessionMetrics,
    progress: Progress,
    res: SocketResult,
    back: BufferState,
    front_is_empty: bool,
    addresses: FrontAddressesView,
    next_id: Seq<char>,
)
    requires
        session.state is Some,
    ensures
        ({
            let step = session.on_written(
                metrics,
                progress,
                res,
                back,
                front_is_empty,
                addresses,
                next_id,
            );
            let state = session.state->0;
            let looks = (res == SocketResult::WouldBlock || res == SocketResult::Continue
                && back.output_data_size == 0) && back.can_restart_parsing;
            let asks = state.must_continue is Some;
            let keeps_client = state.request is Some && state.request_keep_alive;
            let lost = res == SocketResult::Error || res == SocketResult::Closed;
            let over = looks && !asks && is_whole_response(state.response) && !keeps_client;
            let bodiless = looks && asks && session.front_buf is None;
            let nothing = looks && !asks && !is_whole_response(state.response)
                && !is_begun_response(state.response);
            &&& step.result == WriteStep::Done(SessionResult::CloseSession) <==> lost || over
                || bodiless || nothing
            &&& step.result is Done || step.result is Write
            &&& lost ==> {
                &&& only_cleared(session, step.session)
                &&& fails_with(
                    session,
                    step.metrics,
                    step.effects,
                    if session.backend_token is Some { 2int } else { 1 },
                    "error writing to front socket, closing"@,
                )
            }
            &&& over || nothing ==> only_cleared(session, step.session)
        }),
{
}

/// A response of which the beginning is sent goes on: the session waits to
/// read more of it from the backend.
pub proof fn law_begun_response_goes_on<Front, Back, Buf>(
    session: HttpView<Front, Back, Buf>,
    metrics: SessionMetrics,
    progress: Progress,
    res: SocketResult,
    back: BufferState,
    front_is_empty: bool,
    addresses: FrontAddressesView,
    next_id: Seq<char>,
)
    requires
        session.state is Some,
        session.state->0.must_continue is None,
        is_begun_response(session.state->0.response),
        metrics.bout + progress.sz <= usize::MAX,
        res == SocketResult::WouldBlock || res == SocketResult::Continue && back.output_data_size
            == 0,
        back.can_restart_parsing,
    ensures
        ({
            let step = session.on_written(
                metrics,
                progress,
                res,
                back,
                front_is_empty,
                addresses,
                next_id,
            );
            &&& step.result == WriteStep::Done(SessionResult::Continue)
            &&& more_out(metrics, step.metrics, progress.sz)
            &&& same_but_readiness(session, step.session)
            &&& turned(
                session.front_readiness,
                step.session.front_readiness,
                no_kind(),
                no_kind(),
                kind_if(res == SocketResult::WouldBlock, Kind::Writable),
            )
            &&& turned(
                session.back_readiness,
                step.session.back_readiness,
                set![Kind::Readable],
                no_kind(),
                no_kind(),
            )
            &&& step.effects.len() == if session.backend_token is Some { 2int } else { 1 }
        }),
{
}

/// Once the backend's request for the body is sent, the client is listened to
/// again, whatever becomes of the session; the body in the front buffer is
/// passed on, and only the response is forgotten.
pub proof fn law_body_is_asked_for<Front, Back, Buf>(
    session: HttpView<Front, Back, Buf>,
    metrics: SessionMetrics,
    progress: Progress,
    res: SocketResult,
    back: BufferState,
    front_is_empty: bool,
    addresses: FrontAddressesView,
    next_id: Seq<char>,
)
    requires
        session.state is Some,
        session.state->0.must_continue is Some,
        metrics.bout + progress.sz <= usize::MAX,
        res == SocketResult::WouldBlock || res == SocketResult::Continue && back.output_data_size
            == 0,
        back.can_restart_parsing,
    ensures
        ({
            let step = session.on_written(
                metrics,
                progress,
                res,
                back,
                front_is_empty,
                addresses,
                next_id,
            );
            let start = if session.backend_token is Some { 2int } else { 1 };
            let state = session.state->0;
            let after = step.session.state->0;
            &&& more_out(metrics, step.metrics, progress.sz)
            &&& same_but_readiness(HttpView { state: step.session.state, ..session }, step.session)
            &&& turned(
                session.front_readiness,
                step.session.front_readiness,
                set![Kind::Readable],
                set![Kind::Writable],
                kind_if(res == SocketResult::WouldBlock, Kind::Writable),
            )
            &&& step.session.back_readiness == session.back_readiness
            &&& session.front_buf is None ==> {
                &&& step.session.state == session.state
                &&& step.effects.len() == start + 1
                &&& says(
                    step.effects[start],
                    Level::Error,
                    "got 100 continue but front buffer was already removed"@,
                )
            }
            &&& session.front_buf is Some ==> {
                &&& step.result == WriteStep::Done(SessionResult::Continue)
                &&& step.effects.len() == start + 2
                &&& says(
                    step.effects[start],
                    Level::Trace,
                    "100-Continue => copying "@ + decimal(state.must_continue->0 as nat)
                        + " of body from front to back"@,
                )
                &&& step.effects[start + 1] == EffectView::ContinueBody(state.must_continue->0)
                &&& step.session.state is Some
                &&& after.response == Some(ResponseStateView::Initial)
                &&& after.status_line is None
                &&& after.res_header_end is None
                &&& !after.back_error
                &&& !after.response_keep_alive
                &&& state.request is Some ==> after.must_continue is None && !after.continues
                &&& after.request == state.request
                &&& after.front_error == state.front_error
                &&& after.has_host == state.has_host
                &&& after.request_keep_alive == state.request_keep_alive
                &&& after.host == state.host
                &&& after.request_line == state.request_line
                &&& after.added_req_header == state.added_req_header
                &&& after.added_res_header == state.added_res_header
            }
        }),
{
}

/// A response that was sent whole is counted by its class and logged, and the
/// byte counts start again. A client that keeps its connection is listened
/// to for its next request, with what is left of it in the front buffer; the
/// backend is kept if it keeps its connection, and otherwise its token is
/// handed over and forgotten.
pub proof fn law_sent_response_ends_exchange<Front, Back, Buf>(
    session: HttpView<Front, Back, Buf>,
    metrics: SessionMetrics,
    progress: Progress,
    res: SocketResult,
    back: BufferState,
    front_is_empty: bool,
    addresses: FrontAddressesView,
    next_id: Seq<char>,
)
    requires
        session.state is Some,
        session.state->0.must_continue is None,
        is_whole_response(session.state->0.response),
        metrics.bout + progress.sz <= usize::MAX,
        res == SocketResult::WouldBlock || res == SocketResult::Continue && back.output_data_size
            == 0,
        back.can_restart_parsing,
    ensures
        ({
            let step = session.on_written(
                metrics,
                progress,
                res,
                back,
                front_is_empty,
                addresses,
                next_id,
            );
            let state = session.state->0;
            let front = state.request is Some && state.request_keep_alive;
            let kept = state.response_keep_alive;
            let pipelined = session.front_buf is Some && !front_is_empty;
            let start = if session.backend_token is Some { 2int } else { 1 };
            let log = if state.status_line is Some { start + 1 } else { start };
            &&& step.metrics == (SessionMetrics { bin: 0, bout: 0, backend_bin: 0, backend_bout: 0 })
            &&& step.result == WriteStep::Done(
                if !front {
                    SessionResult::CloseSession
                } else if kept {
                    SessionResult::Continue
                } else {
                    SessionResult::CloseBackend(session.backend_token)
                },
            )
            &&& step.effects.len() == log + (if front { 5int } else { 3 })
            &&& state.status_line is Some ==> counts_one(
                step.effects[start],
                status_metric(state.status_line->0.status),
            )
            &&& step.effects[log] is Log
            &&& step.effects[log]->Log_0 == session.log_entry(
                LogKindView::Success,
                step.effects[log]->Log_0.metrics,
            )
            &&& more_out(metrics, step.effects[log]->Log_0.metrics, progress.sz)
            &&& step.effects[log + 1] is ResetMetrics
            &&& says(
                step.effects[log + 2],
                Level::Debug,
                session.log_ctx + (if !front {
                    " no keep alive"@
                } else if kept {
                    " keep alive front/back"@
                } else {
                    " keep alive front"@
                }),
            )
            &&& front ==> {
                &&& step.effects[log + 3] == EffectView::Measure(
                    MeasureView::GaugeAdd(Metric::ActiveRequests, (-1) as i64),
                )
                &&& step.effects[log + 4] is ResetState
                &&& same_but_readiness(
                    HttpView {
                        state: step.session.state,
                        request_id: next_id,
                        log_ctx: step.session.log_ctx,
                        front_buf: if pipelined { session.front_buf } else { None },
                        back_buf: None,
                        backend_token: if kept { session.backend_token } else { None },
                        ..session
                    },
                    step.session,
                )
                &&& step.session.log_ctx == match session.app_id {
                    Some(app_id) => next_id + " "@ + app_id + "\t"@,
                    None => next_id + " "@ + "unknown"@ + "\t"@,
                }
                &&& step.session.state is Some
                &&& is_blank(step.session.state->0)
                &&& step.session.state->0.added_req_header == request_header(
                    forwarding(session.public_address, session.session_address, addresses),
                    session.protocol,
                    session.request_id,
                )
                &&& step.session.state->0.added_res_header == "Sozu-Id: "@ + session.request_id
                    + "\r\n"@
                &&& waits_just_for(
                    step.session.front_readiness,
                    set![Kind::Readable, Kind::Hup, Kind::Error],
                )
                &&& waits_just_for(step.session.back_readiness, set![Kind::Hup, Kind::Error])
                &&& step.session.front_readiness.event =~= session.front_readiness.event.difference(
                    kind_if(res == SocketResult::WouldBlock, Kind::Writable),
                ).union(kind_if(pipelined, Kind::Readable))
                &&& step.session.back_readiness.event =~= session.back_readiness.event
            }
            &&& !front ==> only_cleared(session, step.session)
        }),
{
}

/// When a step needs the front buffer, the state of the exchange, or the
/// headers of the next request.
pub proof fn law_needs_of_a_step<Front, Back, Buf>(
    session: HttpView<Front, Back, Buf>,
    res: SocketResult,
    buffer: BufferState,
    addresses: FrontAddressesView,
)
    requires
        session.state is Some,
    ensures
        ({
            let state = session.state->0;
            let looks = (res == SocketResult::WouldBlock || res == SocketResult::Continue
                && buffer.output_data_size == 0) && buffer.can_restart_parsing;
            &&& looks_at_state(res, buffer) <==> looks
            &&& session.starts_over(res, buffer) <==> looks && state.must_continue is None
                && is_whole_response(state.response) && state.request is Some
                && state.request_keep_alive
            &&& session.uses_front_buffer() <==> !state.has_host || state.request != Some(
                RequestState::RequestWithBodyChunks(Chunk::Ended),
            ) && state.request != Some(RequestState::RequestWithBodyChunks(Chunk::Error))
            &&& session.can_forward(addresses) <==> session.protocol != Protocol::Other
                || addresses.local is None || session.session_address is None
                && addresses.peer is None
        }),
{
}

} // verus!

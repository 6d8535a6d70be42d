//! Reading requests from the client.

use std::rc::Rc;

use vstd::prelude::*;
use vstd::slice::slice_to_vec;

use crate::buffer::BufferState;
use crate::outcome::Outcome;
use crate::readiness::Kind;
use crate::report::{
    diagnosis, Effect, EffectView, Effects, Level, LogMessage, LogMessageView, Measure,
    MeasureView, Metric, SessionMetrics,
};
use crate::session::{
    DefaultAnswerStatus, Http, HttpView, SessionResult, SessionStatus, SocketResult,
};
use crate::state::{Chunk, HttpState, HttpStateView, RequestState};
use crate::text::{append_decimal, decimal};

verus! {

/// What to do next to read from the client.
#[derive(Debug, Clone, Copy, PartialEq, Eq)]
pub enum ReadStep {
    /// Get a front buffer from the pool.
    Checkout,
    /// Read from the client into the front buffer.
    Read,
    Done(SessionResult),
}

/// Which part of a request is parsed.
#[derive(Debug, Clone, Copy, PartialEq, Eq, Structural)]
pub enum ParseStage {
    /// The head, up to the host. `was_initial` tells whether the request
    /// starts with this parse.
    Head { was_initial: bool },
    /// The chunks of the body.
    Chunks,
    /// Whatever else comes behind the host.
    Rest,
}

/// What to do next with what was read from the client.
#[derive(Debug, Clone, Copy, PartialEq, Eq)]
pub enum ParseStep {
    /// Parse the front buffer, and tell the new state.
    Parse(ParseStage),
    Done(SessionResult),
}

/// The answer to a request that does not fit into the buffer.
pub open spec fn too_large_answer() -> Seq<u8> {
    vstd::utf8::encode_utf8(
        "HTTP/1.1 413 Payload Too Large\r\nContent-Length: 0\r\n\r\n"@,
    )
}

fn make_too_large_answer() -> (answer: Rc<Vec<u8>>)
    ensures
        answer@ == too_large_answer(),
{
    Rc::new(
        slice_to_vec("HTTP/1.1 413 Payload Too Large\r\nContent-Length: 0\r\n\r\n".as_bytes()),
    )
}

/// The effect of so many bytes having come from the client.
pub open spec fn bytes_in(size: usize) -> Seq<EffectView> {
    seq![EffectView::Measure(MeasureView::Count(Metric::BytesIn, size as i64))]
}

impl<Front, Back, Buf> HttpView<Front, Back, Buf> {
    /// The client can be read from. `space` is the room in the front buffer,
    /// if there is one.
    pub open spec fn on_readable(self, metrics: SessionMetrics, space: usize) -> Outcome<
        Front,
        Back,
        Buf,
        ReadStep,
    > {
        if self.is_answering() {
            self.front_waits(Kind::Writable).back_ignores(Kind::Readable).back_ignores(
                Kind::Writable,
            ).giving(metrics, ReadStep::Done(SessionResult::Continue))
        } else if self.front_buf is None {
            self.giving(metrics, ReadStep::Checkout)
        } else {
            self.on_front_buffer(metrics, space)
        }
    }

    /// The session has a front buffer with so much room. Without any room, a
    /// request that has no backend yet is too large, and one that has waits
    /// for its backend to take some of it.
    pub open spec fn on_front_buffer(self, metrics: SessionMetrics, space: usize) -> Outcome<
        Front,
        Back,
        Buf,
        ReadStep,
    > {
        if space > 0 {
            self.giving(metrics, ReadStep::Read)
        } else if self.backend_token is None {
            self.answered(DefaultAnswerStatus::Answer413, too_large_answer()).giving(
                metrics,
                ReadStep::Done(SessionResult::Continue),
            ).preceded_by(self.answer_effects(DefaultAnswerStatus::Answer413))
        } else {
            self.front_ignores(Kind::Readable).back_waits(Kind::Writable).giving(
                metrics,
                ReadStep::Done(SessionResult::Continue),
            )
        }
    }

    /// The pool has given a buffer, or has none left.
    pub open spec fn on_front_checkout(
        self,
        metrics: SessionMetrics,
        buf: Option<Buf>,
        space: usize,
    ) -> Outcome<Front, Back, Buf, ReadStep> {
        match buf {
            None => self.giving(
                metrics,
                ReadStep::Done(SessionResult::CloseSession),
            ).followed_by(diagnosis(Level::Error, "cannot get front buffer from pool, closing"@)),
            Some(_) => HttpView { front_buf: buf, ..self }.on_front_buffer(metrics, space),
        }
    }

    /// A read has given `size` bytes, and left the front buffer as `front`
    /// tells.
    pub open spec fn on_front_read(
        self,
        metrics: SessionMetrics,
        size: usize,
        res: SocketResult,
        front: BufferState,
    ) -> Outcome<Front, Back, Buf, ParseStep> {
        let close = ParseStep::Done(SessionResult::CloseSession);
        let read = if size == 0 {
            self.front_used_up(Kind::Readable)
        } else if front.available_space == 0 {
            self.front_ignores(Kind::Readable)
        } else {
            self
        };
        let counted = SessionMetrics { bin: (metrics.bin + size) as usize, ..metrics };
        let note = self.request_diagnosis(
            Level::Debug,
            "\tFRONT: read "@ + decimal(size as nat) + " bytes"@,
        );
        let effects = if size == 0 { note } else { note + bytes_in(size) };
        let socket_error = LogMessageView::FrontSocketError {
            front: read.front_readiness,
            back: read.back_readiness,
        };
        match res {
            SocketResult::Error => read.failing(socket_error, counted, close),
            SocketResult::Closed => if self.state->0.request_is(RequestState::Initial) {
                read.idle().giving(counted, close).followed_by(seq![EffectView::ServiceStop])
            } else {
                read.failing(socket_error, counted, close)
            },
            SocketResult::WouldBlock => read.front_used_up(Kind::Readable).on_request_data(
                counted,
                front,
            ),
            SocketResult::Continue => read.on_request_data(counted, front),
        }.preceded_by(effects)
    }

    /// There may be something in the front buffer: parse it, unless nothing
    /// of it has to be parsed.
    pub open spec fn on_request_data(self, metrics: SessionMetrics, front: BufferState) -> Outcome<
        Front,
        Back,
        Buf,
        ParseStep,
    > {
        let state = self.state->0;
        let go_on = ParseStep::Done(SessionResult::Continue);
        if !state.has_host {
            self.giving(
                metrics,
                ParseStep::Parse(
                    ParseStage::Head { was_initial: state.request_is(RequestState::Initial) },
                ),
            )
        } else {
            let waiting = self.back_waits(Kind::Writable);
            match state.request {
                Some(RequestState::Request) | Some(RequestState::RequestWithBody) =>
                    if front.needs_input {
                        waiting.giving(metrics, go_on)
                    } else {
                        waiting.front_ignores(Kind::Readable).giving(metrics, go_on)
                    },
                Some(RequestState::RequestWithBodyChunks(Chunk::Ended)) =>
                    waiting.front_ignores(Kind::Readable).giving(metrics, go_on).followed_by(
                        self.request_diagnosis(Level::Error, "\tfront read should have stopped on chunk ended"@),
                    ),
                Some(RequestState::RequestWithBodyChunks(Chunk::Error)) => waiting.failing(
                    LogMessageView::Text("front read should have stopped on chunk error"@),
                    metrics,
                    ParseStep::Done(SessionResult::CloseSession),
                ),
                Some(RequestState::RequestWithBodyChunks(_)) =>
                    if front.needs_input {
                        waiting.giving(metrics, go_on)
                    } else {
                        waiting.giving(metrics, ParseStep::Parse(ParseStage::Chunks))
                    },
                _ => waiting.giving(metrics, ParseStep::Parse(ParseStage::Rest)),
            }
        }
    }

    /// What comes next depends on the front buffer.
    pub open spec fn uses_front_buffer(self) -> bool {
        let state = self.state->0;
        !(state.has_host && (state.request_is(RequestState::RequestWithBodyChunks(Chunk::Ended))
            || state.request_is(RequestState::RequestWithBodyChunks(Chunk::Error))))
    }

    /// The parser has gone over the front buffer, and has come to `state`.
    pub open spec fn on_request_parsed(
        self,
        metrics: SessionMetrics,
        stage: ParseStage,
        state: HttpStateView,
    ) -> Outcome<Front, Back, Buf, SessionResult> {
        let parsed = self.with_state(state);
        let close = SessionResult::CloseSession;
        match stage {
            ParseStage::Head { was_initial } => if state.front_error {
                // closing the connection takes the request off the gauge
                parsed.failing(
                    LogMessageView::Text("front parsing error, closing the connection"@),
                    metrics,
                    close,
                ).followed_by(
                    seq![
                        EffectView::Measure(MeasureView::Incr(Metric::FrontParseErrors)),
                        EffectView::Measure(MeasureView::GaugeAdd(Metric::ActiveRequests, 1)),
                    ],
                )
            } else {
                let effects = if was_initial && !state.request_is(RequestState::Initial) {
                    seq![
                        EffectView::Measure(MeasureView::GaugeAdd(Metric::ActiveRequests, 1)),
                        EffectView::Measure(MeasureView::Incr(Metric::Requests)),
                    ]
                } else {
                    Seq::empty()
                };
                if state.has_host {
                    parsed.back_waits(Kind::Writable).giving(metrics, SessionResult::ConnectBackend)
                } else {
                    parsed.front_waits(Kind::Readable).giving(metrics, SessionResult::Continue)
                }.preceded_by(effects)
            },
            ParseStage::Chunks => if state.front_error {
                parsed.failing(
                    LogMessageView::Text("front chunk parsing error, closing the connection"@),
                    metrics,
                    close,
                )
            } else if state.request_is(RequestState::RequestWithBodyChunks(Chunk::Ended)) {
                parsed.front_ignores(Kind::Readable).back_waits(Kind::Writable).giving(
                    metrics,
                    SessionResult::Continue,
                )
            } else {
                parsed.back_waits(Kind::Writable).giving(metrics, SessionResult::Continue)
            },
            ParseStage::Rest => if state.front_error {
                parsed.failing(
                    LogMessageView::Text("front parsing error, closing the connection"@),
                    metrics,
                    close,
                )
            } else if state.request_is(RequestState::Request) {
                parsed.front_ignores(Kind::Readable).back_waits(Kind::Writable).giving(
                    metrics,
                    SessionResult::Continue,
                )
            } else {
                parsed.back_waits(Kind::Writable).giving(metrics, SessionResult::Continue)
            },
        }
    }
}

impl<Front, Back, Buf> Http<Front, Back, Buf> {
    /// The client can be read from. `space` is the room in the front buffer;
    /// it does not matter if there is none.
    pub fn readable(&mut self, metrics: &SessionMetrics, space: usize, effects: &mut Effects) -> (step:
        ReadStep)
        requires
            !old(self)@.is_answering() ==> old(self)@.state is Some
                && !old(self)@.state->0.front_error,
        ensures
            old(self)@.on_readable(*metrics, space).reached(
                final(self)@,
                *metrics,
                old(effects)@,
                final(effects)@,
                step,
            ),
    {
        match self.status {
            SessionStatus::DefaultAnswer(_, _, _) => {
                self.front_readiness.wait_for(Kind::Writable);
                self.back_readiness.ignore(Kind::Readable);
                self.back_readiness.ignore(Kind::Writable);
                return ReadStep::Done(SessionResult::Continue);
            },
            SessionStatus::Normal => {},
        }
        if self.front_buf.is_none() {
            return ReadStep::Checkout;
        }
        self.readable_into(metrics, space, effects)
    }

    /// The pool has given a buffer with so much room, or has none left.
    pub fn readable_checked_out(
        &mut self,
        metrics: &SessionMetrics,
        buf: Option<Buf>,
        space: usize,
        effects: &mut Effects,
    ) -> (step: ReadStep)
        requires
            !old(self)@.is_answering(),
        ensures
            old(self)@.on_front_checkout(*metrics, buf, space).reached(
                final(self)@,
                *metrics,
                old(effects)@,
                final(effects)@,
                step,
            ),
    {
        match buf {
            None => {
                effects.diagnose(Level::Error, "cannot get front buffer from pool, closing".to_owned());
                ReadStep::Done(SessionResult::CloseSession)
            },
            Some(buf) => {
                self.front_buf = Some(buf);
                self.readable_into(metrics, space, effects)
            },
        }
    }

    /// The session has a front buffer with so much room.
    fn readable_into(&mut self, metrics: &SessionMetrics, space: usize, effects: &mut Effects) -> (step:
        ReadStep)
        requires
            !old(self)@.is_answering(),
        ensures
            old(self)@.on_front_buffer(*metrics, space).reached(
                final(self)@,
                *metrics,
                old(effects)@,
                final(effects)@,
                step,
            ),
    {
        if space == 0 {
            if self.backend_token.is_none() {
                self.set_answer(DefaultAnswerStatus::Answer413, make_too_large_answer(), effects);
                self.front_readiness.ignore(Kind::Readable);
                self.front_readiness.wait_for(Kind::Writable);
            } else {
                self.front_readiness.ignore(Kind::Readable);
                self.back_readiness.wait_for(Kind::Writable);
            }
            return ReadStep::Done(SessionResult::Continue);
        }
        ReadStep::Read
    }

    /// A read from the client has given `sz` bytes and has gone as `res`
    /// tells. They are in the front buffer, and `front` measures it.
    pub fn readable_read(
        &mut self,
        metrics: &mut SessionMetrics,
        sz: usize,
        res: SocketResult,
        front: &BufferState,
        effects: &mut Effects,
    ) -> (step: ParseStep)
        requires
            old(self)@.front_buf is Some,
            res != SocketResult::Error ==> old(self)@.state is Some,
            old(metrics).bin + sz <= usize::MAX,
        ensures
            old(self)@.on_front_read(*old(metrics), sz, res, *front).reached(
                final(self)@,
                *final(metrics),
                old(effects)@,
                final(effects)@,
                step,
            ),
    {
        let mut note = "\tFRONT: read ".to_owned();
        append_decimal(&mut note, sz);
        note.append(" bytes");
        self.diagnose(Level::Debug, note.as_str(), effects);
        if sz > 0 {
            effects.measure(Measure::Count(Metric::BytesIn, sz as i64));
            metrics.bin = metrics.bin + sz;
            if front.available_space == 0 {
                self.front_readiness.ignore(Kind::Readable);
            }
        } else {
            self.front_readiness.use_up(Kind::Readable);
        }
        match res {
            SocketResult::Error => {
                self.log_front_socket_error(metrics, effects);
                return ParseStep::Done(SessionResult::CloseSession);
            },
            SocketResult::Closed => {
                // we were in keep alive but the peer closed the connection
                if self.state.as_ref().unwrap().is_initial() {
                    effects.emit(Effect::ServiceStop);
                    self.front_readiness.reset();
                    self.back_readiness.reset();
                } else {
                    self.log_front_socket_error(metrics, effects);
                }
                return ParseStep::Done(SessionResult::CloseSession);
            },
            SocketResult::WouldBlock => {
                self.front_readiness.use_up(Kind::Readable);
            },
            SocketResult::Continue => {},
        }
        self.readable_parse(metrics, front, effects)
    }

    fn log_front_socket_error(&mut self, metrics: &SessionMetrics, effects: &mut Effects)
        ensures
            final(self)@ == old(self)@.idle(),
            final(effects)@ == old(effects)@ + old(self)@.error_effects(
                LogMessageView::FrontSocketError {
                    front: old(self)@.front_readiness,
                    back: old(self)@.back_readiness,
                },
                *metrics,
            ),
    {
        let front = self.front_readiness;
        let back = self.back_readiness;
        self.log_request_error(metrics, LogMessage::FrontSocketError { front, back }, effects);
    }

    /// Whether what comes next depends on the front buffer.
    pub fn needs_front_buffer(&self) -> (r: bool)
        requires
            self@.state is Some,
        ensures
            r == self@.uses_front_buffer(),
    {
        let state = self.state.as_ref().unwrap();
        let is_parsed = match state.request {
            Some(RequestState::RequestWithBodyChunks(Chunk::Ended))
            | Some(RequestState::RequestWithBodyChunks(Chunk::Error)) => true,
            _ => false,
        };
        !(state.has_host && is_parsed)
    }

    /// There may be something in the front buffer, which `front` measures.
    pub fn readable_parse(
        &mut self,
        metrics: &SessionMetrics,
        front: &BufferState,
        effects: &mut Effects,
    ) -> (step: ParseStep)
        requires
            old(self)@.state is Some,
            old(self)@.uses_front_buffer() ==> old(self)@.front_buf is Some,
        ensures
            old(self)@.on_request_data(*metrics, *front).reached(
                final(self)@,
                *metrics,
                old(effects)@,
                final(effects)@,
                step,
            ),
    {
        let state = self.state.as_ref().unwrap();
        // if there's no host, continue parsing until we find it
        if !state.has_host {
            return ParseStep::Parse(ParseStage::Head { was_initial: state.is_initial() });
        }
        let request = state.request;
        self.back_readiness.wait_for(Kind::Writable);
        match request {
            Some(RequestState::Request) | Some(RequestState::RequestWithBody) => {
                if !front.needs_input {
                    // stop reading
                    self.front_readiness.ignore(Kind::Readable);
                }
                ParseStep::Done(SessionResult::Continue)
            },
            Some(RequestState::RequestWithBodyChunks(Chunk::Ended)) => {
                self.diagnose(Level::Error, "\tfront read should have stopped on chunk ended", effects);
                self.front_readiness.ignore(Kind::Readable);
                ParseStep::Done(SessionResult::Continue)
            },
            Some(RequestState::RequestWithBodyChunks(Chunk::Error)) => {
                self.fail(metrics, "front read should have stopped on chunk error", effects);
                ParseStep::Done(SessionResult::CloseSession)
            },
            Some(RequestState::RequestWithBodyChunks(_)) => {
                if !front.needs_input {
                    ParseStep::Parse(ParseStage::Chunks)
                } else {
                    ParseStep::Done(SessionResult::Continue)
                }
            },
            _ => ParseStep::Parse(ParseStage::Rest),
        }
    }

    /// The parser has gone over the front buffer, and has come to `state`.
    pub fn readable_parsed(
        &mut self,
        metrics: &SessionMetrics,
        stage: ParseStage,
        state: HttpState,
        effects: &mut Effects,
    ) -> (result: SessionResult)
        ensures
            old(self)@.on_request_parsed(*metrics, stage, state@).reached(
                final(self)@,
                *metrics,
                old(effects)@,
                final(effects)@,
                result,
            ),
    {
        let front_error = state.front_error;
        let has_host = state.has_host;
        let request = state.request;
        let is_initial = state.is_initial();
        self.state = Some(state);
        match stage {
            ParseStage::Head { was_initial } => {
                if front_error {
                    self.fail(metrics, "front parsing error, closing the connection", effects);
                    effects.measure(Measure::Incr(Metric::FrontParseErrors));
                    // increment active requests here because it will be decremented right away
                    // when closing the connection
                    effects.measure(Measure::GaugeAdd(Metric::ActiveRequests, 1));
                    return SessionResult::CloseSession;
                }
                if was_initial && !is_initial {
                    effects.measure(Measure::GaugeAdd(Metric::ActiveRequests, 1));
                    effects.measure(Measure::Incr(Metric::Requests));
                }
                if has_host {
                    self.back_readiness.wait_for(Kind::Writable);
                    SessionResult::ConnectBackend
                } else {
                    self.front_readiness.wait_for(Kind::Readable);
                    SessionResult::Continue
                }
            },
            ParseStage::Chunks => {
                if front_error {
                    self.fail(metrics, "front chunk parsing error, closing the connection", effects);
                    return SessionResult::CloseSession;
                }
                match request {
                    Some(RequestState::RequestWithBodyChunks(Chunk::Ended)) => {
                        self.front_readiness.ignore(Kind::Readable);
                    },
                    _ => {},
                }
                self.back_readiness.wait_for(Kind::Writable);
                SessionResult::Continue
            },
            ParseStage::Rest => {
                if front_error {
                    self.fail(metrics, "front parsing error, closing the connection", effects);
                    return SessionResult::CloseSession;
                }
                match request {
                    Some(RequestState::Request) => {
                        self.front_readiness.ignore(Kind::Readable);
                    },
                    _ => {},
                }
                self.back_readiness.wait_for(Kind::Writable);
                SessionResult::Continue
            },
        }
    }
}

} // verus!

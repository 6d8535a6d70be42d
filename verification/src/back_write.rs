//! Writing requests to the backend.

use vstd::prelude::*;

use crate::buffer::BufferState;
use crate::front_write::{looks_at_state, turn_is_over, Progress};
use crate::outcome::Outcome;
use crate::readiness::Kind;
use crate::report::{
    Diagnostic, DiagnosticView, Effect, EffectView, Effects, Level, LogMessageView, SessionMetrics,
};
use crate::session::{Http, HttpView, SessionResult, SessionStatus, SocketResult};
use crate::state::{Chunk, RequestState};

verus! {

/// What to do next to write to the backend.
#[derive(Debug, Clone, Copy, PartialEq, Eq)]
pub enum BackWriteStep {
    /// Write the next output of the front buffer. The turn is so far.
    Write(Progress),
    Done(SessionResult),
}

/// The byte counts after so many bytes have gone to the backend.
pub open spec fn count_back_out(metrics: SessionMetrics, size: usize) -> SessionMetrics {
    SessionMetrics { backend_bout: (metrics.backend_bout + size) as usize, ..metrics }
}

/// What a sent request calls for next.
pub enum AfterRequest {
    /// The response of the backend.
    Response,
    /// More of the request.
    MoreRequest,
    /// Nothing: there is no request.
    Nothing,
}

/// What is called for when all that was parsed of a request is sent. A body
/// in chunks of which none was parsed yet is held back only while the backend
/// has still to ask for it.
pub open spec fn after_request(
    request: Option<RequestState>,
    must_continue: Option<usize>,
) -> AfterRequest {
    match request {
        Some(RequestState::Request) => AfterRequest::Response,
        Some(RequestState::RequestWithBody) => AfterRequest::Response,
        Some(RequestState::RequestWithBodyChunks(Chunk::Ended)) => AfterRequest::Response,
        Some(RequestState::RequestWithBodyChunks(Chunk::Initial)) => if must_continue is None {
            AfterRequest::MoreRequest
        } else {
            AfterRequest::Response
        },
        Some(RequestState::RequestWithBodyChunks(_)) => AfterRequest::MoreRequest,
        Some(RequestState::HasRequestLine) => AfterRequest::MoreRequest,
        Some(RequestState::HasHost) => AfterRequest::MoreRequest,
        Some(RequestState::HasLength) => AfterRequest::MoreRequest,
        Some(RequestState::HasHostAndLength) => AfterRequest::MoreRequest,
        _ => AfterRequest::Nothing,
    }
}

impl<Front, Back, Buf> HttpView<Front, Back, Buf> {
    /// The backend can be written to; `front` measures the front buffer.
    pub open spec fn on_back_writable(self, metrics: SessionMetrics, front: BufferState) -> Outcome<
        Front,
        Back,
        Buf,
        BackWriteStep,
    > {
        if self.is_answering() {
            self.back_ignores(Kind::Writable).front_waits(Kind::Writable).giving(
                metrics,
                BackWriteStep::Done(SessionResult::Continue),
            ).followed_by(
                self.request_diagnosis(Level::Error, "\tsending default answer, should not write to back"@),
            )
        } else if front.has_no_output() {
            self.front_waits(Kind::Readable).back_ignores(Kind::Writable).giving(
                metrics,
                BackWriteStep::Done(SessionResult::Continue),
            )
        } else if self.backend is None {
            self.failing(
                LogMessageView::Text("back socket not found, closing connection"@),
                metrics,
                BackWriteStep::Done(SessionResult::CloseSession),
            )
        } else {
            self.giving(
                metrics,
                BackWriteStep::Write(Progress { sz: 0, output_size: front.output_data_size }),
            )
        }
    }

    /// The note on a turn of writing to the backend, if its socket has a token.
    pub open spec fn back_wrote_effects(self, progress: Progress) -> Seq<EffectView> {
        match self.backend_token {
            Some(token) => seq![
                EffectView::Diagnose(
                    Level::Debug,
                    DiagnosticView::BackWrote {
                        log_ctx: self.log_ctx,
                        front: self.frontend_token,
                        back: token,
                        sz: progress.sz,
                        output_size: progress.output_size,
                    },
                ),
            ],
            None => Seq::empty(),
        }
    }

    /// A turn of writing the front buffer is so far, its last write went as
    /// `res` tells, and `front` measures what is left.
    pub open spec fn on_back_written(
        self,
        metrics: SessionMetrics,
        progress: Progress,
        res: SocketResult,
        front: BufferState,
    ) -> Outcome<Front, Back, Buf, BackWriteStep> {
        let counted = count_back_out(metrics, progress.sz);
        if !turn_is_over(res, front) {
            if front.next_output_size == 0 {
                self.front_waits(Kind::Readable).back_ignores(Kind::Writable).giving(
                    counted,
                    BackWriteStep::Done(SessionResult::Continue),
                )
            } else {
                self.giving(metrics, BackWriteStep::Write(progress))
            }
        } else {
            match res {
                SocketResult::Error | SocketResult::Closed => self.failing(
                    LogMessageView::Text("back socket write error, closing connection"@),
                    counted,
                    BackWriteStep::Done(SessionResult::CloseSession),
                ),
                SocketResult::WouldBlock => self.back_used_up(Kind::Writable).on_back_turn_end(
                    counted,
                    front,
                ),
                SocketResult::Continue => self.on_back_turn_end(counted, front),
            }.preceded_by(self.back_wrote_effects(progress))
        }
    }

    /// The front buffer goes back to the pool, unless it still holds data of
    /// the next request, or a body that the client holds back.
    pub open spec fn front_buffer_returned(self, front: BufferState) -> Self {
        HttpView {
            front_buf: if front.empty && self.state->0.must_continue is None {
                None
            } else {
                self.front_buf
            },
            ..self
        }
    }

    /// A turn of writing went well: see what the request calls for.
    pub open spec fn on_back_turn_end(self, metrics: SessionMetrics, front: BufferState) -> Outcome<
        Front,
        Back,
        Buf,
        BackWriteStep,
    > {
        let go_on = BackWriteStep::Done(SessionResult::Continue);
        if !front.can_restart_parsing {
            self.front_waits(Kind::Readable).back_waits(Kind::Writable).giving(metrics, go_on)
        } else {
            match after_request(self.state->0.request, self.state->0.must_continue) {
                AfterRequest::Response => self.front_buffer_returned(front).front_ignores(
                    Kind::Readable,
                ).back_waits(Kind::Readable).back_ignores(Kind::Writable).giving(metrics, go_on),
                AfterRequest::MoreRequest => self.front_waits(Kind::Readable).giving(
                    metrics,
                    go_on,
                ),
                AfterRequest::Nothing => self.failing(
                    LogMessageView::Text("invalid state, closing connection"@),
                    metrics,
                    BackWriteStep::Done(SessionResult::CloseSession),
                ),
            }
        }
    }
}

impl<Front, Back, Buf> Http<Front, Back, Buf> {
    /// The backend can be written to. `front` measures the front buffer.
    pub fn back_writable(
        &mut self,
        metrics: &SessionMetrics,
        front: &BufferState,
        effects: &mut Effects,
    ) -> (step: BackWriteStep)
        requires
            !old(self)@.is_answering() ==> old(self)@.front_buf is Some,
        ensures
            old(self)@.on_back_writable(*metrics, *front).reached(
                final(self)@,
                *metrics,
                old(effects)@,
                final(effects)@,
                step,
            ),
    {
        match self.status {
            SessionStatus::DefaultAnswer(_, _, _) => {
                self.diagnose(Level::Error, "\tsending default answer, should not write to back", effects);
                self.back_readiness.ignore(Kind::Writable);
                self.front_readiness.wait_for(Kind::Writable);
                return BackWriteStep::Done(SessionResult::Continue);
            },
            SessionStatus::Normal => {},
        }
        if front.nothing_to_send() {
            self.front_readiness.wait_for(Kind::Readable);
            self.back_readiness.ignore(Kind::Writable);
            return BackWriteStep::Done(SessionResult::Continue);
        }
        if self.backend.is_none() {
            self.fail(metrics, "back socket not found, closing connection", effects);
            return BackWriteStep::Done(SessionResult::CloseSession);
        }
        BackWriteStep::Write(Progress { sz: 0, output_size: front.output_data_size })
    }

    /// A write of the front buffer's output has taken `current_sz` bytes, in a
    /// turn that was as far as `progress` tells, and has gone as `current_res`
    /// tells. They are consumed, and `front` measures what is left.
    pub fn back_writable_written(
        &mut self,
        metrics: &mut SessionMetrics,
        progress: Progress,
        current_sz: usize,
        current_res: SocketResult,
        front: &BufferState,
        effects: &mut Effects,
    ) -> (step: BackWriteStep)
        requires
            old(self)@.front_buf is Some,
            old(metrics).backend_bout + progress.sz + current_sz <= usize::MAX,
            looks_at_state(current_res, *front) ==> old(self)@.state is Some,
        ensures
            old(self)@.on_back_written(
                *old(metrics),
                progress.after(current_sz),
                current_res,
                *front,
            ).reached(final(self)@, *final(metrics), old(effects)@, final(effects)@, step),
    {
        let total: usize = progress.sz + current_sz;
        if current_res == SocketResult::Continue && front.output_data_size > 0 {
            // no more data in buffer, stop here
            if front.next_output_size == 0 {
                self.front_readiness.wait_for(Kind::Readable);
                self.back_readiness.ignore(Kind::Writable);
                metrics.backend_bout = metrics.backend_bout + total;
                return BackWriteStep::Done(SessionResult::Continue);
            }
            return BackWriteStep::Write(
                Progress { sz: total, output_size: progress.output_size },
            );
        }
        metrics.backend_bout = metrics.backend_bout + total;
        if let Some((front_token, back_token)) = self.tokens() {
            let log_ctx = self.log_ctx.clone();
            effects.emit(
                Effect::Diagnose(
                    Level::Debug,
                    Diagnostic::BackWrote {
                        log_ctx,
                        front: front_token,
                        back: back_token,
                        sz: total,
                        output_size: progress.output_size,
                    },
                ),
            );
        }
        match current_res {
            SocketResult::Error | SocketResult::Closed => {
                self.fail(metrics, "back socket write error, closing connection", effects);
                return BackWriteStep::Done(SessionResult::CloseSession);
            },
            SocketResult::WouldBlock => {
                self.back_readiness.use_up(Kind::Writable);
            },
            SocketResult::Continue => {},
        }
        if !front.can_restart_parsing {
            self.front_readiness.wait_for(Kind::Readable);
            self.back_readiness.wait_for(Kind::Writable);
            return BackWriteStep::Done(SessionResult::Continue);
        }
        let state = self.state.as_ref().unwrap();
        let must_continue = state.must_continue.is_some();
        match state.request {
            // the entire request was transmitted
            Some(RequestState::Request)
            | Some(RequestState::RequestWithBody)
            | Some(RequestState::RequestWithBodyChunks(Chunk::Ended)) => {
                // return the buffer to the pool
                // if there's still data in there, keep it for pipelining
                if !must_continue && front.empty {
                    self.front_buf = None;
                }
                self.front_readiness.ignore(Kind::Readable);
                self.back_readiness.wait_for(Kind::Readable);
                self.back_readiness.ignore(Kind::Writable);
                BackWriteStep::Done(SessionResult::Continue)
            },
            Some(RequestState::RequestWithBodyChunks(Chunk::Initial)) => {
                if !must_continue {
                    self.front_readiness.wait_for(Kind::Readable);
                } else {
                    // wait for the 100 continue response from the backend
                    // keep the front buffer
                    self.front_readiness.ignore(Kind::Readable);
                    self.back_readiness.wait_for(Kind::Readable);
                    self.back_readiness.ignore(Kind::Writable);
                }
                BackWriteStep::Done(SessionResult::Continue)
            },
            // there will be other chunks, or we're not done parsing the headers
            Some(RequestState::RequestWithBodyChunks(_))
            | Some(RequestState::HasRequestLine)
            | Some(RequestState::HasHost)
            | Some(RequestState::HasLength)
            | Some(RequestState::HasHostAndLength) => {
                self.front_readiness.wait_for(Kind::Readable);
                BackWriteStep::Done(SessionResult::Continue)
            },
            _ => {
                self.fail(metrics, "invalid state, closing connection", effects);
                BackWriteStep::Done(SessionResult::CloseSession)
            },
        }
    }
}

} // verus!

//! Writing responses, and the session's own answers, to the client.

use vstd::prelude::*;

use crate::address::{FrontAddresses, FrontAddressesView};
use crate::buffer::BufferState;
use crate::outcome::Outcome;
use crate::readiness::Kind;
use crate::report::{
    diagnosis, save_http_status_metric, status_effects, Diagnostic, DiagnosticView, Effect,
    EffectView, Effects, Level, LogKindView, LogMessageView, Measure, MeasureView, Metric,
    SessionMetrics,
};
use crate::request_id::{is_request_id, new_request_id};
use crate::session::{
    Http, HttpView, SessionResult, SessionStatus, SessionStatusView, SocketResult,
};
use crate::state::{Chunk, ResponseState, ResponseStateView};
use crate::text::{append_decimal, decimal};

verus! {

/// How far the session's own answer is sent: the index of the next byte, the
/// bytes written in this turn, and how the last write went.
#[derive(Debug, Clone, Copy, PartialEq, Eq, Structural)]
pub struct AnswerCursor {
    pub index: usize,
    pub sz: usize,
    pub res: SocketResult,
}

/// How far a turn of writing is: the bytes written in it, and how many there
/// were to write when it began.
#[derive(Debug, Clone, Copy, PartialEq, Eq, Structural)]
pub struct Progress {
    pub sz: usize,
    pub output_size: usize,
}

impl Progress {
    /// So many bytes further.
    pub open spec fn after(self, size: usize) -> Progress {
        Progress { sz: (self.sz + size) as usize, ..self }
    }
}

/// What to do next to write to the client.
#[derive(Debug, Clone, Copy, PartialEq, Eq)]
pub enum WriteStep {
    /// Write the session's own answer, from this index on.
    WriteAnswer(AnswerCursor),
    /// Write the next output of the back buffer. The turn is so far.
    Write(Progress),
    Done(SessionResult),
}

/// The effect of so many bytes having gone to the client.
pub open spec fn bytes_out(size: usize) -> Seq<EffectView> {
    seq![EffectView::Measure(MeasureView::Count(Metric::BytesOut, size as i64))]
}

/// The effects of passing on so much of a body that the client held back.
pub open spec fn continue_effects(size: usize) -> Seq<EffectView> {
    diagnosis(
        Level::Trace,
        "100-Continue => copying "@ + decimal(size as nat) + " of body from front to back"@,
    ).push(EffectView::ContinueBody(size))
}

/// The byte counts after so many bytes have gone to the client.
pub open spec fn count_out(metrics: SessionMetrics, size: usize) -> SessionMetrics {
    SessionMetrics { bout: (metrics.bout + size) as usize, ..metrics }
}

/// The response, or the part of it that was parsed, is complete.
pub open spec fn response_is_complete(response: Option<ResponseStateView>) -> bool {
    ||| response == Some(ResponseStateView::Response)
    ||| response == Some(ResponseStateView::ResponseWithBody)
    ||| response == Some(ResponseStateView::ResponseWithBodyChunks(Chunk::Ended))
}

/// There is more of the response to come.
pub open spec fn response_goes_on(response: Option<ResponseStateView>) -> bool {
    match response {
        Some(ResponseStateView::ResponseWithBodyChunks(chunk)) => chunk != Chunk::Ended,
        Some(ResponseStateView::HasStatusLine) => true,
        Some(ResponseStateView::HasUpgrade) => true,
        Some(ResponseStateView::HasLength) => true,
        _ => false,
    }
}

/// A turn of writing that ended like this lets the session look at the state
/// of the exchange.
pub open spec fn looks_at_state(res: SocketResult, buffer: BufferState) -> bool {
    &&& turn_is_over(res, buffer)
    &&& res != SocketResult::Error && res != SocketResult::Closed
    &&& buffer.can_restart_parsing
}

/// Whether a turn of writing that ended like this lets the session look at
/// the state of the exchange, which it then has to have.
pub fn needs_state(res: SocketResult, buffer: &BufferState) -> (r: bool)
    ensures
        r == looks_at_state(res, *buffer),
{
    match res {
        SocketResult::Error | SocketResult::Closed => false,
        SocketResult::WouldBlock => buffer.can_restart_parsing,
        SocketResult::Continue => buffer.output_data_size == 0 && buffer.can_restart_parsing,
    }
}

/// A turn of writing ends: the last write did not go on, or there is nothing
/// left to write.
pub open spec fn turn_is_over(res: SocketResult, buffer: BufferState) -> bool {
    res != SocketResult::Continue || buffer.output_data_size == 0
}

impl<Front, Back, Buf> HttpView<Front, Back, Buf> {
    /// The client can be written to; `back` measures the back buffer, if
    /// there is one.
    pub open spec fn on_writable(self, metrics: SessionMetrics, back: BufferState) -> Outcome<
        Front,
        Back,
        Buf,
        WriteStep,
    > {
        match self.status {
            SessionStatusView::DefaultAnswer(_, _, index) => self.on_answer(
                metrics,
                AnswerCursor { index, sz: 0, res: SocketResult::Continue },
            ),
            SessionStatusView::Normal => if self.back_buf is None {
                self.giving(metrics, WriteStep::Done(SessionResult::CloseSession)).followed_by(
                    diagnosis(Level::Error, "no back buffer to write on the front socket"@),
                )
            } else if back.has_no_output() {
                self.back_waits(Kind::Readable).front_ignores(Kind::Writable).giving(
                    metrics,
                    WriteStep::Done(SessionResult::Continue),
                )
            } else {
                self.giving(
                    metrics,
                    WriteStep::Write(Progress { sz: 0, output_size: back.output_data_size }),
                )
            },
        }
    }

    /// The session's own answer is sent up to `cursor`: write on, or end the
    /// turn. When the whole answer is sent, the session is over; until then it
    /// keeps the index at which the next turn starts.
    pub open spec fn on_answer(self, metrics: SessionMetrics, cursor: AnswerCursor) -> Outcome<
        Front,
        Back,
        Buf,
        WriteStep,
    > {
        match self.status {
            SessionStatusView::Normal => self.giving(
                metrics,
                WriteStep::Done(SessionResult::CloseSession),
            ),
            SessionStatusView::DefaultAnswer(status, answer, _) => if cursor.res
                == SocketResult::Continue && cursor.index < answer.len() {
                self.giving(metrics, WriteStep::WriteAnswer(cursor))
            } else {
                let written = if cursor.res == SocketResult::Continue {
                    self
                } else {
                    self.front_used_up(Kind::Writable)
                };
                let counted = count_out(metrics, cursor.sz);
                if cursor.index == answer.len() {
                    written.idle().giving(
                        counted,
                        WriteStep::Done(SessionResult::CloseSession),
                    ).preceded_by(
                        seq![
                            EffectView::ServiceStop,
                            EffectView::Log(self.log_entry(LogKindView::DefaultAnswer, counted)),
                        ],
                    )
                } else if cursor.res == SocketResult::Error {
                    written.failing(
                        LogMessageView::Text(
                            "error writing default answer to front socket, closing"@,
                        ),
                        counted,
                        WriteStep::Done(SessionResult::CloseSession),
                    )
                } else {
                    HttpView {
                        status: SessionStatusView::DefaultAnswer(status, answer, cursor.index),
                        ..written
                    }.giving(counted, WriteStep::Done(SessionResult::Continue))
                }.preceded_by(bytes_out(cursor.sz))
            },
        }
    }

    /// The note on a turn of writing to the client, once there is a backend.
    pub open spec fn front_wrote_effects(self, progress: Progress, back: BufferState) -> Seq<
        EffectView,
    > {
        match self.backend_token {
            Some(token) => seq![
                EffectView::Diagnose(
                    Level::Debug,
                    DiagnosticView::FrontWrote {
                        log_ctx: self.log_ctx,
                        front: self.frontend_token,
                        back: token,
                        sz: progress.sz,
                        output_size: progress.output_size,
                        buffer_position: back.buffer_position,
                        restart_position: back.start_parsing_position,
                    },
                ),
            ],
            None => Seq::empty(),
        }
    }

    /// A turn of writing the back buffer is so far, its last write went as
    /// `res` tells, and `back` measures what is left.
    pub open spec fn on_written(
        self,
        metrics: SessionMetrics,
        progress: Progress,
        res: SocketResult,
        back: BufferState,
        front_is_empty: bool,
        addresses: FrontAddressesView,
        next_id: Seq<char>,
    ) -> Outcome<Front, Back, Buf, WriteStep> {
        let total = progress.sz;
        let counted = count_out(metrics, total);
        if !turn_is_over(res, back) {
            if back.next_output_size == 0 {
                self.back_waits(Kind::Readable).front_ignores(Kind::Writable).giving(
                    counted,
                    WriteStep::Done(SessionResult::Continue),
                ).preceded_by(bytes_out(total))
            } else {
                self.giving(metrics, WriteStep::Write(progress))
            }
        } else {
            match res {
                SocketResult::Error | SocketResult::Closed => self.failing(
                    LogMessageView::Text("error writing to front socket, closing"@),
                    counted,
                    WriteStep::Done(SessionResult::CloseSession),
                ),
                SocketResult::WouldBlock => self.front_used_up(Kind::Writable).on_turn_end(
                    counted,
                    back,
                    front_is_empty,
                    addresses,
                    next_id,
                ),
                SocketResult::Continue => self.on_turn_end(
                    counted,
                    back,
                    front_is_empty,
                    addresses,
                    next_id,
                ),
            }.preceded_by(bytes_out(total) + self.front_wrote_effects(progress, back))
        }
    }

    /// A turn of writing went well: see what the exchange has come to.
    pub open spec fn on_turn_end(
        self,
        metrics: SessionMetrics,
        back: BufferState,
        front_is_empty: bool,
        addresses: FrontAddressesView,
        next_id: Seq<char>,
    ) -> Outcome<Front, Back, Buf, WriteStep> {
        let go_on = WriteStep::Done(SessionResult::Continue);
        let close = WriteStep::Done(SessionResult::CloseSession);
        if !back.can_restart_parsing {
            self.back_waits(Kind::Readable).giving(metrics, go_on)
        } else {
            let state = self.state->0;
            match state.must_continue {
                Some(size) => {
                    let listening = self.front_waits(Kind::Readable).front_ignores(Kind::Writable);
                    if self.front_buf is Some {
                        listening.with_state(state.continued()).giving(metrics, go_on).followed_by(
                            continue_effects(size),
                        )
                    } else {
                        listening.giving(metrics, close).followed_by(
                            diagnosis(Level::Error, "got 100 continue but front buffer was already removed"@),
                        )
                    }
                },
                None => if response_is_complete(state.response) {
                    self.on_exchange_end(front_is_empty, addresses, next_id).preceded_by(
                        status_effects(state.status_line).push(
                            EffectView::Log(self.log_entry(LogKindView::Success, metrics)),
                        ).push(EffectView::ResetMetrics),
                    )
                } else if response_goes_on(state.response) {
                    self.back_waits(Kind::Readable).giving(metrics, go_on)
                } else {
                    self.idle().giving(metrics, close)
                },
            }
        }
    }

    /// The note on which sides keep their connections.
    pub open spec fn keep_alive_note(self) -> Seq<EffectView> {
        self.request_diagnosis(
            Level::Debug,
            if !self.state->0.front_keep_alive() {
                " no keep alive"@
            } else if self.state->0.back_keep_alive() {
                " keep alive front/back"@
            } else {
                " keep alive front"@
            },
        )
    }

    /// The whole response went to the client. The session goes on with the
    /// client's next request if the client keeps its connection, and lets the
    /// backend go if that does not keep its own.
    pub open spec fn on_exchange_end(
        self,
        front_is_empty: bool,
        addresses: FrontAddressesView,
        next_id: Seq<char>,
    ) -> Outcome<Front, Back, Buf, WriteStep> {
        let state = self.state->0;
        let metrics = SessionMetrics::zero();
        if state.front_keep_alive() {
            let reset = self.after_reset(next_id, addresses, front_is_empty);
            let next = HttpView {
                front_readiness: reset.front_readiness.waiting_only_for(Kind::Readable),
                back_readiness: reset.back_readiness.waiting_for_end(),
                ..reset
            };
            if state.back_keep_alive() {
                next.giving(metrics, WriteStep::Done(SessionResult::Continue))
            } else {
                HttpView { backend_token: None, ..next }.giving(
                    metrics,
                    WriteStep::Done(SessionResult::CloseBackend(self.backend_token)),
                )
            }.preceded_by(self.keep_alive_note() + self.reset_effects())
        } else {
            self.idle().giving(
                metrics,
                WriteStep::Done(SessionResult::CloseSession),
            ).preceded_by(self.keep_alive_note())
        }
    }

    /// A turn of writing that ended like this ends the exchange.
    pub open spec fn ends_exchange(self, res: SocketResult, back: BufferState) -> bool {
        &&& looks_at_state(res, back)
        &&& self.state->0.must_continue is None
        &&& response_is_complete(self.state->0.response)
    }

    /// A turn of writing that ended like this makes the session ready for
    /// another request.
    pub open spec fn starts_over(self, res: SocketResult, back: BufferState) -> bool {
        self.ends_exchange(res, back) && self.state->0.front_keep_alive()
    }
}

impl<Front, Back, Buf> Http<Front, Back, Buf> {
    /// Whether a write that goes like this, and leaves the back buffer as
    /// `back` tells, makes the session ready for another request.
    pub fn will_start_over(&self, res: SocketResult, back: &BufferState) -> (r: bool)
        requires
            looks_at_state(res, *back) ==> self@.state is Some,
        ensures
            r == self@.starts_over(res, *back),
    {
        if !needs_state(res, back) {
            return false;
        }
        let state = self.state.as_ref().unwrap();
        let is_complete = match &state.response {
            Some(ResponseState::Response)
            | Some(ResponseState::ResponseWithBody)
            | Some(ResponseState::ResponseWithBodyChunks(Chunk::Ended)) => true,
            _ => false,
        };
        state.must_continue.is_none() && is_complete && state.front_keep_alive()
    }

    /// The client can be written to. `back` measures the back buffer; it does
    /// not matter if there is none.
    pub fn writable(
        &mut self,
        metrics: &mut SessionMetrics,
        back: &BufferState,
        effects: &mut Effects,
    ) -> (step: WriteStep)
        ensures
            old(self)@.on_writable(*old(metrics), *back).reached(
                final(self)@,
                *final(metrics),
                old(effects)@,
                final(effects)@,
                step,
            ),
    {
        match self.status {
            SessionStatus::DefaultAnswer(_, _, index) => {
                let cursor = AnswerCursor { index, sz: 0, res: SocketResult::Continue };
                return self.writable_default_answer(metrics, cursor, effects);
            },
            SessionStatus::Normal => {},
        }
        if self.back_buf.is_none() {
            effects.diagnose(Level::Error, "no back buffer to write on the front socket".to_owned());
            return WriteStep::Done(SessionResult::CloseSession);
        }
        if back.nothing_to_send() {
            self.back_readiness.wait_for(Kind::Readable);
            self.front_readiness.ignore(Kind::Writable);
            return WriteStep::Done(SessionResult::Continue);
        }
        WriteStep::Write(Progress { sz: 0, output_size: back.output_data_size })
    }

    /// A write of the session's own answer has taken `current_sz` bytes, and
    /// has gone as `current_res` tells.
    pub fn writable_answer_written(
        &mut self,
        metrics: &mut SessionMetrics,
        cursor: AnswerCursor,
        current_sz: usize,
        current_res: SocketResult,
        effects: &mut Effects,
    ) -> (step: WriteStep)
        requires
            cursor.index + current_sz <= usize::MAX,
            old(metrics).bout + cursor.sz + current_sz <= usize::MAX,
        ensures
            old(self)@.on_answer(
                *old(metrics),
                AnswerCursor {
                    index: (cursor.index + current_sz) as usize,
                    sz: (cursor.sz + current_sz) as usize,
                    res: current_res,
                },
            ).reached(final(self)@, *final(metrics), old(effects)@, final(effects)@, step),
    {
        let next = AnswerCursor {
            index: cursor.index + current_sz,
            sz: cursor.sz + current_sz,
            res: current_res,
        };
        self.writable_default_answer(metrics, next, effects)
    }

    /// The session's own answer is sent up to `cursor`.
    pub fn writable_default_answer(
        &mut self,
        metrics: &mut SessionMetrics,
        cursor: AnswerCursor,
        effects: &mut Effects,
    ) -> (step: WriteStep)
        requires
            old(metrics).bout + cursor.sz <= usize::MAX,
        ensures
            old(self)@.on_answer(*old(metrics), cursor).reached(
                final(self)@,
                *final(metrics),
                old(effects)@,
                final(effects)@,
                step,
            ),
    {
        let len: usize = match &self.status {
            SessionStatus::Normal => {
                return WriteStep::Done(SessionResult::CloseSession);
            },
            SessionStatus::DefaultAnswer(_, answer, _) => answer.len(),
        };
        if cursor.res == SocketResult::Continue && cursor.index < len {
            return WriteStep::WriteAnswer(cursor);
        }
        effects.measure(Measure::Count(Metric::BytesOut, cursor.sz as i64));
        metrics.bout = metrics.bout + cursor.sz;
        if cursor.res != SocketResult::Continue {
            self.front_readiness.use_up(Kind::Writable);
        }
        if cursor.index == len {
            effects.emit(Effect::ServiceStop);
            self.log_default_answer_success(metrics, effects);
            self.front_readiness.reset();
            self.back_readiness.reset();
            return WriteStep::Done(SessionResult::CloseSession);
        }
        if cursor.res == SocketResult::Error {
            self.fail(metrics, "error writing default answer to front socket, closing", effects);
            WriteStep::Done(SessionResult::CloseSession)
        } else {
            match &mut self.status {
                SessionStatus::DefaultAnswer(_, _, index) => {
                    *index = cursor.index;
                },
                SessionStatus::Normal => {},
            }
            WriteStep::Done(SessionResult::Continue)
        }
    }

    /// A write of the back buffer's output has taken `current_sz` bytes, in a
    /// turn that was as far as `progress` tells, and has gone as `current_res`
    /// tells. They are consumed, and `back` measures what is left. `front_is_empty` tells of
    /// the front buffer, if there is one.
    pub fn writable_written(
        &mut self,
        metrics: &mut SessionMetrics,
        progress: Progress,
        current_sz: usize,
        current_res: SocketResult,
        back: &BufferState,
        front_is_empty: bool,
        addresses: &FrontAddresses,
        effects: &mut Effects,
    ) -> (step: WriteStep)
        requires
            old(self)@.back_buf is Some,
            old(metrics).bout + progress.sz + current_sz <= usize::MAX,
            looks_at_state(current_res, *back) ==> old(self)@.state is Some,
            old(self)@.starts_over(current_res, *back) ==> old(self)@.can_forward(addresses@),
        ensures
            old(self)@.on_written(
                *old(metrics),
                progress.after(current_sz),
                current_res,
                *back,
                front_is_empty,
                addresses@,
                final(self)@.request_id,
            ).reached(final(self)@, *final(metrics), old(effects)@, final(effects)@, step),
            if old(self)@.starts_over(current_res, *back) {
                is_request_id(final(self)@.request_id)
            } else {
                final(self)@.request_id == old(self)@.request_id
            },
    {
        let total: usize = progress.sz + current_sz;
        if current_res == SocketResult::Continue && back.output_data_size > 0 {
            // no more data in buffer, stop here
            if back.next_output_size == 0 {
                self.back_readiness.wait_for(Kind::Readable);
                self.front_readiness.ignore(Kind::Writable);
                effects.measure(Measure::Count(Metric::BytesOut, total as i64));
                metrics.bout = metrics.bout + total;
                return WriteStep::Done(SessionResult::Continue);
            }
            return WriteStep::Write(Progress { sz: total, output_size: progress.output_size });
        }
        effects.measure(Measure::Count(Metric::BytesOut, total as i64));
        metrics.bout = metrics.bout + total;
        if let Some((front_token, back_token)) = self.tokens() {
            let log_ctx = self.log_ctx.clone();
            effects.emit(
                Effect::Diagnose(
                    Level::Debug,
                    Diagnostic::FrontWrote {
                        log_ctx,
                        front: front_token,
                        back: back_token,
                        sz: total,
                        output_size: progress.output_size,
                        buffer_position: back.buffer_position,
                        restart_position: back.start_parsing_position,
                    },
                ),
            );
        }
        match current_res {
            SocketResult::Error | SocketResult::Closed => {
                self.fail(metrics, "error writing to front socket, closing", effects);
                return WriteStep::Done(SessionResult::CloseSession);
            },
            SocketResult::WouldBlock => {
                self.front_readiness.use_up(Kind::Writable);
            },
            SocketResult::Continue => {},
        }
        self.writable_turn_end(metrics, back, front_is_empty, addresses, effects)
    }

    /// A turn of writing went well.
    fn writable_turn_end(
        &mut self,
        metrics: &mut SessionMetrics,
        back: &BufferState,
        front_is_empty: bool,
        addresses: &FrontAddresses,
        effects: &mut Effects,
    ) -> (step: WriteStep)
        requires
            back.can_restart_parsing ==> old(self)@.state is Some,
            old(self)@.starts_over(SocketResult::WouldBlock, *back) ==> old(self)@.can_forward(
                addresses@,
            ),
        ensures
            old(self)@.on_turn_end(
                *old(metrics),
                *back,
                front_is_empty,
                addresses@,
                final(self)@.request_id,
            ).reached(final(self)@, *final(metrics), old(effects)@, final(effects)@, step),
            if old(self)@.starts_over(SocketResult::WouldBlock, *back) {
                is_request_id(final(self)@.request_id)
            } else {
                final(self)@.request_id == old(self)@.request_id
            },
    {
        if !back.can_restart_parsing {
            self.back_readiness.wait_for(Kind::Readable);
            return WriteStep::Done(SessionResult::Continue);
        }
        let must_continue = self.state.as_ref().unwrap().must_continue;
        if let Some(size) = must_continue {
            self.front_readiness.wait_for(Kind::Readable);
            self.front_readiness.ignore(Kind::Writable);
            if self.front_buf.is_some() {
                // we must now copy the body from front to back
                let mut note = "100-Continue => copying ".to_owned();
                append_decimal(&mut note, size);
                note.append(" of body from front to back");
                effects.diagnose(Level::Trace, note);
                effects.emit(Effect::ContinueBody(size));
                self.state().set_continued();
                return WriteStep::Done(SessionResult::Continue);
            } else {
                effects.diagnose(
                    Level::Error,
                    "got 100 continue but front buffer was already removed".to_owned(),
                );
                return WriteStep::Done(SessionResult::CloseSession);
            }
        }
        match &self.state.as_ref().unwrap().response {
            Some(ResponseState::Response)
            | Some(ResponseState::ResponseWithBody)
            | Some(ResponseState::ResponseWithBodyChunks(Chunk::Ended)) => {
                save_http_status_metric(self.get_response_status(), effects);
                self.log_request_success(metrics, effects);
                effects.emit(Effect::ResetMetrics);
                metrics.reset();
                self.writable_exchange_end(front_is_empty, addresses, effects)
            },
            // restart parsing, since there will be other chunks next, or
            // we're not done parsing the headers
            Some(ResponseState::ResponseWithBodyChunks(_))
            | Some(ResponseState::HasStatusLine)
            | Some(ResponseState::HasUpgrade)
            | Some(ResponseState::HasLength) => {
                self.back_readiness.wait_for(Kind::Readable);
                WriteStep::Done(SessionResult::Continue)
            },
            _ => {
                self.front_readiness.reset();
                self.back_readiness.reset();
                WriteStep::Done(SessionResult::CloseSession)
            },
        }
    }

    /// The whole response went to the client.
    fn writable_exchange_end(
        &mut self,
        front_is_empty: bool,
        addresses: &FrontAddresses,
        effects: &mut Effects,
    ) -> (step: WriteStep)
        requires
            old(self)@.state is Some,
            old(self)@.state->0.front_keep_alive() ==> old(self)@.can_forward(addresses@),
        ensures
            old(self)@.on_exchange_end(
                front_is_empty,
                addresses@,
                final(self)@.request_id,
            ).reached(
                final(self)@,
                SessionMetrics::zero(),
                old(effects)@,
                final(effects)@,
                step,
            ),
            if old(self)@.state->0.front_keep_alive() {
                is_request_id(final(self)@.request_id)
            } else {
                final(self)@.request_id == old(self)@.request_id
            },
    {
        let state = self.state.as_ref().unwrap();
        let front_keep_alive = state.front_keep_alive();
        let back_keep_alive = state.back_keep_alive();
        if front_keep_alive {
            if back_keep_alive {
                self.diagnose(Level::Debug, " keep alive front/back", effects);
            } else {
                self.diagnose(Level::Debug, " keep alive front", effects);
            }
            self.reset(addresses, front_is_empty, effects);
            self.front_readiness.wait_only_for(Kind::Readable);
            self.back_readiness.wait_for_end();
            if back_keep_alive {
                WriteStep::Done(SessionResult::Continue)
            } else {
                let token = self.backend_token;
                self.backend_token = None;
                WriteStep::Done(SessionResult::CloseBackend(token))
            }
        } else {
            self.diagnose(Level::Debug, " no keep alive", effects);
            self.front_readiness.reset();
            self.back_readiness.reset();
            WriteStep::Done(SessionResult::CloseSession)
        }
    }
}

} // verus!

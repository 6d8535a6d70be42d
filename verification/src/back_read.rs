//! Reading responses from the backend.

use vstd::prelude::*;

use crate::address::viewed;
use crate::buffer::BufferState;
use crate::outcome::Outcome;
use crate::readiness::Kind;
use crate::report::{
    diagnosis, Diagnostic, DiagnosticView, Effect, EffectView, Effects, Level, LogMessageView,
    SessionMetrics,
};
use crate::session::{
    Http, HttpView, ProtocolResult, SessionResult, SessionStatus, SocketResult, StickySession,
};
use crate::state::{Chunk, HttpState, HttpStateView, ResponseState, ResponseStateView};

verus! {

/// What to do next to read from the backend.
#[derive(Debug, Clone, Copy, PartialEq, Eq)]
pub enum BackReadStep {
    /// Get a back buffer from the pool.
    Checkout,
    /// Read from the backend into the back buffer.
    Read,
    Done(ProtocolResult, SessionResult),
}

/// Which part of a response is parsed.
#[derive(Debug, Clone, Copy, PartialEq, Eq, Structural)]
pub enum ResponseStage {
    /// The chunks of the body.
    Chunks,
    /// Whatever else comes.
    Rest,
}

/// What to do next with what was read from the backend.
#[derive(Debug, PartialEq, Eq)]
pub enum BackParseStep {
    /// Parse the back buffer, tell the client which backend it has if this
    /// says so, and tell the new state.
    Parse(ResponseStage, Option<StickySession>),
    Done(ProtocolResult, SessionResult),
}

pub enum BackParseStepView {
    Parse(ResponseStage, Option<Seq<char>>),
    Done(ProtocolResult, SessionResult),
}

impl View for BackParseStep {
    type V = BackParseStepView;

    open spec fn view(&self) -> BackParseStepView {
        match self {
            BackParseStep::Parse(stage, sticky_session) => BackParseStepView::Parse(
                *stage,
                viewed(*sticky_session),
            ),
            BackParseStep::Done(protocol, result) => BackParseStepView::Done(*protocol, *result),
        }
    }
}

/// Whether the backend switched to a protocol that the session hands over.
pub open spec fn upgrade(protocol: Seq<char>) -> ProtocolResult {
    if protocol == "websocket"@ {
        ProtocolResult::Upgrade
    } else {
        ProtocolResult::Continue
    }
}

/// The note on a switch to another protocol.
pub open spec fn upgrade_effects(protocol: Seq<char>, is_new: bool) -> Seq<EffectView> {
    seq![EffectView::Diagnose(Level::Debug, DiagnosticView::Upgrade { protocol, is_new })]
}

fn upgrade_result(protocol: &String, is_new: bool, effects: &mut Effects) -> (r: ProtocolResult)
    ensures
        r == upgrade(protocol@),
        final(effects)@ == old(effects)@ + upgrade_effects(protocol@, is_new),
{
    let name = protocol.clone();
    effects.emit(
        Effect::Diagnose(Level::Debug, Diagnostic::Upgrade { protocol: name, is_new }),
    );
    if *protocol == "websocket".to_owned() {
        ProtocolResult::Upgrade
    } else {
        ProtocolResult::Continue
    }
}

impl<Front, Back, Buf> HttpView<Front, Back, Buf> {
    /// The backend can be read from. `space` is the room in the back buffer,
    /// if there is one.
    pub open spec fn on_back_readable(self, metrics: SessionMetrics, space: usize) -> Outcome<
        Front,
        Back,
        Buf,
        BackReadStep,
    > {
        if self.is_answering() {
            self.back_ignores(Kind::Readable).giving(
                metrics,
                BackReadStep::Done(ProtocolResult::Continue, SessionResult::Continue),
            ).followed_by(
                self.request_diagnosis(
                    Level::Error,
                    "\tsending default answer, should not read from back socket"@,
                ),
            )
        } else if self.back_buf is None {
            self.giving(metrics, BackReadStep::Checkout)
        } else {
            self.on_back_buffer(metrics, space)
        }
    }

    /// The session has a back buffer with so much room.
    pub open spec fn on_back_buffer(self, metrics: SessionMetrics, space: usize) -> Outcome<
        Front,
        Back,
        Buf,
        BackReadStep,
    > {
        if space == 0 {
            self.back_ignores(Kind::Readable).giving(
                metrics,
                BackReadStep::Done(ProtocolResult::Continue, SessionResult::Continue),
            )
        } else if self.backend is None {
            self.failing(
                LogMessageView::Text("back socket not found, closing connection"@),
                metrics,
                BackReadStep::Done(ProtocolResult::Continue, SessionResult::CloseSession),
            )
        } else {
            self.giving(metrics, BackReadStep::Read)
        }
    }

    /// The pool has given a buffer, or has none left.
    pub open spec fn on_back_checkout(
        self,
        metrics: SessionMetrics,
        buf: Option<Buf>,
        space: usize,
    ) -> Outcome<Front, Back, Buf, BackReadStep> {
        match buf {
            None => self.giving(
                metrics,
                BackReadStep::Done(ProtocolResult::Continue, SessionResult::CloseSession),
            ).followed_by(diagnosis(Level::Error, "cannot get back buffer from pool, closing"@)),
            Some(_) => HttpView { back_buf: buf, ..self }.on_back_buffer(metrics, space),
        }
    }

    /// A read has given `size` bytes, and left the back buffer as `back`
    /// tells.
    pub open spec fn on_back_read(
        self,
        metrics: SessionMetrics,
        size: usize,
        res: SocketResult,
        back: BufferState,
    ) -> Outcome<Front, Back, Buf, BackParseStepView> {
        let counted = SessionMetrics { backend_bin: (metrics.backend_bin + size) as usize, ..metrics };
        let read = if res != SocketResult::Continue || size == 0 {
            self.back_used_up(Kind::Readable)
        } else {
            self
        };
        if res == SocketResult::Error {
            read.failing(
                LogMessageView::Text("back socket read error, closing connection"@),
                counted,
                BackParseStepView::Done(ProtocolResult::Continue, SessionResult::CloseSession),
            )
        } else {
            read.on_response_data(counted, size, back)
        }.preceded_by(self.back_read_effects(size))
    }

    /// The note on a read from the backend, if its socket has a token.
    pub open spec fn back_read_effects(self, size: usize) -> Seq<EffectView> {
        match self.backend_token {
            Some(token) => seq![
                EffectView::Diagnose(
                    Level::Debug,
                    DiagnosticView::BackRead {
                        log_ctx: self.log_ctx,
                        front: self.frontend_token,
                        back: token,
                        sz: size,
                    },
                ),
            ],
            None => Seq::empty(),
        }
    }

    /// `size` bytes came into the back buffer: parse it, unless nothing of it
    /// has to be parsed.
    pub open spec fn on_response_data(
        self,
        metrics: SessionMetrics,
        size: usize,
        back: BufferState,
    ) -> Outcome<Front, Back, Buf, BackParseStepView> {
        let go_on = BackParseStepView::Done(ProtocolResult::Continue, SessionResult::Continue);
        let close = BackParseStepView::Done(ProtocolResult::Continue, SessionResult::CloseSession);
        let unsticky = HttpView { sticky_session: None, ..self };
        match self.state->0.response {
            Some(ResponseStateView::ResponseUpgrade(protocol)) => self.giving(
                metrics,
                BackParseStepView::Done(upgrade(protocol), SessionResult::Continue),
            ).followed_by(upgrade_effects(protocol, false)),
            Some(ResponseStateView::Response) => self.failing(
                LogMessageView::Text(
                    "should not go back in back_readable if the whole response was parsed"@,
                ),
                metrics,
                close,
            ),
            Some(ResponseStateView::ResponseWithBody) => if back.needs_input {
                self.front_waits(Kind::Writable).giving(metrics, go_on)
            } else {
                self.front_waits(Kind::Writable).back_ignores(Kind::Readable).giving(metrics, go_on)
            },
            Some(ResponseStateView::ResponseWithBodyChunks(Chunk::Ended)) => if size == 0 {
                self.back_ignores(Kind::Readable).giving(metrics, go_on)
            } else {
                self.failing(
                    LogMessageView::Text("back read should have stopped on chunk ended"@),
                    metrics,
                    close,
                ).preceded_by(
                    seq![
                        EffectView::Diagnose(
                            Level::Error,
                            DiagnosticView::DataAfterEnd { log_ctx: self.log_ctx },
                        ),
                    ],
                )
            },
            Some(ResponseStateView::ResponseWithBodyChunks(Chunk::Error)) => self.failing(
                LogMessageView::Text("back read should have stopped on chunk error"@),
                metrics,
                close,
            ),
            Some(ResponseStateView::ResponseWithBodyChunks(_)) => if back.needs_input {
                self.front_waits(Kind::Writable).giving(metrics, go_on)
            } else {
                unsticky.giving(
                    metrics,
                    BackParseStepView::Parse(ResponseStage::Chunks, self.sticky_session),
                )
            },
            _ => unsticky.giving(
                metrics,
                BackParseStepView::Parse(ResponseStage::Rest, self.sticky_session),
            ),
        }
    }

    /// The parser has gone over the back buffer, and has come to `state`.
    pub open spec fn on_response_parsed(
        self,
        metrics: SessionMetrics,
        stage: ResponseStage,
        state: HttpStateView,
    ) -> Outcome<Front, Back, Buf, (ProtocolResult, SessionResult)> {
        let parsed = self.with_state(state);
        let go_on = (ProtocolResult::Continue, SessionResult::Continue);
        let close = (ProtocolResult::Continue, SessionResult::CloseSession);
        if state.back_error {
            parsed.failing(
                LogMessageView::Text(
                    if stage == ResponseStage::Chunks {
                        "back socket chunk parse error, closing connection"@
                    } else {
                        "back socket parse error, closing connection"@
                    },
                ),
                metrics,
                close,
            )
        } else {
            match (stage, state.response) {
                (
                    ResponseStage::Chunks,
                    Some(ResponseStateView::ResponseWithBodyChunks(Chunk::Ended)),
                )
                | (ResponseStage::Rest, Some(ResponseStateView::Response)) => parsed.back_ignores(
                    Kind::Readable,
                ).front_waits(Kind::Writable).giving(metrics, go_on),
                (ResponseStage::Rest, Some(ResponseStateView::ResponseUpgrade(protocol))) =>
                    parsed.giving(
                        metrics,
                        (upgrade(protocol), SessionResult::Continue),
                    ).followed_by(upgrade_effects(protocol, true)),
                _ => parsed.front_waits(Kind::Writable).giving(metrics, go_on),
            }
        }
    }

    /// The backend has hung up; `back` measures the back buffer, if there is
    /// one. The session goes on as long as there is something left to pass
    /// on.
    pub open spec fn on_back_hup(self, back: BufferState) -> (Self, SessionResult) {
        let can_read = self.back_readiness.event.contains(Kind::Readable);
        let reading = if can_read { self.back_waits(Kind::Readable) } else { self };
        if self.back_buf is None {
            (self, SessionResult::CloseSession)
        } else if !back.has_no_output() {
            (reading.front_waits(Kind::Writable), SessionResult::Continue)
        } else if can_read {
            (reading, SessionResult::Continue)
        } else {
            (self, SessionResult::CloseSession)
        }
    }
}

impl<Front, Back, Buf> Http<Front, Back, Buf> {
    /// The backend can be read from. `space` is the room in the back buffer;
    /// it does not matter if there is none.
    pub fn back_readable(
        &mut self,
        metrics: &SessionMetrics,
        space: usize,
        effects: &mut Effects,
    ) -> (step: BackReadStep)
        ensures
            old(self)@.on_back_readable(*metrics, space).reached(
                final(self)@,
                *metrics,
                old(effects)@,
                final(effects)@,
                step,
            ),
    {
        match self.status {
            SessionStatus::DefaultAnswer(_, _, _) => {
                self.diagnose(Level::Error, "\tsending default answer, should not read from back socket", effects);
                self.back_readiness.ignore(Kind::Readable);
                return BackReadStep::Done(ProtocolResult::Continue, SessionResult::Continue);
            },
            SessionStatus::Normal => {},
        }
        if self.back_buf.is_none() {
            return BackReadStep::Checkout;
        }
        self.back_readable_into(metrics, space, effects)
    }

    /// The pool has given a buffer with so much room, or has none left.
    pub fn back_readable_checked_out(
        &mut self,
        metrics: &SessionMetrics,
        buf: Option<Buf>,
        space: usize,
        effects: &mut Effects,
    ) -> (step: BackReadStep)
        ensures
            old(self)@.on_back_checkout(*metrics, buf, space).reached(
                final(self)@,
                *metrics,
                old(effects)@,
                final(effects)@,
                step,
            ),
    {
        match buf {
            None => {
                effects.diagnose(Level::Error, "cannot get back buffer from pool, closing".to_owned());
                BackReadStep::Done(ProtocolResult::Continue, SessionResult::CloseSession)
            },
            Some(buf) => {
                self.back_buf = Some(buf);
                self.back_readable_into(metrics, space, effects)
            },
        }
    }

    /// The session has a back buffer with so much room.
    fn back_readable_into(
        &mut self,
        metrics: &SessionMetrics,
        space: usize,
        effects: &mut Effects,
    ) -> (step: BackReadStep)
        ensures
            old(self)@.on_back_buffer(*metrics, space).reached(
                final(self)@,
                *metrics,
                old(effects)@,
                final(effects)@,
                step,
            ),
    {
        if space == 0 {
            self.back_readiness.ignore(Kind::Readable);
            return BackReadStep::Done(ProtocolResult::Continue, SessionResult::Continue);
        }
        if self.backend.is_none() {
            self.fail(metrics, "back socket not found, closing connection", effects);
            return BackReadStep::Done(ProtocolResult::Continue, SessionResult::CloseSession);
        }
        BackReadStep::Read
    }

    /// A read from the backend has given `sz` bytes and has gone as `res`
    /// tells. They are in the back buffer, and `back` measures it.
    pub fn back_readable_read(
        &mut self,
        metrics: &mut SessionMetrics,
        sz: usize,
        res: SocketResult,
        back: &BufferState,
        effects: &mut Effects,
    ) -> (step: BackParseStep)
        requires
            old(self)@.back_buf is Some,
            old(metrics).backend_bin + sz <= usize::MAX,
            res != SocketResult::Error ==> old(self)@.state is Some
                && !old(self)@.state->0.response_is(ResponseStateView::Error),
        ensures
            old(self)@.on_back_read(*old(metrics), sz, res, *back).reached(
                final(self)@,
                *final(metrics),
                old(effects)@,
                final(effects)@,
                step@,
            ),
    {
        metrics.backend_bin = metrics.backend_bin + sz;
        if let Some((front_token, back_token)) = self.tokens() {
            let log_ctx = self.log_ctx.clone();
            effects.emit(
                Effect::Diagnose(
                    Level::Debug,
                    Diagnostic::BackRead { log_ctx, front: front_token, back: back_token, sz },
                ),
            );
        }
        if res != SocketResult::Continue || sz == 0 {
            self.back_readiness.use_up(Kind::Readable);
        }
        if res == SocketResult::Error {
            self.fail(metrics, "back socket read error, closing connection", effects);
            return BackParseStep::Done(ProtocolResult::Continue, SessionResult::CloseSession);
        }
        match &self.state.as_ref().unwrap().response {
            Some(ResponseState::ResponseUpgrade(protocol)) => {
                BackParseStep::Done(
                    upgrade_result(protocol, false, effects),
                    SessionResult::Continue,
                )
            },
            Some(ResponseState::Response) => {
                self.fail(
                    metrics,
                    "should not go back in back_readable if the whole response was parsed",
                    effects,
                );
                BackParseStep::Done(ProtocolResult::Continue, SessionResult::CloseSession)
            },
            Some(ResponseState::ResponseWithBody) => {
                self.front_readiness.wait_for(Kind::Writable);
                if !back.needs_input {
                    self.back_readiness.ignore(Kind::Readable);
                }
                BackParseStep::Done(ProtocolResult::Continue, SessionResult::Continue)
            },
            Some(ResponseState::ResponseWithBodyChunks(Chunk::Ended)) => {
                self.back_readiness.ignore(Kind::Readable);
                if sz == 0 {
                    BackParseStep::Done(ProtocolResult::Continue, SessionResult::Continue)
                } else {
                    let log_ctx = self.log_ctx.clone();
                    effects.emit(
                        Effect::Diagnose(Level::Error, Diagnostic::DataAfterEnd { log_ctx }),
                    );
                    self.fail(metrics, "back read should have stopped on chunk ended", effects);
                    BackParseStep::Done(ProtocolResult::Continue, SessionResult::CloseSession)
                }
            },
            Some(ResponseState::ResponseWithBodyChunks(Chunk::Error)) => {
                self.fail(metrics, "back read should have stopped on chunk error", effects);
                BackParseStep::Done(ProtocolResult::Continue, SessionResult::CloseSession)
            },
            Some(ResponseState::ResponseWithBodyChunks(_)) => {
                if !back.needs_input {
                    BackParseStep::Parse(ResponseStage::Chunks, self.sticky_session.take())
                } else {
                    self.front_readiness.wait_for(Kind::Writable);
                    BackParseStep::Done(ProtocolResult::Continue, SessionResult::Continue)
                }
            },
            _ => BackParseStep::Parse(ResponseStage::Rest, self.sticky_session.take()),
        }
    }

    /// The parser has gone over the back buffer, and has come to `state`.
    pub fn back_readable_parsed(
        &mut self,
        metrics: &SessionMetrics,
        stage: ResponseStage,
        state: HttpState,
        effects: &mut Effects,
    ) -> (result: (ProtocolResult, SessionResult))
        ensures
            old(self)@.on_response_parsed(*metrics, stage, state@).reached(
                final(self)@,
                *metrics,
                old(effects)@,
                final(effects)@,
                result,
            ),
    {
        let back_error = state.back_error;
        self.state = Some(state);
        if back_error {
            match stage {
                ResponseStage::Chunks => {
                    self.fail(
                        metrics,
                        "back socket chunk parse error, closing connection",
                        effects,
                    );
                },
                ResponseStage::Rest => {
                    self.fail(metrics, "back socket parse error, closing connection", effects);
                },
            }
            return (ProtocolResult::Continue, SessionResult::CloseSession);
        }
        match (stage, &self.state.as_ref().unwrap().response) {
            (
                ResponseStage::Chunks,
                Some(ResponseState::ResponseWithBodyChunks(Chunk::Ended)),
            )
            | (ResponseStage::Rest, Some(ResponseState::Response)) => {
                self.back_readiness.ignore(Kind::Readable);
            },
            (ResponseStage::Rest, Some(ResponseState::ResponseUpgrade(protocol))) => {
                return (upgrade_result(protocol, true, effects), SessionResult::Continue);
            },
            _ => {},
        }
        self.front_readiness.wait_for(Kind::Writable);
        (ProtocolResult::Continue, SessionResult::Continue)
    }

    /// The backend has hung up. `back` measures the back buffer; it does not
    /// matter if there is none.
    pub fn back_hup(&mut self, back: &BufferState) -> (result: SessionResult)
        ensures
            final(self)@ == old(self)@.on_back_hup(*back).0,
            result == old(self)@.on_back_hup(*back).1,
    {
        if self.back_buf.is_none() {
            return SessionResult::CloseSession;
        }
        if back.nothing_to_send() {
            if self.back_readiness.has_read_event() {
                self.back_readiness.wait_for(Kind::Readable);
                SessionResult::Continue
            } else {
                SessionResult::CloseSession
            }
        } else {
            self.front_readiness.wait_for(Kind::Writable);
            if self.back_readiness.has_read_event() {
                self.back_readiness.wait_for(Kind::Readable);
            }
            SessionResult::Continue
        }
    }
}

} // verus!

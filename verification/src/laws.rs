//! What holds of a session as a whole.

use mio::Token;
use vstd::prelude::*;

use crate::address::FrontAddressesView;
use crate::back_read::{BackParseStepView, BackReadStep, ResponseStage};
use crate::back_write::BackWriteStep;
use crate::buffer::BufferState;
use crate::forward::{id_line, request_header, Forwarding, Protocol};
use crate::front_read::{too_large_answer, ParseStage, ParseStep, ReadStep};
use crate::front_write::{
    bytes_out, continue_effects, looks_at_state, AnswerCursor, Progress, WriteStep,
};
use crate::outcome::Outcome;
use crate::readiness::Kind;
use crate::report::{
    diagnosis, status_effects, EffectView, Level, LogEntryView, LogKindView, MeasureView, Metric,
    ReadingsView, SessionMetrics,
};
use crate::session::{
    DefaultAnswerStatus, HttpView, ProtocolResult, SessionResult, SessionStatusView, SocketResult,
};
use crate::state::{Chunk, HttpStateView, RequestState, ResponseStateView};

verus! {

// The session's own answers.

/// A session that answers by itself does nothing else: it neither reads nor
/// writes to the backend, whatever it is told, and leaves its answer as it
/// is. To be told of the backend at all is an error, which it reports.
pub proof fn law_answering_does_nothing_else<Front, Back, Buf>(
    session: HttpView<Front, Back, Buf>,
    metrics: SessionMetrics,
    space: usize,
    buffer: BufferState,
)
    requires
        session.is_answering(),
    ensures
        ({
            let read = session.on_readable(metrics, space);
            let back_write = session.on_back_writable(metrics, buffer);
            let back_read = session.on_back_readable(metrics, space);
            &&& read.result == ReadStep::Done(SessionResult::Continue)
            &&& read.effects.len() == 0
            &&& read.session.status == session.status
            &&& read.session.front_readiness.interest.contains(Kind::Writable)
            &&& back_write.result == BackWriteStep::Done(SessionResult::Continue)
            &&& back_write.effects == session.request_diagnosis(
                Level::Error,
                "\tsending default answer, should not write to back"@,
            )
            &&& back_write.session.status == session.status
            &&& back_write.session.front_readiness.interest.contains(Kind::Writable)
            &&& back_read.result == BackReadStep::Done(
                ProtocolResult::Continue,
                SessionResult::Continue,
            )
            &&& back_read.effects == session.request_diagnosis(
                Level::Error,
                "\tsending default answer, should not read from back socket"@,
            )
            &&& back_read.session.status == session.status
        }),
{
    let back_write = session.on_back_writable(metrics, buffer);
    let back_read = session.on_back_readable(metrics, space);
    assert(back_write.effects =~= session.request_diagnosis(
        Level::Error,
        "\tsending default answer, should not write to back"@,
    ));
    assert(back_read.effects =~= session.request_diagnosis(
        Level::Error,
        "\tsending default answer, should not read from back socket"@,
    ));
}

/// A second answer takes the place of the first, but only the first counts:
/// the second is reported as an error.
pub proof fn law_last_answer_wins<Front, Back, Buf>(
    session: HttpView<Front, Back, Buf>,
    first: DefaultAnswerStatus,
    first_answer: Seq<u8>,
    second: DefaultAnswerStatus,
    second_answer: Seq<u8>,
)
    ensures
        session.answered(first, first_answer).answered(second, second_answer) == session.answered(
            second,
            second_answer,
        ),
        session.answered(first, first_answer).answer_effects(second) == diagnosis(
            Level::Error,
            "already set the default answer to "@ + first.spec_name() + ", trying to set to "@
                + second.spec_name(),
        ),
{
}

/// One write on a socket: the bytes it took and how it went.
pub struct SocketWrite {
    pub size: usize,
    pub res: SocketResult,
}

/// The bytes that the writes took together.
pub open spec fn written(writes: Seq<SocketWrite>) -> int
    decreases writes.len(),
{
    if writes.len() == 0 {
        0
    } else {
        writes[0].size + written(writes.drop_first())
    }
}

/// The cursor behind a write.
pub open spec fn after_write(cursor: AnswerCursor, write: SocketWrite) -> AnswerCursor {
    AnswerCursor {
        index: (cursor.index + write.size) as usize,
        sz: (cursor.sz + write.size) as usize,
        res: write.res,
    }
}

/// The session's own answer is sent on from `cursor`, by these writes.
pub open spec fn answer_turn<Front, Back, Buf>(
    session: HttpView<Front, Back, Buf>,
    metrics: SessionMetrics,
    cursor: AnswerCursor,
    writes: Seq<SocketWrite>,
) -> Outcome<Front, Back, Buf, WriteStep>
    decreases writes.len(),
{
    let outcome = session.on_answer(metrics, cursor);
    if outcome.result is WriteAnswer && writes.len() > 0 {
        answer_turn(session, metrics, after_write(cursor, writes[0]), writes.drop_first())
    } else {
        outcome
    }
}

/// Writes that take the session's answer to its end, and that all go well,
/// end the session: it is left idle, the log gets its entry, and exactly the
/// bytes of the answer were counted.
pub proof fn law_answer_is_sent_whole<Front, Back, Buf>(
    session: HttpView<Front, Back, Buf>,
    metrics: SessionMetrics,
    cursor: AnswerCursor,
    writes: Seq<SocketWrite>,
    status: DefaultAnswerStatus,
    answer: Seq<u8>,
    start: usize,
)
    requires
        session.status == SessionStatusView::DefaultAnswer(status, answer, start),
        cursor.res == SocketResult::Continue,
        cursor.index + written(writes) == answer.len(),
        answer.len() <= usize::MAX,
        metrics.bout + cursor.sz + written(writes) <= usize::MAX,
        forall|i: int|
            0 <= i < writes.len() ==> (#[trigger] writes[i]).res == SocketResult::Continue
                && writes[i].size > 0,
    ensures
        ({
            let outcome = answer_turn(session, metrics, cursor, writes);
            let total = (cursor.sz + written(writes)) as usize;
            let counted = SessionMetrics { bout: (metrics.bout + total) as usize, ..metrics };
            &&& outcome.result == WriteStep::Done(SessionResult::CloseSession)
            &&& outcome.session == session.idle()
            &&& outcome.metrics == counted
            &&& outcome.effects == bytes_out(total).push(EffectView::ServiceStop).push(
                EffectView::Log(session.log_entry(LogKindView::DefaultAnswer, counted)),
            )
        }),
    decreases writes.len(),
{
    if writes.len() > 0 {
        let rest = writes.drop_first();
        lemma_written_is_positive(rest);
        assert(writes[0].res == SocketResult::Continue);
        let next = after_write(cursor, writes[0]);
        assert forall|i: int| 0 <= i < rest.len() implies (#[trigger] rest[i]).res
            == SocketResult::Continue && rest[i].size > 0 by {
            assert(rest[i] == writes[i + 1]);
        }
        law_answer_is_sent_whole(session, metrics, next, rest, status, answer, start);
    } else {
        let outcome = answer_turn(session, metrics, cursor, writes);
        let counted = SessionMetrics { bout: (metrics.bout + cursor.sz) as usize, ..metrics };
        assert(outcome.effects =~= bytes_out(cursor.sz).push(EffectView::ServiceStop).push(
            EffectView::Log(session.log_entry(LogKindView::DefaultAnswer, counted)),
        ));
    }
}

/// The bytes that the client gets of the session's own answer when these
/// writes are made from `index` on, each of which takes its bytes from the
/// front of what is left.
pub open spec fn received<Front, Back, Buf>(
    session: HttpView<Front, Back, Buf>,
    index: usize,
    writes: Seq<SocketWrite>,
) -> Seq<u8>
    decreases writes.len(),
{
    if writes.len() == 0 {
        Seq::empty()
    } else {
        session.status.answer_rest(index).take(writes[0].size as int) + received(
            session,
            (index + writes[0].size) as usize,
            writes.drop_first(),
        )
    }
}

/// A request that fills the front buffer before it has a backend is refused:
/// the session counts it, drops it, and waits for nothing but to send the
/// answer from its first byte on.
pub proof fn law_too_large_request_is_refused<Front, Back, Buf>(
    session: HttpView<Front, Back, Buf>,
    metrics: SessionMetrics,
    back: BufferState,
)
    requires
        !session.is_answering(),
        session.front_buf is Some,
        session.backend_token is None,
    ensures
        ({
            let read = session.on_readable(metrics, 0);
            let start = AnswerCursor { index: 0, sz: 0, res: SocketResult::Continue };
            &&& read.result == ReadStep::Done(SessionResult::Continue)
            &&& read.effects == seq![
                EffectView::Measure(MeasureView::Incr(Metric::Errors413)),
            ]
            &&& read.session == session.answered(
                DefaultAnswerStatus::Answer413,
                too_large_answer(),
            )
            &&& read.session.status.answer_rest(0) == too_large_answer()
            &&& read.session.on_writable(metrics, back) == read.session.on_answer(metrics, start)
        }),
{
    let read = session.on_readable(metrics, 0);
    assert(read.effects =~= seq![EffectView::Measure(MeasureView::Incr(Metric::Errors413))]);
    assert(read.session.status.answer_rest(0) =~= too_large_answer());
}

proof fn lemma_written_is_positive(writes: Seq<SocketWrite>)
    ensures
        written(writes) >= 0,
    decreases writes.len(),
{
    if writes.len() > 0 {
        lemma_written_is_positive(writes.drop_first());
    }
}

/// How many of the writes a turn makes that sends the session's own answer on
/// from `cursor`.
pub open spec fn writes_made<Front, Back, Buf>(
    session: HttpView<Front, Back, Buf>,
    metrics: SessionMetrics,
    cursor: AnswerCursor,
    writes: Seq<SocketWrite>,
) -> nat
    decreases writes.len(),
{
    if session.on_answer(metrics, cursor).result is WriteAnswer && writes.len() > 0 {
        1 + writes_made(session, metrics, after_write(cursor, writes[0]), writes.drop_first())
    } else {
        0
    }
}

/// No write that a turn makes takes more bytes than it is offered.
pub open spec fn within_offer<Front, Back, Buf>(
    session: HttpView<Front, Back, Buf>,
    metrics: SessionMetrics,
    cursor: AnswerCursor,
    writes: Seq<SocketWrite>,
) -> bool
    decreases writes.len(),
{
    if session.on_answer(metrics, cursor).result is WriteAnswer && writes.len() > 0 {
        &&& writes[0].size <= session.status.answer_rest(cursor.index).len()
        &&& within_offer(
            session,
            metrics,
            after_write(cursor, writes[0]),
            writes.drop_first(),
        )
    } else {
        true
    }
}

/// How the last of the writes went that were made from `cursor` on.
pub open spec fn last_res(cursor: AnswerCursor, made: Seq<SocketWrite>) -> SocketResult {
    if made.len() == 0 {
        cursor.res
    } else {
        made.last().res
    }
}

/// A turn at the session's own answer, whatever its writes, gives the client
/// a stretch of the answer that begins where the turn began. When the turn
/// ends, exactly these bytes are counted. The session goes on only while some
/// of the answer is left, and then keeps the index where it is left off; it
/// closes when the whole answer is sent, and otherwise only on an error.
pub proof fn law_answer_turn_counts_its_bytes<Front, Back, Buf>(
    session: HttpView<Front, Back, Buf>,
    metrics: SessionMetrics,
    cursor: AnswerCursor,
    writes: Seq<SocketWrite>,
    status: DefaultAnswerStatus,
    answer: Seq<u8>,
    start: usize,
)
    requires
        session.status == SessionStatusView::DefaultAnswer(status, answer, start),
        cursor.index <= answer.len() <= usize::MAX,
        within_offer(session, metrics, cursor, writes),
        metrics.bout + cursor.sz + answer.len() - cursor.index <= usize::MAX,
    ensures
        ({
            let outcome = answer_turn(session, metrics, cursor, writes);
            let made = writes.take(writes_made(session, metrics, cursor, writes) as int);
            let end = cursor.index + written(made);
            &&& writes_made(session, metrics, cursor, writes) <= writes.len()
            &&& cursor.index <= end <= answer.len()
            &&& received(session, cursor.index, made) == answer.subrange(cursor.index as int, end)
            &&& outcome.result is Done ==> {
                &&& outcome.metrics == (SessionMetrics {
                    bout: (metrics.bout + cursor.sz + written(made)) as usize,
                    ..metrics
                })
                &&& outcome.result == WriteStep::Done(
                    if end == answer.len() || last_res(cursor, made) == SocketResult::Error {
                        SessionResult::CloseSession
                    } else {
                        SessionResult::Continue
                    },
                )
            }
            &&& outcome.session.status == if outcome.result == WriteStep::Done(
                SessionResult::Continue,
            ) {
                SessionStatusView::DefaultAnswer(status, answer, end as usize)
            } else {
                session.status
            }
        }),
    decreases writes.len(),
{
    let count = writes_made(session, metrics, cursor, writes);
    let made = writes.take(count as int);
    if session.on_answer(metrics, cursor).result is WriteAnswer && writes.len() > 0 {
        let rest = writes.drop_first();
        let next = after_write(cursor, writes[0]);
        law_answer_turn_counts_its_bytes(session, metrics, next, rest, status, answer, start);
        let rest_made = rest.take(writes_made(session, metrics, next, rest) as int);
        assert(made.drop_first() =~= rest_made);
        assert(made[0] == writes[0]);
        if rest_made.len() > 0 {
            assert(made.last() == rest_made.last());
        }
        assert(received(session, cursor.index, made) =~= answer.subrange(
            cursor.index as int,
            cursor.index + written(made),
        ));
    } else {
        assert(made.len() == 0);
        assert(received(session, cursor.index, made) =~= answer.subrange(
            cursor.index as int,
            cursor.index as int,
        ));
    }
}

/// Where a turn at the session's own answer starts.
pub open spec fn turn_start<Front, Back, Buf>(session: HttpView<Front, Back, Buf>) -> AnswerCursor {
    AnswerCursor {
        index: session.status->DefaultAnswer_2,
        sz: 0,
        res: SocketResult::Continue,
    }
}

/// What several turns at the session's own answer come to: what the client
/// has received in them, how the last write went, and the session, the byte
/// counts and the result after it.
#[verifier::ext_equal]
pub struct AnswerSent<Front, Back, Buf> {
    pub received: Seq<u8>,
    pub last: SocketResult,
    pub session: HttpView<Front, Back, Buf>,
    pub metrics: SessionMetrics,
    pub result: WriteStep,
}

/// The session's own answer is sent by these turns, each of these writes. A
/// turn follows another as long as the session continues.
pub open spec fn answer_turns<Front, Back, Buf>(
    session: HttpView<Front, Back, Buf>,
    metrics: SessionMetrics,
    turns: Seq<Seq<SocketWrite>>,
) -> AnswerSent<Front, Back, Buf>
    decreases turns.len(),
{
    if turns.len() == 0 {
        AnswerSent {
            received: Seq::empty(),
            last: SocketResult::Continue,
            session,
            metrics,
            result: WriteStep::Done(SessionResult::Continue),
        }
    } else {
        let start = turn_start(session);
        let outcome = answer_turn(session, metrics, start, turns[0]);
        let made = turns[0].take(writes_made(session, metrics, start, turns[0]) as int);
        let first = received(session, start.index, made);
        if outcome.result == WriteStep::Done(SessionResult::Continue) {
            let rest = answer_turns(outcome.session, outcome.metrics, turns.drop_first());
            AnswerSent { received: first + rest.received, ..rest }
        } else {
            AnswerSent {
                received: first,
                last: last_res(start, made),
                session: outcome.session,
                metrics: outcome.metrics,
                result: outcome.result,
            }
        }
    }
}

/// No write of the turns takes more bytes than it is offered.
pub open spec fn all_within_offer<Front, Back, Buf>(
    session: HttpView<Front, Back, Buf>,
    metrics: SessionMetrics,
    turns: Seq<Seq<SocketWrite>>,
) -> bool
    decreases turns.len(),
{
    turns.len() > 0 ==> {
        let outcome = answer_turn(session, metrics, turn_start(session), turns[0]);
        &&& within_offer(session, metrics, turn_start(session), turns[0])
        &&& outcome.result == WriteStep::Done(SessionResult::Continue) ==> all_within_offer(
            outcome.session,
            outcome.metrics,
            turns.drop_first(),
        )
    }
}

/// However many turns the session's own answer takes, the client gets its
/// bytes in order, without a gap and without a repetition, and each is
/// counted once. While the session continues, it keeps the index up to which
/// the client has the answer, and the client does not have all of it unless
/// no turn was made; a session that closes without an error has sent it all.
pub proof fn law_answer_arrives_in_order<Front, Back, Buf>(
    session: HttpView<Front, Back, Buf>,
    metrics: SessionMetrics,
    turns: Seq<Seq<SocketWrite>>,
    status: DefaultAnswerStatus,
    answer: Seq<u8>,
    start: usize,
)
    requires
        session.status == SessionStatusView::DefaultAnswer(status, answer, start),
        start <= answer.len() <= usize::MAX,
        all_within_offer(session, metrics, turns),
        metrics.bout + answer.len() - start <= usize::MAX,
    ensures
        ({
            let sent = answer_turns(session, metrics, turns);
            let end = start + sent.received.len();
            &&& end <= answer.len()
            &&& sent.received == answer.subrange(start as int, end)
            &&& sent.result is Done ==> sent.metrics == (SessionMetrics {
                bout: (metrics.bout + sent.received.len()) as usize,
                ..metrics
            })
            &&& sent.result == WriteStep::Done(SessionResult::Continue) ==> {
                &&& sent.session.status == SessionStatusView::DefaultAnswer(
                    status,
                    answer,
                    end as usize,
                )
                &&& turns.len() > 0 ==> end < answer.len()
            }
            &&& sent.result is Done && turns.len() > 0 && end == answer.len() ==> sent.result
                == WriteStep::Done(SessionResult::CloseSession)
            &&& sent.result == WriteStep::Done(SessionResult::CloseSession) ==> end == answer.len()
                || sent.last == SocketResult::Error
        }),
    decreases turns.len(),
{
    if turns.len() > 0 {
        let cursor = turn_start(session);
        let outcome = answer_turn(session, metrics, cursor, turns[0]);
        law_answer_turn_counts_its_bytes(
            session,
            metrics,
            cursor,
            turns[0],
            status,
            answer,
            start,
        );
        let made = turns[0].take(writes_made(session, metrics, cursor, turns[0]) as int);
        let first = received(session, start, made);
        if outcome.result == WriteStep::Done(SessionResult::Continue) {
            let middle = (start + written(made)) as usize;
            let rest = answer_turns(outcome.session, outcome.metrics, turns.drop_first());
            law_answer_arrives_in_order(
                outcome.session,
                outcome.metrics,
                turns.drop_first(),
                status,
                answer,
                middle,
            );
            assert(first + rest.received =~= answer.subrange(
                start as int,
                middle + rest.received.len(),
            ));
        }
    } else {
        assert(answer_turns(session, metrics, turns).received =~= answer.subrange(
            start as int,
            start as int,
        ));
    }
}

// Passing data on.

/// One write out of a buffer: the bytes it took, how it went, and the buffer
/// after it.
pub struct BufferWrite {
    pub size: usize,
    pub res: SocketResult,
    pub after: BufferState,
}

/// The bytes that the writes took together.
pub open spec fn passed_on(writes: Seq<BufferWrite>) -> int
    decreases writes.len(),
{
    if writes.len() == 0 {
        0
    } else {
        writes[0].size + passed_on(writes.drop_first())
    }
}

proof fn lemma_passed_on_is_positive(writes: Seq<BufferWrite>)
    ensures
        passed_on(writes) >= 0,
    decreases writes.len(),
{
    if writes.len() > 0 {
        lemma_passed_on_is_positive(writes.drop_first());
    }
}

/// A turn of writing to the client, by these writes, from `progress` on.
pub open spec fn response_turn<Front, Back, Buf>(
    session: HttpView<Front, Back, Buf>,
    metrics: SessionMetrics,
    progress: Progress,
    writes: Seq<BufferWrite>,
    front_is_empty: bool,
    addresses: FrontAddressesView,
    next_id: Seq<char>,
) -> Outcome<Front, Back, Buf, WriteStep>
    decreases writes.len(),
{
    if writes.len() == 0 {
        session.giving(metrics, WriteStep::Write(progress))
    } else {
        let outcome = session.on_written(
            metrics,
            progress.after(writes[0].size),
            writes[0].res,
            writes[0].after,
            front_is_empty,
            addresses,
            next_id,
        );
        match outcome.result {
            WriteStep::Write(progress) => response_turn(
                outcome.session,
                outcome.metrics,
                progress,
                writes.drop_first(),
                front_is_empty,
                addresses,
                next_id,
            ),
            _ => outcome,
        }
    }
}

/// A turn of writing to the client changes nothing until it ends. When it
/// ends, the first effect counts the bytes of the writes that were made, and
/// so do the byte counts, unless the exchange ended with it.
pub proof fn law_response_turn_counts_its_bytes<Front, Back, Buf>(
    session: HttpView<Front, Back, Buf>,
    metrics: SessionMetrics,
    progress: Progress,
    writes: Seq<BufferWrite>,
    front_is_empty: bool,
    addresses: FrontAddressesView,
    next_id: Seq<char>,
) -> (made: nat)
    requires
        metrics.bout + progress.sz + passed_on(writes) <= usize::MAX,
    ensures
        made <= writes.len(),
        ({
            let outcome = response_turn(
                session,
                metrics,
                progress,
                writes,
                front_is_empty,
                addresses,
                next_id,
            );
            let total = (progress.sz + passed_on(writes.take(made as int))) as usize;
            match outcome.result {
                WriteStep::Done(_) => {
                    let last = writes[made - 1];
                    &&& made > 0
                    &&& outcome.effects.len() > 0
                    &&& outcome.effects[0] == bytes_out(total)[0]
                    &&& outcome.metrics == if session.ends_exchange(last.res, last.after) {
                        SessionMetrics::zero()
                    } else {
                        SessionMetrics { bout: (metrics.bout + total) as usize, ..metrics }
                    }
                },
                WriteStep::Write(written) => {
                    &&& made == writes.len()
                    &&& written == (Progress { sz: total, ..progress })
                    &&& outcome == session.giving(metrics, WriteStep::Write(written))
                },
                _ => false,
            }
        }),
    decreases writes.len(),
{
    assert(writes.take(0).len() == 0);
    if writes.len() == 0 {
        0
    } else {
        let rest = writes.drop_first();
        lemma_passed_on_is_positive(rest);
        let next = progress.after(writes[0].size);
        let outcome = session.on_written(
            metrics,
            next,
            writes[0].res,
            writes[0].after,
            front_is_empty,
            addresses,
            next_id,
        );
        if outcome.result is Write {
            let made_after = law_response_turn_counts_its_bytes(
                session,
                metrics,
                next,
                rest,
                front_is_empty,
                addresses,
                next_id,
            );
            let made = made_after + 1;
            assert(writes.take(made as int).drop_first() =~= rest.take(made_after as int));
            made
        } else {
            assert(writes.take(1).drop_first().len() == 0);
            assert(passed_on(writes.take(1)) == writes[0].size) by {
                reveal_with_fuel(passed_on, 2);
            }
            1
        }
    }
}

/// A turn of writing to the backend, by these writes, from `progress` on.
pub open spec fn request_turn<Front, Back, Buf>(
    session: HttpView<Front, Back, Buf>,
    metrics: SessionMetrics,
    progress: Progress,
    writes: Seq<BufferWrite>,
) -> Outcome<Front, Back, Buf, BackWriteStep>
    decreases writes.len(),
{
    if writes.len() == 0 {
        session.giving(metrics, BackWriteStep::Write(progress))
    } else {
        let outcome = session.on_back_written(
            metrics,
            progress.after(writes[0].size),
            writes[0].res,
            writes[0].after,
        );
        match outcome.result {
            BackWriteStep::Write(progress) => request_turn(
                outcome.session,
                outcome.metrics,
                progress,
                writes.drop_first(),
            ),
            _ => outcome,
        }
    }
}

/// A turn of writing to the backend changes nothing until it ends, and then
/// counts the bytes of the writes that were made.
pub proof fn law_request_turn_counts_its_bytes<Front, Back, Buf>(
    session: HttpView<Front, Back, Buf>,
    metrics: SessionMetrics,
    progress: Progress,
    writes: Seq<BufferWrite>,
) -> (made: nat)
    requires
        metrics.backend_bout + progress.sz + passed_on(writes) <= usize::MAX,
    ensures
        made <= writes.len(),
        ({
            let outcome = request_turn(session, metrics, progress, writes);
            let total = (progress.sz + passed_on(writes.take(made as int))) as usize;
            match outcome.result {
                BackWriteStep::Done(_) => outcome.metrics == (SessionMetrics {
                    backend_bout: (metrics.backend_bout + total) as usize,
                    ..metrics
                }),
                BackWriteStep::Write(written) => {
                    &&& made == writes.len()
                    &&& written == (Progress { sz: total, ..progress })
                    &&& outcome == session.giving(metrics, BackWriteStep::Write(written))
                },
            }
        }),
    decreases writes.len(),
{
    assert(writes.take(0).len() == 0);
    if writes.len() == 0 {
        0
    } else {
        let rest = writes.drop_first();
        lemma_passed_on_is_positive(rest);
        let next = progress.after(writes[0].size);
        let outcome = session.on_back_written(metrics, next, writes[0].res, writes[0].after);
        if outcome.result is Write {
            let made_after = law_request_turn_counts_its_bytes(session, metrics, next, rest);
            let made = made_after + 1;
            assert(writes.take(made as int).drop_first() =~= rest.take(made_after as int));
            made
        } else {
            assert(writes.take(1).drop_first().len() == 0);
            assert(passed_on(writes.take(1)) == writes[0].size) by {
                reveal_with_fuel(passed_on, 2);
            }
            1
        }
    }
}

/// A body that the client holds back is passed on once: the session takes it
/// over from the front buffer, listens to the client again, expects the
/// response proper, and has no body left to pass on.
pub proof fn law_held_back_body_is_passed_on_once<Front, Back, Buf>(
    session: HttpView<Front, Back, Buf>,
    metrics: SessionMetrics,
    back: BufferState,
    front_is_empty: bool,
    addresses: FrontAddressesView,
    next_id: Seq<char>,
    size: usize,
)
    requires
        back.can_restart_parsing,
        session.front_buf is Some,
        session.state is Some,
        session.state->0.request is Some,
        session.state->0.must_continue == Some(size),
    ensures
        ({
            let outcome = session.on_turn_end(metrics, back, front_is_empty, addresses, next_id);
            &&& outcome.result == WriteStep::Done(SessionResult::Continue)
            &&& outcome.effects == continue_effects(size)
            &&& outcome.metrics == metrics
            &&& outcome.session.front_buf == session.front_buf
            &&& outcome.session.front_readiness.interest.contains(Kind::Readable)
            &&& !outcome.session.front_readiness.interest.contains(Kind::Writable)
            &&& outcome.session.state->0.response_is(ResponseStateView::Initial)
            &&& outcome.session.state->0.status_line is None
            &&& outcome.session.state->0.must_continue is None
        }),
{
    let outcome = session.on_turn_end(metrics, back, front_is_empty, addresses, next_id);
    assert(outcome.effects =~= continue_effects(size));
}

/// When a whole request is sent, its buffer goes back to the pool, unless it
/// still holds data of the next request or a body that the client holds back;
/// and the session listens to the backend.
pub proof fn law_sent_request_returns_its_buffer<Front, Back, Buf>(
    session: HttpView<Front, Back, Buf>,
    metrics: SessionMetrics,
    progress: Progress,
    res: SocketResult,
    front: BufferState,
)
    requires
        looks_at_state(res, front),
        session.state is Some,
        session.state->0.request_is(RequestState::Request) || session.state->0.request_is(
            RequestState::RequestWithBody,
        ) || session.state->0.request_is(RequestState::RequestWithBodyChunks(Chunk::Ended)),
    ensures
        ({
            let outcome = session.on_back_written(metrics, progress, res, front);
            &&& outcome.result == BackWriteStep::Done(SessionResult::Continue)
            &&& outcome.session.front_buf == if front.empty
                && session.state->0.must_continue is None {
                None
            } else {
                session.front_buf
            }
            &&& !outcome.session.front_readiness.interest.contains(Kind::Readable)
            &&& outcome.session.back_readiness.interest.contains(Kind::Readable)
            &&& !outcome.session.back_readiness.interest.contains(Kind::Writable)
        }),
{
}

/// When the head of a request with a body in chunks is sent, the session goes
/// on to read the body, unless the client holds it back: then it listens to
/// the backend alone, until that asks for the body. Either way it keeps the
/// front buffer.
pub proof fn law_chunks_wait_only_if_held_back<Front, Back, Buf>(
    session: HttpView<Front, Back, Buf>,
    metrics: SessionMetrics,
    progress: Progress,
    res: SocketResult,
    front: BufferState,
)
    requires
        looks_at_state(res, front),
        session.state is Some,
        session.state->0.request_is(RequestState::RequestWithBodyChunks(Chunk::Initial)),
    ensures
        ({
            let outcome = session.on_back_written(metrics, progress, res, front);
            let back = outcome.session.back_readiness.interest;
            let reads_client = outcome.session.front_readiness.interest.contains(Kind::Readable);
            &&& outcome.result == BackWriteStep::Done(SessionResult::Continue)
            &&& outcome.session.front_buf == session.front_buf
            &&& reads_client == (session.state->0.must_continue is None)
            &&& if reads_client {
                back == session.back_readiness.interest
            } else {
                back.contains(Kind::Readable) && !back.contains(Kind::Writable)
            }
        }),
{
}

// Ends of exchanges.

/// When the response is complete, the session goes on to the client's next
/// request if the client keeps its connection, and closes otherwise. It keeps
/// the backend if that keeps its connection too, and otherwise hands the
/// backend's token over to be closed. Either way the byte counts start again.
pub proof fn law_keep_alive_decides<Front, Back, Buf>(
    session: HttpView<Front, Back, Buf>,
    front_is_empty: bool,
    addresses: FrontAddressesView,
    next_id: Seq<char>,
)
    requires
        session.state is Some,
    ensures
        ({
            let outcome = session.on_exchange_end(front_is_empty, addresses, next_id);
            let front = session.state->0.front_keep_alive();
            let back = session.state->0.back_keep_alive();
            &&& outcome.metrics == SessionMetrics::zero()
            &&& outcome.result == WriteStep::Done(
                if !front {
                    SessionResult::CloseSession
                } else if back {
                    SessionResult::Continue
                } else {
                    SessionResult::CloseBackend(session.backend_token)
                },
            )
            &&& front ==> {
                &&& outcome.session.request_id == next_id
                &&& outcome.session.front_readiness.interest.contains(Kind::Readable)
                &&& outcome.session.backend_token == if back { session.backend_token } else { None }
                &&& outcome.session.state->0.request_is(RequestState::Initial)
                &&& outcome.session.back_buf is None
            }
            &&& !front ==> outcome.session == session.idle()
        }),
{
}

/// A pipelined request is not lost: what the front buffer still holds when
/// the session is reset stays there, and counts as something to read.
pub proof fn law_reset_keeps_pipelined_data<Front, Back, Buf>(
    session: HttpView<Front, Back, Buf>,
    request_id: Seq<char>,
    addresses: FrontAddressesView,
    front_is_empty: bool,
)
    ensures
        ({
            let reset = session.after_reset(request_id, addresses, front_is_empty);
            &&& !front_is_empty ==> reset.front_buf == session.front_buf
            &&& reset.front_buf is Some ==> reset.front_readiness.event.contains(Kind::Readable)
            &&& front_is_empty ==> reset.front_buf is None
        }),
{
}

// Failures.

/// The effects log a failure.
pub open spec fn logs_failure(effects: Seq<EffectView>) -> bool {
    exists|i: int|
        0 <= i < effects.len() && #[trigger] effects[i] is Log && effects[i]->Log_0.kind is Error
}

/// The session is left without events and without interests.
pub open spec fn is_idle<Front, Back, Buf>(session: HttpView<Front, Back, Buf>) -> bool {
    session == session.idle()
}

/// Whatever the client's side logs as a failure closes the session, and
/// leaves it idle.
pub proof fn law_front_failures_close<Front, Back, Buf>(
    session: HttpView<Front, Back, Buf>,
    metrics: SessionMetrics,
    size: usize,
    progress: Progress,
    res: SocketResult,
    buffer: BufferState,
    stage: ParseStage,
    state: HttpStateView,
    cursor: AnswerCursor,
    front_is_empty: bool,
    addresses: FrontAddressesView,
    next_id: Seq<char>,
)
    ensures
        ({
            let read = session.on_front_read(metrics, size, res, buffer);
            let data = session.on_request_data(metrics, buffer);
            let parsed = session.on_request_parsed(metrics, stage, state);
            let answered = session.on_answer(metrics, cursor);
            let written = session.on_written(
                metrics,
                progress,
                res,
                buffer,
                front_is_empty,
                addresses,
                next_id,
            );
            &&& logs_failure(read.effects) ==> is_idle(read.session) && read.result
                == ParseStep::Done(SessionResult::CloseSession)
            &&& logs_failure(data.effects) ==> is_idle(data.session) && data.result
                == ParseStep::Done(SessionResult::CloseSession)
            &&& logs_failure(parsed.effects) ==> is_idle(parsed.session) && parsed.result
                == SessionResult::CloseSession
            &&& logs_failure(answered.effects) ==> is_idle(answered.session) && answered.result
                == WriteStep::Done(SessionResult::CloseSession)
            &&& logs_failure(written.effects) ==> is_idle(written.session) && written.result
                == WriteStep::Done(SessionResult::CloseSession)
        }),
{
}

/// Whatever the backend's side logs as a failure closes the session, and
/// leaves it idle.
pub proof fn law_back_failures_close<Front, Back, Buf>(
    session: HttpView<Front, Back, Buf>,
    metrics: SessionMetrics,
    size: usize,
    progress: Progress,
    res: SocketResult,
    buffer: BufferState,
    buf: Option<Buf>,
    stage: ResponseStage,
    state: HttpStateView,
)
    ensures
        ({
            let writable = session.on_back_writable(metrics, buffer);
            let written = session.on_back_written(metrics, progress, res, buffer);
            let readable = session.on_back_readable(metrics, size);
            let checkout = session.on_back_checkout(metrics, buf, size);
            let read = session.on_back_read(metrics, size, res, buffer);
            let parsed = session.on_response_parsed(metrics, stage, state);
            let close = (ProtocolResult::Continue, SessionResult::CloseSession);
            &&& logs_failure(writable.effects) ==> is_idle(writable.session) && writable.result
                == BackWriteStep::Done(SessionResult::CloseSession)
            &&& logs_failure(written.effects) ==> is_idle(written.session) && written.result
                == BackWriteStep::Done(SessionResult::CloseSession)
            &&& logs_failure(readable.effects) ==> is_idle(readable.session) && readable.result
                == BackReadStep::Done(close.0, close.1)
            &&& logs_failure(checkout.effects) ==> is_idle(checkout.session) && checkout.result
                == BackReadStep::Done(close.0, close.1)
            &&& logs_failure(read.effects) ==> is_idle(read.session) && read.result
                == BackParseStepView::Done(close.0, close.1)
            &&& logs_failure(parsed.effects) ==> is_idle(parsed.session) && parsed.result == close
        }),
{
}

// The gauge of active requests.

/// By how much the effects move the gauge of active requests.
pub open spec fn gauge_moves(effects: Seq<EffectView>) -> int
    decreases effects.len(),
{
    if effects.len() == 0 {
        0
    } else {
        let moved = match effects.last() {
            EffectView::Measure(MeasureView::GaugeAdd(Metric::ActiveRequests, n)) => n as int,
            _ => 0,
        };
        gauge_moves(effects.drop_last()) + moved
    }
}

proof fn lemma_gauge_adds_up(first: Seq<EffectView>, second: Seq<EffectView>)
    ensures
        gauge_moves(first + second) == gauge_moves(first) + gauge_moves(second),
    decreases second.len(),
{
    if second.len() == 0 {
        assert(first + second =~= first);
    } else {
        assert((first + second).drop_last() =~= first + second.drop_last());
        lemma_gauge_adds_up(first, second.drop_last());
    }
}

/// An effect leaves the gauge of active requests alone.
pub open spec fn spares_gauge(effect: EffectView) -> bool {
    !(effect matches EffectView::Measure(MeasureView::GaugeAdd(Metric::ActiveRequests, _)))
}

proof fn lemma_gauge_is_spared(effects: Seq<EffectView>)
    requires
        forall|i: int| 0 <= i < effects.len() ==> spares_gauge(#[trigger] effects[i]),
    ensures
        gauge_moves(effects) == 0,
    decreases effects.len(),
{
    if effects.len() > 0 {
        assert(spares_gauge(effects[effects.len() - 1]));
        assert forall|i: int| 0 <= i < effects.drop_last().len() implies spares_gauge(
            #[trigger] effects.drop_last()[i],
        ) by {
            assert(effects.drop_last()[i] == effects[i]);
        }
        lemma_gauge_is_spared(effects.drop_last());
    }
}

/// Parsing moves the gauge up by one when a request starts, and when the head
/// of one cannot be parsed, and never otherwise.
pub proof fn law_parsing_moves_gauge_up<Front, Back, Buf>(
    session: HttpView<Front, Back, Buf>,
    metrics: SessionMetrics,
    stage: ParseStage,
    state: HttpStateView,
)
    ensures
        gauge_moves(session.on_request_parsed(metrics, stage, state).effects) == match stage {
            ParseStage::Head { was_initial } => if state.front_error || was_initial
                && !state.request_is(RequestState::Initial) {
                1int
            } else {
                0
            },
            _ => 0,
        },
{
    reveal_with_fuel(gauge_moves, 5);
    let effects = session.on_request_parsed(metrics, stage, state).effects;
    match stage {
        ParseStage::Head { was_initial } => if state.front_error {
            assert(effects.drop_last().drop_last().drop_last().drop_last() =~= Seq::empty());
        } else if was_initial && !state.request_is(RequestState::Initial) {
            assert(effects.drop_last().drop_last() =~= Seq::empty());
        },
        _ => {},
    }
}

/// Writing to the client moves the gauge down by one when the session starts
/// over with another request, and never otherwise.
pub proof fn law_starting_over_moves_gauge_down<Front, Back, Buf>(
    session: HttpView<Front, Back, Buf>,
    metrics: SessionMetrics,
    progress: Progress,
    res: SocketResult,
    back: BufferState,
    front_is_empty: bool,
    addresses: FrontAddressesView,
    next_id: Seq<char>,
)
    requires
        looks_at_state(res, back) ==> session.state is Some,
    ensures
        gauge_moves(
            session.on_written(
                metrics,
                progress,
                res,
                back,
                front_is_empty,
                addresses,
                next_id,
            ).effects,
        ) == if session.starts_over(res, back) { -1int } else { 0 },
{
    let outcome = session.on_written(
        metrics,
        progress,
        res,
        back,
        front_is_empty,
        addresses,
        next_id,
    );
    if session.starts_over(res, back) {
        let written = if res == SocketResult::WouldBlock {
            session.front_used_up(Kind::Writable)
        } else {
            session
        };
        let counted = SessionMetrics { bout: (metrics.bout + progress.sz) as usize, ..metrics };
        let start = bytes_out(progress.sz) + session.front_wrote_effects(progress, back);
        let report = status_effects(session.state->0.status_line).push(
            EffectView::Log(written.log_entry(LogKindView::Success, counted)),
        ).push(EffectView::ResetMetrics);
        let before = start + report + written.keep_alive_note();
        assert(outcome.effects =~= before + session.reset_effects());
        lemma_gauge_adds_up(before, session.reset_effects());
        lemma_gauge_is_spared(before);
        assert(gauge_moves(session.reset_effects()) == -1) by {
            reveal_with_fuel(gauge_moves, 3);
            assert(session.reset_effects().drop_last().drop_last() =~= Seq::empty());
        }
    } else {
        lemma_gauge_is_spared(outcome.effects);
    }
}

// Events.

/// Every event of `now` was there in `before`.
pub open spec fn events_within<Front, Back, Buf>(
    now: HttpView<Front, Back, Buf>,
    before: HttpView<Front, Back, Buf>,
) -> bool {
    &&& now.front_readiness.event.subset_of(before.front_readiness.event)
    &&& now.front_readiness.other_event.subset_of(before.front_readiness.other_event)
    &&& now.back_readiness.event.subset_of(before.back_readiness.event)
    &&& now.back_readiness.other_event.subset_of(before.back_readiness.other_event)
}

/// Reading from either side uses events up, and never makes one up.
pub proof fn law_reading_makes_up_no_event<Front, Back, Buf>(
    session: HttpView<Front, Back, Buf>,
    metrics: SessionMetrics,
    size: usize,
    res: SocketResult,
    buffer: BufferState,
    buf: Option<Buf>,
    stage: ParseStage,
    response_stage: ResponseStage,
    state: HttpStateView,
)
    ensures
        events_within(session.on_readable(metrics, size).session, session),
        events_within(session.on_front_checkout(metrics, buf, size).session, session),
        events_within(session.on_front_read(metrics, size, res, buffer).session, session),
        events_within(session.on_request_parsed(metrics, stage, state).session, session),
        events_within(session.on_back_readable(metrics, size).session, session),
        events_within(session.on_back_checkout(metrics, buf, size).session, session),
        events_within(session.on_back_read(metrics, size, res, buffer).session, session),
        events_within(session.on_response_parsed(metrics, response_stage, state).session, session),
        events_within(session.on_back_hup(buffer).0, session),
{
}

/// Writing to either side uses events up. It makes one up only where data of
/// the client's next request is left to read when the session starts over.
pub proof fn law_writing_makes_up_no_event<Front, Back, Buf>(
    session: HttpView<Front, Back, Buf>,
    metrics: SessionMetrics,
    cursor: AnswerCursor,
    progress: Progress,
    res: SocketResult,
    buffer: BufferState,
    front_is_empty: bool,
    addresses: FrontAddressesView,
    next_id: Seq<char>,
)
    ensures
        events_within(session.on_writable(metrics, buffer).session, session),
        events_within(session.on_answer(metrics, cursor).session, session),
        events_within(session.on_back_writable(metrics, buffer).session, session),
        events_within(session.on_back_written(metrics, progress, res, buffer).session, session),
        !session.starts_over(res, buffer) || session.front_buf is None || front_is_empty
            ==> events_within(
            session.on_written(
                metrics,
                progress,
                res,
                buffer,
                front_is_empty,
                addresses,
                next_id,
            ).session,
            session,
        ),
{
}

// Connections and headers.

/// The session asks for a backend exactly when the head of a request, parsed
/// without an error, names its host; and then it waits to write to it.
pub proof fn law_host_calls_for_backend<Front, Back, Buf>(
    session: HttpView<Front, Back, Buf>,
    metrics: SessionMetrics,
    stage: ParseStage,
    state: HttpStateView,
)
    ensures
        ({
            let outcome = session.on_request_parsed(metrics, stage, state);
            &&& outcome.result == SessionResult::ConnectBackend <==> stage is Head
                && !state.front_error && state.has_host
            &&& outcome.result == SessionResult::ConnectBackend
                ==> outcome.session.back_readiness.interest.contains(Kind::Writable)
        }),
{
}

/// The client is told of its backend once: a session that hands its sticky
/// session to the parser has none left.
pub proof fn law_sticky_session_is_given_once<Front, Back, Buf>(
    session: HttpView<Front, Back, Buf>,
    metrics: SessionMetrics,
    size: usize,
    res: SocketResult,
    back: BufferState,
)
    ensures
        ({
            let outcome = session.on_back_read(metrics, size, res, back);
            match outcome.result {
                BackParseStepView::Parse(_, sticky_session) => {
                    &&& sticky_session == session.sticky_session
                    &&& outcome.session.sticky_session is None
                },
                BackParseStepView::Done(_, _) => outcome.session.sticky_session
                    == session.sticky_session,
            }
        }),
{
}

/// A backend that was set can be removed again, which leaves the session as
/// it was before it had one.
pub proof fn law_removing_undoes_setting_a_backend<Front, Back, Buf>(
    session: HttpView<Front, Back, Buf>,
    socket: Back,
    token: Token,
)
    requires
        session.backend is None,
        session.backend_token is None,
    ensures
        session.with_backend(socket).with_backend_token(Some(token)).without_backend() == session,
        session.with_backend_token(Some(token)).with_backend_token(None) == session,
{
}

/// Setting the application sets the log context that goes with it.
pub proof fn law_app_id_sets_log_context<Front, Back, Buf>(
    session: HttpView<Front, Back, Buf>,
    app_id: Seq<char>,
)
    ensures
        session.with_app_id(app_id).with_log_context() == session.with_app_id(app_id),
{
}

/// A request's header ends with the line that identifies the request, and a
/// response's consists of it.
pub proof fn law_request_header_identifies_request(
    forwarding: Option<Forwarding>,
    protocol: Protocol,
    request_id: Seq<char>,
)
    ensures
        id_line(request_id).is_suffix_of(request_header(forwarding, protocol, request_id)),
{
    let header = request_header(forwarding, protocol, request_id);
    let line = id_line(request_id);
    assert(header.subrange(header.len() - line.len(), header.len() as int) =~= line);
}

/// Every line of the access log begins with the context of its request.
pub proof fn law_log_line_begins_with_context(
    entry: LogEntryView,
    readings: ReadingsView,
    message: Seq<char>,
)
    ensures
        entry.log_ctx.is_prefix_of(entry.line(readings, message)),
{
    let line = entry.line(readings, message);
    assert(line.subrange(0, entry.log_ctx.len() as int) =~= entry.log_ctx);
}

// Progress.

/// A step that passes data on and lets the session continue leaves it waiting
/// for something on one of its sides.
pub proof fn law_continuing_session_waits<Front, Back, Buf>(
    session: HttpView<Front, Back, Buf>,
    metrics: SessionMetrics,
    progress: Progress,
    res: SocketResult,
    buffer: BufferState,
    stage: ParseStage,
    state: HttpStateView,
    front_is_empty: bool,
    addresses: FrontAddressesView,
    next_id: Seq<char>,
)
    ensures
        session.on_request_data(metrics, buffer).result == ParseStep::Done(SessionResult::Continue)
            ==> waits(session.on_request_data(metrics, buffer).session),
        session.on_request_parsed(metrics, stage, state).result != SessionResult::CloseSession
            ==> waits(session.on_request_parsed(metrics, stage, state).session),
        session.on_back_writable(metrics, buffer).result == BackWriteStep::Done(
            SessionResult::Continue,
        ) ==> waits(session.on_back_writable(metrics, buffer).session),
        session.on_back_written(metrics, progress, res, buffer).result == BackWriteStep::Done(
            SessionResult::Continue,
        ) ==> waits(session.on_back_written(metrics, progress, res, buffer).session),
        ({
            let written = session.on_written(
                metrics,
                progress,
                res,
                buffer,
                front_is_empty,
                addresses,
                next_id,
            );
            written.result is Done && written.result != WriteStep::Done(SessionResult::CloseSession)
                ==> waits(written.session)
        }),
        session.on_back_hup(buffer).1 == SessionResult::Continue ==> waits(
            session.on_back_hup(buffer).0,
        ),
{
}

/// The session waits to read or to write on one of its sides.
pub open spec fn waits<Front, Back, Buf>(session: HttpView<Front, Back, Buf>) -> bool {
    ||| session.front_readiness.interest.contains(Kind::Readable)
    ||| session.front_readiness.interest.contains(Kind::Writable)
    ||| session.back_readiness.interest.contains(Kind::Readable)
    ||| session.back_readiness.interest.contains(Kind::Writable)
}

} // verus!

//! What a step of a session may change, and what it has to leave alone.

use vstd::prelude::*;

use crate::readiness::{Kind, ReadinessView};
use crate::report::{
    DiagnosticView, EffectView, Level, LogKindView, LogMessageView, MeasureView, Metric,
    SessionMetrics,
};
use crate::session::HttpView;
use crate::state::{Chunk, ResponseStateView};

verus! {

/// The two sessions differ in nothing but what their sides are ready for.
pub open spec fn same_but_readiness<Front, Back, Buf>(
    before: HttpView<Front, Back, Buf>,
    after: HttpView<Front, Back, Buf>,
) -> bool {
    &&& after.frontend == before.frontend
    &&& after.backend == before.backend
    &&& after.frontend_token == before.frontend_token
    &&& after.backend_token == before.backend_token
    &&& after.status == before.status
    &&& after.state == before.state
    &&& after.front_buf == before.front_buf
    &&& after.back_buf == before.back_buf
    &&& after.app_id == before.app_id
    &&& after.request_id == before.request_id
    &&& after.log_ctx == before.log_ctx
    &&& after.public_address == before.public_address
    &&& after.session_address == before.session_address
    &&& after.sticky_name == before.sticky_name
    &&& after.sticky_session == before.sticky_session
    &&& after.protocol == before.protocol
}

/// No kind at all.
pub open spec fn no_kind() -> Set<Kind> {
    Set::empty()
}

/// This kind alone if the condition holds, else none.
pub open spec fn kind_if(condition: bool, kind: Kind) -> Set<Kind> {
    if condition {
        set![kind]
    } else {
        Set::empty()
    }
}

/// One side of a session stops to wait for the kinds in `drops`, starts to
/// wait for those in `adds`, has used up the events in `used`, and is
/// otherwise as it was.
pub open spec fn turned(
    before: ReadinessView,
    after: ReadinessView,
    adds: Set<Kind>,
    drops: Set<Kind>,
    used: Set<Kind>,
) -> bool {
    &&& after.interest =~= before.interest.difference(drops).union(adds)
    &&& after.event =~= before.event.difference(used)
    &&& after.other_interest =~= before.other_interest
    &&& after.other_event =~= before.other_event
}

/// One side of a session waits for the kinds in `interest` and for nothing
/// else.
pub open spec fn waits_just_for(side: ReadinessView, interest: Set<Kind>) -> bool {
    &&& side.interest =~= interest
    &&& side.other_interest =~= Set::<nat>::empty()
}

/// One side of a session has no event left and waits for none.
pub open spec fn is_cleared(side: ReadinessView) -> bool {
    &&& side.interest =~= Set::<Kind>::empty()
    &&& side.event =~= Set::<Kind>::empty()
    &&& side.other_interest =~= Set::<nat>::empty()
    &&& side.other_event =~= Set::<nat>::empty()
}

/// The session has come to rest and is otherwise as it was.
pub open spec fn only_cleared<Front, Back, Buf>(
    before: HttpView<Front, Back, Buf>,
    after: HttpView<Front, Back, Buf>,
) -> bool {
    &&& same_but_readiness(before, after)
    &&& is_cleared(after.front_readiness)
    &&& is_cleared(after.back_readiness)
}

/// So many more bytes came from the client.
pub open spec fn more_in(before: SessionMetrics, after: SessionMetrics, size: usize) -> bool {
    &&& after.bin == before.bin + size
    &&& after.bout == before.bout
    &&& after.backend_bin == before.backend_bin
    &&& after.backend_bout == before.backend_bout
}

/// So many more bytes went to the client.
pub open spec fn more_out(before: SessionMetrics, after: SessionMetrics, size: usize) -> bool {
    &&& after.bin == before.bin
    &&& after.bout == before.bout + size
    &&& after.backend_bin == before.backend_bin
    &&& after.backend_bout == before.backend_bout
}

/// So many more bytes came from the backend.
pub open spec fn more_back_in(before: SessionMetrics, after: SessionMetrics, size: usize) -> bool {
    &&& after.bin == before.bin
    &&& after.bout == before.bout
    &&& after.backend_bin == before.backend_bin + size
    &&& after.backend_bout == before.backend_bout
}

/// So many more bytes went to the backend.
pub open spec fn more_back_out(before: SessionMetrics, after: SessionMetrics, size: usize) -> bool {
    &&& after.bin == before.bin
    &&& after.bout == before.bout
    &&& after.backend_bin == before.backend_bin
    &&& after.backend_bout == before.backend_bout + size
}

/// The effect counts one more of these.
pub open spec fn counts_one(effect: EffectView, metric: Metric) -> bool {
    effect == EffectView::Measure(MeasureView::Incr(metric))
}

/// The effect counts so many more of these.
pub open spec fn counts(effect: EffectView, metric: Metric, n: i64) -> bool {
    effect == EffectView::Measure(MeasureView::Count(metric, n))
}

/// The effect is a line for the diagnostic log, of this level and with this
/// text.
pub open spec fn says(effect: EffectView, level: Level, text: Seq<char>) -> bool {
    effect == EffectView::Diagnose(level, DiagnosticView::Text(text))
}

/// From `start` on, the effects stop the clock and then log a failure of this
/// session with this message and these byte counts, and do nothing else.
pub open spec fn fails_with<Front, Back, Buf>(
    session: HttpView<Front, Back, Buf>,
    metrics: SessionMetrics,
    effects: Seq<EffectView>,
    start: int,
    message: Seq<char>,
) -> bool {
    &&& effects.len() == start + 2
    &&& effects[start] is ServiceStop
    &&& effects[start + 1] == EffectView::Log(
        session.log_entry(LogKindView::Error(LogMessageView::Text(message)), metrics),
    )
}

/// The backend has sent the whole of its response, or all of it that has to
/// be parsed.
pub open spec fn is_whole_response(response: Option<ResponseStateView>) -> bool {
    match response {
        Some(ResponseStateView::Response) => true,
        Some(ResponseStateView::ResponseWithBody) => true,
        Some(ResponseStateView::ResponseWithBodyChunks(chunk)) => chunk is Ended,
        _ => false,
    }
}

/// The backend has sent the beginning of its response, and more is to come.
pub open spec fn is_begun_response(response: Option<ResponseStateView>) -> bool {
    match response {
        Some(ResponseStateView::HasStatusLine) => true,
        Some(ResponseStateView::HasUpgrade) => true,
        Some(ResponseStateView::HasLength) => true,
        Some(ResponseStateView::ResponseWithBodyChunks(chunk)) => chunk is Initial
            || chunk is InProgress || chunk is Error,
        _ => false,
    }
}

/// The backend switches to another protocol.
pub open spec fn is_switch(response: Option<ResponseStateView>) -> bool {
    response matches Some(ResponseStateView::ResponseUpgrade(_))
}

/// The response is a body in chunks, of which this is the state.
pub open spec fn is_chunk(response: Option<ResponseStateView>, state: Chunk) -> bool {
    response matches Some(ResponseStateView::ResponseWithBodyChunks(chunk)) && chunk == state
}

} // verus!

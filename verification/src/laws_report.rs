//! What holds of measures, log lines, numbers and buffers.

use vstd::prelude::*;

use crate::buffer::BufferState;
use crate::elapsed::millis_in;
use crate::frame::counts_one;
use crate::readiness::readiness_text;
use crate::report::{
    front_socket_error_text, status_effects, status_metric, DetailsView, DiagnosticView,
    EffectView, LogEntryView, MeasureView, Metric, ReadingsView, SessionMetrics,
};
use crate::state::RStatusLineView;
use crate::text::decimal;

verus! {

/// The number that a row of decimal digits stands for.
pub open spec fn value_of(digits: Seq<char>) -> nat
    decreases digits.len(),
{
    if digits.len() == 0 {
        0
    } else {
        10 * value_of(digits.drop_last()) + (digits.last() as nat - '0' as nat) as nat
    }
}

/// Every character is a decimal digit.
pub open spec fn all_digits(text: Seq<char>) -> bool {
    forall|i: int| 0 <= i < text.len() ==> '0' <= #[trigger] text[i] <= '9'
}

/// The decimal notation of a number consists of digits, stands for that
/// number, and has no zero in front of another digit.
pub proof fn law_decimal_stands_for_number(n: nat)
    ensures
        all_digits(decimal(n)),
        value_of(decimal(n)) == n,
        decimal(n).len() > 0,
        decimal(n).len() > 1 ==> decimal(n)[0] != '0',
    decreases n,
{
    if n < 10 {
        assert(decimal(n).drop_last() =~= Seq::empty());
        assert(value_of(decimal(n).drop_last()) == 0);
    } else {
        law_decimal_stands_for_number(n / 10);
        assert(decimal(n).drop_last() =~= decimal(n / 10));
        if decimal(n / 10).len() == 1 {
            assert(decimal(n / 10).drop_last() =~= Seq::empty());
            assert(value_of(decimal(n / 10).drop_last()) == 0);
        }
    }
}

/// Whole milliseconds leave less than a millisecond over, and have the sign
/// of what they are counted from.
pub proof fn law_whole_millis_leave_less_than_one(nanos: i64)
    ensures
        nanos >= 0 ==> 0 <= nanos - 1_000_000 * millis_in(nanos) < 1_000_000,
        nanos <= 0 ==> 0 <= 1_000_000 * millis_in(nanos) - nanos < 1_000_000,
{
}

/// A response counts once, under the class of its status, and under none if
/// it has no status.
pub proof fn law_status_counts_under_its_class(line: RStatusLineView)
    ensures
        status_metric(line.status) == Metric::Status1xx <==> 100 <= line.status <= 199,
        status_metric(line.status) == Metric::Status2xx <==> 200 <= line.status <= 299,
        status_metric(line.status) == Metric::Status3xx <==> 300 <= line.status <= 399,
        status_metric(line.status) == Metric::Status4xx <==> 400 <= line.status <= 499,
        status_metric(line.status) == Metric::Status5xx <==> 500 <= line.status <= 599,
        status_metric(line.status) == Metric::StatusOther <==> line.status < 100 || line.status
            > 599,
        status_effects(Some(line)).len() == 1,
        counts_one(status_effects(Some(line))[0], status_metric(line.status)),
        status_effects(None).len() == 0,
{
}

/// A buffer has nothing to send unless bytes are planned and some of them are
/// there. Bytes parsed ahead are consumed as far as they have come, and no
/// further than parsing has to start again.
pub proof fn law_buffer_is_consumed_up_to_restart(buffer: BufferState)
    ensures
        buffer.has_no_output() <==> !(buffer.output_data_size > 0 && buffer.next_output_size > 0),
        buffer.parsed_ahead() is Some <==> buffer.parsed_position < buffer.start_parsing_position,
        buffer.parsed_ahead() is Some ==> {
            let size = buffer.parsed_ahead()->0;
            &&& size <= buffer.input_data_size
            &&& buffer.parsed_position + size <= buffer.start_parsing_position
            &&& size == buffer.input_data_size || buffer.parsed_position + size
                == buffer.start_parsing_position
        },
{
}

/// A line of the access log tells, in this order, the context, the two ends,
/// the times, the bytes in and out, the status, the host and the request. The
/// session's address comes before that of the socket, a missing address is a
/// dash, an own answer has no backend, and only a failure adds a message.
pub proof fn law_log_line_tells_all(
    entry: LogEntryView,
    readings: ReadingsView,
    message: Seq<char>,
)
    ensures
        ({
            let client = if entry.session_address is Some {
                entry.session_address->0.display
            } else if readings.peer is Some {
                readings.peer->0.display
            } else {
                "-"@
            };
            let backend = if entry.kind is DefaultAnswer {
                "X"@
            } else if readings.backend is Some {
                readings.backend->0.display
            } else {
                "-"@
            };
            let end = if entry.kind is Error { " | "@ + message } else { Seq::<char>::empty() };
            entry.line(readings, message) == entry.log_ctx + client + " -> "@ + backend + ("\t"@
                + readings.response_time + " "@ + readings.service_time + " "@ + decimal(
                entry.metrics.bin as nat,
            ) + " "@ + decimal(entry.metrics.bout as nat) + "\t"@ + entry.status_line + " "@
                + entry.host + " "@ + entry.request_line) + end
        }),
{
    let line = entry.line(readings, message);
    if entry.kind is Error {
        let start = line.take(line.len() - message.len() - " | "@.len());
        assert(start + " | "@ + message =~= start + (" | "@ + message));
        assert(line =~= start + (" | "@ + message));
    } else {
        assert(line + Seq::<char>::empty() =~= line);
    }
}

/// The measures of an entry: a response tells its time under its application,
/// and that of its backend with the backend's bytes if both are known; an own
/// answer tells its time only under a known application, and counts as an
/// error; a failure counts as an error. Times are in whole milliseconds.
pub proof fn law_log_entry_is_measured(entry: LogEntryView, readings: ReadingsView)
    ensures
        ({
            let measures = entry.measures(readings);
            let millis = millis_in(readings.response_nanos);
            let from_backend = readings.backend_id is Some
                && readings.backend_response_nanos is Some;
            let error = EffectView::Measure(MeasureView::Incr(Metric::Errors));
            &&& entry.kind is Success ==> {
                let app_id = if entry.app_id is Some { entry.app_id->0 } else { "-"@ };
                &&& measures.len() == if from_backend { 2int } else { 1 }
                &&& measures[0] == EffectView::Measure(
                    MeasureView::Time { metric: Metric::RequestTime, app_id, millis },
                )
                &&& from_backend ==> measures[1] == EffectView::Measure(
                    MeasureView::Backend {
                        app_id,
                        backend_id: readings.backend_id->0,
                        millis: millis_in(readings.backend_response_nanos->0),
                        bin: entry.metrics.backend_bin,
                        bout: entry.metrics.backend_bout,
                    },
                )
            }
            &&& entry.kind is DefaultAnswer ==> {
                &&& measures.len() == if entry.app_id is Some { 2int } else { 1 }
                &&& measures.last() == error
                &&& entry.app_id is Some ==> measures[0] == EffectView::Measure(
                    MeasureView::Time {
                        metric: Metric::DefaultAnswerTime,
                        app_id: entry.app_id->0,
                        millis,
                    },
                )
            }
            &&& entry.kind is Error ==> measures.len() == 1 && measures[0] == error
        }),
{
}

/// Byte counts start from nothing.
pub proof fn law_counts_start_from_nothing()
    ensures
        SessionMetrics::zero().bin == 0,
        SessionMetrics::zero().bout == 0,
        SessionMetrics::zero().backend_bin == 0,
        SessionMetrics::zero().backend_bout == 0,
{
}

/// A failed client socket is reported with what both sides were ready for,
/// events before interests.
pub proof fn law_socket_failure_tells_readiness(
    front_event: Seq<char>,
    front_interest: Seq<char>,
    back: Seq<char>,
)
    ensures
        front_socket_error_text(readiness_text(front_event, front_interest), back)
            == "front socket error, closing the connection. Readiness: "@ + (
        "Readiness { event: "@ + front_event + ", interest: "@ + front_interest + " }"@) + " -> "@
            + back,
{
}

/// The notes on reads, writes and closed backends tell the numbers of both
/// tokens, with a dash for one that is missing, and the bytes.
pub proof fn law_notes_tell_tokens_and_bytes(
    diagnostic: DiagnosticView,
    details: DetailsView,
    dump: Seq<char>,
)
    ensures
        ({
            let text = diagnostic.text(details, dump);
            let front = decimal(details.front as nat);
            let back = if details.back is Some {
                decimal(details.back->0 as nat)
            } else {
                "-"@
            };
            match diagnostic {
                DiagnosticView::BackendClosed { log_ctx, .. } => text == log_ctx + "\tPROXY ["@
                    + front + " -> "@ + back + "] CLOSED BACKEND"@,
                DiagnosticView::FrontWrote {
                    log_ctx,
                    sz,
                    output_size,
                    buffer_position,
                    restart_position,
                    ..
                } => text == log_ctx + "\tFRONT ["@ + front + "<-"@ + back + "]: wrote "@ + decimal(
                    sz as nat,
                ) + " bytes of "@ + decimal(output_size as nat) + ", buffer position "@ + decimal(
                    buffer_position as nat,
                ) + " restart position "@ + decimal(restart_position as nat),
                DiagnosticView::BackWrote { log_ctx, sz, output_size, .. } => text == log_ctx
                    + "\tBACK ["@ + front + "->"@ + back + "]: wrote "@ + decimal(sz as nat)
                    + " bytes of "@ + decimal(output_size as nat),
                DiagnosticView::BackRead { log_ctx, sz, .. } => text == log_ctx + "\tBACK  ["@
                    + front + "<-"@ + back + "]: read "@ + decimal(sz as nat) + " bytes"@,
                DiagnosticView::Upgrade { .. } => text == "got an upgrade state["@ + decimal(
                    details.place as nat,
                ) + "]: "@ + details.protocol,
                DiagnosticView::DataAfterEnd { log_ctx } => text == log_ctx
                    + "\tback read should have stopped on chunk ended\nstate: "@ + details.state
                    + "\ndata:"@ + dump,
                DiagnosticView::Text(_) => true,
            }
        }),
{
}

/// A diagnostic that belongs to a request begins with the context of its log
/// lines, and one that is a text is that text.
pub proof fn law_diagnostic_begins_with_context(
    diagnostic: DiagnosticView,
    details: DetailsView,
    dump: Seq<char>,
)
    ensures
        ({
            let text = diagnostic.text(details, dump);
            match diagnostic {
                DiagnosticView::Text(message) => text == message,
                DiagnosticView::Upgrade { .. } => details.protocol.is_suffix_of(text),
                DiagnosticView::DataAfterEnd { log_ctx } => log_ctx.is_prefix_of(text)
                    && dump.is_suffix_of(text),
                DiagnosticView::BackendClosed { log_ctx, .. } => log_ctx.is_prefix_of(text),
                DiagnosticView::FrontWrote { log_ctx, .. } => log_ctx.is_prefix_of(text),
                DiagnosticView::BackWrote { log_ctx, .. } => log_ctx.is_prefix_of(text),
                DiagnosticView::BackRead { log_ctx, .. } => log_ctx.is_prefix_of(text),
            }
        }),
{
    let text = diagnostic.text(details, dump);
    match diagnostic {
        DiagnosticView::Text(_) => {},
        DiagnosticView::Upgrade { .. } => {
            assert(text.subrange(text.len() - details.protocol.len(), text.len() as int)
                =~= details.protocol);
        },
        DiagnosticView::DataAfterEnd { log_ctx } => {
            assert(text.subrange(0, log_ctx.len() as int) =~= log_ctx);
            assert(text.subrange(text.len() - dump.len(), text.len() as int) =~= dump);
        },
        DiagnosticView::BackendClosed { log_ctx, .. } => {
            assert(text.subrange(0, log_ctx.len() as int) =~= log_ctx);
        },
        DiagnosticView::FrontWrote { log_ctx, .. } => {
            assert(text.subrange(0, log_ctx.len() as int) =~= log_ctx);
        },
        DiagnosticView::BackWrote { log_ctx, .. } => {
            assert(text.subrange(0, log_ctx.len() as int) =~= log_ctx);
        },
        DiagnosticView::BackRead { log_ctx, .. } => {
            assert(text.subrange(0, log_ctx.len() as int) =~= log_ctx);
        },
    }
}

} // verus!

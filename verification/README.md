# http_session

The core of an HTTP proxy session, verified with Verus. A session stands
between one client and the backend of its request. It decides when to read and
write on either side, when to connect to a backend, when to answer by itself,
when to start over with the client's next request, and when to close.

The session does no I/O. Each step takes measurements of the sockets and
buffers, changes the session, and says what to do next. What has to be done
outside, such as publishing a measure or writing a log entry, is handed out as
a list of effects.

## Layout

- `src/session.rs`: the session, its model, and its bookkeeping.
- `src/front_read.rs`, `src/front_write.rs`: the client's side.
- `src/back_read.rs`, `src/back_write.rs`: the backend's side.
- `src/outcome.rs`: what the contract of a step states.
- `src/state.rs`, `src/buffer.rs`, `src/readiness.rs`, `src/address.rs`: what
  the session reads of the parser, the buffers, the poll and the sockets.
- `src/forward.rs`, `src/request_id.rs`: the header lines that a session adds.
- `src/report.rs`, `src/elapsed.rs`, `src/hex.rs`, `src/text.rs`: measures, log
  lines and diagnostics.
- `src/laws.rs`: what holds of sessions as a whole.
- `app/`: runs a session over real sockets, buffers, parsers and clocks.

The library trusts what it states of four crates: the readiness sets of `mio`,
the identifiers of `uuid`, the durations of `time` and the hex dumps of `nom`.

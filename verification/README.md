# iscp

A client library of the iSCP v2 protocol, written in Verus: the executable code carries
`requires`/`ensures` contracts, and Verus proves them.

## Layout

- `src/` — the verified library.
  - `codes` — QoS and result codes, with their wire values and names.
  - `data_id` — data ids, their text form, and downstream filters.
  - `autogen` — the wire messages as plain structs, with the conversions between a message
    and its kinds.
  - `message` — the messages as a user sees them (uuids as numbers, spans and times in
    nanoseconds), with `reads`/`writes` relations to the wire messages, the conversions
    both ways, and the laws that what is written reads back.
  - `iscp` — the state of a connection and its streams: connect requests, the upstream
    flusher that buffers data points into chunks and keeps them until acknowledged, the
    downstream state that reads chunks and acknowledges them, the reorderer that hands
    chunks out in order, end-to-end calls and metadata. The decisions of a running stream
    are step functions from an event to the next state and the actions to take:
    `UpstreamFlusher::step` (flushes, acknowledgements, and closing after the last
    acknowledgement or the close timeout) and `DownstreamFlow::step` (chunks, periodic
    acknowledgements, and closing after the last acknowledgement completes); the
    reconnection loop's decisions are `reconnect_step`, and a stream's resume loop's are
    `resume_step` (which also times the resume out once the expiry interval has passed).
  - `duration`, `encoding`, `error`, `text`, `token_source` — small supporting types.
- `tests/` — tests of the library on concrete values.
- `app/` — ordinary Rust around the library: protocol buffer and JSON encoding of the
  wire messages, the asynchronous connection, upstream and downstream over a transport (which
  hand events to the step functions and perform the actions they return), token sources,
  and the wait between reconnections.

The only calls into outside crates from `src/` are to `uuid` (reading, writing, formatting
and parsing uuids) and `rand` (the random bits of a fresh uuid), each behind a small
trusted function whose contract states what the crate documents.

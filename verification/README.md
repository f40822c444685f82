# wreq_core

Verified core pieces of an HTTP client, written in Verus.

- `src/http2_options.rs` — HTTP/2 connection options and their builder, with
  exact contracts for every setter and laws on how window sizes and adaptive
  flow control interact.
- `src/connection.rs` — removal of the connection-specific headers that HTTP/2
  forbids, including the headers that a `Connection` value lists; proved to
  remove them all, keep every other header as it was, and be idempotent.
- `src/alpn.rs` — ALPN/ALPS protocol names and the ALPN wire encoding.
- `src/h2_stream.rs` — the decisions that drive an HTTP/2 stream: piping a
  body into it, and reading, writing and shutting down a tunnelled stream.
- `src/tls.rs`, `src/reason_phrase.rs`, `src/hash.rs`, `src/bench_support.rs` —
  TLS information, HTTP/1 reason phrases, a hash-memoizing wrapper, and
  benchmark labels.
- `src/buffers.rs`, `src/header_map.rs` — how the library sees the `bytes` and
  `http` crates' types: the trusted boundary.

`app/` holds what Verus does not check: runtimes, trait impls that need a copy
of a library type, and the drivers that make the `http2` crate's calls.

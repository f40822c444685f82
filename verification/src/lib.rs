//! Verified core pieces of an HTTP client: HTTP/2 options, header hygiene, TLS protocol lists.

pub mod alpn;
pub mod buffers;
pub mod header_map;
pub mod connection;
pub mod http2_options;
pub mod hash;
pub mod tls;
pub mod reason_phrase;
pub mod bench_support;
pub mod h2_stream;

use std::time::Duration;

use http2::frame::{PseudoId, PseudoOrder, StreamDependency, StreamId};
use wreq_core::http2_options::{Http2Options, SPEC_WINDOW_SIZE};

#[test]
fn default_options_match_documented_defaults() {
    let o = Http2Options::default();
    assert!(!o.adaptive_window);
    assert_eq!(o.initial_stream_id, None);
    assert_eq!(o.initial_conn_window_size, 5 * 1024 * 1024);
    assert_eq!(o.initial_window_size, 2 * 1024 * 1024);
    assert_eq!(o.initial_max_send_streams, 100);
    assert_eq!(o.max_frame_size, Some(16 * 1024));
    assert_eq!(o.max_header_list_size, Some(16 * 1024));
    assert_eq!(o.keep_alive_interval, None);
    assert_eq!(o.keep_alive_timeout, Duration::from_secs(20));
    assert!(!o.keep_alive_while_idle);
    assert_eq!(o.max_send_buffer_size, 1024 * 1024);
    assert_eq!(o.max_concurrent_reset_streams, None);
    assert_eq!(o.max_concurrent_streams, None);
    assert_eq!(o.header_table_size, None);
    assert_eq!(o.enable_push, None);
    assert!(o.priorities.is_none());
}

#[test]
fn builder_starts_from_default_without_frame_limit() {
    let built = Http2Options::builder().build();
    let mut expected = Http2Options::default();
    expected.max_frame_size = None;
    assert_eq!(built, expected);
    assert_eq!(built.max_header_list_size, Some(16 * 1024));
}

#[test]
fn none_leaves_options_unchanged() {
    let base = Http2Options::builder().build();
    let built = Http2Options::builder()
        .initial_window_size(None)
        .initial_connection_window_size(None)
        .initial_max_send_streams(None)
        .initial_stream_id(None)
        .max_frame_size(None)
        .header_table_size(None)
        .max_concurrent_streams(None)
        .max_pending_accept_reset_streams(None)
        .headers_stream_dependency(None)
        .headers_pseudo_order(None)
        .experimental_settings(None)
        .settings_order(None)
        .priorities(None)
        .build();
    assert_eq!(built, base);
}

#[test]
fn window_sizes_turn_adaptive_window_off() {
    let o = Http2Options::builder()
        .adaptive_window(true)
        .initial_window_size(1000)
        .build();
    assert!(!o.adaptive_window);
    assert_eq!(o.initial_window_size, 1000);
    assert_eq!(o.initial_conn_window_size, SPEC_WINDOW_SIZE);

    let o = Http2Options::builder()
        .adaptive_window(true)
        .initial_connection_window_size(Some(2000))
        .build();
    assert!(!o.adaptive_window);
    assert_eq!(o.initial_conn_window_size, 2000);
}

#[test]
fn adaptive_window_overrides_window_sizes() {
    let o = Http2Options::builder()
        .initial_window_size(1000)
        .initial_connection_window_size(2000)
        .adaptive_window(true)
        .build();
    assert!(o.adaptive_window);
    assert_eq!(o.initial_window_size, 65_535);
    assert_eq!(o.initial_conn_window_size, 65_535);

    let o = Http2Options::builder()
        .initial_window_size(1000)
        .adaptive_window(false)
        .build();
    assert!(!o.adaptive_window);
    assert_eq!(o.initial_window_size, 1000);
}

#[test]
fn setters_store_their_values() {
    let o = Http2Options::builder()
        .initial_max_send_streams(7)
        .initial_stream_id(3)
        .max_frame_size(32_768)
        .max_header_list_size(4096)
        .header_table_size(65_536)
        .max_concurrent_streams(1000)
        .keep_alive_interval(Duration::from_secs(30))
        .keep_alive_timeout(Duration::from_secs(5))
        .keep_alive_while_idle(true)
        .enable_push(false)
        .enable_connect_protocol(true)
        .no_rfc7540_priorities(true)
        .max_concurrent_reset_streams(20)
        .max_send_buf_size(2048)
        .max_pending_accept_reset_streams(50)
        .build();
    assert_eq!(o.initial_max_send_streams, 7);
    assert_eq!(o.initial_stream_id, Some(3));
    assert_eq!(o.max_frame_size, Some(32_768));
    assert_eq!(o.max_header_list_size, Some(4096));
    assert_eq!(o.header_table_size, Some(65_536));
    assert_eq!(o.max_concurrent_streams, Some(1000));
    assert_eq!(o.keep_alive_interval, Some(Duration::from_secs(30)));
    assert_eq!(o.keep_alive_timeout, Duration::from_secs(5));
    assert!(o.keep_alive_while_idle);
    assert_eq!(o.enable_push, Some(false));
    assert_eq!(o.enable_connect_protocol, Some(true));
    assert_eq!(o.no_rfc7540_priorities, Some(true));
    assert_eq!(o.max_concurrent_reset_streams, Some(20));
    assert_eq!(o.max_send_buffer_size, 2048);
    assert_eq!(o.max_pending_accept_reset_streams, Some(50));
}

#[test]
fn keep_alive_interval_none_disables() {
    let o = Http2Options::builder()
        .keep_alive_interval(Duration::from_secs(30))
        .keep_alive_interval(None)
        .build();
    assert_eq!(o.keep_alive_interval, None);
}

#[test]
fn frame_settings_are_carried_through() {
    let dep = StreamDependency::new(StreamId::zero(), 255, true);
    let order = PseudoOrder::builder()
        .extend([PseudoId::Method, PseudoId::Authority, PseudoId::Scheme, PseudoId::Path])
        .build();
    let o = Http2Options::builder()
        .headers_stream_dependency(dep)
        .headers_pseudo_order(order.clone())
        .build();
    assert_eq!(o.headers_stream_dependency, Some(dep));
    assert_eq!(o.headers_pseudo_order, Some(order));
}

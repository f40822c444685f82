//! Configuration of an HTTP/2 connection and its builder.
use vstd::prelude::*;

use core::time::Duration;
use http2::frame::{ExperimentalSettings, Priorities, PseudoOrder, SettingsOrder, StreamDependency};

verus! {

/// The pseudo-header field order of the `http2` crate.
#[verifier::external_type_specification]
#[verifier::external_body]
pub struct ExPseudoOrder(PseudoOrder);

/// The stream dependency of a HEADERS frame, of the `http2` crate.
#[verifier::external_type_specification]
#[verifier::external_body]
pub struct ExStreamDependency(StreamDependency);

/// Experimental SETTINGS parameters, of the `http2` crate.
#[verifier::external_type_specification]
#[verifier::external_body]
pub struct ExExperimentalSettings(ExperimentalSettings);

/// The order of SETTINGS parameters, of the `http2` crate.
#[verifier::external_type_specification]
#[verifier::external_body]
pub struct ExSettingsOrder(SettingsOrder);

/// A list of PRIORITY frames, of the `http2` crate.
#[verifier::external_type_specification]
#[verifier::external_body]
pub struct ExPriorities(Priorities);

/// The duration that `Duration::from_secs` makes of a number of seconds.
pub uninterp spec fn duration_from_secs(secs: u64) -> Duration;

/// `Duration::from_secs`: a duration of whole seconds.
pub assume_specification[ Duration::from_secs ](secs: u64) -> (d: Duration)
    ensures
        d == duration_from_secs(secs),
;

/// `Duration::clone`: a duration is `Copy`, so its clone is the same duration.
pub assume_specification[ <Duration as Clone>::clone ](d: &Duration) -> (r: Duration)
    ensures
        r == *d,
;

/// `PseudoOrder::clone` (derived by the `http2` crate).
pub assume_specification[ <PseudoOrder as Clone>::clone ](o: &PseudoOrder) -> PseudoOrder;

/// `StreamDependency::clone` (derived by the `http2` crate).
pub assume_specification[ <StreamDependency as Clone>::clone ](d: &StreamDependency) -> StreamDependency;

/// `ExperimentalSettings::clone` (derived by the `http2` crate).
pub assume_specification[ <ExperimentalSettings as Clone>::clone ](s: &ExperimentalSettings) -> ExperimentalSettings;

/// `SettingsOrder::clone` (derived by the `http2` crate).
pub assume_specification[ <SettingsOrder as Clone>::clone ](o: &SettingsOrder) -> SettingsOrder;

/// `Priorities::clone` (derived by the `http2` crate).
pub assume_specification[ <Priorities as Clone>::clone ](p: &Priorities) -> Priorities;

/// Default initial stream window size defined in the HTTP/2 specification.
pub const SPEC_WINDOW_SIZE: u32 = 65_535;

/// Default connection-level window: 5 MiB.
pub const DEFAULT_CONN_WINDOW: u32 = 1024 * 1024 * 5;

/// Default stream-level window: 2 MiB.
pub const DEFAULT_STREAM_WINDOW: u32 = 1024 * 1024 * 2;

/// Default maximum frame size: 16 KiB.
pub const DEFAULT_MAX_FRAME_SIZE: u32 = 1024 * 16;

/// Default maximum send buffer size: 1 MiB.
pub const DEFAULT_MAX_SEND_BUF_SIZE: usize = 1024 * 1024;

/// Default maximum header list size: 16 KiB.
pub const DEFAULT_MAX_HEADER_LIST_SIZE: u32 = 1024 * 16;

/// The number of streams that the client may open before the peer's first
/// SETTINGS frame arrives: the minimum that the HTTP/2 specification
/// recommends endpoints to advertise.
pub const DEFAULT_INITIAL_MAX_SEND_STREAMS: usize = 100;

/// The timeout for a keep-alive ping's acknowledgement, in seconds.
pub const DEFAULT_KEEP_ALIVE_TIMEOUT_SECS: u64 = 20;

/// A setting argument that may be given as a value or as an optional value.
pub trait IntoOption<T>: Sized {
    /// The optional value that the argument stands for.
    spec fn as_option(self) -> Option<T>;

    /// The argument as an optional value.
    fn into_option(self) -> (r: Option<T>)
        ensures
            r == self.as_option(),
    ;
}

impl<T> IntoOption<T> for Option<T> {
    open spec fn as_option(self) -> Option<T> {
        self
    }

    fn into_option(self) -> (r: Option<T>) {
        self
    }
}

impl IntoOption<u32> for u32 {
    open spec fn as_option(self) -> Option<u32> {
        Some(self)
    }

    fn into_option(self) -> (r: Option<u32>) {
        Some(self)
    }
}

impl IntoOption<usize> for usize {
    open spec fn as_option(self) -> Option<usize> {
        Some(self)
    }

    fn into_option(self) -> (r: Option<usize>) {
        Some(self)
    }
}

impl IntoOption<Duration> for Duration {
    open spec fn as_option(self) -> Option<Duration> {
        Some(self)
    }

    fn into_option(self) -> (r: Option<Duration>) {
        Some(self)
    }
}

impl IntoOption<StreamDependency> for StreamDependency {
    open spec fn as_option(self) -> Option<StreamDependency> {
        Some(self)
    }

    fn into_option(self) -> (r: Option<StreamDependency>) {
        Some(self)
    }
}

impl IntoOption<PseudoOrder> for PseudoOrder {
    open spec fn as_option(self) -> Option<PseudoOrder> {
        Some(self)
    }

    fn into_option(self) -> (r: Option<PseudoOrder>) {
        Some(self)
    }
}

impl IntoOption<ExperimentalSettings> for ExperimentalSettings {
    open spec fn as_option(self) -> Option<ExperimentalSettings> {
        Some(self)
    }

    fn into_option(self) -> (r: Option<ExperimentalSettings>) {
        Some(self)
    }
}

impl IntoOption<SettingsOrder> for SettingsOrder {
    open spec fn as_option(self) -> Option<SettingsOrder> {
        Some(self)
    }

    fn into_option(self) -> (r: Option<SettingsOrder>) {
        Some(self)
    }
}

impl IntoOption<Priorities> for Priorities {
    open spec fn as_option(self) -> Option<Priorities> {
        Some(self)
    }

    fn into_option(self) -> (r: Option<Priorities>) {
        Some(self)
    }
}

/// Configuration for an HTTP/2 connection.
///
/// This struct defines various parameters to fine-tune the behavior of an HTTP/2 connection,
/// including stream management, window sizes, frame limits, and header config.
#[derive(Debug, Clone, Hash, PartialEq, Eq)]
#[non_exhaustive]
pub struct Http2Options {
    /// Whether to use adaptive flow control.
    pub adaptive_window: bool,
    /// The initial stream ID for the connection.
    pub initial_stream_id: Option<u32>,
    /// The initial window size for HTTP/2 connection-level flow control.
    pub initial_conn_window_size: u32,
    /// The initial window size for HTTP/2 streams.
    pub initial_window_size: u32,
    /// The initial maximum number of locally initiated (send) streams.
    pub initial_max_send_streams: usize,
    /// The maximum frame size to use for HTTP/2.
    pub max_frame_size: Option<u32>,
    /// The interval for HTTP/2 keep-alive ping frames.
    pub keep_alive_interval: Option<Duration>,
    /// The timeout for receiving an acknowledgement of the keep-alive ping.
    pub keep_alive_timeout: Duration,
    /// Whether HTTP/2 keep-alive should apply while the connection is idle.
    pub keep_alive_while_idle: bool,
    /// The maximum number of concurrent locally reset streams.
    pub max_concurrent_reset_streams: Option<usize>,
    /// The maximum size of the send buffer for HTTP/2 streams.
    pub max_send_buffer_size: usize,
    /// The maximum number of concurrent streams initiated by the remote peer.
    pub max_concurrent_streams: Option<u32>,
    /// The maximum size of the header list.
    pub max_header_list_size: Option<u32>,
    /// The maximum number of pending accept reset streams.
    pub max_pending_accept_reset_streams: Option<usize>,
    /// Whether to enable push promises.
    pub enable_push: Option<bool>,
    /// The header table size for HPACK compression.
    pub header_table_size: Option<u32>,
    /// Whether to enable the CONNECT protocol.
    pub enable_connect_protocol: Option<bool>,
    /// Whether to disable RFC 7540 Stream Priorities.
    pub no_rfc7540_priorities: Option<bool>,
    /// The HTTP/2 pseudo-header field order for outgoing HEADERS frames.
    pub headers_pseudo_order: Option<PseudoOrder>,
    /// The stream dependency for the outgoing HEADERS frame.
    pub headers_stream_dependency: Option<StreamDependency>,
    /// Custom experimental HTTP/2 settings.
    pub experimental_settings: Option<ExperimentalSettings>,
    /// The order of settings parameters in the initial SETTINGS frame.
    pub settings_order: Option<SettingsOrder>,
    /// The list of PRIORITY frames to be sent after connection establishment.
    pub priorities: Option<Priorities>,
}

/// The default configuration.
pub open spec fn default_options() -> Http2Options {
    Http2Options {
        adaptive_window: false,
        initial_stream_id: None,
        initial_conn_window_size: DEFAULT_CONN_WINDOW,
        initial_window_size: DEFAULT_STREAM_WINDOW,
        initial_max_send_streams: DEFAULT_INITIAL_MAX_SEND_STREAMS,
        max_frame_size: Some(DEFAULT_MAX_FRAME_SIZE),
        max_header_list_size: Some(DEFAULT_MAX_HEADER_LIST_SIZE),
        keep_alive_interval: None,
        keep_alive_timeout: duration_from_secs(DEFAULT_KEEP_ALIVE_TIMEOUT_SECS),
        keep_alive_while_idle: false,
        max_concurrent_reset_streams: None,
        max_send_buffer_size: DEFAULT_MAX_SEND_BUF_SIZE,
        max_pending_accept_reset_streams: None,
        header_table_size: None,
        max_concurrent_streams: None,
        enable_push: None,
        enable_connect_protocol: None,
        no_rfc7540_priorities: None,
        experimental_settings: None,
        settings_order: None,
        headers_pseudo_order: None,
        headers_stream_dependency: None,
        priorities: None,
    }
}

/// The configuration that a new builder starts from: the default, with no
/// maximum frame size of its own, so that the HTTP/2 layer's default of 16 KiB
/// applies unless the builder's caller sets one. The header list keeps its
/// default limit of 16 KiB.
pub open spec fn builder_start_options() -> Http2Options {
    Http2Options { max_frame_size: None, ..default_options() }
}

/// The configuration once a stream-level window size is given: a given size
/// replaces the window and turns adaptive flow control off.
pub open spec fn with_initial_window_size(o: Http2Options, sz: Option<u32>) -> Http2Options {
    match sz {
        Some(sz) => Http2Options { adaptive_window: false, initial_window_size: sz, ..o },
        None => o,
    }
}

/// The configuration once a connection-level window size is given: a given size
/// replaces the window and turns adaptive flow control off.
pub open spec fn with_initial_connection_window_size(o: Http2Options, sz: Option<u32>) -> Http2Options {
    match sz {
        Some(sz) => Http2Options { adaptive_window: false, initial_conn_window_size: sz, ..o },
        None => o,
    }
}

/// The configuration once adaptive flow control is switched: switching it on
/// resets both windows to the size that the specification gives.
pub open spec fn with_adaptive_window(o: Http2Options, enabled: bool) -> Http2Options {
    if enabled {
        Http2Options {
            adaptive_window: true,
            initial_window_size: SPEC_WINDOW_SIZE,
            initial_conn_window_size: SPEC_WINDOW_SIZE,
            ..o
        }
    } else {
        Http2Options { adaptive_window: false, ..o }
    }
}

impl Default for Http2Options {
    fn default() -> (r: Self)
        ensures
            r == default_options(),
    {
        Http2Options {
            adaptive_window: false,
            initial_stream_id: None,
            initial_conn_window_size: DEFAULT_CONN_WINDOW,
            initial_window_size: DEFAULT_STREAM_WINDOW,
            initial_max_send_streams: DEFAULT_INITIAL_MAX_SEND_STREAMS,
            max_frame_size: Some(DEFAULT_MAX_FRAME_SIZE),
            max_header_list_size: Some(DEFAULT_MAX_HEADER_LIST_SIZE),
            keep_alive_interval: None,
            keep_alive_timeout: Duration::from_secs(DEFAULT_KEEP_ALIVE_TIMEOUT_SECS),
            keep_alive_while_idle: false,
            max_concurrent_reset_streams: None,
            max_send_buffer_size: DEFAULT_MAX_SEND_BUF_SIZE,
            max_pending_accept_reset_streams: None,
            header_table_size: None,
            max_concurrent_streams: None,
            enable_push: None,
            enable_connect_protocol: None,
            no_rfc7540_priorities: None,
            experimental_settings: None,
            settings_order: None,
            headers_pseudo_order: None,
            headers_stream_dependency: None,
            priorities: None,
        }
    }
}

/// Builder for `Http2Options`.
#[must_use]
#[derive(Debug)]
pub struct Http2OptionsBuilder {
    opts: Http2Options,
}

impl View for Http2OptionsBuilder {
    type V = Http2Options;

    closed spec fn view(&self) -> Http2Options {
        self.opts
    }
}

impl Http2Options {
    /// Creates a new `Http2OptionsBuilder` instance.
    pub fn builder() -> (r: Http2OptionsBuilder)
        ensures
            r@ == builder_start_options(),
    {
        // The frame size starts unset, so that the builder's caller chooses it
        // rather than inheriting the default.
        Http2OptionsBuilder {
            opts: Http2Options {
                max_frame_size: None,
                max_header_list_size: Some(DEFAULT_MAX_HEADER_LIST_SIZE),
                ..Default::default()
            },
        }
    }
}

impl Http2OptionsBuilder {
    /// Sets the `SETTINGS_INITIAL_WINDOW_SIZE` option for HTTP2
    /// stream-level flow control.
    ///
    /// Passing `None` will do nothing. A size turns adaptive flow control off.
    pub fn initial_window_size(self, sz: impl IntoOption<u32>) -> (r: Self)
        ensures
            r@ == with_initial_window_size(self@, sz.as_option()),
    {
        let mut this = self;
        if let Some(sz) = sz.into_option() {
            this.opts.adaptive_window = false;
            this.opts.initial_window_size = sz;
        }
        this
    }

    /// Sets the max connection-level flow control for HTTP2.
    ///
    /// Passing `None` will do nothing. A size turns adaptive flow control off.
    pub fn initial_connection_window_size(self, sz: impl IntoOption<u32>) -> (r: Self)
        ensures
            r@ == with_initial_connection_window_size(self@, sz.as_option()),
    {
        let mut this = self;
        if let Some(sz) = sz.into_option() {
            this.opts.adaptive_window = false;
            this.opts.initial_conn_window_size = sz;
        }
        this
    }

    /// Sets the initial maximum of locally initiated (send) streams.
    ///
    /// This value will be overwritten by the value included in the initial
    /// SETTINGS frame received from the peer as part of a connection preface.
    ///
    /// Passing `None` will do nothing.
    pub fn initial_max_send_streams(self, initial: impl IntoOption<usize>) -> (r: Self)
        ensures
            r@ == (match initial.as_option() {
                Some(n) => Http2Options { initial_max_send_streams: n, ..self@ },
                None => self@,
            }),
    {
        let mut this = self;
        if let Some(initial) = initial.into_option() {
            this.opts.initial_max_send_streams = initial;
        }
        this
    }

    /// Sets the initial stream id for the connection.
    ///
    /// Passing `None` will do nothing.
    pub fn initial_stream_id(self, id: impl IntoOption<u32>) -> (r: Self)
        ensures
            r@ == (match id.as_option() {
                Some(id) => Http2Options { initial_stream_id: Some(id), ..self@ },
                None => self@,
            }),
    {
        let mut this = self;
        if let Some(id) = id.into_option() {
            this.opts.initial_stream_id = Some(id);
        }
        this
    }

    /// Sets whether to use an adaptive flow control.
    ///
    /// Enabling this will override the limits set in
    /// `initial_window_size` and `initial_connection_window_size`.
    pub fn adaptive_window(self, enabled: bool) -> (r: Self)
        ensures
            r@ == with_adaptive_window(self@, enabled),
    {
        let mut this = self;
        this.opts.adaptive_window = enabled;
        if enabled {
            this.opts.initial_window_size = SPEC_WINDOW_SIZE;
            this.opts.initial_conn_window_size = SPEC_WINDOW_SIZE;
        }
        this
    }

    /// Sets the maximum frame size to use for HTTP2.
    ///
    /// Passing `None` will do nothing.
    pub fn max_frame_size(self, sz: impl IntoOption<u32>) -> (r: Self)
        ensures
            r@ == (match sz.as_option() {
                Some(sz) => Http2Options { max_frame_size: Some(sz), ..self@ },
                None => self@,
            }),
    {
        let mut this = self;
        if let Some(sz) = sz.into_option() {
            this.opts.max_frame_size = Some(sz);
        }
        this
    }

    /// Sets the max size of received header frames.
    ///
    /// Default is currently 16KB, but can change.
    pub fn max_header_list_size(self, max: u32) -> (r: Self)
        ensures
            r@ == (Http2Options { max_header_list_size: Some(max), ..self@ }),
    {
        let mut this = self;
        this.opts.max_header_list_size = Some(max);
        this
    }

    /// Sets the header table size.
    ///
    /// This setting informs the peer of the maximum size of the header compression
    /// table used to encode header blocks, in octets.
    ///
    /// Passing `None` will do nothing.
    pub fn header_table_size(self, size: impl IntoOption<u32>) -> (r: Self)
        ensures
            r@ == (match size.as_option() {
                Some(size) => Http2Options { header_table_size: Some(size), ..self@ },
                None => self@,
            }),
    {
        let mut this = self;
        if let Some(size) = size.into_option() {
            this.opts.header_table_size = Some(size);
        }
        this
    }

    /// Sets the maximum number of concurrent streams that the remote peer may
    /// initiate. Any value is legal, including 0.
    ///
    /// Passing `None` will do nothing.
    pub fn max_concurrent_streams(self, max: impl IntoOption<u32>) -> (r: Self)
        ensures
            r@ == (match max.as_option() {
                Some(max) => Http2Options { max_concurrent_streams: Some(max), ..self@ },
                None => self@,
            }),
    {
        let mut this = self;
        if let Some(max) = max.into_option() {
            this.opts.max_concurrent_streams = Some(max);
        }
        this
    }

    /// Sets an interval for HTTP2 Ping frames should be sent to keep a
    /// connection alive.
    ///
    /// Pass `None` to disable HTTP2 keep-alive.
    pub fn keep_alive_interval(self, interval: impl IntoOption<Duration>) -> (r: Self)
        ensures
            r@ == (Http2Options { keep_alive_interval: interval.as_option(), ..self@ }),
    {
        let mut this = self;
        this.opts.keep_alive_interval = interval.into_option();
        this
    }

    /// Sets a timeout for receiving an acknowledgement of the keep-alive ping.
    pub fn keep_alive_timeout(self, timeout: Duration) -> (r: Self)
        ensures
            r@ == (Http2Options { keep_alive_timeout: timeout, ..self@ }),
    {
        let mut this = self;
        this.opts.keep_alive_timeout = timeout;
        this
    }

    /// Sets whether HTTP2 keep-alive should apply while the connection is idle.
    pub fn keep_alive_while_idle(self, enabled: bool) -> (r: Self)
        ensures
            r@ == (Http2Options { keep_alive_while_idle: enabled, ..self@ }),
    {
        let mut this = self;
        this.opts.keep_alive_while_idle = enabled;
        this
    }

    /// Enables and disables the push feature for HTTP2.
    pub fn enable_push(self, opt: bool) -> (r: Self)
        ensures
            r@ == (Http2Options { enable_push: Some(opt), ..self@ }),
    {
        let mut this = self;
        this.opts.enable_push = Some(opt);
        this
    }

    /// Sets the enable connect protocol.
    pub fn enable_connect_protocol(self, opt: bool) -> (r: Self)
        ensures
            r@ == (Http2Options { enable_connect_protocol: Some(opt), ..self@ }),
    {
        let mut this = self;
        this.opts.enable_connect_protocol = Some(opt);
        this
    }

    /// Disable RFC 7540 Stream Priorities (set to `true` to disable).
    pub fn no_rfc7540_priorities(self, opt: bool) -> (r: Self)
        ensures
            r@ == (Http2Options { no_rfc7540_priorities: Some(opt), ..self@ }),
    {
        let mut this = self;
        this.opts.no_rfc7540_priorities = Some(opt);
        this
    }

    /// Sets the maximum number of HTTP2 concurrent locally reset streams.
    pub fn max_concurrent_reset_streams(self, max: usize) -> (r: Self)
        ensures
            r@ == (Http2Options { max_concurrent_reset_streams: Some(max), ..self@ }),
    {
        let mut this = self;
        this.opts.max_concurrent_reset_streams = Some(max);
        this
    }

    /// Set the maximum write buffer size for each HTTP/2 stream.
    ///
    /// The value must be no larger than `u32::MAX`.
    pub fn max_send_buf_size(self, max: usize) -> (r: Self)
        requires
            max <= u32::MAX,
        ensures
            r@ == (Http2Options { max_send_buffer_size: max, ..self@ }),
    {
        let mut this = self;
        this.opts.max_send_buffer_size = max;
        this
    }

    /// Configures the maximum number of pending reset streams allowed before a
    /// GOAWAY will be sent.
    ///
    /// Passing `None` will do nothing.
    pub fn max_pending_accept_reset_streams(self, max: impl IntoOption<usize>) -> (r: Self)
        ensures
            r@ == (match max.as_option() {
                Some(max) => Http2Options { max_pending_accept_reset_streams: Some(max), ..self@ },
                None => self@,
            }),
    {
        let mut this = self;
        if let Some(max) = max.into_option() {
            this.opts.max_pending_accept_reset_streams = Some(max);
        }
        this
    }

    /// Sets the stream dependency and weight for the outgoing HEADERS frame.
    ///
    /// Passing `None` will do nothing.
    pub fn headers_stream_dependency<T>(self, stream_dependency: T) -> (r: Self) where
        T: IntoOption<StreamDependency>,
        ensures
            r@ == (match stream_dependency.as_option() {
                Some(d) => Http2Options { headers_stream_dependency: Some(d), ..self@ },
                None => self@,
            }),
    {
        let mut this = self;
        if let Some(stream_dependency) = stream_dependency.into_option() {
            this.opts.headers_stream_dependency = Some(stream_dependency);
        }
        this
    }

    /// Sets the HTTP/2 pseudo-header field order for outgoing HEADERS frames.
    ///
    /// Passing `None` will do nothing.
    pub fn headers_pseudo_order<T>(self, headers_pseudo_order: T) -> (r: Self) where
        T: IntoOption<PseudoOrder>,
        ensures
            r@ == (match headers_pseudo_order.as_option() {
                Some(o) => Http2Options { headers_pseudo_order: Some(o), ..self@ },
                None => self@,
            }),
    {
        let mut this = self;
        if let Some(headers_pseudo_order) = headers_pseudo_order.into_option() {
            this.opts.headers_pseudo_order = Some(headers_pseudo_order);
        }
        this
    }

    /// Configures custom experimental HTTP/2 settings.
    ///
    /// Passing `None` will do nothing.
    pub fn experimental_settings<T>(self, experimental_settings: T) -> (r: Self) where
        T: IntoOption<ExperimentalSettings>,
        ensures
            r@ == (match experimental_settings.as_option() {
                Some(s) => Http2Options { experimental_settings: Some(s), ..self@ },
                None => self@,
            }),
    {
        let mut this = self;
        if let Some(experimental_settings) = experimental_settings.into_option() {
            this.opts.experimental_settings = Some(experimental_settings);
        }
        this
    }

    /// Sets the order of settings parameters in the initial SETTINGS frame.
    ///
    /// Passing `None` will do nothing.
    pub fn settings_order<T>(self, settings_order: T) -> (r: Self) where
        T: IntoOption<SettingsOrder>,
        ensures
            r@ == (match settings_order.as_option() {
                Some(o) => Http2Options { settings_order: Some(o), ..self@ },
                None => self@,
            }),
    {
        let mut this = self;
        if let Some(settings_order) = settings_order.into_option() {
            this.opts.settings_order = Some(settings_order);
        }
        this
    }

    /// Sets the list of PRIORITY frames to be sent immediately after the
    /// connection is established, before the first request.
    ///
    /// Passing `None` will do nothing.
    pub fn priorities<T>(self, priorities: T) -> (r: Self) where
        T: IntoOption<Priorities>,
        ensures
            r@ == (match priorities.as_option() {
                Some(p) => Http2Options { priorities: Some(p), ..self@ },
                None => self@,
            }),
    {
        let mut this = self;
        if let Some(priorities) = priorities.into_option() {
            this.opts.priorities = Some(priorities);
        }
        this
    }

    /// Builds the `Http2Options` instance.
    pub fn build(self) -> (r: Http2Options)
        ensures
            r == self@,
    {
        self.opts
    }
}

/// Switching adaptive flow control on overrides any window size given before:
/// both windows take the size that the specification gives.
pub proof fn lemma_adaptive_window_overrides_sizes(o: Http2Options, stream: Option<u32>, conn: Option<u32>)
    ensures
        ({
            let r = with_adaptive_window(
                with_initial_connection_window_size(with_initial_window_size(o, stream), conn),
                true,
            );
            &&& r.adaptive_window
            &&& r.initial_window_size == SPEC_WINDOW_SIZE
            &&& r.initial_conn_window_size == SPEC_WINDOW_SIZE
        }),
{
}

/// A window size given after adaptive flow control was switched on switches it
/// off again, and the given size stands.
pub proof fn lemma_window_size_disables_adaptive(o: Http2Options, sz: u32)
    ensures
        !with_initial_window_size(with_adaptive_window(o, true), Some(sz)).adaptive_window,
        with_initial_window_size(with_adaptive_window(o, true), Some(sz)).initial_window_size == sz,
        !with_initial_connection_window_size(with_adaptive_window(o, true), Some(sz)).adaptive_window,
        with_initial_connection_window_size(
            with_adaptive_window(o, true),
            Some(sz),
        ).initial_conn_window_size == sz,
{
}

/// A new builder differs from the default configuration only in leaving the
/// maximum frame size unset; its header list limit is the default 16 KiB.
pub proof fn lemma_builder_start_is_default_without_frame_limit()
    ensures
        (builder_start_options().max_frame_size is None),
        builder_start_options().max_header_list_size == Some(DEFAULT_MAX_HEADER_LIST_SIZE),
        DEFAULT_MAX_HEADER_LIST_SIZE == 16 * 1024,
        (Http2Options {
            max_frame_size: default_options().max_frame_size,
            ..builder_start_options()
        }) == default_options(),
{
}

/// Setting the connection-level window changes that window and switches
/// adaptive flow control off, and nothing else: the stream-level window in
/// particular keeps its value.
pub proof fn lemma_connection_window_changes_only_itself(o: Http2Options, sz: u32)
    ensures
        with_initial_connection_window_size(o, Some(sz)).initial_conn_window_size == sz,
        !with_initial_connection_window_size(o, Some(sz)).adaptive_window,
        with_initial_connection_window_size(o, Some(sz)).initial_window_size == o.initial_window_size,
        (Http2Options {
            initial_conn_window_size: o.initial_conn_window_size,
            adaptive_window: o.adaptive_window,
            ..with_initial_connection_window_size(o, Some(sz))
        }) == o,
{
}

/// Setting the stream-level window changes that window and switches adaptive
/// flow control off, and nothing else: the connection-level window in
/// particular keeps its value.
pub proof fn lemma_stream_window_changes_only_itself(o: Http2Options, sz: u32)
    ensures
        with_initial_window_size(o, Some(sz)).initial_window_size == sz,
        !with_initial_window_size(o, Some(sz)).adaptive_window,
        with_initial_window_size(o, Some(sz)).initial_conn_window_size == o.initial_conn_window_size,
        (Http2Options {
            initial_window_size: o.initial_window_size,
            adaptive_window: o.adaptive_window,
            ..with_initial_window_size(o, Some(sz))
        }) == o,
{
}

} // verus!

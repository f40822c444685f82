use wreq_core::bench_support::{
    benchmark_label, decimal_string, group_name, path_head, HttpVersion, Tls,
};

#[test]
fn labels_of_choices() {
    assert_eq!(HttpVersion::Http1.as_str(), "h1");
    assert_eq!(HttpVersion::Http2.as_str(), "h2");
    assert_eq!(Tls::Enabled.as_str(), "https");
    assert_eq!(Tls::Disabled.as_str(), "http");
}

#[test]
fn path_head_takes_the_first_segment() {
    assert_eq!(path_head("wreq::Client"), "wreq");
    assert_eq!(path_head("reqwest::async_impl::client::Client"), "reqwest");
    assert_eq!(path_head("u32"), "u32");
    assert_eq!(path_head(""), "");
    assert_eq!(path_head("::leading"), "");
    assert_eq!(path_head("a:b::c"), "a:b");
    assert_eq!(path_head("é::x"), "é");
}

#[test]
fn decimal_rendering() {
    assert_eq!(decimal_string(0), "0");
    assert_eq!(decimal_string(7), "7");
    assert_eq!(decimal_string(10), "10");
    assert_eq!(decimal_string(150), "150");
    assert_eq!(decimal_string(usize::MAX), usize::MAX.to_string());
}

#[test]
fn group_names() {
    let name = group_name(
        "Apple M2",
        "macos",
        "aarch64",
        "current_thread",
        Tls::Disabled,
        HttpVersion::Http1,
        10,
        64 * 1024,
    );
    assert_eq!(name, "Apple M2/macos_aarch64/current_thread/http/h1/10/64KB");
    let name = group_name("n/a", "linux", "x86_64", "multi_thread", Tls::Enabled, HttpVersion::Http2, 150, 1000);
    assert_eq!(name, "n/a/linux_x86_64/multi_thread/https/h2/150/0KB");
}

#[test]
fn benchmark_labels() {
    let label = benchmark_label("wreq", Tls::Enabled, HttpVersion::Http2, "single", true, 2 * 1024 * 1024);
    assert_eq!(label, "wreq_https_h2_single_stream_body_2048KB");
    let label = benchmark_label("reqwest", Tls::Disabled, HttpVersion::Http1, "multi", false, 10 * 1024);
    assert_eq!(label, "reqwest_http_h1_multi_full_body_10KB");
}

#[test]
fn bench_group_names_in_run_order() {
    let names = wreq_core::bench_support::bench_group_names("cpu", "linux", "x86_64", Tls::Enabled, HttpVersion::Http2);
    assert_eq!(names.len(), 60);
    assert_eq!(names[0], "cpu/linux_x86_64/current_thread/https/h2/10/10KB");
    assert_eq!(names[1], "cpu/linux_x86_64/multi_thread/https/h2/10/10KB");
    assert_eq!(names[2], "cpu/linux_x86_64/current_thread/https/h2/10/64KB");
    assert_eq!(names[11], "cpu/linux_x86_64/multi_thread/https/h2/10/4096KB");
    assert_eq!(names[12], "cpu/linux_x86_64/current_thread/https/h2/20/10KB");
    assert_eq!(names[59], "cpu/linux_x86_64/multi_thread/https/h2/150/4096KB");
}

#[test]
fn both_client_labels_in_run_order() {
    let labels = wreq_core::bench_support::both_client_labels(
        "wreq",
        "reqwest",
        Tls::Disabled,
        HttpVersion::Http1,
        "current_thread",
        64 * 1024,
    );
    assert_eq!(
        labels,
        vec![
            "wreq_http_h1_current_thread_full_body_64KB",
            "reqwest_http_h1_current_thread_full_body_64KB",
            "wreq_http_h1_current_thread_stream_body_64KB",
            "reqwest_http_h1_current_thread_stream_body_64KB",
        ]
    );
}

#[test]
fn stream_chunks_cover_the_body() {
    assert!(wreq_core::bench_support::stream_chunks(0).is_empty());
    assert_eq!(wreq_core::bench_support::stream_chunks(10), vec![(0, 10)]);
    assert_eq!(wreq_core::bench_support::stream_chunks(256 * 1024), vec![(0, 256 * 1024)]);
    assert_eq!(
        wreq_core::bench_support::stream_chunks(600 * 1024),
        vec![(0, 256 * 1024), (256 * 1024, 512 * 1024), (512 * 1024, 600 * 1024)]
    );
}

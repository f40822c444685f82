//! The plain choices that the benchmark harness is parameterised by, and the
//! labels it derives from them.
use vstd::prelude::*;

use vstd::string::{StrSliceExecFns, StringExecFns};

verus! {

/// The HTTP version that a benchmark speaks.
#[derive(Clone, Copy, Debug)]
pub enum HttpVersion {
    Http1,
    Http2,
}

impl HttpVersion {
    /// The label of the version: `h1` or `h2`.
    pub fn as_str(&self) -> (r: &'static str)
        ensures
            r@ == (match self {
                HttpVersion::Http1 => "h1"@,
                HttpVersion::Http2 => "h2"@,
            }),
    {
        match self {
            HttpVersion::Http1 => "h1",
            HttpVersion::Http2 => "h2",
        }
    }
}

/// Whether a benchmark runs over TLS.
#[derive(Clone, Copy, Debug)]
pub enum Tls {
    Enabled,
    Disabled,
}

impl Tls {
    /// The URL scheme that goes with the choice: `https` or `http`.
    pub fn as_str(&self) -> (r: &'static str)
        ensures
            r@ == (match self {
                Tls::Enabled => "https"@,
                Tls::Disabled => "http"@,
            }),
    {
        match self {
            Tls::Enabled => "https",
            Tls::Disabled => "http",
        }
    }
}

/// The text before the first `::`, or all of the text where it holds none: the
/// first item that `str::split("::")` yields.
pub open spec fn first_path_segment(s: Seq<char>) -> Seq<char>
    decreases s.len(),
{
    if s.len() < 2 {
        s
    } else if s[0] == ':' && s[1] == ':' {
        Seq::empty()
    } else {
        seq![s[0]] + first_path_segment(s.drop_first())
    }
}

/// The first segment of a `::`-separated path, such as the crate name at the
/// head of a type's full name.
pub fn path_head(full_name: &str) -> (r: &str)
    ensures
        r@ == first_path_segment(full_name@),
{
    let n = full_name.unicode_len();
    let mut i: usize = 0;
    assert(full_name@.subrange(0, n as int) =~= full_name@);
    assert(full_name@.subrange(0, 0) + first_path_segment(full_name@) =~= first_path_segment(
        full_name@,
    ));
    while n - i > 1
        invariant
            n == full_name@.len(),
            i <= n,
            first_path_segment(full_name@) == full_name@.subrange(0, i as int) + first_path_segment(
                full_name@.subrange(i as int, n as int),
            ),
        decreases n - i,
    {
        let ghost rest = full_name@.subrange(i as int, n as int);
        if full_name.get_char(i) == ':' && full_name.get_char(i + 1) == ':' {
            assert(rest[0] == ':' && rest[1] == ':');
            assert(full_name@.subrange(0, i as int) + Seq::<char>::empty() =~= full_name@.subrange(
                0,
                i as int,
            ));
            return full_name.substring_char(0, i);
        }
        assert(rest.drop_first() =~= full_name@.subrange(i as int + 1, n as int));
        assert(full_name@.subrange(0, i as int) + seq![rest[0]] =~= full_name@.subrange(0, i as int + 1));
        i = i + 1;
    }
    assert(full_name@.subrange(0, i as int) + full_name@.subrange(i as int, n as int) =~= full_name@);
    assert(full_name@.subrange(0, n as int) =~= full_name@);
    full_name.substring_char(0, n)
}

/// The character of a decimal digit.
pub open spec fn digit_char(d: nat) -> char {
    if d == 0 {
        '0'
    } else if d == 1 {
        '1'
    } else if d == 2 {
        '2'
    } else if d == 3 {
        '3'
    } else if d == 4 {
        '4'
    } else if d == 5 {
        '5'
    } else if d == 6 {
        '6'
    } else if d == 7 {
        '7'
    } else if d == 8 {
        '8'
    } else {
        '9'
    }
}

/// A number in decimal, as `Display` writes an unsigned integer.
pub open spec fn decimal(n: nat) -> Seq<char>
    decreases n,
{
    if n < 10 {
        seq![digit_char(n)]
    } else {
        decimal(n / 10).push(digit_char(n % 10))
    }
}

fn digit_str(d: usize) -> (r: &'static str)
    requires
        d < 10,
    ensures
        r@ == seq![digit_char(d as nat)],
{
    proof {
        reveal_strlit("0");
        reveal_strlit("1");
        reveal_strlit("2");
        reveal_strlit("3");
        reveal_strlit("4");
        reveal_strlit("5");
        reveal_strlit("6");
        reveal_strlit("7");
        reveal_strlit("8");
        reveal_strlit("9");
    }
    match d {
        0 => "0",
        1 => "1",
        2 => "2",
        3 => "3",
        4 => "4",
        5 => "5",
        6 => "6",
        7 => "7",
        8 => "8",
        _ => "9",
    }
}

/// A number in decimal.
pub fn decimal_string(n: usize) -> (r: String)
    ensures
        r@ == decimal(n as nat),
    decreases n,
{
    if n < 10 {
        String::from_str(digit_str(n))
    } else {
        let mut s = decimal_string(n / 10);
        s.append(digit_str(n % 10));
        s
    }
}

/// The name of a benchmark group:
/// `{cpu}/{os}_{arch}/{runtime}/{scheme}/{version}/{concurrency}/{body in KiB}KB`.
pub open spec fn group_name_spec(
    cpu_model: Seq<char>,
    os: Seq<char>,
    arch: Seq<char>,
    runtime: Seq<char>,
    tls: Tls,
    version: HttpVersion,
    concurrent_limit: nat,
    body_len: nat,
) -> Seq<char> {
    cpu_model + "/"@ + os + "_"@ + arch + "/"@ + runtime + "/"@ + tls_label(tls) + "/"@
        + version_label(version) + "/"@ + decimal(concurrent_limit) + "/"@ + decimal(body_len / 1024)
        + "KB"@
}

/// The label of a TLS choice.
pub open spec fn tls_label(tls: Tls) -> Seq<char> {
    match tls {
        Tls::Enabled => "https"@,
        Tls::Disabled => "http"@,
    }
}

/// The label of an HTTP version.
pub open spec fn version_label(version: HttpVersion) -> Seq<char> {
    match version {
        HttpVersion::Http1 => "h1"@,
        HttpVersion::Http2 => "h2"@,
    }
}

/// The name of a benchmark group, from the machine, the runtime flavour, the
/// protocol choices, the concurrency and the body's length in bytes.
pub fn group_name(
    cpu_model: &str,
    os: &str,
    arch: &str,
    runtime: &str,
    tls: Tls,
    version: HttpVersion,
    concurrent_limit: usize,
    body_len: usize,
) -> (r: String)
    ensures
        r@ == group_name_spec(
            cpu_model@,
            os@,
            arch@,
            runtime@,
            tls,
            version,
            concurrent_limit as nat,
            body_len as nat,
        ),
{
    let mut s = String::from_str(cpu_model);
    s.append("/");
    s.append(os);
    s.append("_");
    s.append(arch);
    s.append("/");
    s.append(runtime);
    s.append("/");
    s.append(tls.as_str());
    s.append("/");
    s.append(version.as_str());
    s.append("/");
    let c = decimal_string(concurrent_limit);
    s.append(c.as_str());
    s.append("/");
    let kb = decimal_string(body_len / 1024);
    s.append(kb.as_str());
    s.append("KB");
    s
}

/// The label of one benchmark:
/// `{client}_{scheme}_{version}_{prefix}_{stream|full}_body_{body in KiB}KB`.
pub open spec fn benchmark_label_spec(
    client: Seq<char>,
    tls: Tls,
    version: HttpVersion,
    prefix: Seq<char>,
    stream: bool,
    body_len: nat,
) -> Seq<char> {
    client + "_"@ + tls_label(tls) + "_"@ + version_label(version) + "_"@ + prefix + "_"@ + (if stream {
        "stream"@
    } else {
        "full"@
    }) + "_body_"@ + decimal(body_len / 1024) + "KB"@
}

/// The label of one benchmark, from the client's crate name, the protocol
/// choices, the label prefix, whether the body is streamed, and the body's
/// length in bytes.
pub fn benchmark_label(
    client: &str,
    tls: Tls,
    version: HttpVersion,
    prefix: &str,
    stream: bool,
    body_len: usize,
) -> (r: String)
    ensures
        r@ == benchmark_label_spec(client@, tls, version, prefix@, stream, body_len as nat),
{
    let mut s = String::from_str(client);
    s.append("_");
    s.append(tls.as_str());
    s.append("_");
    s.append(version.as_str());
    s.append("_");
    s.append(prefix);
    s.append("_");
    s.append(if stream { "stream" } else { "full" });
    s.append("_body_");
    let kb = decimal_string(body_len / 1024);
    s.append(kb.as_str());
    s.append("KB");
    s
}

/// The concurrency limits that the benchmarks run at, in order.
pub open spec fn concurrent_case(j: int) -> nat {
    seq![10nat, 20, 50, 100, 150][j]
}

/// The request body lengths that the benchmarks send, in order: 10 KiB, 64 KiB,
/// 128 KiB, 1 MiB, 2 MiB and 4 MiB.
pub open spec fn body_case_len(j: int) -> nat {
    seq![10 * 1024nat, 64 * 1024, 128 * 1024, 1024 * 1024, 2 * 1024 * 1024, 4 * 1024 * 1024][j]
}

/// The runtime flavour of a benchmark group: a single-threaded client first,
/// then a multi-threaded one.
pub open spec fn runtime_label(j: int) -> Seq<char> {
    if j == 0 {
        "current_thread"@
    } else {
        "multi_thread"@
    }
}

/// The name of the `i`th benchmark group: for each concurrency limit, for each
/// body length, a single-threaded and then a multi-threaded group.
pub open spec fn bench_group_name_at(
    cpu_model: Seq<char>,
    os: Seq<char>,
    arch: Seq<char>,
    tls: Tls,
    version: HttpVersion,
    i: int,
) -> Seq<char> {
    group_name_spec(
        cpu_model,
        os,
        arch,
        runtime_label(i % 2),
        tls,
        version,
        concurrent_case(i / 12),
        body_case_len((i / 2) % 6),
    )
}

/// The names of the benchmark groups, in the order in which they run: five
/// concurrency limits, times six body lengths, times two runtime flavours.
pub fn bench_group_names(cpu_model: &str, os: &str, arch: &str, tls: Tls, version: HttpVersion) -> (r:
    Vec<String>)
    ensures
        r@.len() == 60,
        forall|i: int|
            0 <= i < 60 ==> (#[trigger] r@[i])@ == bench_group_name_at(
                cpu_model@,
                os@,
                arch@,
                tls,
                version,
                i,
            ),
{
    let concurrent: [usize; 5] = [10, 20, 50, 100, 150];
    let bodies: [usize; 6] = [10 * 1024, 64 * 1024, 128 * 1024, 1024 * 1024, 2 * 1024 * 1024, 4 * 1024 * 1024];
    proof {
        reveal_strlit("current_thread");
        reveal_strlit("multi_thread");
    }
    let mut out: Vec<String> = Vec::new();
    let mut c: usize = 0;
    while c < 5
        invariant
            c <= 5,
            concurrent@ == seq![10usize, 20, 50, 100, 150],
            bodies@ == seq![10240usize, 65536, 131072, 1048576, 2097152, 4194304],
            out@.len() == c * 12,
            forall|i: int|
                0 <= i < out@.len() ==> (#[trigger] out@[i])@ == bench_group_name_at(
                    cpu_model@,
                    os@,
                    arch@,
                    tls,
                    version,
                    i,
                ),
        decreases 5 - c,
    {
        let mut b: usize = 0;
        while b < 6
            invariant
                c < 5,
                b <= 6,
                concurrent@ == seq![10usize, 20, 50, 100, 150],
                bodies@ == seq![10240usize, 65536, 131072, 1048576, 2097152, 4194304],
                out@.len() == c * 12 + b * 2,
                forall|i: int|
                    0 <= i < out@.len() ==> (#[trigger] out@[i])@ == bench_group_name_at(
                        cpu_model@,
                        os@,
                        arch@,
                        tls,
                        version,
                        i,
                    ),
            decreases 6 - b,
        {
            let ghost at = out@.len() as int;
            let single = group_name(
                cpu_model,
                os,
                arch,
                "current_thread",
                tls,
                version,
                concurrent[c],
                bodies[b],
            );
            let multi = group_name(
                cpu_model,
                os,
                arch,
                "multi_thread",
                tls,
                version,
                concurrent[c],
                bodies[b],
            );
            proof {
                assert(at / 12 == c as int && (at / 2) % 6 == b as int && at % 2 == 0) by (nonlinear_arith)
                    requires
                        at == c * 12 + b * 2,
                        b < 6,
                ;
                assert((at + 1) / 12 == c as int && ((at + 1) / 2) % 6 == b as int && (at + 1) % 2 == 1)
                    by (nonlinear_arith)
                    requires
                        at == c * 12 + b * 2,
                        b < 6,
                ;
                assert(concurrent_case(c as int) == concurrent@[c as int]);
                assert(body_case_len(b as int) == bodies@[b as int]);
            }
            out.push(single);
            out.push(multi);
            b = b + 1;
        }
        c = c + 1;
    }
    out
}

/// The label of the `i`th benchmark of a group: the first client with a full
/// body, the second client with a full body, then both with a streamed body.
pub open spec fn client_label_at(
    first: Seq<char>,
    second: Seq<char>,
    tls: Tls,
    version: HttpVersion,
    prefix: Seq<char>,
    body_len: nat,
    i: int,
) -> Seq<char> {
    benchmark_label_spec(
        if i % 2 == 0 {
            first
        } else {
            second
        },
        tls,
        version,
        prefix,
        i >= 2,
        body_len,
    )
}

/// The labels of the benchmarks that compare two clients, in the order in which
/// they run.
pub fn both_client_labels(
    first: &str,
    second: &str,
    tls: Tls,
    version: HttpVersion,
    prefix: &str,
    body_len: usize,
) -> (r: Vec<String>)
    ensures
        r@.len() == 4,
        forall|i: int|
            0 <= i < 4 ==> (#[trigger] r@[i])@ == client_label_at(
                first@,
                second@,
                tls,
                version,
                prefix@,
                body_len as nat,
                i,
            ),
{
    let mut out: Vec<String> = Vec::new();
    out.push(benchmark_label(first, tls, version, prefix, false, body_len));
    out.push(benchmark_label(second, tls, version, prefix, false, body_len));
    out.push(benchmark_label(first, tls, version, prefix, true, body_len));
    out.push(benchmark_label(second, tls, version, prefix, true, body_len));
    out
}

/// The size of the chunks in which a streamed benchmark body is sent: 256 KiB.
pub const STREAM_CHUNK_SIZE: usize = 256 * 1024;

/// The byte range of the `i`th chunk of a body of `len` bytes.
pub open spec fn chunk_at(len: nat, i: int) -> (int, int) {
    let start = i * STREAM_CHUNK_SIZE;
    (start, if start + STREAM_CHUNK_SIZE <= len {
        start + STREAM_CHUNK_SIZE
    } else {
        len as int
    })
}

/// The byte ranges in which a body of `len` bytes is streamed: consecutive
/// chunks of 256 KiB, the last one shorter where the length is no multiple of
/// it, and none for an empty body.
pub fn stream_chunks(len: usize) -> (r: Vec<(usize, usize)>)
    ensures
        r@.len() == (len + STREAM_CHUNK_SIZE - 1) / (STREAM_CHUNK_SIZE as int),
        forall|i: int|
            0 <= i < r@.len() ==> (#[trigger] r@[i]).0 as int == chunk_at(len as nat, i).0 && r@[i].1 as int
                == chunk_at(len as nat, i).1,
{
    let mut out: Vec<(usize, usize)> = Vec::new();
    let mut offset: usize = 0;
    while offset < len
        invariant
            offset <= len,
            offset <= out@.len() * STREAM_CHUNK_SIZE,
            out@.len() > 0 ==> (out@.len() - 1) * STREAM_CHUNK_SIZE < offset,
            offset < len ==> offset == out@.len() * STREAM_CHUNK_SIZE,
            forall|i: int|
                0 <= i < out@.len() ==> (#[trigger] out@[i]).0 as int == chunk_at(len as nat, i).0
                    && out@[i].1 as int == chunk_at(len as nat, i).1,
        decreases len - offset,
    {
        let end = if len - offset > STREAM_CHUNK_SIZE {
            offset + STREAM_CHUNK_SIZE
        } else {
            len
        };
        let ghost k = out@.len() as int;
        out.push((offset, end));
        offset = end;
        assert((k + 1) * STREAM_CHUNK_SIZE == k * STREAM_CHUNK_SIZE + STREAM_CHUNK_SIZE) by (
        nonlinear_arith);
    }
    proof {
        let n = out@.len() as int;
        assert(n == (len + STREAM_CHUNK_SIZE - 1) / (STREAM_CHUNK_SIZE as int)) by (nonlinear_arith)
            requires
                n > 0 ==> (n - 1) * STREAM_CHUNK_SIZE < len,
                n == 0 ==> len == 0,
                len <= n * STREAM_CHUNK_SIZE,
                n >= 0,
                len >= 0,
        ;
    }
    out
}

} // verus!

//! TLS application-layer protocol names (ALPN and ALPS) and their wire encoding.
use vstd::prelude::*;

use bytes::Bytes;

use crate::buffers::{
    bytes_mut_extend_from_slice, bytes_mut_freeze, bytes_mut_new, bytes_mut_put_u8,
    bytes_mut_view, bytes_view,
};

verus! {

broadcast use vstd::string::is_ascii_spec_bytes;

/// The bytes of `"http/1.1"`.
pub open spec fn http1_name() -> Seq<u8> {
    seq![104u8, 116, 116, 112, 47, 49, 46, 49]
}

/// The bytes of `"h2"`.
pub open spec fn http2_name() -> Seq<u8> {
    seq![104u8, 50]
}

/// The bytes of `"h3"`.
pub open spec fn http3_name() -> Seq<u8> {
    seq![104u8, 51]
}

/// The wire form of one protocol name in an ALPN list: a length byte, then the
/// name. The length byte keeps the low eight bits of the name's length.
pub open spec fn encode_protocol(name: Seq<u8>) -> Seq<u8> {
    seq![(name.len() % 256) as u8] + name
}

/// The wire form of a list of protocol names: each name encoded in turn.
pub open spec fn encode_protocols(names: Seq<Seq<u8>>) -> Seq<u8>
    decreases names.len(),
{
    if names.len() == 0 {
        Seq::empty()
    } else {
        encode_protocols(names.drop_last()) + encode_protocol(names.last())
    }
}

/// The names that a slice of protocols holds, in order.
pub open spec fn protocol_names(items: Seq<AlpnProtocol>) -> Seq<Seq<u8>> {
    items.map_values(|p: AlpnProtocol| p@)
}

fn static_ascii(s: &'static str) -> (r: &'static [u8])
    requires
        vstd::string::is_ascii(s),
    ensures
        r@ == Seq::new(s@.len(), |i: int| s@[i] as u8),
{
    s.as_bytes()
}

fn name_http1() -> (r: &'static [u8])
    ensures
        r@ == http1_name(),
{
    proof {
        reveal_strlit("http/1.1");
    }
    let r = static_ascii("http/1.1");
    assert(r@ =~= http1_name());
    r
}

fn name_http2() -> (r: &'static [u8])
    ensures
        r@ == http2_name(),
{
    proof {
        reveal_strlit("h2");
    }
    let r = static_ascii("h2");
    assert(r@ =~= http2_name());
    r
}

fn name_http3() -> (r: &'static [u8])
    ensures
        r@ == http3_name(),
{
    proof {
        reveal_strlit("h3");
    }
    let r = static_ascii("h3");
    assert(r@ =~= http3_name());
    r
}

/// A TLS ALPN protocol.
#[derive(Debug, Clone, Copy, Hash, PartialEq, Eq)]
pub struct AlpnProtocol(&'static [u8]);

impl View for AlpnProtocol {
    type V = Seq<u8>;

    closed spec fn view(&self) -> Seq<u8> {
        self.0@
    }
}

impl AlpnProtocol {
    /// Prefer HTTP/1.1
    pub fn http1() -> (r: AlpnProtocol)
        ensures
            r@ == http1_name(),
    {
        AlpnProtocol(name_http1())
    }

    /// Prefer HTTP/2
    pub fn http2() -> (r: AlpnProtocol)
        ensures
            r@ == http2_name(),
    {
        AlpnProtocol(name_http2())
    }

    /// Prefer HTTP/3
    pub fn http3() -> (r: AlpnProtocol)
        ensures
            r@ == http3_name(),
    {
        AlpnProtocol(name_http3())
    }

    /// Create a new [`AlpnProtocol`] from a static byte slice.
    pub fn new(value: &'static [u8]) -> (r: Self)
        ensures
            r@ == value@,
    {
        AlpnProtocol(value)
    }

    /// The protocol name, as bytes.
    pub fn as_bytes(&self) -> (r: &'static [u8])
        ensures
            r@ == self@,
    {
        self.0
    }

    /// The wire form of this protocol alone: its length byte, then its name.
    pub fn encode(self) -> (r: Bytes)
        requires
            self@.len() + 1 <= isize::MAX,
        ensures
            bytes_view(r) == encode_protocol(self@),
    {
        let items = [self];
        proof {
            assert(protocol_names(items@) =~= seq![self@]);
            lemma_encode_single(self@);
        }
        Self::encode_sequence(&items)
    }

    /// The wire form of a protocol list, as sent in the ALPN extension: for each
    /// protocol in order, its length byte and then its name.
    pub fn encode_sequence(items: &[AlpnProtocol]) -> (r: Bytes)
        requires
            encode_protocols(protocol_names(items@)).len() <= isize::MAX,
        ensures
            bytes_view(r) == encode_protocols(protocol_names(items@)),
    {
        let ghost names = protocol_names(items@);
        let mut buf = bytes_mut_new();
        let n = items.len();
        let mut i: usize = 0;
        while i < n
            invariant
                n == items@.len(),
                names == protocol_names(items@),
                i <= n,
                encode_protocols(names).len() <= isize::MAX,
                bytes_mut_view(buf) == encode_protocols(names.take(i as int)),
            decreases n - i,
        {
            let item = items[i];
            proof {
                lemma_encode_prefix_len(names, i as int + 1);
                assert(names.take(i as int + 1).drop_last() =~= names.take(i as int));
                assert(names.take(i as int + 1).last() == item@);
            }
            let len = item.0.len();
            bytes_mut_put_u8(&mut buf, (len % 256) as u8);
            bytes_mut_extend_from_slice(&mut buf, item.0);
            proof {
                assert(bytes_mut_view(buf) =~= encode_protocols(names.take(i as int + 1)));
            }
            i = i + 1;
        }
        proof {
            assert(names.take(n as int) =~= names);
        }
        bytes_mut_freeze(buf)
    }
}

/// A prefix of a list encodes to no more bytes than the whole list.
proof fn lemma_encode_prefix_len(names: Seq<Seq<u8>>, j: int)
    requires
        0 <= j <= names.len(),
    ensures
        encode_protocols(names.take(j)).len() <= encode_protocols(names).len(),
    decreases names.len(),
{
    if j < names.len() {
        lemma_encode_prefix_len(names.drop_last(), j);
        assert(names.drop_last().take(j) =~= names.take(j));
    } else {
        assert(names.take(j) =~= names);
    }
}

/// Encoding a list made of two lists gives the first list's encoding followed
/// by the second's.
pub proof fn lemma_encode_protocols_append(a: Seq<Seq<u8>>, b: Seq<Seq<u8>>)
    ensures
        encode_protocols(a + b) == encode_protocols(a) + encode_protocols(b),
    decreases b.len(),
{
    if b.len() == 0 {
        assert(a + b =~= a);
        assert(encode_protocols(a) + encode_protocols(b) =~= encode_protocols(a));
    } else {
        lemma_encode_protocols_append(a, b.drop_last());
        assert((a + b).drop_last() =~= a + b.drop_last());
        assert((a + b).last() == b.last());
        assert(encode_protocols(a + b) =~= encode_protocols(a) + encode_protocols(b));
    }
}

/// A list of one protocol encodes exactly as that protocol does alone.
pub proof fn lemma_encode_single(name: Seq<u8>)
    ensures
        encode_protocols(seq![name]) == encode_protocol(name),
{
    let empty = Seq::<Seq<u8>>::empty();
    assert(seq![name].drop_last() =~= empty);
    assert(encode_protocols(empty) == Seq::<u8>::empty());
    assert(encode_protocols(seq![name]) =~= encode_protocol(name));
}

/// A TLS ALPS protocol.
#[derive(Debug, Clone, Copy, Hash, PartialEq, Eq)]
pub struct AlpsProtocol(&'static [u8]);

impl View for AlpsProtocol {
    type V = Seq<u8>;

    closed spec fn view(&self) -> Seq<u8> {
        self.0@
    }
}

impl AlpsProtocol {
    /// Prefer HTTP/1.1
    pub fn http1() -> (r: AlpsProtocol)
        ensures
            r@ == http1_name(),
    {
        AlpsProtocol(name_http1())
    }

    /// Prefer HTTP/2
    pub fn http2() -> (r: AlpsProtocol)
        ensures
            r@ == http2_name(),
    {
        AlpsProtocol(name_http2())
    }

    /// Prefer HTTP/3
    pub fn http3() -> (r: AlpsProtocol)
        ensures
            r@ == http3_name(),
    {
        AlpsProtocol(name_http3())
    }

    /// The protocol name, as bytes.
    pub fn as_bytes(&self) -> (r: &'static [u8])
        ensures
            r@ == self@,
    {
        self.0
    }
}

} // verus!

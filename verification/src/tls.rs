//! TLS layer information that a connection reports, and TLS protocol versions.
use vstd::prelude::*;

use bytes::Bytes;

use crate::buffers::{bytes_as_slice, bytes_from_vec, bytes_view};

verus! {

/// The DER encodings that were produced, in order, skipping the certificates
/// that could not be encoded.
pub open spec fn encoded_only(ders: Seq<Option<Seq<u8>>>) -> Seq<Seq<u8>>
    decreases ders.len(),
{
    if ders.len() == 0 {
        Seq::empty()
    } else {
        let rest = encoded_only(ders.drop_last());
        match ders.last() {
            Some(d) => rest.push(d),
            None => rest,
        }
    }
}

/// The optional byte vector, as bytes.
pub open spec fn opt_vec_view(v: Option<Vec<u8>>) -> Option<Seq<u8>> {
    match v {
        Some(v) => Some(v@),
        None => None,
    }
}

/// Http extension carrying extra TLS layer information.
/// Made available to clients on responses when `tls_info` is set.
#[derive(Debug, Clone)]
pub struct TlsInfo {
    peer_certificate: Option<Bytes>,
    peer_certificate_chain: Option<Vec<Bytes>>,
}

impl TlsInfo {
    /// The DER encoded leaf certificate of the peer, as bytes.
    pub closed spec fn leaf(&self) -> Option<Seq<u8>> {
        match self.peer_certificate {
            Some(b) => Some(bytes_view(b)),
            None => None,
        }
    }

    /// The DER encoded certificate chain of the peer, as bytes.
    pub closed spec fn chain(&self) -> Option<Seq<Seq<u8>>> {
        match self.peer_certificate_chain {
            Some(v) => Some(v@.map_values(|b: Bytes| bytes_view(b))),
            None => None,
        }
    }

    /// The information that a TLS connection yields: the peer's leaf
    /// certificate, where it has one and it could be DER encoded, and the
    /// peer's certificate chain, where it has one, without the certificates
    /// that could not be DER encoded.
    pub fn from_der(leaf_der: Option<Vec<u8>>, chain_der: Option<Vec<Option<Vec<u8>>>>) -> (r: TlsInfo)
        ensures
            r.leaf() == opt_vec_view(leaf_der),
            r.chain() == (match chain_der {
                Some(c) => Some(encoded_only(c@.map_values(|d: Option<Vec<u8>>| opt_vec_view(d)))),
                None => None,
            }),
    {
        let peer_certificate = match leaf_der {
            Some(der) => Some(bytes_from_vec(der)),
            None => None,
        };
        let peer_certificate_chain = match chain_der {
            Some(ders) => Some(Self::collect_encoded(ders)),
            None => None,
        };
        TlsInfo { peer_certificate, peer_certificate_chain }
    }

    fn collect_encoded(ders: Vec<Option<Vec<u8>>>) -> (r: Vec<Bytes>)
        ensures
            r@.map_values(|b: Bytes| bytes_view(b)) == encoded_only(
                ders@.map_values(|d: Option<Vec<u8>>| opt_vec_view(d)),
            ),
    {
        let ghost views = ders@.map_values(|d: Option<Vec<u8>>| opt_vec_view(d));
        let mut out: Vec<Bytes> = Vec::new();
        for d in it: ders
            invariant
                views == it.seq().map_values(|d: Option<Vec<u8>>| opt_vec_view(d)),
                out@.map_values(|b: Bytes| bytes_view(b)) == encoded_only(
                    views.take(it.index() as int),
                ),
        {
            proof {
                let i = it.index() as int;
                assert(views.take(i + 1).drop_last() =~= views.take(i));
                assert(views.take(i + 1).last() == opt_vec_view(d));
            }
            match d {
                Some(der) => {
                    out.push(bytes_from_vec(der));
                },
                None => {},
            }
        }
        proof {
            assert(views.take(views.len() as int) =~= views);
        }
        out
    }

    /// Get the DER encoded leaf certificate of the peer.
    pub fn peer_certificate(&self) -> (r: Option<&[u8]>)
        ensures
            match r {
                Some(s) => self.leaf() == Some(s@),
                None => self.leaf() is None,
            },
    {
        match &self.peer_certificate {
            Some(b) => Some(bytes_as_slice(b)),
            None => None,
        }
    }

    /// Get the DER encoded certificate chain of the peer.
    ///
    /// This includes the leaf certificate on the client side.
    pub fn peer_certificate_chain(&self) -> (r: Option<Vec<&[u8]>>)
        ensures
            match r {
                Some(v) => self.chain() == Some(v@.map_values(|s: &[u8]| s@)),
                None => self.chain() is None,
            },
    {
        match &self.peer_certificate_chain {
            Some(chain) => {
                let mut out: Vec<&[u8]> = Vec::new();
                let n = chain.len();
                let mut i: usize = 0;
                while i < n
                    invariant
                        n == chain@.len(),
                        i <= n,
                        out@.len() == i,
                        out@.map_values(|s: &[u8]| s@) == chain@.take(i as int).map_values(
                            |b: Bytes| bytes_view(b),
                        ),
                    decreases n - i,
                {
                    let ghost before = out@;
                    let piece = bytes_as_slice(&chain[i]);
                    out.push(piece);
                    proof {
                        assert(out@ == before.push(piece));
                        assert(piece@ == bytes_view(chain@[i as int]));
                        assert(out@[i as int]@ == bytes_view(chain@[i as int]));
                        assert forall|j: int| 0 <= j < i implies out@[j]@ == bytes_view(
                            chain@[j],
                        ) by {
                            assert(before.map_values(|s: &[u8]| s@)[j] == chain@.take(
                                i as int,
                            ).map_values(|b: Bytes| bytes_view(b))[j]);
                        }
                        assert(before.map_values(|s: &[u8]| s@) =~= chain@.take(i as int).map_values(
                            |b: Bytes| bytes_view(b),
                        ));
                        assert(out@.map_values(|s: &[u8]| s@) =~= chain@.take(i as int + 1).map_values(
                            |b: Bytes| bytes_view(b),
                        ));
                    }
                    i = i + 1;
                }
                proof {
                    assert(chain@.take(n as int) =~= chain@);
                }
                Some(out)
            },
            None => None,
        }
    }
}

/// A TLS protocol version, by its protocol version number.
#[derive(Debug, Clone, Copy, Hash, PartialEq, Eq)]
pub struct TlsVersion(u16);

impl View for TlsVersion {
    type V = u16;

    closed spec fn view(&self) -> u16 {
        self.0
    }
}

impl TlsVersion {
    /// Version 1.0 of the TLS protocol.
    pub fn tls_1_0() -> (r: TlsVersion)
        ensures
            r@ == 0x0301,
    {
        TlsVersion(0x0301)
    }

    /// Version 1.1 of the TLS protocol.
    pub fn tls_1_1() -> (r: TlsVersion)
        ensures
            r@ == 0x0302,
    {
        TlsVersion(0x0302)
    }

    /// Version 1.2 of the TLS protocol.
    pub fn tls_1_2() -> (r: TlsVersion)
        ensures
            r@ == 0x0303,
    {
        TlsVersion(0x0303)
    }

    /// Version 1.3 of the TLS protocol.
    pub fn tls_1_3() -> (r: TlsVersion)
        ensures
            r@ == 0x0304,
    {
        TlsVersion(0x0304)
    }

    /// The protocol version number, as the TLS record layer writes it.
    pub fn number(&self) -> (r: u16)
        ensures
            r == self@,
    {
        self.0
    }
}

} // verus!

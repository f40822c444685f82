use bytes::Bytes;
use wreq_core::alpn::{AlpnProtocol, AlpsProtocol};

#[test]
fn alpn_protocol_encode() {
    let alpn = AlpnProtocol::encode_sequence(&[AlpnProtocol::http1(), AlpnProtocol::http2()]);
    assert_eq!(alpn, Bytes::from_static(b"\x08http/1.1\x02h2"));

    let alpn = AlpnProtocol::encode_sequence(&[AlpnProtocol::http3()]);
    assert_eq!(alpn, Bytes::from_static(b"\x02h3"));

    let alpn = AlpnProtocol::encode_sequence(&[AlpnProtocol::http1(), AlpnProtocol::http3()]);
    assert_eq!(alpn, Bytes::from_static(b"\x08http/1.1\x02h3"));

    let alpn = AlpnProtocol::encode_sequence(&[AlpnProtocol::http2(), AlpnProtocol::http3()]);
    assert_eq!(alpn, Bytes::from_static(b"\x02h2\x02h3"));

    let alpn = AlpnProtocol::encode_sequence(&[
        AlpnProtocol::http1(),
        AlpnProtocol::http2(),
        AlpnProtocol::http3(),
    ]);
    assert_eq!(alpn, Bytes::from_static(b"\x08http/1.1\x02h2\x02h3"));
}

#[test]
fn alpn_protocol_encode_single() {
    let alpn = AlpnProtocol::http1().encode();
    assert_eq!(alpn, b"\x08http/1.1".as_ref());

    let alpn = AlpnProtocol::http2().encode();
    assert_eq!(alpn, b"\x02h2".as_ref());

    let alpn = AlpnProtocol::http3().encode();
    assert_eq!(alpn, b"\x02h3".as_ref());
}

#[test]
fn alpn_encode_empty_list_is_empty() {
    let alpn = AlpnProtocol::encode_sequence(&[]);
    assert!(alpn.is_empty());
}

#[test]
fn alpn_encode_custom_protocol() {
    let spdy = AlpnProtocol::new(b"spdy/3.1");
    assert_eq!(spdy.as_bytes(), b"spdy/3.1");
    let alpn = AlpnProtocol::encode_sequence(&[spdy, AlpnProtocol::http2()]);
    assert_eq!(alpn, Bytes::from_static(b"\x08spdy/3.1\x02h2"));
}

#[test]
fn alpn_length_byte_keeps_low_eight_bits() {
    static LONG: [u8; 300] = [b'x'; 300];
    let alpn = AlpnProtocol::new(&LONG).encode();
    assert_eq!(alpn.len(), 301);
    assert_eq!(alpn[0], (300 % 256) as u8);
    assert_eq!(&alpn[1..], &LONG[..]);
}

#[test]
fn alpn_encoding_of_a_list_is_the_concatenation_of_its_items() {
    let a = [AlpnProtocol::http1(), AlpnProtocol::http2()];
    let b = [AlpnProtocol::http3()];
    let both = [AlpnProtocol::http1(), AlpnProtocol::http2(), AlpnProtocol::http3()];
    let mut joined = AlpnProtocol::encode_sequence(&a).to_vec();
    joined.extend_from_slice(&AlpnProtocol::encode_sequence(&b));
    assert_eq!(AlpnProtocol::encode_sequence(&both).to_vec(), joined);
    assert_eq!(
        AlpnProtocol::encode_sequence(&[AlpnProtocol::http2()]),
        AlpnProtocol::http2().encode()
    );
}

#[test]
fn alps_protocol_names() {
    assert_eq!(AlpsProtocol::http1().as_bytes(), b"http/1.1");
    assert_eq!(AlpsProtocol::http2().as_bytes(), b"h2");
    assert_eq!(AlpsProtocol::http3().as_bytes(), b"h3");
}

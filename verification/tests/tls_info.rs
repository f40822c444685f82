use wreq_core::tls::{TlsInfo, TlsVersion};

#[test]
fn tls_info_keeps_encoded_certificates() {
    let info = TlsInfo::from_der(
        Some(vec![1, 2, 3]),
        Some(vec![Some(vec![1, 2, 3]), None, Some(vec![9])]),
    );
    assert_eq!(info.peer_certificate(), Some(&[1u8, 2, 3][..]));
    let chain = info.peer_certificate_chain().unwrap();
    assert_eq!(chain, vec![&[1u8, 2, 3][..], &[9u8][..]]);
}

#[test]
fn tls_info_without_certificates() {
    let info = TlsInfo::from_der(None, None);
    assert_eq!(info.peer_certificate(), None);
    assert!(info.peer_certificate_chain().is_none());

    let info = TlsInfo::from_der(None, Some(vec![None, None]));
    assert_eq!(info.peer_certificate_chain().unwrap().len(), 0);
}

#[test]
fn tls_versions_are_protocol_numbers() {
    assert_eq!(TlsVersion::tls_1_0().number(), 0x0301);
    assert_eq!(TlsVersion::tls_1_1().number(), 0x0302);
    assert_eq!(TlsVersion::tls_1_2().number(), 0x0303);
    assert_eq!(TlsVersion::tls_1_3().number(), 0x0304);
    assert!(TlsVersion::tls_1_2() != TlsVersion::tls_1_3());
}

use rsipstack::error::Error;
use rsipstack::sip::basic::{IpAddr, Transport};
use rsipstack::sip::uri::{Host, HostWithPort};
use rsipstack::transport::cert::{
    base64_decode, can_parse, describe, find_marked, parse_cert_info, CertInfo,
};
use rsipstack::transport::sip_addr::SipAddr;
use rsipstack::transport::tls::{
    choose_key, connect_port, parse_private_key, read_client_identity, read_identity,
    read_trusted_certificates, server_name, PrivateKey, TlsConfig, TlsListenerConnection,
};

fn section(name: &str, body: &str) -> String {
    format!("-----BEGIN {name}-----\n{body}\n-----END {name}-----\n")
}

fn certificates() -> Vec<u8> {
    let mut pem = section("CERTIFICATE", "Zmlyc3QgY2VydGlmaWNhdGU=");
    pem.push_str(&section("CERTIFICATE", "c2Vjb25kIGNlcnRpZmljYXRl"));
    pem.into_bytes()
}

fn pkcs8() -> Vec<u8> {
    section("PRIVATE KEY", "cGtjczgga2V5").into_bytes()
}

fn pkcs1() -> Vec<u8> {
    section("RSA PRIVATE KEY", "cGtjczEga2V5").into_bytes()
}

fn chars(s: &str) -> Vec<char> {
    s.chars().collect()
}

fn text_of(e: Error) -> String {
    match e {
        Error::Error(text) => text,
        _ => panic!("expected a plain error"),
    }
}

#[test]
fn an_identity_holds_all_certificates_and_the_key() {
    let (certs, key) = read_identity(&certificates(), &pkcs8()).unwrap();
    assert_eq!(certs, vec![b"first certificate".to_vec(), b"second certificate".to_vec()]);
    assert!(matches!(key, PrivateKey::Pkcs8(k) if k == b"pkcs8 key"));
    let (_, key) = read_identity(&certificates(), &pkcs1()).unwrap();
    assert!(matches!(key, PrivateKey::Pkcs1(k) if k == b"pkcs1 key"));
}

#[test]
fn a_pkcs8_key_comes_first() {
    let mut both = pkcs1();
    both.extend(pkcs8());
    assert!(matches!(parse_private_key(&both), Ok(PrivateKey::Pkcs8(_))));
}

#[test]
fn keys_that_are_missing_or_broken_are_errors() {
    assert_eq!(text_of(parse_private_key(&vec![]).err().unwrap()), "No valid private key found");
    let broken = section("PRIVATE KEY", "*****").into_bytes();
    let text = text_of(parse_private_key(&broken).err().unwrap());
    assert!(text.starts_with("Failed to parse PKCS8 key: "), "{text}");
    let r = choose_key(Ok(vec![]), Err("bad".to_string()));
    assert_eq!(text_of(r.err().unwrap()), "Failed to parse RSA key: bad");
    assert!(matches!(
        choose_key(Ok(vec![vec![1], vec![2]]), Err("unused".to_string())),
        Ok(PrivateKey::Pkcs8(k)) if k == [1]
    ));
}

#[test]
fn a_server_needs_a_certificate_and_a_key() {
    let none = TlsConfig::default();
    assert_eq!(text_of(none.server_identity().err().unwrap()), "No certificate provided");
    let only_cert = TlsConfig { cert: Some(certificates()), ..TlsConfig::default() };
    assert_eq!(text_of(only_cert.server_identity().err().unwrap()), "No private key provided");
    let both =
        TlsConfig { cert: Some(certificates()), key: Some(pkcs8()), ..TlsConfig::default() };
    assert_eq!(both.server_identity().unwrap().0.len(), 2);
    let broken = TlsConfig {
        cert: Some(section("CERTIFICATE", "*****").into_bytes()),
        key: Some(pkcs8()),
        ..TlsConfig::default()
    };
    let text = text_of(broken.server_identity().err().unwrap());
    assert!(text.starts_with("Failed to parse certificate: "), "{text}");
}

#[test]
fn a_client_identity_is_optional() {
    assert!(read_client_identity(None).unwrap().is_none());
    let config = TlsConfig { client_cert: Some(certificates()), ..TlsConfig::default() };
    assert!(read_client_identity(Some(&config)).unwrap().is_none());
    let config = TlsConfig {
        client_cert: Some(certificates()),
        client_key: Some(pkcs1()),
        ..TlsConfig::default()
    };
    let (certs, _) = read_client_identity(Some(&config)).unwrap().unwrap();
    assert_eq!(certs.len(), 2);
    let config = TlsConfig {
        client_cert: Some(section("CERTIFICATE", "*****").into_bytes()),
        client_key: Some(pkcs1()),
        ..TlsConfig::default()
    };
    let text = text_of(read_client_identity(Some(&config)).err().unwrap());
    assert!(text.starts_with("Failed to parse client certificate: "), "{text}");
}

#[test]
fn the_trusted_certificates_are_those_of_the_settings() {
    assert!(read_trusted_certificates(None).unwrap().is_empty());
    let config = TlsConfig { ca_certs: Some(certificates()), ..TlsConfig::default() };
    assert_eq!(read_trusted_certificates(Some(&config)).unwrap().len(), 2);
    let config = TlsConfig {
        ca_certs: Some(section("CERTIFICATE", "*****").into_bytes()),
        ..TlsConfig::default()
    };
    let text = text_of(read_trusted_certificates(Some(&config)).err().unwrap());
    assert!(text.starts_with("Failed to parse CA certificates: "), "{text}");
}

fn remote(host: Host, port: Option<u16>) -> SipAddr {
    SipAddr { transport: Some(Transport::Tls), addr: HostWithPort { host, port } }
}

#[test]
fn the_server_is_asked_for_by_name() {
    let domain = remote(Host::Domain("example.com".to_string()), None);
    let ip = remote(Host::IpAddr(IpAddr::V4(0x7f000001)), Some(5071));
    assert_eq!(server_name(None, &domain, String::new()), "example.com");
    assert_eq!(server_name(None, &ip, "127.0.0.1".to_string()), "127.0.0.1");
    let config =
        TlsConfig { sni_hostname: Some("sip.example.com".to_string()), ..TlsConfig::default() };
    assert_eq!(server_name(Some(&config), &ip, "127.0.0.1".to_string()), "sip.example.com");
    assert_eq!(connect_port(&domain), 5061);
    assert_eq!(connect_port(&ip), 5071);
}

#[test]
fn a_listener_is_known_by_its_external_address() {
    let host = |port| HostWithPort { host: Host::IpAddr(IpAddr::V4(1)), port: Some(port) };
    let l = TlsListenerConnection::new(host(5061), None, TlsConfig::default());
    assert!(l.get_addr().addr.same(&host(5061)));
    let l = TlsListenerConnection::new(host(5061), Some(host(15061)), TlsConfig::default());
    assert!(l.get_addr().addr.same(&host(15061)));
    assert_eq!(l.get_addr().transport, Some(Transport::Tls));
}

#[test]
fn a_certificate_tells_its_name_and_its_last_day() {
    let pem = section("CERTIFICATE", "c3ViamVjdDogQ049c2lwLmV4YW1wbGUuY29tLCBPPXgKbm90QWZ0ZXIgIDIwMzAxMjMxMjM1OTU5WiBlbmQ=").into_bytes();
    let info = CertInfo::from_pem(&pem);
    let found = info.as_ref().unwrap();
    assert_eq!(found.cn.as_deref(), Some("sip.example.com"));
    assert_eq!(found.expires.as_deref(), Some("20301231235959Z"));
    let (name, expires) = describe(&info);
    assert_eq!(name, "SNI/CN=sip.example.com");
    assert_eq!(expires, "expires=20301231235959Z");
    let (name, expires) = describe(&None);
    assert_eq!(name, "SNI/CN=unknown");
    assert_eq!(expires, "expires=unknown");
}

#[test]
fn what_is_no_certificate_tells_nothing() {
    assert!(CertInfo::from_pem(&b"nothing".to_vec()).is_none());
    assert!(CertInfo::from_pem(&section("CERTIFICATE", "*****").into_bytes()).is_none());
    let swapped = b"-----END CERTIFICATE----------BEGIN CERTIFICATE-----".to_vec();
    assert!(CertInfo::from_pem(&swapped).is_none());
}

#[test]
fn names_have_an_end_and_a_limit() {
    let info = parse_cert_info(&b"CN=a/b".to_vec()).unwrap();
    assert_eq!(info.cn.as_deref(), Some("a"));
    assert!(info.expires.is_none());
    let info = parse_cert_info(&b"CN=,".to_vec()).unwrap();
    assert!(info.cn.is_none());
    let mut long = b"CN=".to_vec();
    long.extend(vec![b'x'; 64]);
    assert_eq!(parse_cert_info(&long).unwrap().cn.unwrap().len(), 64);
    long.push(b'x');
    assert!(parse_cert_info(&long).unwrap().cn.is_none());
    // Bytes that are no text are replaced.
    let info = parse_cert_info(&vec![b'C', b'N', b'=', 0xff, b',']).unwrap();
    assert_eq!(info.cn.as_deref(), Some("\u{fffd}"));
}

#[test]
fn times_are_read_behind_the_first_gap() {
    let info = parse_cert_info(&b"notAfter:x 991231235959Z|".to_vec()).unwrap();
    assert_eq!(info.expires.as_deref(), Some("991231235959Z"));
    // Without a gap the time starts at once, and has 14 characters at most.
    let info = parse_cert_info(&b"notAfter:2030123123595999999".to_vec()).unwrap();
    assert_eq!(info.expires.as_deref(), Some("20301231235959"));
    let cut = b"notAfter".to_vec();
    match parse_cert_info(&cut) {
        Err(e) => assert_eq!(text_of(e), "unreadable certificate"),
        Ok(_) => panic!("nothing follows"),
    }
    assert!(!can_parse(&chars("notAfter")));
    assert!(can_parse(&chars("notAfter:")));
}

#[test]
fn base64_is_trimmed_and_decoded() {
    assert_eq!(base64_decode(&chars(" \ncGtjczgga2V5\r\n")).unwrap(), b"pkcs8 key");
    assert!(base64_decode(&chars("****")).is_none());
    assert_eq!(find_marked(&chars(&section("CERTIFICATE", "abcd"))).unwrap(), chars("\nabcd\n"));
}

use rsipstack::error::Error;
use rsipstack::sip::basic::{IpAddr, Method, Scheme, Transport, Version};
use rsipstack::sip::header::{CSeq, Field, Header, HeaderKind};
use rsipstack::sip::message::{Request, Response, SipMessage};
use rsipstack::sip::status::StatusCode;
use rsipstack::sip::uri::{Host, HostWithPort, NameAddr, Param, Received, Uri, Via};
use rsipstack::transaction::builder::{Endpoint, EndpointBuilder};
use rsipstack::transaction::endpoint::EndpointOption;
use rsipstack::transaction::key::{TransactionKey, TransactionRole};
use rsipstack::transaction::transaction::{Outcome, Transaction, TxStep};
use rsipstack::transport::connection::{
    Listener, SipConnection, Socket, SocketAddr, Stream, TlsStream,
};
use rsipstack::transport::sip_addr::SipAddr;
use rsipstack::transport::tls::TlsConfig;
use rsipstack::transport::transport_layer::{
    DefaultDomainResolver, Dial, LookupStep, ResolvedTarget, TransportLayer,
};

const LOOPBACK: IpAddr = IpAddr::V4(0x7f000001);
const ELSEWHERE: IpAddr = IpAddr::V4(0xc0000201);

fn host(ip: IpAddr, port: u16) -> HostWithPort {
    HostWithPort { host: Host::IpAddr(ip), port: Some(port) }
}

fn addr(transport: Transport, port: u16) -> SipAddr {
    SipAddr { transport: Some(transport), addr: host(LOOPBACK, port) }
}

fn named(transport: Transport, name: &str) -> SipAddr {
    SipAddr {
        transport: Some(transport),
        addr: HostWithPort { host: Host::Domain(name.to_string()), port: Some(5060) },
    }
}

fn udp(id: u64, port: u16) -> SipConnection {
    SipConnection::Udp(Socket { id, addr: addr(Transport::Udp, port), remote_addr: None })
}

fn tcp(id: u64, peer: u16) -> SipConnection {
    SipConnection::Tcp(Stream {
        id,
        addr: addr(Transport::Tcp, 40000),
        remote_addr: addr(Transport::Tcp, peer),
    })
}

fn found(step: LookupStep) -> Result<(SipConnection, SipAddr), Error> {
    match step {
        LookupStep::Done(r) => r,
        _ => panic!("expected an answer at once"),
    }
}

#[test]
fn test_transport_channel_returns_udp() {
    let conn = SipConnection::Channel(Socket {
        id: 1,
        addr: SipAddr { transport: None, addr: host(LOOPBACK, 5060) },
        remote_addr: None,
    });
    assert_eq!(conn.transport(), Transport::Udp);
    assert!(conn.is_reliable());
}

#[test]
fn test_transport_udp_returns_udp() {
    assert_eq!(udp(1, 5060).transport(), Transport::Udp);
    assert!(!udp(1, 5060).is_reliable());
}

#[test]
fn test_transport_tcp_listener_returns_tcp() {
    let listener =
        SipConnection::TcpListener(Listener { id: 1, addr: addr(Transport::Tcp, 5060) });
    assert_eq!(listener.transport(), Transport::Tcp);
    assert!(listener.is_listener());
    assert!(!listener.is_stream());
    assert!(listener.get_remote_addr().is_none());
}

#[test]
fn streams_are_told_apart_by_their_number() {
    assert!(tcp(1, 5060).is_same_stream(&tcp(1, 5060)));
    assert!(!tcp(1, 5060).is_same_stream(&tcp(2, 5060)));
    assert!(!udp(1, 5060).is_same_stream(&udp(1, 5060)));
    let stream =
        Stream { id: 1, addr: addr(Transport::Tls, 1), remote_addr: addr(Transport::Tls, 2) };
    let client = SipConnection::Tls(TlsStream { is_client: true, stream: stream.clone() });
    let server = SipConnection::Tls(TlsStream { is_client: false, stream });
    assert!(client.is_same_stream(&client.clone()));
    assert!(!client.is_same_stream(&server));
    assert!(!client.is_same_stream(&tcp(1, 5060)));
}

#[test]
fn test_lookup() {
    let mut layer = TransportLayer::new();
    let target = addr(Transport::Udp, 5060);
    assert!(found(layer.lookup(&target)).is_err());
    layer.add_transport(udp(1, 15060));
    let (conn, to) = found(layer.lookup(&target)).unwrap();
    assert!(conn.get_addr().same(&addr(Transport::Udp, 15060)));
    assert!(to.same(&target));

    layer.add_transport(udp(2, 15061));
    layer.outbound = Some(addr(Transport::Udp, 15061));
    let (conn, _) = found(layer.lookup(&target)).unwrap();
    assert!(conn.get_addr().same(&addr(Transport::Udp, 15061)));
}

#[test]
fn test_serve_listens() {
    let mut layer = TransportLayer::new();
    layer.add_transport(udp(1, 15060));
    let addrs = layer.get_addrs();
    assert_eq!(addrs.len(), 1);
    assert!(addrs[0].same(&addr(Transport::Udp, 15060)));
    layer.del_transport(&addr(Transport::Udp, 15061));
    assert_eq!(layer.get_addrs().len(), 1);
    layer.del_transport(&addr(Transport::Udp, 15060));
    assert!(layer.get_addrs().is_empty());
}

#[test]
fn a_transport_that_nothing_carries_is_an_error() {
    let layer = TransportLayer::new();
    match found(layer.lookup(&addr(Transport::Sctp, 5060))) {
        Err(Error::TransportLayerError(text, to)) => {
            assert!(text.starts_with("unsupported transport type: "), "{text}");
            assert!(to.same(&addr(Transport::Sctp, 5060)));
        }
        _ => panic!("expected an error"),
    }
}

#[test]
fn an_unknown_stream_is_dialed() {
    let mut layer = TransportLayer::new();
    match layer.lookup(&addr(Transport::Tcp, 5060)) {
        LookupStep::Connect { target, dial: Dial::Tcp } => {
            let opened = tcp(3, 5060);
            let (conn, to) = layer.inner.lookup_connected(target, Ok(opened)).unwrap();
            assert_eq!(conn.id(), 3);
            assert!(to.same(&addr(Transport::Tcp, 5060)));
        }
        _ => panic!("expected a new connection"),
    }
    let (conn, _) = found(layer.lookup(&addr(Transport::Tcp, 5060))).unwrap();
    assert_eq!(conn.id(), 3);
    // Another peer has a connection of its own.
    assert!(matches!(
        layer.lookup(&addr(Transport::Tcp, 5061)),
        LookupStep::Connect { dial: Dial::Tcp, .. }
    ));
    let refused = Err(Error::Error("refused".to_string()));
    assert!(layer.inner.lookup_connected(addr(Transport::Tcp, 5061), refused).is_err());

    layer.set_ws_path("/ws".to_string());
    match layer.lookup(&addr(Transport::Ws, 5060)) {
        LookupStep::Connect { dial: Dial::WebSocket(path), .. } => {
            assert_eq!(path.as_deref(), Some("/ws"))
        }
        _ => panic!("expected a new connection"),
    }
    layer.clear_ws_path();
    assert!(matches!(
        layer.lookup(&addr(Transport::Wss, 5060)),
        LookupStep::Connect { dial: Dial::WebSocket(None), .. }
    ));
}

#[test]
fn a_name_is_resolved_and_kept_for_tls() {
    let mut layer = TransportLayer::new();
    let target = named(Transport::Tls, "example.com");
    let domain = match layer.lookup(&target) {
        LookupStep::Resolve { domain, target: asked } => {
            assert!(asked.same(&target));
            domain
        }
        _ => panic!("expected a name to resolve"),
    };
    assert_eq!(domain, "example.com");
    match layer.inner.lookup_resolved(Ok(addr(Transport::Tls, 5061)), domain.clone()) {
        LookupStep::Connect { dial: Dial::Tls(config), .. } => {
            assert_eq!(config.sni_hostname.as_deref(), Some("example.com"))
        }
        _ => panic!("expected a new connection"),
    }
    // A name in the settings comes first.
    layer.set_tls_config(TlsConfig {
        sni_hostname: Some("sip.example.com".to_string()),
        ..TlsConfig::default()
    });
    match layer.inner.lookup_resolved(Ok(addr(Transport::Tls, 5061)), domain.clone()) {
        LookupStep::Connect { dial: Dial::Tls(config), .. } => {
            assert_eq!(config.sni_hostname.as_deref(), Some("sip.example.com"))
        }
        _ => panic!("expected a new connection"),
    }
    layer.clear_tls_config();
    match layer.inner.lookup_resolved(Ok(addr(Transport::Tls, 5061)), domain.clone()) {
        LookupStep::Connect { dial: Dial::Tls(config), .. } => {
            assert_eq!(config.sni_hostname.as_deref(), Some("example.com"))
        }
        _ => panic!("expected a new connection"),
    }
    let failed = Err(Error::DnsResolutionError("no".to_string(), target.addr.clone()));
    assert!(found(layer.inner.lookup_resolved(failed, domain)).is_err());
}

#[test]
fn test_resolve_invalid_domain_rejected() {
    let resolver = DefaultDomainResolver::new();
    for name in ["invalid", "invalid.invalid", "abc123.invalid"] {
        match resolver.query(&named(Transport::Udp, name)) {
            Err(Error::DnsResolutionError(text, _)) => {
                assert!(text.contains(name), "error must mention '{name}', got: {text}")
            }
            _ => panic!("expected an error for {name}"),
        }
    }
    let query = resolver.query(&named(Transport::Tls, "notinvalid")).unwrap();
    assert_eq!(query.domain, "notinvalid");
    assert_eq!(query.port, Some(5060));
    assert!(query.secure);
    assert!(resolver.query(&addr(Transport::Udp, 5060)).is_err());
}

#[test]
fn the_first_answer_of_the_lookup_is_taken() {
    let resolver = DefaultDomainResolver::new();
    let target = named(Transport::Udp, "example.com");
    let first = ResolvedTarget { transport: Transport::Tcp, ip: ELSEWHERE, port: 5070 };
    let second = ResolvedTarget { transport: Transport::Udp, ip: LOOPBACK, port: 5060 };
    let a = resolver.answer(&target, Ok(vec![first, second])).unwrap();
    assert_eq!(a.transport, Some(Transport::Tcp));
    assert!(a.addr.same(&host(ELSEWHERE, 5070)));
    assert!(resolver.answer(&target, Ok(vec![])).is_err());
    match resolver.answer(&target, Err("timeout".to_string())) {
        Err(Error::DnsResolutionError(text, _)) => assert_eq!(text, "timeout"),
        _ => panic!("expected an error"),
    }
}

#[test]
fn test_retire_keeps_newer_connection_to_same_peer() {
    let mut layer = TransportLayer::new();
    let target = addr(Transport::Tcp, 5060);
    let old = tcp(1, 5060);
    let newer = tcp(2, 5060);
    layer.add_connection(newer.clone());
    layer.retire_connection(&old);
    let (cached, _) = found(layer.lookup(&target)).unwrap();
    assert!(cached.is_same_stream(&newer), "retiring an old connection must keep the newer one");
    layer.retire_connection(&newer);
    assert!(
        matches!(layer.lookup(&target), LookupStep::Connect { .. }),
        "a retired connection must not be returned by lookup"
    );
    assert!(layer.inner.is_over(&newer));
}

#[test]
fn connections_are_added_and_removed_by_their_peer() {
    let mut layer = TransportLayer::new();
    layer.add_connection(tcp(1, 5060));
    layer.add_connection(tcp(2, 5061));
    // A socket without a peer is not kept.
    layer.add_connection(udp(3, 5062));
    assert_eq!(layer.get_addrs().len(), 2);
    layer.del_connection(&addr(Transport::Tcp, 5060));
    assert!(matches!(layer.lookup(&addr(Transport::Tcp, 5060)), LookupStep::Connect { .. }));
    assert_eq!(found(layer.lookup(&addr(Transport::Tcp, 5061))).unwrap().0.id(), 2);
}

fn options_request(method: Method, seq: u32) -> Request {
    let uri = Uri {
        scheme: Some(Scheme::Sip),
        user: Some("bob".to_string()),
        host_with_port: host(LOOPBACK, 5060),
        params: vec![Param::Transport(Transport::Tcp)],
    };
    let party = NameAddr::of_uri(uri.clone());
    Request {
        version: Version::V2,
        method,
        uri,
        headers: vec![
            Header::Via(Field::Typed(Via {
                version: Version::V2,
                transport: Transport::Tcp,
                uri: Uri::of_host(host(LOOPBACK, 5999)),
                params: vec![Param::Branch(format!("z9hG4bK{seq}"))],
            })),
            Header::From(Field::Typed(party.clone().with_tag("a".to_string()))),
            Header::To(Field::Typed(party)),
            Header::CallId("stream".to_string()),
            Header::CSeq(Field::Typed(CSeq { seq, method })),
        ],
        body: vec![],
    }
}

fn endpoint(t1: u64) -> Endpoint {
    let mut layer = TransportLayer::new();
    layer.add_transport(udp(1, 15060));
    EndpointBuilder::new()
        .with_user_agent("rsipstack-test")
        .with_transport_layer(layer)
        .with_option(EndpointOption { t1, t1x64: 8000, ..EndpointOption::default() })
        .build()
}

fn client(ep: &mut Endpoint, req: Request, conn: Option<SipConnection>) -> Transaction {
    let key = TransactionKey::from_request(&req, TransactionRole::Client).unwrap();
    Transaction::new_client(key, req, &mut ep.inner, conn)
}

/// Looks the target up in the transport layer, and opens stream `opens` where a
/// new one is needed.
fn send(ep: &mut Endpoint, tx: &mut Transaction, opens: u64, broken: Option<u64>) -> Option<u64> {
    let mut used = None;
    let mut step = tx.send(&ep.inner);
    loop {
        step = match step {
            TxStep::Done(Outcome::Complete) => return used,
            TxStep::Lookup { target } => {
                let r = match ep.inner.transport_layer.lookup(&target) {
                    LookupStep::Connect { target, .. } => ep
                        .inner
                        .transport_layer
                        .inner
                        .lookup_connected(target, Ok(tcp(opens, 5060))),
                    step => found(step),
                };
                tx.looked_up(&mut ep.inner, r)
            }
            TxStep::Write { message, connection, .. } => {
                let id = connection.map(|c| c.id());
                if id.is_some() && id == broken {
                    let e = Error::Error("broken pipe".to_string());
                    tx.written(&mut ep.inner, message, Err(e))
                } else {
                    used = id;
                    tx.written(&mut ep.inner, message, Ok(()))
                }
            }
            _ => panic!("the request must go out"),
        };
    }
}

#[test]
fn test_request_after_peer_closed_stream_uses_new_connection() {
    let mut ep = endpoint(3000);
    let mut tx = client(&mut ep, options_request(Method::Options, 1), None);
    assert_eq!(send(&mut ep, &mut tx, 1, None), Some(1));
    let first = tx.connection.clone().unwrap();
    tx.cleanup(&mut ep.inner);
    // Without a close the stream is used again.
    let mut tx = client(&mut ep, options_request(Method::Options, 2), None);
    assert_eq!(send(&mut ep, &mut tx, 2, None), Some(1));
    // The peer closes it.
    ep.inner.transport_layer.retire_connection(&first);
    let mut tx = client(&mut ep, options_request(Method::Options, 3), None);
    assert_eq!(send(&mut ep, &mut tx, 2, None), Some(2));
}

#[test]
fn test_send_failure_on_stream_is_reported_at_once() {
    for method in [Method::Options, Method::Invite] {
        let mut ep = endpoint(500);
        let mut tx = client(&mut ep, options_request(method, 1), Some(tcp(9, 5060)));
        assert_eq!(send(&mut ep, &mut tx, 1, Some(9)), None);
        let mut status = None;
        for (channel, event) in ep.inner.take_outbox() {
            assert_eq!(channel, tx.channel);
            let mut step = tx.receive(&mut ep.inner, event);
            loop {
                let e = Error::Error("broken pipe".to_string());
                step = match step {
                    TxStep::Lookup { .. } => tx.looked_up(&mut ep.inner, Err(e)),
                    TxStep::Write { message, .. } => tx.written(&mut ep.inner, message, Err(e)),
                    TxStep::Done(Outcome::Message(SipMessage::Response(r))) => {
                        status = Some(r.status_code);
                        break;
                    }
                    _ => panic!("expected the response"),
                };
            }
        }
        assert_eq!(status, Some(StatusCode::ServiceUnavailable));
        assert!(ep.inner.transport_layer.inner.is_over(&tcp(9, 5060)));
    }
}

fn via(h: HostWithPort, transport: Transport, params: Vec<Param>) -> Field<Via> {
    Field::Typed(Via { version: Version::V2, transport, uri: Uri::of_host(h), params })
}

fn params(f: &Field<Via>) -> Vec<Param> {
    match f {
        Field::Typed(v) => v.params.clone(),
        Field::Malformed(_) => panic!("expected a Via"),
    }
}

#[test]
fn the_source_of_a_request_is_noted_in_its_via() {
    let from = SocketAddr { ip: LOOPBACK, port: 5070 };
    // The Via names the source, and the port is not asked for.
    let mut v = via(host(LOOPBACK, 5070), Transport::Udp, vec![]);
    SipConnection::build_via_received(&mut v, from, Transport::Udp).unwrap();
    assert!(params(&v).is_empty());
    // The port is asked for.
    let mut v = via(host(LOOPBACK, 5070), Transport::Udp, vec![Param::Rport(None)]);
    SipConnection::build_via_received(&mut v, from, Transport::Udp).unwrap();
    assert!(matches!(params(&v).as_slice(), [Param::Rport(Some(5070))]));
    // Another address is named.
    let mut v = via(host(ELSEWHERE, 5070), Transport::Udp, vec![Param::Branch("b".to_string())]);
    SipConnection::build_via_received(&mut v, from, Transport::Udp).unwrap();
    assert!(matches!(
        params(&v).as_slice(),
        [Param::Branch(_), Param::Received(Received::Ip(LOOPBACK)), Param::Rport(Some(5070))]
    ));
    // Over a stream the port alone does not matter.
    let mut v = via(host(LOOPBACK, 1), Transport::Tcp, vec![]);
    SipConnection::build_via_received(&mut v, from, Transport::Tcp).unwrap();
    assert!(params(&v).is_empty());
    // Another transport than the one named is noted too.
    let mut v = via(host(ELSEWHERE, 1), Transport::Udp, vec![]);
    SipConnection::build_via_received(&mut v, from, Transport::Tcp).unwrap();
    assert!(matches!(
        params(&v).as_slice(),
        [Param::Transport(Transport::Tcp), Param::Received(_), Param::Rport(Some(5070))]
    ));
    let mut v = Field::Malformed("?".to_string());
    assert!(matches!(
        SipConnection::build_via_received(&mut v, from, Transport::Udp),
        Err(Error::MalformedHeader(HeaderKind::Via))
    ));
}

#[test]
fn the_top_via_of_a_message_is_marked() {
    let from = SocketAddr { ip: ELSEWHERE, port: 5070 };
    let req = options_request(Method::Options, 1);
    let msg = SipMessage::Request(req.clone());
    match SipConnection::update_msg_received(msg, from, Transport::Udp).unwrap() {
        SipMessage::Request(r) => match &r.headers[0] {
            Header::Via(v) => assert_eq!(params(v).len(), 3),
            _ => panic!("expected the Via"),
        },
        _ => panic!("expected the request"),
    }
    let mut bare = req;
    bare.headers.remove(0);
    assert!(matches!(
        SipConnection::update_msg_received(SipMessage::Request(bare), from, Transport::Udp),
        Err(Error::MissingHeader(HeaderKind::Via))
    ));
}

#[test]
fn an_answer_goes_where_the_via_says() {
    let v = via(
        HostWithPort { host: Host::Domain("example.com".to_string()), port: Some(5060) },
        Transport::Udp,
        vec![Param::Received(Received::Ip(LOOPBACK)), Param::Rport(Some(5070))],
    );
    let (transport, to) = SipConnection::parse_target_from_via(&v).unwrap();
    assert_eq!(transport, Transport::Udp);
    assert!(to.same(&host(LOOPBACK, 5070)));
    let resp = Response { version: Version::V2, status_code: StatusCode::OK, headers: vec![Header::Via(v)], body: vec![] };
    assert_eq!(
        SipConnection::get_destination(&SipMessage::Response(resp)).unwrap(),
        SocketAddr { ip: LOOPBACK, port: 5070 }
    );
    let mut req = options_request(Method::Options, 1);
    req.uri.host_with_port.port = None;
    assert_eq!(
        SipConnection::get_destination(&SipMessage::Request(req)).unwrap(),
        SocketAddr { ip: LOOPBACK, port: 5060 }
    );
    assert!(SipConnection::parse_target_from_via(&Field::Malformed("?".to_string())).is_err());
}

#[test]
fn a_socket_on_all_interfaces_advertises_one() {
    let any = SocketAddr { ip: IpAddr::V4(0), port: 5060 };
    let list = vec![LOOPBACK, IpAddr::V6(1), ELSEWHERE];
    assert_eq!(SipConnection::resolve_bind_address(any, Some(&list)).ip, ELSEWHERE);
    assert_eq!(SipConnection::resolve_bind_address(any, Some(&vec![LOOPBACK])).ip, LOOPBACK);
    assert_eq!(SipConnection::resolve_bind_address(any, None), any);
    let one = SocketAddr { ip: ELSEWHERE, port: 1 };
    assert_eq!(SipConnection::resolve_bind_address(one, Some(&vec![LOOPBACK])), one);
}

#[test]
fn addresses_become_uris() {
    let uri = addr(Transport::Tls, 5061).to_uri();
    assert_eq!(uri.scheme, Some(Scheme::Sips));
    assert!(matches!(uri.params.as_slice(), [Param::Transport(Transport::Tls)]));
    assert!(SipAddr::from_uri(&uri).same(&addr(Transport::Tls, 5061)));
    let uri = addr(Transport::Udp, 5060).to_uri();
    assert_eq!(uri.scheme, Some(Scheme::Sip));
    assert!(uri.params.is_empty());
    assert!(named(Transport::Udp, "a").is_domain());
}

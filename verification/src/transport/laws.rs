//! How messages find their way between addresses.

use super::connection;
use super::connection::{SipConnectionView, SocketAddr};
use super::sip_addr;
use super::sip_addr::SipAddrView;
use super::tls;
use super::tls::{PrivateKeyView, TlsConfigView};
use super::transport_layer;
use super::transport_layer::{DialView, LookupStepView, TransportLayerInnerView};
use crate::error::ErrorView;
use crate::lists;
use crate::sip::basic::{IpAddr, Scheme, Transport};
use crate::sip::header;
use crate::sip::header::{FieldView, HeaderKind, HeaderView};
use crate::sip::message::{RequestView, ResponseView, SipMessageView};
use crate::sip::uri;
use crate::sip::uri::{
    HostView, HostWithPortView, ParamView, ReceivedView, UriView, ViaView,
};
use vstd::prelude::*;

verus! {

/// The Via of a request that has come in keeps what it names and its other
/// parameters in their order. Where its sender asks for the port, it tells the port
/// that the request came from; where it names another place than that, it tells
/// the address and the port.
pub proof fn law_source_is_noted_in_the_via(top: ViaView, addr: SocketAddr, transport: Transport)
    ensures
        ({
            let r = connection::via_received(top, addr, transport);
            let here = HostWithPortView { host: HostView::IpAddr(addr.ip), port: Some(addr.port) };
            let named = top.uri.host_with_port;
            let is_here = named == here || (transport != Transport::Udp && named.host == here.host);
            let asked = uri::rport_in(top.params) is Some;
            let others = top.params.filter(|p: ParamView| !(p is Rport) && !(p is Received));
            &&& r.uri == top.uri && r.transport == top.transport && r.version == top.version
            &&& is_here && !asked ==> r == top
            &&& is_here && asked ==> r.params == others.push(ParamView::Rport(Some(addr.port)))
            &&& !is_here && (transport == Transport::Udp || top.transport == transport)
                ==> r.params == others.push(ParamView::Received(ReceivedView::Ip(addr.ip))).push(
                ParamView::Rport(Some(addr.port)),
            )
            &&& !is_here && transport != Transport::Udp && top.transport != transport ==> r.params
                == others.push(ParamView::Transport(transport)).push(
                ParamView::Received(ReceivedView::Ip(addr.ip)),
            ).push(ParamView::Rport(Some(addr.port)))
        }),
{
    assert(connection::without_source(top.params) == top.params.filter(
        |p: ParamView| !(p is Rport) && !(p is Received),
    ));
}

/// Only the top Via of a request changes when it comes in. A response comes in as
/// it is.
pub proof fn law_message_comes_in_as_it_is(
    req: RequestView,
    resp: ResponseView,
    addr: SocketAddr,
    transport: Transport,
    top: ViaView,
    i: int,
)
    requires
        0 <= i < req.headers.len(),
        req.headers[i] == HeaderView::Via(FieldView::Typed(top)),
        forall|j: int| 0 <= j < i ==> !(#[trigger] req.headers[j] is Via),
    ensures
        ({
            let r = connection::msg_received(SipMessageView::Request(req), addr, transport);
            &&& r matches Ok(SipMessageView::Request(got))
            &&& got.method == req.method && got.uri == req.uri && got.body == req.body
                && got.version == req.version
            &&& got.headers.len() == req.headers.len()
            &&& got.headers[i] == HeaderView::Via(
                FieldView::Typed(connection::via_received(top, addr, transport)),
            )
            &&& forall|j: int|
                0 <= j < req.headers.len() && j != i ==> #[trigger] got.headers[j]
                    == req.headers[j]
        }),
        connection::msg_received(SipMessageView::Response(resp), addr, transport) == Ok::<
            _,
            ErrorView,
        >(SipMessageView::Response(resp)),
{
    lemma_first_via_at(req.headers, i);
}

proof fn lemma_first_via_at(headers: Seq<HeaderView>, i: int)
    requires
        0 <= i < headers.len(),
        headers[i] is Via,
        forall|j: int| 0 <= j < i ==> !(#[trigger] headers[j] is Via),
    ensures
        header::first_index(headers, HeaderKind::Via) == i,
    decreases i,
{
    if i > 0 {
        assert(!(headers[0] is Via));
        let rest = headers.drop_first();
        assert forall|j: int| 0 <= j < i - 1 implies !(#[trigger] rest[j] is Via) by {
            assert(rest[j] == headers[j + 1]);
        }
        lemma_first_via_at(rest, i - 1);
    }
}

/// A host that is an address is reached at its port, or else at 5060; a name is no
/// address. A request goes to the host of its URI.
pub proof fn law_messages_go_to_sockets(
    req: RequestView,
    ip: IpAddr,
    port: Option<u16>,
    name: Seq<char>,
)
    ensures
        connection::socket_of(HostWithPortView { host: HostView::IpAddr(ip), port }) == Ok::<
            _,
            ErrorView,
        >(
            SocketAddr {
                ip,
                port: if port is Some {
                    port->0
                } else {
                    5060
                },
            },
        ),
        connection::socket_of(HostWithPortView { host: HostView::Domain(name), port }) is Err,
        connection::destination_of(SipMessageView::Request(req)) == connection::socket_of(
            req.uri.host_with_port,
        ),
{
}

/// A response goes to where its top Via says.
pub proof fn law_response_goes_to_its_via(resp: ResponseView, top: ViaView)
    requires
        header::first_via(resp.headers) == Some(FieldView::Typed(top)),
    ensures
        connection::destination_of(SipMessageView::Response(resp)) == connection::socket_of(
            connection::via_target(top).1,
        ),
        top.params.len() == 0 ==> connection::via_target(top) == (
            top.transport,
            top.uri.host_with_port,
        ),
        forall|p: ParamView|
            #![trigger top.params.push(p)]
            {
                let more = connection::via_target(ViaView { params: top.params.push(p), ..top });
                let before = connection::via_target(top);
                &&& p matches ParamView::Rport(Some(port)) ==> more == (
                    before.0,
                    HostWithPortView { host: before.1.host, port: Some(port) },
                )
                &&& p matches ParamView::Received(ReceivedView::Ip(ip)) ==> more == (
                    before.0,
                    HostWithPortView { host: HostView::IpAddr(ip), port: before.1.port },
                )
                &&& p matches ParamView::Transport(t) ==> more == (t, before.1)
                &&& !(p is Rport || p is Received || p is Transport) ==> more == before
            },
{
    assert forall|p: ParamView|
        #![trigger top.params.push(p)]
        {
            let more = connection::via_target(ViaView { params: top.params.push(p), ..top });
            let before = connection::via_target(top);
            &&& p matches ParamView::Rport(Some(port)) ==> more == (
                before.0,
                HostWithPortView { host: before.1.host, port: Some(port) },
            )
            &&& p matches ParamView::Received(ReceivedView::Ip(ip)) ==> more == (
                before.0,
                HostWithPortView { host: HostView::IpAddr(ip), port: before.1.port },
            )
            &&& p matches ParamView::Transport(t) ==> more == (t, before.1)
            &&& !(p is Rport || p is Received || p is Transport) ==> more == before
        } by {
        assert(top.params.push(p).drop_last() == top.params);
    }
}

/// A socket is advertised by the address that it is bound to. Where it is bound to
/// no address in particular, it is advertised by the first IPv4 address of the host
/// that is not its loopback, or else by 127.0.0.1, with the port as it is.
pub proof fn law_bound_socket_is_advertised(addr: SocketAddr, list: Seq<IpAddr>, i: int)
    ensures
        ({
            let any = addr.ip == IpAddr::V4(0) || addr.ip == IpAddr::V6(0);
            let r = connection::bind_address(addr, Some(list));
            &&& !any ==> r == addr
            &&& r.port == addr.port
            &&& any && (forall|j: int|
                0 <= j < list.len() ==> !(#[trigger] list[j] matches IpAddr::V4(n) && n / 0x1000000
                    != 127)) ==> r.ip == IpAddr::V4(0x7f000001)
            &&& any && 0 <= i < list.len() && (list[i] matches IpAddr::V4(n) && n / 0x1000000
                != 127) && (forall|j: int|
                0 <= j < i ==> !(#[trigger] list[j] matches IpAddr::V4(n) && n / 0x1000000 != 127))
                ==> r.ip == list[i]
        }),
        connection::bind_address(addr, None) == addr,
{
    let pick = |ip: IpAddr| connection::usable_v4(ip);
    let any = addr.ip == IpAddr::V4(0) || addr.ip == IpAddr::V6(0);
    if any && 0 <= i < list.len() && (list[i] matches IpAddr::V4(n) && n / 0x1000000 != 127) && (
    forall|j: int|
        0 <= j < i ==> !(#[trigger] list[j] matches IpAddr::V4(n) && n / 0x1000000 != 127)) {
        lists::law_first_of_is_the_first(list, i, pick);
    }
    if any && forall|j: int|
        0 <= j < list.len() ==> !(#[trigger] list[j] matches IpAddr::V4(n) && n / 0x1000000
            != 127) {
        lists::law_first_of_nothing(list, pick);
    }
}

/// A message goes to the outbound proxy, where one is set, or else to its
/// destination. A name is resolved first. An open connection to the place is used;
/// without one, a stream is opened as the transport asks for.
pub proof fn law_connection_is_found_or_opened(
    layer: TransportLayerInnerView,
    destination: SipAddrView,
    outbound: Option<SipAddrView>,
)
    ensures
        ({
            let target = if outbound is Some {
                outbound->0
            } else {
                destination
            };
            let step = layer.lookup(destination, outbound);
            let known = layer.connections.contains_key(transport_layer::key_of(target));
            &&& target.addr.host matches HostView::Domain(name) ==> step == (
            LookupStepView::Resolve { target, domain: name })
            &&& target.addr.host is IpAddr && known ==> step == LookupStepView::Done(
                Ok((layer.connections[transport_layer::key_of(target)], target)),
            )
            &&& target.addr.host is IpAddr && !known ==> {
                &&& target.transport == Some(Transport::Tcp) ==> step == (
                LookupStepView::Connect { target, dial: DialView::Tcp })
                &&& target.transport == Some(Transport::Ws) || target.transport == Some(
                    Transport::Wss,
                ) ==> step == (LookupStepView::Connect {
                    target,
                    dial: DialView::WebSocket(layer.ws_path),
                })
                &&& target.transport == Some(Transport::Tls) ==> (
                step matches LookupStepView::Connect { target: t, dial: DialView::Tls(_) } && t
                    == target)
            }
        }),
{
}

/// A message that needs no stream goes out on the socket that listens on its very
/// destination, or else on the first one that listens on UDP, or else it cannot
/// go.
pub proof fn law_message_goes_out_on_a_listener(
    layer: TransportLayerInnerView,
    target: SipAddrView,
    i: int,
)
    requires
        target.addr.host is IpAddr,
        target.transport is None || target.transport == Some(Transport::Udp),
        !layer.connections.contains_key(transport_layer::key_of(target)),
    ensures
        ({
            let step = layer.lookup(target, None);
            let exact = exists|j: int|
                0 <= j < layer.listens.len() && (#[trigger] layer.listens[j]).addr() == target;
            &&& 0 <= i < layer.listens.len() && layer.listens[i].addr() == target && (forall|j: int|
                0 <= j < i ==> (#[trigger] layer.listens[j]).addr() != target) ==> step
                == LookupStepView::Done(Ok((layer.listens[i], target)))
            &&& !exact && 0 <= i < layer.listens.len() && layer.listens[i].addr().transport == Some(
                Transport::Udp,
            ) && (forall|j: int|
                0 <= j < i ==> (#[trigger] layer.listens[j]).addr().transport != Some(
                    Transport::Udp,
                )) ==> step == LookupStepView::Done(Ok((layer.listens[i], target)))
            &&& !exact && (forall|j: int|
                0 <= j < layer.listens.len() ==> (#[trigger] layer.listens[j]).addr().transport
                    != Some(Transport::Udp)) ==> (step matches LookupStepView::Done(Err(_)))
        }),
{
    let on = |c: SipConnectionView| transport_layer::listens_on(c, target);
    let udp = |c: SipConnectionView| transport_layer::is_udp_listener(c);
    let exact = exists|j: int|
        0 <= j < layer.listens.len() && (#[trigger] layer.listens[j]).addr() == target;
    if 0 <= i < layer.listens.len() && layer.listens[i].addr() == target && (forall|j: int|
        0 <= j < i ==> (#[trigger] layer.listens[j]).addr() != target) {
        lists::law_first_of_is_the_first(layer.listens, i, on);
    }
    if !exact {
        lists::law_first_of_nothing(layer.listens, on);
        if 0 <= i < layer.listens.len() && layer.listens[i].addr().transport == Some(
            Transport::Udp,
        ) && (forall|j: int|
            0 <= j < i ==> (#[trigger] layer.listens[j]).addr().transport != Some(
                Transport::Udp,
            )) {
            lists::law_first_of_is_the_first(layer.listens, i, udp);
        }
        if forall|j: int|
            0 <= j < layer.listens.len() ==> (#[trigger] layer.listens[j]).addr().transport != Some(
                Transport::Udp,
            ) {
            lists::law_first_of_nothing(layer.listens, udp);
        }
    }
}

/// Once a name is resolved, the search goes on with the address. The name is asked
/// for over TLS, unless the settings name another.
pub proof fn law_tls_asks_for_the_name(
    layer: TransportLayerInnerView,
    target: SipAddrView,
    domain: Option<Seq<char>>,
    config: TlsConfigView,
)
    requires
        target.transport == Some(Transport::Tls),
        !layer.connections.contains_key(transport_layer::key_of(target)),
    ensures
        layer.find(target, domain) matches LookupStepView::Connect {
            target: t,
            dial: DialView::Tls(used),
        } && t == target && {
            &&& layer.tls_config == Some(config) ==> used == if config.sni_hostname is Some {
                config
            } else {
                TlsConfigView { sni_hostname: domain, ..config }
            }
            &&& layer.tls_config is None ==> used == (TlsConfigView {
                cert: None,
                key: None,
                client_cert: None,
                client_key: None,
                ca_certs: None,
                sni_hostname: domain,
            })
        },
{
}

/// An address and the URI that names it stand for each other; a URI without a
/// transport stands for UDP as well.
pub proof fn law_address_and_uri_agree(addr: SipAddrView)
    ensures
        ({
            let u = sip_addr::uri_of_addr(addr);
            let back = sip_addr::addr_of_uri(u);
            &&& back.addr == addr.addr
            &&& addr.transport != Some(Transport::Udp) ==> back == addr
            &&& addr.transport == Some(Transport::Udp) ==> back.transport is None
            &&& u.user is None
            &&& u.scheme == Some(
                if addr.transport == Some(Transport::Tls) || addr.transport == Some(
                    Transport::Wss,
                ) {
                    Scheme::Sips
                } else {
                    Scheme::Sip
                },
            )
        }),
{
    let pick = |p: ParamView| uri::as_transport(p);
    let params = sip_addr::uri_of_addr(addr).params;
    if params.len() > 0 {
        lists::law_first_of_is_the_first(params, 0, pick);
    }
}

/// The address of a URI is its host, its port and the transport that it asks for.
pub proof fn law_address_of_a_uri(u: UriView)
    ensures
        sip_addr::addr_of_uri(u) == (SipAddrView {
            transport: uri::transport_in(u.params),
            addr: u.host_with_port,
        }),
{
}

/// What kind of connection it is tells the transport, whether messages have to be
/// sent again, and whether there is one peer.
pub proof fn law_connections_are_what_they_are(c: SipConnectionView)
    ensures
        c.is_reliable() <==> !(c is Udp),
        c.is_stream() <==> c is Tcp || c is Tls || c is WebSocket,
        c.is_listener() <==> c is TcpListener || c is TlsListener || c is WebSocketListener,
        c.is_stream() ==> c.remote_addr() is Some,
        c.is_listener() ==> c.remote_addr() is None,
        c is Udp || c is Channel <==> c.transport() == Transport::Udp,
        c is Tcp || c is TcpListener <==> c.transport() == Transport::Tcp,
        c is Tls || c is TlsListener <==> c.transport() == Transport::Tls,
        c is WebSocket <==> c.transport() == Transport::Ws,
        c.is_stream() ==> c.is_same_stream(c),
{
}

/// The flow of a connection is over once the connection is retired, and only a
/// stream can be retired; a listening socket has no flow.
pub proof fn law_retired_flow_is_over(
    layer: TransportLayerInnerView,
    c: SipConnectionView,
    other: SipConnectionView,
)
    ensures
        c.is_stream() ==> layer.retire_connection(c).is_over(c),
        !c.is_stream() ==> layer.retire_connection(c) == layer,
        other.is_listener() ==> !layer.retire_connection(c).is_over(other),
        other.id() != c.id() ==> layer.retire_connection(c).is_over(other) == layer.is_over(other),
        layer.retire_connection(c).listens == layer.listens,
{
}

/// A server needs a certificate and a key. The key is the first PKCS#8 key of its
/// file, or else the first PKCS#1 key.
pub proof fn law_key_is_the_first_of_its_file(
    pkcs8: Seq<Seq<u8>>,
    pkcs1: Result<Seq<Seq<u8>>, Seq<char>>,
    keys: Seq<Seq<u8>>,
    e: Seq<char>,
)
    ensures
        pkcs8.len() > 0 ==> tls::chosen_key(Ok(pkcs8), pkcs1) == Ok::<_, ErrorView>(
            PrivateKeyView::Pkcs8(pkcs8[0]),
        ),
        pkcs8.len() == 0 && keys.len() > 0 ==> tls::chosen_key(Ok(pkcs8), Ok(keys)) == Ok::<
            _,
            ErrorView,
        >(PrivateKeyView::Pkcs1(keys[0])),
        pkcs8.len() == 0 && keys.len() == 0 ==> tls::chosen_key(Ok(pkcs8), Ok(keys)) is Err,
        tls::chosen_key(Err(e), pkcs1) is Err,
        pkcs8.len() == 0 ==> tls::chosen_key(Ok(pkcs8), Err(e)) is Err,
{
}

/// An end shows the certificates of its own settings with the key of its own
/// settings, and only where it has both; a client trusts what its settings name.
pub proof fn law_identity_comes_from_the_settings(
    config: TlsConfigView,
    cert: Seq<u8>,
    file: Seq<u8>,
    certs: Seq<Seq<u8>>,
    key: PrivateKeyView,
)
    requires
        tls::certificates_in(cert) == Ok::<_, Seq<char>>(certs),
        tls::key_in(file) == Ok::<_, ErrorView>(key),
    ensures
        config.cert == Some(cert) && config.key == Some(file) ==> tls::server_identity(config)
            == Ok::<_, ErrorView>((certs, key)),
        config.cert is None || config.key is None ==> tls::server_identity(config) is Err,
        config.client_cert == Some(cert) && config.client_key == Some(file)
            ==> tls::client_identity(Some(config)) == Ok::<_, ErrorView>(Some((certs, key))),
        config.client_cert is None || config.client_key is None ==> tls::client_identity(
            Some(config),
        ) == Ok::<Option<(Seq<Seq<u8>>, PrivateKeyView)>, ErrorView>(None),
        config.ca_certs == Some(cert) ==> tls::trusted_certificates(Some(config)) == Ok::<
            _,
            ErrorView,
        >(certs),
        config.ca_certs is None ==> tls::trusted_certificates(Some(config)) == Ok::<
            Seq<Seq<u8>>,
            ErrorView,
        >(Seq::empty()),
{
}

/// A server is asked for by the name in the settings, or else by its host.
pub proof fn law_server_is_asked_for_by_name(
    config: TlsConfigView,
    name: Seq<char>,
    host: Seq<char>,
    ip: IpAddr,
    ip_text: Seq<char>,
)
    ensures
        config.sni_hostname == Some(name) ==> tls::name_to_ask(
            Some(config),
            HostView::Domain(host),
            ip_text,
        ) == name && tls::name_to_ask(Some(config), HostView::IpAddr(ip), ip_text) == name,
        config.sni_hostname is None ==> tls::name_to_ask(
            Some(config),
            HostView::Domain(host),
            ip_text,
        ) == host && tls::name_to_ask(Some(config), HostView::IpAddr(ip), ip_text) == ip_text,
{
}

/// The names below `invalid`, and that name itself, stand for nothing.
pub proof fn law_invalid_names_are_not_looked_up(host: Seq<char>)
    ensures
        transport_layer::is_invalid_domain("invalid"@),
        transport_layer::is_invalid_domain(host + ".invalid"@),
        transport_layer::is_invalid_domain(host) ==> host == "invalid"@ || exists|rest: Seq<char>|
            host == #[trigger] (rest + ".invalid"@),
{
    let long = host + ".invalid"@;
    assert(long.skip(long.len() - ".invalid"@.len()) == ".invalid"@);
    if transport_layer::is_invalid_domain(host) && host != "invalid"@ {
        let rest = host.take(host.len() - ".invalid"@.len());
        assert(host == rest + ".invalid"@);
    }
}

/// A request without a Via, or with one that cannot be read at the top, is refused.
pub proof fn law_request_needs_its_via(req: RequestView, addr: SocketAddr, transport: Transport)
    ensures
        (forall|j: int| 0 <= j < req.headers.len() ==> !(#[trigger] req.headers[j] is Via))
            ==> connection::msg_received(SipMessageView::Request(req), addr, transport) == Err::<
            SipMessageView,
            _,
        >(ErrorView::MissingHeader(HeaderKind::Via)),
        req.headers.len() > 0 && (req.headers[0] matches HeaderView::Via(FieldView::Malformed(_)))
            ==> connection::msg_received(SipMessageView::Request(req), addr, transport) == Err::<
            SipMessageView,
            _,
        >(ErrorView::MalformedHeader(HeaderKind::Via)),
{
    header::lemma_first_index(req.headers, HeaderKind::Via);
}

/// A client without settings shows no certificate and trusts none in particular.
pub proof fn law_client_without_settings()
    ensures
        tls::client_identity(None) == Ok::<Option<(Seq<Seq<u8>>, PrivateKeyView)>, ErrorView>(
            None,
        ),
        tls::trusted_certificates(None) == Ok::<Seq<Seq<u8>>, ErrorView>(Seq::empty()),
{
}

}

//! Connections, and what a connection does to the Via of a message.

use super::sip_addr::{SipAddr, SipAddrView};
use crate::error;
use crate::error::{Error, ErrorView};
use crate::lists;
use crate::sip::basic::{IpAddr, Transport};
use crate::sip::header;
use crate::sip::header::{Field, FieldView, Header, HeaderKind, HeaderView};
use crate::sip::message;
use crate::sip::message::{RequestView, SipMessage, SipMessageView};
use crate::sip::uri;
use crate::sip::uri::{
    Host, HostView, HostWithPort, HostWithPortView, Param, ParamView, Received, ReceivedView, Via,
    ViaView,
};
use vstd::prelude::*;
use vstd::string::*;

verus! {

pub const MAX_UDP_BUF_SIZE: usize = 8192;

/// A socket that is not bound to one peer, or need not be.
#[derive(Debug)]
pub struct Socket {
    pub id: u64,
    pub addr: SipAddr,
    pub remote_addr: Option<SipAddr>,
}

/// A stream to one peer. Two streams are the same if their `id` is.
#[derive(Debug)]
pub struct Stream {
    pub id: u64,
    pub addr: SipAddr,
    pub remote_addr: SipAddr,
}

/// A stream that encrypts, opened by this side or by the peer.
#[derive(Debug)]
pub struct TlsStream {
    pub is_client: bool,
    pub stream: Stream,
}

/// A socket that only accepts streams.
#[derive(Debug)]
pub struct Listener {
    pub id: u64,
    pub addr: SipAddr,
}

/// A way to send messages. It holds what the decisions need: which transport it
/// is, its addresses and the number by which it is found again.
#[derive(Debug)]
pub enum SipConnection {
    Channel(Socket),
    Udp(Socket),
    Tcp(Stream),
    TcpListener(Listener),
    Tls(TlsStream),
    TlsListener(Listener),
    WebSocket(Stream),
    WebSocketListener(Listener),
}

#[verifier::ext_equal]
pub struct SocketView {
    pub id: u64,
    pub addr: SipAddrView,
    pub remote_addr: Option<SipAddrView>,
}

#[verifier::ext_equal]
pub struct StreamView {
    pub id: u64,
    pub addr: SipAddrView,
    pub remote_addr: SipAddrView,
}

#[verifier::ext_equal]
pub struct ListenerView {
    pub id: u64,
    pub addr: SipAddrView,
}

#[verifier::ext_equal]
pub enum SipConnectionView {
    Channel(SocketView),
    Udp(SocketView),
    Tcp(StreamView),
    TcpListener(ListenerView),
    Tls(bool, StreamView),
    TlsListener(ListenerView),
    WebSocket(StreamView),
    WebSocketListener(ListenerView),
}

impl DeepView for Socket {
    type V = SocketView;

    open spec fn deep_view(&self) -> SocketView {
        SocketView {
            id: self.id,
            addr: self.addr.deep_view(),
            remote_addr: self.remote_addr.deep_view(),
        }
    }
}

impl DeepView for Stream {
    type V = StreamView;

    open spec fn deep_view(&self) -> StreamView {
        StreamView {
            id: self.id,
            addr: self.addr.deep_view(),
            remote_addr: self.remote_addr.deep_view(),
        }
    }
}

impl DeepView for Listener {
    type V = ListenerView;

    open spec fn deep_view(&self) -> ListenerView {
        ListenerView { id: self.id, addr: self.addr.deep_view() }
    }
}

impl DeepView for SipConnection {
    type V = SipConnectionView;

    open spec fn deep_view(&self) -> SipConnectionView {
        match self {
            SipConnection::Channel(s) => SipConnectionView::Channel(s.deep_view()),
            SipConnection::Udp(s) => SipConnectionView::Udp(s.deep_view()),
            SipConnection::Tcp(s) => SipConnectionView::Tcp(s.deep_view()),
            SipConnection::TcpListener(l) => SipConnectionView::TcpListener(l.deep_view()),
            SipConnection::Tls(s) => SipConnectionView::Tls(s.is_client, s.stream.deep_view()),
            SipConnection::TlsListener(l) => SipConnectionView::TlsListener(l.deep_view()),
            SipConnection::WebSocket(s) => SipConnectionView::WebSocket(s.deep_view()),
            SipConnection::WebSocketListener(l) => SipConnectionView::WebSocketListener(
                l.deep_view(),
            ),
        }
    }
}

impl View for SipConnection {
    type V = SipConnectionView;

    open spec fn view(&self) -> SipConnectionView {
        self.deep_view()
    }
}

impl Clone for Socket {
    fn clone(&self) -> (r: Self)
        ensures
            r.deep_view() == self.deep_view(),
    {
        Socket { id: self.id, addr: self.addr.clone(), remote_addr: self.remote_addr.clone() }
    }
}

impl Clone for Stream {
    fn clone(&self) -> (r: Self)
        ensures
            r.deep_view() == self.deep_view(),
    {
        Stream { id: self.id, addr: self.addr.clone(), remote_addr: self.remote_addr.clone() }
    }
}

impl Clone for Listener {
    fn clone(&self) -> (r: Self)
        ensures
            r.deep_view() == self.deep_view(),
    {
        Listener { id: self.id, addr: self.addr.clone() }
    }
}

impl Clone for SipConnection {
    fn clone(&self) -> (r: Self)
        ensures
            r.deep_view() == self.deep_view(),
    {
        match self {
            SipConnection::Channel(s) => SipConnection::Channel(s.clone()),
            SipConnection::Udp(s) => SipConnection::Udp(s.clone()),
            SipConnection::Tcp(s) => SipConnection::Tcp(s.clone()),
            SipConnection::TcpListener(l) => SipConnection::TcpListener(l.clone()),
            SipConnection::Tls(s) => SipConnection::Tls(
                TlsStream { is_client: s.is_client, stream: s.stream.clone() },
            ),
            SipConnection::TlsListener(l) => SipConnection::TlsListener(l.clone()),
            SipConnection::WebSocket(s) => SipConnection::WebSocket(s.clone()),
            SipConnection::WebSocketListener(l) => SipConnection::WebSocketListener(l.clone()),
        }
    }
}

impl SipConnectionView {
    pub open spec fn transport(self) -> Transport {
        match self {
            SipConnectionView::Udp(_) | SipConnectionView::Channel(_) => Transport::Udp,
            SipConnectionView::Tcp(_) | SipConnectionView::TcpListener(_) => Transport::Tcp,
            SipConnectionView::Tls(_, _) | SipConnectionView::TlsListener(_) => Transport::Tls,
            SipConnectionView::WebSocket(_) => Transport::Ws,
            SipConnectionView::WebSocketListener(_) => Transport::Wss,
        }
    }

    /// Messages need no retransmission: every transport but UDP.
    pub open spec fn is_reliable(self) -> bool {
        !(self is Udp)
    }

    /// A stream to one peer (TCP, TLS or WebSocket).
    pub open spec fn is_stream(self) -> bool {
        self is Tcp || self is Tls || self is WebSocket
    }

    pub open spec fn is_listener(self) -> bool {
        self is TcpListener || self is TlsListener || self is WebSocketListener
    }

    /// Both are the same stream; never so of anything but streams.
    pub open spec fn is_same_stream(self, other: SipConnectionView) -> bool {
        match (self, other) {
            (SipConnectionView::Tcp(a), SipConnectionView::Tcp(b)) => a.id == b.id,
            (SipConnectionView::Tls(x, a), SipConnectionView::Tls(y, b)) => x == y && a.id == b.id,
            (SipConnectionView::WebSocket(a), SipConnectionView::WebSocket(b)) => a.id == b.id,
            _ => false,
        }
    }

    pub open spec fn id(self) -> u64 {
        match self {
            SipConnectionView::Channel(s) | SipConnectionView::Udp(s) => s.id,
            SipConnectionView::Tcp(s) | SipConnectionView::Tls(_, s) | SipConnectionView::WebSocket(
                s,
            ) => s.id,
            SipConnectionView::TcpListener(l) | SipConnectionView::TlsListener(l)
            | SipConnectionView::WebSocketListener(l) => l.id,
        }
    }

    pub open spec fn addr(self) -> SipAddrView {
        match self {
            SipConnectionView::Channel(s) | SipConnectionView::Udp(s) => s.addr,
            SipConnectionView::Tcp(s) | SipConnectionView::Tls(_, s) | SipConnectionView::WebSocket(
                s,
            ) => s.addr,
            SipConnectionView::TcpListener(l) | SipConnectionView::TlsListener(l)
            | SipConnectionView::WebSocketListener(l) => l.addr,
        }
    }

    pub open spec fn remote_addr(self) -> Option<SipAddrView> {
        match self {
            SipConnectionView::Channel(s) | SipConnectionView::Udp(s) => s.remote_addr,
            SipConnectionView::Tcp(s) | SipConnectionView::Tls(_, s) | SipConnectionView::WebSocket(
                s,
            ) => Some(s.remote_addr),
            _ => None,
        }
    }
}

impl SipConnection {
    pub fn transport(&self) -> (r: Transport)
        ensures
            r == self@.transport(),
    {
        match self {
            SipConnection::Udp(_) | SipConnection::Channel(_) => Transport::Udp,
            SipConnection::Tcp(_) | SipConnection::TcpListener(_) => Transport::Tcp,
            SipConnection::Tls(_) | SipConnection::TlsListener(_) => Transport::Tls,
            SipConnection::WebSocket(_) => Transport::Ws,
            SipConnection::WebSocketListener(_) => Transport::Wss,
        }
    }

    pub fn is_reliable(&self) -> (r: bool)
        ensures
            r == self@.is_reliable(),
    {
        !matches!(self, SipConnection::Udp(_))
    }

    pub fn is_stream(&self) -> (r: bool)
        ensures
            r == self@.is_stream(),
    {
        matches!(self, SipConnection::Tcp(_) | SipConnection::Tls(_) | SipConnection::WebSocket(_))
    }

    pub fn is_listener(&self) -> (r: bool)
        ensures
            r == self@.is_listener(),
    {
        matches!(
            self,
            SipConnection::TcpListener(_) | SipConnection::TlsListener(_)
                | SipConnection::WebSocketListener(_)
        )
    }

    pub fn is_same_stream(&self, other: &SipConnection) -> (r: bool)
        ensures
            r == self@.is_same_stream(other@),
    {
        match (self, other) {
            (SipConnection::Tcp(a), SipConnection::Tcp(b)) => a.id == b.id,
            (SipConnection::Tls(a), SipConnection::Tls(b)) => a.is_client == b.is_client
                && a.stream.id == b.stream.id,
            (SipConnection::WebSocket(a), SipConnection::WebSocket(b)) => a.id == b.id,
            _ => false,
        }
    }

    pub fn id(&self) -> (r: u64)
        ensures
            r == self@.id(),
    {
        match self {
            SipConnection::Channel(s) | SipConnection::Udp(s) => s.id,
            SipConnection::Tcp(s) | SipConnection::WebSocket(s) => s.id,
            SipConnection::Tls(s) => s.stream.id,
            SipConnection::TcpListener(l) | SipConnection::TlsListener(l)
            | SipConnection::WebSocketListener(l) => l.id,
        }
    }

    pub fn get_addr(&self) -> (r: &SipAddr)
        ensures
            r@ == self@.addr(),
    {
        match self {
            SipConnection::Channel(s) | SipConnection::Udp(s) => &s.addr,
            SipConnection::Tcp(s) | SipConnection::WebSocket(s) => &s.addr,
            SipConnection::Tls(s) => &s.stream.addr,
            SipConnection::TcpListener(l) | SipConnection::TlsListener(l)
            | SipConnection::WebSocketListener(l) => &l.addr,
        }
    }

    pub fn get_remote_addr(&self) -> (r: Option<SipAddr>)
        ensures
            r.deep_view() == self@.remote_addr(),
    {
        match self {
            SipConnection::Channel(s) | SipConnection::Udp(s) => s.remote_addr.clone(),
            SipConnection::Tcp(s) | SipConnection::WebSocket(s) => Some(s.remote_addr.clone()),
            SipConnection::Tls(s) => Some(s.stream.remote_addr.clone()),
            _ => None,
        }
    }
}

/// An address and a port.
#[derive(Clone, Copy, Debug, PartialEq, Eq, Structural)]
pub struct SocketAddr {
    pub ip: IpAddr,
    pub port: u16,
}

impl SocketAddr {
    /// The host and port of a peer.
    pub open spec fn host_with_port(self) -> HostWithPortView {
        HostWithPortView { host: HostView::IpAddr(self.ip), port: Some(self.port) }
    }
}

impl DeepView for SocketAddr {
    type V = SocketAddr;

    open spec fn deep_view(&self) -> SocketAddr {
        *self
    }
}

/// The address, if it is an IPv4 address of another interface than the loopback.
pub open spec fn usable_v4(ip: IpAddr) -> Option<IpAddr> {
    if ip is V4 && !ip.spec_is_loopback() {
        Some(ip)
    } else {
        None
    }
}

/// The address to advertise for a socket bound to `addr`.
pub open spec fn bind_address(addr: SocketAddr, interfaces: Option<Seq<IpAddr>>) -> SocketAddr {
    match interfaces {
        Some(list) if addr.ip.spec_is_unspecified() => SocketAddr {
            ip: match lists::first_of(list, |ip: IpAddr| usable_v4(ip)) {
                Some(ip) => ip,
                None => IpAddr::V4(0x7f000001),
            },
            port: addr.port,
        },
        _ => addr,
    }
}

/// A message as it is once its source is noted.
pub open spec fn msg_received(
    msg: SipMessageView,
    addr: SocketAddr,
    transport: Transport,
) -> Result<SipMessageView, ErrorView> {
    match msg {
        SipMessageView::Request(req) => {
            let i = header::first_index(req.headers, HeaderKind::Via);
            if i == req.headers.len() {
                Err(ErrorView::MissingHeader(HeaderKind::Via))
            } else {
                match req.headers[i] {
                    HeaderView::Via(FieldView::Typed(v)) => Ok(
                        SipMessageView::Request(
                            RequestView {
                                headers: req.headers.update(
                                    i,
                                    HeaderView::Via(
                                        FieldView::Typed(via_received(v, addr, transport)),
                                    ),
                                ),
                                ..req
                            },
                        ),
                    ),
                    _ => Err(ErrorView::MalformedHeader(HeaderKind::Via)),
                }
            }
        },
        SipMessageView::Response(_) => Ok(msg),
    }
}

/// The socket address of a host: port 5060 where none is given, and an error
/// for a host name.
pub open spec fn socket_of(host: HostWithPortView) -> Result<SocketAddr, ErrorView> {
    match host.host {
        HostView::IpAddr(ip) => Ok(
            SocketAddr {
                ip,
                port: match host.port {
                    Some(p) => p,
                    None => 5060,
                },
            },
        ),
        HostView::Domain(name) => Err(ErrorView::Error("not an IP address: "@ + name)),
    }
}

/// The socket address that a message goes to.
pub open spec fn destination_of(msg: SipMessageView) -> Result<SocketAddr, ErrorView> {
    match msg {
        SipMessageView::Request(req) => socket_of(req.uri.host_with_port),
        SipMessageView::Response(resp) => match message::via_of(resp.headers) {
            Ok(via) => socket_of(via_target(via).1),
            Err(e) => Err(e),
        },
    }
}

/// The parameters that say nothing of the source of a message.
pub open spec fn without_source(params: Seq<ParamView>) -> Seq<ParamView> {
    params.filter(|p: ParamView| !(p is Rport) && !(p is Received))
}

/// The Via of a request that came from `addr` over `transport`: with the port
/// it came from where the sender asked for it, and with the address too where
/// it is not the one that the Via names.
pub open spec fn via_received(via: ViaView, addr: SocketAddr, transport: Transport) -> ViaView {
    let asked = uri::rport_in(via.params) is Some;
    let base = without_source(via.params);
    let port = ParamView::Rport(Some(addr.port));
    let named = via.uri.host_with_port;
    if named == addr.host_with_port() || (transport != Transport::Udp && named.host
        == addr.host_with_port().host) {
        if asked {
            ViaView { params: base.push(port), ..via }
        } else {
            via
        }
    } else {
        let with_transport = if transport != Transport::Udp && via.transport != transport {
            base.push(ParamView::Transport(transport))
        } else {
            base
        };
        ViaView {
            params: with_transport.push(ParamView::Received(ReceivedView::Ip(addr.ip))).push(port),
            ..via
        }
    }
}

/// What one more parameter says of where an answer goes.
pub open spec fn target_step(
    target: (Transport, HostWithPortView),
    p: ParamView,
) -> (Transport, HostWithPortView) {
    match p {
        ParamView::Received(ReceivedView::Ip(ip)) => (
            target.0,
            HostWithPortView { host: HostView::IpAddr(ip), ..target.1 },
        ),
        ParamView::Transport(t) => (t, target.1),
        ParamView::Rport(Some(port)) => (
            target.0,
            HostWithPortView { port: Some(port), ..target.1 },
        ),
        _ => target,
    }
}

/// Where an answer goes, starting from `target` and going by the parameters in
/// order.
pub open spec fn target_after(
    target: (Transport, HostWithPortView),
    params: Seq<ParamView>,
) -> (Transport, HostWithPortView)
    decreases params.len(),
{
    if params.len() == 0 {
        target
    } else {
        target_step(target_after(target, params.drop_last()), params.last())
    }
}

/// Where the answer to a request with this top Via goes.
pub open spec fn via_target(via: ViaView) -> (Transport, HostWithPortView) {
    target_after((via.transport, via.uri.host_with_port), via.params)
}

fn remove_source(params: &Vec<Param>) -> (r: Vec<Param>)
    ensures
        r.deep_view() == without_source(params.deep_view()),
{
    let mut kept: Vec<Param> = Vec::new();
    let mut i: usize = 0;
    let ghost all = params.deep_view();
    while i < params.len()
        invariant
            i <= params.len(),
            all == params.deep_view(),
            kept.deep_view() == without_source(all.take(i as int)),
        decreases params.len() - i,
    {
        proof {
            lists::lemma_filter_step(
                all,
                i as int,
                |p: ParamView| !(p is Rport) && !(p is Received),
            );
        }
        match &params[i] {
            Param::Rport(_) | Param::Received(_) => {},
            p => {
                push_param(&mut kept, p.clone());
            },
        }
        i = i + 1;
    }
    assert(all.take(i as int) == all);
    kept
}

fn push_param(params: &mut Vec<Param>, p: Param)
    ensures
        final(params).deep_view() == old(params).deep_view().push(p.deep_view()),
{
    params.push(p);
}

impl SipConnection {
    /// Marks the Via of a request with the address that the request came from.
    /// A Via that cannot be read is an error and stays as it is.
    pub fn build_via_received(
        via: &mut Field<Via>,
        addr: SocketAddr,
        transport: Transport,
    ) -> (r: Result<(), Error>)
        ensures
            match old(via).deep_view() {
                FieldView::Typed(v) => r is Ok && final(via).deep_view() == FieldView::Typed(
                    via_received(v, addr, transport),
                ),
                FieldView::Malformed(_) => r matches Err(e) && e@ == ErrorView::MalformedHeader(
                    HeaderKind::Via,
                ) && final(via).deep_view() == old(via).deep_view(),
            },
    {
        let typed_via = match via {
            Field::Typed(v) => v.clone(),
            Field::Malformed(_) => return Err(Error::MalformedHeader(HeaderKind::Via)),
        };
        let received = HostWithPort { host: Host::IpAddr(addr.ip), port: Some(addr.port) };
        let rport_requested = uri::find_rport(&typed_via.params).is_some();
        let mut params = remove_source(&typed_via.params);
        let named = &typed_via.uri.host_with_port;
        if named.same(&received) || (transport != Transport::Udp && named.host.same(
            &received.host,
        )) {
            if rport_requested {
                push_param(&mut params, Param::Rport(Some(addr.port)));
                *via = Field::Typed(
                    Via {
                        version: typed_via.version,
                        transport: typed_via.transport,
                        uri: typed_via.uri,
                        params,
                    },
                );
            }
            return Ok(());
        }
        if transport != Transport::Udp && typed_via.transport != transport {
            push_param(&mut params, Param::Transport(transport));
        }
        push_param(&mut params, Param::Received(Received::Ip(addr.ip)));
        push_param(&mut params, Param::Rport(Some(addr.port)));
        *via = Field::Typed(
            Via {
                version: typed_via.version,
                transport: typed_via.transport,
                uri: typed_via.uri,
                params,
            },
        );
        Ok(())
    }

    /// Marks the top Via of a request with the address that it came from. A
    /// response stays as it is.
    pub fn update_msg_received(
        msg: SipMessage,
        addr: SocketAddr,
        transport: Transport,
    ) -> (r: Result<SipMessage, Error>)
        ensures
            error::result_view(r) == msg_received(msg@, addr, transport),
    {
        match msg {
            SipMessage::Request(mut req) => {
                let i: usize = header::index_of(&req.headers, HeaderKind::Via);
                if i == req.headers.len() {
                    return Err(Error::MissingHeader(HeaderKind::Via));
                }
                match &req.headers[i] {
                    Header::Via(v) => {
                        let mut via = v.clone();
                        match Self::build_via_received(&mut via, addr, transport) {
                            Ok(()) => {},
                            Err(e) => {
                                return Err(e);
                            },
                        }
                        header::replace(&mut req.headers, i, Header::Via(via));
                    },
                    _ => {},
                }
                Ok(SipMessage::Request(req))
            },
            SipMessage::Response(resp) => Ok(SipMessage::Response(resp)),
        }
    }

    /// The address to advertise for a socket that is bound to every interface:
    /// the first IPv4 interface that is not the loopback, or `127.0.0.1` when
    /// there is none. `interfaces` is `None` where they cannot be listed.
    pub fn resolve_bind_address(addr: SocketAddr, interfaces: Option<&Vec<IpAddr>>) -> (r: SocketAddr)
        ensures
            r == bind_address(
                addr,
                match interfaces {
                    Some(v) => Some(v@),
                    None => None,
                },
            ),
    {
        if addr.ip.is_unspecified() {
            let Some(list) = interfaces else {
                return addr;
            };
            let mut i: usize = 0;
            assert(list@.skip(0) == list@);
            while i < list.len()
                invariant
                    i <= list.len(),
                    interfaces == Some(list),
                    addr.ip.spec_is_unspecified(),
                    lists::first_of(list@.skip(i as int), |ip: IpAddr| usable_v4(ip))
                        == lists::first_of(list@, |ip: IpAddr| usable_v4(ip)),
                decreases list.len() - i,
            {
                proof {
                    lists::lemma_first_of_step(list@, i as int, |ip: IpAddr| usable_v4(ip));
                }
                let ip = list[i];
                if !ip.is_loopback() {
                    if let IpAddr::V4(n) = ip {
                        return SocketAddr { ip: IpAddr::V4(n), port: addr.port };
                    }
                }
                i = i + 1;
            }
            return SocketAddr { ip: IpAddr::V4(0x7f000001), port: addr.port };
        }
        addr
    }

    /// Where the answer to a request goes, by the request's top Via.
    pub fn parse_target_from_via(via: &Field<Via>) -> (r: Result<(Transport, HostWithPort), Error>)
        ensures
            match via.deep_view() {
                FieldView::Typed(v) => r matches Ok(t) && (t.0, t.1.deep_view()) == via_target(v),
                FieldView::Malformed(_) => r matches Err(e) && e@ == ErrorView::MalformedHeader(
                    HeaderKind::Via,
                ),
            },
    {
        let typed_via = match via {
            Field::Typed(v) => v,
            Field::Malformed(_) => return Err(Error::MalformedHeader(HeaderKind::Via)),
        };
        let mut host_with_port = typed_via.uri.host_with_port.clone();
        let mut transport = typed_via.transport;
        let ghost start = (typed_via.transport, typed_via.uri.host_with_port.deep_view());
        let ghost all = typed_via.params.deep_view();
        let mut i: usize = 0;
        while i < typed_via.params.len()
            invariant
                i <= typed_via.params.len(),
                all == typed_via.params.deep_view(),
                (transport, host_with_port.deep_view()) == target_after(start, all.take(i as int)),
            decreases typed_via.params.len() - i,
        {
            assert(all.take(i + 1).drop_last() == all.take(i as int));
            assert(all.take(i + 1).last() == all[i as int]);
            match &typed_via.params[i] {
                Param::Received(Received::Ip(ip)) => {
                    host_with_port.host = Host::IpAddr(*ip);
                },
                Param::Transport(t) => {
                    transport = *t;
                },
                Param::Rport(Some(port)) => {
                    host_with_port.port = Some(*port);
                },
                _ => {},
            }
            i = i + 1;
        }
        assert(all.take(i as int) == all);
        Ok((transport, host_with_port))
    }

    /// The socket address that a message goes to: a request to its URI, a
    /// response to where its top Via says. A host name has no such address.
    pub fn get_destination(msg: &SipMessage) -> (r: Result<SocketAddr, Error>)
        ensures
            error::result_view(r) == destination_of(msg@),
    {
        let host_with_port = match msg {
            SipMessage::Request(req) => req.uri.host_with_port.clone(),
            SipMessage::Response(res) => match header::find_via(&res.headers) {
                Some(via) => match Self::parse_target_from_via(&via) {
                    Ok(t) => t.1,
                    Err(e) => return Err(e),
                },
                None => return Err(Error::MissingHeader(HeaderKind::Via)),
            },
        };
        match host_with_port.host {
            Host::IpAddr(ip) => Ok(
                SocketAddr {
                    ip,
                    port: match host_with_port.port {
                        Some(p) => p,
                        None => 5060,
                    },
                },
            ),
            Host::Domain(name) => {
                let mut m = "not an IP address: ".to_owned();
                m.append(name.as_str());
                Err(Error::Error(m))
            },
        }
    }
}

proof fn lemma_target_keeps_address(start: (Transport, HostWithPortView), params: Seq<ParamView>)
    requires
        forall|i: int|
            0 <= i < params.len() ==> !(#[trigger] params[i] is Rport) && !(params[i] is Received),
    ensures
        target_after(start, params).1 == start.1,
    decreases params.len(),
{
    if params.len() > 0 {
        let rest = params.drop_last();
        assert forall|i: int| 0 <= i < rest.len() implies !(#[trigger] rest[i] is Rport) && !(
        rest[i] is Received) by {
            assert(rest[i] == params[i]);
        }
        lemma_target_keeps_address(start, rest);
        assert(params.last() == params[params.len() - 1]);
    }
}

proof fn lemma_without_source(params: Seq<ParamView>)
    ensures
        forall|i: int|
            0 <= i < without_source(params).len() ==> !(
            #[trigger] without_source(params)[i] is Rport) && !(without_source(params)[i] is Received),
{
    let keep = |p: ParamView| !(p is Rport) && !(p is Received);
    assert forall|i: int| 0 <= i < without_source(params).len() implies !(
    #[trigger] without_source(params)[i] is Rport) && !(without_source(params)[i] is Received) by {
        params.lemma_filter_pred(keep, i);
    }
}

proof fn lemma_target_keeps_transport(start: (Transport, HostWithPortView), params: Seq<ParamView>)
    requires
        forall|i: int| 0 <= i < params.len() ==> !(#[trigger] params[i] is Transport),
    ensures
        target_after(start, params).0 == start.0,
    decreases params.len(),
{
    if params.len() > 0 {
        let rest = params.drop_last();
        assert forall|i: int| 0 <= i < rest.len() implies !(#[trigger] rest[i] is Transport) by {
            assert(rest[i] == params[i]);
        }
        lemma_target_keeps_transport(start, rest);
        assert(params.last() == params[params.len() - 1]);
    }
}

/// The answer to a request that came in over the transport that its Via names
/// goes out over the same transport, unless a parameter of the Via asks for
/// another.
pub proof fn law_answer_keeps_the_transport(via: ViaView, addr: SocketAddr, transport: Transport)
    requires
        transport == via.transport,
        forall|i: int| 0 <= i < via.params.len() ==> !(#[trigger] via.params[i] is Transport),
    ensures
        via_target(via_received(via, addr, transport)).0 == transport,
{
    let after = via_received(via, addr, transport);
    let base = without_source(via.params);
    let keep = |p: ParamView| !(p is Rport) && !(p is Received);
    assert forall|i: int| 0 <= i < base.len() implies !(#[trigger] base[i] is Transport) by {
        assert(base.contains(base[i]));
        via.params.lemma_filter_contains_rev(keep, base[i]);
    }
    assert forall|i: int| 0 <= i < after.params.len() implies !(
    #[trigger] after.params[i] is Transport) by {
        if i < base.len() && after != via {
            assert(after.params[i] == base[i]);
        }
    }
    lemma_target_keeps_transport((via.transport, via.uri.host_with_port), after.params);
}

/// The answer to a request goes back to the address and port that the request
/// came from: over UDP whatever the Via names, and over any transport once the
/// sender asked for its port. Left out is a Via that already carries a
/// `received` parameter, or over a stream another port, without asking for the
/// port.
pub proof fn law_answer_returns_to_source(via: ViaView, addr: SocketAddr, transport: Transport)
    requires
        uri::rport_in(via.params) is Some || (transport == Transport::Udp && uri::received_in(
            via.params,
        ) is None),
    ensures
        via_target(via_received(via, addr, transport)).1 == addr.host_with_port(),
{
    let start = (via.transport, via.uri.host_with_port);
    let base = without_source(via.params);
    let port = ParamView::Rport(Some(addr.port));
    reveal_with_fuel(target_after, 4);
    lemma_without_source(via.params);
    lemma_target_keeps_address(start, base);
    let after = via_received(via, addr, transport);
    if after == via {
        let i = lists::lemma_first_of_found(via.params, |p: ParamView| uri::as_received(p));
        let j = lists::lemma_first_of_found(via.params, |p: ParamView| uri::as_rport(p));
        if uri::rport_in(via.params) is None {
            assert forall|k: int| 0 <= k < via.params.len() implies !(
            #[trigger] via.params[k] is Rport) && !(via.params[k] is Received) by {
                let pick = |p: ParamView| uri::as_received(p);
                assert(pick(via.params[k]) is None);
                let pick = |p: ParamView| uri::as_rport(p);
                assert(pick(via.params[k]) is None);
            }
            lemma_target_keeps_address(start, via.params);
        }
    }
    if via.uri.host_with_port == addr.host_with_port() || (transport != Transport::Udp
        && via.uri.host_with_port.host == addr.host_with_port().host) {
        if uri::rport_in(via.params) is Some {
            assert(base.push(port).drop_last() == base);
        }
    } else {
        let with_transport = if transport != Transport::Udp && via.transport != transport {
            base.push(ParamView::Transport(transport))
        } else {
            base
        };
        assert(base.push(ParamView::Transport(transport)).drop_last() == base);
        let source = ParamView::Received(ReceivedView::Ip(addr.ip));
        assert(with_transport.push(source).push(port).drop_last() == with_transport.push(source));
        assert(with_transport.push(source).drop_last() == with_transport);
    }
}

}

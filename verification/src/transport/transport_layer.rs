//! Which connection a message goes out on.

use super::connection::{SipConnection, SipConnectionView};
use super::sip_addr::{SipAddr, SipAddrView};
use super::tls;
use super::tls::{TlsConfig, TlsConfigView};
use crate::error;
use crate::error::{Error, ErrorView};
use crate::lists;
use crate::maps;
use crate::maps::{AddrKey, AddrKeyView};
use crate::sip::basic::{IpAddr, Transport};
use crate::sip::uri::{Host, HostView, HostWithPort, HostWithPortView};
use crate::text;
use dashmap::DashMap;
use std::collections::HashSet;
use vstd::prelude::*;
use vstd::string::*;

verus! {

broadcast use vstd::std_specs::hash::group_hash_axioms;

pub open spec fn transport_number(t: Option<Transport>) -> u8 {
    match t {
        None => 0,
        Some(Transport::Udp) => 1,
        Some(Transport::Tcp) => 2,
        Some(Transport::Tls) => 3,
        Some(Transport::Sctp) => 4,
        Some(Transport::TlsSctp) => 5,
        Some(Transport::Ws) => 6,
        Some(Transport::Wss) => 7,
    }
}

/// An address as a tuple of plain values.
pub open spec fn key_of(addr: SipAddrView) -> AddrKeyView {
    let port: u32 = match addr.addr.port {
        Some(p) => (p + 1) as u32,
        None => 0,
    };
    match addr.addr.host {
        HostView::Domain(name) => (transport_number(addr.transport), 0, name, 0, port),
        HostView::IpAddr(IpAddr::V4(n)) => (
            transport_number(addr.transport),
            4,
            Seq::empty(),
            n as u128,
            port,
        ),
        HostView::IpAddr(IpAddr::V6(n)) => (
            transport_number(addr.transport),
            6,
            Seq::empty(),
            n,
            port,
        ),
    }
}

/// Different addresses are kept apart.
pub proof fn law_addresses_are_kept_apart(a: SipAddrView, b: SipAddrView)
    ensures
        key_of(a) == key_of(b) <==> a == b,
{
    if key_of(a) == key_of(b) {
        assert(a.transport == b.transport);
        assert(a.addr.port == b.addr.port);
        assert(a.addr.host == b.addr.host);
    }
}

fn addr_key(addr: &SipAddr) -> (k: AddrKey)
    ensures
        k.deep_view() == key_of(addr@),
{
    let t: u8 = match addr.transport {
        None => 0,
        Some(Transport::Udp) => 1,
        Some(Transport::Tcp) => 2,
        Some(Transport::Tls) => 3,
        Some(Transport::Sctp) => 4,
        Some(Transport::TlsSctp) => 5,
        Some(Transport::Ws) => 6,
        Some(Transport::Wss) => 7,
    };
    let port: u32 = match addr.addr.port {
        Some(p) => p as u32 + 1,
        None => 0,
    };
    match &addr.addr.host {
        Host::Domain(name) => (t, 0, name.clone(), 0, port),
        Host::IpAddr(IpAddr::V4(n)) => (t, 4, String::new(), *n as u128, port),
        Host::IpAddr(IpAddr::V6(n)) => (t, 6, String::new(), *n, port),
    }
}

/// The listening sockets, the open connections by the address of their peer,
/// and the numbers of the connections that are over.
pub struct TransportLayerInner {
    pub listens: Vec<SipConnection>,
    pub connections: DashMap<AddrKey, SipConnection>,
    pub cancelled: HashSet<u64>,
    pub tls_config: Option<TlsConfig>,
    pub ws_path: Option<String>,
}

#[verifier::ext_equal]
pub struct TransportLayerInnerView {
    pub listens: Seq<SipConnectionView>,
    pub connections: Map<AddrKeyView, SipConnectionView>,
    pub cancelled: Set<u64>,
    pub tls_config: Option<TlsConfigView>,
    pub ws_path: Option<Seq<char>>,
}

impl View for TransportLayerInner {
    type V = TransportLayerInnerView;

    open spec fn view(&self) -> TransportLayerInnerView {
        TransportLayerInnerView {
            listens: self.listens.deep_view(),
            connections: maps::connections_in(self.connections),
            cancelled: self.cancelled@,
            tls_config: self.tls_config.deep_view(),
            ws_path: self.ws_path.deep_view(),
        }
    }
}

pub struct TransportLayer {
    /// The proxy that all messages go through, if there is one.
    pub outbound: Option<SipAddr>,
    pub inner: TransportLayerInner,
}

#[verifier::ext_equal]
pub struct TransportLayerView {
    pub outbound: Option<SipAddrView>,
    pub inner: TransportLayerInnerView,
}

impl View for TransportLayer {
    type V = TransportLayerView;

    open spec fn view(&self) -> TransportLayerView {
        TransportLayerView { outbound: self.outbound.deep_view(), inner: self.inner@ }
    }
}

/// How a connection is to be opened.
pub enum Dial {
    Tcp,
    Tls(TlsConfig),
    /// A WebSocket with the path to ask for.
    WebSocket(Option<String>),
}

#[verifier::ext_equal]
pub enum DialView {
    Tcp,
    Tls(TlsConfigView),
    WebSocket(Option<Seq<char>>),
}

impl View for Dial {
    type V = DialView;

    open spec fn view(&self) -> DialView {
        match self {
            Dial::Tcp => DialView::Tcp,
            Dial::Tls(c) => DialView::Tls(c@),
            Dial::WebSocket(p) => DialView::WebSocket(p.deep_view()),
        }
    }
}

/// The next step of a search for a connection.
pub enum LookupStep {
    /// Resolve the host of `target`, whose name is `domain`, and go on with
    /// [`TransportLayerInner::lookup_resolved`].
    Resolve { target: SipAddr, domain: String },
    /// Open a connection to `target` and go on with
    /// [`TransportLayerInner::lookup_connected`].
    Connect { target: SipAddr, dial: Dial },
    Done(Result<(SipConnection, SipAddr), Error>),
}

#[verifier::ext_equal]
pub enum LookupStepView {
    Resolve { target: SipAddrView, domain: Seq<char> },
    Connect { target: SipAddrView, dial: DialView },
    Done(Result<(SipConnectionView, SipAddrView), ErrorView>),
}

impl View for LookupStep {
    type V = LookupStepView;

    open spec fn view(&self) -> LookupStepView {
        match self {
            LookupStep::Resolve { target, domain } => LookupStepView::Resolve {
                target: target@,
                domain: domain@,
            },
            LookupStep::Connect { target, dial } => LookupStepView::Connect {
                target: target@,
                dial: dial@,
            },
            LookupStep::Done(r) => LookupStepView::Done(error::result_view(*r)),
        }
    }
}

pub open spec fn transport_text(t: Option<Transport>) -> Seq<char> {
    match t {
        None => "None"@,
        Some(Transport::Udp) => "Some(Udp)"@,
        Some(Transport::Tcp) => "Some(Tcp)"@,
        Some(Transport::Tls) => "Some(Tls)"@,
        Some(Transport::Sctp) => "Some(Sctp)"@,
        Some(Transport::TlsSctp) => "Some(TlsSctp)"@,
        Some(Transport::Ws) => "Some(Ws)"@,
        Some(Transport::Wss) => "Some(Wss)"@,
    }
}

fn transport_name(t: Option<Transport>) -> (s: &'static str)
    ensures
        s@ == transport_text(t),
{
    match t {
        None => "None",
        Some(Transport::Udp) => "Some(Udp)",
        Some(Transport::Tcp) => "Some(Tcp)",
        Some(Transport::Tls) => "Some(Tls)",
        Some(Transport::Sctp) => "Some(Sctp)",
        Some(Transport::TlsSctp) => "Some(TlsSctp)",
        Some(Transport::Ws) => "Some(Ws)",
        Some(Transport::Wss) => "Some(Wss)",
    }
}

/// A listener with exactly this address.
pub open spec fn listens_on(c: SipConnectionView, addr: SipAddrView) -> Option<SipConnectionView> {
    if c.addr() == addr {
        Some(c)
    } else {
        None
    }
}

/// A listener whose address is a UDP address.
pub open spec fn is_udp_listener(c: SipConnectionView) -> Option<SipConnectionView> {
    if c.addr().transport == Some(Transport::Udp) {
        Some(c)
    } else {
        None
    }
}

/// The socket that a message to `target` goes out on where no connection to it
/// is open or has to be opened: one that listens on that very address, else the
/// first that listens on UDP.
pub open spec fn listener_for(listens: Seq<SipConnectionView>, target: SipAddrView) -> Result<
    (SipConnectionView, SipAddrView),
    ErrorView,
> {
    match lists::first_of(listens, |c: SipConnectionView| listens_on(c, target)) {
        Some(c) => Ok((c, target)),
        None => match lists::first_of(listens, |c: SipConnectionView| is_udp_listener(c)) {
            Some(c) => Ok((c, target)),
            None => Err(
                ErrorView::TransportLayerError(
                    "unsupported transport type: "@ + transport_text(target.transport),
                    target,
                ),
            ),
        },
    }
}

impl TransportLayerInnerView {
    /// The open connection to a peer.
    pub open spec fn connection_to(self, addr: SipAddrView) -> Option<SipConnectionView> {
        if self.connections.contains_key(key_of(addr)) {
            Some(self.connections[key_of(addr)])
        } else {
            None
        }
    }

    /// The flow of a connection is over. A listening socket has none.
    pub open spec fn is_over(self, c: SipConnectionView) -> bool {
        !c.is_listener() && self.cancelled.contains(c.id())
    }

    /// The connection is the open one to its peer, if it has a peer.
    pub open spec fn add_connection(self, c: SipConnectionView) -> TransportLayerInnerView {
        match c.remote_addr() {
            Some(addr) => TransportLayerInnerView {
                connections: self.connections.insert(key_of(addr), c),
                ..self
            },
            None => self,
        }
    }

    /// A stream is over, and no longer the one to its peer; a newer stream to
    /// the same peer stays.
    pub open spec fn retire_connection(self, c: SipConnectionView) -> TransportLayerInnerView {
        if !c.is_stream() {
            self
        } else {
            let key = key_of(c.remote_addr()->0);
            TransportLayerInnerView {
                cancelled: self.cancelled.insert(c.id()),
                connections: if self.connections.contains_key(key)
                    && self.connections[key].is_same_stream(c) {
                    self.connections.remove(key)
                } else {
                    self.connections
                },
                ..self
            }
        }
    }

    /// The settings for a TLS connection: a name to ask for is taken from the
    /// name that was looked up, where none is set.
    pub open spec fn tls_for(self, domain: Option<Seq<char>>) -> TlsConfigView {
        let config = match self.tls_config {
            Some(c) => c,
            None => tls::default_config(),
        };
        if config.sni_hostname is None {
            TlsConfigView { sni_hostname: domain, ..config }
        } else {
            config
        }
    }

    /// The search for a connection to an address, once its host is resolved.
    pub open spec fn find(self, target: SipAddrView, domain: Option<Seq<char>>) -> LookupStepView {
        match self.connection_to(target) {
            Some(c) => LookupStepView::Done(Ok((c, target))),
            None => match target.transport {
                Some(Transport::Tcp) => LookupStepView::Connect { target, dial: DialView::Tcp },
                Some(Transport::Tls) => LookupStepView::Connect {
                    target,
                    dial: DialView::Tls(self.tls_for(domain)),
                },
                Some(Transport::Ws) | Some(Transport::Wss) => LookupStepView::Connect {
                    target,
                    dial: DialView::WebSocket(self.ws_path),
                },
                _ => LookupStepView::Done(listener_for(self.listens, target)),
            },
        }
    }

    /// The search for a connection to `destination`, or to `outbound` if that
    /// is set.
    pub open spec fn lookup(
        self,
        destination: SipAddrView,
        outbound: Option<SipAddrView>,
    ) -> LookupStepView {
        let target = match outbound {
            Some(o) => o,
            None => destination,
        };
        match target.addr.host {
            HostView::Domain(domain) => LookupStepView::Resolve { target, domain },
            _ => self.find(target, None),
        }
    }
}

impl TransportLayerInner {
    pub fn new() -> (r: TransportLayerInner)
        ensures
            r@.listens == Seq::<SipConnectionView>::empty(),
            maps::holds_nothing(r@.connections),
            r@.cancelled == Set::<u64>::empty(),
            r@.tls_config is None,
            r@.ws_path is None,
    {
        TransportLayerInner {
            listens: Vec::new(),
            connections: maps::connections_new(),
            cancelled: HashSet::new(),
            tls_config: None,
            ws_path: None,
        }
    }

    pub fn set_tls_config(&mut self, tls_config: Option<TlsConfig>)
        ensures
            final(self)@ == (TransportLayerInnerView {
                tls_config: tls_config.deep_view(),
                ..old(self)@
            }),
    {
        self.tls_config = tls_config;
    }

    pub fn set_ws_path(&mut self, path: Option<String>)
        ensures
            final(self)@ == (TransportLayerInnerView { ws_path: path.deep_view(), ..old(self)@ }),
    {
        self.ws_path = path;
    }

    pub fn add_listener(&mut self, connection: SipConnection)
        ensures
            final(self)@ == (TransportLayerInnerView {
                listens: old(self)@.listens.push(connection@),
                ..old(self)@
            }),
    {
        self.listens.push(connection);
    }

    /// Takes the listening sockets with this address out.
    pub fn del_listener(&mut self, addr: &SipAddr)
        ensures
            final(self)@ == (TransportLayerInnerView {
                listens: old(self)@.listens.filter(|c: SipConnectionView| c.addr() != addr@),
                ..old(self)@
            }),
    {
        let mut kept: Vec<SipConnection> = Vec::new();
        let mut i: usize = 0;
        let ghost all = self.listens.deep_view();
        let ghost keep = |c: SipConnectionView| c.addr() != addr@;
        while i < self.listens.len()
            invariant
                i <= self.listens.len(),
                all == self.listens.deep_view(),
                self@ == old(self)@,
                keep == (|c: SipConnectionView| c.addr() != addr@),
                kept.deep_view() == all.take(i as int).filter(keep),
            decreases self.listens.len() - i,
        {
            proof {
                lists::lemma_filter_step(all, i as int, keep);
            }
            if !self.listens[i].get_addr().same(addr) {
                let c = self.listens[i].clone();
                let ghost before = kept.deep_view();
                kept.push(c);
                assert(kept.deep_view() == before.push(c@));
            }
            i = i + 1;
        }
        assert(all.take(i as int) == all);
        self.listens = kept;
    }

    pub fn add_connection(&mut self, connection: SipConnection)
        ensures
            final(self)@ == old(self)@.add_connection(connection@),
    {
        if let Some(remote_addr) = connection.get_remote_addr() {
            maps::connections_insert(
                &mut self.connections,
                addr_key(&remote_addr),
                connection,
            );
        }
    }

    pub fn del_connection(&mut self, addr: &SipAddr)
        ensures
            final(self)@ == (TransportLayerInnerView {
                connections: old(self)@.connections.remove(key_of(addr@)),
                ..old(self)@
            }),
    {
        maps::connections_remove(&mut self.connections, &addr_key(addr));
    }

    pub fn retire_connection(&mut self, connection: &SipConnection)
        ensures
            final(self)@ == old(self)@.retire_connection(connection@),
    {
        if !connection.is_stream() {
            return;
        }
        self.cancelled.insert(connection.id());
        if let Some(remote_addr) = connection.get_remote_addr() {
            maps::connections_remove_if(
                &mut self.connections,
                &addr_key(&remote_addr),
                connection,
            );
        }
    }

    /// Notes that the flow of a connection is over.
    pub fn cancel(&mut self, id: u64)
        ensures
            final(self)@ == (TransportLayerInnerView {
                cancelled: old(self)@.cancelled.insert(id),
                ..old(self)@
            }),
    {
        self.cancelled.insert(id);
    }

    pub fn is_over(&self, connection: &SipConnection) -> (r: bool)
        ensures
            r == self@.is_over(connection@),
    {
        !connection.is_listener() && self.cancelled.contains(&connection.id())
    }

    fn tls_for(&self, domain: Option<String>) -> (r: TlsConfig)
        ensures
            r@ == self@.tls_for(domain.deep_view()),
    {
        let mut config = match &self.tls_config {
            Some(c) => c.clone(),
            None => TlsConfig::default(),
        };
        if config.sni_hostname.is_none() {
            config.sni_hostname = domain;
        }
        config
    }

    fn find_listener(&self, target: SipAddr) -> (r: Result<(SipConnection, SipAddr), Error>)
        ensures
            error::result_view(r) == listener_for(self@.listens, target@),
    {
        let mut first_udp: Option<SipConnection> = None;
        let mut i: usize = 0;
        let ghost exact = |c: SipConnectionView| listens_on(c, target@);
        let ghost udp = |c: SipConnectionView| is_udp_listener(c);
        let ghost all = self.listens.deep_view();
        assert(all.skip(0) == all);
        while i < self.listens.len()
            invariant
                i <= self.listens.len(),
                all == self.listens.deep_view(),
                exact == (|c: SipConnectionView| listens_on(c, target@)),
                udp == (|c: SipConnectionView| is_udp_listener(c)),
                lists::first_of(all, exact) == lists::first_of(all.skip(i as int), exact),
                lists::first_of(all, udp) == (if first_udp is Some {
                    first_udp.deep_view()
                } else {
                    lists::first_of(all.skip(i as int), udp)
                }),
            decreases self.listens.len() - i,
        {
            proof {
                lists::lemma_first_of_step(all, i as int, exact);
                lists::lemma_first_of_step(all, i as int, udp);
            }
            let transport = &self.listens[i];
            let addr = transport.get_addr();
            if addr.transport == Some(Transport::Udp) && first_udp.is_none() {
                first_udp = Some(transport.clone());
            }
            if addr.same(&target) {
                return Ok((transport.clone(), target));
            }
            i = i + 1;
        }
        if let Some(transport) = first_udp {
            return Ok((transport, target));
        }
        let mut m = "unsupported transport type: ".to_owned();
        m.append(transport_name(target.transport));
        Err(Error::TransportLayerError(m, target))
    }

    fn find(&self, target: SipAddr, domain: Option<String>) -> (r: LookupStep)
        ensures
            r@ == self@.find(target@, domain.deep_view()),
    {
        if let Some(connection) = maps::connections_get(&self.connections, &addr_key(&target)) {
            return LookupStep::Done(Ok((connection, target)));
        }
        match target.transport {
            Some(Transport::Tcp) => LookupStep::Connect { target, dial: Dial::Tcp },
            Some(Transport::Tls) => LookupStep::Connect {
                target,
                dial: Dial::Tls(self.tls_for(domain)),
            },
            Some(Transport::Ws) | Some(Transport::Wss) => LookupStep::Connect {
                target,
                dial: Dial::WebSocket(self.ws_path.clone()),
            },
            _ => LookupStep::Done(self.find_listener(target)),
        }
    }

    /// Starts the search for a connection to `destination`.
    pub fn lookup(&self, destination: &SipAddr, outbound: Option<&SipAddr>) -> (r: LookupStep)
        ensures
            r@ == self@.lookup(
                destination@,
                match outbound {
                    Some(o) => Some(o@),
                    None => None,
                },
            ),
    {
        let target = match outbound {
            Some(o) => o,
            None => destination,
        };
        match &target.addr.host {
            Host::Domain(domain) => LookupStep::Resolve {
                target: target.clone(),
                domain: domain.clone(),
            },
            _ => self.find(target.clone(), None),
        }
    }

    /// Goes on once the name `domain` is resolved, or could not be.
    pub fn lookup_resolved(
        &self,
        resolved: Result<SipAddr, Error>,
        domain: String,
    ) -> (r: LookupStep)
        ensures
            r@ == (match resolved {
                Ok(target) => self@.find(target@, Some(domain@)),
                Err(e) => LookupStepView::Done(Err(e@)),
            }),
    {
        match resolved {
            Ok(target) => self.find(target, Some(domain)),
            Err(e) => LookupStep::Done(Err(e)),
        }
    }

    /// Goes on once a connection to `target` is open, or could not be opened:
    /// the new connection is the one to its peer from now on.
    pub fn lookup_connected(
        &mut self,
        target: SipAddr,
        opened: Result<SipConnection, Error>,
    ) -> (r: Result<(SipConnection, SipAddr), Error>)
        ensures
            match opened {
                Ok(c) => final(self)@ == old(self)@.add_connection(c@) && error::result_view(r)
                    == Ok::<(SipConnectionView, SipAddrView), ErrorView>((c@, target@)),
                Err(e) => final(self)@ == old(self)@ && error::result_view(r) == Err::<
                    (SipConnectionView, SipAddrView),
                    ErrorView,
                >(e@),
            },
    {
        match opened {
            Ok(connection) => {
                self.add_connection(connection.clone());
                Ok((connection, target))
            },
            Err(e) => Err(e),
        }
    }
}

/// The addresses that messages can come in on: those of the listening sockets in
/// order, then those of the open connections in an order that is left open.
pub open spec fn are_addrs_of(addrs: Seq<SipAddrView>, layer: TransportLayerInnerView) -> bool {
    let n = layer.listens.len();
    &&& addrs.len() == n + layer.connections.len()
    &&& forall|i: int| 0 <= i < n ==> #[trigger] addrs[i] == layer.listens[i].addr()
    &&& forall|i: int|
        n <= i < addrs.len() ==> exists|c: SipConnectionView|
            layer.connections.values().contains(c) && #[trigger] c.addr() == #[trigger] addrs[i]
    &&& forall|c: SipConnectionView| #[trigger]
        layer.connections.values().contains(c) ==> addrs.skip(n as int).contains(c.addr())
}

/// A transport layer without connections and settings.
pub open spec fn is_new_layer(t: TransportLayerView) -> bool {
    &&& t.outbound is None
    &&& t.inner.listens == Seq::<SipConnectionView>::empty()
    &&& maps::holds_nothing(t.inner.connections)
    &&& t.inner.cancelled == Set::<u64>::empty()
    &&& t.inner.tls_config is None
    &&& t.inner.ws_path is None
}

impl TransportLayer {
    pub fn new() -> (r: TransportLayer)
        ensures
            is_new_layer(r@),
    {
        TransportLayer { outbound: None, inner: TransportLayerInner::new() }
    }

    pub fn add_transport(&mut self, transport: SipConnection)
        ensures
            final(self)@ == (TransportLayerView {
                inner: TransportLayerInnerView {
                    listens: old(self)@.inner.listens.push(transport@),
                    ..old(self)@.inner
                },
                ..old(self)@
            }),
    {
        self.inner.add_listener(transport);
    }

    pub fn del_transport(&mut self, addr: &SipAddr)
        ensures
            final(self)@ == (TransportLayerView {
                inner: TransportLayerInnerView {
                    listens: old(self)@.inner.listens.filter(
                        |c: SipConnectionView| c.addr() != addr@,
                    ),
                    ..old(self)@.inner
                },
                ..old(self)@
            }),
    {
        self.inner.del_listener(addr);
    }

    pub fn add_connection(&mut self, connection: SipConnection)
        ensures
            final(self)@ == (TransportLayerView {
                inner: old(self)@.inner.add_connection(connection@),
                ..old(self)@
            }),
    {
        self.inner.add_connection(connection);
    }

    pub fn del_connection(&mut self, addr: &SipAddr)
        ensures
            final(self)@ == (TransportLayerView {
                inner: TransportLayerInnerView {
                    connections: old(self)@.inner.connections.remove(key_of(addr@)),
                    ..old(self)@.inner
                },
                ..old(self)@
            }),
    {
        self.inner.del_connection(addr);
    }

    pub fn retire_connection(&mut self, connection: &SipConnection)
        ensures
            final(self)@ == (TransportLayerView {
                inner: old(self)@.inner.retire_connection(connection@),
                ..old(self)@
            }),
    {
        self.inner.retire_connection(connection);
    }

    /// Sets what TLS connections are opened with from now on.
    pub fn set_tls_config(&mut self, tls_config: TlsConfig)
        ensures
            final(self)@ == (TransportLayerView {
                inner: TransportLayerInnerView {
                    tls_config: Some(tls_config@),
                    ..old(self)@.inner
                },
                ..old(self)@
            }),
    {
        self.inner.set_tls_config(Some(tls_config));
    }

    /// Takes back what TLS connections are opened with.
    pub fn clear_tls_config(&mut self)
        ensures
            final(self)@ == (TransportLayerView {
                inner: TransportLayerInnerView { tls_config: None, ..old(self)@.inner },
                ..old(self)@
            }),
    {
        self.inner.set_tls_config(None);
    }

    /// Sets the path that WebSocket connections are opened with from now on.
    pub fn set_ws_path(&mut self, path: String)
        ensures
            final(self)@ == (TransportLayerView {
                inner: TransportLayerInnerView { ws_path: Some(path@), ..old(self)@.inner },
                ..old(self)@
            }),
    {
        self.inner.set_ws_path(Some(path));
    }

    /// Takes back the path that WebSocket connections are opened with.
    pub fn clear_ws_path(&mut self)
        ensures
            final(self)@ == (TransportLayerView {
                inner: TransportLayerInnerView { ws_path: None, ..old(self)@.inner },
                ..old(self)@
            }),
    {
        self.inner.set_ws_path(None);
    }

    /// Starts the search for a connection to `target`, through the outbound
    /// proxy if there is one.
    pub fn lookup(&self, target: &SipAddr) -> (r: LookupStep)
        ensures
            r@ == self@.inner.lookup(target@, self@.outbound),
    {
        self.inner.lookup(target, self.outbound.as_ref())
    }

    pub fn get_addrs(&self) -> (addrs: Vec<SipAddr>)
        ensures
            are_addrs_of(addrs.deep_view(), self@.inner),
    {
        let mut addrs: Vec<SipAddr> = Vec::new();
        let mut i: usize = 0;
        let ghost listens = self.inner.listens.deep_view();
        while i < self.inner.listens.len()
            invariant
                i <= self.inner.listens.len(),
                listens == self.inner.listens.deep_view(),
                addrs.len() == i,
                forall|j: int| 0 <= j < i ==> #[trigger] addrs.deep_view()[j] == listens[j].addr(),
            decreases self.inner.listens.len() - i,
        {
            let a = self.inner.listens[i].get_addr().clone();
            let ghost before = addrs.deep_view();
            addrs.push(a);
            assert(addrs.deep_view() == before.push(a@));
            i = i + 1;
        }
        let connections = maps::connections_list(&self.inner.connections);
        let n: usize = addrs.len();
        let ghost conns = connections.deep_view();
        let mut k: usize = 0;
        while k < connections.len()
            invariant
                k <= connections.len(),
                n == listens.len(),
                conns == connections.deep_view(),
                addrs.len() == n + k,
                forall|j: int| 0 <= j < n ==> #[trigger] addrs.deep_view()[j] == listens[j].addr(),
                forall|j: int|
                    n <= j < n + k ==> #[trigger] addrs.deep_view()[j] == conns[j - n].addr(),
            decreases connections.len() - k,
        {
            let a = connections[k].get_addr().clone();
            let ghost before = addrs.deep_view();
            addrs.push(a);
            assert(addrs.deep_view() == before.push(a@));
            k = k + 1;
        }
        proof {
            let a = addrs.deep_view();
            let values = self@.inner.connections.values();
            assert forall|j: int| n <= j < a.len() implies exists|c: SipConnectionView|
                values.contains(c) && #[trigger] c.addr() == #[trigger] a[j] by {
                assert(conns.to_set().contains(conns[j - n]));
                assert(conns[j - n].addr() == a[j]);
            }
            assert forall|c: SipConnectionView| #[trigger] values.contains(c) implies a.skip(
                n as int,
            ).contains(c.addr()) by {
                assert(conns.to_set().contains(c));
                let j = choose|j: int| 0 <= j < conns.len() && conns[j] == c;
                assert(a.skip(n as int)[j] == a[n + j]);
            }
        }
        addrs
    }
}

/// A connection that was just opened is the one that the next search for its
/// peer finds.
pub proof fn law_new_connection_is_found(
    layer: TransportLayerInnerView,
    c: SipConnectionView,
    domain: Option<Seq<char>>,
)
    requires
        c.remote_addr() is Some,
    ensures
        layer.add_connection(c).find(c.remote_addr()->0, domain) == LookupStepView::Done(
            Ok((c, c.remote_addr()->0)),
        ),
{
}

/// A stream that is over is not handed out again: after it is retired, no
/// search for its peer finds it.
pub proof fn law_retired_stream_is_not_found(
    layer: TransportLayerInnerView,
    c: SipConnectionView,
    domain: Option<Seq<char>>,
)
    requires
        c.is_stream(),
        forall|i: int|
            0 <= i < layer.listens.len() ==> !(#[trigger] layer.listens[i]).is_stream(),
    ensures
        layer.retire_connection(c).is_over(c),
        layer.retire_connection(c).find(c.remote_addr()->0, domain) matches LookupStepView::Done(
            Ok(found),
        ) ==> !found.0.is_same_stream(c),
{
    let target = c.remote_addr()->0;
    let exact = |l: SipConnectionView| listens_on(l, target);
    let udp = |l: SipConnectionView| is_udp_listener(l);
    let i = lists::lemma_first_of_found(layer.listens, exact);
    let j = lists::lemma_first_of_found(layer.listens, udp);
}

/// Retiring a stream leaves a newer stream to the same peer, and every
/// connection to another peer, as they are.
pub proof fn law_retiring_keeps_other_connections(
    layer: TransportLayerInnerView,
    c: SipConnectionView,
    addr: SipAddrView,
)
    requires
        layer.connection_to(addr) is Some,
        !layer.connection_to(addr)->0.is_same_stream(c) || Some(addr) != c.remote_addr(),
    ensures
        layer.retire_connection(c).connection_to(addr) == layer.connection_to(addr),
{
    if c.is_stream() {
        law_addresses_are_kept_apart(addr, c.remote_addr()->0);
    }
}

/// What is asked of the domain name system.
pub struct ResolveQuery {
    pub domain: String,
    pub port: Option<u16>,
    pub transport: Option<Transport>,
    /// Only transports that encrypt will do.
    pub secure: bool,
}

/// One answer of the domain name system.
#[derive(Clone, Copy, Debug, PartialEq, Eq, Structural)]
pub struct ResolvedTarget {
    pub transport: Transport,
    pub ip: IpAddr,
    pub port: u16,
}

/// Names that stand for contacts without an address, and are never looked up.
pub open spec fn is_invalid_domain(domain: Seq<char>) -> bool {
    domain == "invalid"@ || text::ends_with(domain, ".invalid"@)
}

/// Resolves the host names of addresses.
pub struct DefaultDomainResolver;

impl DefaultDomainResolver {
    pub fn new() -> (r: DefaultDomainResolver)
        ensures
            r == DefaultDomainResolver,
    {
        DefaultDomainResolver
    }

    /// What to look up for `target`. An address is not looked up, nor is a name
    /// under `.invalid`.
    pub fn query(&self, target: &SipAddr) -> (r: Result<ResolveQuery, Error>)
        ensures
            match target@.addr.host {
                HostView::IpAddr(_) => r matches Err(e) && e@ == ErrorView::DnsResolutionError(
                    Seq::empty(),
                    target@.addr,
                ),
                HostView::Domain(domain) => if is_invalid_domain(domain) {
                    r matches Err(e) && e@ == ErrorView::DnsResolutionError(
                        "cannot resolve .invalid domain: "@ + domain,
                        target@.addr,
                    )
                } else {
                    r matches Ok(q) && q.domain@ == domain && q.port == target.addr.port
                        && q.transport == target.transport && q.secure == (target.transport
                        == Some(Transport::Tls) || target.transport == Some(Transport::Wss)
                        || target.transport == Some(Transport::TlsSctp))
                },
            },
    {
        let domain = match &target.addr.host {
            Host::Domain(domain) => domain,
            _ => {
                return Err(Error::DnsResolutionError(String::new(), target.addr.clone()));
            },
        };
        if text::is_equal(domain.as_str(), "invalid") || text::has_suffix(
            domain.as_str(),
            ".invalid",
        ) {
            let mut m = "cannot resolve .invalid domain: ".to_owned();
            m.append(domain.as_str());
            return Err(Error::DnsResolutionError(m, target.addr.clone()));
        }
        let secure = matches!(
            target.transport,
            Some(Transport::Tls) | Some(Transport::Wss) | Some(Transport::TlsSctp)
        );
        Ok(
            ResolveQuery {
                domain: domain.clone(),
                port: target.addr.port,
                transport: target.transport,
                secure,
            },
        )
    }

    /// The address for `target` after the lookup: the first answer. No answer
    /// and a failed lookup are errors.
    pub fn answer(
        &self,
        target: &SipAddr,
        found: Result<Vec<ResolvedTarget>, String>,
    ) -> (r: Result<SipAddr, Error>)
        ensures
            match found {
                Ok(addrs) => if addrs.len() > 0 {
                    r matches Ok(a) && a@ == (SipAddrView {
                        transport: Some(addrs[0].transport),
                        addr: HostWithPortView {
                            host: HostView::IpAddr(addrs[0].ip),
                            port: Some(addrs[0].port),
                        },
                    })
                } else {
                    r matches Err(e) && e@ == ErrorView::DnsResolutionError(
                        Seq::empty(),
                        target@.addr,
                    )
                },
                Err(m) => r matches Err(e) && e@ == ErrorView::DnsResolutionError(
                    m@,
                    target@.addr,
                ),
            },
    {
        match found {
            Ok(addrs) => {
                if addrs.len() > 0 {
                    let first = addrs[0];
                    return Ok(
                        SipAddr {
                            transport: Some(first.transport),
                            addr: HostWithPort {
                                host: Host::IpAddr(first.ip),
                                port: Some(first.port),
                            },
                        },
                    );
                }
                Err(Error::DnsResolutionError(String::new(), target.addr.clone()))
            },
            Err(m) => Err(Error::DnsResolutionError(m, target.addr.clone())),
        }
    }
}

impl Default for DefaultDomainResolver {
    fn default() -> (r: Self)
        ensures
            r == DefaultDomainResolver,
    {
        DefaultDomainResolver::new()
    }
}

}

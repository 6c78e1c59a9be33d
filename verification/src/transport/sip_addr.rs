//! Where a message is sent to or comes from.

use crate::sip::basic::{Scheme, Transport};
use crate::sip::uri::{Host, HostWithPort, HostWithPortView, Param, ParamView, Uri, UriView};
use vstd::prelude::*;

verus! {

/// An address with the transport to use, if one is known.
#[derive(Debug)]
pub struct SipAddr {
    pub transport: Option<Transport>,
    pub addr: HostWithPort,
}

#[verifier::ext_equal]
pub struct SipAddrView {
    pub transport: Option<Transport>,
    pub addr: HostWithPortView,
}

impl DeepView for SipAddr {
    type V = SipAddrView;

    open spec fn deep_view(&self) -> SipAddrView {
        SipAddrView { transport: self.transport, addr: self.addr.deep_view() }
    }
}

impl View for SipAddr {
    type V = SipAddrView;

    open spec fn view(&self) -> SipAddrView {
        self.deep_view()
    }
}

impl Clone for SipAddr {
    fn clone(&self) -> (r: Self)
        ensures
            r.deep_view() == self.deep_view(),
    {
        SipAddr { transport: self.transport, addr: self.addr.clone() }
    }
}

/// The address that a URI names.
pub open spec fn addr_of_uri(uri: UriView) -> SipAddrView {
    SipAddrView { transport: uri.transport(), addr: uri.host_with_port }
}

/// The URI that names an address: `sips` for TLS and WSS, with a transport
/// parameter unless the transport is UDP or unknown.
pub open spec fn uri_of_addr(addr: SipAddrView) -> UriView {
    UriView {
        scheme: Some(
            if addr.transport == Some(Transport::Tls) || addr.transport == Some(Transport::Wss) {
                Scheme::Sips
            } else {
                Scheme::Sip
            },
        ),
        user: None,
        host_with_port: addr.addr,
        params: match addr.transport {
            None | Some(Transport::Udp) => Seq::empty(),
            Some(t) => seq![ParamView::Transport(t)],
        },
    }
}

impl SipAddrView {
    /// The host is a name that has yet to be resolved.
    pub open spec fn is_domain(self) -> bool {
        self.addr.host is Domain
    }
}

impl SipAddr {
    pub fn from_uri(uri: &Uri) -> (r: SipAddr)
        ensures
            r@ == addr_of_uri(uri@),
    {
        SipAddr { transport: uri.transport(), addr: uri.host_with_port.clone() }
    }

    pub fn to_uri(&self) -> (r: Uri)
        ensures
            r@ == uri_of_addr(self@),
    {
        let mut params: Vec<Param> = Vec::new();
        let scheme = match self.transport {
            Some(Transport::Tls) | Some(Transport::Wss) => Scheme::Sips,
            _ => Scheme::Sip,
        };
        match self.transport {
            None | Some(Transport::Udp) => {},
            Some(t) => {
                params.push(Param::Transport(t));
            },
        }
        Uri { scheme: Some(scheme), user: None, host_with_port: self.addr.clone(), params }
    }

    pub fn is_domain(&self) -> (r: bool)
        ensures
            r == self@.is_domain(),
    {
        matches!(self.addr.host, Host::Domain(_))
    }

    pub fn same(&self, other: &SipAddr) -> (r: bool)
        ensures
            r == (self@ == other@),
    {
        let transports = match (self.transport, other.transport) {
            (Some(a), Some(b)) => a == b,
            (None, None) => true,
            _ => false,
        };
        transports && self.addr.same(&other.addr)
    }
}

}

//! Hosts, parameters and the addresses built of them.

use super::basic::{IpAddr, Scheme, Transport, Version};
use crate::lists;
use vstd::prelude::*;

verus! {

/// A host, by name or by address.
#[derive(Debug)]
pub enum Host {
    Domain(String),
    IpAddr(IpAddr),
}

#[verifier::ext_equal]
pub enum HostView {
    Domain(Seq<char>),
    IpAddr(IpAddr),
}

impl DeepView for Host {
    type V = HostView;

    open spec fn deep_view(&self) -> HostView {
        match self {
            Host::Domain(name) => HostView::Domain(name@),
            Host::IpAddr(ip) => HostView::IpAddr(*ip),
        }
    }
}

impl Clone for Host {
    fn clone(&self) -> (r: Self)
        ensures
            r.deep_view() == self.deep_view(),
    {
        match self {
            Host::Domain(name) => Host::Domain(name.clone()),
            Host::IpAddr(ip) => Host::IpAddr(*ip),
        }
    }
}

impl Host {
    pub fn same(&self, other: &Host) -> (r: bool)
        ensures
            r == (self.deep_view() == other.deep_view()),
    {
        match (self, other) {
            (Host::Domain(a), Host::Domain(b)) => *a == *b,
            (Host::IpAddr(a), Host::IpAddr(b)) => *a == *b,
            _ => false,
        }
    }
}

#[derive(Debug)]
pub struct HostWithPort {
    pub host: Host,
    pub port: Option<u16>,
}

#[verifier::ext_equal]
pub struct HostWithPortView {
    pub host: HostView,
    pub port: Option<u16>,
}

impl DeepView for HostWithPort {
    type V = HostWithPortView;

    open spec fn deep_view(&self) -> HostWithPortView {
        HostWithPortView { host: self.host.deep_view(), port: self.port }
    }
}

impl Clone for HostWithPort {
    fn clone(&self) -> (r: Self)
        ensures
            r.deep_view() == self.deep_view(),
    {
        HostWithPort { host: self.host.clone(), port: self.port }
    }
}

impl HostWithPort {
    pub fn same(&self, other: &HostWithPort) -> (r: bool)
        ensures
            r == (self.deep_view() == other.deep_view()),
    {
        let ports = match (self.port, other.port) {
            (Some(a), Some(b)) => a == b,
            (None, None) => true,
            _ => false,
        };
        ports && self.host.same(&other.host)
    }
}

/// The value of a `received` parameter: an address, or a text that spells none.
#[derive(Debug)]
pub enum Received {
    Ip(IpAddr),
    Text(String),
}

#[verifier::ext_equal]
pub enum ReceivedView {
    Ip(IpAddr),
    Text(Seq<char>),
}

impl DeepView for Received {
    type V = ReceivedView;

    open spec fn deep_view(&self) -> ReceivedView {
        match self {
            Received::Ip(ip) => ReceivedView::Ip(*ip),
            Received::Text(t) => ReceivedView::Text(t@),
        }
    }
}

impl Clone for Received {
    fn clone(&self) -> (r: Self)
        ensures
            r.deep_view() == self.deep_view(),
    {
        match self {
            Received::Ip(ip) => Received::Ip(*ip),
            Received::Text(t) => Received::Text(t.clone()),
        }
    }
}

/// A parameter of a URI or of a header. `Rport(None)` is an `rport` without a
/// number.
#[derive(Debug)]
pub enum Param {
    Transport(Transport),
    Branch(String),
    Tag(String),
    Received(Received),
    Rport(Option<u16>),
    Lr,
    Other(String, Option<String>),
}

#[verifier::ext_equal]
pub enum ParamView {
    Transport(Transport),
    Branch(Seq<char>),
    Tag(Seq<char>),
    Received(ReceivedView),
    Rport(Option<u16>),
    Lr,
    Other(Seq<char>, Option<Seq<char>>),
}

impl DeepView for Param {
    type V = ParamView;

    open spec fn deep_view(&self) -> ParamView {
        match self {
            Param::Transport(t) => ParamView::Transport(*t),
            Param::Branch(b) => ParamView::Branch(b@),
            Param::Tag(t) => ParamView::Tag(t@),
            Param::Received(r) => ParamView::Received(r.deep_view()),
            Param::Rport(p) => ParamView::Rport(*p),
            Param::Lr => ParamView::Lr,
            Param::Other(name, value) => ParamView::Other(name@, value.deep_view()),
        }
    }
}

impl Clone for Param {
    fn clone(&self) -> (r: Self)
        ensures
            r.deep_view() == self.deep_view(),
    {
        match self {
            Param::Transport(t) => Param::Transport(*t),
            Param::Branch(b) => Param::Branch(b.clone()),
            Param::Tag(t) => Param::Tag(t.clone()),
            Param::Received(r) => Param::Received(r.clone()),
            Param::Rport(p) => Param::Rport(*p),
            Param::Lr => Param::Lr,
            Param::Other(name, value) => Param::Other(name.clone(), value.clone()),
        }
    }
}

pub open spec fn as_tag(p: ParamView) -> Option<Seq<char>> {
    match p {
        ParamView::Tag(t) => Some(t),
        _ => None,
    }
}

pub open spec fn as_branch(p: ParamView) -> Option<Seq<char>> {
    match p {
        ParamView::Branch(b) => Some(b),
        _ => None,
    }
}

pub open spec fn as_transport(p: ParamView) -> Option<Transport> {
    match p {
        ParamView::Transport(t) => Some(t),
        _ => None,
    }
}

pub open spec fn as_received(p: ParamView) -> Option<ReceivedView> {
    match p {
        ParamView::Received(r) => Some(r),
        _ => None,
    }
}

pub open spec fn as_rport(p: ParamView) -> Option<Option<u16>> {
    match p {
        ParamView::Rport(r) => Some(r),
        _ => None,
    }
}

/// The value of the first `tag`.
pub open spec fn tag_in(params: Seq<ParamView>) -> Option<Seq<char>> {
    lists::first_of(params, |p: ParamView| as_tag(p))
}

pub open spec fn branch_in(params: Seq<ParamView>) -> Option<Seq<char>> {
    lists::first_of(params, |p: ParamView| as_branch(p))
}

pub open spec fn transport_in(params: Seq<ParamView>) -> Option<Transport> {
    lists::first_of(params, |p: ParamView| as_transport(p))
}

pub open spec fn received_in(params: Seq<ParamView>) -> Option<ReceivedView> {
    lists::first_of(params, |p: ParamView| as_received(p))
}

pub open spec fn rport_in(params: Seq<ParamView>) -> Option<Option<u16>> {
    lists::first_of(params, |p: ParamView| as_rport(p))
}

/// The value of the first `tag`.
pub fn find_tag(params: &Vec<Param>) -> (r: Option<String>)
    ensures
        r.deep_view() == tag_in(params.deep_view()),
{
    let mut i: usize = 0;
    assert(params.deep_view().skip(0) == params.deep_view());
    while i < params.len()
        invariant
            i <= params.len(),
            tag_in(params.deep_view().skip(i as int)) == tag_in(params.deep_view()),
        decreases params.len() - i,
    {
        proof {
            lists::lemma_first_of_step(params.deep_view(), i as int, |p: ParamView| as_tag(p));
        }
        if let Param::Tag(t) = &params[i] {
            return Some(t.clone());
        }
        i = i + 1;
    }
    None
}

pub fn find_branch(params: &Vec<Param>) -> (r: Option<String>)
    ensures
        r.deep_view() == branch_in(params.deep_view()),
{
    let mut i: usize = 0;
    assert(params.deep_view().skip(0) == params.deep_view());
    while i < params.len()
        invariant
            i <= params.len(),
            branch_in(params.deep_view().skip(i as int)) == branch_in(params.deep_view()),
        decreases params.len() - i,
    {
        proof {
            lists::lemma_first_of_step(params.deep_view(), i as int, |p: ParamView| as_branch(p));
        }
        if let Param::Branch(b) = &params[i] {
            return Some(b.clone());
        }
        i = i + 1;
    }
    None
}

pub fn find_transport(params: &Vec<Param>) -> (r: Option<Transport>)
    ensures
        r == transport_in(params.deep_view()),
{
    let mut i: usize = 0;
    assert(params.deep_view().skip(0) == params.deep_view());
    while i < params.len()
        invariant
            i <= params.len(),
            transport_in(params.deep_view().skip(i as int)) == transport_in(params.deep_view()),
        decreases params.len() - i,
    {
        proof {
            lists::lemma_first_of_step(params.deep_view(), i as int, |p: ParamView| as_transport(p));
        }
        if let Param::Transport(t) = &params[i] {
            return Some(*t);
        }
        i = i + 1;
    }
    None
}

pub fn find_received(params: &Vec<Param>) -> (r: Option<Received>)
    ensures
        r.deep_view() == received_in(params.deep_view()),
{
    let mut i: usize = 0;
    assert(params.deep_view().skip(0) == params.deep_view());
    while i < params.len()
        invariant
            i <= params.len(),
            received_in(params.deep_view().skip(i as int)) == received_in(params.deep_view()),
        decreases params.len() - i,
    {
        proof {
            lists::lemma_first_of_step(params.deep_view(), i as int, |p: ParamView| as_received(p));
        }
        if let Param::Received(v) = &params[i] {
            return Some(v.clone());
        }
        i = i + 1;
    }
    None
}

pub fn find_rport(params: &Vec<Param>) -> (r: Option<Option<u16>>)
    ensures
        r == rport_in(params.deep_view()),
{
    let mut i: usize = 0;
    assert(params.deep_view().skip(0) == params.deep_view());
    while i < params.len()
        invariant
            i <= params.len(),
            rport_in(params.deep_view().skip(i as int)) == rport_in(params.deep_view()),
        decreases params.len() - i,
    {
        proof {
            lists::lemma_first_of_step(params.deep_view(), i as int, |p: ParamView| as_rport(p));
        }
        if let Param::Rport(v) = &params[i] {
            return Some(*v);
        }
        i = i + 1;
    }
    None
}

#[derive(Debug)]
pub struct Uri {
    pub scheme: Option<Scheme>,
    pub user: Option<String>,
    pub host_with_port: HostWithPort,
    pub params: Vec<Param>,
}

#[verifier::ext_equal]
pub struct UriView {
    pub scheme: Option<Scheme>,
    pub user: Option<Seq<char>>,
    pub host_with_port: HostWithPortView,
    pub params: Seq<ParamView>,
}

impl DeepView for Uri {
    type V = UriView;

    open spec fn deep_view(&self) -> UriView {
        UriView {
            scheme: self.scheme,
            user: self.user.deep_view(),
            host_with_port: self.host_with_port.deep_view(),
            params: self.params.deep_view(),
        }
    }
}

impl View for Uri {
    type V = UriView;

    open spec fn view(&self) -> UriView {
        self.deep_view()
    }
}

impl Clone for Uri {
    fn clone(&self) -> (r: Self)
        ensures
            r.deep_view() == self.deep_view(),
    {
        let params = self.params.clone();
        assert(params.deep_view() == self.params.deep_view());
        Uri {
            scheme: self.scheme,
            user: self.user.clone(),
            host_with_port: self.host_with_port.clone(),
            params,
        }
    }
}

impl UriView {
    /// The transport that the URI asks for.
    pub open spec fn transport(self) -> Option<Transport> {
        transport_in(self.params)
    }
}

impl Uri {
    pub fn transport(&self) -> (r: Option<Transport>)
        ensures
            r == self@.transport(),
    {
        find_transport(&self.params)
    }

    /// The URI that names nothing but a host.
    pub fn of_host(host_with_port: HostWithPort) -> (r: Uri)
        ensures
            r@ == uri_of_host(host_with_port.deep_view()),
    {
        Uri { scheme: None, user: None, host_with_port, params: Vec::new() }
    }
}

/// The URI that names nothing but a host.
pub open spec fn uri_of_host(host_with_port: HostWithPortView) -> UriView {
    UriView { scheme: None, user: None, host_with_port, params: Seq::empty() }
}

/// A URI with an optional display name and parameters of its own: the value of
/// a From, To, Contact, Route or Record-Route header.
#[derive(Debug)]
pub struct NameAddr {
    pub display_name: Option<String>,
    pub uri: Uri,
    pub params: Vec<Param>,
}

#[verifier::ext_equal]
pub struct NameAddrView {
    pub display_name: Option<Seq<char>>,
    pub uri: UriView,
    pub params: Seq<ParamView>,
}

impl DeepView for NameAddr {
    type V = NameAddrView;

    open spec fn deep_view(&self) -> NameAddrView {
        NameAddrView {
            display_name: self.display_name.deep_view(),
            uri: self.uri.deep_view(),
            params: self.params.deep_view(),
        }
    }
}

impl View for NameAddr {
    type V = NameAddrView;

    open spec fn view(&self) -> NameAddrView {
        self.deep_view()
    }
}

impl Clone for NameAddr {
    fn clone(&self) -> (r: Self)
        ensures
            r.deep_view() == self.deep_view(),
    {
        let params = self.params.clone();
        assert(params.deep_view() == self.params.deep_view());
        NameAddr { display_name: self.display_name.clone(), uri: self.uri.clone(), params }
    }
}

/// The parameters that are no `tag`.
pub open spec fn without_tags(params: Seq<ParamView>) -> Seq<ParamView> {
    params.filter(|p: ParamView| !(p is Tag))
}

impl NameAddrView {
    pub open spec fn tag(self) -> Option<Seq<char>> {
        tag_in(self.params)
    }

    /// The same address with `tag` as its only tag.
    pub open spec fn with_tag(self, tag: Seq<char>) -> NameAddrView {
        NameAddrView { params: without_tags(self.params).push(ParamView::Tag(tag)), ..self }
    }

    /// The same address with `tag` added if it has none.
    pub open spec fn or_tag(self, tag: Seq<char>) -> NameAddrView {
        if self.tag() is None {
            NameAddrView { params: self.params.push(ParamView::Tag(tag)), ..self }
        } else {
            self
        }
    }
}

/// The address that is nothing but `uri`.
pub open spec fn plain_addr(uri: UriView) -> NameAddrView {
    NameAddrView { display_name: None, uri, params: Seq::empty() }
}

impl NameAddr {
    pub fn of_uri(uri: Uri) -> (r: NameAddr)
        ensures
            r@ == plain_addr(uri@),
    {
        NameAddr { display_name: None, uri, params: Vec::new() }
    }

    pub fn tag(&self) -> (r: Option<String>)
        ensures
            r.deep_view() == self@.tag(),
    {
        find_tag(&self.params)
    }

    /// Puts `tag` in the place of every tag.
    pub fn with_tag(self, tag: String) -> (r: NameAddr)
        ensures
            r@ == self@.with_tag(tag@),
    {
        let mut params: Vec<Param> = Vec::new();
        let mut i: usize = 0;
        let ghost all = self.params.deep_view();
        while i < self.params.len()
            invariant
                i <= self.params.len(),
                all == self.params.deep_view(),
                params.deep_view() == without_tags(all.take(i as int)),
            decreases self.params.len() - i,
        {
            proof {
                reveal(Seq::filter);
                assert(all.take(i + 1).drop_last() == all.take(i as int));
            }
            match &self.params[i] {
                Param::Tag(_) => {},
                p => {
                    let p = p.clone();
                    let ghost before = params.deep_view();
                    params.push(p);
                    assert(params.deep_view() == before.push(p.deep_view()));
                },
            }
            i = i + 1;
        }
        assert(all.take(i as int) == all);
        let ghost kept = params.deep_view();
        params.push(Param::Tag(tag));
        assert(params.deep_view() == kept.push(ParamView::Tag(tag@)));
        NameAddr { display_name: self.display_name, uri: self.uri, params }
    }

    /// Adds `tag` unless there is a tag already.
    pub fn or_tag(self, tag: &String) -> (r: NameAddr)
        ensures
            r@ == self@.or_tag(tag@),
    {
        if self.tag().is_some() {
            return self;
        }
        let mut params = self.params;
        let ghost before = params.deep_view();
        params.push(Param::Tag(tag.clone()));
        assert(params.deep_view() == before.push(ParamView::Tag(tag@)));
        NameAddr { display_name: self.display_name, uri: self.uri, params }
    }
}

/// One value of a Via header.
#[derive(Debug)]
pub struct Via {
    pub version: Version,
    pub transport: Transport,
    pub uri: Uri,
    pub params: Vec<Param>,
}

#[verifier::ext_equal]
pub struct ViaView {
    pub version: Version,
    pub transport: Transport,
    pub uri: UriView,
    pub params: Seq<ParamView>,
}

impl DeepView for Via {
    type V = ViaView;

    open spec fn deep_view(&self) -> ViaView {
        ViaView {
            version: self.version,
            transport: self.transport,
            uri: self.uri.deep_view(),
            params: self.params.deep_view(),
        }
    }
}

impl View for Via {
    type V = ViaView;

    open spec fn view(&self) -> ViaView {
        self.deep_view()
    }
}

impl Clone for Via {
    fn clone(&self) -> (r: Self)
        ensures
            r.deep_view() == self.deep_view(),
    {
        let params = self.params.clone();
        assert(params.deep_view() == self.params.deep_view());
        Via {
            version: self.version,
            transport: self.transport,
            uri: self.uri.clone(),
            params,
        }
    }
}

}

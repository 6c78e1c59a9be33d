//! Invitations: the INVITE that opens a call, and the registry of dialogs.

use super::dialog;
use super::dialog::{
    Credential, CredentialView, DialogInner, DialogView,
};
use super::exchange;
use super::id;
use super::id::{DialogId, DialogIdView};
use super::invite_dialog::InviteDialog;
use crate::error;
use crate::error::{Error, ErrorView};
use crate::lists;
use crate::maps;
use crate::sip::basic::{Method, Scheme, Transport};
use crate::sip::header;
use crate::sip::header::{Field, FieldView, Header, HeaderKind, HeaderView};
use crate::sip::message;
use crate::sip::message::{Request, RequestView, Response, ResponseView};
use crate::sip::session_id;
use crate::sip::session_id::{SessionId, SessionIdView};
use crate::sip::status::StatusCodeKind;
use crate::sip::uri;
use crate::sip::uri::{NameAddr, NameAddrView, Param, ParamView, Uri, UriView, Via};
use crate::transaction::endpoint;
use crate::transaction::endpoint::{EndpointInner, EndpointView};
use crate::transaction::ids;
use crate::transaction::key;
use crate::transaction::key::{TransactionKey, TransactionRole};
use crate::transaction::message as build;
use crate::transaction::transaction;
use crate::transaction::transaction::{Transaction, TransactionView};
use crate::transport::sip_addr;
use crate::transport::sip_addr::{SipAddr, SipAddrView};
use crate::transport::transport_layer;
use dashmap::DashMap;
use vstd::prelude::*;
use vstd::string::*;

verus! {

/// Who is called by whom, and how.
pub struct InviteOption {
    pub caller_display_name: Option<String>,
    pub caller_params: Vec<Param>,
    pub caller: Uri,
    pub callee: Uri,
    pub destination: Option<SipAddr>,
    pub content_type: Option<String>,
    pub offer: Option<Vec<u8>>,
    pub contact: Uri,
    pub credential: Option<Credential>,
    pub headers: Option<Vec<Header>>,
    pub support_prack: bool,
    pub call_id: Option<String>,
    /// The caller's identifier for the Session-ID header. Without it the call
    /// takes no part in Session-ID.
    pub session_id: Option<String>,
    /// The Route headers that the INVITE starts with.
    pub route_set: Vec<NameAddr>,
}

#[verifier::ext_equal]
pub struct InviteOptionView {
    pub caller_display_name: Option<Seq<char>>,
    pub caller_params: Seq<ParamView>,
    pub caller: UriView,
    pub callee: UriView,
    pub destination: Option<SipAddrView>,
    pub content_type: Option<Seq<char>>,
    pub offer: Option<Seq<u8>>,
    pub contact: UriView,
    pub credential: Option<CredentialView>,
    pub headers: Option<Seq<HeaderView>>,
    pub support_prack: bool,
    pub call_id: Option<Seq<char>>,
    pub session_id: Option<Seq<char>>,
    pub route_set: Seq<NameAddrView>,
}

impl View for InviteOption {
    type V = InviteOptionView;

    open spec fn view(&self) -> InviteOptionView {
        InviteOptionView {
            caller_display_name: self.caller_display_name.deep_view(),
            caller_params: self.caller_params.deep_view(),
            caller: self.caller@,
            callee: self.callee@,
            destination: self.destination.deep_view(),
            content_type: self.content_type.deep_view(),
            offer: match self.offer {
                Some(b) => Some(b@),
                None => None,
            },
            contact: self.contact@,
            credential: self.credential.deep_view(),
            headers: self.headers.deep_view(),
            support_prack: self.support_prack,
            call_id: self.call_id.deep_view(),
            session_id: self.session_id.deep_view(),
            route_set: self.route_set.deep_view(),
        }
    }
}

impl InviteOption {
    /// A call from `caller`, who is found at `contact`, to `callee`, with nothing
    /// else said of it.
    pub fn new(caller: Uri, callee: Uri, contact: Uri) -> (r: InviteOption)
        ensures
            r@ == (InviteOptionView {
                caller_display_name: None,
                caller_params: Seq::empty(),
                caller: caller@,
                callee: callee@,
                destination: None,
                content_type: None,
                offer: None,
                contact: contact@,
                credential: None,
                headers: None,
                support_prack: false,
                call_id: None,
                session_id: None,
                route_set: Seq::empty(),
            }),
    {
        let caller_params: Vec<Param> = Vec::new();
        let route_set: Vec<NameAddr> = Vec::new();
        assert(caller_params.deep_view() == Seq::<ParamView>::empty());
        assert(route_set.deep_view() == Seq::<NameAddrView>::empty());
        InviteOption {
            caller_display_name: None,
            caller_params,
            caller,
            callee,
            destination: None,
            content_type: None,
            offer: None,
            contact,
            credential: None,
            headers: None,
            support_prack: false,
            call_id: None,
            session_id: None,
            route_set,
        }
    }
}

/// The dialogs of an endpoint, each by a number of the user's choosing.
pub struct DialogLayer {
    pub last_seq: u32,
    pub dialogs: DashMap<String, u64>,
}

#[verifier::ext_equal]
pub struct DialogLayerView {
    pub last_seq: u32,
    /// The dialogs by their names, written out.
    pub dialogs: Map<Seq<char>, u64>,
}

impl View for DialogLayer {
    type V = DialogLayerView;

    open spec fn view(&self) -> DialogLayerView {
        DialogLayerView { last_seq: self.last_seq, dialogs: maps::numbers_in(self.dialogs) }
    }
}

/// The transport that the INVITE is to go out on, other than UDP.
pub open spec fn wanted_transport(opt: InviteOptionView) -> Option<Transport> {
    let wanted = match opt.destination {
        Some(d) => match d.transport {
            Some(t) => Some(t),
            None => opt.callee.transport(),
        },
        None => opt.callee.transport(),
    };
    match wanted {
        Some(t) if t != Transport::Udp => Some(t),
        _ => None,
    }
}

/// The address that the INVITE leaves from, if a transport is wanted.
pub open spec fn invite_addr(opt: InviteOptionView, addrs: Seq<SipAddrView>) -> Option<SipAddrView> {
    match wanted_transport(opt) {
        Some(t) => lists::first_of(addrs, |a: SipAddrView| dialog::addr_with(a, t)),
        None => None,
    }
}

/// The Contact of the INVITE: the caller's, at the address that the INVITE
/// leaves from if a transport is wanted.
pub open spec fn invite_contact(opt: InviteOptionView, addr: Option<SipAddrView>) -> UriView {
    match addr {
        None => opt.contact,
        Some(a) => UriView {
            scheme: if a.transport == Some(Transport::Tls) {
                Some(Scheme::Sips)
            } else {
                opt.contact.scheme
            },
            user: opt.contact.user,
            host_with_port: a.addr,
            params: if uri::transport_in(opt.contact.params) is Some {
                opt.contact.params
            } else {
                opt.contact.params.push(
                    ParamView::Transport(
                        match a.transport {
                            Some(t) => t,
                            None => Transport::Tcp,
                        },
                    ),
                )
            },
        },
    }
}

pub open spec fn invite_from(opt: InviteOptionView, tag: Seq<char>) -> NameAddrView {
    NameAddrView {
        display_name: opt.caller_display_name,
        uri: opt.caller,
        params: opt.caller_params,
    }.with_tag(tag)
}

pub open spec fn typed_route(r: NameAddrView) -> HeaderView {
    HeaderView::Route(FieldView::Typed(r))
}

/// A header of the caller is added. Of Max-Forwards there is only one.
pub open spec fn with_given(headers: Seq<HeaderView>, h: HeaderView) -> Seq<HeaderView> {
    if h is MaxForwards {
        header::unique_pushed(headers, h)
    } else {
        headers.push(h)
    }
}

/// The headers of the caller are added one after the other.
pub open spec fn with_all_given(headers: Seq<HeaderView>, more: Seq<HeaderView>) -> Seq<HeaderView>
    decreases more.len(),
{
    if more.len() == 0 {
        headers
    } else {
        with_given(with_all_given(headers, more.drop_last()), more.last())
    }
}

/// The INVITE says that History-Info is understood, if that is asked for and not
/// said already.
pub open spec fn with_histinfo(
    headers: Seq<HeaderView>,
    given: Option<Seq<HeaderView>>,
    enabled: bool,
) -> Seq<HeaderView> {
    let said = message::headers_list(headers, HeaderKind::Supported, "histinfo"@) || (
    given matches Some(g) && message::headers_list(g, HeaderKind::Supported, "histinfo"@));
    if enabled && !said {
        headers.push(HeaderView::Supported("histinfo"@))
    } else {
        headers
    }
}

/// The Session-ID of the caller, whose peer is not known yet.
pub open spec fn with_session(headers: Seq<HeaderView>, raw: Option<Seq<char>>) -> Result<
    Seq<HeaderView>,
    ErrorView,
> {
    match raw {
        None => Ok(headers),
        Some(raw) => if session_id::is_uuid(session_id::undashed(raw)) {
            Ok(
                header::unique_pushed(
                    headers,
                    HeaderView::SessionId(
                        SessionIdView {
                            local: session_id::undashed(raw),
                            remote: Some(session_id::nil_uuid()),
                        },
                    ),
                ),
            )
        } else {
            Err(ErrorView::InvalidSessionId)
        },
    }
}

/// The headers of the INVITE up to the Session-ID.
pub open spec fn invite_start(
    base: Seq<HeaderView>,
    opt: InviteOptionView,
    addr: Option<SipAddrView>,
    histinfo: bool,
) -> Seq<HeaderView> {
    let routed = base + opt.route_set.map_values(|r: NameAddrView| typed_route(r));
    let contact = HeaderView::Contact(
        FieldView::Typed(uri::plain_addr(invite_contact(opt, addr))),
    );
    let content = HeaderView::ContentType(
        match opt.content_type {
            Some(t) => t,
            None => "application/sdp"@,
        },
    );
    let typed = header::unique_pushed(header::unique_pushed(routed, contact), content);
    let reliable = if opt.support_prack {
        header::unique_pushed(typed, HeaderView::Supported("100rel"@))
    } else {
        typed
    };
    with_histinfo(reliable, opt.headers, histinfo)
}

/// The headers of the INVITE.
pub open spec fn invite_headers(
    base: Seq<HeaderView>,
    opt: InviteOptionView,
    addr: Option<SipAddrView>,
    histinfo: bool,
) -> Result<Seq<HeaderView>, ErrorView> {
    match with_session(invite_start(base, opt, addr, histinfo), opt.session_id) {
        Err(e) => Err(e),
        Ok(hs) => Ok(
            match opt.headers {
                Some(more) => with_all_given(hs, more),
                None => hs,
            },
        ),
    }
}

/// The INVITE with the number `seq`. `addrs` are the addresses of the endpoint,
/// and `tag`, `branch` and `call_id` are new; the caller's own Call-ID goes
/// first.
#[verifier::opaque]
pub open spec fn invite_request(
    ep: EndpointView,
    opt: InviteOptionView,
    addrs: Seq<SipAddrView>,
    seq: u32,
    tag: Seq<char>,
    branch: Seq<char>,
    call_id: Seq<char>,
) -> Result<RequestView, ErrorView> {
    let addr = invite_addr(opt, addrs);
    if addr is None && addrs.len() == 0 {
        Err(ErrorView::EndpointError("not sipaddrs"@))
    } else {
        let from_addr = match addr {
            Some(a) => a,
            None => addrs[0],
        };
        let base = build::request_with(
            Method::Invite,
            opt.callee,
            endpoint::via_for(from_addr, ParamView::Branch(branch)),
            invite_from(opt, tag),
            uri::plain_addr(opt.callee),
            seq,
            match opt.call_id {
                Some(c) => c,
                None => call_id,
            },
            ep.user_agent,
        );
        match invite_headers(base.headers, opt, addr, ep.option.history_info_enabled) {
            Err(e) => Err(e),
            Ok(headers) => Ok(RequestView { headers, ..base }),
        }
    }
}

/// `r` is an INVITE as above, for some addresses of the endpoint, a new tag, a
/// new branch and a new Call-ID.
pub open spec fn is_invite_request(
    ep: EndpointView,
    opt: InviteOptionView,
    seq: u32,
    r: Result<RequestView, ErrorView>,
) -> bool {
    exists|addrs: Seq<SipAddrView>, tag: Seq<char>, branch: Seq<char>, call_id: Seq<char>|
        r == #[trigger] invite_request(ep, opt, addrs, seq, tag, branch, call_id)
            && transport_layer::are_addrs_of(addrs, ep.transport_layer.inner) && ids::is_tag(tag)
            && ids::is_branch(branch) && ids::is_call_id(
            call_id,
            ep.option.callid_suffix,
            ep.option.callid_format,
        )
}

/// The INVITE with its body.
pub open spec fn with_offer(req: RequestView, offer: Option<Seq<u8>>) -> RequestView {
    let body = match offer {
        Some(b) => b,
        None => Seq::empty(),
    };
    RequestView {
        headers: header::unique_pushed(
            req.headers,
            HeaderView::ContentLength(build::length_of(body)),
        ),
        body,
        ..req
    }
}

/// Where the INVITE is sent: to the destination given, or else to its first
/// Route.
pub open spec fn invite_target(req: RequestView, opt: InviteOptionView) -> Option<SipAddrView> {
    match opt.destination {
        Some(d) => Some(d),
        None => exchange::route_target(req.headers),
    }
}

/// The Contact of this end: the one in the INVITE, or else the one given.
pub open spec fn own_contact(req: RequestView, opt: InviteOptionView) -> UriView {
    match header::first_contact(req.headers) {
        Some(FieldView::Typed(c)) => c.uri,
        _ => opt.contact,
    }
}

/// The dialog and the transaction of an INVITE.
pub open spec fn client_call(ep: EndpointView, opt: InviteOptionView, invite: RequestView) -> (
    EndpointView,
    Result<(DialogView, TransactionView), ErrorView>,
) {
    let req = with_offer(invite, opt.offer);
    match (
        key::key_of_request(req, TransactionRole::Client),
        id::dialog_of(req.headers, TransactionRole::Client),
    ) {
        (Err(e), _) => (ep, Err(e)),
        (_, Err(e)) => (ep, Err(e)),
        (Ok(key), Ok(id)) => match dialog::opened(
            TransactionRole::Client,
            id,
            req,
            opt.credential,
            Some(own_contact(req, opt)),
            ep.next_channel,
            Seq::empty(),
        ) {
            Err(e) => (ep, Err(e)),
            Ok(d) => {
                let (tx, after) = transaction::created(
                    ep,
                    transaction::client_type(req.method),
                    key,
                    req,
                    None,
                );
                let target = invite_target(req, opt);
                (
                    after,
                    Ok(
                        (
                            DialogView {
                                remote_uri: match target {
                                    Some(t) => sip_addr::uri_of_addr(t),
                                    None => d.remote_uri,
                                },
                                ..d
                            },
                            TransactionView { destination: target, ..tx },
                        ),
                    ),
                )
            },
        },
    }
}

/// A final response that establishes the call.
pub open spec fn is_2xx(resp: Option<ResponseView>) -> bool {
    resp matches Some(r) && r.status_code.spec_kind() == StatusCodeKind::Successful
}

/// The registry once an INVITE is through: the early name is gone, and a call
/// that is established stands under its own.
pub open spec fn invite_finished(
    layer: DialogLayerView,
    early: DialogIdView,
    number: u64,
    outcome: Result<(DialogIdView, Option<ResponseView>), ErrorView>,
) -> DialogLayerView {
    let gone = layer.dialogs.remove(early.text());
    DialogLayerView {
        dialogs: match outcome {
            Ok((name, resp)) => if is_2xx(resp) {
                gone.insert(name.text(), number)
            } else {
                gone
            },
            Err(_) => gone,
        },
        ..layer
    }
}

fn push_typed_routes(headers: &mut Vec<Header>, routes: &Vec<NameAddr>)
    ensures
        final(headers).deep_view() == old(headers).deep_view() + routes.deep_view().map_values(
            |r: NameAddrView| typed_route(r),
        ),
{
    let ghost before = headers.deep_view();
    let ghost all = routes.deep_view();
    let ghost f = |r: NameAddrView| typed_route(r);
    let mut i: usize = 0;
    assert(before + all.take(0).map_values(f) == before);
    while i < routes.len()
        invariant
            i <= routes.len(),
            all == routes.deep_view(),
            f == (|r: NameAddrView| typed_route(r)),
            headers.deep_view() == before + all.take(i as int).map_values(f),
        decreases routes.len() - i,
    {
        header::push(headers, Header::Route(Field::Typed(routes[i].clone())));
        assert(all.take(i + 1).map_values(f) == all.take(i as int).map_values(f).push(
            typed_route(all[i as int]),
        ));
        i = i + 1;
    }
    assert(all.take(i as int) == all);
}

fn push_all_given(headers: &mut Vec<Header>, more: &Vec<Header>)
    ensures
        final(headers).deep_view() == with_all_given(old(headers).deep_view(), more.deep_view()),
{
    let ghost before = headers.deep_view();
    let ghost all = more.deep_view();
    let mut i: usize = 0;
    while i < more.len()
        invariant
            i <= more.len(),
            all == more.deep_view(),
            headers.deep_view() == with_all_given(before, all.take(i as int)),
        decreases more.len() - i,
    {
        assert(all.take(i + 1).drop_last() == all.take(i as int));
        assert(all.take(i + 1).last() == all[i as int]);
        let h = more[i].clone();
        if matches!(&h, Header::MaxForwards(_)) {
            header::unique_push(headers, h);
        } else {
            header::push(headers, h);
        }
        i = i + 1;
    }
    assert(all.take(i as int) == all);
}

fn push_histinfo(headers: &mut Vec<Header>, given: &Option<Vec<Header>>, enabled: bool)
    ensures
        final(headers).deep_view() == with_histinfo(
            old(headers).deep_view(),
            given.deep_view(),
            enabled,
        ),
{
    if enabled {
        let already = message::header_contains_token(headers, HeaderKind::Supported, "histinfo")
            || match given {
            Some(g) => message::header_contains_token(g, HeaderKind::Supported, "histinfo"),
            None => false,
        };
        if !already {
            header::push(headers, Header::Supported("histinfo".to_owned()));
        }
    }
}

fn push_session(headers: &mut Vec<Header>, raw: &Option<String>) -> (r: Result<(), Error>)
    ensures
        match r {
            Ok(_) => with_session(old(headers).deep_view(), raw.deep_view()) == Ok::<
                Seq<HeaderView>,
                ErrorView,
            >(final(headers).deep_view()),
            Err(e) => with_session(old(headers).deep_view(), raw.deep_view()) == Err::<
                Seq<HeaderView>,
                ErrorView,
            >(e@),
        },
{
    let Some(raw) = raw else {
        return Ok(());
    };
    let uuid = match SessionId::normalize(raw.as_str()) {
        Ok(u) => u,
        Err(e) => return Err(e),
    };
    match SessionId::from_local(uuid.as_str()) {
        Ok(sid) => {
            header::unique_push(headers, Header::SessionId(sid));
            Ok(())
        },
        Err(e) => Err(e),
    }
}

impl InviteOption {
    fn addr_from(&self, addrs: &Vec<SipAddr>) -> (r: Option<SipAddr>)
        ensures
            r.deep_view() == invite_addr(self@, addrs.deep_view()),
    {
        let wanted = match &self.destination {
            Some(d) => match d.transport {
                Some(t) => Some(t),
                None => self.callee.transport(),
            },
            None => self.callee.transport(),
        };
        match wanted {
            Some(t) if t != Transport::Udp => dialog::find_addr(addrs, t),
            _ => None,
        }
    }

    fn contact_at(&self, addr: &Option<SipAddr>) -> (r: Uri)
        ensures
            r@ == invite_contact(self@, addr.deep_view()),
    {
        let mut uri = self.contact.clone();
        if let Some(a) = addr {
            uri.host_with_port = a.addr.clone();
            if uri::find_transport(&uri.params).is_none() {
                let t = match a.transport {
                    Some(t) => t,
                    None => Transport::Tcp,
                };
                let ghost before = uri.params.deep_view();
                uri.params.push(Param::Transport(t));
                assert(uri.params.deep_view() == before.push(ParamView::Transport(t)));
            }
            if a.transport == Some(Transport::Tls) {
                uri.scheme = Some(Scheme::Sips);
            }
        }
        uri
    }

    fn from_with(&self, tag: String) -> (r: NameAddr)
        ensures
            r@ == invite_from(self@, tag@),
    {
        let params = self.caller_params.clone();
        assert(params.deep_view() == self.caller_params.deep_view());
        NameAddr {
            display_name: self.caller_display_name.clone(),
            uri: self.caller.clone(),
            params,
        }.with_tag(tag)
    }

    fn push_start(&self, headers: &mut Vec<Header>, addr: &Option<SipAddr>, histinfo: bool)
        ensures
            final(headers).deep_view() == invite_start(
                old(headers).deep_view(),
                self@,
                addr.deep_view(),
                histinfo,
            ),
    {
        push_typed_routes(headers, &self.route_set);
        let contact = NameAddr::of_uri(self.contact_at(addr));
        header::unique_push(headers, Header::Contact(Field::Typed(contact)));
        let content_type = match &self.content_type {
            Some(t) => t.clone(),
            None => "application/sdp".to_owned(),
        };
        header::unique_push(headers, Header::ContentType(content_type));
        if self.support_prack {
            header::unique_push(headers, Header::Supported("100rel".to_owned()));
        }
        push_histinfo(headers, &self.headers, histinfo);
    }
}

impl DialogLayer {
    pub fn new() -> (r: DialogLayer)
        ensures
            r@.last_seq == 0,
            maps::holds_nothing(r@.dialogs),
    {
        DialogLayer { last_seq: 0, dialogs: maps::numbers_new() }
    }

    /// Takes the next number for an INVITE.
    pub fn increment_last_seq(&mut self) -> (n: u32)
        ensures
            n == dialog::next_seq(old(self)@.last_seq),
            final(self)@ == (DialogLayerView { last_seq: n, ..old(self)@ }),
    {
        self.last_seq = if self.last_seq == u32::MAX {
            0
        } else {
            self.last_seq + 1
        };
        self.last_seq
    }

    /// Writes the INVITE for a call, with a new tag, branch and Call-ID.
    pub fn make_invite_request(&mut self, ep: &EndpointInner, opt: &InviteOption) -> (r: Result<
        Request,
        Error,
    >)
        ensures
            final(self)@ == (DialogLayerView {
                last_seq: dialog::next_seq(old(self)@.last_seq),
                ..old(self)@
            }),
            is_invite_request(
                ep@,
                opt@,
                dialog::next_seq(old(self)@.last_seq),
                error::result_view(r),
            ),
    {
        let seq: u32 = self.increment_last_seq();
        let addrs = ep.get_addrs();
        let tag = ids::make_tag();
        let branch = ids::make_branch();
        let call_id = match &ep.option.callid_suffix {
            Some(s) => ids::make_call_id(Some(s.as_str()), ep.option.callid_format),
            None => ids::make_call_id(None, ep.option.callid_format),
        };
        let ghost (a, t, b, c) = (addrs.deep_view(), tag@, branch@, call_id@);
        let r = Self::invite_request_with(ep, opt, &addrs, seq, tag, branch, call_id);
        assert(error::result_view(r) == invite_request(ep@, opt@, a, seq, t, b, c));
        r
    }

    /// Writes the INVITE for a call.
    pub fn invite_request_with(
        ep: &EndpointInner,
        opt: &InviteOption,
        addrs: &Vec<SipAddr>,
        seq: u32,
        tag: String,
        branch: String,
        call_id: String,
    ) -> (r: Result<Request, Error>)
        ensures
            error::result_view(r) == invite_request(
                ep@,
                opt@,
                addrs.deep_view(),
                seq,
                tag@,
                branch@,
                call_id@,
            ),
    {
        proof {
            reveal(invite_request);
        }
        let addr = opt.addr_from(addrs);
        let from_addr = match &addr {
            Some(a) => a.clone(),
            None => {
                if addrs.len() == 0 {
                    return Err(Error::EndpointError("not sipaddrs".to_owned()));
                }
                assert(addrs.deep_view()[0] == addrs[0]@);
                addrs[0].clone()
            },
        };
        let top = endpoint::make_via(from_addr, Param::Branch(branch));
        let call_id = match &opt.call_id {
            Some(c) => c.clone(),
            None => call_id,
        };
        let mut request = build::make_request(
            Method::Invite,
            opt.callee.clone(),
            top,
            opt.from_with(tag),
            NameAddr::of_uri(opt.callee.clone()),
            seq,
            call_id,
            &ep.user_agent,
        );
        opt.push_start(&mut request.headers, &addr, ep.option.history_info_enabled);
        if let Err(e) = push_session(&mut request.headers, &opt.session_id) {
            return Err(e);
        }
        if let Some(more) = &opt.headers {
            push_all_given(&mut request.headers, more);
        }
        Ok(request)
    }

    /// Writes the INVITE for a call, and opens its dialog and its transaction.
    pub fn create_client_invite_dialog(&mut self, ep: &mut EndpointInner, opt: InviteOption) -> (r:
        Result<(InviteDialog, Transaction), Error>)
        ensures
            final(self)@ == (DialogLayerView {
                last_seq: dialog::next_seq(old(self)@.last_seq),
                ..old(self)@
            }),
            exists|invite: Result<RequestView, ErrorView>|
                #[trigger] is_invite_request(
                    old(ep)@,
                    opt@,
                    dialog::next_seq(old(self)@.last_seq),
                    invite,
                ) && match (invite, r) {
                    (Err(e), Err(x)) => x@ == e && final(ep)@ == old(ep)@,
                    (Ok(req), Err(x)) => client_call(old(ep)@, opt@, req) == (
                        final(ep)@,
                        Err::<(DialogView, TransactionView), ErrorView>(x@),
                    ),
                    (Ok(req), Ok(pair)) => client_call(old(ep)@, opt@, req) == (
                        final(ep)@,
                        Ok::<(DialogView, TransactionView), ErrorView>((pair.0@, pair.1@)),
                    ),
                    _ => false,
                },
    {
        let made = self.make_invite_request(ep, &opt);
        let ghost invite = error::result_view(made);
        assert(is_invite_request(
            old(ep)@,
            opt@,
            dialog::next_seq(old(self)@.last_seq),
            invite,
        ));
        match made {
            Err(e) => Err(e),
            Ok(request) => Self::client_call(ep, opt, request),
        }
    }

    /// Opens the dialog and the transaction of an INVITE.
    pub fn client_call(ep: &mut EndpointInner, opt: InviteOption, request: Request) -> (r: Result<
        (InviteDialog, Transaction),
        Error,
    >)
        ensures
            (
                final(ep)@,
                match r {
                    Ok(pair) => Ok((pair.0@, pair.1@)),
                    Err(e) => Err(e@),
                },
            ) == client_call(old(ep)@, opt@, request@),
    {
        let mut request = request;
        let ghost given = opt@;
        request.body = match opt.offer {
            Some(b) => b,
            None => Vec::new(),
        };
        let length = build::content_length(&request.body);
        header::unique_push(&mut request.headers, length);
        let key = match TransactionKey::from_request(&request, TransactionRole::Client) {
            Ok(k) => k,
            Err(e) => return Err(e),
        };
        let id = match DialogId::from_request(&request, TransactionRole::Client) {
            Ok(id) => id,
            Err(e) => return Err(e),
        };
        let target = match &opt.destination {
            Some(d) => Some(d.clone()),
            None => exchange::first_route_target(&request.headers),
        };
        let contact = match header::find_contact(&request.headers) {
            Some(Field::Typed(c)) => c.uri,
            _ => opt.contact,
        };
        let mut inner = match DialogInner::new_with(
            TransactionRole::Client,
            id,
            request.clone(),
            opt.credential,
            Some(contact),
            ep.next_channel,
            String::new(),
        ) {
            Ok(d) => d,
            Err(e) => return Err(e),
        };
        if let Some(t) = &target {
            inner.remote_uri = t.to_uri();
        }
        let mut tx = Transaction::new_client(key, request, ep, None);
        tx.destination = target;
        Ok((InviteDialog::from_inner(inner), tx))
    }

    /// Enters a dialog under its name.
    pub fn add_dialog(&mut self, id: &DialogId, number: u64)
        ensures
            final(self)@ == (DialogLayerView {
                dialogs: old(self)@.dialogs.insert(id@.text(), number),
                ..old(self)@
            }),
    {
        maps::numbers_insert(&mut self.dialogs, id.text(), number);
    }

    /// The dialog of a name.
    pub fn get_dialog(&self, id: &DialogId) -> (r: Option<u64>)
        ensures
            r == (if self@.dialogs.contains_key(id@.text()) {
                Some(self@.dialogs[id@.text()])
            } else {
                None
            }),
    {
        maps::numbers_get(&self.dialogs, &id.text())
    }

    /// Takes the dialog of a name out.
    pub fn remove_dialog(&mut self, id: &DialogId) -> (r: Option<u64>)
        ensures
            final(self)@ == (DialogLayerView {
                dialogs: old(self)@.dialogs.remove(id@.text()),
                ..old(self)@
            }),
            r == (if old(self)@.dialogs.contains_key(id@.text()) {
                Some(old(self)@.dialogs[id@.text()])
            } else {
                None
            }),
    {
        maps::numbers_remove(&mut self.dialogs, &id.text())
    }

    /// Takes the outcome of an INVITE whose dialog is entered under its early
    /// name.
    pub fn invite_finished(
        &mut self,
        early: &DialogId,
        number: u64,
        outcome: &Result<(DialogId, Option<Response>), Error>,
    )
        ensures
            final(self)@ == invite_finished(
                old(self)@,
                early@,
                number,
                error::result_view(*outcome),
            ),
    {
        self.remove_dialog(early);
        if let Ok((name, Some(resp))) = outcome {
            if resp.status_code.kind() == StatusCodeKind::Successful {
                self.add_dialog(name, number);
            }
        }
    }
}

/// Hangs a dialog up when it is let go of.
pub struct DialogGuard {
    pub id: DialogId,
}

impl DialogGuard {
    pub fn new(id: DialogId) -> (r: DialogGuard)
        ensures
            r.id@ == id@,
    {
        DialogGuard { id }
    }

    /// Takes the dialog out of the registry. What is returned is to be hung up.
    pub fn release(self, layer: &mut DialogLayer) -> (r: Option<u64>)
        ensures
            final(layer)@ == (DialogLayerView {
                dialogs: old(layer)@.dialogs.remove(self.id@.text()),
                ..old(layer)@
            }),
            r == (if old(layer)@.dialogs.contains_key(self.id@.text()) {
                Some(old(layer)@.dialogs[self.id@.text()])
            } else {
                None
            }),
    {
        layer.remove_dialog(&self.id)
    }
}

/// Gives a call up when it is let go of before it is established.
pub struct DialogGuardForUnconfirmed {
    pub id: DialogId,
}

impl DialogGuardForUnconfirmed {
    /// Takes the dialog out of the registry. What is returned is to be given up:
    /// see [`InviteDialog::abandon`].
    pub fn release(self, layer: &mut DialogLayer) -> (r: Option<u64>)
        ensures
            final(layer)@ == (DialogLayerView {
                dialogs: old(layer)@.dialogs.remove(self.id@.text()),
                ..old(layer)@
            }),
            r == (if old(layer)@.dialogs.contains_key(self.id@.text()) {
                Some(old(layer)@.dialogs[self.id@.text()])
            } else {
                None
            }),
    {
        layer.remove_dialog(&self.id)
    }
}

/// An INVITE that establishes a call leaves its dialog in the registry under the
/// name of the call; any other leaves nothing behind.
pub proof fn law_only_established_calls_stay_registered(
    layer: DialogLayerView,
    early: DialogIdView,
    number: u64,
    outcome: Result<(DialogIdView, Option<ResponseView>), ErrorView>,
)
    ensures
        ({
            let after = invite_finished(
                DialogLayerView { dialogs: layer.dialogs.insert(early.text(), number), ..layer },
                early,
                number,
                outcome,
            );
            if outcome is Ok && is_2xx(outcome->Ok_0.1) {
                after.dialogs.contains_pair(outcome->Ok_0.0.text(), number) && after.dialogs.remove(
                    outcome->Ok_0.0.text(),
                ) =~= layer.dialogs.remove(early.text()).remove(outcome->Ok_0.0.text())
            } else {
                after.dialogs =~= layer.dialogs.remove(early.text())
            }
        }),
{
}

/// Headers that name the request and its dialog.
pub open spec fn names_request(h: HeaderView) -> bool {
    h is Via || h is CallId || h is From || h is To || h is CSeq
}

proof fn lemma_unique_keeps_first<T>(
    headers: Seq<HeaderView>,
    h: HeaderView,
    pick: spec_fn(HeaderView) -> Option<T>,
)
    requires
        forall|x: HeaderView| #[trigger] pick(x) is Some ==> names_request(x),
        !names_request(h),
    ensures
        lists::first_of(header::unique_pushed(headers, h), pick) == lists::first_of(headers, pick),
        lists::first_of(headers.push(h), pick) == lists::first_of(headers, pick),
{
    let keep = |x: HeaderView| x.kind() != h.kind();
    lists::lemma_first_of_filter(headers, keep, pick);
    lists::lemma_first_of_push(headers.filter(keep), h, pick);
    lists::lemma_first_of_push(headers, h, pick);
}

proof fn lemma_given_keeps_first<T>(
    headers: Seq<HeaderView>,
    more: Seq<HeaderView>,
    pick: spec_fn(HeaderView) -> Option<T>,
)
    requires
        forall|x: HeaderView| #[trigger] pick(x) is Some ==> names_request(x),
        lists::first_of(headers, pick) is Some,
    ensures
        lists::first_of(with_all_given(headers, more), pick) == lists::first_of(headers, pick),
    decreases more.len(),
{
    if more.len() > 0 {
        lemma_given_keeps_first(headers, more.drop_last(), pick);
        let before = with_all_given(headers, more.drop_last());
        let h = more.last();
        if h is MaxForwards {
            lemma_unique_keeps_first(before, h, pick);
        } else {
            assert(before.push(h) == before + seq![h]);
            lists::lemma_first_of_concat(before, seq![h], pick);
        }
    }
}

proof fn lemma_invite_keeps_first<T>(
    base: Seq<HeaderView>,
    opt: InviteOptionView,
    addr: Option<SipAddrView>,
    histinfo: bool,
    pick: spec_fn(HeaderView) -> Option<T>,
)
    requires
        forall|x: HeaderView| #[trigger] pick(x) is Some ==> names_request(x),
        lists::first_of(base, pick) is Some,
    ensures
        invite_headers(base, opt, addr, histinfo) matches Ok(hs) ==> lists::first_of(hs, pick)
            == lists::first_of(base, pick),
{
    let routes = opt.route_set.map_values(|r: NameAddrView| typed_route(r));
    let routed = base + routes;
    lists::lemma_first_of_concat(base, routes, pick);
    let contact = HeaderView::Contact(
        FieldView::Typed(uri::plain_addr(invite_contact(opt, addr))),
    );
    lemma_unique_keeps_first(routed, contact, pick);
    let with_contact = header::unique_pushed(routed, contact);
    let content = HeaderView::ContentType(
        match opt.content_type {
            Some(t) => t,
            None => "application/sdp"@,
        },
    );
    lemma_unique_keeps_first(with_contact, content, pick);
    let typed = header::unique_pushed(with_contact, content);
    lemma_unique_keeps_first(typed, HeaderView::Supported("100rel"@), pick);
    let reliable = if opt.support_prack {
        header::unique_pushed(typed, HeaderView::Supported("100rel"@))
    } else {
        typed
    };
    lemma_unique_keeps_first(reliable, HeaderView::Supported("histinfo"@), pick);
    let start = invite_start(base, opt, addr, histinfo);
    if let Some(raw) = opt.session_id {
        let sid = SessionIdView {
            local: session_id::undashed(raw),
            remote: Some(session_id::nil_uuid()),
        };
        lemma_unique_keeps_first(start, HeaderView::SessionId(sid), pick);
    }
    if let (Ok(hs), Some(more)) = (with_session(start, opt.session_id), opt.headers) {
        lemma_given_keeps_first(hs, more, pick);
    }
}

proof fn lemma_new_tag(opt: InviteOptionView, tag: Seq<char>)
    ensures
        invite_from(opt, tag).tag() == Some(tag),
{
    let pick = |p: ParamView| uri::as_tag(p);
    let plain = uri::without_tags(opt.caller_params);
    let keep = |p: ParamView| !(p is Tag);
    assert forall|i: int| 0 <= i < plain.len() implies pick(#[trigger] plain[i]) is None by {
        opt.caller_params.lemma_filter_pred(keep, i);
    }
    let k = lists::lemma_first_of_found(plain, pick);
    assert(plain.push(ParamView::Tag(tag)) == plain + seq![ParamView::Tag(tag)]);
    lists::lemma_first_of_concat(plain, seq![ParamView::Tag(tag)], pick);
    lists::lemma_first_of_one(ParamView::Tag(tag), pick);
}

pub proof fn lemma_of_kind_unique(headers: Seq<HeaderView>, h: HeaderView, kind: HeaderKind)
    ensures
        h.kind() == kind ==> header::of_kind(header::unique_pushed(headers, h), kind) == seq![h],
        h.kind() != kind ==> header::of_kind(header::unique_pushed(headers, h), kind)
            == header::of_kind(headers, kind),
{
    header::lemma_of_kind_without(headers, h.kind(), kind);
    header::lemma_of_kind_push(header::without(headers, h.kind()), h, kind);
}

pub proof fn lemma_invite_start_kinds(
    base: Seq<HeaderView>,
    opt: InviteOptionView,
    addr: Option<SipAddrView>,
    histinfo: bool,
    kind: HeaderKind,
)
    requires
        kind != HeaderKind::Supported,
        kind != HeaderKind::Route,
    ensures
        ({
            let found = header::of_kind(invite_start(base, opt, addr, histinfo), kind);
            if kind == HeaderKind::Contact {
                found == seq![
                    HeaderView::Contact(
                        FieldView::Typed(uri::plain_addr(invite_contact(opt, addr))),
                    ),
                ]
            } else if kind == HeaderKind::ContentType {
                found == seq![
                    HeaderView::ContentType(
                        match opt.content_type {
                            Some(t) => t,
                            None => "application/sdp"@,
                        },
                    ),
                ]
            } else {
                found == header::of_kind(base, kind)
            }
        }),
{
    let routes = opt.route_set.map_values(|r: NameAddrView| typed_route(r));
    let routed = base + routes;
    let is_kind = |h: HeaderView| h.kind() == kind;
    Seq::filter_distributes_over_add(base, routes, is_kind);
    routes.lemma_all_neg_filter_empty(is_kind);
    assert(header::of_kind(routed, kind) == header::of_kind(base, kind));
    let contact = HeaderView::Contact(
        FieldView::Typed(uri::plain_addr(invite_contact(opt, addr))),
    );
    let content = HeaderView::ContentType(
        match opt.content_type {
            Some(t) => t,
            None => "application/sdp"@,
        },
    );
    lemma_of_kind_unique(routed, contact, kind);
    let with_contact = header::unique_pushed(routed, contact);
    lemma_of_kind_unique(with_contact, content, kind);
    let typed = header::unique_pushed(with_contact, content);
    let reliable = HeaderView::Supported("100rel"@);
    lemma_of_kind_unique(typed, reliable, kind);
    let before = if opt.support_prack {
        header::unique_pushed(typed, reliable)
    } else {
        typed
    };
    header::lemma_of_kind_push(before, HeaderView::Supported("histinfo"@), kind);
}

/// Where the caller gives no headers and no Session-ID, and the endpoint has an
/// address, the INVITE is written, and bears one Via with the new branch, one From
/// of the caller with the new tag, one To of the callee without a tag, one
/// Contact, one Content-Type, one Call-ID and one CSeq with the number of the
/// INVITE.
pub proof fn law_invite_bears_its_headers(
    ep: EndpointView,
    opt: InviteOptionView,
    addrs: Seq<SipAddrView>,
    seq: u32,
    tag: Seq<char>,
    branch: Seq<char>,
    call_id: Seq<char>,
)
    requires
        addrs.len() > 0,
        opt.headers is None,
        opt.session_id is None,
    ensures
        ({
            let addr = invite_addr(opt, addrs);
            let from_addr = match addr {
                Some(a) => a,
                None => addrs[0],
            };
            &&& invite_request(ep, opt, addrs, seq, tag, branch, call_id) matches Ok(req)
            &&& req.method == Method::Invite
            &&& req.uri == opt.callee
            &&& header::of_kind(req.headers, HeaderKind::Via) == seq![
                HeaderView::Via(
                    FieldView::Typed(endpoint::via_for(from_addr, ParamView::Branch(branch))),
                ),
            ]
            &&& header::of_kind(req.headers, HeaderKind::From) == seq![
                HeaderView::From(FieldView::Typed(invite_from(opt, tag))),
            ]
            &&& invite_from(opt, tag).uri == opt.caller
            &&& invite_from(opt, tag).tag() == Some(tag)
            &&& header::of_kind(req.headers, HeaderKind::To) == seq![
                HeaderView::To(FieldView::Typed(uri::plain_addr(opt.callee))),
            ]
            &&& uri::plain_addr(opt.callee).uri == opt.callee
            &&& uri::plain_addr(opt.callee).tag() is None
            &&& header::of_kind(req.headers, HeaderKind::Contact) == seq![
                HeaderView::Contact(
                    FieldView::Typed(uri::plain_addr(invite_contact(opt, addr))),
                ),
            ]
            &&& header::of_kind(req.headers, HeaderKind::ContentType) == seq![
                HeaderView::ContentType(
                    match opt.content_type {
                        Some(t) => t,
                        None => "application/sdp"@,
                    },
                ),
            ]
            &&& header::of_kind(req.headers, HeaderKind::CallId) == seq![
                HeaderView::CallId(
                    match opt.call_id {
                        Some(c) => c,
                        None => call_id,
                    },
                ),
            ]
            &&& header::of_kind(req.headers, HeaderKind::CSeq) == seq![
                HeaderView::CSeq(
                    FieldView::Typed(header::CSeq { seq, method: Method::Invite }),
                ),
            ]
        }),
{
    reveal(invite_request);
    reveal(build::request_with);
    let addr = invite_addr(opt, addrs);
    let from_addr = match addr {
        Some(a) => a,
        None => addrs[0],
    };
    let base = build::request_with(
        Method::Invite,
        opt.callee,
        endpoint::via_for(from_addr, ParamView::Branch(branch)),
        invite_from(opt, tag),
        uri::plain_addr(opt.callee),
        seq,
        match opt.call_id {
            Some(c) => c,
            None => call_id,
        },
        ep.user_agent,
    ).headers;
    let histinfo = ep.option.history_info_enabled;
    lemma_invite_start_kinds(base, opt, addr, histinfo, HeaderKind::Via);
    lemma_invite_start_kinds(base, opt, addr, histinfo, HeaderKind::From);
    lemma_invite_start_kinds(base, opt, addr, histinfo, HeaderKind::To);
    lemma_invite_start_kinds(base, opt, addr, histinfo, HeaderKind::Contact);
    lemma_invite_start_kinds(base, opt, addr, histinfo, HeaderKind::ContentType);
    lemma_invite_start_kinds(base, opt, addr, histinfo, HeaderKind::CallId);
    lemma_invite_start_kinds(base, opt, addr, histinfo, HeaderKind::CSeq);
    header::lemma_of_kind_once(base, 0);
    header::lemma_of_kind_once(base, 1);
    header::lemma_of_kind_once(base, 2);
    header::lemma_of_kind_once(base, 3);
    header::lemma_of_kind_once(base, 4);
    lemma_new_tag(opt, tag);
}

/// Whatever headers the caller gives, the INVITE bears the number, the Call-ID,
/// the From tag, the To and the branch that are its own: the dialog that it opens
/// has the new tag at this end and none yet at the other.
pub proof fn law_invite_opens_its_own_dialog(
    ep: EndpointView,
    opt: InviteOptionView,
    addrs: Seq<SipAddrView>,
    seq: u32,
    tag: Seq<char>,
    branch: Seq<char>,
    call_id: Seq<char>,
    req: RequestView,
)
    requires
        invite_request(ep, opt, addrs, seq, tag, branch, call_id) == Ok::<_, ErrorView>(req),
    ensures
        req.method == Method::Invite,
        req.uri == opt.callee,
        message::cseq_of(req.headers) == Ok::<_, ErrorView>(
            header::CSeq { seq, method: Method::Invite },
        ),
        message::via_of(req.headers) matches Ok(v) && uri::branch_in(v.params) == Some(branch),
        id::dialog_of(req.headers, TransactionRole::Client) == Ok::<_, ErrorView>(
            DialogIdView {
                call_id: match opt.call_id {
                    Some(c) => c,
                    None => call_id,
                },
                local_tag: tag,
                remote_tag: Seq::empty(),
            },
        ),
{
    reveal(invite_request);
    reveal(build::request_with);
    let addr = invite_addr(opt, addrs);
    let from_addr = match addr {
        Some(a) => a,
        None => addrs[0],
    };
    let base = build::request_with(
        Method::Invite,
        opt.callee,
        endpoint::via_for(from_addr, ParamView::Branch(branch)),
        invite_from(opt, tag),
        uri::plain_addr(opt.callee),
        seq,
        match opt.call_id {
            Some(c) => c,
            None => call_id,
        },
        ep.user_agent,
    ).headers;
    let histinfo = ep.option.history_info_enabled;
    reveal_with_fuel(lists::first_of, 6);
    lemma_invite_keeps_first(base, opt, addr, histinfo, |h: HeaderView| header::as_via(h));
    lemma_invite_keeps_first(base, opt, addr, histinfo, |h: HeaderView| header::as_call_id(h));
    lemma_invite_keeps_first(base, opt, addr, histinfo, |h: HeaderView| header::as_from(h));
    lemma_invite_keeps_first(base, opt, addr, histinfo, |h: HeaderView| header::as_to(h));
    lemma_invite_keeps_first(base, opt, addr, histinfo, |h: HeaderView| header::as_cseq(h));
    lemma_new_tag(opt, tag);
}

}

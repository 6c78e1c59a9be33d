//! A request within a dialog, from its sending to its final response.
//!
//! The dialog decides; who drives it acts. Each call returns a [`DialogStep`]
//! that says what to do next, and the result is handed back to the dialog.

use super::dialog;
use super::dialog::{
    DialogInner, DialogState, DialogStateView, DialogView, TerminatedReason,
};
use super::prack;
use crate::error;
use crate::error::{Error, ErrorView};
use crate::lists;
use crate::sip::basic;
use crate::sip::basic::{Method, Transport};
use crate::sip::header;
use crate::sip::header::{Field, FieldView, Header, HeaderKind, HeaderView};
use crate::sip::message;
use crate::sip::message::{
    Request, RequestView, Response, ResponseView, SipMessage, SipMessageView,
};
use crate::sip::status::{StatusCode, StatusCodeKind};
use crate::sip::uri;
use crate::sip::uri::{
    Host, HostView, HostWithPort, HostWithPortView, Param, ParamView, Received, ReceivedView, Via,
    ViaView,
};
use crate::transaction::endpoint;
use crate::transaction::endpoint::{EndpointInner, EndpointView};
use crate::transaction::key;
use crate::transaction::key::{TransactionKey, TransactionRole};
use crate::transport::connection::{SipConnection, SipConnectionView};
use crate::transport::sip_addr;
use crate::transport::sip_addr::{SipAddr, SipAddrView};
use vstd::prelude::*;
use vstd::string::*;

verus! {

/// A request of a dialog that waits for its final response.
pub struct DialogRequest {
    pub method: Method,
    pub auth_sent: bool,
    /// A provisional response that the user is told of once its PRACK is
    /// through.
    pub provisional: Option<Response>,
}

#[verifier::ext_equal]
pub struct DialogRequestView {
    pub method: Method,
    pub auth_sent: bool,
    pub provisional: Option<ResponseView>,
}

impl View for DialogRequest {
    type V = DialogRequestView;

    open spec fn view(&self) -> DialogRequestView {
        DialogRequestView {
            method: self.method,
            auth_sent: self.auth_sent,
            provisional: self.provisional.deep_view(),
        }
    }
}

/// What is to be done next.
pub enum DialogStep {
    /// Open a client transaction for `request` with this connection and
    /// destination, send it, and call [`DialogInner::request_sent`].
    Start {
        key: TransactionKey,
        request: Request,
        connection: Option<SipConnection>,
        destination: Option<SipAddr>,
    },
    /// Send the transaction once more to `target`, with `request` as its request,
    /// and then wait for a message.
    Resend { target: SipAddr, request: Request },
    /// Wait for a message of the transaction, and call
    /// [`DialogInner::request_message`].
    Receive,
    /// Send this PRACK, from [`DialogInner::send_prack_request`] on, and call
    /// [`DialogInner::request_pracked`].
    Prack { request: Request },
    /// Answer the challenge in `response` with a new transaction whose request
    /// has the number `seq`, send it, and call
    /// [`DialogInner::request_authenticated`].
    Authenticate { seq: u32, response: Response },
    Done(Result<Option<Response>, Error>),
}

#[verifier::ext_equal]
pub enum DialogStepView {
    Start {
        key: Seq<char>,
        request: RequestView,
        connection: Option<SipConnectionView>,
        destination: Option<SipAddrView>,
    },
    Resend { target: SipAddrView, request: RequestView },
    Receive,
    Prack { request: RequestView },
    Authenticate { seq: u32, response: ResponseView },
    Done(Result<Option<ResponseView>, ErrorView>),
}

impl View for DialogStep {
    type V = DialogStepView;

    open spec fn view(&self) -> DialogStepView {
        match self {
            DialogStep::Start { key, request, connection, destination } => DialogStepView::Start {
                key: key@,
                request: request@,
                connection: connection.deep_view(),
                destination: destination.deep_view(),
            },
            DialogStep::Resend { target, request } => DialogStepView::Resend {
                target: target@,
                request: request@,
            },
            DialogStep::Receive => DialogStepView::Receive,
            DialogStep::Prack { request } => DialogStepView::Prack { request: request@ },
            DialogStep::Authenticate { seq, response } => DialogStepView::Authenticate {
                seq: *seq,
                response: response@,
            },
            DialogStep::Done(r) => DialogStepView::Done(error::result_view(*r)),
        }
    }
}

/// The address of the first Route of a request.
pub open spec fn route_target(headers: Seq<HeaderView>) -> Option<SipAddrView> {
    match header::first_route(headers) {
        Some(FieldView::Typed(r)) => Some(sip_addr::addr_of_uri(r.uri)),
        _ => None,
    }
}

pub fn first_route_target(headers: &Vec<Header>) -> (r: Option<SipAddr>)
    ensures
        r.deep_view() == route_target(headers.deep_view()),
{
    match header::find_route(headers) {
        Some(Field::Typed(r)) => Some(SipAddr::from_uri(&r.uri)),
        _ => None,
    }
}

/// A request of the dialog is sent over the recorded flow, if that can be used,
/// or else to the first Route, if there is one.
pub open spec fn request_started(d: DialogView, ep: EndpointView, request: RequestView) -> DialogStepView {
    match key::key_of_request(request, TransactionRole::Client) {
        Err(e) => DialogStepView::Done(Err(e)),
        Ok(key) => DialogStepView::Start {
            key,
            request,
            connection: d.affinity(ep),
            destination: route_target(request.headers),
        },
    }
}

/// The address that the request which opened the dialog came from, as its top
/// Via has it.
pub open spec fn via_source(request: RequestView) -> Option<SipAddrView> {
    match message::via_of(request.headers) {
        Ok(v) => match (uri::received_in(v.params), uri::rport_in(v.params)) {
            (Some(ReceivedView::Ip(ip)), Some(Some(port))) => Some(
                SipAddrView {
                    transport: Some(v.transport),
                    addr: HostWithPortView { host: HostView::IpAddr(ip), port: Some(port) },
                },
            ),
            _ => None,
        },
        Err(_) => None,
    }
}

/// The last resort for reaching the peer: where the recorded flow came from, or
/// else where the first request came from.
pub open spec fn dialback(d: DialogView) -> Option<SipAddrView> {
    match d.dialback_target {
        Some(a) => Some(a),
        None => via_source(d.initial_request),
    }
}

/// An address that messages of the transport `t` leave from.
pub open spec fn addr_for(a: SipAddrView, t: Transport) -> Option<SipAddrView> {
    if basic::or_udp(a.transport) == t {
        Some(a)
    } else {
        None
    }
}

/// The Via that a request needs when it goes out on another transport than its
/// top Via names, with the same branch.
pub open spec fn redirected_via(
    addrs: Seq<SipAddrView>,
    original: RequestView,
    target: SipAddrView,
) -> Option<ViaView> {
    let t = basic::or_udp(target.transport);
    match (
        lists::first_of(addrs, |a: SipAddrView| addr_for(a, t)),
        message::via_of(original.headers),
    ) {
        (Some(listener), Ok(v)) => match uri::branch_in(v.params) {
            Some(b) if v.transport != t => Some(
                endpoint::via_for(listener, ParamView::Branch(b)),
            ),
            _ => None,
        },
        _ => None,
    }
}

/// A request as it goes out to `target`: its top Via names the transport.
pub open spec fn redirected(
    addrs: Seq<SipAddrView>,
    original: RequestView,
    target: SipAddrView,
) -> RequestView {
    let i = header::first_index(original.headers, HeaderKind::Via);
    match redirected_via(addrs, original, target) {
        Some(top) if i < original.headers.len() => RequestView {
            headers: original.headers.update(i, HeaderView::Via(FieldView::Typed(top))),
            ..original
        },
        _ => original,
    }
}

/// A request of the dialog is on its way, with or without a connection, or could
/// not be sent. Where it has no connection, the last resort is tried, except for
/// an ACK.
pub open spec fn request_sent(
    d: DialogView,
    addrs: Seq<SipAddrView>,
    method: Method,
    original: RequestView,
    sent: Result<bool, ErrorView>,
) -> DialogStepView {
    let retry = method != Method::Ack && match sent {
        Ok(connected) => !connected,
        Err(_) => d.role == TransactionRole::Server,
    };
    if sent is Err && !retry {
        DialogStepView::Done(Err(sent->Err_0))
    } else {
        match dialback(d) {
            Some(target) if retry => DialogStepView::Resend {
                target,
                request: redirected(addrs, original, target),
            },
            _ => DialogStepView::Receive,
        }
    }
}

/// The response asks for credentials.
pub open spec fn is_challenge(status: StatusCode) -> bool {
    status == StatusCode::ProxyAuthenticationRequired || status == StatusCode::Unauthorized
}

pub fn asks_for_credentials(status: StatusCode) -> (r: bool)
    ensures
        r == is_challenge(status),
{
    status == StatusCode::ProxyAuthenticationRequired || status == StatusCode::Unauthorized
}

/// The dialog is over because its credentials were refused or are missing.
pub open spec fn auth_refused(d: DialogView) -> DialogView {
    d.enter(DialogStateView::Terminated(d.id, TerminatedReason::ProxyAuthRequired))
}

/// A provisional response to an INVITE: the peer's tag is taken over, and a
/// PRACK is due if the response asks for one.
pub open spec fn provisional(
    d: DialogView,
    ep: EndpointView,
    addrs: Seq<SipAddrView>,
    branch: Seq<char>,
    resp: ResponseView,
) -> (DialogView, Result<Option<RequestView>, ErrorView>) {
    if header::first_to(resp.headers) is None {
        (d, Err(ErrorView::MissingHeader(HeaderKind::To)))
    } else {
        let d = match message::to_tag_of(resp.headers) {
            Ok(Some(tag)) => d.with_remote_tag(tag),
            _ => d,
        };
        prack::prack_for(d, ep, addrs, branch, resp)
    }
}

/// The user is told of a provisional response. Only a dialog that is not
/// established yet is early because of it; of one that is over there is nothing
/// to tell.
pub open spec fn early(d: DialogView, resp: ResponseView) -> DialogView {
    let state = DialogStateView::Early(d.id, resp);
    if d.state.can_cancel() {
        d.enter(state)
    } else {
        d.tell(state)
    }
}

/// The number of the request that answers a challenge. A CANCEL keeps its number.
pub open spec fn auth_seq(d: DialogView, method: Method) -> u32 {
    if method == Method::Cancel {
        d.local_seq
    } else {
        dialog::next_seq(d.local_seq)
    }
}

/// A response to a request of the dialog.
pub open spec fn response_arrived(
    d: DialogView,
    ep: EndpointView,
    addrs: Seq<SipAddrView>,
    branch: Seq<char>,
    q: DialogRequestView,
    resp: ResponseView,
) -> (DialogView, DialogRequestView, DialogStepView) {
    let status = resp.status_code;
    if status == StatusCode::Trying {
        (d, q, DialogStepView::Receive)
    } else if status.spec_kind() == StatusCodeKind::Provisional {
        if q.method == Method::Invite {
            let (after, prack) = provisional(d, ep, addrs, branch, resp);
            match prack {
                Err(e) => (after, q, DialogStepView::Done(Err(e))),
                Ok(Some(request)) => (
                    after,
                    DialogRequestView { provisional: Some(resp), ..q },
                    DialogStepView::Prack { request },
                ),
                Ok(None) => (early(after, resp), q, DialogStepView::Receive),
            }
        } else {
            (early(d, resp), q, DialogStepView::Receive)
        }
    } else if is_challenge(status) {
        if q.auth_sent {
            (auth_refused(d), q, DialogStepView::Done(Ok(None)))
        } else {
            let q = DialogRequestView { auth_sent: true, ..q };
            if d.credential is Some {
                let seq = auth_seq(d, q.method);
                (
                    DialogView { local_seq: seq, ..d },
                    q,
                    DialogStepView::Authenticate { seq, response: resp },
                )
            } else {
                (auth_refused(d), q, DialogStepView::Receive)
            }
        }
    } else {
        (
            if q.method == Method::PRack {
                d
            } else {
                DialogView { remote_reliable: None, ..d }
            },
            q,
            DialogStepView::Done(Ok(Some(resp))),
        )
    }
}

/// A message of the transaction of a request, or its end.
pub open spec fn message_arrived(
    d: DialogView,
    ep: EndpointView,
    addrs: Seq<SipAddrView>,
    branch: Seq<char>,
    q: DialogRequestView,
    msg: Option<SipMessageView>,
) -> (DialogView, DialogRequestView, DialogStepView) {
    match msg {
        Some(SipMessageView::Response(resp)) => response_arrived(
            d.observe_peer(message::peer_uuid_of(resp.headers)),
            ep,
            addrs,
            branch,
            q,
            resp,
        ),
        _ => (d, q, DialogStepView::Done(Ok(None))),
    }
}

/// The PRACK of a provisional response is through, or failed.
pub open spec fn pracked(d: DialogView, q: DialogRequestView, r: Result<(), ErrorView>) -> (
    DialogView,
    DialogRequestView,
    DialogStepView,
) {
    match r {
        Err(e) => (d, q, DialogStepView::Done(Err(e))),
        Ok(_) => (
            match q.provisional {
                Some(resp) => early(d, resp),
                None => d,
            },
            DialogRequestView { provisional: None, ..q },
            DialogStepView::Receive,
        ),
    }
}

/// A message of the transaction of a PRACK, or its end.
pub open spec fn prack_answered(d: DialogView, auth_sent: bool, msg: Option<SipMessageView>) -> (
    DialogView,
    bool,
    DialogStepView,
) {
    match msg {
        Some(SipMessageView::Response(resp)) => if resp.status_code == StatusCode::Trying {
            (d, auth_sent, DialogStepView::Receive)
        } else if is_challenge(resp.status_code) {
            if auth_sent || d.credential is None {
                (auth_refused(d), true, DialogStepView::Done(Ok(None)))
            } else {
                let seq = dialog::next_seq(d.local_seq);
                (
                    DialogView { local_seq: seq, ..d },
                    true,
                    DialogStepView::Authenticate { seq, response: resp },
                )
            }
        } else {
            (d, auth_sent, DialogStepView::Done(Ok(Some(resp))))
        },
        _ => (d, auth_sent, DialogStepView::Done(Ok(None))),
    }
}

fn find_addr_for(addrs: &Vec<SipAddr>, t: Transport) -> (r: Option<SipAddr>)
    ensures
        r.deep_view() == lists::first_of(addrs.deep_view(), |a: SipAddrView| addr_for(a, t)),
{
    let ghost all = addrs.deep_view();
    let ghost pick = |a: SipAddrView| addr_for(a, t);
    let mut i: usize = 0;
    assert(all.skip(0) == all);
    while i < addrs.len()
        invariant
            i <= addrs.len(),
            all == addrs.deep_view(),
            pick == (|a: SipAddrView| addr_for(a, t)),
            lists::first_of(all.skip(i as int), pick) == lists::first_of(all, pick),
        decreases addrs.len() - i,
    {
        proof {
            lists::lemma_first_of_step(all, i as int, pick);
        }
        let own = match addrs[i].transport {
            Some(x) => x,
            None => Transport::Udp,
        };
        if own == t {
            return Some(addrs[i].clone());
        }
        i = i + 1;
    }
    None
}

fn redirect_via(addrs: &Vec<SipAddr>, original: &Request, target: &SipAddr) -> (r: Option<Via>)
    ensures
        r.deep_view() == redirected_via(addrs.deep_view(), original@, target@),
{
    let t = match target.transport {
        Some(t) => t,
        None => Transport::Udp,
    };
    let Some(listener) = find_addr_for(addrs, t) else {
        return None;
    };
    let Ok(v) = message::top_via(&original.headers) else {
        return None;
    };
    let Some(b) = uri::find_branch(&v.params) else {
        return None;
    };
    if v.transport == t {
        return None;
    }
    Some(endpoint::make_via(listener, Param::Branch(b)))
}

fn redirect(addrs: &Vec<SipAddr>, original: &Request, target: &SipAddr) -> (r: Request)
    ensures
        r@ == redirected(addrs.deep_view(), original@, target@),
{
    let mut request = original.clone();
    if let Some(top) = redirect_via(addrs, original, target) {
        let i: usize = header::index_of(&original.headers, HeaderKind::Via);
        if i < request.headers.len() {
            header::replace(&mut request.headers, i, Header::Via(Field::Typed(top)));
        }
    }
    request
}

impl DialogInner {
    fn fallback_target_from_initial_via(request: &Request) -> (r: Option<SipAddr>)
        ensures
            r.deep_view() == via_source(request@),
    {
        let Ok(v) = message::top_via(&request.headers) else {
            return None;
        };
        let Some(Received::Ip(ip)) = uri::find_received(&v.params) else {
            return None;
        };
        let Some(Some(port)) = uri::find_rport(&v.params) else {
            return None;
        };
        Some(
            SipAddr {
                transport: Some(v.transport),
                addr: HostWithPort { host: Host::IpAddr(ip), port: Some(port) },
            },
        )
    }

    fn dialback(&self) -> (r: Option<SipAddr>)
        ensures
            r.deep_view() == dialback(self@),
    {
        match &self.dialback_target {
            Some(a) => Some(a.clone()),
            None => Self::fallback_target_from_initial_via(&self.initial_request),
        }
    }

    /// Starts a request of the dialog.
    pub fn do_request(&self, ep: &EndpointInner, request: Request) -> (r: (
        DialogRequest,
        DialogStep,
    ))
        ensures
            r.0@ == (DialogRequestView {
                method: request.method,
                auth_sent: false,
                provisional: None,
            }),
            r.1@ == request_started(self@, ep@, request@),
    {
        self.send_dialog_request(ep, request)
    }

    fn send_dialog_request(&self, ep: &EndpointInner, request: Request) -> (r: (
        DialogRequest,
        DialogStep,
    ))
        ensures
            r.0@ == (DialogRequestView {
                method: request.method,
                auth_sent: false,
                provisional: None,
            }),
            r.1@ == request_started(self@, ep@, request@),
    {
        let q = DialogRequest { method: request.method, auth_sent: false, provisional: None };
        match TransactionKey::from_request(&request, TransactionRole::Client) {
            Err(e) => (q, DialogStep::Done(Err(e))),
            Ok(key) => {
                let connection = self.resolve_affinity_connection(ep);
                let destination = first_route_target(&request.headers);
                (q, DialogStep::Start { key, request, connection, destination })
            },
        }
    }

    /// Goes on once the request is on its way: `sent` tells whether the
    /// transaction has a connection, or why it could not be sent. `original` is
    /// the request of the transaction.
    pub fn request_sent(
        &self,
        addrs: &Vec<SipAddr>,
        q: &DialogRequest,
        original: &Request,
        sent: Result<bool, Error>,
    ) -> (step: DialogStep)
        ensures
            step@ == request_sent(
                self@,
                addrs.deep_view(),
                q@.method,
                original@,
                error::result_view(sent),
            ),
    {
        let retry = match sent {
            Ok(connected) => !connected && q.method != Method::Ack,
            Err(e) => {
                if self.role != TransactionRole::Server || q.method == Method::Ack {
                    return DialogStep::Done(Err(e));
                }
                true
            },
        };
        if retry {
            if let Some(target) = self.dialback() {
                let request = redirect(addrs, original, &target);
                return DialogStep::Resend { target, request };
            }
        }
        DialogStep::Receive
    }

    fn refuse_auth(&mut self)
        ensures
            final(self)@ == auth_refused(old(self)@),
    {
        let id = self.id.clone();
        self.transition(DialogState::Terminated(id, TerminatedReason::ProxyAuthRequired));
    }

    /// Takes the peer's tag over from a provisional response to an INVITE, and
    /// writes the PRACK that it asks for.
    pub fn handle_provisional_response(
        &mut self,
        ep: &EndpointInner,
        addrs: &Vec<SipAddr>,
        branch: &String,
        resp: &Response,
    ) -> (r: Result<Option<Request>, Error>)
        ensures
            (final(self)@, error::result_view(r)) == provisional(
                old(self)@,
                ep@,
                addrs.deep_view(),
                branch@,
                resp@,
            ),
    {
        if header::find_to(&resp.headers).is_none() {
            return Err(Error::MissingHeader(HeaderKind::To));
        }
        if let Ok(Some(tag)) = message::to_tag(&resp.headers) {
            self.update_remote_tag(tag.as_str());
        }
        self.prepare_prack_request(ep, addrs, branch, resp)
    }

    fn notify_early(&mut self, resp: Response)
        ensures
            final(self)@ == early(old(self)@, resp@),
    {
        let state = DialogState::Early(self.id.clone(), resp);
        if self.can_cancel() {
            self.transition(state);
        } else {
            self.notify_only(state);
        }
    }

    fn response_arrived(
        &mut self,
        ep: &EndpointInner,
        addrs: &Vec<SipAddr>,
        branch: &String,
        q: &mut DialogRequest,
        resp: Response,
    ) -> (step: DialogStep)
        ensures
            (final(self)@, final(q)@, step@) == response_arrived(
                old(self)@,
                ep@,
                addrs.deep_view(),
                branch@,
                old(q)@,
                resp@,
            ),
    {
        let status = resp.status_code;
        if status == StatusCode::Trying {
            return DialogStep::Receive;
        }
        if status.kind() == StatusCodeKind::Provisional {
            if q.method == Method::Invite {
                match self.handle_provisional_response(ep, addrs, branch, &resp) {
                    Err(e) => return DialogStep::Done(Err(e)),
                    Ok(Some(request)) => {
                        q.provisional = Some(resp);
                        return DialogStep::Prack { request };
                    },
                    Ok(None) => {},
                }
            }
            self.notify_early(resp);
            return DialogStep::Receive;
        }
        if asks_for_credentials(status) {
            if q.auth_sent {
                self.refuse_auth();
                return DialogStep::Done(Ok(None));
            }
            q.auth_sent = true;
            if self.credential.is_some() {
                let seq: u32 = if q.method == Method::Cancel {
                    self.local_seq
                } else {
                    self.increment_local_seq()
                };
                return DialogStep::Authenticate { seq, response: resp };
            }
            self.refuse_auth();
            return DialogStep::Receive;
        }
        if q.method != Method::PRack {
            self.remote_reliable = None;
        }
        DialogStep::Done(Ok(Some(resp)))
    }

    /// Takes the next message of the request's transaction, or its end.
    pub fn request_message(
        &mut self,
        ep: &EndpointInner,
        addrs: &Vec<SipAddr>,
        branch: &String,
        q: &mut DialogRequest,
        msg: Option<SipMessage>,
    ) -> (step: DialogStep)
        ensures
            (final(self)@, final(q)@, step@) == message_arrived(
                old(self)@,
                ep@,
                addrs.deep_view(),
                branch@,
                old(q)@,
                msg.deep_view(),
            ),
    {
        match msg {
            Some(SipMessage::Response(resp)) => {
                let peer = message::peer_uuid(&resp.headers);
                self.observe_peer_session_uuid(peer);
                self.response_arrived(ep, addrs, branch, q, resp)
            },
            _ => DialogStep::Done(Ok(None)),
        }
    }

    /// Goes on once the PRACK is through, or failed.
    pub fn request_pracked(&mut self, q: &mut DialogRequest, r: Result<(), Error>) -> (step:
        DialogStep)
        ensures
            (final(self)@, final(q)@, step@) == pracked(
                old(self)@,
                old(q)@,
                error::result_view(r),
            ),
    {
        match r {
            Err(e) => DialogStep::Done(Err(e)),
            Ok(()) => {
                if let Some(resp) = q.provisional.take() {
                    self.notify_early(resp);
                }
                DialogStep::Receive
            },
        }
    }

    /// Goes on once the challenge is answered, or could not be.
    pub fn request_authenticated(&self, r: Result<(), Error>) -> (step: DialogStep)
        ensures
            step@ == (match r {
                Ok(_) => DialogStepView::Receive,
                Err(e) => DialogStepView::Done(Err(e@)),
            }),
    {
        match r {
            Ok(()) => DialogStep::Receive,
            Err(e) => DialogStep::Done(Err(e)),
        }
    }

    /// Starts a PRACK.
    pub fn send_prack_request(&self, ep: &EndpointInner, request: Request) -> (step: DialogStep)
        ensures
            step@ == request_started(self@, ep@, request@),
    {
        self.do_request(ep, request).1
    }

    /// Goes on once the PRACK is on its way, or could not be sent.
    pub fn prack_sent(&self, sent: Result<bool, Error>) -> (step: DialogStep)
        ensures
            step@ == (match sent {
                Ok(_) => DialogStepView::Receive,
                Err(e) => DialogStepView::Done(Err(e@)),
            }),
    {
        match sent {
            Ok(_) => DialogStep::Receive,
            Err(e) => DialogStep::Done(Err(e)),
        }
    }

    /// Takes the next message of the PRACK's transaction, or its end.
    pub fn prack_message(&mut self, auth_sent: &mut bool, msg: Option<SipMessage>) -> (step:
        DialogStep)
        ensures
            (final(self)@, *final(auth_sent), step@) == prack_answered(
                old(self)@,
                *old(auth_sent),
                msg.deep_view(),
            ),
    {
        match msg {
            Some(SipMessage::Response(resp)) => {
                if resp.status_code == StatusCode::Trying {
                    return DialogStep::Receive;
                }
                if asks_for_credentials(resp.status_code) {
                    if *auth_sent || self.credential.is_none() {
                        *auth_sent = true;
                        self.refuse_auth();
                        return DialogStep::Done(Ok(None));
                    }
                    *auth_sent = true;
                    let seq: u32 = self.increment_local_seq();
                    return DialogStep::Authenticate { seq, response: resp };
                }
                DialogStep::Done(Ok(Some(resp)))
            },
            _ => DialogStep::Done(Ok(None)),
        }
    }
}

}

//! How a call is made and ended, and how a dialog's own requests go.

use super::abandoning;
use super::abandoning::{Abandoned, AbandonStepView};
use super::answer_laws;
use super::dialog;
use super::dialog::{
    CredentialView, DialogStateView, DialogView, SessionIdStateView, TerminatedReason,
};
use super::exchange;
use super::exchange::{DialogRequestView, DialogStepView};
use super::id;
use super::id::DialogIdView;
use super::invitation;
use super::invitation::InviteOptionView;
use super::invite_dialog;
use super::invite_laws;
use super::inviting;
use super::inviting::{InvitationView, InviteStepView};
use super::message_laws;
use super::prack;
use super::requests;
use crate::error::ErrorView;
use crate::lists;
use crate::sip::basic::{IpAddr, Method, Scheme, Transport};
use crate::sip::header;
use crate::sip::header::{CSeq, FieldView, HeaderKind, HeaderView};
use crate::sip::message;
use crate::sip::message::{RequestView, ResponseView, SipMessageView};
use crate::sip::status::{StatusCode, StatusCodeKind};
use crate::sip::uri;
use crate::sip::uri::{
    HostView, HostWithPortView, NameAddrView, ParamView, ReceivedView, UriView, ViaView,
};
use crate::text;
use crate::transaction::endpoint::EndpointView;
use crate::transaction::key;
use crate::transaction::key::TransactionRole;
use crate::transaction::transaction::{TransactionState, TransactionType, TransactionView};
use crate::transport::connection::SipConnectionView;
use crate::transport::sip_addr::SipAddrView;
use vstd::prelude::*;

verus! {

/// A new dialog knows what the request that opens it says. A client's peer is at
/// the URI of the request, and a server's at its Contact. A server follows the
/// recorded routes in their order and gives the To its own tag; it names itself by
/// the new identifier, and the peer by the one of the request.
pub proof fn law_new_dialog_knows_its_request(
    role: TransactionRole,
    id: DialogIdView,
    req: RequestView,
    credential: Option<CredentialView>,
    local_contact: Option<UriView>,
    tu_channel: u64,
    uuid: Seq<char>,
    d: DialogView,
    cseq: CSeq,
    from: NameAddrView,
    to: NameAddrView,
)
    requires
        dialog::opened(role, id, req, credential, local_contact, tu_channel, uuid) == Ok::<
            _,
            ErrorView,
        >(d),
        header::first_cseq(req.headers) == Some(FieldView::Typed(cseq)),
        header::first_from(req.headers) == Some(FieldView::Typed(from)),
        header::first_to(req.headers) == Some(FieldView::Typed(to)),
    ensures
        d.role == role && d.id == id && d.state == DialogStateView::Calling(id),
        d.local_seq == cseq.seq && d.remote_seq == 0,
        d.from == from,
        to.tag() is Some ==> d.to == to,
        d.to.uri == to.uri && d.to.display_name == to.display_name,
        role == TransactionRole::Server && to.tag() is None && id.local_tag.len() > 0 ==> d.to.params
            == to.params.push(ParamView::Tag(id.local_tag)),
        role == TransactionRole::Client ==> d.remote_uri == req.uri,
        role == TransactionRole::Server ==> (header::first_contact(req.headers) matches Some(
            FieldView::Typed(c),
        ) && d.remote_uri == c.uri),
        role == TransactionRole::Client ==> d.route_set.len() == 0,
        role == TransactionRole::Server ==> d.route_set == message::record_routes(req.headers),
        d.initial_request == req,
        d.credential == credential && d.local_contact == local_contact,
        d.tu_channel == tu_channel,
        d.remote_contact is None && d.remote_reliable is None && d.server_connection is None,
        d.dialback_target is None && d.remote_ack is None && !d.is_removed,
        d.notifications.len() == 0,
        header::first_session_id(req.headers) is None ==> d.session_id is None,
        header::first_session_id(req.headers) matches Some(s) ==> (s.local_uuid() is None
            ==> d.session_id is None),
        header::first_session_id(req.headers) matches Some(s) ==> (s.local_uuid() matches Some(
            other,
        ) ==> {
            &&& role == TransactionRole::Server ==> d.session_id == Some(
                SessionIdStateView { local: uuid, remote: Some(other) },
            )
            &&& role == TransactionRole::Client ==> d.session_id == Some(
                SessionIdStateView { local: other, remote: s.remote_uuid() },
            )
        }),
        d.supports_100rel <==> message::headers_list(
            req.headers,
            HeaderKind::Supported,
            "100rel"@,
        ) || message::headers_list(req.headers, HeaderKind::Require, "100rel"@),
{
}

/// The call that an INVITE opens: the transaction sends the INVITE with its offer,
/// to the destination given or else to its first Route; the dialog keeps the
/// credentials, has the INVITE's Contact for its own, and has its peer where the
/// INVITE goes.
pub proof fn law_client_call_sends_its_invite(
    ep: EndpointView,
    opt: InviteOptionView,
    invite: RequestView,
    d: DialogView,
    tx: TransactionView,
    after: EndpointView,
)
    requires
        invitation::client_call(ep, opt, invite) == (after, Ok::<_, ErrorView>((d, tx))),
        invite.method == Method::Invite,
    ensures
        ({
            let req = invitation::with_offer(invite, opt.offer);
            &&& tx.original == req && d.initial_request == req
            &&& tx.transaction_type == TransactionType::ClientInvite
            &&& tx.state == TransactionState::Nothing
            &&& tx.connection is None
            &&& opt.destination matches Some(t) ==> tx.destination == Some(t)
            &&& opt.destination is None ==> (header::first_route(req.headers) matches Some(
                FieldView::Typed(r),
            ) ==> (tx.destination matches Some(t) && t.addr == r.uri.host_with_port && t.transport
                == uri::transport_in(r.uri.params)))
            &&& opt.destination is None && !(header::first_route(req.headers) matches Some(
                FieldView::Typed(_),
            )) ==> tx.destination is None && d.remote_uri == invite.uri
            &&& tx.destination matches Some(t) ==> {
                &&& d.remote_uri.host_with_port == t.addr && d.remote_uri.user is None
                &&& t.transport is None || t.transport == Some(Transport::Udp)
                    ==> d.remote_uri.params.len() == 0
                &&& t.transport is Some && t.transport != Some(Transport::Udp)
                    ==> d.remote_uri.params == seq![ParamView::Transport(t.transport->0)]
                &&& d.remote_uri.scheme == Some(
                    if t.transport == Some(Transport::Tls) || t.transport == Some(Transport::Wss) {
                        Scheme::Sips
                    } else {
                        Scheme::Sip
                    },
                )
            }
            &&& d.role == TransactionRole::Client && d.state == DialogStateView::Calling(d.id)
            &&& d.credential == opt.credential
            &&& d.tu_channel == ep.next_channel && tx.channel == d.tu_channel
            &&& header::first_contact(req.headers) matches Some(FieldView::Typed(c))
                ==> d.local_contact == Some(c.uri)
            &&& header::first_contact(req.headers) is None ==> d.local_contact == Some(
                opt.contact,
            )
            &&& after.transactions.contains_key(tx.key) && after.transactions[tx.key]
                == tx.channel
        }),
{
}

/// A client starts its INVITE, and tells the user that it calls. Once the INVITE
/// is out, the dialog uses the flow that it went out on. A server sends none.
pub proof fn law_client_starts_its_invite(
    d: DialogView,
    connection: Option<SipConnectionView>,
    e: ErrorView,
)
    ensures
        d.role == TransactionRole::Client && !(d.state is Terminated) ==> {
            let (f, q, step) = inviting::invite_started(d);
            &&& answer_laws::has_entered(d, f, DialogStateView::Calling(d.id))
            &&& step == InviteStepView::Send
            &&& q.dialog_id == d.id && !q.auth_sent && q.provisional is None
        },
        d.role == TransactionRole::Server ==> {
            let (f, _, step) = inviting::invite_started(d);
            f == d && (step matches InviteStepView::Done(Err(_)))
        },
        ({
            let (f, step) = inviting::invite_sent(d, connection, Ok(()));
            &&& step == InviteStepView::Receive
            &&& f.server_connection == connection
            &&& connection matches Some(c) ==> f.dialback_target == c.remote_addr()
            &&& connection is None ==> f.dialback_target is None
            &&& f.state == d.state && f.notifications == d.notifications
            &&& answer_laws::is_same_call(d, f)
        }),
        inviting::invite_sent(d, connection, Err(e)) == (d, InviteStepView::Done(Err(e))),
{
}

/// A challenge to the INVITE is answered with the next number. The INVITE that
/// answers it takes the place of the first one, and the peer's tag is not known any
/// more.
pub proof fn law_challenge_is_answered(
    d: DialogView,
    ep: EndpointView,
    addrs: Seq<SipAddrView>,
    branch: Seq<char>,
    q: InvitationView,
    resp: ResponseView,
    connection: Option<SipConnectionView>,
    original: RequestView,
)
    requires
        resp.status_code == StatusCode::Unauthorized || resp.status_code
            == StatusCode::ProxyAuthenticationRequired,
        d.credential is Some,
        !q.auth_sent,
        d.local_seq < u32::MAX,
        d.role == TransactionRole::Client,
    ensures
        ({
            let (f, r, step) = inviting::invite_message(
                d,
                ep,
                addrs,
                branch,
                q,
                Some(SipMessageView::Response(resp)),
            );
            let (g, next) = inviting::invite_authenticated(f, connection, original, Ok(()));
            &&& step == (InviteStepView::Authenticate {
                seq: (d.local_seq + 1) as u32,
                response: resp,
            })
            &&& f == DialogView { local_seq: (d.local_seq + 1) as u32, ..d }
            &&& r.auth_sent && r.dialog_id == q.dialog_id
            &&& next == InviteStepView::Receive
            &&& g.initial_request == original
            &&& g.id.remote_tag.len() == 0 && g.id.call_id == d.id.call_id && g.id.local_tag
                == d.id.local_tag
            &&& g.server_connection == connection
            &&& g.state == d.state && g.notifications == d.notifications
        }),
{
}

/// A 100 is told to the user as trying. Any other provisional response that asks
/// for no PRACK gives the dialog the peer's tag and is told to the user.
pub proof fn law_client_hears_of_provisional_responses(
    d: DialogView,
    ep: EndpointView,
    addrs: Seq<SipAddrView>,
    branch: Seq<char>,
    q: InvitationView,
    resp: ResponseView,
    to: NameAddrView,
)
    requires
        !(d.state is Terminated),
        d.role == TransactionRole::Client,
        resp.status_code.spec_kind() == StatusCodeKind::Provisional,
        header::first_to(resp.headers) == Some(FieldView::Typed(to)),
        !message::headers_list(resp.headers, HeaderKind::Require, "100rel"@),
    ensures
        ({
            let (f, r, step) = inviting::invite_message(
                d,
                ep,
                addrs,
                branch,
                q,
                Some(SipMessageView::Response(resp)),
            );
            &&& step == InviteStepView::Receive && r == q
            &&& resp.status_code == StatusCode::Trying ==> answer_laws::has_entered(
                d,
                f,
                DialogStateView::Trying(d.id),
            )
            &&& resp.status_code != StatusCode::Trying ==> {
                &&& f.state == DialogStateView::Early(f.id, resp)
                &&& f.notifications == d.notifications.push(f.state)
                &&& f.id.call_id == d.id.call_id && f.id.local_tag == d.id.local_tag
                &&& to.tag() matches Some(t) ==> f.id.remote_tag == t && f.to == d.to.with_tag(t)
                &&& to.tag() is None ==> f.id == d.id && f.to == d.to
                &&& f.local_seq == d.local_seq && f.remote_uri == d.remote_uri && f.route_set
                    == d.route_set
            }
        }),
{
}

/// A 2xx to the INVITE gives the dialog the peer's tag, Contact and routes: the
/// requests to come go to that Contact, along the recorded routes in the opposite
/// order.
pub proof fn law_2xx_gives_the_dialog_its_target(
    d: DialogView,
    ep: EndpointView,
    addrs: Seq<SipAddrView>,
    branch: Seq<char>,
    q: InvitationView,
    resp: ResponseView,
    contact: NameAddrView,
    tag: Seq<char>,
)
    requires
        !(d.state is Terminated),
        d.role == TransactionRole::Client,
        resp.status_code.spec_kind() == StatusCodeKind::Successful,
        message::to_tag_of(resp.headers) == Ok::<_, ErrorView>(Some(tag)),
        message::contact_of(resp.headers) == Ok::<_, ErrorView>(Some(contact)),
    ensures
        ({
            let (f, r, step) = inviting::invite_message(
                d,
                ep,
                addrs,
                branch,
                q,
                Some(SipMessageView::Response(resp)),
            );
            let recorded = message::record_routes(resp.headers);
            &&& f.state is Confirmed
            &&& f.id.remote_tag == tag && f.id.call_id == d.id.call_id && f.id.local_tag
                == d.id.local_tag
            &&& f.to == d.to.with_tag(tag) && f.from == d.from
            &&& f.remote_uri == contact.uri
            &&& f.remote_contact == Some(FieldView::Typed(contact))
            &&& f.route_set.len() == recorded.len()
            &&& forall|i: int|
                0 <= i < recorded.len() ==> #[trigger] f.route_set[i] == recorded[recorded.len()
                    - 1 - i]
            &&& f.local_seq == d.local_seq && f.local_contact == d.local_contact
            &&& f.initial_request == d.initial_request
        }),
{
}

/// A final response other than a 2xx and a challenge ends the call for that
/// reason, and is what the caller gets.
pub proof fn law_refused_invite_ends_the_call(
    d: DialogView,
    ep: EndpointView,
    addrs: Seq<SipAddrView>,
    branch: Seq<char>,
    q: InvitationView,
    resp: ResponseView,
    to: NameAddrView,
)
    requires
        !(d.state is Terminated),
        resp.status_code.spec_kind() != StatusCodeKind::Provisional,
        resp.status_code.spec_kind() != StatusCodeKind::Successful,
        resp.status_code != StatusCode::Unauthorized,
        resp.status_code != StatusCode::ProxyAuthenticationRequired,
        header::first_to(resp.headers) == Some(FieldView::Typed(to)),
    ensures
        ({
            let (f, r, step) = inviting::invite_message(
                d,
                ep,
                addrs,
                branch,
                q,
                Some(SipMessageView::Response(resp)),
            );
            &&& f.state == DialogStateView::Terminated(
                f.id,
                TerminatedReason::UasOther(resp.status_code),
            )
            &&& f.notifications == d.notifications.push(f.state)
            &&& to.tag() matches Some(t) ==> f.id.remote_tag == t
            &&& to.tag() is None ==> f.id == d.id
            &&& step matches InviteStepView::Done(Ok((_, Some(got)))) && got == resp
        }),
{
}

/// The caller gets the name of the dialog as the response has it.
pub proof fn law_caller_learns_the_dialogs_name(
    d: DialogView,
    ep: EndpointView,
    addrs: Seq<SipAddrView>,
    branch: Seq<char>,
    q: InvitationView,
    resp: ResponseView,
    call_id: Seq<char>,
    from: NameAddrView,
    to: NameAddrView,
    near: Seq<char>,
    far: Seq<char>,
)
    requires
        resp.status_code.spec_kind() != StatusCodeKind::Provisional,
        resp.status_code != StatusCode::Unauthorized,
        resp.status_code != StatusCode::ProxyAuthenticationRequired,
        header::first_call_id(resp.headers) == Some(call_id),
        header::first_from(resp.headers) == Some(FieldView::Typed(from)),
        header::first_to(resp.headers) == Some(FieldView::Typed(to)),
        from.tag() == Some(near),
        to.tag() == Some(far),
    ensures
        inviting::invite_message(
            d,
            ep,
            addrs,
            branch,
            q,
            Some(SipMessageView::Response(resp)),
        ).2 matches InviteStepView::Done(Ok((name, _))) ==> name == (DialogIdView {
            call_id,
            local_tag: near,
            remote_tag: far,
        }),
{
}

/// The CANCEL of an INVITE goes to the same URI and bears the same headers, each
/// kind with all its values and in the same order; but it has no body and tells
/// nothing of one, and its method is CANCEL, with the number of the INVITE.
pub proof fn law_cancel_repeats_its_invite(
    invite: RequestView,
    cancel: RequestView,
    cseq: CSeq,
    kind: HeaderKind,
)
    requires
        invite_dialog::cancel_of(invite) == Ok::<_, ErrorView>(cancel),
        header::first_cseq(invite.headers) == Some(FieldView::Typed(cseq)),
    ensures
        cancel.method == Method::Cancel,
        cancel.uri == invite.uri && cancel.version == invite.version && cancel.body.len() == 0,
        kind != HeaderKind::CSeq && kind != HeaderKind::ContentLength && kind
            != HeaderKind::ContentType ==> header::of_kind(cancel.headers, kind)
            == header::of_kind(invite.headers, kind),
        kind == HeaderKind::ContentLength || kind == HeaderKind::ContentType ==> header::of_kind(
            cancel.headers,
            kind,
        ).len() == 0,
        header::first_cseq(cancel.headers) == Some(
            FieldView::Typed(CSeq { seq: cseq.seq, method: Method::Cancel }),
        ),
{
    let keep = |h: HeaderView| invite_dialog::stays_in_cancel(h);
    let kept = invite.headers.filter(keep);
    let i = header::first_index(kept, HeaderKind::CSeq);
    let pick = |h: HeaderView| header::as_cseq(h);
    header::lemma_first_index(kept, HeaderKind::CSeq);
    lists::lemma_first_of_filter(invite.headers, keep, pick);
    let k = lists::lemma_first_of_found(kept, pick);
    if i >= kept.len() {
        assert(kept[k].kind() == HeaderKind::CSeq);
    }
    lemma_of_kind_kept(invite.headers, kind);
    if kind != HeaderKind::CSeq {
        lemma_of_kind_updated(
            kept,
            i,
            HeaderView::CSeq(FieldView::Typed(CSeq { seq: cseq.seq, method: Method::Cancel })),
            kind,
        );
    }
    assert forall|j: int| 0 <= j < i implies pick(#[trigger] cancel.headers[j]) is None by {
        assert(cancel.headers[j] == kept[j]);
    }
    lists::law_first_of_is_the_first(cancel.headers, i, pick);
}

proof fn lemma_of_kind_kept(headers: Seq<HeaderView>, kind: HeaderKind)
    ensures
        header::of_kind(
            headers.filter(|h: HeaderView| invite_dialog::stays_in_cancel(h)),
            kind,
        ) == if kind == HeaderKind::ContentLength || kind == HeaderKind::ContentType {
            Seq::empty()
        } else {
            header::of_kind(headers, kind)
        },
    decreases headers.len(),
{
    reveal(Seq::filter);
    let keep = |h: HeaderView| invite_dialog::stays_in_cancel(h);
    if headers.len() > 0 {
        let rest = headers.drop_last();
        lemma_of_kind_kept(rest, kind);
        if keep(headers.last()) {
            header::lemma_of_kind_push(rest.filter(keep), headers.last(), kind);
        }
    }
}

proof fn lemma_of_kind_updated(headers: Seq<HeaderView>, i: int, h: HeaderView, kind: HeaderKind)
    requires
        0 <= i < headers.len(),
        headers[i].kind() == h.kind(),
        h.kind() != kind,
    ensures
        header::of_kind(headers.update(i, h), kind) == header::of_kind(headers, kind),
    decreases headers.len(),
{
    reveal(Seq::filter);
    let rest = headers.drop_last();
    if i == headers.len() - 1 {
        assert(headers.update(i, h).drop_last() == rest);
    } else {
        assert(headers.update(i, h).drop_last() == rest.update(i, h));
        lemma_of_kind_updated(rest, i, h, kind);
    }
}

/// A BYE ends an established call, and one that a server has accepted: it is a
/// request of the dialog with the next number, without a body. Before there is a
/// call it is refused, and after the call there is nothing to send. Once it is
/// through, the dialog is over for the reason that this end ended it.
pub proof fn law_bye_ends_what_is_established(
    d: DialogView,
    ep: EndpointView,
    addrs: Seq<SipAddrView>,
    branch: Seq<char>,
    headers: Option<Seq<HeaderView>>,
    answer: Option<ResponseView>,
    e: ErrorView,
)
    requires
        addrs.len() > 0,
    ensures
        ({
            let (f, r) = invite_dialog::bye(d, ep, addrs, branch, headers);
            let can = d.state is Confirmed || (d.role == TransactionRole::Server
                && d.state is WaitAck);
            &&& can ==> {
                &&& r matches Ok(Some(bye))
                &&& bye.method == Method::Bye && bye.body.len() == 0 && bye.uri == d.remote_uri
                &&& d.local_seq < u32::MAX ==> f.local_seq == d.local_seq + 1
                &&& f.state == d.state
            }
            &&& d.state is Terminated ==> f == d && r == Ok::<Option<RequestView>, ErrorView>(None)
            &&& !can && !(d.state is Terminated) ==> f == d && r is Err
        }),
        !(d.state is Terminated) ==> {
            let (f, r) = invite_dialog::bye_done(d, Ok(answer));
            &&& r is Ok
            &&& answer_laws::has_entered(
                d,
                f,
                DialogStateView::Terminated(
                    d.id,
                    if d.role == TransactionRole::Server {
                        TerminatedReason::UasBye
                    } else {
                        TerminatedReason::UacBye
                    },
                ),
            )
        },
        invite_dialog::bye_done(d, Err(e)) == (d, Err::<(), _>(e)),
{
    reveal(requests::next_request);
    reveal(requests::request_in);
}

/// The CANCEL is that of the INVITE that opened the dialog; it fails for the status
/// that it is answered with, unless that is a 2xx.
pub proof fn law_cancel_is_of_the_opening_invite(d: DialogView, answer: Option<ResponseView>)
    ensures
        d.role == TransactionRole::Client && (d.state is Trying || d.state is Early) ==> (
        invite_dialog::cancel(d) matches Ok(Some(c)) ==> invite_dialog::cancel_of(
            d.initial_request,
        ) == Ok::<_, ErrorView>(c)),
        invite_dialog::cancel(d) == Ok::<Option<RequestView>, ErrorView>(None) <==> !(d.role
            == TransactionRole::Client && (d.state is Trying || d.state is Early)),
        invite_dialog::cancel_outcome(d, answer) is Err <==> (answer matches Some(r)
            && r.status_code.spec_kind() != StatusCodeKind::Successful),
{
}

/// A request within an established call is a request of the dialog as it is asked
/// for. Without an established call there is none.
pub proof fn law_call_request_is_as_asked(
    d: DialogView,
    ep: EndpointView,
    addrs: Seq<SipAddrView>,
    branch: Seq<char>,
    method: Method,
    headers: Option<Seq<HeaderView>>,
    body: Seq<u8>,
)
    ensures
        !(d.state is Confirmed) ==> invite_dialog::call_request(
            d,
            ep,
            addrs,
            branch,
            method,
            headers,
            body,
        ) == (d, Ok::<Option<RequestView>, ErrorView>(None)),
        d.state is Confirmed ==> ({
            let (f, r) = invite_dialog::call_request(
                d,
                ep,
                addrs,
                branch,
                method,
                headers,
                body,
            );
            let (g, s) = requests::next_request(
                d,
                ep,
                addrs,
                branch,
                method,
                None,
                headers,
                body,
            );
            f == g && (s matches Ok(req) ==> r == Ok::<_, ErrorView>(Some(req))) && (
            s matches Err(e) ==> r == Err::<Option<RequestView>, _>(e))
        }),
{
}

/// A request of the dialog goes out over the recorded flow where that can be used,
/// and to its first Route where it has one.
pub proof fn law_request_goes_its_way(d: DialogView, ep: EndpointView, request: RequestView)
    ensures
        exchange::request_started(d, ep, request) matches DialogStepView::Start {
            request: r,
            connection,
            destination,
            ..
        } ==> {
            &&& r == request
            &&& connection matches Some(c) ==> d.server_connection == Some(c) && !(c is Udp)
                && d.route_set.len() == 0
            &&& d.server_connection matches Some(c) ==> (!(c is Udp) && d.route_set.len() == 0
                && !ep.transport_layer.inner.is_over(c) ==> connection == Some(c))
            &&& header::first_route(request.headers) is None ==> destination is None
            &&& header::first_route(request.headers) matches Some(FieldView::Typed(route))
                ==> (destination matches Some(a) && a.addr == route.uri.host_with_port
                && a.transport == uri::transport_in(route.uri.params))
        },
{
}

/// The last resort for a request is where the recorded flow came from, or else the
/// source that the first request's Via tells of: the address that it was received
/// from and its port.
pub proof fn law_last_resort_is_the_source(
    d: DialogView,
    via: ViaView,
    ip: IpAddr,
    port: u16,
)
    ensures
        d.dialback_target matches Some(a) ==> exchange::dialback(d) == Some(a),
        d.dialback_target is None && header::first_via(d.initial_request.headers) == Some(
            FieldView::Typed(via),
        ) && uri::received_in(via.params) == Some(ReceivedView::Ip(ip)) && uri::rport_in(via.params)
            == Some(Some(port)) ==> exchange::dialback(d) == Some(
            SipAddrView {
                transport: Some(via.transport),
                addr: HostWithPortView { host: HostView::IpAddr(ip), port: Some(port) },
            },
        ),
        d.dialback_target is None && header::first_via(d.initial_request.headers) == Some(
            FieldView::Typed(via),
        ) && (uri::received_in(via.params) is None || uri::rport_in(via.params) is None
            || uri::rport_in(via.params) == Some(None::<u16>)) ==> exchange::dialback(d) is None,
{
}

/// A request is sent once more to the last resort where it found no connection, or
/// where a server could not send it; never an ACK. Anything else is waited for, or
/// is the error that it was.
pub proof fn law_request_is_resent_once(
    d: DialogView,
    addrs: Seq<SipAddrView>,
    method: Method,
    original: RequestView,
    e: ErrorView,
)
    ensures
        exchange::request_sent(d, addrs, method, original, Ok(true)) == DialogStepView::Receive,
        method == Method::Ack ==> exchange::request_sent(d, addrs, method, original, Ok(false))
            == DialogStepView::Receive,
        method != Method::Ack ==> (exchange::dialback(d) matches Some(a) ==> {
            &&& exchange::request_sent(d, addrs, method, original, Ok(false))
                matches DialogStepView::Resend { target, request } && target == a
                && request.method == original.method && request.uri == original.uri
                && request.body == original.body && request.headers.len()
                == original.headers.len()
        }),
        d.role == TransactionRole::Client || method == Method::Ack ==> exchange::request_sent(
            d,
            addrs,
            method,
            original,
            Err(e),
        ) == DialogStepView::Done(Err(e)),
{
    header::lemma_first_index(original.headers, HeaderKind::Via);
}

/// A request that goes out to another place keeps all its headers but the top Via,
/// and that too where the place is reached over the transport that it names.
/// Otherwise the top Via names the first address of that transport, with the
/// branch as it was.
pub proof fn law_resent_request_names_its_new_way(
    addrs: Seq<SipAddrView>,
    original: RequestView,
    target: SipAddrView,
    t: Transport,
    top: ViaView,
    b: Seq<char>,
    i: int,
    kind: HeaderKind,
)
    requires
        target.transport == Some(t),
        header::first_via(original.headers) == Some(FieldView::Typed(top)),
        uri::branch_in(top.params) == Some(b),
    ensures
        ({
            let r = exchange::redirected(addrs, original, target);
            &&& r.method == original.method && r.uri == original.uri && r.body == original.body
            &&& kind != HeaderKind::Via ==> header::of_kind(r.headers, kind) == header::of_kind(
                original.headers,
                kind,
            )
            &&& top.transport == t ==> r == original
            &&& top.transport != t && t != Transport::Udp && invite_laws::is_first_of_transport(
                addrs,
                t,
                i,
            ) ==> (header::first_via(r.headers) matches Some(FieldView::Typed(v))
                && message_laws::leaves_from(v, addrs[i], b))
        }),
{
    let at = header::first_index(original.headers, HeaderKind::Via);
    let pick = |h: HeaderView| header::as_via(h);
    header::lemma_first_index(original.headers, HeaderKind::Via);
    let k = lists::lemma_first_of_found(original.headers, pick);
    if at >= original.headers.len() {
        assert(original.headers[k].kind() == HeaderKind::Via);
    }
    if let Some(v) = exchange::redirected_via(addrs, original, target) {
        let h = HeaderView::Via(FieldView::Typed(v));
        let headers = original.headers.update(at, h);
        if kind != HeaderKind::Via {
            lemma_of_kind_updated(original.headers, at, h, kind);
        }
        assert forall|j: int| 0 <= j < at implies pick(#[trigger] headers[j]) is None by {
            assert(headers[j] == original.headers[j]);
        }
        lists::law_first_of_is_the_first(headers, at, pick);
    }
    if top.transport != t && t != Transport::Udp && invite_laws::is_first_of_transport(addrs, t, i) {
        let own = |a: SipAddrView| exchange::addr_for(a, t);
        lists::law_first_of_is_the_first(addrs, i, own);
    }
}

/// The response to a request of the dialog is handed out as it came. A 100 is
/// waited over; any other provisional response is told to the user; a challenge is
/// answered once with the next number, where there are credentials.
pub proof fn law_response_is_handed_out(
    d: DialogView,
    ep: EndpointView,
    addrs: Seq<SipAddrView>,
    branch: Seq<char>,
    q: DialogRequestView,
    resp: ResponseView,
)
    ensures
        ({
            let (f, r, step) = exchange::response_arrived(d, ep, addrs, branch, q, resp);
            let challenge = resp.status_code == StatusCode::Unauthorized || resp.status_code
                == StatusCode::ProxyAuthenticationRequired;
            let is_final = resp.status_code.spec_kind() != StatusCodeKind::Provisional;
            &&& is_final && !challenge ==> {
                &&& step == DialogStepView::Done(Ok(Some(resp)))
                &&& r == q
                &&& q.method == Method::PRack ==> f == d
                &&& q.method != Method::PRack ==> f == DialogView { remote_reliable: None, ..d }
            }
            &&& resp.status_code == StatusCode::Trying ==> step == DialogStepView::Receive && f
                == d && r == q
            &&& challenge && !q.auth_sent && d.credential is Some ==> {
                &&& r.auth_sent && r.method == q.method
                &&& step matches DialogStepView::Authenticate { seq, response }
                &&& response == resp
                &&& f == DialogView { local_seq: seq, ..d }
                &&& q.method != Method::Cancel && d.local_seq < u32::MAX ==> seq == d.local_seq + 1
                &&& q.method == Method::Cancel ==> seq == d.local_seq
            }
            &&& challenge && (q.auth_sent || d.credential is None) && !(d.state is Terminated)
                ==> f.state == DialogStateView::Terminated(
                d.id,
                TerminatedReason::ProxyAuthRequired,
            )
            &&& challenge && q.auth_sent ==> step == DialogStepView::Done(Ok(None))
        }),
{
}

/// The answer to a PRACK is handed out as it came, after a 100 is waited over and a
/// challenge is answered once.
pub proof fn law_answer_to_a_prack_is_handed_out(d: DialogView, auth_sent: bool, resp: ResponseView)
    ensures
        ({
            let (f, sent, step) = exchange::prack_answered(
                d,
                auth_sent,
                Some(SipMessageView::Response(resp)),
            );
            let challenge = resp.status_code == StatusCode::Unauthorized || resp.status_code
                == StatusCode::ProxyAuthenticationRequired;
            &&& resp.status_code == StatusCode::Trying ==> f == d && step
                == DialogStepView::Receive && sent == auth_sent
            &&& resp.status_code != StatusCode::Trying && !challenge ==> f == d && sent
                == auth_sent && step == DialogStepView::Done(Ok(Some(resp)))
            &&& challenge && !auth_sent && d.credential is Some && d.local_seq < u32::MAX ==> {
                &&& sent
                &&& step == (DialogStepView::Authenticate {
                    seq: (d.local_seq + 1) as u32,
                    response: resp,
                })
                &&& f == DialogView { local_seq: (d.local_seq + 1) as u32, ..d }
            }
        }),
{
}

/// Once the PRACK of a provisional response is through, the user is told of that
/// response; where it failed, so has the request.
pub proof fn law_prack_comes_before_the_user(
    d: DialogView,
    q: DialogRequestView,
    i: InvitationView,
    resp: ResponseView,
    e: ErrorView,
)
    requires
        q.provisional == Some(resp),
        i.provisional == Some(resp),
        d.state.can_cancel(),
    ensures
        ({
            let (f, r, step) = exchange::pracked(d, q, Ok(()));
            &&& answer_laws::has_entered(d, f, DialogStateView::Early(d.id, resp))
            &&& step == DialogStepView::Receive && r.provisional is None && r.method == q.method
        }),
        exchange::pracked(d, q, Err(e)) == (d, q, DialogStepView::Done(Err(e))),
        ({
            let (f, r, step) = inviting::invite_pracked(d, i, Ok(()));
            &&& answer_laws::has_entered(d, f, DialogStateView::Early(d.id, resp))
            &&& step == InviteStepView::Receive && r.provisional is None && r.dialog_id
                == i.dialog_id
        }),
        inviting::invite_pracked(d, i, Err(e)) == (d, i, InviteStepView::Done(Err(e))),
{
}

/// A call that is given up before any response waits for one; during ringing it is
/// cancelled, with two seconds for the answers; an established one is ended; and
/// one whose INVITE never went out is simply over.
pub proof fn law_given_up_call_is_ended_as_it_stands(d: DialogView, t1x64: u64)
    requires
        d.role == TransactionRole::Client,
    ensures
        d.state is Calling ==> {
            let (f, a, step) = abandoning::abandoned(d, t1x64, true);
            &&& answer_laws::has_entered(
                d,
                f,
                DialogStateView::Terminated(d.id, TerminatedReason::UacCancel),
            )
            &&& a == Abandoned::First && step == (AbandonStepView::WaitFirst { within: t1x64 })
        },
        d.state is Trying || d.state is Early ==> (invite_dialog::cancel_of(d.initial_request)
            matches Ok(c) ==> abandoning::abandoned(d, t1x64, true) == (
            d,
            Abandoned::Settling,
            AbandonStepView::Settle { cancel: Some(c), within: 2000 },
        )),
        d.state is Calling || d.state is Trying || d.state is Early ==> {
            let (f, a, step) = abandoning::abandoned(d, t1x64, false);
            &&& answer_laws::has_entered(
                d,
                f,
                DialogStateView::Terminated(d.id, TerminatedReason::UacCancel),
            )
            &&& a == Abandoned::Over && step == AbandonStepView::Done
        },
        d.state is Confirmed ==> abandoning::abandoned(d, t1x64, true) == (
            d,
            Abandoned::Over,
            AbandonStepView::Hangup,
        ),
        d.state is Terminated || d.state is WaitAck ==> abandoning::abandoned(d, t1x64, true) == (
            d,
            Abandoned::Over,
            AbandonStepView::Done,
        ),
{
}

/// Where the time for the answers to a CANCEL is over, or the CANCEL failed, the
/// call is over, and its final response is waited for a while longer. A response
/// that comes meanwhile and is provisional changes nothing.
pub proof fn law_settled_call_waits_for_the_end(
    d: DialogView,
    ep: EndpointView,
    addrs: Seq<SipAddrView>,
    branch: Seq<char>,
    resp: ResponseView,
)
    requires
        !(d.state is Terminated),
        resp.status_code.spec_kind() == StatusCodeKind::Provisional,
    ensures
        ({
            let (f, a, step) = abandoning::abandoned_message(
                d,
                ep,
                addrs,
                branch,
                Abandoned::Settling,
                None,
            );
            &&& answer_laws::has_entered(
                d,
                f,
                DialogStateView::Terminated(d.id, TerminatedReason::UacCancel),
            )
            &&& a == Abandoned::Last
            &&& step == (AbandonStepView::WaitFinal { within: ep.option.t1x64 })
        }),
        abandoning::abandoned_cancel(d, ep.option.t1x64, Abandoned::Settling, true)
            == abandoning::abandoned_message(d, ep, addrs, branch, Abandoned::Settling, None),
        abandoning::abandoned_cancel(d, ep.option.t1x64, Abandoned::Settling, false) == (
            d,
            Abandoned::Settling,
            AbandonStepView::Wait,
        ),
        abandoning::abandoned_message(
            d,
            ep,
            addrs,
            branch,
            Abandoned::Settling,
            Some(SipMessageView::Response(resp)),
        ) == (d, Abandoned::Settling, AbandonStepView::Wait),
{
}

/// The peer's identifier is what the last message names it by, unless that is
/// this end's own.
pub proof fn law_peer_is_named_by_its_messages(
    d: DialogView,
    peer: Seq<char>,
    sid: SessionIdStateView,
)
    requires
        d.session_id == Some(sid),
        crate::sip::session_id::is_uuid(peer),
        peer != "00000000000000000000000000000000"@,
    ensures
        sid.local != peer ==> d.observe_peer(Some(peer)) == (DialogView {
            session_id: Some(SessionIdStateView { local: sid.local, remote: Some(peer) }),
            ..d
        }),
        sid.local == peer ==> d.observe_peer(Some(peer)) == d,
        d.observe_peer(None) == d,
{
}

/// A provisional response that asks for a PRACK gets it before the user is told; the
/// response is kept until then.
pub proof fn law_reliable_response_waits_for_its_prack(
    d: DialogView,
    ep: EndpointView,
    addrs: Seq<SipAddrView>,
    branch: Seq<char>,
    q: InvitationView,
    resp: ResponseView,
    to: NameAddrView,
    rseq: u32,
    cseq: CSeq,
)
    requires
        resp.status_code.spec_kind() == StatusCodeKind::Provisional,
        resp.status_code != StatusCode::Trying,
        header::first_to(resp.headers) == Some(FieldView::Typed(to)),
        message::headers_list(resp.headers, HeaderKind::Require, "100rel"@),
        header::first_rseq(resp.headers) == Some(Some(rseq)),
        header::first_cseq(resp.headers) == Some(FieldView::Typed(cseq)),
        d.remote_reliable is None,
        addrs.len() > 0,
        d.local_seq < u32::MAX,
    ensures
        ({
            let (f, r, step) = inviting::invite_message(
                d,
                ep,
                addrs,
                branch,
                q,
                Some(SipMessageView::Response(resp)),
            );
            &&& step matches InviteStepView::Prack { request }
            &&& request.method == Method::PRack && request.uri == d.remote_uri
                && request.body.len() == 0
            &&& r.provisional == Some(resp) && r.dialog_id == q.dialog_id
            &&& f.local_seq == d.local_seq + 1
            &&& f.state == d.state && f.notifications == d.notifications
            &&& f.remote_reliable matches Some(last) && last.last_rseq == rseq
                && last.prack_request == request
            &&& to.tag() matches Some(t) ==> f.id.remote_tag == t
        }),
{
    reveal(requests::next_request);
    reveal(requests::request_in);
}

/// Where the transaction of an INVITE ends without a response, the caller gets none;
/// a request that comes in by it is waited over.
pub proof fn law_invite_without_a_response(
    d: DialogView,
    ep: EndpointView,
    addrs: Seq<SipAddrView>,
    branch: Seq<char>,
    q: InvitationView,
    req: RequestView,
)
    ensures
        inviting::invite_message(d, ep, addrs, branch, q, None) == (
            d,
            q,
            InviteStepView::Done(Ok((q.dialog_id, None))),
        ),
        inviting::invite_message(d, ep, addrs, branch, q, Some(SipMessageView::Request(req))) == (
            d,
            q,
            InviteStepView::Receive,
        ),
{
}

/// A response to a request of the dialog tells the peer's identifier, and where the
/// transaction ends without one, there is none to hand out.
pub proof fn law_response_names_the_peer(
    d: DialogView,
    ep: EndpointView,
    addrs: Seq<SipAddrView>,
    branch: Seq<char>,
    q: DialogRequestView,
    resp: ResponseView,
    peer: Seq<char>,
    sid: SessionIdStateView,
)
    requires
        message::peer_uuid_of(resp.headers) == Some(peer),
        d.session_id == Some(sid),
        sid.local != peer,
        resp.status_code.spec_kind() == StatusCodeKind::Successful,
    ensures
        ({
            let (f, _, step) = exchange::message_arrived(
                d,
                ep,
                addrs,
                branch,
                q,
                Some(SipMessageView::Response(resp)),
            );
            &&& step == DialogStepView::Done(Ok(Some(resp)))
            &&& f.session_id == Some(SessionIdStateView { local: sid.local, remote: Some(peer) })
        }),
        exchange::message_arrived(d, ep, addrs, branch, q, None) == (
            d,
            q,
            DialogStepView::Done(Ok(None)),
        ),
{
}

/// A dialog cannot be opened by a request that does not name its number and its two
/// ends, nor at a server by one without a Contact.
pub proof fn law_request_must_name_its_ends(
    role: TransactionRole,
    id: DialogIdView,
    req: RequestView,
    credential: Option<CredentialView>,
    local_contact: Option<UriView>,
    tu_channel: u64,
    uuid: Seq<char>,
)
    ensures
        ({
            let r = dialog::opened(role, id, req, credential, local_contact, tu_channel, uuid);
            &&& header::first_cseq(req.headers) is None ==> r == Err::<DialogView, _>(
                ErrorView::MissingHeader(HeaderKind::CSeq),
            )
            &&& header::first_from(req.headers) is None ==> r is Err
            &&& header::first_to(req.headers) is None ==> r is Err
            &&& role == TransactionRole::Server && header::first_contact(req.headers) is None
                ==> r is Err
            &&& role == TransactionRole::Client && message::cseq_of(req.headers) is Ok
                && message::from_of(req.headers) is Ok && message::to_of(req.headers) is Ok
                ==> r is Ok
        }),
{
}

/// A message belongs to the dialog that its Call-ID and its two tags name: the
/// From's is the client's and the To's the server's.
pub proof fn law_message_names_its_dialog(
    headers: Seq<HeaderView>,
    call_id: Seq<char>,
    from: NameAddrView,
    to: NameAddrView,
    near: Seq<char>,
    far: Seq<char>,
)
    requires
        header::first_call_id(headers) == Some(call_id),
        header::first_from(headers) == Some(FieldView::Typed(from)),
        header::first_to(headers) == Some(FieldView::Typed(to)),
        from.tag() == Some(near),
    ensures
        to.tag() == Some(far) ==> {
            &&& id::dialog_of(headers, TransactionRole::Client) == Ok::<_, ErrorView>(
                DialogIdView { call_id, local_tag: near, remote_tag: far },
            )
            &&& id::dialog_of(headers, TransactionRole::Server) == Ok::<_, ErrorView>(
                DialogIdView { call_id, local_tag: far, remote_tag: near },
            )
        },
        to.tag() is None ==> id::dialog_of(headers, TransactionRole::Client) == Ok::<_, ErrorView>(
            DialogIdView { call_id, local_tag: near, remote_tag: Seq::empty() },
        ),
{
}

/// What a PRACK acknowledges is read back from its RAck: the number of the response,
/// and the number and method of the request.
pub proof fn law_rack_is_read_back(rseq: u32, cseq: CSeq)
    ensures
        ({
            let s = prack::rack_text(rseq, cseq);
            &&& text::first_word(s) matches Some((a, rest))
            &&& text::number_in(a, u32::MAX as nat) == Some(rseq as nat)
            &&& text::first_word(rest) matches Some((b, rest))
            &&& text::number_in(b, u32::MAX as nat) == Some(cseq.seq as nat)
            &&& text::first_word(rest) matches Some((m, rest))
            &&& m == cseq.method.spec_name() && rest.len() == 0
        }),
{
    let a = text::number_text(rseq as nat);
    let b = text::number_text(cseq.seq as nat);
    let m = cseq.method.spec_name();
    reveal_strlit(" ");
    text::law_number_is_read_back(rseq as nat, u32::MAX as nat);
    text::law_number_is_read_back(cseq.seq as nat, u32::MAX as nat);
    lemma_number_is_a_word(rseq as nat);
    lemma_number_is_a_word(cseq.seq as nat);
    crate::sip::laws::law_methods_have_their_names(cseq.method);
    let none = Seq::<char>::empty();
    let gap = " "@;
    let s = prack::rack_text(rseq, cseq);
    let rest1 = gap + b + gap + m;
    let rest2 = gap + m;
    assert(s == none + a + rest1);
    text::law_first_word_is_found(none, a, rest1);
    assert(rest1 == gap + b + rest2);
    text::law_first_word_is_found(gap, b, rest2);
    assert(rest2 == gap + m + none);
    text::law_first_word_is_found(gap, m, none);
}

proof fn lemma_number_is_a_word(n: nat)
    ensures
        text::number_text(n).len() > 0,
        forall|i: int|
            0 <= i < text::number_text(n).len() ==> !text::is_space(#[trigger] text::number_text(n)[i]),
    decreases n,
{
    if n >= 10 {
        lemma_number_is_a_word(n / 10);
        let head = text::number_text(n / 10);
        let s = text::number_text(n);
        assert(s == head.push(text::digit_char(n % 10)));
        assert forall|i: int| 0 <= i < s.len() implies !text::is_space(#[trigger] s[i]) by {
            if i < head.len() {
                assert(s[i] == head[i]);
            }
        }
    }
}

/// A call that was given up before any response is cancelled at the first
/// provisional one, with the CANCEL of its INVITE, and its end is waited for.
pub proof fn law_deferred_cancel_is_of_the_opening_invite(
    d: DialogView,
    ep: EndpointView,
    addrs: Seq<SipAddrView>,
    branch: Seq<char>,
    resp: ResponseView,
    cancel: RequestView,
)
    requires
        resp.status_code.spec_kind() == StatusCodeKind::Provisional,
        invite_dialog::cancel_of(d.initial_request) == Ok::<_, ErrorView>(cancel),
    ensures
        abandoning::abandoned_message(
            d,
            ep,
            addrs,
            branch,
            Abandoned::First,
            Some(SipMessageView::Response(resp)),
        ) == (
            d,
            Abandoned::Deferred,
            AbandonStepView::CancelAndWait { cancel: Some(cancel), within: ep.option.t1x64 },
        ),
{
}

/// A provisional response to a re-INVITE gives the dialog the peer's tag; one
/// without a To is refused.
pub proof fn law_provisional_response_names_the_peer(
    d: DialogView,
    ep: EndpointView,
    addrs: Seq<SipAddrView>,
    branch: Seq<char>,
    q: DialogRequestView,
    resp: ResponseView,
    to: NameAddrView,
    tag: Seq<char>,
)
    requires
        q.method == Method::Invite,
        resp.status_code.spec_kind() == StatusCodeKind::Provisional,
        resp.status_code != StatusCode::Trying,
        !message::headers_list(resp.headers, HeaderKind::Require, "100rel"@),
    ensures
        ({
            let (f, r, step) = exchange::response_arrived(d, ep, addrs, branch, q, resp);
            &&& header::first_to(resp.headers) is None ==> f == d && step == DialogStepView::Done(
                Err(ErrorView::MissingHeader(HeaderKind::To)),
            )
            &&& header::first_to(resp.headers) == Some(FieldView::Typed(to)) && to.tag() == Some(
                tag,
            ) ==> f.id.remote_tag == tag && f.id.local_tag == d.id.local_tag && step
                == DialogStepView::Receive && r == q
        }),
{
}

/// The peer's tag is part of the dialog's name at both ends, and of the To at the
/// client's alone; only a client takes its routes from a response.
pub proof fn law_peers_tag_and_routes(d: DialogView, tag: Seq<char>, resp: ResponseView)
    ensures
        ({
            let e = d.with_remote_tag(tag);
            &&& e.id == (DialogIdView {
                call_id: d.id.call_id,
                local_tag: d.id.local_tag,
                remote_tag: tag,
            })
            &&& d.role == TransactionRole::Server ==> e.to == d.to
            &&& d.role == TransactionRole::Client ==> e.to.uri == d.to.uri && e.to.tag() == Some(
                tag,
            )
            &&& e.from == d.from && e.state == d.state && e.local_seq == d.local_seq
        }),
        d.role == TransactionRole::Server ==> d.with_route_set_of(resp) == d,
        d.role == TransactionRole::Client ==> d.with_route_set_of(resp).route_set
            == message::record_routes(resp.headers).reverse(),
{
    crate::sip::laws::law_new_tag_is_the_only_one(d.to, tag);
}

/// A request that goes out over UDP in the place of another transport names the
/// first address of UDP, or one that names no transport.
pub proof fn law_request_resent_over_udp(
    addrs: Seq<SipAddrView>,
    original: RequestView,
    target: SipAddrView,
    top: ViaView,
    b: Seq<char>,
    i: int,
)
    requires
        target.transport is None || target.transport == Some(Transport::Udp),
        header::first_via(original.headers) == Some(FieldView::Typed(top)),
        uri::branch_in(top.params) == Some(b),
        0 <= i < addrs.len(),
        addrs[i].transport is None || addrs[i].transport == Some(Transport::Udp),
        forall|j: int|
            0 <= j < i ==> !((#[trigger] addrs[j]).transport is None || addrs[j].transport == Some(
                Transport::Udp,
            )),
    ensures
        ({
            let r = exchange::redirected(addrs, original, target);
            &&& top.transport == Transport::Udp ==> r == original
            &&& top.transport != Transport::Udp ==> (header::first_via(r.headers) matches Some(
                FieldView::Typed(v),
            ) && message_laws::leaves_from(v, addrs[i], b))
        }),
{
    let at = header::first_index(original.headers, HeaderKind::Via);
    let pick = |h: HeaderView| header::as_via(h);
    header::lemma_first_index(original.headers, HeaderKind::Via);
    let k = lists::lemma_first_of_found(original.headers, pick);
    if at >= original.headers.len() {
        assert(original.headers[k].kind() == HeaderKind::Via);
    }
    let own = |a: SipAddrView| exchange::addr_for(a, Transport::Udp);
    lists::law_first_of_is_the_first(addrs, i, own);
    if let Some(v) = exchange::redirected_via(addrs, original, target) {
        let headers = original.headers.update(at, HeaderView::Via(FieldView::Typed(v)));
        assert forall|j: int| 0 <= j < at implies pick(#[trigger] headers[j]) is None by {
            assert(headers[j] == original.headers[j]);
        }
        lists::law_first_of_is_the_first(headers, at, pick);
    }
}

/// The user hears of every provisional response to a request of the dialog other
/// than a 100 that asks for no PRACK, and the answer is waited for. A dialog that is
/// not established yet is early because of it; an established one stays so.
pub proof fn law_user_hears_of_provisional_responses(
    d: DialogView,
    ep: EndpointView,
    addrs: Seq<SipAddrView>,
    branch: Seq<char>,
    q: DialogRequestView,
    resp: ResponseView,
)
    requires
        !(d.state is Terminated),
        resp.status_code.spec_kind() == StatusCodeKind::Provisional,
        resp.status_code != StatusCode::Trying,
        header::first_to(resp.headers) is Some,
        !message::headers_list(resp.headers, HeaderKind::Require, "100rel"@),
    ensures
        ({
            let (f, r, step) = exchange::response_arrived(d, ep, addrs, branch, q, resp);
            let told = DialogStateView::Early(f.id, resp);
            &&& step == DialogStepView::Receive && r == q
            &&& f.notifications == d.notifications.push(told)
            &&& d.state is Calling || d.state is Trying || d.state is Early ==> f.state == told
            &&& d.state is Confirmed || d.state is WaitAck ==> f.state == d.state
            &&& q.method != Method::Invite ==> f.id == d.id
            &&& f.local_seq == d.local_seq && f.remote_uri == d.remote_uri && f.route_set
                == d.route_set
        }),
{
}

/// A PRACK that is due for a provisional response to a re-INVITE goes out before
/// the user hears of the response.
pub proof fn law_prack_within_the_call(
    d: DialogView,
    ep: EndpointView,
    addrs: Seq<SipAddrView>,
    branch: Seq<char>,
    q: DialogRequestView,
    resp: ResponseView,
    to: NameAddrView,
    rseq: u32,
    cseq: CSeq,
)
    requires
        q.method == Method::Invite,
        resp.status_code.spec_kind() == StatusCodeKind::Provisional,
        resp.status_code != StatusCode::Trying,
        header::first_to(resp.headers) == Some(FieldView::Typed(to)),
        message::headers_list(resp.headers, HeaderKind::Require, "100rel"@),
        header::first_rseq(resp.headers) == Some(Some(rseq)),
        header::first_cseq(resp.headers) == Some(FieldView::Typed(cseq)),
        d.remote_reliable is None,
        addrs.len() > 0,
        d.local_seq < u32::MAX,
    ensures
        ({
            let (f, r, step) = exchange::response_arrived(d, ep, addrs, branch, q, resp);
            &&& step matches DialogStepView::Prack { request }
            &&& request.method == Method::PRack && request.uri == d.remote_uri
                && request.body.len() == 0
            &&& r.provisional == Some(resp) && r.method == q.method
            &&& f.local_seq == d.local_seq + 1
            &&& f.state == d.state && f.notifications == d.notifications
        }),
{
    reveal(requests::next_request);
    reveal(requests::request_in);
}

}

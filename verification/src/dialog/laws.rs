//! What holds of every dialog.

use super::dialog;
use super::dialog::{
    CredentialView, DialogStateView, DialogView, TerminatedReason, TransactionHandle,
};
use super::exchange;
use super::exchange::{DialogRequestView, DialogStepView};
use super::handling;
use super::handling::{After, HandleStepView, HandlingView};
use super::id;
use super::id::DialogIdView;
use super::invite_dialog;
use super::invite_dialog::EndingView;
use super::inviting;
use super::inviting::InvitationView;
use super::prack;
use super::requests;
use super::responses;
use crate::error::ErrorView;
use crate::lists;
use crate::sip::basic::{Method, Transport};
use crate::sip::header;
use crate::sip::header::{CSeq, FieldView, HeaderKind, HeaderView};
use crate::sip::message;
use crate::sip::message::{RequestView, ResponseView, SipMessageView};
use crate::sip::status::{StatusCode, StatusCodeKind};
use crate::sip::uri::{NameAddrView, ParamView, UriView, ViaView};
use crate::transaction::endpoint::EndpointView;
use crate::transaction::key;
use crate::transaction::key::TransactionRole;
use crate::transaction::message as build;
use crate::transaction::transaction::TransactionView;
use crate::transport::connection::SipConnectionView;
use crate::transport::sip_addr::SipAddrView;
use crate::transport::transport_layer::TransportLayerView;
use vstd::prelude::*;

verus! {

/// To write a request changes nothing of the dialog but the number of the last
/// request.
pub proof fn law_request_takes_only_a_number(
    d: DialogView,
    ep: EndpointView,
    addrs: Seq<SipAddrView>,
    branch: Seq<char>,
    method: Method,
    cseq: Option<u32>,
    headers: Option<Seq<HeaderView>>,
    body: Seq<u8>,
)
    ensures
        ({
            let (after, r) = requests::next_request(
                d,
                ep,
                addrs,
                branch,
                method,
                cseq,
                headers,
                body,
            );
            &&& after == DialogView { local_seq: after.local_seq, ..d }
            &&& cseq is None && r is Ok ==> after.local_seq == dialog::next_seq(d.local_seq)
            &&& cseq is Some || r is Err ==> after.local_seq == d.local_seq
            &&& r matches Ok(req) ==> req.method == method && req.uri == d.remote_uri && req.body
                == body
        }),
{
    reveal(requests::next_request);
    reveal(requests::request_in);
}

/// The dialog is in the state that it was in, and its user has been told of
/// nothing.
pub open spec fn tells_nothing(d: DialogView, after: DialogView) -> bool {
    after.state == d.state && after.notifications == d.notifications
}

proof fn lemma_prack_keeps_state(
    d: DialogView,
    ep: EndpointView,
    addrs: Seq<SipAddrView>,
    branch: Seq<char>,
    resp: ResponseView,
)
    ensures
        tells_nothing(d, prack::prack_for(d, ep, addrs, branch, resp).0),
        tells_nothing(d, exchange::provisional(d, ep, addrs, branch, resp).0),
{
    reveal(requests::next_request);
    reveal(requests::request_in);
}

/// A provisional response to a request within an established call leaves the
/// call established.
pub proof fn law_provisional_keeps_the_call(
    d: DialogView,
    ep: EndpointView,
    addrs: Seq<SipAddrView>,
    branch: Seq<char>,
    q: DialogRequestView,
    resp: ResponseView,
)
    requires
        d.state is Confirmed,
        resp.status_code.spec_kind() == StatusCodeKind::Provisional,
    ensures
        exchange::message_arrived(
            d,
            ep,
            addrs,
            branch,
            q,
            Some(SipMessageView::Response(resp)),
        ).0.state == d.state,
        forall|r: Result<(), ErrorView>|
            (#[trigger] exchange::pracked(d, q, r)).0.state == d.state,
{
    lemma_prack_keeps_state(
        d.observe_peer(message::peer_uuid_of(resp.headers)),
        ep,
        addrs,
        branch,
        resp,
    );
}

/// The user of an established call is still told of a provisional response.
pub proof fn law_provisional_is_told_of(d: DialogView, resp: ResponseView)
    requires
        !(d.state is Terminated),
    ensures
        exchange::early(d, resp).notifications == d.notifications.push(
            DialogStateView::Early(d.id, resp),
        ),
{
}

/// A dialog that is over stays over, whatever comes, and its user is told of
/// nothing more.
pub proof fn law_terminated_dialog_stays_terminated(
    d: DialogView,
    ep: EndpointView,
    addrs: Seq<SipAddrView>,
    branch: Seq<char>,
    q: DialogRequestView,
    i: InvitationView,
    h: HandlingView,
    tx: TransactionView,
    msg: Option<SipMessageView>,
)
    requires
        d.state is Terminated,
    ensures
        tells_nothing(d, exchange::message_arrived(d, ep, addrs, branch, q, msg).0),
        tells_nothing(d, exchange::prack_answered(d, q.auth_sent, msg).0),
        tells_nothing(d, inviting::invite_message(d, ep, addrs, branch, i, msg).0),
        tells_nothing(d, handling::received(d, ep, addrs, branch, tx, h, msg).0),
        forall|handle: TransactionHandle, is_open: bool|
            tells_nothing(d, (#[trigger] handling::handled((d, ep), tx, handle, is_open)).1.0),
        forall|r: Result<(), ErrorView>|
            tells_nothing(d, (#[trigger] handling::sent(d, tx, h, r)).0),
        forall|r: Result<(), ErrorView>|
            tells_nothing(d, (#[trigger] exchange::pracked(d, q, r)).0),
        forall|r: Result<(), ErrorView>|
            tells_nothing(d, (#[trigger] inviting::invite_pracked(d, i, r)).0),
{
    reveal(handling::handled);
    lemma_prack_keeps_state(d, ep, addrs, branch, msg->0->Response_0);
    lemma_prack_keeps_state(
        d.observe_peer(message::peer_uuid_of((msg->0->Response_0).headers)),
        ep,
        addrs,
        branch,
        msg->0->Response_0,
    );
}

/// A request that the peer sends within an established call, and that the user
/// answers or not, leaves the call established, or over if the user ended it
/// meanwhile.
pub proof fn law_call_is_usable_after_a_request(
    d: DialogView,
    tx: TransactionView,
    h: HandlingView,
    r: Result<(), ErrorView>,
)
    requires
        h == HandlingView::Declining(After::Confirm) || (h matches HandlingView::Answering {
            is_final: true,
            after: After::Confirm,
            ..
        } && r is Ok),
    ensures
        ({
            let (after, _, step) = handling::sent(d, tx, h, r);
            &&& step is Done
            &&& after.state is Confirmed || (d.state is Terminated && after.state == d.state)
        }),
{
}

/// The user has 64*T1 to answer a request, counted from the first time of asking:
/// a provisional answer does not prolong it.
pub proof fn law_user_has_a_limited_time_to_answer(
    d: DialogView,
    ep: EndpointView,
    tx: TransactionView,
    handle: TransactionHandle,
    is_open: bool,
    after: After,
    status: StatusCode,
    headers: Option<Seq<HeaderView>>,
    body: Seq<u8>,
)
    requires
        status.spec_kind() == StatusCodeKind::Provisional,
    ensures
        ({
            let (_, (_, h, step)) = handling::handled((d, ep), tx, handle, is_open);
            let within = ep.option.t1x64;
            &&& step is Ask ==> step == (HandleStepView::Ask { within })
            &&& step is Ask ==> (h matches HandlingView::Asking { within: t, .. } && t == within)
        }),
        ({
            let asking = HandlingView::Asking { after, within: ep.option.t1x64 };
            let (answering, h, _) = handling::commanded(
                d,
                ep.user_agent,
                tx,
                asking,
                Some((status, headers, body)),
            );
            handling::sent(answering, tx, h, Ok(())) == (
                d,
                asking,
                HandleStepView::Ask { within: ep.option.t1x64 },
            )
        }),
{
    reveal(handling::handled);
}

/// A request that the user does not answer in time, or whose answer cannot be
/// sent, gets 501.
pub proof fn law_unanswered_request_gets_501(
    d: DialogView,
    user_agent: Seq<char>,
    tx: TransactionView,
    after: After,
    within: u64,
    is_final: bool,
    e: ErrorView,
)
    ensures
        handling::commanded(d, user_agent, tx, HandlingView::Asking { after, within }, None) == (
            d,
            HandlingView::Declining(after),
            HandleStepView::Reply(StatusCode::NotImplemented),
        ),
        handling::sent(d, tx, HandlingView::Answering { is_final, after, within }, Err(e)) == (
            d,
            HandlingView::Declining(after),
            HandleStepView::Reply(StatusCode::NotImplemented),
        ),
{
}

/// A 2xx to an INVITE or a re-INVITE whose ACK never comes ends the call: the
/// dialog is over because of the time-out, and a BYE is sent wherever one can be
/// written.
pub proof fn law_unacked_2xx_ends_the_call(
    d: DialogView,
    ep: EndpointView,
    addrs: Seq<SipAddrView>,
    branch: Seq<char>,
    tx: TransactionView,
    h: HandlingView,
)
    requires
        h == (HandlingView::AwaitingAck { answered_2xx: true }) && !(d.state is Terminated)
            || h == HandlingView::Inviting && d.state is WaitAck,
        addrs.len() > 0,
    ensures
        ({
            let (after, _, step) = handling::received(d, ep, addrs, branch, tx, h, None);
            &&& after.state == DialogStateView::Terminated(d.id, TerminatedReason::Timeout)
            &&& step matches HandleStepView::Bye(bye) && bye.method == Method::Bye && bye.uri
                == d.remote_uri
        }),
{
    reveal(requests::next_request);
    reveal(requests::request_in);
}

/// The ACK of an INVITE or a re-INVITE is there for the user by the time that the
/// user is told of the established call, and the call is not ended.
pub proof fn law_ack_is_recorded_with_confirmed(
    d: DialogView,
    ep: EndpointView,
    addrs: Seq<SipAddrView>,
    branch: Seq<char>,
    tx: TransactionView,
    h: HandlingView,
    ack: RequestView,
)
    requires
        h is AwaitingAck || h is Inviting,
        ack.method == Method::Ack,
        !(d.state is Terminated),
    ensures
        handling::received(d, ep, addrs, branch, tx, h, Some(SipMessageView::Request(ack))) == (
            DialogView { remote_ack: Some(ack), ..d }.enter(
                DialogStateView::Confirmed(d.id, handling::last_answer(tx)),
            ),
            HandlingView::Over,
            HandleStepView::Done(Ok(())),
        ),
{
}

/// A request that is older than the last one changes nothing of the dialog but
/// the peer's identifier: a server ignores it, and a client refuses it.
pub proof fn law_old_request_is_not_handled(
    d: DialogView,
    ep: EndpointView,
    tx: TransactionView,
    handle: TransactionHandle,
    is_open: bool,
)
    requires
        message::cseq_of(tx.original.headers) matches Ok(c) && c.seq < d.remote_seq,
    ensures
        ({
            let (after_ep, (after, _, step)) = handling::handled((d, ep), tx, handle, is_open);
            &&& after_ep == ep
            &&& after == DialogView { session_id: after.session_id, ..d }
            &&& d.role == TransactionRole::Server ==> step == HandleStepView::Done(Ok(()))
            &&& d.role == TransactionRole::Client ==> step == HandleStepView::Reply(
                StatusCode::ServerInternalError,
            )
        }),
{
    reveal(handling::handled);
}

/// A CANCEL does not change what the dialog takes for the peer's identifier.
pub proof fn law_cancel_does_not_change_session_id(
    d: DialogView,
    ep: EndpointView,
    tx: TransactionView,
    handle: TransactionHandle,
    is_open: bool,
)
    requires
        tx.original.method == Method::Cancel,
    ensures
        handling::handled((d, ep), tx, handle, is_open).1.0.session_id == d.session_id,
{
    reveal(handling::handled);
}

/// The peer's BYE ends an established call, and is answered with 200.
pub proof fn law_bye_ends_the_call(
    d: DialogView,
    ep: EndpointView,
    tx: TransactionView,
    handle: TransactionHandle,
    is_open: bool,
)
    requires
        tx.original.method == Method::Bye,
        message::cseq_of(tx.original.headers) matches Ok(c) && c.seq >= d.remote_seq,
        d.state is Confirmed || d.role == TransactionRole::Server,
    ensures
        ({
            let (_, (after, _, step)) = handling::handled((d, ep), tx, handle, is_open);
            &&& after.state is Terminated
            &&& step == HandleStepView::Reply(StatusCode::OK)
        }),
{
    reveal(handling::handled);
}

/// A CANCEL is sent by the client alone, and only between the first provisional
/// response and the final one.
pub proof fn law_cancel_waits_for_provisional(d: DialogView)
    ensures
        invite_dialog::cancel(d) matches Ok(Some(_)) ==> d.role == TransactionRole::Client && (
        d.state is Trying || d.state is Early),
        d.state is Calling ==> invite_dialog::cancel(d) == Ok::<
            Option<RequestView>,
            ErrorView,
        >(None),
{
}

/// The call is ended with a CANCEL before its INVITE is answered, and with a BYE
/// after.
pub proof fn law_hangup_fits_the_state(
    d: DialogView,
    ep: EndpointView,
    addrs: Seq<SipAddrView>,
    branch: Seq<char>,
    headers: Option<Seq<HeaderView>>,
)
    ensures
        ({
            let (_, r) = invite_dialog::hangup(d, ep, addrs, branch, headers);
            &&& r matches Ok(EndingView::Cancel(_)) ==> d.state is Trying || d.state is Early
            &&& r matches Ok(EndingView::Bye(_)) ==> d.state is Confirmed || (d.role
                == TransactionRole::Server && d.state is WaitAck)
        }),
{
}

/// A 2xx that comes after the CANCEL is ended with a BYE that goes to the Contact
/// of the 2xx, bears the tag of its To and has a number of its own. The user is
/// not told of a call.
pub proof fn law_2xx_after_cancel_gets_a_bye(
    d: DialogView,
    ep: EndpointView,
    addrs: Seq<SipAddrView>,
    branch: Seq<char>,
    resp: ResponseView,
    tag: Seq<char>,
    contact: NameAddrView,
)
    requires
        message::to_tag_of(resp.headers) == Ok::<_, ErrorView>(Some(tag)),
        message::contact_of(resp.headers) == Ok::<_, ErrorView>(Some(contact)),
        addrs.len() > 0,
    ensures
        ({
            let (after, r) = invite_dialog::bye_after_cancel(d, ep, addrs, branch, resp);
            &&& r matches Ok(bye) && bye.method == Method::Bye && bye.uri == contact.uri
            &&& after.id == DialogIdView { remote_tag: tag, ..d.id }
            &&& after.local_seq == dialog::next_seq(d.local_seq)
            &&& after.state == d.state
            &&& after.notifications == d.notifications
        }),
{
    reveal(requests::next_request);
    reveal(requests::request_in);
}

/// A reliable provisional response that is repeated gets the same PRACK again,
/// and one that is older than the last gets none; neither changes the dialog.
pub proof fn law_repeated_provisional_gets_the_same_prack(
    d: DialogView,
    ep: EndpointView,
    addrs: Seq<SipAddrView>,
    branch: Seq<char>,
    resp: ResponseView,
    rseq: u32,
)
    requires
        message::headers_list(resp.headers, HeaderKind::Require, "100rel"@),
        header::first_rseq(resp.headers) == Some(Some(rseq)),
        message::cseq_of(resp.headers) is Ok,
        d.remote_reliable matches Some(last) && last.last_rseq >= rseq,
    ensures
        prack::prack_for(d, ep, addrs, branch, resp) == (
            d,
            Ok::<_, ErrorView>(
                if (d.remote_reliable->0).last_rseq == rseq {
                    Some((d.remote_reliable->0).prack_request)
                } else {
                    None
                },
            ),
        ),
{
}

proof fn lemma_rack_in_request(
    d: DialogView,
    user_agent: Seq<char>,
    cseq: CSeq,
    top: ViaView,
    headers: Seq<HeaderView>,
    rack: Seq<char>,
)
    requires
        headers.len() > 0,
        headers[0] == HeaderView::RAck(rack),
    ensures
        header::first_rack(
            requests::request_headers(
                d,
                user_agent,
                cseq,
                seq![top],
                Some(headers),
                Seq::empty(),
            ),
        ) == Some(rack),
{
    let pick = |h: HeaderView| header::as_rack(h);
    let all = requests::request_headers(
        d,
        user_agent,
        cseq,
        seq![top],
        Some(headers),
        Seq::empty(),
    );
    let custom = requests::custom(Some(headers));
    let start = all.take(all.len() - custom.len());
    assert(all == start + custom);
    let routes = build::route_headers(d.route_set);
    assert forall|i: int| 0 <= i < start.len() implies pick(#[trigger] start[i]) is None by {
    }
    let i = lists::lemma_first_of_found(start, pick);
    lists::lemma_first_of_concat(start, custom, pick);
    let keep = |h: HeaderView| !dialog::is_system(h);
    lists::lemma_first_of_filter(headers, keep, pick);
}

/// A provisional response that asks for a PRACK, and is newer than the last one
/// that did, gets a PRACK with the next number of the dialog, whose RAck names
/// the response. From then on the same response gets the same PRACK and an older
/// one none, and neither changes the dialog.
pub proof fn law_reliable_provisional_gets_its_prack(
    d: DialogView,
    ep: EndpointView,
    addrs: Seq<SipAddrView>,
    branch: Seq<char>,
    resp: ResponseView,
    rseq: u32,
    cseq: CSeq,
    later_ep: EndpointView,
    later_addrs: Seq<SipAddrView>,
    later_branch: Seq<char>,
    older: ResponseView,
    older_rseq: u32,
)
    requires
        message::headers_list(resp.headers, HeaderKind::Require, "100rel"@),
        header::first_rseq(resp.headers) == Some(Some(rseq)),
        message::cseq_of(resp.headers) == Ok::<_, ErrorView>(cseq),
        d.remote_reliable matches Some(last) ==> last.last_rseq < rseq,
        addrs.len() > 0,
        message::headers_list(older.headers, HeaderKind::Require, "100rel"@),
        header::first_rseq(older.headers) == Some(Some(older_rseq)),
        message::cseq_of(older.headers) is Ok,
        older_rseq < rseq,
    ensures
        ({
            let (after, r) = prack::prack_for(d, ep, addrs, branch, resp);
            &&& r matches Ok(Some(p)) && p.method == Method::PRack && header::first_rack(p.headers)
                == Some(prack::rack_text(rseq, cseq)) && message::cseq_of(p.headers) == Ok::<
                _,
                ErrorView,
            >(CSeq { seq: dialog::next_seq(d.local_seq), method: Method::PRack })
            &&& after.local_seq == dialog::next_seq(d.local_seq)
            &&& prack::prack_for(after, later_ep, later_addrs, later_branch, resp) == (after, r)
            &&& prack::prack_for(after, later_ep, later_addrs, later_branch, older) == (
                after,
                Ok::<Option<RequestView>, ErrorView>(None),
            )
        }),
{
    reveal(requests::next_request);
    reveal(requests::request_in);
    let seq = dialog::next_seq(d.local_seq);
    let rack = prack::rack_text(rseq, cseq);
    let headers = if d.supports_100rel {
        seq![HeaderView::RAck(rack), HeaderView::Supported("100rel"@)]
    } else {
        seq![HeaderView::RAck(rack)]
    };
    let numbered = DialogView { local_seq: seq, ..d };
    let own = CSeq { seq, method: Method::PRack };
    let top = requests::request_via(numbered, ep, addrs, branch)->Ok_0;
    lemma_rack_in_request(numbered, ep.user_agent, own, top, headers, rack);
    lemma_first_in_request(
        numbered,
        ep.user_agent,
        own,
        seq![top],
        Some(headers),
        Seq::empty(),
    );
}

/// A provisional response that does not ask for a PRACK, or has no number, gets
/// none, and leaves the dialog as it is.
pub proof fn law_plain_provisional_gets_no_prack(
    d: DialogView,
    ep: EndpointView,
    addrs: Seq<SipAddrView>,
    branch: Seq<char>,
    resp: ResponseView,
)
    requires
        !message::headers_list(resp.headers, HeaderKind::Require, "100rel"@)
            || !(header::first_rseq(resp.headers) matches Some(Some(_))),
    ensures
        prack::prack_for(d, ep, addrs, branch, resp) == (
            d,
            Ok::<Option<RequestView>, ErrorView>(None),
        ),
{
}

/// The Via of a request names the transport that the request goes out on,
/// wherever the endpoint has an address of that transport.
pub proof fn law_via_names_the_transport(
    d: DialogView,
    ep: EndpointView,
    addrs: Seq<SipAddrView>,
    branch: Seq<char>,
    t: Transport,
    i: int,
)
    requires
        d.send_transport(ep) == Some(t),
        t != Transport::Udp,
        0 <= i < addrs.len(),
        addrs[i].transport == Some(t),
    ensures
        requests::request_via(d, ep, addrs, branch) matches Ok(top) && top.transport == t,
{
    let pick = |a: SipAddrView| dialog::addr_with(a, t);
    let k = lists::lemma_first_of_found(addrs, pick);
    assert(pick(addrs[i]) is Some);
}

/// A flow that is over is not used for the dialog's requests any more: none goes
/// out on a stream that was retired.
pub proof fn law_retired_flow_is_not_used(
    d: DialogView,
    ep: EndpointView,
    c: SipConnectionView,
)
    requires
        c.is_stream(),
        d.server_connection == Some(c),
    ensures
        d.affinity(
            EndpointView {
                transport_layer: TransportLayerView {
                    inner: ep.transport_layer.inner.retire_connection(c),
                    ..ep.transport_layer
                },
                ..ep
            },
        ) is None,
{
}

/// Where a server's request cannot be sent, or finds no connection, it is sent
/// once more to where the peer was heard from.
pub proof fn law_server_dials_back(
    d: DialogView,
    addrs: Seq<SipAddrView>,
    method: Method,
    original: RequestView,
    sent: Result<bool, ErrorView>,
    source: SipAddrView,
)
    requires
        d.role == TransactionRole::Server,
        method != Method::Ack,
        sent != Ok::<bool, ErrorView>(true),
        d.dialback_target == Some(source),
    ensures
        exchange::request_sent(d, addrs, method, original, sent) matches DialogStepView::Resend {
            target,
            ..
        } && target == source,
{
}

/// The dialog's name and its addresses agree.
pub open spec fn is_named(d: DialogView) -> bool {
    key::or_empty(d.from.tag()) == dialog::from_tag_of_dialog(d.id, d.role) && key::or_empty(
        d.to.tag(),
    ) == dialog::to_tag_of_dialog(d.id, d.role)
}

proof fn lemma_first_in_request(
    d: DialogView,
    user_agent: Seq<char>,
    cseq: CSeq,
    vias: Seq<ViaView>,
    headers: Option<Seq<HeaderView>>,
    body: Seq<u8>,
)
    ensures
        ({
            let all = requests::request_headers(d, user_agent, cseq, vias, headers, body);
            let (from, to) = match d.role {
                TransactionRole::Client => (d.from, d.to),
                TransactionRole::Server => (d.to, d.from),
            };
            &&& message::call_id_of(all) == Ok::<_, ErrorView>(d.id.call_id)
            &&& message::from_of(all) == Ok::<_, ErrorView>(from)
            &&& message::to_of(all) == Ok::<_, ErrorView>(to)
            &&& message::cseq_of(all) == Ok::<_, ErrorView>(cseq)
        }),
{
    let all = requests::request_headers(d, user_agent, cseq, vias, headers, body);
    let first = vias.map_values(|v: ViaView| requests::via_header(v));
    let own = requests::address_headers(d, user_agent, cseq);
    let rest = all.skip((first.len() + own.len()) as int);
    assert(all == first + (own + rest));
    reveal_with_fuel(lists::first_of, 6);
    let call_id = |h: HeaderView| header::as_call_id(h);
    let from = |h: HeaderView| header::as_from(h);
    let to = |h: HeaderView| header::as_to(h);
    let number = |h: HeaderView| header::as_cseq(h);
    lists::lemma_first_of_concat(first, own + rest, call_id);
    lists::lemma_first_of_concat(own, rest, call_id);
    lists::lemma_first_of_concat(first, own + rest, from);
    lists::lemma_first_of_concat(own, rest, from);
    lists::lemma_first_of_concat(first, own + rest, to);
    lists::lemma_first_of_concat(own, rest, to);
    lists::lemma_first_of_concat(first, own + rest, number);
    lists::lemma_first_of_concat(own, rest, number);
    let i0 = lists::lemma_first_of_found(first, call_id);
    let i1 = lists::lemma_first_of_found(first, from);
    let i2 = lists::lemma_first_of_found(first, to);
    let i3 = lists::lemma_first_of_found(first, number);
}

/// Whatever headers the caller gives, a request of the dialog bears the dialog's
/// own Call-ID, From, To and CSeq, so that it belongs to the dialog.
pub proof fn law_request_belongs_to_its_dialog(
    d: DialogView,
    user_agent: Seq<char>,
    method: Method,
    cseq: Option<u32>,
    vias: Seq<ViaView>,
    headers: Option<Seq<HeaderView>>,
    body: Seq<u8>,
)
    requires
        is_named(d),
    ensures
        ({
            let (after, req) = requests::request_in(
                d,
                user_agent,
                method,
                cseq,
                vias,
                headers,
                body,
            );
            &&& id::dialog_of(req.headers, TransactionRole::Client) == Ok::<_, ErrorView>(d.id)
            &&& message::cseq_of(req.headers) matches Ok(c) && c.method == method && c.seq == (
            match cseq {
                Some(n) => n,
                None => dialog::next_seq(d.local_seq),
            })
        }),
{
    reveal(requests::request_in);
    let seq = match cseq {
        Some(n) => n,
        None => dialog::next_seq(d.local_seq),
    };
    lemma_first_in_request(d, user_agent, CSeq { seq, method }, vias, headers, body);
}

/// The caller's headers never stand in for those that the dialog writes.
pub proof fn law_caller_writes_no_system_header(headers: Option<Seq<HeaderView>>, i: int)
    requires
        0 <= i < requests::custom(headers).len(),
    ensures
        !dialog::is_system(requests::custom(headers)[i]),
{
    if let Some(hs) = headers {
        let keep = |h: HeaderView| !dialog::is_system(h);
        hs.lemma_filter_pred(keep, i);
    }
}

proof fn lemma_first_index(headers: Seq<HeaderView>)
    ensures
        0 <= header::first_index(headers, HeaderKind::CSeq) <= headers.len(),
        header::first_index(headers, HeaderKind::CSeq) < headers.len() ==> header::first_cseq(
            headers,
        ) == header::as_cseq(headers[header::first_index(headers, HeaderKind::CSeq)])
            && headers[header::first_index(headers, HeaderKind::CSeq)].kind() == HeaderKind::CSeq,
        header::first_index(headers, HeaderKind::CSeq) == headers.len() ==> header::first_cseq(
            headers,
        ) is None,
        forall|j: int|
            0 <= j < header::first_index(headers, HeaderKind::CSeq) ==> (
            #[trigger] headers[j]).kind() != HeaderKind::CSeq,
    decreases headers.len(),
{
    if headers.len() > 0 && headers[0].kind() != HeaderKind::CSeq {
        let rest = headers.drop_first();
        lemma_first_index(rest);
        assert forall|j: int|
            0 <= j < header::first_index(headers, HeaderKind::CSeq) implies (
        #[trigger] headers[j]).kind() != HeaderKind::CSeq by {
            if j > 0 {
                assert(headers[j] == rest[j - 1]);
            }
        }
    }
}

/// The first CSeq of headers in which it is replaced is the new one.
proof fn lemma_replaced_cseq(headers: Seq<HeaderView>, cseq: CSeq)
    requires
        header::first_cseq(headers) is Some,
    ensures
        header::first_cseq(invite_dialog::with_cseq(headers, cseq)) == Some(
            FieldView::Typed(cseq),
        ),
{
    lemma_first_index(headers);
    let i = header::first_index(headers, HeaderKind::CSeq);
    let after = invite_dialog::with_cseq(headers, cseq);
    lemma_first_index(after);
    let k = header::first_index(after, HeaderKind::CSeq);
    assert(after[i].kind() == HeaderKind::CSeq);
    if k < i {
        assert(after[k] == headers[k]);
    }
    if i < k {
        assert(after[i].kind() != HeaderKind::CSeq);
    }
}

/// The CANCEL of an INVITE bears the INVITE's number, and the server finds the
/// transaction of the INVITE by it.
pub proof fn law_cancel_finds_its_invite(invite: RequestView, cancel: RequestView)
    requires
        invite.method == Method::Invite,
        invite_dialog::cancel_of(invite) == Ok::<_, ErrorView>(cancel),
    ensures
        cancel.method == Method::Cancel,
        cancel.uri == invite.uri,
        message::cseq_of(cancel.headers) matches Ok(c) && c.method == Method::Cancel && Ok::<
            u32,
            ErrorView,
        >(c.seq) == (match message::cseq_of(invite.headers) {
            Ok(i) => Ok(i.seq),
            Err(e) => Err(e),
        }),
        key::key_of_request(cancel, TransactionRole::Server) == key::key_of_request(
            invite,
            TransactionRole::Server,
        ),
{
    let keep = |h: HeaderView| invite_dialog::stays_in_cancel(h);
    let kept = invite.headers.filter(keep);
    let via = |h: HeaderView| header::as_via(h);
    let call_id = |h: HeaderView| header::as_call_id(h);
    let from = |h: HeaderView| header::as_from(h);
    let number = |h: HeaderView| header::as_cseq(h);
    lists::lemma_first_of_filter(invite.headers, keep, via);
    lists::lemma_first_of_filter(invite.headers, keep, call_id);
    lists::lemma_first_of_filter(invite.headers, keep, from);
    lists::lemma_first_of_filter(invite.headers, keep, number);
    let seq = (message::cseq_of(invite.headers)->Ok_0).seq;
    lemma_replaced_cseq(kept, CSeq { seq, method: Method::Cancel });
    lemma_first_index(kept);
    lists::lemma_first_of_same(kept, cancel.headers, via, via);
    lists::lemma_first_of_same(kept, cancel.headers, call_id, call_id);
    lists::lemma_first_of_same(kept, cancel.headers, from, from);
}

/// A new dialog bears its name in its addresses, if the request that opens it
/// does.
pub proof fn law_new_dialog_is_named(
    role: TransactionRole,
    id: DialogIdView,
    req: RequestView,
    credential: Option<CredentialView>,
    contact: Option<UriView>,
    tu_channel: u64,
    uuid: Seq<char>,
    d: DialogView,
)
    requires
        dialog::opened(role, id, req, credential, contact, tu_channel, uuid) == Ok::<
            _,
            ErrorView,
        >(d),
        message::from_of(req.headers) matches Ok(from) && key::or_empty(from.tag())
            == dialog::from_tag_of_dialog(id, role),
        message::to_of(req.headers) matches Ok(to) && (to.tag() is None || to.tag() == Some(
            dialog::to_tag_of_dialog(id, role),
        )),
    ensures
        is_named(d),
{
    let to = message::to_of(req.headers)->Ok_0;
    let tag = dialog::to_tag_of_dialog(id, role);
    if to.tag() is None && tag.len() > 0 {
        let pick = |p: ParamView| crate::sip::uri::as_tag(p);
        let one = seq![ParamView::Tag(tag)];
        assert(to.params.push(ParamView::Tag(tag)) == to.params + one);
        lists::lemma_first_of_concat(to.params, one, pick);
        reveal_with_fuel(lists::first_of, 2);
    }
    if tag.len() == 0 {
        assert(tag == Seq::<char>::empty());
    }
}

proof fn lemma_to_of_added(headers: Seq<HeaderView>, more: Seq<HeaderView>)
    requires
        forall|i: int| 0 <= i < more.len() ==> !(#[trigger] more[i] is To),
    ensures
        header::first_to(responses::with_headers(headers, more)) == header::first_to(headers),
    decreases more.len(),
{
    if more.len() > 0 {
        let h = more.last();
        assert(!(more[more.len() - 1] is To));
        assert forall|i: int| 0 <= i < more.drop_last().len() implies !(
        #[trigger] more.drop_last()[i] is To) by {
            assert(more.drop_last()[i] == more[i]);
        }
        lemma_to_of_added(headers, more.drop_last());
        let before = responses::with_headers(headers, more.drop_last());
        let pick = |x: HeaderView| header::as_to(x);
        if let HeaderView::Other(name, _) = h {
            let keep = |x: HeaderView| responses::is_not_named(x, name);
            lists::lemma_first_of_filter(before, keep, pick);
            lists::lemma_first_of_push(before.filter(keep), h, pick);
        } else {
            let keep = |x: HeaderView| x.kind() != h.kind();
            lists::lemma_first_of_filter(before, keep, pick);
            lists::lemma_first_of_push(before.filter(keep), h, pick);
            lists::lemma_first_of_push(before, h, pick);
        }
    }
}

proof fn lemma_length_and_agent(all: Seq<HeaderView>, length: HeaderView, agent: HeaderView)
    requires
        length is ContentLength,
        agent is UserAgent,
    ensures
        ({
            let out = header::without(
                header::without(all, HeaderKind::ContentLength),
                HeaderKind::UserAgent,
            ).push(length).push(agent);
            &&& header::of_kind(out, HeaderKind::ContentLength) == seq![length]
            &&& header::of_kind(out, HeaderKind::UserAgent) == seq![agent]
        }),
{
    let short = header::without(all, HeaderKind::ContentLength);
    let kept = header::without(short, HeaderKind::UserAgent);
    header::lemma_of_kind_without(all, HeaderKind::ContentLength, HeaderKind::ContentLength);
    header::lemma_of_kind_without(short, HeaderKind::UserAgent, HeaderKind::ContentLength);
    header::lemma_of_kind_without(short, HeaderKind::UserAgent, HeaderKind::UserAgent);
    header::lemma_of_kind_push(kept, length, HeaderKind::ContentLength);
    header::lemma_of_kind_push(kept, length, HeaderKind::UserAgent);
    header::lemma_of_kind_push(kept.push(length), agent, HeaderKind::ContentLength);
    header::lemma_of_kind_push(kept.push(length), agent, HeaderKind::UserAgent);
}

/// A response bears the version of the request, the status and the body asked
/// for, and exactly one Content-Length, which tells the length of the body, and
/// one User-Agent, which names this end, whatever headers are given.
pub proof fn law_response_tells_its_length_and_agent(
    d: DialogView,
    user_agent: Seq<char>,
    request: RequestView,
    status: StatusCode,
    headers: Option<Seq<HeaderView>>,
    body: Seq<u8>,
)
    ensures
        ({
            let r = responses::response_in(d, user_agent, request, status, headers, body);
            &&& r.version == request.version
            &&& r.status_code == status
            &&& r.body == body
            &&& header::of_kind(r.headers, HeaderKind::ContentLength) == seq![
                HeaderView::ContentLength(build::length_of(body)),
            ]
            &&& header::of_kind(r.headers, HeaderKind::UserAgent) == seq![
                HeaderView::UserAgent(user_agent),
            ]
        }),
{
    reveal(responses::response_in);
    lemma_length_and_agent(
        match headers {
            Some(hs) => responses::with_headers(
                responses::own_response_headers(d, request.headers, status, headers),
                hs,
            ),
            None => responses::own_response_headers(d, request.headers, status, headers),
        },
        HeaderView::ContentLength(build::length_of(body)),
        HeaderView::UserAgent(user_agent),
    );
}

/// Every response of the dialog other than a 100 bears a tag in its To: the one
/// of the request, or else the dialog's own.
pub proof fn law_response_bears_a_to_tag(
    d: DialogView,
    user_agent: Seq<char>,
    request: RequestView,
    status: StatusCode,
    headers: Option<Seq<HeaderView>>,
    body: Seq<u8>,
    to: NameAddrView,
)
    requires
        status != StatusCode::Trying,
        header::first_to(request.headers) == Some(FieldView::Typed(to)),
        headers matches Some(hs) ==> forall|i: int|
            0 <= i < hs.len() ==> !(#[trigger] hs[i] is To),
    ensures
        message::to_tag_of(
            responses::response_in(d, user_agent, request, status, headers, body).headers,
        ) == Ok::<_, ErrorView>(
            Some(
                match to.tag() {
                    Some(t) => t,
                    None => d.id.local_tag,
                },
            ),
        ),
{
    reveal(responses::response_in);
    let pick = |x: HeaderView| header::as_to(x);
    let f = |h: HeaderView| responses::taken_over(h, status, d.id.local_tag);
    let through = |h: HeaderView|
        match f(h) {
            Some(b) => pick(b),
            None => None,
        };
    let taken = lists::all_of(request.headers, f);
    lists::lemma_first_of_all_of(request.headers, f, pick, through);
    lemma_first_to_taken(request.headers, status, d.id.local_tag, to);
    let own = responses::own_response_headers(d, request.headers, status, headers);
    assert(own == taken + own.skip(taken.len() as int));
    lists::lemma_first_of_concat(taken, own.skip(taken.len() as int), pick);
    let all = match headers {
        Some(hs) => responses::with_headers(own, hs),
        None => own,
    };
    if let Some(hs) = headers {
        lemma_to_of_added(own, hs);
    }
    let no_length = |h: HeaderView| h.kind() != HeaderKind::ContentLength;
    let no_agent = |h: HeaderView| h.kind() != HeaderKind::UserAgent;
    lists::lemma_first_of_filter(all, no_length, pick);
    lists::lemma_first_of_filter(all.filter(no_length), no_agent, pick);
    let kept = all.filter(no_length).filter(no_agent);
    let length = HeaderView::ContentLength(build::length_of(body));
    lists::lemma_first_of_push(kept, length, pick);
    lists::lemma_first_of_push(kept.push(length), HeaderView::UserAgent(user_agent), pick);
    let tag = |p: ParamView| crate::sip::uri::as_tag(p);
    if to.tag() is None {
        let one = seq![ParamView::Tag(d.id.local_tag)];
        assert(to.params.push(ParamView::Tag(d.id.local_tag)) == to.params + one);
        lists::lemma_first_of_concat(to.params, one, tag);
        reveal_with_fuel(lists::first_of, 2);
    }
}

proof fn lemma_first_to_taken(
    s: Seq<HeaderView>,
    status: StatusCode,
    tag: Seq<char>,
    to: NameAddrView,
)
    requires
        status != StatusCode::Trying,
        header::first_to(s) == Some(FieldView::Typed(to)),
    ensures
        ({
            let f = |h: HeaderView| responses::taken_over(h, status, tag);
            let pick = |x: HeaderView| header::as_to(x);
            let through = |h: HeaderView|
                match f(h) {
                    Some(b) => pick(b),
                    None => None,
                };
            lists::first_of(s, through) == Some(FieldView::Typed(to.or_tag(tag)))
        }),
    decreases s.len(),
{
    if s.len() > 0 && !(s[0] is To) {
        lemma_first_to_taken(s.drop_first(), status, tag, to);
    }
}

}

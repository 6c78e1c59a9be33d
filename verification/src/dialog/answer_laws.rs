//! How a dialog answers the requests of its peer.

use super::dialog::{DialogStateView, DialogView, TerminatedReason, TransactionHandle};
use super::handling;
use super::handling::{After, HandleStepView, HandlingView};
use super::invite_dialog;
use super::invite_dialog::DialogAndEndpoint;
use super::message_laws;
use super::responses;
use crate::error::ErrorView;
use crate::sip::basic::Method;
use crate::sip::header;
use crate::sip::header::{FieldView, HeaderKind, HeaderView};
use crate::sip::message;
use crate::sip::message::{RequestView, ResponseView, SipMessageView};
use crate::sip::status::{StatusCode, StatusCodeKind};
use crate::sip::uri::NameAddrView;
use crate::transaction::endpoint::{EndpointView, TransactionEventView};
use crate::transaction::key::TransactionRole;
use crate::transaction::transaction::TransactionView;
use crate::transport::sip_addr::SipAddrView;
use vstd::prelude::*;

verus! {

/// `resp` answers `req`: it bears the request's Via, From, CSeq, Call-ID and
/// Record-Route headers.
pub open spec fn answers(resp: ResponseView, req: RequestView) -> bool {
    &&& header::of_kind(resp.headers, HeaderKind::Via) == header::of_kind(
        req.headers,
        HeaderKind::Via,
    )
    &&& header::of_kind(resp.headers, HeaderKind::From) == header::of_kind(
        req.headers,
        HeaderKind::From,
    )
    &&& header::of_kind(resp.headers, HeaderKind::CSeq) == header::of_kind(
        req.headers,
        HeaderKind::CSeq,
    )
    &&& header::of_kind(resp.headers, HeaderKind::CallId) == header::of_kind(
        req.headers,
        HeaderKind::CallId,
    )
    &&& header::of_kind(resp.headers, HeaderKind::RecordRoute) == header::of_kind(
        req.headers,
        HeaderKind::RecordRoute,
    )
    &&& resp.version == req.version
}

/// The caller gives none of the headers that a response takes over.
pub open spec fn gives_no_mirrored(headers: Option<Seq<HeaderView>>) -> bool {
    &&& message_laws::leaves_out(headers, HeaderKind::Via)
    &&& message_laws::leaves_out(headers, HeaderKind::From)
    &&& message_laws::leaves_out(headers, HeaderKind::CSeq)
    &&& message_laws::leaves_out(headers, HeaderKind::CallId)
    &&& message_laws::leaves_out(headers, HeaderKind::RecordRoute)
}

proof fn lemma_answers(
    d: DialogView,
    user_agent: Seq<char>,
    req: RequestView,
    status: StatusCode,
    headers: Option<Seq<HeaderView>>,
    body: Seq<u8>,
)
    requires
        gives_no_mirrored(headers),
    ensures
        ({
            let r = responses::response_in(d, user_agent, req, status, headers, body);
            answers(r, req) && r.status_code == status && r.body == body
        }),
{
    message_laws::law_response_mirrors_its_request(
        d,
        user_agent,
        req,
        status,
        headers,
        body,
        HeaderKind::Via,
    );
    message_laws::law_response_mirrors_its_request(
        d,
        user_agent,
        req,
        status,
        headers,
        body,
        HeaderKind::From,
    );
    message_laws::law_response_mirrors_its_request(
        d,
        user_agent,
        req,
        status,
        headers,
        body,
        HeaderKind::CSeq,
    );
    message_laws::law_response_mirrors_its_request(
        d,
        user_agent,
        req,
        status,
        headers,
        body,
        HeaderKind::CallId,
    );
    message_laws::law_response_mirrors_its_request(
        d,
        user_agent,
        req,
        status,
        headers,
        body,
        HeaderKind::RecordRoute,
    );
    reveal(responses::response_in);
}

/// The one event that the dialog's transaction gets is to send `resp`.
pub open spec fn tells_to_send(
    before: DialogAndEndpoint,
    after: EndpointView,
    resp: ResponseView,
) -> bool {
    after == EndpointView {
        outbox: before.1.outbox.push((before.0.tu_channel, TransactionEventView::Respond(resp))),
        ..before.1
    }
}

/// The dialog has entered `state`, its user has been told, and nothing else of the
/// dialog has changed.
pub open spec fn has_entered(
    before: DialogView,
    after: DialogView,
    state: DialogStateView,
) -> bool {
    after == DialogView { state, notifications: before.notifications.push(state), ..before }
}

/// A server that has not answered yet rings: with 180, or with 183 where there is
/// a body. The response answers the INVITE, and the dialog is early with it. In
/// any other state, and at the client's end, nothing happens.
pub proof fn law_server_rings(
    p: DialogAndEndpoint,
    is_open: bool,
    headers: Option<Seq<HeaderView>>,
    body: Option<Seq<u8>>,
)
    ensures
        ({
            let (q, r) = invite_dialog::ringing(p, is_open, headers, body);
            let unanswered = p.0.state is Calling || p.0.state is Trying || p.0.state is Early;
            &&& p.0.role == TransactionRole::Server && unanswered && is_open && gives_no_mirrored(
                headers,
            ) ==> {
                &&& r is Ok
                &&& q.0.state matches DialogStateView::Early(id, resp)
                &&& id == p.0.id
                &&& answers(resp, p.0.initial_request)
                &&& body matches Some(b) ==> resp.status_code == StatusCode::SessionProgress
                    && resp.body == b
                &&& body is None ==> resp.status_code == StatusCode::Ringing && resp.body.len()
                    == 0
                &&& tells_to_send(p, q.1, resp)
                &&& has_entered(p.0, q.0, q.0.state)
            }
            &&& p.0.role != TransactionRole::Server || !unanswered ==> q == p && r is Ok
            &&& p.0.role == TransactionRole::Server && unanswered && !is_open ==> q == p && r
                == Err::<(), _>(ErrorView::Error("channel closed"@))
        }),
{
    if gives_no_mirrored(headers) {
        let status = if body is Some {
            StatusCode::SessionProgress
        } else {
            StatusCode::Ringing
        };
        lemma_answers(
            p.0,
            p.1.user_agent,
            p.0.initial_request,
            status,
            headers,
            invite_dialog::bytes_or_none(body),
        );
    }
}

/// A server accepts with 200 and the body given, and waits for the ACK. At the
/// client's end nothing happens.
pub proof fn law_server_accepts(
    p: DialogAndEndpoint,
    is_open: bool,
    headers: Option<Seq<HeaderView>>,
    body: Seq<u8>,
)
    ensures
        ({
            let (q, r) = invite_dialog::accepted(p, is_open, headers, body);
            &&& p.0.role == TransactionRole::Server && is_open && !(p.0.state is Confirmed
                || p.0.state is Terminated) && gives_no_mirrored(headers) ==> {
                &&& r is Ok
                &&& q.0.state matches DialogStateView::WaitAck(id, resp)
                &&& id == p.0.id
                &&& answers(resp, p.0.initial_request)
                &&& resp.status_code == StatusCode::OK && resp.body == body
                &&& tells_to_send(p, q.1, resp)
                &&& has_entered(p.0, q.0, q.0.state)
            }
            &&& p.0.role != TransactionRole::Server ==> q == p && r is Ok
            &&& p.0.role == TransactionRole::Server && !is_open ==> q == p && r == Err::<(), _>(
                ErrorView::Error("channel closed"@),
            )
        }),
{
    if gives_no_mirrored(headers) {
        lemma_answers(
            p.0,
            p.1.user_agent,
            p.0.initial_request,
            StatusCode::OK,
            headers,
            body,
        );
    }
}

/// A server that has neither accepted nor ended rejects with the status given, or
/// else with 603, and with the reason given. The dialog is over. In any other case
/// nothing happens.
pub proof fn law_server_rejects(
    p: DialogAndEndpoint,
    code: Option<StatusCode>,
    reason: Option<Seq<char>>,
)
    ensures
        ({
            let q = invite_dialog::rejected(p, code, reason);
            let can = p.0.role == TransactionRole::Server && !(p.0.state is Terminated
                || p.0.state is Confirmed);
            &&& !can ==> q == p
            &&& can ==> {
                &&& has_entered(
                    p.0,
                    q.0,
                    DialogStateView::Terminated(p.0.id, TerminatedReason::UasDecline),
                )
                &&& q.1.outbox.len() == p.1.outbox.len() + 1
                &&& q.1.outbox.last().1 matches TransactionEventView::Respond(resp)
                &&& tells_to_send(p, q.1, resp)
                &&& answers(resp, p.0.initial_request)
                &&& code matches Some(c) ==> resp.status_code == c
                &&& code is None ==> resp.status_code == StatusCode::Decline
                &&& resp.body.len() == 0
                &&& reason matches Some(text) ==> header::of_kind(resp.headers, HeaderKind::Reason)
                    == seq![HeaderView::Reason(text)]
            }
        }),
{
    let headers = match reason {
        Some(r) => Some(seq![HeaderView::Reason(r)]),
        None => None,
    };
    let status = match code {
        Some(c) => c,
        None => StatusCode::Decline,
    };
    lemma_answers(p.0, p.1.user_agent, p.0.initial_request, status, headers, Seq::empty());
    if let Some(text) = reason {
        message_laws::law_response_says_what_is_given(
            p.0,
            p.1.user_agent,
            p.0.initial_request,
            status,
            seq![HeaderView::Reason(text)],
            Seq::empty(),
            0,
        );
    }
}

/// The request is not older than the last one of the peer.
pub open spec fn is_in_order(d: DialogView, req: RequestView) -> bool {
    header::first_cseq(req.headers) matches Some(FieldView::Typed(c)) && c.seq >= d.remote_seq
}

/// The number of a request.
pub open spec fn number_in(req: RequestView) -> u32 {
    match header::first_cseq(req.headers) {
        Some(FieldView::Typed(c)) => c.seq,
        _ => 0,
    }
}

/// The dialog as it was, but for what the request of the peer tells of itself: its
/// number and the peer's identifier.
pub open spec fn is_same_call(before: DialogView, after: DialogView) -> bool {
    &&& after.role == before.role && after.id == before.id
    &&& after.from == before.from && after.to == before.to
    &&& after.local_seq == before.local_seq && after.local_contact == before.local_contact
    &&& after.remote_uri == before.remote_uri && after.remote_contact == before.remote_contact
    &&& after.route_set == before.route_set && after.credential == before.credential
    &&& after.initial_request == before.initial_request
    &&& after.supports_100rel == before.supports_100rel
    &&& after.tu_channel == before.tu_channel
}

/// A request within an established call that the user is to answer is told to the
/// user as what it is, and the user has 64*T1 to answer it.
pub proof fn law_user_is_asked(
    p: DialogAndEndpoint,
    tx: TransactionView,
    handle: TransactionHandle,
    is_open: bool,
)
    requires
        p.0.state is Confirmed,
        is_in_order(p.0, tx.original),
    ensures
        ({
            let (ep, (d, h, step)) = handling::handled(p, tx, handle, is_open);
            let req = tx.original;
            let m = req.method;
            let told = match m {
                Method::Invite | Method::Update => Some(
                    DialogStateView::Updated(p.0.id, req, handle),
                ),
                Method::Info => Some(DialogStateView::Info(p.0.id, req, handle)),
                Method::Options => Some(DialogStateView::Options(p.0.id, req, handle)),
                Method::Refer => Some(DialogStateView::Refer(p.0.id, req, handle)),
                Method::Message => Some(DialogStateView::Message(p.0.id, req, handle)),
                Method::Notify => Some(DialogStateView::Notify(p.0.id, req, handle)),
                _ => None,
            };
            &&& ep == p.1
            &&& d.remote_seq == number_in(req)
            &&& is_same_call(p.0, d)
            &&& told matches Some(state) ==> {
                &&& d.notifications == p.0.notifications.push(state)
                &&& step == (HandleStepView::Ask { within: p.1.option.t1x64 })
                &&& h matches HandlingView::Asking { after, within }
                &&& within == p.1.option.t1x64
                &&& m == Method::Invite <==> after == After::Ack
                &&& m == Method::Options <==> after == After::Nothing
                &&& m == Method::Refer || m == Method::Message ==> d.state == state
                &&& m != Method::Refer && m != Method::Message ==> d.state == p.0.state
            }
        }),
{
    reveal(handling::handled);
}

/// A request within an established call that is not for the user is answered at
/// once: a BYE with 200, and the dialog is over for the reason that the peer ended
/// it; a CANCEL to a server with 200, without effect; and a method that has no
/// place in a call with 405.
pub proof fn law_request_is_answered_at_once(
    p: DialogAndEndpoint,
    tx: TransactionView,
    handle: TransactionHandle,
    is_open: bool,
)
    requires
        p.0.state is Confirmed,
        is_in_order(p.0, tx.original),
    ensures
        ({
            let (ep, (d, h, step)) = handling::handled(p, tx, handle, is_open);
            let m = tx.original.method;
            &&& m == Method::Bye ==> {
                &&& step == HandleStepView::Reply(StatusCode::OK)
                &&& d.state == DialogStateView::Terminated(
                    p.0.id,
                    if p.0.role == TransactionRole::Server {
                        TerminatedReason::UacBye
                    } else {
                        TerminatedReason::UasBye
                    },
                )
                &&& d.notifications == p.0.notifications.push(d.state)
            }
            &&& m == Method::Cancel ==> {
                &&& p.0.role == TransactionRole::Server ==> step == HandleStepView::Reply(
                    StatusCode::OK,
                )
                &&& p.0.role == TransactionRole::Client ==> step == HandleStepView::Done(Ok(()))
            }
            &&& m == Method::PRack ==> step == HandleStepView::Reply(
                if header::first_rack(tx.original.headers) is Some && message::is_rack(
                    header::first_rack(tx.original.headers)->0,
                ) {
                    StatusCode::OK
                } else {
                    StatusCode::BadRequest
                },
            )
            &&& m == Method::Subscribe || m == Method::Publish || m == Method::Register ==> step
                == HandleStepView::Reply(StatusCode::MethodNotAllowed)
            &&& m == Method::Ack && p.0.role == TransactionRole::Client ==> step
                == HandleStepView::Done(Ok(()))
            &&& m == Method::Cancel || m == Method::PRack || m == Method::Subscribe || m
                == Method::Publish || m == Method::Register || m == Method::Ack ==> d.state
                == p.0.state && d.notifications == p.0.notifications
        }),
{
    reveal(handling::handled);
}

/// The user's answer is what the peer gets: its status, its headers and its body,
/// as an answer to the request. Once a final answer is out, the user is told that
/// the call is established as before, where the request was for the user to
/// confirm; a re-INVITE waits for its ACK first. After a provisional answer the
/// user is asked again, with the time that is left unchanged.
pub proof fn law_users_answer_is_sent(
    d: DialogView,
    user_agent: Seq<char>,
    tx: TransactionView,
    after: After,
    within: u64,
    status: StatusCode,
    headers: Option<Seq<HeaderView>>,
    body: Seq<u8>,
    sent: TransactionView,
)
    requires
        gives_no_mirrored(headers),
        !(d.state is Terminated),
    ensures
        ({
            let (e, h, step) = handling::commanded(
                d,
                user_agent,
                tx,
                HandlingView::Asking { after, within },
                Some((status, headers, body)),
            );
            let (f, g, next) = handling::sent(e, sent, h, Ok(()));
            &&& e == d
            &&& step matches HandleStepView::Respond(resp) && answers(resp, tx.original)
                && resp.status_code == status && resp.body == body
            &&& status.spec_kind() == StatusCodeKind::Provisional ==> f == d && next == (
            HandleStepView::Ask { within }) && g == (HandlingView::Asking { after, within })
            &&& status.spec_kind() != StatusCodeKind::Provisional ==> {
                &&& after == After::Nothing ==> f == d && next == HandleStepView::Done(Ok(()))
                &&& after == After::Confirm ==> f.state is Confirmed && f.state.id() == d.id
                    && f.notifications == d.notifications.push(f.state) && next
                    == HandleStepView::Done(Ok(()))
                &&& after == After::Ack ==> f == d && next == HandleStepView::Receive
            }
        }),
{
    lemma_answers(d, user_agent, tx.original, status, headers, body);
}

/// The ACK of a re-INVITE, or of the INVITE, establishes the call: the dialog is
/// confirmed with the last response that went out, and the ACK is kept.
pub proof fn law_ack_establishes_the_call(
    d: DialogView,
    ep: EndpointView,
    addrs: Seq<SipAddrView>,
    branch: Seq<char>,
    tx: TransactionView,
    h: HandlingView,
    ack: RequestView,
    last: ResponseView,
)
    requires
        h is AwaitingAck || h is Inviting,
        !(d.state is Terminated),
        ack.method == Method::Ack,
        tx.last_response == Some(last),
    ensures
        ({
            let (e, _, step) = handling::received(
                d,
                ep,
                addrs,
                branch,
                tx,
                h,
                Some(SipMessageView::Request(ack)),
            );
            &&& e.state == DialogStateView::Confirmed(d.id, last)
            &&& e.remote_ack == Some(ack)
            &&& e.notifications == d.notifications.push(e.state)
            &&& is_same_call(d, e)
            &&& step == HandleStepView::Done(Ok(()))
        }),
{
}

/// The INVITE of a new call is told to the user, and gets a 100 if it has had no
/// response yet. A CANCEL that comes before the final response gets the INVITE a
/// 487, and once that is out the dialog is over because of the caller's CANCEL.
pub proof fn law_cancelled_invite_gets_487(
    p: DialogAndEndpoint,
    tx: TransactionView,
    handle: TransactionHandle,
    is_open: bool,
    addrs: Seq<SipAddrView>,
    branch: Seq<char>,
    cancel: RequestView,
)
    requires
        p.0.role == TransactionRole::Server,
        p.0.state is Calling,
        is_in_order(p.0, tx.original),
        tx.original.method == Method::Invite,
        cancel.method == Method::Cancel,
    ensures
        ({
            let (ep, (d, h, step)) = handling::handled(p, tx, handle, is_open);
            let inviting = if tx.last_response is None {
                handling::sent(d, tx, h, Ok(())).1
            } else {
                h
            };
            let (e, k, reply) = handling::received(
                d,
                ep,
                addrs,
                branch,
                tx,
                inviting,
                Some(SipMessageView::Request(cancel)),
            );
            let (f, _, end) = handling::sent(e, tx, k, Ok(()));
            &&& ep == p.1
            &&& d.state == DialogStateView::Calling(p.0.id)
            &&& d.notifications == p.0.notifications.push(d.state)
            &&& d.remote_seq == number_in(tx.original)
            &&& tx.last_response is None <==> step == HandleStepView::Trying
            &&& tx.last_response is Some <==> step == HandleStepView::Receive
            &&& reply == HandleStepView::Reply(StatusCode::RequestTerminated)
            &&& has_entered(
                d,
                f,
                DialogStateView::Terminated(p.0.id, TerminatedReason::UacCancel),
            )
            &&& end == HandleStepView::Done(Ok(()))
        }),
{
    reveal(handling::handled);
}

/// Before the call is established, a server hands an ACK on to the transaction of
/// the INVITE as it came, answers a BYE with 200 and is over, and does nothing
/// about other requests. A client does nothing about any.
pub proof fn law_request_before_the_call(
    p: DialogAndEndpoint,
    tx: TransactionView,
    handle: TransactionHandle,
    is_open: bool,
)
    requires
        !(p.0.state is Confirmed || p.0.state is Terminated),
        is_in_order(p.0, tx.original),
    ensures
        ({
            let (ep, (d, h, step)) = handling::handled(p, tx, handle, is_open);
            let m = tx.original.method;
            let server = p.0.role == TransactionRole::Server;
            &&& server && m == Method::Ack && is_open ==> {
                &&& ep.outbox == p.1.outbox.push(
                    (
                        p.0.tu_channel,
                        TransactionEventView::Received(
                            SipMessageView::Request(tx.original),
                            tx.connection,
                        ),
                    ),
                )
                &&& step == HandleStepView::Done(Ok(()))
            }
            &&& server && m == Method::Ack && !is_open ==> ep == p.1 && step
                == HandleStepView::Done(Err(ErrorView::Error("channel closed"@)))
            &&& server && m == Method::Bye ==> {
                &&& step == HandleStepView::Reply(StatusCode::OK)
                &&& d.state == DialogStateView::Terminated(p.0.id, TerminatedReason::UacBye)
            }
            &&& server && (m == Method::Info || m == Method::Update || m == Method::Options || m
                == Method::Refer || m == Method::Message || m == Method::Notify) ==> step
                == HandleStepView::Done(Ok(())) && d.state == p.0.state
            &&& !server ==> step == HandleStepView::Done(Ok(())) && d.state == p.0.state && ep
                == p.1
        }),
{
    reveal(handling::handled);
}

/// A refusal to write the 487 leaves the dialog as it is; and an answer that
/// cannot be sent is replaced by a 501.
pub proof fn law_unsent_answers(
    d: DialogView,
    tx: TransactionView,
    after: After,
    within: u64,
    is_final: bool,
    e: ErrorView,
)
    ensures
        ({
            let (f, _, step) = handling::sent(d, tx, HandlingView::Cancelling, Err(e));
            f == d && step == HandleStepView::Done(Err(e))
        }),
        ({
            let (f, h, step) = handling::sent(
                d,
                tx,
                HandlingView::Answering { is_final, after, within },
                Err(e),
            );
            f == d && h == HandlingView::Declining(after) && step == HandleStepView::Reply(
                StatusCode::NotImplemented,
            )
        }),
        ({
            let (f, _, step) = handling::sent(d, tx, HandlingView::Replying(Ok(())), Err(e));
            f == d && step == HandleStepView::Done(Err(e))
        }),
{
}

/// A call that is accepted with another Contact is told of by that one alone.
pub proof fn law_public_contact_is_told(
    p: DialogAndEndpoint,
    headers: Option<Seq<HeaderView>>,
    contact: NameAddrView,
    body: Seq<u8>,
)
    requires
        p.0.role == TransactionRole::Server,
        !(p.0.state is Confirmed || p.0.state is Terminated),
    ensures
        ({
            let all = invite_dialog::with_one_more(
                headers,
                HeaderView::Contact(FieldView::Typed(contact)),
            );
            let (q, r) = invite_dialog::accepted(p, true, all, body);
            &&& r is Ok
            &&& q.0.state matches DialogStateView::WaitAck(_, resp)
            &&& resp.status_code == StatusCode::OK && resp.body == body
            &&& header::of_kind(resp.headers, HeaderKind::Contact) == seq![
                HeaderView::Contact(FieldView::Typed(contact)),
            ]
            &&& tells_to_send(p, q.1, resp)
        }),
{
    let h = HeaderView::Contact(FieldView::Typed(contact));
    let all = invite_dialog::with_one_more(headers, h)->0;
    assert(all[all.len() - 1] == h);
    message_laws::law_response_says_what_is_given(
        p.0,
        p.1.user_agent,
        p.0.initial_request,
        StatusCode::OK,
        all,
        body,
        all.len() - 1,
    );
    reveal(responses::response_in);
}

/// Where the ACK of an answer other than a 2xx does not come, nothing happens; and
/// while a server waits for its ACK, anything else is waited over.
pub proof fn law_wait_for_the_ack_changes_nothing(
    d: DialogView,
    ep: EndpointView,
    addrs: Seq<SipAddrView>,
    branch: Seq<char>,
    tx: TransactionView,
    h: HandlingView,
    req: RequestView,
)
    requires
        h is AwaitingAck || h is Inviting,
    ensures
        handling::received(
            d,
            ep,
            addrs,
            branch,
            tx,
            HandlingView::AwaitingAck { answered_2xx: false },
            None,
        ) == (d, HandlingView::Over, HandleStepView::Done(Ok(()))),
        !(d.state is WaitAck) ==> handling::received(
            d,
            ep,
            addrs,
            branch,
            tx,
            HandlingView::Inviting,
            None,
        ) == (d, HandlingView::Over, HandleStepView::Done(Ok(()))),
        req.method != Method::Ack && req.method != Method::Cancel ==> handling::received(
            d,
            ep,
            addrs,
            branch,
            tx,
            h,
            Some(SipMessageView::Request(req)),
        ) == (d, h, HandleStepView::Receive),
{
}

/// An INVITE that is told to a server again after the first time changes nothing but
/// the peer's number; a PRACK gets 200 where its RAck can be read, and 400 where
/// not.
pub proof fn law_server_before_its_answer(
    p: DialogAndEndpoint,
    tx: TransactionView,
    handle: TransactionHandle,
    is_open: bool,
)
    requires
        p.0.role == TransactionRole::Server,
        p.0.state is Trying || p.0.state is Early || p.0.state is WaitAck || p.0.state is Calling,
        is_in_order(p.0, tx.original),
    ensures
        ({
            let (ep, (d, h, step)) = handling::handled(p, tx, handle, is_open);
            &&& ep == p.1 || tx.original.method == Method::Ack
            &&& d.remote_seq == number_in(tx.original) && is_same_call(p.0, d)
            &&& tx.original.method == Method::Invite && !(p.0.state is Calling) ==> {
                &&& step == HandleStepView::Receive && h == HandlingView::Inviting
                &&& d.state == p.0.state && d.notifications == p.0.notifications
            }
            &&& tx.original.method == Method::PRack ==> {
                &&& step == HandleStepView::Reply(
                    if header::first_rack(tx.original.headers) is Some && message::is_rack(
                        header::first_rack(tx.original.headers)->0,
                    ) {
                        StatusCode::OK
                    } else {
                        StatusCode::BadRequest
                    },
                )
                &&& d.state == p.0.state && d.notifications == p.0.notifications
            }
        }),
{
    reveal(handling::handled);
}

}

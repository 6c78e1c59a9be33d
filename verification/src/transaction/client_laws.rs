//! What holds of a request that a client sends, from its first write to its final
//! response.

use super::endpoint::{EndpointView, TransactionEventView};
use super::message as build;
use super::timer::TransactionTimerView;
use super::transaction;
use super::transaction::{
    Both, OutcomeView, PendingView, TransactionState, TransactionType, TransactionView, TxStepView,
};
use crate::dialog::id;
use crate::error::ErrorView;
use crate::lists;
use crate::sip::basic::Method;
use crate::sip::header;
use crate::sip::header::{CSeq, FieldView, HeaderKind, HeaderView};
use crate::sip::message;
use crate::sip::message::{RequestView, ResponseView, SipMessageView};
use crate::sip::status::{StatusCode, StatusCodeKind};
use crate::sip::uri::{NameAddrView, ParamView, UriView, ViaView};
use crate::transport::connection::SipConnectionView;
use crate::transport::sip_addr::SipAddrView;
use vstd::prelude::*;

verus! {

/// A timer runs under the number `id`, and fires after `delay`.
pub open spec fn runs(
    ep: EndpointView,
    id: Option<u64>,
    delay: u64,
    timer: TransactionTimerView,
) -> bool {
    id matches Some(i) && ep.timers.pending.contains_key(i) && ep.timers.pending[i].delay == delay
        && ep.timers.pending[i].timer == timer
}

/// No timer runs under the number `id`.
pub open spec fn is_stopped(ep: EndpointView, id: Option<u64>) -> bool {
    id matches Some(i) ==> !ep.timers.pending.contains_key(i)
}

/// The numbers of the transaction's timers lie behind the clock, and the clock is
/// not about to start again at zero.
pub open spec fn clock_goes_on(p: Both) -> bool {
    let n = p.1.timers.next_id;
    &&& n < u64::MAX - 8
    &&& p.0.timer_a matches Some(t) ==> t < n
    &&& p.0.timer_b matches Some(t) ==> t < n
    &&& p.0.timer_c matches Some(t) ==> t < n
    &&& p.0.timer_d matches Some(t) ==> t < n
    &&& p.0.timer_k matches Some(t) ==> t < n
    &&& p.0.timer_g matches Some(t) ==> t < n
}

pub open spec fn is_client(tx: TransactionView) -> bool {
    tx.transaction_type == TransactionType::ClientInvite || tx.transaction_type
        == TransactionType::ClientNonInvite
}

/// The request and its way are as they were.
pub open spec fn is_same_request(a: TransactionView, b: TransactionView) -> bool {
    &&& a.transaction_type == b.transaction_type && a.key == b.key && a.channel == b.channel
    &&& a.original == b.original
    &&& a.connection == b.connection && a.destination == b.destination
    &&& a.retransmission == b.retransmission
}

/// A new transaction runs on a channel of its own, under its name, with nothing
/// received and no timer running. A client has yet to send its request, and a
/// server has yet to answer.
pub proof fn law_new_transaction_is_known(
    ep: EndpointView,
    method: Method,
    key: Seq<char>,
    original: RequestView,
    connection: Option<SipConnectionView>,
)
    ensures
        ({
            let (tx, after) = transaction::created(
                ep,
                transaction::client_type(method),
                key,
                original,
                connection,
            );
            &&& tx.transaction_type == if method == Method::Invite {
                TransactionType::ClientInvite
            } else {
                TransactionType::ClientNonInvite
            }
            &&& tx.state == TransactionState::Nothing
            &&& tx.key == key && tx.original == original && tx.connection == connection
            &&& tx.destination is None && tx.last_response is None && tx.last_ack is None
            &&& tx.timer_a is None && tx.timer_b is None && tx.timer_c is None
            &&& tx.timer_d is None && tx.timer_k is None && tx.timer_g is None
            &&& tx.retransmission && !tx.is_cleaned_up
            &&& after.transactions == ep.transactions.insert(key, tx.channel)
            &&& ep.next_channel < u64::MAX ==> after.next_channel == tx.channel + 1
            &&& after.finished == ep.finished && after.timers == ep.timers
        }),
        ({
            let (tx, after) = transaction::created(
                ep,
                transaction::server_type(method),
                key,
                original,
                connection,
            );
            &&& tx.transaction_type == if method == Method::Invite || method == Method::Ack {
                TransactionType::ServerInvite
            } else {
                TransactionType::ServerNonInvite
            }
            &&& tx.state == TransactionState::Trying
            &&& tx.key == key && tx.original == original && tx.connection == connection
            &&& tx.last_response is None && tx.timer_g is None && tx.timer_k is None
            &&& after.transactions == ep.transactions.insert(key, tx.channel)
        }),
{
}

/// The request goes out over the connection that the transaction has. Without one
/// a connection is looked up to where the request is to go: to the destination
/// set beforehand, or else to the first Route, or else to its URI; a locator is
/// asked about the latter two.
pub proof fn law_request_goes_to_its_target(p: Both, uri: UriView)
    requires
        is_client(p.0),
        uri == match header::first_route(p.0.original.headers) {
            Some(FieldView::Typed(r)) => r.uri,
            _ => p.0.original.uri,
        },
    ensures
        ({
            let (q, step) = transaction::send(p);
            &&& q.1 == p.1
            &&& q.0.state == p.0.state
            &&& p.0.connection is Some ==> (step matches TxStepView::Write {
                message: SipMessageView::Request(r),
                connection,
                ..
            } && connection == p.0.connection && r.method == p.0.original.method && r.uri
                == p.0.original.uri && r.body == p.0.original.body && q.0.original == r)
            &&& p.0.connection is None && p.0.destination is Some ==> step == (
            TxStepView::Lookup { target: p.0.destination->0 })
            &&& p.0.connection is None && p.0.destination is None && p.1.has_locator ==> step == (
            TxStepView::Locate { uri })
            &&& p.0.connection is None && p.0.destination is None && !p.1.has_locator ==> (
            step matches TxStepView::Lookup { target } && target.addr == uri.host_with_port
                && target.transport == uri.transport())
        }),
{
}

/// The request that goes out keeps its headers but for the length, of which there
/// is exactly one, that of the body.
pub proof fn law_written_request_has_its_length(p: Both, kind: HeaderKind)
    requires
        is_client(p.0),
        p.0.connection is Some,
        p.0.original.body.len() <= u32::MAX,
    ensures
        transaction::send(p).1 matches TxStepView::Write {
            message: SipMessageView::Request(r),
            ..
        } && header::of_kind(r.headers, HeaderKind::ContentLength) == seq![
            HeaderView::ContentLength(p.0.original.body.len() as u32),
        ] && (kind != HeaderKind::ContentLength ==> header::of_kind(r.headers, kind)
            == header::of_kind(p.0.original.headers, kind)),
{
    let length = HeaderView::ContentLength(p.0.original.body.len() as u32);
    let all = p.0.original.headers;
    let kept = header::without(all, HeaderKind::ContentLength);
    header::lemma_of_kind_without(all, HeaderKind::ContentLength, HeaderKind::ContentLength);
    header::lemma_of_kind_without(all, HeaderKind::ContentLength, kind);
    header::lemma_of_kind_push(kept, length, HeaderKind::ContentLength);
    header::lemma_of_kind_push(kept, length, kind);
}

/// A destination is set before the request is written over a reliable connection:
/// the peer of that connection, unless there was one already. Over UDP it is the
/// one set, or the one that the lookup came to.
pub proof fn law_destination_is_known_when_written(
    p: Both,
    c: SipConnectionView,
    found: SipAddrView,
)
    requires
        is_client(p.0),
        p.0.pending == PendingView::Idle,
    ensures
        p.0.connection == Some(c) ==> (transaction::send(p).1 matches TxStepView::Write {
            destination,
            ..
        } && destination == match p.0.destination {
            Some(d) => Some(d),
            None => if c is Udp {
                None
            } else {
                c.remote_addr()
            },
        }),
        transaction::looked_up(p, PendingView::SendLookup, Ok((c, found))).1
            matches TxStepView::Write { connection, destination, .. } && connection == Some(c)
            && destination == Some(found),
{
}

/// Once the request was written, or could not be, the transaction waits for the
/// answer: Timer B runs for 64*T1. Over UDP, or without a connection, Timer A runs
/// for T1, after which the request is sent again; over any other connection none
/// is needed.
pub proof fn law_sent_request_starts_its_timers(
    p: Both,
    sent: SipMessageView,
    r: Result<(), ErrorView>,
)
    requires
        is_client(p.0),
        p.0.state == TransactionState::Nothing,
        p.0.timer_a is None,
        clock_goes_on(p),
    ensures
        ({
            let (q, step) = transaction::written(p, PendingView::SendWrite, sent, r);
            &&& step == TxStepView::Done(OutcomeView::Complete)
            &&& q.0.state == TransactionState::Calling
            &&& is_same_request(p.0, q.0)
            &&& r is Ok || p.0.connection is None || p.0.connection->0 is Udp ==> q.1.outbox
                == p.1.outbox
            &&& runs(q.1, q.0.timer_b, p.1.option.t1x64, TransactionTimerView::TimerB(p.0.key))
            &&& (p.0.connection is None || p.0.connection->0 is Udp) ==> runs(
                q.1,
                q.0.timer_a,
                p.1.option.t1,
                TransactionTimerView::TimerA(p.0.key, p.1.option.t1),
            )
            &&& (p.0.connection is Some && !(p.0.connection->0 is Udp)) ==> q.0.timer_a is None
        }),
{
    reveal(transaction::stepped);
}

/// When Timer A fires before any response but 100, the very same request is
/// written again to the same peer, and the next interval is twice the last, up to
/// 64*T1.
pub proof fn law_request_is_sent_again(
    p: Both,
    interval: u64,
    branch: Seq<char>,
    sent: SipMessageView,
)
    requires
        is_client(p.0),
        p.0.state == TransactionState::Calling || p.0.state == TransactionState::Trying,
        p.0.retransmission,
        p.0.connection is Some,
        clock_goes_on(p),
    ensures
        ({
            let (q, step) = transaction::event_received(
                p,
                TransactionEventView::Timer(TransactionTimerView::TimerA(p.0.key, interval)),
                branch,
            );
            let (after, end) = transaction::written(q, q.0.pending, sent, Ok(()));
            let next = if 2 * interval <= p.1.option.t1x64 {
                (2 * interval) as u64
            } else {
                p.1.option.t1x64
            };
            &&& step == (TxStepView::Write {
                message: SipMessageView::Request(p.0.original),
                connection: p.0.connection,
                destination: p.0.destination,
            })
            &&& end == TxStepView::Done(OutcomeView::Complete)
            &&& after.0.state == p.0.state && is_same_request(p.0, after.0)
            &&& runs(
                after.1,
                after.0.timer_a,
                next,
                TransactionTimerView::TimerA(p.0.key, next),
            )
        }),
{
}

/// A request that has no connection yet looks for one again when Timer A fires.
pub proof fn law_lookup_is_tried_again(p: Both, interval: u64, branch: Seq<char>)
    requires
        is_client(p.0),
        p.0.state == TransactionState::Calling || p.0.state == TransactionState::Trying,
        p.0.retransmission,
        p.0.connection is None,
        p.0.destination is Some,
    ensures
        transaction::event_received(
            p,
            TransactionEventView::Timer(TransactionTimerView::TimerA(p.0.key, interval)),
            branch,
        ).1 == (TxStepView::Lookup { target: p.0.destination->0 }),
{
}

/// A request is not sent again once its retransmissions are stopped.
pub proof fn law_stopped_request_is_not_sent_again(p: Both, interval: u64, branch: Seq<char>)
    requires
        !p.0.retransmission,
    ensures
        transaction::event_received(
            p,
            TransactionEventView::Timer(TransactionTimerView::TimerA(p.0.key, interval)),
            branch,
        ) == (p, TxStepView::Done(OutcomeView::Complete)),
{
}

/// A request without an answer ends in a 408 that is made here: Timer B brings it
/// before any response but 100, and Timer C after another provisional response.
pub proof fn law_request_times_out(p: Both, branch: Seq<char>)
    requires
        is_client(p.0),
    ensures
        ({
            let t = if p.0.state == TransactionState::Proceeding {
                TransactionTimerView::TimerC(p.0.key)
            } else {
                TransactionTimerView::TimerB(p.0.key)
            };
            let (q, step) = transaction::event_received(p, TransactionEventView::Timer(t), branch);
            (p.0.state == TransactionState::Calling || p.0.state == TransactionState::Trying
                || p.0.state == TransactionState::Proceeding) ==> {
                &&& step == TxStepView::Done(OutcomeView::Complete)
                &&& q.0 == p.0
                &&& q.1.outbox.len() == p.1.outbox.len() + 1
                &&& q.1.outbox.drop_last() == p.1.outbox
                &&& q.1.outbox.last().0 == p.0.channel
                &&& q.1.outbox.last().1 matches TransactionEventView::Local(r) && r.status_code
                    == StatusCode::RequestTimeout && r.version == p.0.original.version
                    && r.body.len() == 0
            }
        }),
{
    reveal(build::response_to);
}

/// A response that is made here is handled as one that came in.
pub proof fn law_local_response_is_a_response(p: Both, resp: ResponseView, branch: Seq<char>)
    ensures
        transaction::event_received(p, TransactionEventView::Local(resp), branch)
            == transaction::event_received(
            p,
            TransactionEventView::Received(SipMessageView::Response(resp), None),
            branch,
        ),
{
}

/// The first provisional response reaches the user and stops the retransmissions.
/// The time for an INVITE is now that of Timer C; any other request keeps its
/// Timer B.
pub proof fn law_provisional_response_stops_retransmissions(
    p: Both,
    resp: ResponseView,
    c: Option<SipConnectionView>,
    branch: Seq<char>,
)
    requires
        is_client(p.0),
        p.0.state == TransactionState::Calling,
        resp.status_code.spec_kind() == StatusCodeKind::Provisional,
        p.0.timer_c is None,
        clock_goes_on(p),
        p.0.timer_a != p.0.timer_b || p.0.timer_a is None,
    ensures
        ({
            let (q, step) = transaction::event_received(
                p,
                TransactionEventView::Received(SipMessageView::Response(resp), c),
                branch,
            );
            &&& step == TxStepView::Done(OutcomeView::Message(SipMessageView::Response(resp)))
            &&& q.0.last_response == Some(resp) && is_same_request(p.0, q.0)
            &&& q.0.state == if resp.status_code == StatusCode::Trying {
                TransactionState::Trying
            } else {
                TransactionState::Proceeding
            }
            &&& q.0.timer_a is None && is_stopped(q.1, p.0.timer_a)
            &&& p.0.transaction_type == TransactionType::ClientInvite ==> {
                &&& q.0.timer_b is None && is_stopped(q.1, p.0.timer_b)
                &&& runs(
                    q.1,
                    q.0.timer_c,
                    p.1.option.timerc,
                    TransactionTimerView::TimerC(p.0.key),
                )
            }
            &&& p.0.transaction_type == TransactionType::ClientNonInvite ==> {
                &&& q.0.timer_b == p.0.timer_b
                &&& p.0.timer_b matches Some(b) ==> q.1.timers.pending.contains_key(b)
                    == p.1.timers.pending.contains_key(b)
            }
        }),
{
    reveal(transaction::stepped);
}

/// The final response to a request other than an INVITE reaches the user, and the
/// transaction is over: no timer runs, and its name is free.
pub proof fn law_final_response_ends_the_request(
    p: Both,
    resp: ResponseView,
    c: Option<SipConnectionView>,
    branch: Seq<char>,
)
    requires
        p.0.transaction_type == TransactionType::ClientNonInvite,
        p.0.state == TransactionState::Calling || p.0.state == TransactionState::Trying
            || p.0.state == TransactionState::Proceeding,
        resp.status_code.spec_kind() != StatusCodeKind::Provisional,
        !p.0.is_cleaned_up,
    ensures
        ({
            let (q, step) = transaction::event_received(
                p,
                TransactionEventView::Received(SipMessageView::Response(resp), c),
                branch,
            );
            &&& step == TxStepView::Done(OutcomeView::Message(SipMessageView::Response(resp)))
            &&& q.0.state == TransactionState::Terminated
            &&& is_stopped(q.1, p.0.timer_a) && is_stopped(q.1, p.0.timer_b)
            &&& !q.1.transactions.contains_key(p.0.key)
            &&& q.1.finished == p.1.finished
            &&& q.1.outbox.last() == (p.0.channel, TransactionEventView::Terminate(p.0.key))
        }),
{
    reveal(transaction::stepped);
}

/// The final response to an INVITE is acknowledged before the user gets it: the
/// transaction is completed, its retransmissions and time-outs are stopped, and an
/// ACK goes out. Once the ACK was written, or could not be, the user gets the
/// response and the transaction is over, with its ACK kept for when the response
/// comes in again.
pub proof fn law_final_response_to_an_invite_is_acknowledged(
    p: Both,
    resp: ResponseView,
    c: Option<SipConnectionView>,
    branch: Seq<char>,
    ack: RequestView,
    r: Result<(), ErrorView>,
)
    requires
        p.0.transaction_type == TransactionType::ClientInvite,
        p.0.state == TransactionState::Calling || p.0.state == TransactionState::Trying
            || p.0.state == TransactionState::Proceeding,
        resp.status_code.spec_kind() != StatusCodeKind::Provisional,
        resp.status_code.spec_kind() == StatusCodeKind::Successful ==> (c is Some && !(
        c->0 is Udp)),
        p.0.last_ack is None,
        !p.0.is_cleaned_up,
        build::ack_for(p.0.original, resp, branch, p.1.user_agent) == Ok::<_, ErrorView>(ack),
        clock_goes_on(p),
    ensures
        ({
            let (q, step) = transaction::event_received(
                p,
                TransactionEventView::Received(SipMessageView::Response(resp), c),
                branch,
            );
            let (after, end) = transaction::written(
                q,
                q.0.pending,
                SipMessageView::Request(ack),
                r,
            );
            &&& q.0.state == TransactionState::Completed && q.0.last_response == Some(resp)
            &&& is_same_request(p.0, q.0)
            &&& is_stopped(q.1, p.0.timer_a) && is_stopped(q.1, p.0.timer_b) && is_stopped(
                q.1,
                p.0.timer_c,
            )
            &&& runs(q.1, q.0.timer_d, p.1.option.t1x64, TransactionTimerView::TimerD(p.0.key))
            &&& step == (TxStepView::Write {
                message: SipMessageView::Request(ack),
                connection: c,
                destination: p.0.destination,
            })
            &&& end == TxStepView::Done(OutcomeView::Message(SipMessageView::Response(resp)))
            &&& after.0.state == TransactionState::Terminated
            &&& after.1.finished.contains_key(p.0.key) && after.1.finished[p.0.key] == Some(
                SipMessageView::Request(ack),
            )
            &&& !after.1.transactions.contains_key(p.0.key)
        }),
{
    reveal(transaction::stepped);
}

/// The ACK of a 2xx that came in over UDP finds its own way: to the first Route of
/// the ACK, or else to its URI.
pub proof fn law_ack_of_2xx_finds_its_way(
    p: Both,
    resp: ResponseView,
    c: Option<SipConnectionView>,
    branch: Seq<char>,
    ack: RequestView,
)
    requires
        p.0.transaction_type == TransactionType::ClientInvite,
        p.0.state == TransactionState::Calling || p.0.state == TransactionState::Trying
            || p.0.state == TransactionState::Proceeding,
        resp.status_code.spec_kind() == StatusCodeKind::Successful,
        c is None || c->0 is Udp,
        p.0.last_ack is None,
        build::ack_for(p.0.original, resp, branch, p.1.user_agent) == Ok::<_, ErrorView>(ack),
    ensures
        ({
            let uri = match header::first_route(ack.headers) {
                Some(FieldView::Typed(r)) => r.uri,
                _ => ack.uri,
            };
            let step = transaction::event_received(
                p,
                TransactionEventView::Received(SipMessageView::Response(resp), c),
                branch,
            ).1;
            &&& p.1.has_locator ==> step == (TxStepView::Locate { uri })
            &&& !p.1.has_locator ==> (step matches TxStepView::Lookup { target } && target.addr
                == uri.host_with_port && target.transport == uri.transport())
        }),
{
    reveal(transaction::stepped);
}

/// The ACK of a response other than a 2xx goes the way of the INVITE: with its
/// Via, its URI and its Routes. It names the dialog of the response and the number
/// of the INVITE.
pub proof fn law_ack_of_a_refusal(
    original: RequestView,
    resp: ResponseView,
    branch: Seq<char>,
    user_agent: Seq<char>,
    ack: RequestView,
)
    requires
        resp.status_code.spec_kind() != StatusCodeKind::Successful,
        build::ack_for(original, resp, branch, user_agent) == Ok::<_, ErrorView>(ack),
    ensures
        ack.method == Method::Ack,
        ack.uri == original.uri,
        ack.body.len() == 0,
        header::first_via(ack.headers) == header::first_via(original.headers),
        header::first_from(ack.headers) == header::first_from(original.headers),
        header::first_call_id(ack.headers) == header::first_call_id(original.headers),
        header::first_to(ack.headers) == header::first_to(resp.headers),
        header::of_kind(ack.headers, HeaderKind::Route) == header::of_kind(
            original.headers,
            HeaderKind::Route,
        ),
        message::cseq_of(ack.headers) == Ok::<_, ErrorView>(
            CSeq { seq: (message::cseq_of(original.headers)->Ok_0).seq, method: Method::Ack },
        ),
{
    reveal(build::ack_for);
    lemma_ack_headers(original, resp, branch, user_agent, ack);
    lemma_routes_kept(original.headers);
}

/// The ACK of a 2xx is a request of its own: with a new branch, to the Contact of
/// the 2xx, and along the Record-Routes of the 2xx in the opposite order. It names
/// the dialog of the 2xx and the number of the INVITE.
pub proof fn law_ack_of_a_2xx(
    original: RequestView,
    resp: ResponseView,
    branch: Seq<char>,
    user_agent: Seq<char>,
    ack: RequestView,
    via: ViaView,
    contact: NameAddrView,
)
    requires
        resp.status_code.spec_kind() == StatusCodeKind::Successful,
        build::ack_for(original, resp, branch, user_agent) == Ok::<_, ErrorView>(ack),
        header::first_via(original.headers) == Some(FieldView::Typed(via)),
        header::first_contact(resp.headers) == Some(FieldView::Typed(contact)),
    ensures
        ack.method == Method::Ack,
        ack.uri == contact.uri,
        ack.body.len() == 0,
        header::first_via(ack.headers) matches Some(FieldView::Typed(v)) && v.transport
            == via.transport && v.uri == via.uri && v.params.len() == via.params.len() && forall|
            i: int,
        |
            0 <= i < v.params.len() ==> #[trigger] v.params[i] == if via.params[i] is Branch {
                ParamView::Branch(branch)
            } else {
                via.params[i]
            },
        header::first_from(ack.headers) == header::first_from(original.headers),
        header::first_call_id(ack.headers) == header::first_call_id(original.headers),
        header::first_to(ack.headers) == header::first_to(resp.headers),
        ({
            let routes = header::of_kind(ack.headers, HeaderKind::Route);
            let recorded = header::of_kind(resp.headers, HeaderKind::RecordRoute);
            routes.len() == recorded.len() && forall|i: int|
                0 <= i < routes.len() ==> (#[trigger] routes[i] matches HeaderView::Route(f)
                    && recorded[recorded.len() - 1 - i] == HeaderView::RecordRoute(f))
        }),
        message::cseq_of(ack.headers) == Ok::<_, ErrorView>(
            CSeq { seq: (message::cseq_of(original.headers)->Ok_0).seq, method: Method::Ack },
        ),
{
    reveal(build::ack_for);
    lemma_ack_headers(original, resp, branch, user_agent, ack);
    crate::sip::laws::law_record_routes_are_in_order(resp.headers);
}

proof fn lemma_routes_kept(headers: Seq<HeaderView>)
    ensures
        build::route_headers(build::routes(headers)) == header::of_kind(
            headers,
            HeaderKind::Route,
        ),
    decreases headers.len(),
{
    reveal(Seq::filter);
    let found = build::routes(headers);
    if headers.len() > 0 {
        let rest = headers.drop_last();
        lemma_routes_kept(rest);
        if headers.last() is Route {
            assert(build::route_headers(found) == build::route_headers(build::routes(rest)).push(
                headers.last(),
            ));
        }
    } else {
        assert(build::route_headers(found) == Seq::<HeaderView>::empty());
    }
}

proof fn lemma_ack_headers(
    original: RequestView,
    resp: ResponseView,
    branch: Seq<char>,
    user_agent: Seq<char>,
    ack: RequestView,
)
    requires
        build::ack_for(original, resp, branch, user_agent) == Ok::<_, ErrorView>(ack),
    ensures
        ack.headers.len() > 0,
        ack.headers[0] is Via,
        header::first_via(ack.headers) == header::as_via(ack.headers[0]),
        header::first_from(ack.headers) == header::first_from(original.headers),
        header::first_call_id(ack.headers) == header::first_call_id(original.headers),
        header::first_to(ack.headers) == header::first_to(resp.headers),
        header::first_cseq(ack.headers) == Some(
            FieldView::Typed(
                CSeq {
                    seq: (message::cseq_of(original.headers)->Ok_0).seq,
                    method: Method::Ack,
                },
            ),
        ),
        header::of_kind(ack.headers, HeaderKind::Route) == build::route_headers(
            if resp.status_code.spec_kind() == StatusCodeKind::Successful {
                message::record_routes(resp.headers).reverse()
            } else {
                build::routes(original.headers)
            },
        ),
{
    reveal(build::ack_for);
    let set = if resp.status_code.spec_kind() == StatusCodeKind::Successful {
        message::record_routes(resp.headers).reverse()
    } else {
        build::routes(original.headers)
    };
    let routes = build::route_headers(set);
    let n = 1 + routes.len() as int;
    assert(forall|j: int| 1 <= j < n ==> #[trigger] ack.headers[j] is Route);
    assert(ack.headers.len() == n + 7);
    assert(ack.headers[n] is From);
    assert(ack.headers[n + 1] is To);
    assert(ack.headers[n + 2] is CallId);
    assert(ack.headers[n + 3] is CSeq);
    lists::law_first_of_is_the_first(ack.headers, 0, |h: HeaderView| header::as_via(h));
    lists::law_first_of_is_the_first(ack.headers, n, |h: HeaderView| header::as_from(h));
    lists::law_first_of_is_the_first(ack.headers, n + 1, |h: HeaderView| header::as_to(h));
    lists::law_first_of_is_the_first(ack.headers, n + 2, |h: HeaderView| header::as_call_id(h));
    lists::law_first_of_is_the_first(ack.headers, n + 3, |h: HeaderView| header::as_cseq(h));
    assert(ack.headers.subrange(1, n) == routes);
    lemma_routes_between(ack.headers, routes);
}

proof fn lemma_routes_between(headers: Seq<HeaderView>, routes: Seq<HeaderView>)
    requires
        headers.len() > routes.len(),
        !(headers[0] is Route),
        headers.subrange(1, 1 + routes.len() as int) == routes,
        forall|i: int| 0 <= i < routes.len() ==> #[trigger] routes[i] is Route,
        forall|i: int| routes.len() < i < headers.len() ==> !(#[trigger] headers[i] is Route),
    ensures
        header::of_kind(headers, HeaderKind::Route) == routes,
{
    let top = headers.take(1);
    let rest = headers.skip(1 + routes.len() as int);
    assert(headers == top + (routes + rest));
    let is_route = |h: HeaderView| h.kind() == HeaderKind::Route;
    Seq::filter_distributes_over_add(top, routes + rest, is_route);
    Seq::filter_distributes_over_add(routes, rest, is_route);
    top.lemma_all_neg_filter_empty(is_route);
    rest.lemma_all_neg_filter_empty(is_route);
    lists::lemma_filter_all(routes, is_route);
}

/// A CANCEL goes out over the connection of its INVITE, to the same place, and
/// leaves the transaction of the INVITE as it is.
pub proof fn law_cancel_follows_its_invite(p: Both, cancel: RequestView, r: Result<(), ErrorView>)
    requires
        p.0.transaction_type == TransactionType::ClientInvite,
        p.0.state == TransactionState::Calling || p.0.state == TransactionState::Trying
            || p.0.state == TransactionState::Proceeding,
        p.0.connection is Some,
    ensures
        ({
            let (q, step) = transaction::send_cancel(p, cancel);
            let (after, end) = transaction::written(
                q,
                q.0.pending,
                SipMessageView::Request(cancel),
                r,
            );
            &&& step == (TxStepView::Write {
                message: SipMessageView::Request(cancel),
                connection: p.0.connection,
                destination: p.0.destination,
            })
            &&& after.1 == p.1
            &&& after.0.state == p.0.state && after.0.original == p.0.original
            &&& r is Ok <==> end == TxStepView::Done(OutcomeView::Complete)
        }),
{
}

/// Where the target of a request is located, a connection to it is looked up; where
/// it cannot be located, the request fails, an ACK goes out over the connection
/// that its response came in on, and a retransmission takes the connection that
/// there is.
pub proof fn law_located_target_is_looked_up(
    p: Both,
    addr: SipAddrView,
    e: ErrorView,
    ack: RequestView,
    c: Option<SipConnectionView>,
    answer: Option<ResponseView>,
    k: Seq<char>,
    interval: u64,
)
    ensures
        transaction::located(p, PendingView::SendLocate, Ok(addr)).1 == (TxStepView::Lookup {
            target: addr,
        }),
        transaction::located(p, PendingView::SendLocate, Err(e)) == (
            p,
            TxStepView::Done(OutcomeView::Failed(e)),
        ),
        transaction::located(p, PendingView::AckLocate { ack, connection: c, answer }, Ok(addr)).1
            == (TxStepView::Lookup { target: addr }),
        transaction::located(p, PendingView::AckLocate { ack, connection: c, answer }, Err(e)).1
            == (TxStepView::Write {
            message: SipMessageView::Request(ack),
            connection: c,
            destination: p.0.destination,
        }),
        transaction::located(p, PendingView::RetryLocate { key: k, interval }, Ok(addr)).1 == (
        TxStepView::Lookup { target: addr }),
{
}

/// The connection that is found for a request is the one that it goes out on, to
/// the address that the search came to. A request for which none is found is
/// written without one.
pub proof fn law_request_takes_the_connection_found(
    p: Both,
    c: SipConnectionView,
    addr: SipAddrView,
    e: ErrorView,
    k: Seq<char>,
    interval: u64,
)
    requires
        p.0.connection is None,
        clock_goes_on(p),
    ensures
        ({
            let (q, step) = transaction::looked_up(p, PendingView::SendLookup, Ok((c, addr)));
            &&& q.0.connection == Some(c) && q.0.destination == Some(addr) && q.1 == p.1
            &&& step matches TxStepView::Write { connection, destination, .. } && connection
                == Some(c) && destination == Some(addr)
        }),
        ({
            let (q, step) = transaction::looked_up(p, PendingView::SendLookup, Err(e));
            &&& q.0.connection is None
            &&& step matches TxStepView::Write { connection, destination, .. }
                && connection is None && destination == p.0.destination
        }),
        ({
            let (q, step) = transaction::looked_up(
                p,
                PendingView::RetryLookup { key: k, interval },
                Ok((c, addr)),
            );
            &&& q.0.connection == Some(c) && q.0.destination == Some(addr)
            &&& step == (TxStepView::Write {
                message: SipMessageView::Request(p.0.original),
                connection: Some(c),
                destination: Some(addr),
            })
        }),
        ({
            let (q, step) = transaction::looked_up(
                p,
                PendingView::RetryLookup { key: k, interval },
                Err(e),
            );
            let next = if 2 * interval <= p.1.option.t1x64 {
                (2 * interval) as u64
            } else {
                p.1.option.t1x64
            };
            &&& step == TxStepView::Done(OutcomeView::Complete)
            &&& runs(q.1, q.0.timer_a, next, TransactionTimerView::TimerA(k, next))
        }),
{
}

/// The ACK of a 2xx goes out on the connection that is found for it: over UDP to
/// the address that the search came to. Without one it goes out over the
/// connection that its response came in on.
pub proof fn law_ack_takes_the_connection_found(
    p: Both,
    ack: RequestView,
    c: Option<SipConnectionView>,
    answer: Option<ResponseView>,
    found: SipConnectionView,
    addr: SipAddrView,
    e: ErrorView,
)
    ensures
        transaction::looked_up(
            p,
            PendingView::AckLookup { ack, connection: c, answer },
            Ok((found, addr)),
        ).1 == (TxStepView::Write {
            message: SipMessageView::Request(ack),
            connection: Some(found),
            destination: if found is Udp {
                Some(addr)
            } else {
                p.0.destination
            },
        }),
        transaction::looked_up(
            p,
            PendingView::AckLookup { ack, connection: c, answer },
            Err(e),
        ).1 == (TxStepView::Write {
            message: SipMessageView::Request(ack),
            connection: c,
            destination: p.0.destination,
        }),
{
}

/// Every further provisional response that differs from the last one reaches the
/// user, and the time for the answer goes on as it was.
pub proof fn law_further_provisional_responses_reach_the_user(
    p: Both,
    resp: ResponseView,
    last: ResponseView,
    c: Option<SipConnectionView>,
    branch: Seq<char>,
)
    requires
        is_client(p.0),
        p.0.state == TransactionState::Proceeding,
        p.0.last_response == Some(last),
        resp.status_code.spec_kind() == StatusCodeKind::Provisional,
        resp.status_code != StatusCode::Trying,
        last.status_code != resp.status_code || last.body != resp.body,
    ensures
        transaction::event_received(
            p,
            TransactionEventView::Received(SipMessageView::Response(resp), c),
            branch,
        ) == (
            (TransactionView { last_response: Some(resp), ..p.0 }, p.1),
            TxStepView::Done(OutcomeView::Message(SipMessageView::Response(resp))),
        ),
{
    reveal(transaction::stepped);
}

/// A client ignores requests, and a server ignores responses.
pub proof fn law_messages_for_the_other_end_are_ignored(
    p: Both,
    req: RequestView,
    resp: ResponseView,
    c: Option<SipConnectionView>,
    branch: Seq<char>,
)
    ensures
        is_client(p.0) ==> transaction::event_received(
            p,
            TransactionEventView::Received(SipMessageView::Request(req), c),
            branch,
        ) == (p, TxStepView::Done(OutcomeView::Complete)),
        !is_client(p.0) ==> transaction::event_received(
            p,
            TransactionEventView::Received(SipMessageView::Response(resp), c),
            branch,
        ) == (p, TxStepView::Done(OutcomeView::Complete)),
{
}

/// A retransmission that cannot be written over a stream ends the flow, and the
/// user learns of it as of a 503 that is made here; over UDP it is tried again
/// later.
pub proof fn law_failed_retransmission(
    p: Both,
    c: SipConnectionView,
    k: Seq<char>,
    interval: u64,
    sent: SipMessageView,
    e: ErrorView,
)
    requires
        p.0.connection == Some(c),
    ensures
        ({
            let (q, step) = transaction::written(
                p,
                PendingView::RetryWrite { key: k, interval },
                sent,
                Err(e),
            );
            let next = if 2 * interval <= p.1.option.t1x64 {
                (2 * interval) as u64
            } else {
                p.1.option.t1x64
            };
            &&& step == TxStepView::Done(OutcomeView::Complete)
            &&& c is Tcp || c is Tls || c is WebSocket ==> {
                &&& q.0 == p.0
                &&& q.1.outbox.len() == p.1.outbox.len() + 1
                &&& q.1.outbox.last().0 == p.0.channel
                &&& q.1.outbox.last().1 matches TransactionEventView::Local(resp)
                    && resp.status_code == StatusCode::ServiceUnavailable
                &&& q.1.transport_layer.inner.is_over(c)
            }
            &&& c is Udp ==> runs(q.1, q.0.timer_a, next, TransactionTimerView::TimerA(k, next))
                && q.1.outbox == p.1.outbox
        }),
{
    reveal(build::response_to);
}

/// A request that cannot be written over a stream ends the flow, and the user
/// learns of it as of a 503 that is made here; the transaction waits all the same.
pub proof fn law_unwritten_request_is_answered_with_503(
    p: Both,
    c: SipConnectionView,
    sent: SipMessageView,
    e: ErrorView,
)
    requires
        is_client(p.0),
        p.0.state == TransactionState::Nothing,
        p.0.connection == Some(c),
        c is Tcp || c is Tls || c is WebSocket,
    ensures
        ({
            let (q, step) = transaction::written(p, PendingView::SendWrite, sent, Err(e));
            &&& q.0.state == TransactionState::Calling
            &&& q.1.outbox.len() == p.1.outbox.len() + 1
            &&& q.1.outbox.last().0 == p.0.channel
            &&& q.1.outbox.last().1 matches TransactionEventView::Local(resp) && resp.status_code
                == StatusCode::ServiceUnavailable
            &&& q.1.transport_layer.inner.is_over(c)
        }),
{
    reveal(transaction::stepped);
    reveal(build::response_to);
}

/// An INVITE that is given up before its final response leaves an ACK behind, for
/// the final response that may still come.
pub proof fn law_unanswered_invite_leaves_an_ack_behind(p: Both, last: ResponseView)
    requires
        p.0.transaction_type == TransactionType::ClientInvite,
        p.0.state == TransactionState::Proceeding || p.0.state == TransactionState::Trying,
        p.0.last_ack is None,
        p.0.last_response == Some(last),
        !p.0.is_cleaned_up,
    ensures
        ({
            let q = transaction::cleaned_up(p);
            &&& q.0.is_cleaned_up
            &&& !q.1.transactions.contains_key(p.0.key)
            &&& build::ack_for(
                p.0.original,
                last,
                transaction::own_branch(p.0.original),
                p.1.user_agent,
            ) matches Ok(ack) ==> q.1.finished.contains_key(p.0.key) && q.1.finished[p.0.key]
                == Some(SipMessageView::Request(ack)) && ack.method == Method::Ack
        }),
{
    reveal(build::ack_for);
}

/// A step from one state to another is allowed forward only: towards the final
/// response and the end, never back.
pub proof fn law_transactions_go_forward(a: TransactionState, b: TransactionState)
    ensures
        b == TransactionState::Nothing ==> !a.may_become(b),
        a == TransactionState::Terminated ==> !a.may_become(b),
        a != TransactionState::Terminated ==> a.may_become(TransactionState::Terminated),
        b == TransactionState::Calling ==> (a.may_become(b) <==> a == TransactionState::Nothing
            || a == TransactionState::Calling),
        b == TransactionState::Trying ==> (a.may_become(b) <==> a == TransactionState::Nothing
            || a == TransactionState::Calling || a == TransactionState::Trying),
        b == TransactionState::Proceeding ==> (a.may_become(b) <==> a
            == TransactionState::Nothing || a == TransactionState::Calling || a
            == TransactionState::Trying || a == TransactionState::Proceeding),
        b == TransactionState::Completed ==> (a.may_become(b) <==> a == TransactionState::Calling
            || a == TransactionState::Trying || a == TransactionState::Proceeding),
        b == TransactionState::Confirmed ==> (a.may_become(b) <==> a == TransactionState::Trying
            || a == TransactionState::Proceeding || a == TransactionState::Completed),
{
}

/// An ACK that the user asks for is the one that was sent before, or else the one
/// for the last response. It is refused before the final response, after the end,
/// and for anything but an INVITE.
pub proof fn law_ack_asked_for_is_sent(
    p: Both,
    c: Option<SipConnectionView>,
    branch: Seq<char>,
    ack: RequestView,
    last: ResponseView,
)
    ensures
        ({
            let (q, step) = transaction::send_ack(p, c, branch, None);
            let can = p.0.transaction_type == TransactionType::ClientInvite && p.0.state
                == TransactionState::Completed;
            let refused = last.status_code.spec_kind() != StatusCodeKind::Successful;
            &&& !can ==> q == p && (step matches TxStepView::Done(OutcomeView::Failed(_)))
            &&& can && p.0.last_ack == Some(ack) && p.0.last_response == Some(last) && refused
                ==> step == (TxStepView::Write {
                message: SipMessageView::Request(ack),
                connection: c,
                destination: p.0.destination,
            })
            &&& can && p.0.last_ack is None && p.0.last_response == Some(last) && refused
                && build::ack_for(p.0.original, last, branch, p.1.user_agent) == Ok::<
                _,
                ErrorView,
            >(ack) ==> step == (TxStepView::Write {
                message: SipMessageView::Request(ack),
                connection: c,
                destination: p.0.destination,
            })
            &&& can && p.0.last_ack is None && p.0.last_response is None ==> q == p && (
            step matches TxStepView::Done(OutcomeView::Failed(_)))
        }),
{
}

}

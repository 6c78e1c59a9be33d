//! What holds of every transaction.

use super::endpoint;
use super::endpoint::{EndpointView, ReceptionView, TransactionEventView};
use super::key;
use super::key::TransactionRole;
use super::message as build;
use super::timer::{TimerEntryView, TransactionTimerView};
use super::transaction;
use super::transaction::{
    Both, DispatchView, OutcomeView, PendingView, TransactionState, TransactionType,
    TransactionView, TxStepView,
};
use crate::dialog::id;
use crate::dialog::id::DialogIdView;
use crate::error::ErrorView;
use crate::maps;
use crate::sip::basic::Method;
use crate::sip::message;
use crate::sip::message::{RequestView, ResponseView, SipMessageView};
use crate::sip::status::{StatusCode, StatusCodeKind};
use crate::transport::connection::SipConnectionView;
use vstd::prelude::*;

verus! {

/// A transaction that is over stays over, and sends no more than the refusal of
/// a CANCEL.
pub proof fn law_terminated_is_final(p: Both, event: TransactionEventView, branch: Seq<char>)
    requires
        p.0.state == TransactionState::Terminated,
    ensures
        ({
            let (q, step) = transaction::event_received(transaction::idle(p), event, branch);
            &&& q.0.state == TransactionState::Terminated
            &&& q.1 == p.1
            &&& match step {
                TxStepView::Done(outcome) => outcome == OutcomeView::Complete || outcome
                    == OutcomeView::Ended,
                TxStepView::Write { message, .. } => message matches SipMessageView::Response(r)
                    && r.status_code == StatusCode::CallTransactionDoesNotExist,
                _ => false,
            }
        }),
{
    reveal(build::response_to);
}

/// An ACK that carries the number of another INVITE neither confirms the
/// transaction nor reaches its user: nothing changes.
pub proof fn law_ack_of_another_invite_changes_nothing(
    p: Both,
    ack: RequestView,
    c: SipConnectionView,
)
    requires
        p.0.pending == PendingView::Idle,
        p.0.connection is Some,
        ack.method == Method::Ack,
        p.0.state == TransactionState::Completed || p.0.state == TransactionState::Confirmed,
        TransactionView::seq_of(ack.headers) != TransactionView::seq_of(p.0.original.headers),
    ensures
        transaction::request_received(p, ack, Some(c)) == transaction::done(
            p,
            OutcomeView::Complete,
        ),
{
}

/// The ACK of a final response that was sent over an unreliable transport stops
/// the retransmissions: the transaction is confirmed, no Timer G runs, and the
/// user gets the ACK.
pub proof fn law_ack_confirms_and_stops_retransmissions(
    p: Both,
    ack: RequestView,
    c: SipConnectionView,
)
    requires
        p.0.transaction_type == TransactionType::ServerInvite,
        p.0.state == TransactionState::Completed,
        ack.method == Method::Ack,
        TransactionView::seq_of(ack.headers) == TransactionView::seq_of(p.0.original.headers),
        p.0.timer_g matches Some(g) ==> g != p.1.timers.next_id,
    ensures
        ({
            let (q, step) = transaction::request_received(p, ack, Some(c));
            &&& q.0.state == TransactionState::Confirmed
            &&& q.0.timer_g is None
            &&& p.0.timer_g matches Some(g) ==> !q.1.timers.pending.contains_key(g)
            &&& step == TxStepView::Done(OutcomeView::Message(SipMessageView::Request(ack)))
        }),
{
    reveal(transaction::stepped);
}

/// A server that accepted an INVITE waits 64*T1 for the ACK, and sends its 2xx
/// again after T1 where the transport is unreliable.
pub proof fn law_accepting_server_waits_for_ack(p: Both)
    requires
        p.0.transaction_type == TransactionType::ServerInvite,
        p.0.state == TransactionState::Trying || p.0.state == TransactionState::Proceeding,
        p.0.connection is Some,
        p.0.accepted(),
        p.0.dialog() is Some,
        p.1.timers.next_id < u64::MAX - 3,
        forall|id: u64| p.1.timers.pending.contains_key(id) ==> id < p.1.timers.next_id,
    ensures
        ({
            let (q, r) = transaction::stepped(p, TransactionState::Completed);
            &&& r is Ok
            &&& q.0.state == TransactionState::Completed
            &&& q.0.timer_k matches Some(k) && q.1.timers.pending.contains_key(k)
                && q.1.timers.pending[k] == (TimerEntryView {
                delay: p.1.option.t1x64,
                timer: TransactionTimerView::TimerK(p.0.key),
            })
            &&& !p.0.connection->0.is_reliable() ==> (q.0.timer_g matches Some(g)
                && q.1.timers.pending.contains_key(g) && q.1.timers.pending[g] == (
            TimerEntryView {
                delay: p.1.option.t1,
                timer: TransactionTimerView::TimerG(p.0.key, p.1.option.t1),
            }))
        }),
{
    reveal(transaction::stepped);
}

/// The interval between two retransmissions of a 2xx doubles and never exceeds
/// T2: each next interval is twice the last one, or T2.
pub proof fn law_2xx_intervals_are_capped_at_t2(p: Both, key: Seq<char>, interval: u64)
    requires
        p.0.state == TransactionState::Completed,
        p.0.accepted(),
    ensures
        ({
            let (q, step) = transaction::written(
                p,
                PendingView::ResendWrite { key, interval },
                SipMessageView::Response(p.0.last_response->0),
                Ok(()),
            );
            let next = q.1.timers.pending[p.1.timers.next_id];
            &&& q.1.timers.pending.contains_key(p.1.timers.next_id)
            &&& next.delay <= p.1.option.t2
            &&& next.delay == 2 * interval || next.delay == p.1.option.t2
            &&& next.timer == TransactionTimerView::TimerG(key, next.delay)
            &&& q.0.state == TransactionState::Completed
        }),
{
}

/// A CANCEL is written only while the INVITE has no final response.
pub proof fn law_cancel_only_before_final_response(p: Both, cancel: RequestView)
    ensures
        transaction::send_cancel(p, cancel).1 is Write ==> p.0.transaction_type
            == TransactionType::ClientInvite && (p.0.state == TransactionState::Calling
            || p.0.state == TransactionState::Trying || p.0.state == TransactionState::Proceeding),
{
}

/// A request that cannot be written to a stream is reported to the user at once:
/// the stream is over, is handed out no more, and a 503 waits for the
/// transaction, which has entered its state machine all the same.
pub proof fn law_failed_write_on_stream_is_reported(
    p: Both,
    sent: SipMessageView,
    e: crate::error::ErrorView,
)
    requires
        p.0.transaction_type.spec_is_client(),
        p.0.state == TransactionState::Nothing,
        p.0.connection matches Some(c) && c.is_stream(),
    ensures
        ({
            let (q, step) = transaction::written(p, PendingView::SendWrite, sent, Err(e));
            let c = p.0.connection->0;
            &&& step == TxStepView::Done(OutcomeView::Complete)
            &&& q.0.state == TransactionState::Calling
            &&& q.1.transport_layer.inner.is_over(c)
            &&& q.1.outbox == p.1.outbox.push(
                (
                    p.0.channel,
                    TransactionEventView::Local(
                        build::response_to(
                            p.0.original,
                            StatusCode::ServiceUnavailable,
                            Seq::empty(),
                            p.1.user_agent,
                        ),
                    ),
                ),
            )
        }),
{
    reveal(transaction::stepped);
}

/// A transaction that is over holds no timer of the endpoint any more: none of
/// the numbers it held is still running.
pub proof fn law_cleanup_stops_all_timers(p: Both)
    requires
        !p.0.is_cleaned_up,
        p.0.timer_a matches Some(t) ==> t != p.1.timers.next_id,
        p.0.timer_b matches Some(t) ==> t != p.1.timers.next_id,
        p.0.timer_c matches Some(t) ==> t != p.1.timers.next_id,
        p.0.timer_d matches Some(t) ==> t != p.1.timers.next_id,
        p.0.timer_k matches Some(t) ==> t != p.1.timers.next_id,
        p.0.timer_g matches Some(t) ==> t != p.1.timers.next_id,
    ensures
        ({
            let q = transaction::cleaned_up(p);
            &&& q.0.timer_a is None && q.0.timer_b is None && q.0.timer_c is None
            &&& q.0.timer_d is None && q.0.timer_k is None && q.0.timer_g is None
            &&& p.0.timer_a matches Some(t) ==> !q.1.timers.pending.contains_key(t)
            &&& p.0.timer_b matches Some(t) ==> !q.1.timers.pending.contains_key(t)
            &&& p.0.timer_c matches Some(t) ==> !q.1.timers.pending.contains_key(t)
            &&& p.0.timer_d matches Some(t) ==> !q.1.timers.pending.contains_key(t)
            &&& p.0.timer_k matches Some(t) ==> !q.1.timers.pending.contains_key(t)
            &&& p.0.timer_g matches Some(t) ==> !q.1.timers.pending.contains_key(t)
        }),
{
}

/// Cleaning up twice is cleaning up once.
pub proof fn law_cleanup_is_idempotent(p: Both)
    ensures
        transaction::cleaned_up(transaction::cleaned_up(p)) == transaction::cleaned_up(p),
{
}

/// Of two INVITEs of one dialog that wait for their ACKs, each ACK finds its own
/// transaction, in whatever order the ACKs come in.
pub proof fn law_late_ack_finds_its_own_invite(
    earlier: TransactionView,
    later: TransactionView,
    ep: EndpointView,
    d: DialogIdView,
    ack: RequestView,
    own: Seq<char>,
)
    requires
        earlier.accepted(),
        later.accepted(),
        TransactionView::seq_of(earlier.original.headers) is Some,
        TransactionView::seq_of(later.original.headers) is Some,
        TransactionView::seq_of(earlier.original.headers) != TransactionView::seq_of(
            later.original.headers,
        ),
        ack.method == Method::Ack,
        id::dialog_of(ack.headers, TransactionRole::Server) == Ok::<
            DialogIdView,
            crate::error::ErrorView,
        >(d),
    ensures
        ({
            let waiting = transaction::expect_ack(
                (later, transaction::expect_ack((earlier, ep), d).1),
                d,
            ).1;
            let seq = TransactionView::seq_of(ack.headers);
            &&& seq == TransactionView::seq_of(earlier.original.headers) ==> waiting.key_of(
                ack,
                own,
            ) == earlier.key
            &&& seq == TransactionView::seq_of(later.original.headers) ==> waiting.key_of(ack, own)
                == later.key
        }),
{
}

/// A request that comes in again after its transaction is over is answered with
/// the response that the transaction sent last.
pub proof fn law_repeated_request_gets_the_last_response(
    ep: EndpointView,
    key: Seq<char>,
    last: ResponseView,
    req: RequestView,
    c: SipConnectionView,
)
    requires
        req.method != Method::Ack,
        key::key_of_request(req, TransactionRole::Server) == Ok::<
            Seq<char>,
            crate::error::ErrorView,
        >(key),
    ensures
        ep.detach(key, Some(SipMessageView::Response(last))).receive_request(req, c).1 == Ok::<
            ReceptionView,
            crate::error::ErrorView,
        >(
            ReceptionView::Reply {
                message: SipMessageView::Response(last),
                target: endpoint::answer_over(c, req.headers),
            },
        ),
{
}

/// A message for a transaction that has just been opened goes to that
/// transaction's channel.
pub proof fn law_new_transaction_gets_its_messages(
    ep: EndpointView,
    transaction_type: TransactionType,
    key: Seq<char>,
    original: RequestView,
    connection: Option<SipConnectionView>,
    msg: SipMessageView,
    c: SipConnectionView,
)
    ensures
        ({
            let (tx, after) = transaction::created(ep, transaction_type, key, original, connection);
            let (told, r) = transaction::dispatched(after, key, msg, c);
            &&& r == Ok::<DispatchView, crate::error::ErrorView>(DispatchView::Delivered)
            &&& told.outbox == ep.outbox.push(
                (tx.channel, TransactionEventView::Received(msg, Some(c))),
            )
        }),
{
}

/// What is kept of a transaction that is over is gone once its time is up.
pub proof fn law_cleanup_timer_forgets_the_transaction(ep: EndpointView, key: Seq<char>)
    ensures
        ({
            let after = ep.timer_fired(TransactionTimerView::TimerCleanup(key));
            &&& !after.transactions.contains_key(key)
            &&& after.last_message(key) is None
            &&& forall|d: maps::DialogKeyView| #[trigger]
                after.waiting_ack.contains_key(d) ==> after.waiting_ack[d] != key
            &&& forall|d: maps::InviteKeyView| #[trigger]
                after.waiting_ack_cseq.contains_key(d) ==> after.waiting_ack_cseq[d] != key
        }),
{
}

/// The client has had its final response.
pub open spec fn is_answered(tx: TransactionView) -> bool {
    tx.transaction_type.spec_is_client() && (tx.state == TransactionState::Terminated || (
    tx.transaction_type == TransactionType::ClientInvite && (tx.state
        == TransactionState::Completed || tx.state == TransactionState::Confirmed)))
}

/// A final response that is not ignored is the client's final response.
pub proof fn law_final_response_answers_the_client(
    p: Both,
    resp: ResponseView,
    c: Option<SipConnectionView>,
    branch: Seq<char>,
)
    requires
        p.0.transaction_type.spec_is_client(),
        resp.status_code.spec_kind() != StatusCodeKind::Provisional,
        transaction::response_received(p, resp, c, branch) != transaction::done(
            p,
            OutcomeView::Complete,
        ),
    ensures
        is_answered(transaction::response_received(p, resp, c, branch).0.0),
{
    reveal(transaction::stepped);
}

/// A client that has had its final response keeps having had it, whatever comes
/// in and whatever is written, unless its user sends the request anew.
pub proof fn law_answered_client_stays_answered(
    p: Both,
    event: TransactionEventView,
    branch: Seq<char>,
    pending: PendingView,
    sent: SipMessageView,
    r: Result<(), ErrorView>,
)
    requires
        is_answered(p.0),
        !(pending is SendWrite) && !(pending is RespondWrite),
    ensures
        is_answered(transaction::event_received(p, event, branch).0.0),
        is_answered(transaction::written(p, pending, sent, r).0.0),
{
    reveal(transaction::stepped);
}

/// At most one final response reaches the user of a client: once it has had one,
/// each further response, provisional or final, is ignored, and changes neither
/// the transaction nor the endpoint.
pub proof fn law_final_response_is_final(
    p: Both,
    resp: ResponseView,
    c: Option<SipConnectionView>,
    branch: Seq<char>,
)
    requires
        is_answered(p.0),
    ensures
        transaction::response_received(p, resp, c, branch) == transaction::done(
            p,
            OutcomeView::Complete,
        ),
{
}

/// A response that would leave the state as it is, and that repeats the status
/// and the body of the last response, is ignored.
pub proof fn law_repeated_response_is_ignored(
    p: Both,
    resp: ResponseView,
    c: Option<SipConnectionView>,
    branch: Seq<char>,
)
    requires
        p.0.state == transaction::state_after(p.0, resp.status_code),
        p.0.last_response matches Some(last) && last.status_code == resp.status_code && last.body
            == resp.body,
    ensures
        transaction::response_received(p, resp, c, branch) == transaction::done(
            p,
            OutcomeView::Complete,
        ),
{
}

}

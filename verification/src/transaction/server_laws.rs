//! What holds of a request that a server answers, and of what comes in again.

use super::client_laws;
use super::endpoint::TransactionEventView;
use super::ids;
use super::message as build;
use super::timer::TransactionTimerView;
use super::transaction;
use super::transaction::{
    Both, OutcomeView, PendingView, TransactionState, TransactionType, TransactionView, TxStepView,
};
use crate::dialog::id::DialogIdView;
use crate::error::ErrorView;
use crate::sip::basic::Method;
use crate::sip::header;
use crate::sip::header::{CSeq, FieldView, HeaderKind, HeaderView};
use crate::sip::message;
use crate::sip::message::{RequestView, ResponseView, SipMessageView};
use crate::sip::status::{StatusCode, StatusCodeKind};
use crate::sip::uri::{NameAddrView, ParamView};
use crate::transport::connection::SipConnectionView;
use vstd::prelude::*;

verus! {

pub open spec fn is_server(tx: TransactionView) -> bool {
    tx.transaction_type == TransactionType::ServerInvite || tx.transaction_type
        == TransactionType::ServerNonInvite
}

/// The request has no final response yet.
pub open spec fn is_unanswered(tx: TransactionView) -> bool {
    tx.state == TransactionState::Trying || tx.state == TransactionState::Proceeding
}

/// A request that comes in again before its final response gets the last response
/// once more, over the connection of the transaction and to the same place.
pub proof fn law_request_that_comes_again_is_answered_again(
    p: Both,
    req: RequestView,
    c: Option<SipConnectionView>,
    branch: Seq<char>,
    last: ResponseView,
)
    requires
        is_server(p.0),
        is_unanswered(p.0),
        req.method != Method::Cancel,
        p.0.last_response == Some(last),
        p.0.connection is Some,
        !(p.0.state == TransactionState::Proceeding && last.status_code == StatusCode::Trying),
    ensures
        ({
            let (q, step) = transaction::event_received(
                p,
                TransactionEventView::Received(SipMessageView::Request(req), c),
                branch,
            );
            &&& step == (TxStepView::Write {
                message: SipMessageView::Response(last),
                connection: p.0.connection,
                destination: p.0.destination,
            })
            &&& q.0.last_response == Some(last) && q.0.state == p.0.state
            &&& q.1 == p.1
        }),
{
}

/// Where the transaction has no connection yet, the one that the request comes in
/// on again becomes its own, and the last response goes out over that.
pub proof fn law_request_that_comes_again_brings_a_connection(
    p: Both,
    req: RequestView,
    c: SipConnectionView,
    branch: Seq<char>,
    last: ResponseView,
)
    requires
        is_server(p.0),
        is_unanswered(p.0),
        req.method != Method::Cancel,
        p.0.last_response == Some(last),
        p.0.connection is None,
        !(p.0.state == TransactionState::Proceeding && last.status_code == StatusCode::Trying),
    ensures
        ({
            let (q, step) = transaction::event_received(
                p,
                TransactionEventView::Received(SipMessageView::Request(req), Some(c)),
                branch,
            );
            &&& step == (TxStepView::Write {
                message: SipMessageView::Response(last),
                connection: Some(c),
                destination: p.0.destination,
            })
            &&& q.0.connection == Some(c)
        }),
{
}

/// A request that comes in again before any response is ignored.
pub proof fn law_request_that_comes_again_unanswered_is_ignored(
    p: Both,
    req: RequestView,
    c: Option<SipConnectionView>,
    branch: Seq<char>,
)
    requires
        is_server(p.0),
        is_unanswered(p.0),
        req.method != Method::Cancel,
        p.0.last_response is None,
        p.0.connection is Some,
    ensures
        transaction::event_received(
            p,
            TransactionEventView::Received(SipMessageView::Request(req), c),
            branch,
        ) == (p, TxStepView::Done(OutcomeView::Complete)),
{
}

/// A response goes out over the connection of the transaction, and is remembered
/// once it was written. A provisional one leaves the request unanswered; a final
/// one completes an INVITE and ends any other request.
pub proof fn law_response_is_sent_and_remembered(p: Both, resp: ResponseView)
    requires
        is_server(p.0),
        is_unanswered(p.0),
        p.0.connection is Some,
        !(p.0.state == TransactionState::Proceeding && resp.status_code == StatusCode::Trying),
        !p.0.is_cleaned_up,
        resp.status_code.spec_kind() != StatusCodeKind::Provisional && p.0.transaction_type
            == TransactionType::ServerInvite ==> crate::dialog::id::dialog_of(
            resp.headers,
            super::key::TransactionRole::Server,
        ) is Ok,
    ensures
        ({
            let (q, step) = transaction::respond(p, resp, false);
            let (after, end) = transaction::written(
                q,
                q.0.pending,
                SipMessageView::Response(resp),
                Ok(()),
            );
            &&& step == (TxStepView::Write {
                message: SipMessageView::Response(resp),
                connection: p.0.connection,
                destination: p.0.destination,
            })
            &&& end == TxStepView::Done(OutcomeView::Complete)
            &&& resp.status_code.spec_kind() == StatusCodeKind::Provisional ==> {
                &&& after.0.last_response == Some(resp)
                &&& after.0.state == if resp.status_code == StatusCode::Trying {
                    TransactionState::Trying
                } else {
                    TransactionState::Proceeding
                }
            }
            &&& resp.status_code.spec_kind() != StatusCodeKind::Provisional
                && p.0.transaction_type == TransactionType::ServerInvite ==> {
                &&& after.0.last_response == Some(resp)
                &&& after.0.state == TransactionState::Completed
            }
            &&& resp.status_code.spec_kind() != StatusCodeKind::Provisional
                && p.0.transaction_type == TransactionType::ServerNonInvite ==> {
                &&& after.0.state == TransactionState::Terminated
                &&& after.1.finished.contains_key(p.0.key) && after.1.finished[p.0.key] == Some(
                    SipMessageView::Response(resp),
                )
                &&& !after.1.transactions.contains_key(p.0.key)
            }
        }),
{
    reveal(transaction::stepped);
}

/// A response that cannot be written is not remembered as an answer that moves
/// the transaction, and the failure is reported.
pub proof fn law_unwritten_response_is_reported(p: Both, resp: ResponseView, e: ErrorView)
    requires
        is_server(p.0),
        is_unanswered(p.0),
        p.0.connection is Some,
        !(p.0.state == TransactionState::Proceeding && resp.status_code == StatusCode::Trying),
    ensures
        ({
            let q = transaction::respond(p, resp, false).0;
            let (after, end) = transaction::written(
                q,
                q.0.pending,
                SipMessageView::Response(resp),
                Err(e),
            );
            &&& end == TxStepView::Done(OutcomeView::Failed(e))
            &&& after.0.state == p.0.state
            &&& after.1 == p.1
        }),
{
}

/// A response is refused, and nothing changes, where a client asks for it, where
/// the request has had its final response, and where there is no connection.
pub proof fn law_response_out_of_place_is_refused(p: Both, resp: ResponseView)
    requires
        client_laws::is_client(p.0) || p.0.connection is None || p.0.state
            == TransactionState::Terminated || (p.0.transaction_type
            == TransactionType::ServerInvite && (p.0.state == TransactionState::Completed
            || p.0.state == TransactionState::Confirmed)),
    ensures
        ({
            let (q, step) = transaction::respond(p, resp, false);
            &&& q == p
            &&& step matches TxStepView::Done(OutcomeView::Failed(_))
            &&& client_laws::is_client(p.0) ==> step == TxStepView::Done(
                OutcomeView::Failed(
                    ErrorView::TransactionError(
                        "respond is only valid for server transactions"@,
                        p.0.key,
                    ),
                ),
            )
            &&& is_unanswered(p.0) && is_server(p.0) && !(p.0.state
                == TransactionState::Proceeding && resp.status_code == StatusCode::Trying)
                ==> step == TxStepView::Done(
                OutcomeView::Failed(
                    ErrorView::TransactionError("no connection found"@, p.0.key),
                ),
            )
        }),
        transaction::respond(p, resp, true) == (p, TxStepView::Done(OutcomeView::Complete)),
{
}

/// Once an INVITE has its final response, the server waits for the ACK: 64*T1 for
/// a 2xx, and T4 for any other; over UDP the response is sent again after T1.
pub proof fn law_answered_invite_waits_for_its_ack(p: Both, resp: ResponseView)
    requires
        p.0.transaction_type == TransactionType::ServerInvite,
        is_unanswered(p.0),
        p.0.connection is Some,
        resp.status_code.spec_kind() != StatusCodeKind::Provisional,
        crate::dialog::id::dialog_of(
            resp.headers,
            super::key::TransactionRole::Server,
        ) is Ok,
        client_laws::clock_goes_on(p),
        p.0.timer_g is None,
    ensures
        ({
            let q = transaction::respond(p, resp, false).0;
            let after = transaction::written(
                q,
                q.0.pending,
                SipMessageView::Response(resp),
                Ok(()),
            ).0;
            let wait = if resp.status_code.spec_kind() == StatusCodeKind::Successful {
                p.1.option.t1x64
            } else {
                p.1.option.t4
            };
            &&& client_laws::runs(
                after.1,
                after.0.timer_k,
                wait,
                TransactionTimerView::TimerK(p.0.key),
            )
            &&& client_laws::runs(
                after.1,
                after.0.timer_d,
                p.1.option.t1x64,
                TransactionTimerView::TimerD(p.0.key),
            )
            &&& p.0.connection->0 is Udp ==> client_laws::runs(
                after.1,
                after.0.timer_g,
                p.1.option.t1,
                TransactionTimerView::TimerG(p.0.key, p.1.option.t1),
            )
            &&& !(p.0.connection->0 is Udp) ==> after.0.timer_g is None
        }),
{
    reveal(transaction::stepped);
}

/// The final response to an INVITE is sent again when Timer G fires, over the same
/// connection, and then after twice the interval: up to T2 for a 2xx, and up to
/// 64*T1 for any other.
pub proof fn law_final_response_is_sent_again(
    p: Both,
    interval: u64,
    branch: Seq<char>,
    last: ResponseView,
)
    requires
        p.0.state == TransactionState::Completed,
        p.0.last_response == Some(last),
        p.0.connection is Some,
    ensures
        ({
            let (q, step) = transaction::event_received(
                p,
                TransactionEventView::Timer(TransactionTimerView::TimerG(p.0.key, interval)),
                branch,
            );
            let after = transaction::written(
                q,
                q.0.pending,
                SipMessageView::Response(last),
                Ok(()),
            ).0;
            let cap = if last.status_code.spec_kind() == StatusCodeKind::Successful {
                p.1.option.t2
            } else {
                p.1.option.t1x64
            };
            let next = if 2 * interval <= cap {
                (2 * interval) as u64
            } else {
                cap
            };
            &&& step == (TxStepView::Write {
                message: SipMessageView::Response(last),
                connection: p.0.connection,
                destination: p.0.destination,
            })
            &&& client_laws::runs(
                after.1,
                after.0.timer_g,
                next,
                TransactionTimerView::TimerG(p.0.key, next),
            )
            &&& after.0.state == TransactionState::Completed
        }),
{
}

/// A server stops waiting for the ACK when Timer D or Timer K fires: the
/// transaction is over, its last response is kept in case the request comes in
/// again, and its user learns that it has ended.
pub proof fn law_wait_for_the_ack_ends(p: Both, branch: Seq<char>, last: ResponseView)
    requires
        is_server(p.0),
        p.0.state == TransactionState::Completed || p.0.state == TransactionState::Confirmed,
        p.0.last_response == Some(last),
        !p.0.is_cleaned_up,
    ensures
        ({
            let (q, step) = transaction::event_received(
                p,
                TransactionEventView::Timer(TransactionTimerView::TimerK(p.0.key)),
                branch,
            );
            &&& q.0.state == TransactionState::Terminated
            &&& step == TxStepView::Done(OutcomeView::Complete)
            &&& q.1.outbox.last() == (p.0.channel, TransactionEventView::Terminate(p.0.key))
            &&& q.1.finished.contains_key(p.0.key) && q.1.finished[p.0.key] == Some(
                SipMessageView::Response(last),
            )
            &&& !q.1.transactions.contains_key(p.0.key)
            &&& p.0.state == TransactionState::Completed ==> transaction::event_received(
                p,
                TransactionEventView::Timer(TransactionTimerView::TimerD(p.0.key)),
                branch,
            ) == (q, step)
        }),
        transaction::event_received(p, TransactionEventView::Terminate(p.0.key), branch) == (
            p,
            TxStepView::Done(OutcomeView::Ended),
        ),
{
    reveal(transaction::stepped);
}

/// Timers that have no place in a state do nothing: no response is sent again once
/// the INVITE is acknowledged, and no request ends before its final response.
pub proof fn law_late_timers_do_nothing(p: Both, interval: u64, branch: Seq<char>)
    ensures
        p.0.state != TransactionState::Completed ==> transaction::event_received(
            p,
            TransactionEventView::Timer(TransactionTimerView::TimerG(p.0.key, interval)),
            branch,
        ) == (p, TxStepView::Done(OutcomeView::Complete)),
        p.0.state != TransactionState::Completed ==> transaction::event_received(
            p,
            TransactionEventView::Timer(TransactionTimerView::TimerD(p.0.key)),
            branch,
        ) == (p, TxStepView::Done(OutcomeView::Complete)),
        p.0.state != TransactionState::Completed && p.0.state != TransactionState::Confirmed
            ==> transaction::event_received(
            p,
            TransactionEventView::Timer(TransactionTimerView::TimerK(p.0.key)),
            branch,
        ) == (p, TxStepView::Done(OutcomeView::Complete)),
        p.0.state != TransactionState::Calling && p.0.state != TransactionState::Trying
            ==> transaction::event_received(
            p,
            TransactionEventView::Timer(TransactionTimerView::TimerA(p.0.key, interval)),
            branch,
        ) == (p, TxStepView::Done(OutcomeView::Complete)) && transaction::event_received(
            p,
            TransactionEventView::Timer(TransactionTimerView::TimerB(p.0.key)),
            branch,
        ) == (p, TxStepView::Done(OutcomeView::Complete)),
        p.0.state != TransactionState::Proceeding ==> transaction::event_received(
            p,
            TransactionEventView::Timer(TransactionTimerView::TimerC(p.0.key)),
            branch,
        ) == (p, TxStepView::Done(OutcomeView::Complete)),
{
}

/// An INVITE that comes in again after its final response is left to Timer G, and
/// an ACK that comes in again reaches the user again.
pub proof fn law_what_comes_after_the_final_response(
    p: Both,
    req: RequestView,
    c: Option<SipConnectionView>,
    branch: Seq<char>,
    seq: u32,
)
    requires
        p.0.transaction_type == TransactionType::ServerInvite,
        p.0.connection is Some,
    ensures
        (p.0.state == TransactionState::Completed || p.0.state == TransactionState::Confirmed)
            && req.method != Method::Ack && req.method != Method::Cancel
            ==> transaction::event_received(
            p,
            TransactionEventView::Received(SipMessageView::Request(req), c),
            branch,
        ) == (p, TxStepView::Done(OutcomeView::Complete)),
        p.0.state == TransactionState::Confirmed && req.method == Method::Ack && (
        header::first_cseq(req.headers) matches Some(FieldView::Typed(a)) && a.seq == seq) && (
        header::first_cseq(p.0.original.headers) matches Some(FieldView::Typed(b)) && b.seq
            == seq) ==> transaction::event_received(
            p,
            TransactionEventView::Received(SipMessageView::Request(req), c),
            branch,
        ) == (p, TxStepView::Done(OutcomeView::Message(SipMessageView::Request(req)))),
{
    reveal(transaction::stepped);
}

/// The response that the user of a transaction asks for is sent as it is, and a
/// failure to do so is not reported.
pub proof fn law_response_asked_for_is_sent(
    p: Both,
    resp: ResponseView,
    branch: Seq<char>,
    e: ErrorView,
)
    requires
        is_server(p.0),
        is_unanswered(p.0),
        p.0.connection is Some,
        !(p.0.state == TransactionState::Proceeding && resp.status_code == StatusCode::Trying),
    ensures
        ({
            let (q, step) = transaction::event_received(
                p,
                TransactionEventView::Respond(resp),
                branch,
            );
            let (after, end) = transaction::written(
                q,
                q.0.pending,
                SipMessageView::Response(resp),
                Err(e),
            );
            &&& step == (TxStepView::Write {
                message: SipMessageView::Response(resp),
                connection: p.0.connection,
                destination: p.0.destination,
            })
            &&& end == TxStepView::Done(OutcomeView::Complete)
            &&& after.0.state == p.0.state && after.1 == p.1
        }),
{
}

/// The final response is not sent again once that failed; without a connection it
/// is tried again later.
pub proof fn law_failed_resending_stops(
    p: Both,
    k: Seq<char>,
    interval: u64,
    sent: SipMessageView,
    e: ErrorView,
    branch: Seq<char>,
)
    ensures
        transaction::written(p, PendingView::ResendWrite { key: k, interval }, sent, Err(e)) == (
            p,
            TxStepView::Done(OutcomeView::Complete),
        ),
        p.0.state == TransactionState::Completed && p.0.connection is None ==> ({
            let (q, step) = transaction::event_received(
                p,
                TransactionEventView::Timer(TransactionTimerView::TimerG(k, interval)),
                branch,
            );
            step == TxStepView::Done(OutcomeView::Complete) && q.0.timer_g is Some
        }),
{
}

/// The ACK of the final response stops the retransmissions, reaches the user, and
/// is waited for T4 longer in case it comes in again.
pub proof fn law_ack_completes_the_invite(
    p: Both,
    ack: RequestView,
    c: Option<SipConnectionView>,
    branch: Seq<char>,
    seq: u32,
)
    requires
        p.0.transaction_type == TransactionType::ServerInvite,
        p.0.state == TransactionState::Completed,
        p.0.connection is Some,
        ack.method == Method::Ack,
        header::first_cseq(ack.headers) matches Some(FieldView::Typed(a)) && a.seq == seq,
        header::first_cseq(p.0.original.headers) matches Some(FieldView::Typed(b)) && b.seq
            == seq,
        client_laws::clock_goes_on(p),
    ensures
        ({
            let (q, step) = transaction::event_received(
                p,
                TransactionEventView::Received(SipMessageView::Request(ack), c),
                branch,
            );
            &&& step == TxStepView::Done(OutcomeView::Message(SipMessageView::Request(ack)))
            &&& q.0.state == TransactionState::Confirmed
            &&& q.0.timer_g is None && client_laws::is_stopped(q.1, p.0.timer_g)
            &&& q.0.timer_d is None && client_laws::is_stopped(q.1, p.0.timer_d)
            &&& client_laws::runs(
                q.1,
                q.0.timer_k,
                p.1.option.t4,
                TransactionTimerView::TimerK(p.0.key),
            )
        }),
{
    reveal(transaction::stepped);
}

/// A CANCEL gets a 200 while the request is unanswered, and the user gets the
/// CANCEL; after the final response it gets a 200 without effect; and once the
/// transaction is confirmed or over it gets a 481. The request's own answer is not
/// touched.
pub proof fn law_cancel_is_answered(
    p: Both,
    cancel: RequestView,
    c: Option<SipConnectionView>,
    branch: Seq<char>,
    r: Result<(), ErrorView>,
)
    requires
        is_server(p.0),
        p.0.connection is Some,
        cancel.method == Method::Cancel,
        p.0.state != TransactionState::Nothing && p.0.state != TransactionState::Calling,
    ensures
        ({
            let (q, step) = transaction::event_received(
                p,
                TransactionEventView::Received(SipMessageView::Request(cancel), c),
                branch,
            );
            &&& step matches TxStepView::Write {
                message: SipMessageView::Response(resp),
                connection,
                destination,
            } && connection == p.0.connection && destination == p.0.destination
                && resp.status_code == (if is_unanswered(p.0) || p.0.state
                == TransactionState::Completed {
                StatusCode::OK
            } else {
                StatusCode::CallTransactionDoesNotExist
            }) && header::of_kind(resp.headers, HeaderKind::Via) == header::of_kind(
                cancel.headers,
                HeaderKind::Via,
            )
            &&& q.0.state == p.0.state && q.0.last_response == p.0.last_response && q.1 == p.1
            &&& forall|sent: SipMessageView|
                (#[trigger] transaction::written(q, q.0.pending, sent, r)).1 == TxStepView::Done(
                    if is_unanswered(p.0) {
                        OutcomeView::Message(SipMessageView::Request(cancel))
                    } else {
                        OutcomeView::Complete
                    },
                )
        }),
{
    if is_unanswered(p.0) || p.0.state == TransactionState::Completed {
        law_plain_response_answers_its_request(
            cancel,
            StatusCode::OK,
            Seq::empty(),
            p.1.user_agent,
            HeaderKind::Via,
        );
    } else {
        law_plain_response_answers_its_request(
            cancel,
            StatusCode::CallTransactionDoesNotExist,
            Seq::empty(),
            p.1.user_agent,
            HeaderKind::Via,
        );
    }
}

/// A response made for a request bears its version, and its Via, From, To, Call-ID
/// and CSeq headers, all of them and in the same order; the status and the body
/// asked for; and one length and one name of this end.
pub proof fn law_plain_response_answers_its_request(
    req: RequestView,
    status: StatusCode,
    body: Seq<u8>,
    user_agent: Seq<char>,
    kind: HeaderKind,
)
    ensures
        ({
            let r = build::response_to(req, status, body, user_agent);
            let copied = kind == HeaderKind::Via || kind == HeaderKind::From || kind
                == HeaderKind::To || kind == HeaderKind::CallId || kind == HeaderKind::CSeq;
            &&& r.status_code == status && r.version == req.version && r.body == body
            &&& copied ==> header::of_kind(r.headers, kind) == header::of_kind(req.headers, kind)
            &&& !copied && kind != HeaderKind::ContentLength && kind != HeaderKind::UserAgent
                ==> header::of_kind(r.headers, kind).len() == 0
            &&& header::of_kind(r.headers, HeaderKind::UserAgent) == seq![
                HeaderView::UserAgent(user_agent),
            ]
            &&& body.len() <= u32::MAX ==> header::of_kind(r.headers, HeaderKind::ContentLength)
                == seq![HeaderView::ContentLength(body.len() as u32)]
        }),
{
    reveal(build::response_to);
    let keep = |h: HeaderView| build::is_copied(h);
    let kept = req.headers.filter(keep);
    let length = HeaderView::ContentLength(build::length_of(body));
    let agent = HeaderView::UserAgent(user_agent);
    lemma_of_kind_copied(req.headers, kind);
    lemma_of_kind_copied(req.headers, HeaderKind::UserAgent);
    lemma_of_kind_copied(req.headers, HeaderKind::ContentLength);
    header::lemma_of_kind_push(kept, length, kind);
    header::lemma_of_kind_push(kept.push(length), agent, kind);
    header::lemma_of_kind_push(kept, length, HeaderKind::UserAgent);
    header::lemma_of_kind_push(kept.push(length), agent, HeaderKind::UserAgent);
    header::lemma_of_kind_push(kept, length, HeaderKind::ContentLength);
    header::lemma_of_kind_push(kept.push(length), agent, HeaderKind::ContentLength);
}

proof fn lemma_of_kind_copied(headers: Seq<HeaderView>, kind: HeaderKind)
    ensures
        ({
            let kept = headers.filter(|h: HeaderView| build::is_copied(h));
            let copied = kind == HeaderKind::Via || kind == HeaderKind::From || kind
                == HeaderKind::To || kind == HeaderKind::CallId || kind == HeaderKind::CSeq;
            header::of_kind(kept, kind) == if copied {
                header::of_kind(headers, kind)
            } else {
                Seq::empty()
            }
        }),
    decreases headers.len(),
{
    reveal(Seq::filter);
    if headers.len() > 0 {
        let rest = headers.drop_last();
        lemma_of_kind_copied(rest, kind);
        let keep = |h: HeaderView| build::is_copied(h);
        if keep(headers.last()) {
            assert(headers.filter(keep).drop_last() == rest.filter(keep));
        }
    }
}

/// A reply bears the status and the body asked for, and the headers given behind
/// its own, which are those of a response to the request. A final reply names this
/// end in its To: by the tag that the request had, or else by a new one.
pub proof fn law_reply_says_what_was_asked(
    p: Both,
    status: StatusCode,
    headers: Seq<HeaderView>,
    body: Seq<u8>,
    tag: Seq<char>,
    to: NameAddrView,
    kind: HeaderKind,
)
    requires
        is_server(p.0),
        is_unanswered(p.0),
        p.0.connection is Some,
        !(p.0.state == TransactionState::Proceeding && status == StatusCode::Trying),
        header::of_kind(p.0.original.headers, HeaderKind::To) == seq![
            HeaderView::To(FieldView::Typed(to)),
        ],
        header::first_to(p.0.original.headers) == Some(FieldView::Typed(to)),
    ensures
        transaction::reply(p, status, headers, body, tag).1 matches TxStepView::Write {
            message: SipMessageView::Response(r),
            connection,
            ..
        } && connection == p.0.connection && r.status_code == status && r.body == body
            && r.headers.len() >= headers.len() && r.headers.skip(
            r.headers.len() - headers.len(),
        ) == headers && {
            let own = r.headers.take(r.headers.len() - headers.len());
            let named = status.spec_kind() == StatusCodeKind::Provisional || to.tag() is Some;
            &&& kind == HeaderKind::Via || kind == HeaderKind::From || kind == HeaderKind::CallId
                || kind == HeaderKind::CSeq ==> header::of_kind(own, kind) == header::of_kind(
                p.0.original.headers,
                kind,
            )
            &&& named ==> header::of_kind(own, HeaderKind::To) == seq![
                HeaderView::To(FieldView::Typed(to)),
            ]
            &&& !named ==> header::of_kind(own, HeaderKind::To) == seq![
                HeaderView::To(
                    FieldView::Typed(
                        NameAddrView {
                            params: to.params.filter(|x: ParamView| !(x is Tag)).push(
                                ParamView::Tag(tag),
                            ),
                            ..to
                        },
                    ),
                ),
            ]
        },
{
    let named = status.spec_kind() == StatusCodeKind::Provisional || to.tag() is Some;
    let h = HeaderView::To(FieldView::Typed(to.with_tag(tag)));
    let original = if named {
        p.0.original
    } else {
        RequestView {
            headers: header::unique_pushed(p.0.original.headers, h),
            ..p.0.original
        }
    };
    let answer = build::response_to(original, status, body, p.1.user_agent);
    assert((answer.headers + headers).skip(answer.headers.len() as int) == headers);
    assert((answer.headers + headers).take(answer.headers.len() as int) == answer.headers);
    law_plain_response_answers_its_request(original, status, body, p.1.user_agent, kind);
    law_plain_response_answers_its_request(
        original,
        status,
        body,
        p.1.user_agent,
        HeaderKind::To,
    );
    header::lemma_of_kind_without(p.0.original.headers, HeaderKind::To, HeaderKind::To);
    header::lemma_of_kind_without(p.0.original.headers, HeaderKind::To, kind);
    let rest = header::without(p.0.original.headers, HeaderKind::To);
    header::lemma_of_kind_push(rest, h, HeaderKind::To);
    header::lemma_of_kind_push(rest, h, kind);
    crate::sip::laws::law_new_tag_is_the_only_one(to, tag);
}

/// The ACK of a 2xx is waited for by the dialog of the 2xx and the number of the
/// INVITE, and that of any other final response by its dialog alone. Once it has
/// come it is not waited for any more.
pub proof fn law_ack_is_waited_for_by_its_dialog(
    p: Both,
    resp: ResponseView,
    d: DialogIdView,
    n: CSeq,
    ack: RequestView,
    c: Option<SipConnectionView>,
    branch: Seq<char>,
)
    requires
        p.0.transaction_type == TransactionType::ServerInvite,
        is_unanswered(p.0),
        p.0.connection is Some,
        resp.status_code.spec_kind() != StatusCodeKind::Provisional,
        crate::dialog::id::dialog_of(resp.headers, super::key::TransactionRole::Server) == Ok::<
            _,
            ErrorView,
        >(d),
        header::first_cseq(p.0.original.headers) == Some(FieldView::Typed(n)),
        ack.method == Method::Ack,
        header::first_cseq(ack.headers) matches Some(FieldView::Typed(a)) && a.seq == n.seq,
    ensures
        ({
            let q = transaction::respond(p, resp, false).0;
            let r = transaction::written(
                q,
                q.0.pending,
                SipMessageView::Response(resp),
                Ok(()),
            ).0;
            let s = transaction::event_received(
                r,
                TransactionEventView::Received(SipMessageView::Request(ack), c),
                branch,
            ).0;
            let name = (d.call_id, d.local_tag, d.remote_tag, n.seq);
            let dialog = (d.call_id, d.local_tag, d.remote_tag);
            &&& r.1.waiting_ack.contains_key(dialog) && r.1.waiting_ack[dialog] == p.0.key
            &&& resp.status_code.spec_kind() == StatusCodeKind::Successful
                ==> r.1.waiting_ack_cseq.contains_key(name) && r.1.waiting_ack_cseq[name]
                == p.0.key
            &&& resp.status_code.spec_kind() != StatusCodeKind::Successful
                ==> r.1.waiting_ack_cseq == p.1.waiting_ack_cseq
            &&& !s.1.waiting_ack.contains_key(dialog)
            &&& forall|x: (Seq<char>, Seq<char>, Seq<char>, u32)| #[trigger]
                s.1.waiting_ack_cseq.contains_key(x) ==> s.1.waiting_ack_cseq[x] != p.0.key
        }),
{
    reveal(transaction::stepped);
}

/// A reply to a request is written with the status, the headers and the body asked
/// for, over the connection of the transaction.
pub proof fn law_reply_outcome(
    p: Both,
    status: StatusCode,
    headers: Seq<HeaderView>,
    body: Seq<u8>,
    after: (Both, TxStepView),
)
    requires
        transaction::is_reply(p, status, headers, body, after),
        is_server(p.0),
        is_unanswered(p.0),
        p.0.connection is Some,
        !(p.0.state == TransactionState::Proceeding && status == StatusCode::Trying),
        message::to_of(p.0.original.headers) is Ok,
    ensures
        after.1 matches TxStepView::Write {
            message: SipMessageView::Response(r),
            connection,
            destination,
        } && connection == p.0.connection && destination == p.0.destination && r.status_code
            == status && r.body == body && r.headers.len() >= headers.len() && r.headers.skip(
            r.headers.len() - headers.len(),
        ) == headers,
{
    let tag = choose|tag: Seq<char>| #[trigger]
        ids::is_tag(tag) && after == transaction::reply(p, status, headers, body, tag);
    reveal(build::response_to);
    let q = transaction::reply(p, status, headers, body, tag).0;
    let answer = build::response_to(q.0.original, status, body, p.1.user_agent);
    assert((answer.headers + headers).skip(answer.headers.len() as int) == headers);
}

}

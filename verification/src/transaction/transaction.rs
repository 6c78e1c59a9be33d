//! The state machine of a transaction.
//!
//! A transaction decides; who drives it acts. Each call returns a [`TxStep`]: a
//! target to be located, a connection to be found, a message to be written, or
//! the outcome. The result of an act is handed back to the transaction, which
//! goes on from there.

use super::endpoint::{
    EndpointInner, EndpointView, ReplyTarget, ReplyTargetView, TransactionEvent,
    TransactionEventView,
};
use super::endpoint;
use super::ids;
use super::key;
use super::key::{TransactionKey, TransactionRole};
use super::message as build;
use super::timer::{TransactionTimer, TransactionTimerView};
use crate::dialog::id;
use crate::dialog::id::{DialogId, DialogIdView};
use crate::error;
use crate::error::{Error, ErrorView};
use crate::maps;
use crate::sip::basic::Method;
use crate::sip::header;
use crate::sip::header::{Field, FieldView, Header, HeaderView};
use crate::sip::message;
use crate::sip::message::{
    Request, RequestView, Response, ResponseView, SipMessage, SipMessageView,
};
use crate::sip::status::{StatusCode, StatusCodeKind};
use crate::sip::uri;
use crate::sip::uri::{Uri, UriView};
use crate::transport::connection::{SipConnection, SipConnectionView};
use crate::transport::sip_addr;
use crate::transport::sip_addr::{SipAddr, SipAddrView};
use crate::transport::transport_layer::TransportLayerView;
use vstd::prelude::*;
use vstd::string::*;

verus! {

#[derive(Clone, Copy, Debug, PartialEq, Eq, Structural)]
pub enum TransactionType {
    ClientInvite,
    ClientNonInvite,
    ServerInvite,
    ServerNonInvite,
}

#[derive(Clone, Copy, Debug, PartialEq, Eq, Structural)]
pub enum TransactionState {
    Nothing,
    Calling,
    Trying,
    Proceeding,
    Completed,
    Confirmed,
    Terminated,
}

impl TransactionType {
    pub open spec fn spec_is_client(self) -> bool {
        self == TransactionType::ClientInvite || self == TransactionType::ClientNonInvite
    }

    pub open spec fn spec_role(self) -> TransactionRole {
        if self.spec_is_client() {
            TransactionRole::Client
        } else {
            TransactionRole::Server
        }
    }

    pub fn is_client(&self) -> (r: bool)
        ensures
            r == self.spec_is_client(),
    {
        matches!(self, TransactionType::ClientInvite | TransactionType::ClientNonInvite)
    }
}

impl TransactionState {
    pub open spec fn spec_name(self) -> Seq<char> {
        match self {
            TransactionState::Nothing => "Nothing"@,
            TransactionState::Calling => "Calling"@,
            TransactionState::Trying => "Trying"@,
            TransactionState::Proceeding => "Proceeding"@,
            TransactionState::Completed => "Completed"@,
            TransactionState::Confirmed => "Confirmed"@,
            TransactionState::Terminated => "Terminated"@,
        }
    }

    pub fn name(&self) -> (s: &'static str)
        ensures
            s@ == self.spec_name(),
    {
        match self {
            TransactionState::Nothing => "Nothing",
            TransactionState::Calling => "Calling",
            TransactionState::Trying => "Trying",
            TransactionState::Proceeding => "Proceeding",
            TransactionState::Completed => "Completed",
            TransactionState::Confirmed => "Confirmed",
            TransactionState::Terminated => "Terminated",
        }
    }

    /// The step from this state to `target` is one that a transaction may take.
    pub open spec fn may_become(self, target: TransactionState) -> bool {
        match self {
            TransactionState::Nothing => target == TransactionState::Calling || target
                == TransactionState::Trying || target == TransactionState::Proceeding || target
                == TransactionState::Terminated,
            TransactionState::Calling => target != TransactionState::Nothing && target
                != TransactionState::Confirmed,
            TransactionState::Trying => target != TransactionState::Nothing && target
                != TransactionState::Calling,
            TransactionState::Proceeding => target == TransactionState::Proceeding || target
                == TransactionState::Completed || target == TransactionState::Confirmed || target
                == TransactionState::Terminated,
            TransactionState::Completed => target == TransactionState::Confirmed || target
                == TransactionState::Terminated,
            TransactionState::Confirmed => target == TransactionState::Terminated,
            TransactionState::Terminated => false,
        }
    }
}

/// What a transaction waits for.
pub enum Pending {
    Idle,
    /// The target of the request is being located, or a connection found for it,
    /// or the request written.
    SendLocate,
    SendLookup,
    SendWrite,
    /// A response is being written, after which the transaction is in the state
    /// given. A `quiet` one reports no failure.
    RespondWrite { next: TransactionState, quiet: bool },
    CancelWrite,
    /// The same for an ACK, after which the response, if there is one, is handed
    /// on.
    AckLocate { ack: Request, connection: Option<SipConnection>, answer: Option<Response> },
    AckLookup { ack: Request, connection: Option<SipConnection>, answer: Option<Response> },
    AckWrite { answer: Option<Response> },
    /// The same for a request that is sent again, with the last interval.
    RetryLocate { key: TransactionKey, interval: u64 },
    RetryLookup { key: TransactionKey, interval: u64 },
    RetryWrite { key: TransactionKey, interval: u64 },
    /// The final response is being written again.
    ResendWrite { key: TransactionKey, interval: u64 },
    /// The answer to a CANCEL is being written, after which the CANCEL is handed
    /// on if it has an effect.
    NoticeWrite { deliver: Option<Request> },
}

#[verifier::ext_equal]
pub enum PendingView {
    Idle,
    SendLocate,
    SendLookup,
    SendWrite,
    RespondWrite { next: TransactionState, quiet: bool },
    CancelWrite,
    AckLocate {
        ack: RequestView,
        connection: Option<SipConnectionView>,
        answer: Option<ResponseView>,
    },
    AckLookup {
        ack: RequestView,
        connection: Option<SipConnectionView>,
        answer: Option<ResponseView>,
    },
    AckWrite { answer: Option<ResponseView> },
    RetryLocate { key: Seq<char>, interval: u64 },
    RetryLookup { key: Seq<char>, interval: u64 },
    RetryWrite { key: Seq<char>, interval: u64 },
    ResendWrite { key: Seq<char>, interval: u64 },
    NoticeWrite { deliver: Option<RequestView> },
}

impl View for Pending {
    type V = PendingView;

    open spec fn view(&self) -> PendingView {
        match self {
            Pending::Idle => PendingView::Idle,
            Pending::SendLocate => PendingView::SendLocate,
            Pending::SendLookup => PendingView::SendLookup,
            Pending::SendWrite => PendingView::SendWrite,
            Pending::RespondWrite { next, quiet } => PendingView::RespondWrite {
                next: *next,
                quiet: *quiet,
            },
            Pending::CancelWrite => PendingView::CancelWrite,
            Pending::AckLocate { ack, connection, answer } => PendingView::AckLocate {
                ack: ack@,
                connection: connection.deep_view(),
                answer: answer.deep_view(),
            },
            Pending::AckLookup { ack, connection, answer } => PendingView::AckLookup {
                ack: ack@,
                connection: connection.deep_view(),
                answer: answer.deep_view(),
            },
            Pending::AckWrite { answer } => PendingView::AckWrite { answer: answer.deep_view() },
            Pending::RetryLocate { key, interval } => PendingView::RetryLocate {
                key: key@,
                interval: *interval,
            },
            Pending::RetryLookup { key, interval } => PendingView::RetryLookup {
                key: key@,
                interval: *interval,
            },
            Pending::RetryWrite { key, interval } => PendingView::RetryWrite {
                key: key@,
                interval: *interval,
            },
            Pending::ResendWrite { key, interval } => PendingView::ResendWrite {
                key: key@,
                interval: *interval,
            },
            Pending::NoticeWrite { deliver } => PendingView::NoticeWrite {
                deliver: deliver.deep_view(),
            },
        }
    }
}

/// How a call ends.
pub enum Outcome {
    /// It is done.
    Complete,
    /// It failed.
    Failed(Error),
    /// This message is for the user of the transaction.
    Message(SipMessage),
    /// The transaction is over.
    Ended,
}

#[verifier::ext_equal]
pub enum OutcomeView {
    Complete,
    Failed(ErrorView),
    Message(SipMessageView),
    Ended,
}

impl View for Outcome {
    type V = OutcomeView;

    open spec fn view(&self) -> OutcomeView {
        match self {
            Outcome::Complete => OutcomeView::Complete,
            Outcome::Failed(e) => OutcomeView::Failed(e@),
            Outcome::Message(m) => OutcomeView::Message(m@),
            Outcome::Ended => OutcomeView::Ended,
        }
    }
}

/// What is to be done next.
pub enum TxStep {
    /// Ask where requests to `uri` go, and call [`Transaction::located`].
    Locate { uri: Uri },
    /// Find a connection to `target`, and call [`Transaction::looked_up`].
    Lookup { target: SipAddr },
    /// Let the inspector, if there is one, see the message; send what it gives
    /// back over `connection`, if there is one; and call
    /// [`Transaction::written`].
    Write {
        message: SipMessage,
        connection: Option<SipConnection>,
        destination: Option<SipAddr>,
    },
    Done(Outcome),
}

#[verifier::ext_equal]
pub enum TxStepView {
    Locate { uri: UriView },
    Lookup { target: SipAddrView },
    Write {
        message: SipMessageView,
        connection: Option<SipConnectionView>,
        destination: Option<SipAddrView>,
    },
    Done(OutcomeView),
}

impl View for TxStep {
    type V = TxStepView;

    open spec fn view(&self) -> TxStepView {
        match self {
            TxStep::Locate { uri } => TxStepView::Locate { uri: uri@ },
            TxStep::Lookup { target } => TxStepView::Lookup { target: target@ },
            TxStep::Write { message, connection, destination } => TxStepView::Write {
                message: message@,
                connection: connection.deep_view(),
                destination: destination.deep_view(),
            },
            TxStep::Done(o) => TxStepView::Done(o@),
        }
    }
}

pub struct Transaction {
    pub transaction_type: TransactionType,
    pub key: TransactionKey,
    pub original: Request,
    pub destination: Option<SipAddr>,
    pub state: TransactionState,
    pub connection: Option<SipConnection>,
    pub last_response: Option<Response>,
    pub last_ack: Option<Request>,
    /// The number of the channel on which the transaction gets its events.
    pub channel: u64,
    pub timer_a: Option<u64>,
    pub timer_b: Option<u64>,
    pub timer_c: Option<u64>,
    pub timer_d: Option<u64>,
    pub timer_k: Option<u64>,
    pub timer_g: Option<u64>,
    pub retransmission: bool,
    pub is_cleaned_up: bool,
    pub pending: Pending,
}

#[verifier::ext_equal]
pub struct TransactionView {
    pub transaction_type: TransactionType,
    pub key: Seq<char>,
    pub original: RequestView,
    pub destination: Option<SipAddrView>,
    pub state: TransactionState,
    pub connection: Option<SipConnectionView>,
    pub last_response: Option<ResponseView>,
    pub last_ack: Option<RequestView>,
    pub channel: u64,
    pub timer_a: Option<u64>,
    pub timer_b: Option<u64>,
    pub timer_c: Option<u64>,
    pub timer_d: Option<u64>,
    pub timer_k: Option<u64>,
    pub timer_g: Option<u64>,
    pub retransmission: bool,
    pub is_cleaned_up: bool,
    pub pending: PendingView,
}

impl View for Transaction {
    type V = TransactionView;

    open spec fn view(&self) -> TransactionView {
        TransactionView {
            transaction_type: self.transaction_type,
            key: self.key@,
            original: self.original@,
            destination: self.destination.deep_view(),
            state: self.state,
            connection: self.connection.deep_view(),
            last_response: self.last_response.deep_view(),
            last_ack: self.last_ack.deep_view(),
            channel: self.channel,
            timer_a: self.timer_a,
            timer_b: self.timer_b,
            timer_c: self.timer_c,
            timer_d: self.timer_d,
            timer_k: self.timer_k,
            timer_g: self.timer_g,
            retransmission: self.retransmission,
            is_cleaned_up: self.is_cleaned_up,
            pending: self.pending@,
        }
    }
}

/// A transaction and the endpoint that holds it.
pub type Both = (TransactionView, EndpointView);

/// The smaller of twice `interval` and `cap`.
pub open spec fn doubled(interval: u64, cap: u64) -> u64 {
    if 2 * interval <= cap {
        (2 * interval) as u64
    } else {
        cap
    }
}

fn double(interval: u64, cap: u64) -> (r: u64)
    ensures
        r == doubled(interval, cap),
{
    if interval <= cap / 2 {
        2 * interval
    } else {
        cap
    }
}

/// The branch of a request.
pub open spec fn own_branch(req: RequestView) -> Seq<char> {
    match message::via_of(req.headers) {
        Ok(v) => key::or_empty(uri::branch_in(v.params)),
        Err(_) => Seq::empty(),
    }
}

fn branch_of(req: &Request) -> (b: String)
    ensures
        b@ == own_branch(req@),
{
    match message::top_via(&req.headers) {
        Ok(v) => match uri::find_branch(&v.params) {
            Some(b) => b,
            None => String::new(),
        },
        Err(_) => String::new(),
    }
}

impl TransactionView {
    pub open spec fn fail(self, text: Seq<char>) -> ErrorView {
        ErrorView::TransactionError(text, self.key)
    }

    pub open spec fn transition_error(self, target: TransactionState) -> ErrorView {
        self.fail(
            "invalid state transition from "@ + self.state.spec_name() + " to "@
                + target.spec_name(),
        )
    }

    /// The final response accepts the request.
    pub open spec fn accepted(self) -> bool {
        self.last_response matches Some(r) && r.status_code.spec_kind()
            == StatusCodeKind::Successful
    }

    /// The dialog of the last response, as this side sees it.
    pub open spec fn dialog(self) -> Option<DialogIdView> {
        match self.last_response {
            Some(r) => match id::dialog_of(r.headers, self.transaction_type.spec_role()) {
                Ok(d) => Some(d),
                Err(_) => None,
            },
            None => None,
        }
    }

    /// The CSeq number of the request, if it can be read.
    pub open spec fn seq_of(headers: Seq<HeaderView>) -> Option<u32> {
        match message::cseq_of(headers) {
            Ok(c) => Some(c.seq),
            Err(_) => None,
        }
    }
}

pub open spec fn stop_a(p: Both) -> Both {
    (TransactionView { timer_a: None, ..p.0 }, p.1.cancel_timer(p.0.timer_a))
}

pub open spec fn stop_b(p: Both) -> Both {
    (TransactionView { timer_b: None, ..p.0 }, p.1.cancel_timer(p.0.timer_b))
}

pub open spec fn stop_c(p: Both) -> Both {
    (TransactionView { timer_c: None, ..p.0 }, p.1.cancel_timer(p.0.timer_c))
}

pub open spec fn stop_d(p: Both) -> Both {
    (TransactionView { timer_d: None, ..p.0 }, p.1.cancel_timer(p.0.timer_d))
}

pub open spec fn stop_k(p: Both) -> Both {
    (TransactionView { timer_k: None, ..p.0 }, p.1.cancel_timer(p.0.timer_k))
}

pub open spec fn stop_g(p: Both) -> Both {
    (TransactionView { timer_g: None, ..p.0 }, p.1.cancel_timer(p.0.timer_g))
}

/// No timer of the transaction runs any more.
pub open spec fn stop_all(p: Both) -> Both {
    stop_g(stop_k(stop_d(stop_c(stop_b(stop_a(p))))))
}

pub open spec fn start_a(p: Both, key: Seq<char>, interval: u64) -> Both {
    (
        TransactionView { timer_a: Some(p.1.timers.next_id), ..p.0 },
        p.1.start_timer(interval, TransactionTimerView::TimerA(key, interval)),
    )
}

pub open spec fn start_b(p: Both, delay: u64) -> Both {
    (
        TransactionView { timer_b: Some(p.1.timers.next_id), ..p.0 },
        p.1.start_timer(delay, TransactionTimerView::TimerB(p.0.key)),
    )
}

pub open spec fn start_c(p: Both, delay: u64) -> Both {
    (
        TransactionView { timer_c: Some(p.1.timers.next_id), ..p.0 },
        p.1.start_timer(delay, TransactionTimerView::TimerC(p.0.key)),
    )
}

pub open spec fn start_d(p: Both, delay: u64) -> Both {
    (
        TransactionView { timer_d: Some(p.1.timers.next_id), ..p.0 },
        p.1.start_timer(delay, TransactionTimerView::TimerD(p.0.key)),
    )
}

pub open spec fn start_k(p: Both, delay: u64) -> Both {
    (
        TransactionView { timer_k: Some(p.1.timers.next_id), ..p.0 },
        p.1.start_timer(delay, TransactionTimerView::TimerK(p.0.key)),
    )
}

pub open spec fn start_g(p: Both, key: Seq<char>, interval: u64) -> Both {
    (
        TransactionView { timer_g: Some(p.1.timers.next_id), ..p.0 },
        p.1.start_timer(interval, TransactionTimerView::TimerG(key, interval)),
    )
}

pub open spec fn in_state(p: Both, state: TransactionState) -> Both {
    (TransactionView { state, ..p.0 }, p.1)
}

pub open spec fn waiting_for(p: Both, pending: PendingView) -> Both {
    (TransactionView { pending, ..p.0 }, p.1)
}

/// The server transaction expects an ACK in the dialog `d`; where it accepted
/// the INVITE, the ACK is also found by the number of the INVITE.
pub open spec fn expect_ack(p: Both, d: DialogIdView) -> Both {
    (
        p.0,
        EndpointView {
            waiting_ack: p.1.waiting_ack.insert(endpoint::dialog_key(d), p.0.key),
            waiting_ack_cseq: match TransactionView::seq_of(p.0.original.headers) {
                Some(n) if p.0.accepted() => p.1.waiting_ack_cseq.insert(
                    endpoint::invite_key(d, n),
                    p.0.key,
                ),
                _ => p.1.waiting_ack_cseq,
            },
            ..p.1
        },
    )
}

/// No ACK is expected in the dialog of the last response any more.
pub open spec fn forget_ack(p: Both) -> Both {
    match p.0.dialog() {
        Some(d) => (
            p.0,
            EndpointView {
                waiting_ack: p.1.waiting_ack.remove(endpoint::dialog_key(d)),
                waiting_ack_cseq: maps::without_value(p.1.waiting_ack_cseq, p.0.key),
                ..p.1
            },
        ),
        None => p,
    }
}

/// Milliseconds that a server waits for the ACK of its final response.
pub open spec fn ack_wait(p: Both) -> u64 {
    if p.0.accepted() {
        p.1.option.t1x64
    } else {
        p.1.option.t4
    }
}

/// The longest interval between two retransmissions of the final response.
pub open spec fn resend_cap(p: Both) -> u64 {
    if p.0.accepted() {
        p.1.option.t2
    } else {
        p.1.option.t1x64
    }
}

pub open spec fn enter_calling(p: Both) -> Both {
    if p.0.transaction_type.spec_is_client() {
        let with_a = if p.0.connection matches Some(c) && c.is_reliable() {
            p
        } else {
            start_a(p, p.0.key, p.1.option.t1)
        };
        start_b(with_a, p.1.option.t1x64)
    } else {
        p
    }
}

pub open spec fn enter_proceeding(p: Both) -> Both {
    let p = stop_a(p);
    if p.0.transaction_type == TransactionType::ClientInvite {
        let p = stop_b(p);
        if p.0.timer_c is None {
            start_c(p, p.1.option.timerc)
        } else {
            p
        }
    } else {
        p
    }
}

pub open spec fn enter_completed(p: Both) -> (Both, Result<(), ErrorView>) {
    let p = stop_c(stop_b(stop_a(p)));
    if p.0.transaction_type == TransactionType::ServerInvite {
        match p.0.connection {
            None => (p, Err(p.0.fail("no connection found"@))),
            Some(c) => {
                let p = if c.is_reliable() {
                    p
                } else {
                    start_g(p, p.0.key, p.1.option.t1)
                };
                match p.0.last_response {
                    None => (start_d(start_k(p, ack_wait(p)), p.1.option.t1x64), Ok(())),
                    Some(r) => match id::dialog_of(r.headers, TransactionRole::Server) {
                        Err(e) => (p, Err(e)),
                        Ok(d) => (
                            start_d(start_k(expect_ack(p, d), ack_wait(p)), p.1.option.t1x64),
                            Ok(()),
                        ),
                    },
                }
            },
        }
    } else {
        (start_d(p, p.1.option.t1x64), Ok(()))
    }
}

pub open spec fn enter_confirmed(p: Both) -> Both {
    let p = stop_all(p);
    let p = if p.0.transaction_type == TransactionType::ServerInvite {
        forget_ack(p)
    } else {
        p
    };
    start_k(p, p.1.option.t4)
}

/// The message that is kept when the transaction is over: the ACK of a client
/// that sent an INVITE, or one made up from the last provisional response; the
/// last response of a server.
pub open spec fn last_words(tx: TransactionView, user_agent: Seq<char>) -> (
    TransactionView,
    Option<SipMessageView>,
) {
    match tx.transaction_type {
        TransactionType::ClientInvite => {
            let ack = if (tx.state == TransactionState::Proceeding || tx.state
                == TransactionState::Trying) && tx.last_ack is None {
                match tx.last_response {
                    Some(r) => match build::ack_for(
                        tx.original,
                        r,
                        own_branch(tx.original),
                        user_agent,
                    ) {
                        Ok(a) => Some(a),
                        Err(_) => None,
                    },
                    None => None,
                }
            } else {
                tx.last_ack
            };
            (
                TransactionView { last_ack: None, ..tx },
                match ack {
                    Some(a) => Some(SipMessageView::Request(a)),
                    None => None,
                },
            )
        },
        TransactionType::ServerInvite | TransactionType::ServerNonInvite => (
            TransactionView { last_response: None, ..tx },
            match tx.last_response {
                Some(r) => Some(SipMessageView::Response(r)),
                None => None,
            },
        ),
        TransactionType::ClientNonInvite => (tx, None),
    }
}

/// The transaction gives back what it holds of the endpoint. An unacknowledged
/// INVITE keeps its entries, so that a late ACK is absorbed.
pub open spec fn cleaned_up(p: Both) -> Both {
    if p.0.is_cleaned_up {
        p
    } else {
        let p = stop_all((TransactionView { is_cleaned_up: true, ..p.0 }, p.1));
        let p = if p.0.transaction_type == TransactionType::ServerInvite && p.0.state
            == TransactionState::Completed {
            p
        } else {
            forget_ack(p)
        };
        let (tx, last) = last_words(p.0, p.1.user_agent);
        (tx, p.1.detach(p.0.key, last))
    }
}

/// A transaction steps into `state`.
#[verifier::opaque]
pub open spec fn stepped(p: Both, state: TransactionState) -> (Both, Result<(), ErrorView>) {
    if p.0.state == state {
        (p, Ok(()))
    } else {
        match state {
            TransactionState::Nothing => (in_state(p, state), Ok(())),
            TransactionState::Calling => (in_state(enter_calling(p), state), Ok(())),
            TransactionState::Trying | TransactionState::Proceeding => (
                in_state(enter_proceeding(p), state),
                Ok(()),
            ),
            TransactionState::Completed => {
                let (q, r) = enter_completed(p);
                if r is Ok {
                    (in_state(q, state), r)
                } else {
                    (q, r)
                }
            },
            TransactionState::Confirmed => (in_state(enter_confirmed(p), state), Ok(())),
            TransactionState::Terminated => {
                let q = cleaned_up(p);
                (
                    in_state(
                        (q.0, q.1.post(q.0.channel, TransactionEventView::Terminate(q.0.key))),
                        state,
                    ),
                    Ok(()),
                )
            },
        }
    }
}

/// The endpoint tells the transaction of a response that was made here.
pub open spec fn told_locally(p: Both, status: StatusCode) -> Both {
    (
        p.0,
        p.1.post(
            p.0.channel,
            TransactionEventView::Local(
                build::response_to(p.0.original, status, Seq::empty(), p.1.user_agent),
            ),
        ),
    )
}

/// A write over the transaction's connection failed: a stream is over, and the
/// user is told that the service is unavailable.
pub open spec fn write_failed(p: Both) -> Both {
    match p.0.connection {
        Some(c) if c.is_stream() => told_locally(
            (
                p.0,
                EndpointView {
                    transport_layer: TransportLayerView {
                        inner: p.1.transport_layer.inner.retire_connection(c),
                        ..p.1.transport_layer
                    },
                    ..p.1
                },
            ),
            StatusCode::ServiceUnavailable,
        ),
        _ => p,
    }
}

/// The transaction waits for nothing.
pub open spec fn idle(p: Both) -> Both {
    waiting_for(p, PendingView::Idle)
}

pub open spec fn done(p: Both, outcome: OutcomeView) -> (Both, TxStepView) {
    (p, TxStepView::Done(outcome))
}

pub open spec fn as_outcome(r: Result<(), ErrorView>) -> OutcomeView {
    match r {
        Ok(_) => OutcomeView::Complete,
        Err(e) => OutcomeView::Failed(e),
    }
}

/// Where a request goes: to the destination that is set, or else where its first
/// Route or its URI points; whoever locates targets is asked about the latter.
pub open spec fn search(
    p: Both,
    locating: PendingView,
    finding: PendingView,
) -> (Both, TxStepView) {
    match p.0.destination {
        Some(addr) => (waiting_for(p, finding), TxStepView::Lookup { target: addr }),
        None => {
            let uri = p.0.original.destination();
            if p.1.has_locator {
                (waiting_for(p, locating), TxStepView::Locate { uri })
            } else {
                (
                    waiting_for(p, finding),
                    TxStepView::Lookup { target: sip_addr::addr_of_uri(uri) },
                )
            }
        },
    }
}

/// The request is ready to be written: its length is noted, and where it goes
/// over a reliable connection, its destination is the peer of the connection.
pub open spec fn ready_to_send(p: Both) -> (Both, TxStepView) {
    let destination = match p.0.destination {
        Some(d) => Some(d),
        None => match p.0.connection {
            Some(c) if c.is_reliable() => c.remote_addr(),
            _ => None,
        },
    };
    let original = RequestView {
        headers: header::unique_pushed(
            p.0.original.headers,
            HeaderView::ContentLength(build::length_of(p.0.original.body)),
        ),
        ..p.0.original
    };
    (
        waiting_for((TransactionView { destination, original, ..p.0 }, p.1), PendingView::SendWrite),
        TxStepView::Write {
            message: SipMessageView::Request(original),
            connection: p.0.connection,
            destination,
        },
    )
}

pub open spec fn send(p: Both) -> (Both, TxStepView) {
    if !p.0.transaction_type.spec_is_client() {
        done(
            p,
            OutcomeView::Failed(p.0.fail("send is only valid for client transactions"@)),
        )
    } else if p.0.connection is None {
        search(p, PendingView::SendLocate, PendingView::SendLookup)
    } else {
        ready_to_send(p)
    }
}

/// The state after a response is sent.
pub open spec fn state_after(tx: TransactionView, status: StatusCode) -> TransactionState {
    if status.spec_kind() == StatusCodeKind::Provisional {
        if status == StatusCode::Trying {
            TransactionState::Trying
        } else {
            TransactionState::Proceeding
        }
    } else if tx.transaction_type == TransactionType::ServerInvite || tx.transaction_type
        == TransactionType::ClientInvite {
        TransactionState::Completed
    } else {
        TransactionState::Terminated
    }
}

/// Why a response cannot be sent, if it cannot.
pub open spec fn response_refused(tx: TransactionView, status: StatusCode) -> Option<ErrorView> {
    if tx.transaction_type.spec_is_client() {
        Some(tx.fail("respond is only valid for server transactions"@))
    } else if !tx.state.may_become(state_after(tx, status)) {
        Some(tx.transition_error(state_after(tx, status)))
    } else if tx.connection is None {
        Some(tx.fail("no connection found"@))
    } else {
        None
    }
}

/// A server sends a response. A `quiet` one reports no failure.
pub open spec fn respond(p: Both, response: ResponseView, quiet: bool) -> (Both, TxStepView) {
    match response_refused(p.0, response.status_code) {
        Some(e) => done(
            p,
            if quiet {
                OutcomeView::Complete
            } else {
                OutcomeView::Failed(e)
            },
        ),
        None => (
            waiting_for(
                p,
                PendingView::RespondWrite { next: state_after(p.0, response.status_code), quiet },
            ),
            TxStepView::Write {
                message: SipMessageView::Response(response),
                connection: p.0.connection,
                destination: p.0.destination,
            },
        ),
    }
}

/// A CANCEL goes out only while the INVITE has no final response.
pub open spec fn send_cancel(p: Both, cancel: RequestView) -> (Both, TxStepView) {
    if p.0.transaction_type != TransactionType::ClientInvite {
        done(
            p,
            OutcomeView::Failed(
                p.0.fail("send_cancel is only valid for client invite transactions"@),
            ),
        )
    } else if p.0.state == TransactionState::Calling || p.0.state == TransactionState::Trying
        || p.0.state == TransactionState::Proceeding {
        if p.0.connection is Some {
            (
                waiting_for(p, PendingView::CancelWrite),
                TxStepView::Write {
                    message: SipMessageView::Request(cancel),
                    connection: p.0.connection,
                    destination: p.0.destination,
                },
            )
        } else {
            done(p, OutcomeView::Complete)
        }
    } else {
        done(
            p,
            OutcomeView::Failed(
                p.0.fail("invalid state for sending CANCEL "@ + p.0.state.spec_name()),
            ),
        )
    }
}

/// What is handed on after an ACK: the response that it acknowledges.
pub open spec fn answered(p: Both, answer: Option<ResponseView>) -> (Both, TxStepView) {
    done(
        p,
        match answer {
            Some(r) => OutcomeView::Message(SipMessageView::Response(r)),
            None => OutcomeView::Complete,
        },
    )
}

pub open spec fn ack_ready(
    p: Both,
    ack: RequestView,
    connection: Option<SipConnectionView>,
    answer: Option<ResponseView>,
) -> (Both, TxStepView) {
    (
        waiting_for(p, PendingView::AckWrite { answer }),
        TxStepView::Write {
            message: SipMessageView::Request(ack),
            connection,
            destination: p.0.destination,
        },
    )
}

/// The ACK to send, or why there is none.
pub open spec fn ack_to_send(tx: TransactionView, branch: Seq<char>, user_agent: Seq<char>) -> Result<
    RequestView,
    ErrorView,
> {
    if tx.transaction_type != TransactionType::ClientInvite {
        Err(tx.fail("send_ack is only valid for client invite transactions"@))
    } else if tx.state != TransactionState::Completed {
        Err(tx.fail("invalid state for sending ACK "@ + tx.state.spec_name()))
    } else {
        match tx.last_ack {
            Some(ack) => Ok(ack),
            None => match tx.last_response {
                Some(resp) => build::ack_for(tx.original, resp, branch, user_agent),
                None => Err(tx.fail("no last response found to send ACK"@)),
            },
        }
    }
}

/// A client acknowledges the final response to its INVITE. The ACK of a 2xx
/// goes over the reliable connection that the response came in on; without one
/// its own target is searched for.
pub open spec fn send_ack(
    p: Both,
    connection: Option<SipConnectionView>,
    branch: Seq<char>,
    answer: Option<ResponseView>,
) -> (Both, TxStepView) {
    match ack_to_send(p.0, branch, p.1.user_agent) {
        Err(e) => match answer {
            Some(_) => answered(p, answer),
            None => done(p, OutcomeView::Failed(e)),
        },
        Ok(ack) => if p.0.accepted() && !(connection matches Some(c) && c.is_reliable()) {
            let target = ack.destination();
            if p.1.has_locator {
                (
                    waiting_for(p, PendingView::AckLocate { ack, connection, answer }),
                    TxStepView::Locate { uri: target },
                )
            } else {
                (
                    waiting_for(p, PendingView::AckLookup { ack, connection, answer }),
                    TxStepView::Lookup { target: sip_addr::addr_of_uri(target) },
                )
            }
        } else {
            ack_ready(p, ack, connection, answer)
        },
    }
}

/// The answer to a CANCEL.
pub open spec fn notice(
    p: Both,
    req: RequestView,
    status: StatusCode,
    deliver: Option<RequestView>,
) -> (Both, TxStepView) {
    if p.0.connection is Some {
        (
            waiting_for(p, PendingView::NoticeWrite { deliver }),
            TxStepView::Write {
                message: SipMessageView::Response(
                    build::response_to(req, status, Seq::empty(), p.1.user_agent),
                ),
                connection: p.0.connection,
                destination: p.0.destination,
            },
        )
    } else {
        delivered(p, deliver)
    }
}

pub open spec fn delivered(p: Both, deliver: Option<RequestView>) -> (Both, TxStepView) {
    done(
        p,
        match deliver {
            Some(r) => OutcomeView::Message(SipMessageView::Request(r)),
            None => OutcomeView::Complete,
        },
    )
}

/// A CANCEL has come in for a server transaction.
pub open spec fn cancel_received(p: Both, req: RequestView) -> (Both, TxStepView) {
    if p.0.state == TransactionState::Trying || p.0.state == TransactionState::Proceeding {
        notice(p, req, StatusCode::OK, Some(req))
    } else if p.0.state == TransactionState::Completed {
        notice(p, req, StatusCode::OK, None)
    } else {
        notice(p, req, StatusCode::CallTransactionDoesNotExist, None)
    }
}

/// The connection of a server transaction, once a message has come in over
/// `connection`.
pub open spec fn reached_over(p: Both, connection: Option<SipConnectionView>) -> Both {
    if p.0.connection is None {
        (TransactionView { connection, ..p.0 }, p.1)
    } else {
        p
    }
}

/// A request has come in for a server transaction.
pub open spec fn request_received(
    p: Both,
    req: RequestView,
    connection: Option<SipConnectionView>,
) -> (Both, TxStepView) {
    if p.0.transaction_type.spec_is_client() {
        done(p, OutcomeView::Complete)
    } else {
        let p = reached_over(p, connection);
        if req.method == Method::Cancel {
            cancel_received(p, req)
        } else if p.0.state == TransactionState::Trying || p.0.state
            == TransactionState::Proceeding {
            match p.0.last_response {
                Some(r) => respond(p, r, true),
                None => done(p, OutcomeView::Complete),
            }
        } else if (p.0.state == TransactionState::Completed || p.0.state
            == TransactionState::Confirmed) && req.method == Method::Ack {
            if TransactionView::seq_of(req.headers) != TransactionView::seq_of(
                p.0.original.headers,
            ) {
                done(p, OutcomeView::Complete)
            } else {
                let (q, _) = stepped(p, TransactionState::Confirmed);
                done(q, OutcomeView::Message(SipMessageView::Request(req)))
            }
        } else {
            done(p, OutcomeView::Complete)
        }
    }
}

/// The response is the one that the transaction has already seen.
pub open spec fn is_repeated(tx: TransactionView, resp: ResponseView) -> bool {
    &&& tx.state == state_after(tx, resp.status_code)
    &&& tx.last_response matches Some(last)
    &&& last.status_code == resp.status_code
    &&& last.body == resp.body
}

/// A response has come in for a client transaction.
pub open spec fn response_received(
    p: Both,
    resp: ResponseView,
    connection: Option<SipConnectionView>,
    branch: Seq<char>,
) -> (Both, TxStepView) {
    let next = state_after(p.0, resp.status_code);
    if !p.0.transaction_type.spec_is_client() || !p.0.state.may_become(next) || is_repeated(
        p.0,
        resp,
    ) {
        done(p, OutcomeView::Complete)
    } else {
        let (q, _) = stepped((TransactionView { last_response: Some(resp), ..p.0 }, p.1), next);
        if next == TransactionState::Completed {
            send_ack(q, connection, branch, Some(resp))
        } else {
            done(q, OutcomeView::Message(SipMessageView::Response(resp)))
        }
    }
}

/// The request is sent again, over the connection if there is one, and the next
/// interval begins.
pub open spec fn retry(p: Both, key: Seq<char>, interval: u64) -> (Both, TxStepView) {
    if p.0.connection is Some {
        (
            waiting_for(p, PendingView::RetryWrite { key, interval }),
            TxStepView::Write {
                message: SipMessageView::Request(p.0.original),
                connection: p.0.connection,
                destination: p.0.destination,
            },
        )
    } else {
        done(start_a(p, key, doubled(interval, p.1.option.t1x64)), OutcomeView::Complete)
    }
}

/// A timer of the transaction has fired.
pub open spec fn timer_fired(p: Both, timer: TransactionTimerView) -> (Both, TxStepView) {
    let state = p.0.state;
    match timer {
        TransactionTimerView::TimerA(key, interval) if (state == TransactionState::Calling || state
            == TransactionState::Trying) && p.0.transaction_type.spec_is_client() => {
            if !p.0.retransmission {
                done(p, OutcomeView::Complete)
            } else if p.0.connection is None {
                search(
                    p,
                    PendingView::RetryLocate { key, interval },
                    PendingView::RetryLookup { key, interval },
                )
            } else {
                retry(p, key, interval)
            }
        },
        TransactionTimerView::TimerB(_) if (state == TransactionState::Calling || state
            == TransactionState::Trying) && p.0.transaction_type.spec_is_client() => done(
            told_locally(p, StatusCode::RequestTimeout),
            OutcomeView::Complete,
        ),
        TransactionTimerView::TimerC(_) if state == TransactionState::Proceeding => done(
            told_locally(p, StatusCode::RequestTimeout),
            OutcomeView::Complete,
        ),
        TransactionTimerView::TimerG(key, interval) if state == TransactionState::Completed => {
            match p.0.last_response {
                Some(r) if p.0.connection is Some => (
                    waiting_for(p, PendingView::ResendWrite { key, interval }),
                    TxStepView::Write {
                        message: SipMessageView::Response(r),
                        connection: p.0.connection,
                        destination: p.0.destination,
                    },
                ),
                _ => done(start_g(p, key, doubled(interval, resend_cap(p))), OutcomeView::Complete),
            }
        },
        TransactionTimerView::TimerD(_) if state == TransactionState::Completed => {
            let (q, _) = stepped(p, TransactionState::Terminated);
            done(q, OutcomeView::Complete)
        },
        TransactionTimerView::TimerK(_) if state == TransactionState::Completed || state
            == TransactionState::Confirmed => {
            let (q, _) = stepped(p, TransactionState::Terminated);
            done(q, OutcomeView::Complete)
        },
        _ => done(p, OutcomeView::Complete),
    }
}

/// The target of a request is located, or could not be.
pub open spec fn located(p: Both, pending: PendingView, r: Result<SipAddrView, ErrorView>) -> (
    Both,
    TxStepView,
) {
    match pending {
        PendingView::SendLocate => match r {
            Ok(addr) => (
                waiting_for(p, PendingView::SendLookup),
                TxStepView::Lookup { target: addr },
            ),
            Err(e) => done(p, OutcomeView::Failed(e)),
        },
        PendingView::AckLocate { ack, connection, answer } => match r {
            Ok(addr) => (
                waiting_for(p, PendingView::AckLookup { ack, connection, answer }),
                TxStepView::Lookup { target: addr },
            ),
            Err(_) => ack_ready(p, ack, connection, answer),
        },
        PendingView::RetryLocate { key, interval } => match r {
            Ok(addr) => (
                waiting_for(p, PendingView::RetryLookup { key, interval }),
                TxStepView::Lookup { target: addr },
            ),
            Err(_) => retry(p, key, interval),
        },
        _ => done(p, OutcomeView::Complete),
    }
}

/// The connection that was found, with the address that it leads to.
pub open spec fn bound(p: Both, r: Result<(SipConnectionView, SipAddrView), ErrorView>) -> Both {
    match r {
        Ok((c, addr)) => (
            TransactionView { connection: Some(c), destination: Some(addr), ..p.0 },
            p.1,
        ),
        Err(_) => p,
    }
}

/// A connection is found, or could not be.
pub open spec fn looked_up(
    p: Both,
    pending: PendingView,
    r: Result<(SipConnectionView, SipAddrView), ErrorView>,
) -> (Both, TxStepView) {
    match pending {
        PendingView::SendLookup => ready_to_send(bound(p, r)),
        PendingView::AckLookup { ack, connection, answer } => match r {
            Ok((c, addr)) => ack_ready(
                if c.is_reliable() {
                    p
                } else {
                    (TransactionView { destination: Some(addr), ..p.0 }, p.1)
                },
                ack,
                Some(c),
                answer,
            ),
            Err(_) => ack_ready(p, ack, connection, answer),
        },
        PendingView::RetryLookup { key, interval } => retry(bound(p, r), key, interval),
        _ => done(p, OutcomeView::Complete),
    }
}

/// A request went out, or could not be written: the transaction waits for the
/// answer in either case.
pub open spec fn request_written(p: Both, r: Result<(), ErrorView>) -> (Both, TxStepView) {
    let (q, outcome) = stepped(p, TransactionState::Calling);
    done(
        if r is Err {
            write_failed(q)
        } else {
            q
        },
        as_outcome(outcome),
    )
}

/// The last response, once `sent` went out.
pub open spec fn with_sent_response(p: Both, sent: SipMessageView) -> Both {
    match sent {
        SipMessageView::Response(resp) => (
            TransactionView { last_response: Some(resp), ..p.0 },
            p.1,
        ),
        _ => p,
    }
}

/// A response went out, or could not be written.
pub open spec fn response_written(
    p: Both,
    next: TransactionState,
    quiet: bool,
    sent: SipMessageView,
    r: Result<(), ErrorView>,
) -> (Both, TxStepView) {
    let p = with_sent_response(p, sent);
    let (q, outcome) = match r {
        Ok(_) => stepped(p, next),
        Err(e) => (p, Err(e)),
    };
    done(
        q,
        if quiet {
            OutcomeView::Complete
        } else {
            as_outcome(outcome)
        },
    )
}

/// An ACK went out, or could not be written: the transaction is over in either
/// case.
pub open spec fn ack_written(p: Both, answer: Option<ResponseView>, sent: SipMessageView) -> (
    Both,
    TxStepView,
) {
    let p = match sent {
        SipMessageView::Request(ack) => (TransactionView { last_ack: Some(ack), ..p.0 }, p.1),
        _ => p,
    };
    let (q, _) = stepped(p, TransactionState::Terminated);
    answered(q, answer)
}

/// The request went out again, or could not be written.
pub open spec fn retry_written(
    p: Both,
    key: Seq<char>,
    interval: u64,
    r: Result<(), ErrorView>,
) -> (Both, TxStepView) {
    if r is Err && (p.0.connection matches Some(c) && c.is_stream()) {
        done(write_failed(p), OutcomeView::Complete)
    } else {
        done(start_a(p, key, doubled(interval, p.1.option.t1x64)), OutcomeView::Complete)
    }
}

/// The final response went out again, or could not be written.
pub open spec fn resend_written(
    p: Both,
    key: Seq<char>,
    interval: u64,
    r: Result<(), ErrorView>,
) -> (Both, TxStepView) {
    match r {
        Ok(_) => done(
            start_g(p, key, doubled(interval, resend_cap(p))),
            OutcomeView::Complete,
        ),
        Err(_) => done(p, OutcomeView::Complete),
    }
}

/// `sent` went out, or could not be written.
pub open spec fn written(
    p: Both,
    pending: PendingView,
    sent: SipMessageView,
    r: Result<(), ErrorView>,
) -> (Both, TxStepView) {
    match pending {
        PendingView::SendWrite => request_written(p, r),
        PendingView::RespondWrite { next, quiet } => response_written(p, next, quiet, sent, r),
        PendingView::CancelWrite => done(p, as_outcome(r)),
        PendingView::AckWrite { answer } => ack_written(p, answer, sent),
        PendingView::RetryWrite { key, interval } => retry_written(p, key, interval, r),
        PendingView::ResendWrite { key, interval } => resend_written(p, key, interval, r),
        PendingView::NoticeWrite { deliver } => delivered(p, deliver),
        _ => done(p, OutcomeView::Complete),
    }
}

/// An event has come in.
pub open spec fn event_received(p: Both, event: TransactionEventView, branch: Seq<char>) -> (
    Both,
    TxStepView,
) {
    match event {
        TransactionEventView::Received(SipMessageView::Request(req), c) => request_received(
            p,
            req,
            c,
        ),
        TransactionEventView::Received(SipMessageView::Response(resp), c) => response_received(
            p,
            resp,
            c,
            branch,
        ),
        TransactionEventView::Local(resp) => response_received(p, resp, None, branch),
        TransactionEventView::Timer(t) => timer_fired(p, t),
        TransactionEventView::Respond(resp) => respond(p, resp, true),
        TransactionEventView::Terminate(_) => done(p, OutcomeView::Ended),
    }
}


fn outcome_of(r: Result<(), Error>) -> (o: Outcome)
    ensures
        o@ == as_outcome(error::result_view(r)),
{
    match r {
        Ok(_) => Outcome::Complete,
        Err(e) => Outcome::Failed(e),
    }
}

impl Transaction {
    /// A new transaction, known to the endpoint under its name.
    fn new(
        transaction_type: TransactionType,
        key: TransactionKey,
        original: Request,
        connection: Option<SipConnection>,
        ep: &mut EndpointInner,
    ) -> (tx: Transaction)
        ensures
            (tx@, final(ep)@) == created(
                old(ep)@,
                transaction_type,
                key@,
                original@,
                connection.deep_view(),
            ),
    {
        let channel: u64 = ep.next_channel;
        ep.next_channel = if channel == u64::MAX {
            0
        } else {
            channel + 1
        };
        let state = if transaction_type.is_client() {
            TransactionState::Nothing
        } else {
            TransactionState::Trying
        };
        ep.attach_transaction(&key, channel);
        Transaction {
            transaction_type,
            key,
            original,
            destination: None,
            state,
            connection,
            last_response: None,
            last_ack: None,
            channel,
            timer_a: None,
            timer_b: None,
            timer_c: None,
            timer_d: None,
            timer_k: None,
            timer_g: None,
            retransmission: true,
            is_cleaned_up: false,
            pending: Pending::Idle,
        }
    }

    pub fn new_client(
        key: TransactionKey,
        original: Request,
        ep: &mut EndpointInner,
        connection: Option<SipConnection>,
    ) -> (tx: Transaction)
        ensures
            (tx@, final(ep)@) == created(
                old(ep)@,
                client_type(original.method),
                key@,
                original@,
                connection.deep_view(),
            ),
    {
        let tx_type = match original.method {
            Method::Invite => TransactionType::ClientInvite,
            _ => TransactionType::ClientNonInvite,
        };
        Transaction::new(tx_type, key, original, connection, ep)
    }

    pub fn new_server(
        key: TransactionKey,
        original: Request,
        ep: &mut EndpointInner,
        connection: Option<SipConnection>,
    ) -> (tx: Transaction)
        ensures
            (tx@, final(ep)@) == created(
                old(ep)@,
                server_type(original.method),
                key@,
                original@,
                connection.deep_view(),
            ),
    {
        let tx_type = match original.method {
            Method::Invite | Method::Ack => TransactionType::ServerInvite,
            _ => TransactionType::ServerNonInvite,
        };
        Transaction::new(tx_type, key, original, connection, ep)
    }

    pub fn role(&self) -> (r: TransactionRole)
        ensures
            r == self.transaction_type.spec_role(),
    {
        if self.transaction_type.is_client() {
            TransactionRole::Client
        } else {
            TransactionRole::Server
        }
    }

    pub fn is_terminated(&self) -> (r: bool)
        ensures
            r == (self@.state == TransactionState::Terminated),
    {
        self.state == TransactionState::Terminated
    }

    fn fail(&self, text: &str) -> (e: Error)
        ensures
            e@ == self@.fail(text@),
    {
        Error::TransactionError(text.to_owned(), self.key.clone())
    }

    /// Whether the transaction may step into `target`.
    pub fn can_transition(&self, target: TransactionState) -> (r: Result<(), Error>)
        ensures
            error::result_view(r) == (if self@.state.may_become(target) {
                Ok::<(), ErrorView>(())
            } else {
                Err(self@.transition_error(target))
            }),
    {
        let allowed = match (self.state, target) {
            (TransactionState::Nothing, TransactionState::Calling)
            | (TransactionState::Nothing, TransactionState::Trying)
            | (TransactionState::Nothing, TransactionState::Proceeding)
            | (TransactionState::Nothing, TransactionState::Terminated)
            | (TransactionState::Calling, TransactionState::Calling)
            | (TransactionState::Calling, TransactionState::Trying)
            | (TransactionState::Calling, TransactionState::Proceeding)
            | (TransactionState::Calling, TransactionState::Completed)
            | (TransactionState::Calling, TransactionState::Terminated)
            | (TransactionState::Trying, TransactionState::Trying)
            | (TransactionState::Trying, TransactionState::Proceeding)
            | (TransactionState::Trying, TransactionState::Completed)
            | (TransactionState::Trying, TransactionState::Confirmed)
            | (TransactionState::Trying, TransactionState::Terminated)
            | (TransactionState::Proceeding, TransactionState::Proceeding)
            | (TransactionState::Proceeding, TransactionState::Completed)
            | (TransactionState::Proceeding, TransactionState::Confirmed)
            | (TransactionState::Proceeding, TransactionState::Terminated)
            | (TransactionState::Completed, TransactionState::Confirmed)
            | (TransactionState::Completed, TransactionState::Terminated)
            | (TransactionState::Confirmed, TransactionState::Terminated) => true,
            _ => false,
        };
        if allowed {
            Ok(())
        } else {
            let mut m = "invalid state transition from ".to_owned();
            m.append(self.state.name());
            m.append(" to ");
            m.append(target.name());
            Err(Error::TransactionError(m, self.key.clone()))
        }
    }

    fn stop_a(&mut self, ep: &mut EndpointInner)
        ensures
            (final(self)@, final(ep)@) == stop_a((old(self)@, old(ep)@)),
    {
        ep.timers.cancel(self.timer_a);
        self.timer_a = None;
    }

    fn stop_b(&mut self, ep: &mut EndpointInner)
        ensures
            (final(self)@, final(ep)@) == stop_b((old(self)@, old(ep)@)),
    {
        ep.timers.cancel(self.timer_b);
        self.timer_b = None;
    }

    fn stop_c(&mut self, ep: &mut EndpointInner)
        ensures
            (final(self)@, final(ep)@) == stop_c((old(self)@, old(ep)@)),
    {
        ep.timers.cancel(self.timer_c);
        self.timer_c = None;
    }

    /// Stops every timer.
    fn cleanup_timer(&mut self, ep: &mut EndpointInner)
        ensures
            (final(self)@, final(ep)@) == stop_all((old(self)@, old(ep)@)),
    {
        self.stop_a(ep);
        self.stop_b(ep);
        self.stop_c(ep);
        ep.timers.cancel(self.timer_d);
        self.timer_d = None;
        ep.timers.cancel(self.timer_k);
        self.timer_k = None;
        ep.timers.cancel(self.timer_g);
        self.timer_g = None;
    }

    fn start_a(&mut self, ep: &mut EndpointInner, key: TransactionKey, interval: u64)
        ensures
            (final(self)@, final(ep)@) == start_a((old(self)@, old(ep)@), key@, interval),
    {
        self.timer_a = Some(ep.timers.timeout(interval, TransactionTimer::TimerA(key, interval)));
    }

    fn start_g(&mut self, ep: &mut EndpointInner, key: TransactionKey, interval: u64)
        ensures
            (final(self)@, final(ep)@) == start_g((old(self)@, old(ep)@), key@, interval),
    {
        self.timer_g = Some(ep.timers.timeout(interval, TransactionTimer::TimerG(key, interval)));
    }

    fn start_k(&mut self, ep: &mut EndpointInner, delay: u64)
        ensures
            (final(self)@, final(ep)@) == start_k((old(self)@, old(ep)@), delay),
    {
        self.timer_k = Some(ep.timers.timeout(delay, TransactionTimer::TimerK(self.key.clone())));
    }

    fn start_d(&mut self, ep: &mut EndpointInner, delay: u64)
        ensures
            (final(self)@, final(ep)@) == start_d((old(self)@, old(ep)@), delay),
    {
        self.timer_d = Some(ep.timers.timeout(delay, TransactionTimer::TimerD(self.key.clone())));
    }

    fn is_accepted(&self) -> (r: bool)
        ensures
            r == self@.accepted(),
    {
        match &self.last_response {
            Some(resp) => resp.status_code.kind() == StatusCodeKind::Successful,
            None => false,
        }
    }

    fn expect_ack(&self, ep: &mut EndpointInner, dialog_id: &DialogId)
        ensures
            (self@, final(ep)@) == expect_ack((self@, old(ep)@), dialog_id@),
    {
        maps::waiting_insert(
            &mut ep.waiting_ack,
            endpoint::dialog_tuple(dialog_id),
            self.key.0.clone(),
        );
        if self.is_accepted() {
            if let Ok(cseq) = message::cseq(&self.original.headers) {
                maps::invites_insert(
                    &mut ep.waiting_ack_cseq,
                    endpoint::invite_tuple(dialog_id, cseq.seq),
                    self.key.0.clone(),
                );
            }
        }
    }

    fn forget_ack(&self, ep: &mut EndpointInner)
        ensures
            (self@, final(ep)@) == forget_ack((self@, old(ep)@)),
    {
        if let Some(resp) = &self.last_response {
            if let Ok(dialog_id) = DialogId::from_response(resp, self.role()) {
                maps::waiting_remove(&mut ep.waiting_ack, &endpoint::dialog_tuple(&dialog_id));
                maps::invites_drop_value(&mut ep.waiting_ack_cseq, &self.key.0);
            }
        }
    }

    fn enter_calling(&mut self, ep: &mut EndpointInner)
        ensures
            (final(self)@, final(ep)@) == enter_calling((old(self)@, old(ep)@)),
    {
        if self.transaction_type.is_client() {
            let reliable = match &self.connection {
                Some(c) => c.is_reliable(),
                None => false,
            };
            if !reliable {
                self.start_a(ep, self.key.clone(), ep.option.t1);
            }
            self.timer_b = Some(
                ep.timers.timeout(ep.option.t1x64, TransactionTimer::TimerB(self.key.clone())),
            );
        }
    }

    fn enter_proceeding(&mut self, ep: &mut EndpointInner)
        ensures
            (final(self)@, final(ep)@) == enter_proceeding((old(self)@, old(ep)@)),
    {
        self.stop_a(ep);
        if self.transaction_type == TransactionType::ClientInvite {
            self.stop_b(ep);
            if self.timer_c.is_none() {
                self.timer_c = Some(
                    ep.timers.timeout(ep.option.timerc, TransactionTimer::TimerC(self.key.clone())),
                );
            }
        }
    }

    fn enter_completed(&mut self, ep: &mut EndpointInner) -> (r: Result<(), Error>)
        ensures
            ((final(self)@, final(ep)@), error::result_view(r)) == enter_completed(
                (old(self)@, old(ep)@),
            ),
    {
        self.stop_a(ep);
        self.stop_b(ep);
        self.stop_c(ep);
        if self.transaction_type == TransactionType::ServerInvite {
            let reliable = match &self.connection {
                Some(c) => c.is_reliable(),
                None => return Err(self.fail("no connection found")),
            };
            if !reliable {
                self.start_g(ep, self.key.clone(), ep.option.t1);
            }
            if let Some(resp) = &self.last_response {
                match DialogId::from_response(resp, TransactionRole::Server) {
                    Ok(dialog_id) => self.expect_ack(ep, &dialog_id),
                    Err(e) => return Err(e),
                }
            }
            let wait: u64 = if self.is_accepted() {
                ep.option.t1x64
            } else {
                ep.option.t4
            };
            self.start_k(ep, wait);
        }
        self.start_d(ep, ep.option.t1x64);
        Ok(())
    }

    fn enter_confirmed(&mut self, ep: &mut EndpointInner)
        ensures
            (final(self)@, final(ep)@) == enter_confirmed((old(self)@, old(ep)@)),
    {
        self.cleanup_timer(ep);
        if self.transaction_type == TransactionType::ServerInvite {
            self.forget_ack(ep);
        }
        self.start_k(ep, ep.option.t4);
    }

    fn last_words(&mut self, ep: &EndpointInner) -> (last: Option<SipMessage>)
        ensures
            (final(self)@, last.deep_view()) == last_words(old(self)@, ep@.user_agent),
    {
        match self.transaction_type {
            TransactionType::ClientInvite => {
                if (self.state == TransactionState::Proceeding || self.state
                    == TransactionState::Trying) && self.last_ack.is_none() {
                    if let Some(resp) = &self.last_response {
                        let branch = branch_of(&self.original);
                        if let Ok(ack) = build::make_ack(
                            &self.original,
                            resp,
                            &branch,
                            &ep.user_agent,
                        ) {
                            self.last_ack = Some(ack);
                        }
                    }
                }
                match self.last_ack.take() {
                    Some(ack) => Some(SipMessage::Request(ack)),
                    None => None,
                }
            },
            TransactionType::ServerNonInvite | TransactionType::ServerInvite => {
                match self.last_response.take() {
                    Some(resp) => Some(SipMessage::Response(resp)),
                    None => None,
                }
            },
            TransactionType::ClientNonInvite => None,
        }
    }

    /// Gives back what the transaction holds of the endpoint. To be called when
    /// the transaction is dropped.
    pub fn cleanup(&mut self, ep: &mut EndpointInner)
        ensures
            (final(self)@, final(ep)@) == cleaned_up((old(self)@, old(ep)@)),
    {
        if self.is_cleaned_up {
            return;
        }
        self.is_cleaned_up = true;
        self.cleanup_timer(ep);
        let waits_for_ack = self.transaction_type == TransactionType::ServerInvite && self.state
            == TransactionState::Completed;
        if !waits_for_ack {
            self.forget_ack(ep);
        }
        let last = self.last_words(ep);
        ep.detach_transaction(&self.key, last);
    }

    /// Steps into `state`.
    fn transition(&mut self, ep: &mut EndpointInner, state: TransactionState) -> (r: Result<
        (),
        Error,
    >)
        ensures
            ((final(self)@, final(ep)@), error::result_view(r)) == stepped(
                (old(self)@, old(ep)@),
                state,
            ),
    {
        proof {
            reveal(stepped);
        }
        if self.state == state {
            return Ok(());
        }
        match state {
            TransactionState::Nothing => {},
            TransactionState::Calling => self.enter_calling(ep),
            TransactionState::Trying | TransactionState::Proceeding => self.enter_proceeding(ep),
            TransactionState::Completed => match self.enter_completed(ep) {
                Ok(()) => {},
                Err(e) => return Err(e),
            },
            TransactionState::Confirmed => self.enter_confirmed(ep),
            TransactionState::Terminated => {
                self.cleanup(ep);
                ep.post(self.channel, TransactionEvent::Terminate(self.key.clone()));
            },
        }
        self.state = state;
        Ok(())
    }
}

impl Transaction {
    /// Where the request goes: see [`search`].
    fn resolve_target_uri(&mut self, ep: &EndpointInner, locating: Pending, finding: Pending) -> (
        step: TxStep)
        ensures
            ((final(self)@, ep@), step@) == search((old(self)@, ep@), locating@, finding@),
    {
        match &self.destination {
            Some(addr) => {
                let target = addr.clone();
                self.pending = finding;
                TxStep::Lookup { target }
            },
            None => {
                let uri = self.original.destination();
                if ep.has_locator {
                    self.pending = locating;
                    TxStep::Locate { uri }
                } else {
                    self.pending = finding;
                    TxStep::Lookup { target: SipAddr::from_uri(&uri) }
                }
            },
        }
    }

    fn ready_to_send(&mut self, ep: &EndpointInner) -> (step: TxStep)
        ensures
            ((final(self)@, ep@), step@) == ready_to_send((old(self)@, ep@)),
    {
        if self.destination.is_none() {
            if let Some(connection) = &self.connection {
                if connection.is_reliable() {
                    self.destination = connection.get_remote_addr();
                }
            }
        }
        let length = build::content_length(&self.original.body);
        header::unique_push(&mut self.original.headers, length);
        self.pending = Pending::SendWrite;
        TxStep::Write {
            message: SipMessage::Request(self.original.clone()),
            connection: self.connection.clone(),
            destination: self.destination.clone(),
        }
    }

    /// Sends the request of a client transaction.
    pub fn send(&mut self, ep: &EndpointInner) -> (step: TxStep)
        ensures
            ((final(self)@, ep@), step@) == send(idle((old(self)@, ep@))),
    {
        self.pending = Pending::Idle;
        if !self.transaction_type.is_client() {
            let e = self.fail("send is only valid for client transactions");
            return TxStep::Done(Outcome::Failed(e));
        }
        if self.connection.is_none() {
            return self.resolve_target_uri(ep, Pending::SendLocate, Pending::SendLookup);
        }
        self.ready_to_send(ep)
    }

    fn state_after(&self, status: StatusCode) -> (r: TransactionState)
        ensures
            r == state_after(self@, status),
    {
        if status.kind() == StatusCodeKind::Provisional {
            if status == StatusCode::Trying {
                TransactionState::Trying
            } else {
                TransactionState::Proceeding
            }
        } else {
            match self.transaction_type {
                TransactionType::ServerInvite | TransactionType::ClientInvite => {
                    TransactionState::Completed
                },
                _ => TransactionState::Terminated,
            }
        }
    }

    fn respond_with(&mut self, ep: &EndpointInner, response: Response, quiet: bool) -> (step: TxStep)
        ensures
            ((final(self)@, ep@), step@) == respond((old(self)@, ep@),
                    response@,
                    quiet,
                ),
    {
        let next = self.state_after(response.status_code);
        let refused = if self.transaction_type.is_client() {
            Some(self.fail("respond is only valid for server transactions"))
        } else {
            match self.can_transition(next) {
                Err(e) => Some(e),
                Ok(()) => if self.connection.is_none() {
                    Some(self.fail("no connection found"))
                } else {
                    None
                },
            }
        };
        if let Some(e) = refused {
            return TxStep::Done(
                if quiet {
                    Outcome::Complete
                } else {
                    Outcome::Failed(e)
                },
            );
        }
        self.pending = Pending::RespondWrite { next, quiet };
        TxStep::Write {
            message: SipMessage::Response(response),
            connection: self.connection.clone(),
            destination: self.destination.clone(),
        }
    }

    /// Sends a response of a server transaction.
    pub fn respond(&mut self, ep: &EndpointInner, response: Response) -> (step: TxStep)
        ensures
            ((final(self)@, ep@), step@) == respond(
                idle((old(self)@, ep@)),
                response@,
                false,
            ),
    {
        self.pending = Pending::Idle;
        self.respond_with(ep, response, false)
    }

    /// Answers the request with a status, further headers and a body. A final
    /// answer needs a To tag: `tag` is taken where the request has none.
    pub fn reply_with_tag(
        &mut self,
        ep: &EndpointInner,
        status_code: StatusCode,
        headers: &Vec<Header>,
        body: Option<Vec<u8>>,
        tag: String,
    ) -> (step: TxStep)
        ensures
            ((final(self)@, ep@), step@) == reply(
                idle((old(self)@, ep@)),
                status_code,
                headers.deep_view(),
                match body {
                    Some(b) => b@,
                    None => Seq::empty(),
                },
                tag@,
            ),
    {
        self.pending = Pending::Idle;
        if status_code.kind() != StatusCodeKind::Provisional {
            let to = match message::to_addr(&self.original.headers) {
                Ok(to) => to,
                Err(e) => return TxStep::Done(Outcome::Failed(e)),
            };
            if to.tag().is_none() {
                header::unique_push(
                    &mut self.original.headers,
                    Header::To(Field::Typed(to.with_tag(tag))),
                );
            }
        }
        let mut resp = ep.make_response(&self.original, status_code, body);
        header::extend(&mut resp.headers, headers);
        self.respond_with(ep, resp, false)
    }

    /// Answers the request with a status, further headers and a body. A final
    /// answer gets a new To tag where the request has none.
    pub fn reply_with(
        &mut self,
        ep: &EndpointInner,
        status_code: StatusCode,
        headers: &Vec<Header>,
        body: Option<Vec<u8>>,
    ) -> (step: TxStep)
        ensures
            is_reply(
                idle((old(self)@, ep@)),
                status_code,
                headers.deep_view(),
                match body {
                    Some(b) => b@,
                    None => Seq::empty(),
                },
                ((final(self)@, ep@), step@),
            ),
    {
        let tag = ids::make_tag();
        assert(ids::is_tag(tag@));
        self.reply_with_tag(ep, status_code, headers, body, tag)
    }

    /// Answers the request with a status.
    pub fn reply(&mut self, ep: &EndpointInner, status_code: StatusCode) -> (step: TxStep)
        ensures
            is_reply(
                idle((old(self)@, ep@)),
                status_code,
                Seq::empty(),
                Seq::empty(),
                ((final(self)@, ep@), step@),
            ),
    {
        let none: Vec<Header> = Vec::new();
        assert(none.deep_view() == Seq::<HeaderView>::empty());
        self.reply_with(ep, status_code, &none, None)
    }

    /// Answers the request with `100 Trying`.
    pub fn send_trying(&mut self, ep: &EndpointInner) -> (step: TxStep)
        ensures
            ((final(self)@, ep@), step@) == respond(
                idle((old(self)@, ep@)),
                build::response_to(
                    old(self)@.original,
                    StatusCode::Trying,
                    Seq::empty(),
                    ep@.user_agent,
                ),
                false,
            ),
    {
        self.pending = Pending::Idle;
        let response = ep.make_response(&self.original, StatusCode::Trying, None);
        self.respond_with(ep, response, false)
    }

    /// Sends the CANCEL of an INVITE that has no final response.
    pub fn send_cancel(&mut self, ep: &EndpointInner, cancel: Request) -> (step: TxStep)
        ensures
            ((final(self)@, ep@), step@) == send_cancel(idle((old(self)@, ep@)), cancel@),
    {
        self.pending = Pending::Idle;
        if self.transaction_type != TransactionType::ClientInvite {
            let e = self.fail("send_cancel is only valid for client invite transactions");
            return TxStep::Done(Outcome::Failed(e));
        }
        match self.state {
            TransactionState::Calling | TransactionState::Trying | TransactionState::Proceeding => {
                if self.connection.is_some() {
                    self.pending = Pending::CancelWrite;
                    return TxStep::Write {
                        message: SipMessage::Request(cancel),
                        connection: self.connection.clone(),
                        destination: self.destination.clone(),
                    };
                }
                TxStep::Done(Outcome::Complete)
            },
            _ => {
                let mut m = "invalid state for sending CANCEL ".to_owned();
                m.append(self.state.name());
                let e = self.fail(m.as_str());
                TxStep::Done(Outcome::Failed(e))
            },
        }
    }

    fn answered(&mut self, ep: &EndpointInner, answer: Option<Response>) -> (step: TxStep)
        ensures
            ((final(self)@, ep@), step@) == answered((old(self)@, ep@),
                    answer.deep_view(),
                ),
    {
        match answer {
            Some(resp) => TxStep::Done(Outcome::Message(SipMessage::Response(resp))),
            None => TxStep::Done(Outcome::Complete),
        }
    }

    fn ack_ready(
        &mut self,
        ep: &EndpointInner,
        ack: Request,
        connection: Option<SipConnection>,
        answer: Option<Response>,
    ) -> (step: TxStep)
        ensures
            ((final(self)@, ep@), step@) == ack_ready((old(self)@, ep@),
                    ack@,
                    connection.deep_view(),
                    answer.deep_view(),
                ),
    {
        self.pending = Pending::AckWrite { answer };
        TxStep::Write {
            message: SipMessage::Request(ack),
            connection,
            destination: self.destination.clone(),
        }
    }

    fn ack_to_send(&self, ep: &EndpointInner, branch: &String) -> (r: Result<Request, Error>)
        ensures
            error::result_view(r) == ack_to_send(self@, branch@, ep@.user_agent),
    {
        if self.transaction_type != TransactionType::ClientInvite {
            return Err(self.fail("send_ack is only valid for client invite transactions"));
        }
        if self.state != TransactionState::Completed {
            let mut m = "invalid state for sending ACK ".to_owned();
            m.append(self.state.name());
            return Err(self.fail(m.as_str()));
        }
        match &self.last_ack {
            Some(ack) => Ok(ack.clone()),
            None => match &self.last_response {
                Some(resp) => build::make_ack(&self.original, resp, branch, &ep.user_agent),
                None => Err(self.fail("no last response found to send ACK")),
            },
        }
    }

    fn acknowledge(
        &mut self,
        ep: &EndpointInner,
        connection: Option<SipConnection>,
        branch: &String,
        answer: Option<Response>,
    ) -> (step: TxStep)
        ensures
            ((final(self)@, ep@), step@) == send_ack(
                (old(self)@, ep@),
                connection.deep_view(),
                branch@,
                answer.deep_view(),
            ),
    {
        let ack = match self.ack_to_send(ep, branch) {
            Ok(ack) => ack,
            Err(e) => {
                if answer.is_some() {
                    return self.answered(ep, answer);
                }
                return TxStep::Done(Outcome::Failed(e));
            },
        };
        let reuse_existing = match &connection {
            Some(c) => c.is_reliable(),
            None => false,
        };
        if self.is_accepted() && !reuse_existing {
            let target = ack.destination();
            if ep.has_locator {
                self.pending = Pending::AckLocate { ack, connection, answer };
                return TxStep::Locate { uri: target };
            }
            self.pending = Pending::AckLookup { ack, connection, answer };
            return TxStep::Lookup { target: SipAddr::from_uri(&target) };
        }
        self.ack_ready(ep, ack, connection, answer)
    }

    /// Acknowledges the final response to an INVITE. `branch` names the ACK of a
    /// 2xx.
    pub fn send_ack_with(
        &mut self,
        ep: &EndpointInner,
        connection: Option<SipConnection>,
        branch: &String,
    ) -> (step: TxStep)
        ensures
            ((final(self)@, ep@), step@) == send_ack(
                idle((old(self)@, ep@)),
                connection.deep_view(),
                branch@,
                None,
            ),
    {
        self.pending = Pending::Idle;
        self.acknowledge(ep, connection, branch, None)
    }

    /// Acknowledges the final response to an INVITE, the ACK of a 2xx with a new
    /// branch.
    pub fn send_ack(&mut self, ep: &EndpointInner, connection: Option<SipConnection>) -> (step:
        TxStep)
        ensures
            exists|branch: Seq<char>| #[trigger]
                ids::is_branch(branch) && ((final(self)@, ep@), step@) == send_ack(
                    idle((old(self)@, ep@)),
                    connection.deep_view(),
                    branch,
                    None,
                ),
    {
        let branch = ids::make_branch();
        assert(ids::is_branch(branch@));
        self.send_ack_with(ep, connection, &branch)
    }

    /// Stops sending the request again, and goes on waiting for a response.
    pub fn stop_retransmissions(&mut self, ep: &mut EndpointInner)
        ensures
            (final(self)@, final(ep)@) == stop_a(
                (TransactionView { retransmission: false, ..old(self)@ }, old(ep)@),
            ),
    {
        self.retransmission = false;
        self.stop_a(ep);
    }

    fn inform_tu_response(&self, ep: &mut EndpointInner, status: StatusCode)
        ensures
            (self@, final(ep)@) == told_locally((self@, old(ep)@), status),
    {
        let response = ep.make_response(&self.original, status, None);
        ep.post(self.channel, TransactionEvent::Local(response));
    }

    fn write_failed(&self, ep: &mut EndpointInner)
        ensures
            (self@, final(ep)@) == write_failed((self@, old(ep)@)),
    {
        if let Some(connection) = &self.connection {
            if connection.is_stream() {
                ep.transport_layer.retire_connection(connection);
                self.inform_tu_response(ep, StatusCode::ServiceUnavailable);
            }
        }
    }

    fn delivered(&mut self, ep: &EndpointInner, deliver: Option<Request>) -> (step: TxStep)
        ensures
            ((final(self)@, ep@), step@) == delivered((old(self)@, ep@),
                    deliver.deep_view(),
                ),
    {
        match deliver {
            Some(req) => TxStep::Done(Outcome::Message(SipMessage::Request(req))),
            None => TxStep::Done(Outcome::Complete),
        }
    }

    fn notice(
        &mut self,
        ep: &EndpointInner,
        req: &Request,
        status: StatusCode,
        deliver: Option<Request>,
    ) -> (step: TxStep)
        ensures
            ((final(self)@, ep@), step@) == notice(
                (old(self)@, ep@),
                req@,
                status,
                deliver.deep_view(),
            ),
    {
        if self.connection.is_some() {
            let resp = ep.make_response(req, status, None);
            self.pending = Pending::NoticeWrite { deliver };
            return TxStep::Write {
                message: SipMessage::Response(resp),
                connection: self.connection.clone(),
                destination: self.destination.clone(),
            };
        }
        self.delivered(ep, deliver)
    }

    fn seq_of(headers: &Vec<Header>) -> (r: Option<u32>)
        ensures
            r == TransactionView::seq_of(headers.deep_view()),
    {
        match message::cseq(headers) {
            Ok(c) => Some(c.seq),
            Err(_) => None,
        }
    }

    fn on_cancel(&mut self, ep: &EndpointInner, req: Request) -> (step: TxStep)
        ensures
            ((final(self)@, ep@), step@) == cancel_received((old(self)@, ep@), req@),
    {
        match self.state {
            TransactionState::Proceeding | TransactionState::Trying => {
                let deliver = req.clone();
                self.notice(ep, &req, StatusCode::OK, Some(deliver))
            },
            TransactionState::Completed => self.notice(ep, &req, StatusCode::OK, None),
            _ => self.notice(ep, &req, StatusCode::CallTransactionDoesNotExist, None),
        }
    }

    fn on_received_request(
        &mut self,
        ep: &mut EndpointInner,
        req: Request,
        connection: Option<SipConnection>,
    ) -> (step: TxStep)
        ensures
            ((final(self)@, final(ep)@), step@) == request_received(
                (old(self)@, old(ep)@),
                req@,
                connection.deep_view(),
            ),
    {
        if self.transaction_type.is_client() {
            return TxStep::Done(Outcome::Complete);
        }
        if self.connection.is_none() {
            self.connection = connection;
        }
        assert((self@, ep@) == reached_over((old(self)@, old(ep)@), connection.deep_view()));
        if req.method == Method::Cancel {
            return self.on_cancel(ep, req);
        }
        match self.state {
            TransactionState::Trying | TransactionState::Proceeding => {
                let last_response = self.last_response.clone();
                if let Some(last_response) = last_response {
                    return self.respond_with(ep, last_response, true);
                }
                TxStep::Done(Outcome::Complete)
            },
            TransactionState::Completed | TransactionState::Confirmed => {
                if req.method != Method::Ack {
                    return TxStep::Done(Outcome::Complete);
                }
                let ack_seq = Self::seq_of(&req.headers);
                let invite_seq = Self::seq_of(&self.original.headers);
                if ack_seq != invite_seq {
                    return TxStep::Done(Outcome::Complete);
                }
                let _ = self.transition(ep, TransactionState::Confirmed);
                TxStep::Done(Outcome::Message(SipMessage::Request(req)))
            },
            _ => TxStep::Done(Outcome::Complete),
        }
    }

    fn is_repeated(&self, resp: &Response) -> (r: bool)
        ensures
            r == is_repeated(self@, resp@),
    {
        if self.state != self.state_after(resp.status_code) {
            return false;
        }
        match &self.last_response {
            Some(last) => last.status_code == resp.status_code && same_bytes(
                &last.body,
                &resp.body,
            ),
            None => false,
        }
    }

    fn on_received_response(
        &mut self,
        ep: &mut EndpointInner,
        resp: Response,
        connection: Option<SipConnection>,
        branch: &String,
    ) -> (step: TxStep)
        ensures
            ((final(self)@, final(ep)@), step@) == response_received(
                (old(self)@, old(ep)@),
                resp@,
                connection.deep_view(),
                branch@,
            ),
    {
        let next = self.state_after(resp.status_code);
        if !self.transaction_type.is_client() || self.can_transition(next).is_err()
            || self.is_repeated(&resp) {
            return TxStep::Done(Outcome::Complete);
        }
        self.last_response = Some(resp.clone());
        let _ = self.transition(ep, next);
        if next == TransactionState::Completed {
            return self.acknowledge(ep, connection, branch, Some(resp));
        }
        TxStep::Done(Outcome::Message(SipMessage::Response(resp)))
    }

    fn retry(&mut self, ep: &mut EndpointInner, key: TransactionKey, interval: u64) -> (step:
        TxStep)
        ensures
            ((final(self)@, final(ep)@), step@) == retry((old(self)@, old(ep)@), key@, interval),
    {
        if self.connection.is_some() {
            self.pending = Pending::RetryWrite { key, interval };
            return TxStep::Write {
                message: SipMessage::Request(self.original.clone()),
                connection: self.connection.clone(),
                destination: self.destination.clone(),
            };
        }
        self.start_a(ep, key, double(interval, ep.option.t1x64));
        TxStep::Done(Outcome::Complete)
    }

    fn restart_g(&mut self, ep: &mut EndpointInner, key: TransactionKey, interval: u64)
        ensures
            (final(self)@, final(ep)@) == start_g(
                (old(self)@, old(ep)@),
                key@,
                doubled(interval, resend_cap((old(self)@, old(ep)@))),
            ),
    {
        let cap: u64 = if self.is_accepted() {
            ep.option.t2
        } else {
            ep.option.t1x64
        };
        self.start_g(ep, key, double(interval, cap));
    }

    fn on_timer(&mut self, ep: &mut EndpointInner, timer: TransactionTimer) -> (step: TxStep)
        ensures
            ((final(self)@, final(ep)@), step@) == timer_fired((old(self)@, old(ep)@), timer@),
    {
        match self.state {
            TransactionState::Calling | TransactionState::Trying => {
                if !self.transaction_type.is_client() {
                    return TxStep::Done(Outcome::Complete);
                }
                match timer {
                    TransactionTimer::TimerA(key, interval) => {
                        if !self.retransmission {
                            return TxStep::Done(Outcome::Complete);
                        }
                        if self.connection.is_none() {
                            return self.resolve_target_uri(
                                ep,
                                Pending::RetryLocate { key: key.clone(), interval },
                                Pending::RetryLookup { key, interval },
                            );
                        }
                        self.retry(ep, key, interval)
                    },
                    TransactionTimer::TimerB(_) => {
                        self.inform_tu_response(ep, StatusCode::RequestTimeout);
                        TxStep::Done(Outcome::Complete)
                    },
                    _ => TxStep::Done(Outcome::Complete),
                }
            },
            TransactionState::Proceeding => {
                if let TransactionTimer::TimerC(_) = timer {
                    self.inform_tu_response(ep, StatusCode::RequestTimeout);
                }
                TxStep::Done(Outcome::Complete)
            },
            TransactionState::Completed => match timer {
                TransactionTimer::TimerG(key, interval) => {
                    let last_response = self.last_response.clone();
                    if let Some(last_response) = last_response {
                        if self.connection.is_some() {
                            self.pending = Pending::ResendWrite { key, interval };
                            return TxStep::Write {
                                message: SipMessage::Response(last_response),
                                connection: self.connection.clone(),
                                destination: self.destination.clone(),
                            };
                        }
                    }
                    self.restart_g(ep, key, interval);
                    TxStep::Done(Outcome::Complete)
                },
                TransactionTimer::TimerD(_) | TransactionTimer::TimerK(_) => {
                    let _ = self.transition(ep, TransactionState::Terminated);
                    TxStep::Done(Outcome::Complete)
                },
                _ => TxStep::Done(Outcome::Complete),
            },
            TransactionState::Confirmed => {
                if let TransactionTimer::TimerK(_) = timer {
                    let _ = self.transition(ep, TransactionState::Terminated);
                }
                TxStep::Done(Outcome::Complete)
            },
            _ => TxStep::Done(Outcome::Complete),
        }
    }

    /// Takes the next event. `branch` names the ACK of a 2xx, if one is sent. The
    /// user of the transaction gets the message of [`Outcome::Message`], and on
    /// any other outcome but [`Outcome::Ended`] waits for the next event.
    pub fn receive_with(
        &mut self,
        ep: &mut EndpointInner,
        event: TransactionEvent,
        branch: &String,
    ) -> (step: TxStep)
        ensures
            ((final(self)@, final(ep)@), step@) == event_received(
                idle((old(self)@, old(ep)@)),
                event.deep_view(),
                branch@,
            ),
    {
        self.pending = Pending::Idle;
        match event {
            TransactionEvent::Received(SipMessage::Request(req), connection) => {
                self.on_received_request(ep, req, connection)
            },
            TransactionEvent::Received(SipMessage::Response(resp), connection) => {
                self.on_received_response(ep, resp, connection, branch)
            },
            TransactionEvent::Local(resp) => self.on_received_response(ep, resp, None, branch),
            TransactionEvent::Timer(t) => self.on_timer(ep, t),
            TransactionEvent::Respond(response) => self.respond_with(ep, response, true),
            TransactionEvent::Terminate(_) => TxStep::Done(Outcome::Ended),
        }
    }

    /// Takes the next event, as [`Transaction::receive_with`] does with a new
    /// branch.
    pub fn receive(&mut self, ep: &mut EndpointInner, event: TransactionEvent) -> (step: TxStep)
        ensures
            exists|branch: Seq<char>| #[trigger]
                ids::is_branch(branch) && ((final(self)@, final(ep)@), step@) == event_received(
                    idle((old(self)@, old(ep)@)),
                    event.deep_view(),
                    branch,
                ),
    {
        let branch = ids::make_branch();
        assert(ids::is_branch(branch@));
        self.receive_with(ep, event, &branch)
    }

    fn take_pending(&mut self) -> (r: Pending)
        ensures
            r@ == old(self)@.pending,
            final(self)@ == (TransactionView { pending: PendingView::Idle, ..old(self)@ }),
    {
        let mut pending = Pending::Idle;
        std::mem::swap(&mut pending, &mut self.pending);
        pending
    }

    /// Goes on once the target is located, or could not be.
    pub fn located(&mut self, ep: &mut EndpointInner, r: Result<SipAddr, Error>) -> (step: TxStep)
        ensures
            ((final(self)@, final(ep)@), step@) == located(
                idle((old(self)@, old(ep)@)),
                old(self)@.pending,
                error::result_view(r),
            ),
    {
        match self.take_pending() {
            Pending::SendLocate => match r {
                Ok(target) => {
                    self.pending = Pending::SendLookup;
                    TxStep::Lookup { target }
                },
                Err(e) => TxStep::Done(Outcome::Failed(e)),
            },
            Pending::AckLocate { ack, connection, answer } => match r {
                Ok(target) => {
                    self.pending = Pending::AckLookup { ack, connection, answer };
                    TxStep::Lookup { target }
                },
                Err(_) => self.ack_ready(ep, ack, connection, answer),
            },
            Pending::RetryLocate { key, interval } => match r {
                Ok(target) => {
                    self.pending = Pending::RetryLookup { key, interval };
                    TxStep::Lookup { target }
                },
                Err(_) => self.retry(ep, key, interval),
            },
            _ => TxStep::Done(Outcome::Complete),
        }
    }

    fn bind(&mut self, ep: &EndpointInner, r: Result<(SipConnection, SipAddr), Error>)
        ensures
            (final(self)@, ep@) == bound((old(self)@, ep@), error::result_view(r)),
    {
        if let Ok((connection, addr)) = r {
            self.connection = Some(connection);
            self.destination = Some(addr);
        }
    }

    /// Goes on once a connection is found, or could not be.
    pub fn looked_up(
        &mut self,
        ep: &mut EndpointInner,
        r: Result<(SipConnection, SipAddr), Error>,
    ) -> (step: TxStep)
        ensures
            ((final(self)@, final(ep)@), step@) == looked_up(
                idle((old(self)@, old(ep)@)),
                old(self)@.pending,
                error::result_view(r),
            ),
    {
        match self.take_pending() {
            Pending::SendLookup => {
                self.bind(ep, r);
                self.ready_to_send(ep)
            },
            Pending::AckLookup { ack, connection, answer } => match r {
                Ok((found, addr)) => {
                    if !found.is_reliable() {
                        self.destination = Some(addr);
                    }
                    self.ack_ready(ep, ack, Some(found), answer)
                },
                Err(_) => self.ack_ready(ep, ack, connection, answer),
            },
            Pending::RetryLookup { key, interval } => {
                self.bind(ep, r);
                self.retry(ep, key, interval)
            },
            _ => TxStep::Done(Outcome::Complete),
        }
    }

    fn response_written(
        &mut self,
        ep: &mut EndpointInner,
        next: TransactionState,
        quiet: bool,
        sent: SipMessage,
        r: Result<(), Error>,
    ) -> (step: TxStep)
        ensures
            ((final(self)@, final(ep)@), step@) == response_written(
                (old(self)@, old(ep)@),
                next,
                quiet,
                sent@,
                error::result_view(r),
            ),
    {
        if let SipMessage::Response(resp) = sent {
            self.last_response = Some(resp);
        }
        assert((self@, ep@) == with_sent_response((old(self)@, old(ep)@), sent@));
        let entered = match r {
            Ok(()) => self.transition(ep, next),
            Err(e) => Err(e),
        };
        TxStep::Done(
            if quiet {
                Outcome::Complete
            } else {
                outcome_of(entered)
            },
        )
    }

    fn ack_written(&mut self, ep: &mut EndpointInner, answer: Option<Response>, sent: SipMessage) -> (
        step: TxStep)
        ensures
            ((final(self)@, final(ep)@), step@) == ack_written(
                (old(self)@, old(ep)@),
                answer.deep_view(),
                sent@,
            ),
    {
        if let SipMessage::Request(ack) = sent {
            self.last_ack = Some(ack);
        }
        let _ = self.transition(ep, TransactionState::Terminated);
        self.answered(ep, answer)
    }

    fn retry_written(
        &mut self,
        ep: &mut EndpointInner,
        key: TransactionKey,
        interval: u64,
        r: Result<(), Error>,
    ) -> (step: TxStep)
        ensures
            ((final(self)@, final(ep)@), step@) == retry_written(
                (old(self)@, old(ep)@),
                key@,
                interval,
                error::result_view(r),
            ),
    {
        let stream = match &self.connection {
            Some(c) => c.is_stream(),
            None => false,
        };
        if r.is_err() && stream {
            self.write_failed(ep);
        } else {
            self.start_a(ep, key, double(interval, ep.option.t1x64));
        }
        TxStep::Done(Outcome::Complete)
    }

    /// Goes on once `sent` went out, or could not be written.
    pub fn written(&mut self, ep: &mut EndpointInner, sent: SipMessage, r: Result<(), Error>) -> (
        step: TxStep)
        ensures
            ((final(self)@, final(ep)@), step@) == written(
                idle((old(self)@, old(ep)@)),
                old(self)@.pending,
                sent@,
                error::result_view(r),
            ),
    {
        match self.take_pending() {
            Pending::SendWrite => {
                let entered = self.transition(ep, TransactionState::Calling);
                if r.is_err() {
                    self.write_failed(ep);
                }
                TxStep::Done(outcome_of(entered))
            },
            Pending::RespondWrite { next, quiet } => self.response_written(
                ep,
                next,
                quiet,
                sent,
                r,
            ),
            Pending::CancelWrite => TxStep::Done(outcome_of(r)),
            Pending::AckWrite { answer } => self.ack_written(ep, answer, sent),
            Pending::RetryWrite { key, interval } => self.retry_written(ep, key, interval, r),
            Pending::ResendWrite { key, interval } => {
                if r.is_ok() {
                    self.restart_g(ep, key, interval);
                }
                TxStep::Done(Outcome::Complete)
            },
            Pending::NoticeWrite { deliver } => self.delivered(ep, deliver),
            _ => TxStep::Done(Outcome::Complete),
        }
    }
}

/// Compares two lists of bytes.
pub fn same_bytes(a: &Vec<u8>, b: &Vec<u8>) -> (same: bool)
    ensures
        same == (a@ == b@),
{
    if a.len() != b.len() {
        return false;
    }
    let mut i: usize = 0;
    while i < a.len()
        invariant
            a.len() == b.len(),
            i <= a.len(),
            forall|j: int| 0 <= j < i ==> a@[j] == b@[j],
        decreases a.len() - i,
    {
        if a[i] != b[i] {
            return false;
        }
        i = i + 1;
    }
    assert(a@ == b@);
    true
}

/// A server answers its request. A final answer has a To tag: `tag` is taken
/// where the request has none.
pub open spec fn reply(
    p: Both,
    status: StatusCode,
    headers: Seq<HeaderView>,
    body: Seq<u8>,
    tag: Seq<char>,
) -> (Both, TxStepView) {
    let tagged = if status.spec_kind() == StatusCodeKind::Provisional {
        Ok(p.0.original)
    } else {
        match message::to_of(p.0.original.headers) {
            Err(e) => Err(e),
            Ok(to) => Ok(
                if to.tag() is None {
                    RequestView {
                        headers: header::unique_pushed(
                            p.0.original.headers,
                            HeaderView::To(FieldView::Typed(to.with_tag(tag))),
                        ),
                        ..p.0.original
                    }
                } else {
                    p.0.original
                },
            ),
        }
    };
    match tagged {
        Err(e) => done(p, OutcomeView::Failed(e)),
        Ok(original) => {
            let answer = build::response_to(original, status, body, p.1.user_agent);
            respond(
                (TransactionView { original, ..p.0 }, p.1),
                ResponseView { headers: answer.headers + headers, ..answer },
                false,
            )
        },
    }
}

/// `after` is what an answer to the request comes to with some new tag.
pub open spec fn is_reply(
    p: Both,
    status: StatusCode,
    headers: Seq<HeaderView>,
    body: Seq<u8>,
    after: (Both, TxStepView),
) -> bool {
    exists|tag: Seq<char>| #[trigger]
        ids::is_tag(tag) && after == reply(p, status, headers, body, tag)
}

/// The kind of transaction that a client opens with a request.
pub open spec fn client_type(method: Method) -> TransactionType {
    if method == Method::Invite {
        TransactionType::ClientInvite
    } else {
        TransactionType::ClientNonInvite
    }
}

/// The kind of transaction that a server opens for a request.
pub open spec fn server_type(method: Method) -> TransactionType {
    if method == Method::Invite || method == Method::Ack {
        TransactionType::ServerInvite
    } else {
        TransactionType::ServerNonInvite
    }
}

/// A new transaction, and the endpoint that knows it.
pub open spec fn created(
    ep: EndpointView,
    transaction_type: TransactionType,
    key: Seq<char>,
    original: RequestView,
    connection: Option<SipConnectionView>,
) -> Both {
    (
        TransactionView {
            transaction_type,
            key,
            original,
            destination: None,
            state: if transaction_type.spec_is_client() {
                TransactionState::Nothing
            } else {
                TransactionState::Trying
            },
            connection,
            last_response: None,
            last_ack: None,
            channel: ep.next_channel,
            timer_a: None,
            timer_b: None,
            timer_c: None,
            timer_d: None,
            timer_k: None,
            timer_g: None,
            retransmission: true,
            is_cleaned_up: false,
            pending: PendingView::Idle,
        },
        EndpointView {
            next_channel: crate::transaction::timer::next_number(ep.next_channel),
            ..ep.attach(key, ep.next_channel)
        },
    )
}

/// What becomes of a message that no finished transaction answers.
pub enum Dispatch {
    /// Its transaction is told of it.
    Delivered,
    /// Nothing waits for it.
    Ignored,
    /// This is sent back over the connection.
    Reply { message: SipMessage, target: ReplyTarget },
    /// It opens this transaction.
    Incoming(Transaction),
}

#[verifier::ext_equal]
pub enum DispatchView {
    Delivered,
    Ignored,
    Reply { message: SipMessageView, target: ReplyTargetView },
    Incoming(TransactionView),
}

impl DeepView for Dispatch {
    type V = DispatchView;

    open spec fn deep_view(&self) -> DispatchView {
        match self {
            Dispatch::Delivered => DispatchView::Delivered,
            Dispatch::Ignored => DispatchView::Ignored,
            Dispatch::Reply { message, target } => DispatchView::Reply {
                message: message@,
                target: target@,
            },
            Dispatch::Incoming(tx) => DispatchView::Incoming(tx@),
        }
    }
}

/// A message goes to its transaction; a request without one opens one, but for a
/// CANCEL, which is refused, and an ACK.
pub open spec fn dispatched(
    ep: EndpointView,
    key: Seq<char>,
    msg: SipMessageView,
    c: SipConnectionView,
) -> (EndpointView, Result<DispatchView, ErrorView>) {
    if ep.transactions.contains_key(key) {
        (
            ep.post(ep.transactions[key], TransactionEventView::Received(msg, Some(c))),
            Ok(DispatchView::Delivered),
        )
    } else {
        match msg {
            SipMessageView::Response(resp) => match message::cseq_of(resp.headers) {
                Ok(_) => (ep, Ok(DispatchView::Ignored)),
                Err(e) => (ep, Err(e)),
            },
            SipMessageView::Request(req) => match req.method {
                Method::Cancel => (
                    ep,
                    Ok(
                        DispatchView::Reply {
                            message: SipMessageView::Response(
                                build::response_to(
                                    req,
                                    StatusCode::CallTransactionDoesNotExist,
                                    Seq::empty(),
                                    ep.user_agent,
                                ),
                            ),
                            target: endpoint::answer_over(c, req.headers),
                        },
                    ),
                ),
                Method::Ack => (ep, Ok(DispatchView::Ignored)),
                _ => {
                    let (tx, after) = created(ep, server_type(req.method), key, req, Some(c));
                    (after, Ok(DispatchView::Incoming(tx)))
                },
            },
        }
    }
}

impl EndpointInner {
    /// Hands a message to the transaction `key`, or opens that transaction.
    pub fn dispatch(&mut self, key: TransactionKey, msg: SipMessage, connection: SipConnection) -> (r:
        Result<Dispatch, Error>)
        ensures
            (final(self)@, error::result_view(r)) == dispatched(
                old(self)@,
                key@,
                msg@,
                connection@,
            ),
    {
        if let Some(channel) = maps::numbers_get(&self.transactions, &key.0) {
            self.post(channel, TransactionEvent::Received(msg, Some(connection)));
            return Ok(Dispatch::Delivered);
        }
        let request = match msg {
            SipMessage::Request(req) => req,
            SipMessage::Response(resp) => {
                return match message::cseq(&resp.headers) {
                    Ok(_) => Ok(Dispatch::Ignored),
                    Err(e) => Err(e),
                };
            },
        };
        match request.method {
            Method::Cancel => {
                let resp = self.make_response(
                    &request,
                    StatusCode::CallTransactionDoesNotExist,
                    None,
                );
                let target = if connection.is_reliable() {
                    ReplyTarget::Connection
                } else {
                    self.get_destination_from_request(&request)
                };
                Ok(Dispatch::Reply { message: SipMessage::Response(resp), target })
            },
            Method::Ack => Ok(Dispatch::Ignored),
            _ => {
                let tx = Transaction::new_server(key, request, self, Some(connection));
                Ok(Dispatch::Incoming(tx))
            },
        }
    }
}

}

//! How an endpoint hands messages and timers to its transactions.

use super::client_laws;
use super::endpoint;
use super::endpoint::{
    EndpointOptionView, EndpointView, ReceptionView, ReplyTargetView, TransactionEventView,
};
use super::key;
use super::message as build;
use super::key::TransactionRole;
use super::timer::TransactionTimerView;
use super::server_laws;
use super::transaction;
use super::transaction::{DispatchView, TransactionState, TransactionType};
use crate::dialog::id;
use crate::dialog::id::DialogIdView;
use crate::dialog::message_laws;
use crate::error::ErrorView;
use crate::lists;
use crate::sip::basic::{Method, Scheme, Transport, Version};
use crate::sip::header;
use crate::sip::header::{CSeq, FieldView, HeaderKind, HeaderView};
use crate::sip::message;
use crate::sip::message::{RequestView, ResponseView, SipMessageView};
use crate::sip::status::{StatusCode, StatusCodeKind};
use crate::sip::uri;
use crate::sip::uri::{NameAddrView, ParamView, UriView, ViaView};
use crate::text;
use crate::transport::connection::SipConnectionView;
use crate::transport::sip_addr::SipAddrView;
use vstd::prelude::*;

verus! {

/// A request that belongs to no transaction that is over goes to its transaction.
/// One that comes in again after its transaction is over gets the last message of
/// the transaction, whatever came before: back over the connection, where that is
/// reliable. The endpoint stays as it is.
pub proof fn law_finished_request_is_answered_again(
    ep: EndpointView,
    req: RequestView,
    c: SipConnectionView,
    from: SipAddrView,
    k: Seq<char>,
)
    requires
        req.method != Method::Ack,
        key::key_of_request(req, TransactionRole::Server) == Ok::<_, ErrorView>(k),
    ensures
        ({
            let (after, r) = ep.receive(SipMessageView::Request(req), c, from);
            let last = if ep.finished.contains_key(k) {
                ep.finished[k]
            } else {
                None
            };
            &&& after == ep
            &&& last is None ==> r == Ok::<_, ErrorView>(ReceptionView::Forward(k))
            &&& last matches Some(m) ==> {
                &&& r matches Ok(ReceptionView::Reply { message, target })
                &&& message == m
                &&& !(c is Udp) ==> target == ReplyTargetView::Connection
            }
        }),
{
}

/// The answer to a request that came in over UDP goes to where the top Via says:
/// to its host and port over its transport. A host that is a name is resolved
/// first.
pub proof fn law_answer_goes_where_the_via_says(
    ep: EndpointView,
    req: RequestView,
    c: SipConnectionView,
    from: SipAddrView,
    k: Seq<char>,
    m: SipMessageView,
    top: ViaView,
)
    requires
        req.method != Method::Ack,
        key::key_of_request(req, TransactionRole::Server) == Ok::<_, ErrorView>(k),
        ep.finished.contains_key(k),
        ep.finished[k] == Some(m),
        c is Udp,
        header::first_via(req.headers) == Some(FieldView::Typed(top)),
        forall|i: int|
            0 <= i < top.params.len() ==> !(#[trigger] top.params[i] is Received || top.params[i]
                is Rport || top.params[i] is Transport),
    ensures
        ({
            let place = SipAddrView {
                transport: Some(top.transport),
                addr: top.uri.host_with_port,
            };
            ep.receive(SipMessageView::Request(req), c, from).1 == Ok::<_, ErrorView>(
                ReceptionView::Reply {
                    message: m,
                    target: if top.uri.host_with_port.host is Domain {
                        ReplyTargetView::Resolve(place)
                    } else {
                        ReplyTargetView::Addr(place)
                    },
                },
            )
        }),
{
    lemma_target_is_the_host(
        (top.transport, top.uri.host_with_port),
        top.params,
    );
}

proof fn lemma_target_is_the_host(
    start: (Transport, crate::sip::uri::HostWithPortView),
    params: Seq<ParamView>,
)
    requires
        forall|i: int|
            0 <= i < params.len() ==> !(#[trigger] params[i] is Received || params[i] is Rport
                || params[i] is Transport),
    ensures
        crate::transport::connection::target_after(start, params) == start,
    decreases params.len(),
{
    if params.len() > 0 {
        let rest = params.drop_last();
        assert forall|i: int| 0 <= i < rest.len() implies !(#[trigger] rest[i] is Received
            || rest[i] is Rport || rest[i] is Transport) by {
            assert(rest[i] == params[i]);
        }
        lemma_target_is_the_host(start, rest);
        assert(!(params[params.len() - 1] is Rport));
    }
}

/// The ACK of a 2xx goes to the transaction that waits for it, by the dialog and
/// the number of the INVITE; any other ACK by its own name. One for a transaction
/// that is over is taken in, and the transaction does not wait for it any more.
pub proof fn law_ack_goes_to_the_transaction_that_waits(
    ep: EndpointView,
    ack: RequestView,
    c: SipConnectionView,
    from: SipAddrView,
    own: Seq<char>,
    d: DialogIdView,
    cseq: CSeq,
)
    requires
        ack.method == Method::Ack,
        key::key_of_request(ack, TransactionRole::Server) == Ok::<_, ErrorView>(own),
        id::dialog_of(ack.headers, TransactionRole::Server) == Ok::<_, ErrorView>(d),
        header::first_cseq(ack.headers) == Some(FieldView::Typed(cseq)),
    ensures
        ({
            let (after, r) = ep.receive(SipMessageView::Request(ack), c, from);
            let name = (d.call_id, d.local_tag, d.remote_tag, cseq.seq);
            let k = if ep.waiting_ack_cseq.contains_key(name) {
                ep.waiting_ack_cseq[name]
            } else {
                own
            };
            let over = ep.finished.contains_key(k) && ep.finished[k] is Some;
            &&& !over ==> after == ep && r == Ok::<_, ErrorView>(ReceptionView::Forward(k))
            &&& over ==> {
                &&& r == Ok::<_, ErrorView>(ReceptionView::Absorbed)
                &&& forall|n: (Seq<char>, Seq<char>, Seq<char>, u32)| #[trigger]
                    after.waiting_ack_cseq.contains_key(n) <==> ep.waiting_ack_cseq.contains_key(n)
                        && ep.waiting_ack_cseq[n] != k
                &&& after.transactions == ep.transactions && after.finished == ep.finished
                    && after.timers == ep.timers && after.outbox == ep.outbox
            }
        }),
{
}

/// A response goes to its transaction. The final response to an INVITE that comes
/// in again once the transaction is over gets the ACK that was sent for it: a
/// refusal of the request back to where it came from. A provisional response that
/// comes so late is dropped, and so is a response to any other request.
pub proof fn law_late_response_gets_its_ack(
    ep: EndpointView,
    resp: ResponseView,
    c: SipConnectionView,
    from: SipAddrView,
    k: Seq<char>,
)
    requires
        key::key_of_response(resp, TransactionRole::Client) == Ok::<_, ErrorView>(k),
    ensures
        ({
            let (after, r) = ep.receive(SipMessageView::Response(resp), c, from);
            let last = if ep.finished.contains_key(k) {
                ep.finished[k]
            } else {
                None
            };
            &&& after == ep
            &&& last is None ==> r == Ok::<_, ErrorView>(ReceptionView::Forward(k))
            &&& last matches Some(SipMessageView::Response(_)) ==> r == Ok::<_, ErrorView>(
                ReceptionView::Absorbed,
            )
            &&& last matches Some(SipMessageView::Request(ack)) ==> {
                &&& ack.method != Method::Ack || resp.status_code.spec_kind()
                    == StatusCodeKind::Provisional ==> r == Ok::<_, ErrorView>(
                    ReceptionView::Absorbed,
                )
                &&& ack.method == Method::Ack && resp.status_code.spec_kind()
                    == StatusCodeKind::RequestFailure ==> {
                    &&& r matches Ok(ReceptionView::Reply { message, target })
                    &&& target == ReplyTargetView::Addr(from)
                    &&& message matches SipMessageView::Request(sent)
                    &&& sent.method == Method::Ack && sent.uri == ack.uri && sent.body == ack.body
                }
            }
        }),
{
}

/// The ACK that is sent again bears the To tag of the response that it is for, and
/// is otherwise the ACK that was sent.
pub proof fn law_repeated_ack_names_the_responses_tag(
    ack: RequestView,
    resp: ResponseView,
    to: NameAddrView,
    tag: Seq<char>,
)
    requires
        header::first_to(ack.headers) == Some(FieldView::Typed(to)),
        message::to_tag_of(resp.headers) == Ok::<_, ErrorView>(Some(tag)),
    ensures
        ({
            let sent = endpoint::ack_with_tag(ack, resp);
            &&& sent.method == ack.method && sent.uri == ack.uri && sent.body == ack.body
            &&& sent.headers.len() == ack.headers.len()
            &&& header::first_to(sent.headers) matches Some(FieldView::Typed(t)) && t.uri == to.uri
                && t.display_name == to.display_name && t.tag() == Some(tag)
            &&& forall|i: int|
                0 <= i < ack.headers.len() && !(ack.headers[i] is To) ==> #[trigger] sent.headers[i]
                    == ack.headers[i]
        }),
{
    let pick = |h: HeaderView| header::as_to(h);
    let i = header::first_index(ack.headers, HeaderKind::To);
    header::lemma_first_index(ack.headers, HeaderKind::To);
    let k = lists::lemma_first_of_found(ack.headers, pick);
    if i >= ack.headers.len() {
        assert(ack.headers[k].kind() == HeaderKind::To);
    }
    assert forall|j: int| 0 <= j < i implies pick(#[trigger] ack.headers[j]) is None by {
        assert(ack.headers[j].kind() != HeaderKind::To);
    }
    lists::law_first_of_is_the_first(ack.headers, i, pick);
    let sent = endpoint::ack_with_tag(ack, resp);
    assert forall|j: int| 0 <= j < i implies pick(#[trigger] sent.headers[j]) is None by {
        assert(sent.headers[j] == ack.headers[j]);
    }
    lists::law_first_of_is_the_first(sent.headers, i, pick);
    crate::sip::laws::law_new_tag_is_the_only_one(to, tag);
}

/// A timer that fires goes to the transaction that it belongs to, if that still
/// runs, and to no other; it changes nothing else.
pub proof fn law_timer_goes_to_its_transaction(ep: EndpointView, k: Seq<char>, interval: u64)
    ensures
        ({
            let fired = seq![
                TransactionTimerView::TimerA(k, interval),
                TransactionTimerView::TimerB(k),
                TransactionTimerView::TimerC(k),
                TransactionTimerView::TimerD(k),
                TransactionTimerView::TimerK(k),
                TransactionTimerView::TimerG(k, interval),
            ];
            forall|i: int|
                0 <= i < 6 ==> ep.timer_fired(#[trigger] fired[i])
                    == if ep.transactions.contains_key(k) {
                    EndpointView {
                        outbox: ep.outbox.push(
                            (ep.transactions[k], TransactionEventView::Timer(fired[i])),
                        ),
                        ..ep
                    }
                } else {
                    ep
                }
        }),
{
    let fired = seq![
        TransactionTimerView::TimerA(k, interval),
        TransactionTimerView::TimerB(k),
        TransactionTimerView::TimerC(k),
        TransactionTimerView::TimerD(k),
        TransactionTimerView::TimerK(k),
        TransactionTimerView::TimerG(k, interval),
    ];
    assert forall|i: int| 0 <= i < 6 implies ep.timer_fired(#[trigger] fired[i])
        == if ep.transactions.contains_key(k) {
        EndpointView {
            outbox: ep.outbox.push((ep.transactions[k], TransactionEventView::Timer(fired[i]))),
            ..ep
        }
    } else {
        ep
    } by {
        assert(i == 0 || i == 1 || i == 2 || i == 3 || i == 4 || i == 5);
    }
}

/// The last message of a transaction that is over is kept for 64*T1, after which
/// it is forgotten; the name of the transaction is free at once.
pub proof fn law_last_message_is_kept_for_a_while(
    ep: EndpointView,
    k: Seq<char>,
    m: SipMessageView,
    other: Seq<char>,
)
    requires
        other != k,
    ensures
        ({
            let after = ep.detach(k, Some(m));
            let late = after.timer_fired(TransactionTimerView::TimerCleanup(k));
            &&& !after.transactions.contains_key(k)
            &&& after.finished.contains_key(k) && after.finished[k] == Some(m)
            &&& client_laws::runs(
                after,
                Some(ep.timers.next_id),
                ep.option.t1x64,
                TransactionTimerView::TimerCleanup(k),
            )
            &&& !late.finished.contains_key(k) && !late.transactions.contains_key(k)
            &&& late.finished.contains_key(other) == ep.finished.contains_key(other)
            &&& late.transactions.contains_key(other) == ep.transactions.contains_key(other)
        }),
        ({
            let after = ep.detach(k, None);
            !after.transactions.contains_key(k) && after.finished == ep.finished && after.timers
                == ep.timers
        }),
{
}

/// A timer that is started runs under a number of its own, and one that is stopped
/// does not run; the others go on.
pub proof fn law_timers_are_kept_apart(
    ep: EndpointView,
    delay: u64,
    timer: TransactionTimerView,
    i: u64,
    other: u64,
)
    requires
        other != ep.timers.next_id,
        other != i,
    ensures
        ({
            let after = ep.start_timer(delay, timer);
            &&& client_laws::runs(after, Some(ep.timers.next_id), delay, timer)
            &&& after.timers.pending.contains_key(other) == ep.timers.pending.contains_key(other)
            &&& ep.timers.pending.contains_key(other) ==> after.timers.pending[other]
                == ep.timers.pending[other]
            &&& ep.timers.next_id < u64::MAX ==> after.timers.next_id == ep.timers.next_id + 1
        }),
        ({
            let after = ep.cancel_timer(Some(i));
            &&& !after.timers.pending.contains_key(i)
            &&& after.timers.pending.contains_key(other) == ep.timers.pending.contains_key(other)
            &&& after.timers.next_id == ep.timers.next_id
        }),
        ep.cancel_timer(None) == ep,
{
}

/// The name of a transaction tells it apart by each of its parts: two that agree in
/// all the others and differ in the branch, the From tag, the Call-ID or the side
/// have different names.
pub proof fn law_transactions_are_told_apart(
    cseq: CSeq,
    call_id: Seq<char>,
    other_id: Seq<char>,
    from_tag: Seq<char>,
    other_tag: Seq<char>,
    branch: Seq<char>,
    other_branch: Seq<char>,
    role: TransactionRole,
)
    ensures
        key::key_text(role, cseq, call_id, from_tag, branch) == key::key_text(
            role,
            cseq,
            call_id,
            from_tag,
            other_branch,
        ) ==> branch == other_branch,
        key::key_text(role, cseq, call_id, from_tag, branch) == key::key_text(
            role,
            cseq,
            call_id,
            other_tag,
            branch,
        ) ==> from_tag == other_tag,
        key::key_text(role, cseq, call_id, from_tag, branch) == key::key_text(
            role,
            cseq,
            other_id,
            from_tag,
            branch,
        ) ==> call_id == other_id,
        key::key_text(TransactionRole::Client, cseq, call_id, from_tag, branch) != key::key_text(
            TransactionRole::Server,
            cseq,
            call_id,
            from_tag,
            branch,
        ),
{
    let side = match role {
        TransactionRole::Client => "c."@,
        TransactionRole::Server => "s."@,
    };
    let head = side + cseq.method.spec_name() + "_"@ + text::number_text(cseq.seq as nat) + "_"@;
    let before = head + call_id + "_"@;
    let a = key::key_text(role, cseq, call_id, from_tag, branch);
    if a == key::key_text(role, cseq, call_id, from_tag, other_branch) {
        lists::lemma_same_head(before + from_tag + "_"@, branch, other_branch);
    }
    if a == key::key_text(role, cseq, call_id, other_tag, branch) {
        lists::lemma_same_tail(before + from_tag + "_"@, before + other_tag + "_"@, branch);
        lists::lemma_same_tail(before + from_tag, before + other_tag, "_"@);
        lists::lemma_same_head(before, from_tag, other_tag);
    }
    if a == key::key_text(role, cseq, other_id, from_tag, branch) {
        let there = head + other_id + "_"@;
        lists::lemma_same_tail(before + from_tag + "_"@, there + from_tag + "_"@, branch);
        lists::lemma_same_tail(before + from_tag, there + from_tag, "_"@);
        lists::lemma_same_tail(before, there, from_tag);
        lists::lemma_same_tail(head + call_id, head + other_id, "_"@);
        lists::lemma_same_head(head, call_id, other_id);
    }
    reveal_strlit("c.");
    reveal_strlit("s.");
    let c = key::key_text(TransactionRole::Client, cseq, call_id, from_tag, branch);
    let s = key::key_text(TransactionRole::Server, cseq, call_id, from_tag, branch);
    assert(c[0] == 'c');
    assert(s[0] == 's');
}

/// A server finds the transaction of an INVITE for its ACK and its CANCEL as well;
/// any other request has a transaction of its own method, and so does every request
/// of a client.
pub proof fn law_requests_are_found_by_their_method(
    req: RequestView,
    invite: RequestView,
    role: TransactionRole,
    cseq: CSeq,
    call_id: Seq<char>,
    from: NameAddrView,
    tag: Seq<char>,
    top: ViaView,
    branch: Seq<char>,
)
    requires
        header::first_cseq(req.headers) == Some(FieldView::Typed(cseq)),
        header::first_call_id(req.headers) == Some(call_id),
        header::first_from(req.headers) == Some(FieldView::Typed(from)),
        header::first_via(req.headers) == Some(FieldView::Typed(top)),
        from.tag() == Some(tag),
        uri::branch_in(top.params) == Some(branch),
        invite.headers == req.headers,
        invite.method == Method::Invite,
    ensures
        role == TransactionRole::Server && (req.method == Method::Ack || req.method
            == Method::Cancel) ==> key::key_of_request(req, role) == key::key_of_request(
            invite,
            role,
        ),
        role == TransactionRole::Client || !(req.method == Method::Ack || req.method
            == Method::Cancel) ==> key::key_of_request(req, role) == Ok::<_, ErrorView>(
            key::key_text(
                role,
                CSeq { seq: cseq.seq, method: req.method },
                call_id,
                tag,
                branch,
            ),
        ),
{
}

/// The Record-Route that names an address leads back to it, and says that it is
/// followed loosely.
pub proof fn law_record_route_leads_back(addr: SipAddrView)
    ensures
        ({
            let r = endpoint::record_route_for(addr);
            &&& r.display_name is None && r.params.len() == 0
            &&& r.uri.host_with_port == addr.addr && r.uri.user is None
            &&& r.uri.params.len() > 0 && r.uri.params.last() == ParamView::Lr
            &&& addr.transport is Some && addr.transport != Some(Transport::Udp)
                ==> r.uri.params.len() == 2 && r.uri.params[0] == ParamView::Transport(
                addr.transport->0,
            )
            &&& addr.transport is None || addr.transport == Some(Transport::Udp)
                ==> r.uri.params.len() == 1
            &&& r.uri.scheme == Some(
                if addr.transport == Some(Transport::Tls) || addr.transport == Some(
                    Transport::Wss,
                ) {
                    Scheme::Sips
                } else {
                    Scheme::Sip
                },
            )
        }),
{
}

/// A new endpoint has the settings given, or else T1 of half a second, 64*T1, T2
/// and T4 of four seconds and three minutes for Timer C; it looks at its timers
/// every 20 milliseconds unless told otherwise, and nothing is going on in it.
pub proof fn law_new_endpoint_is_idle(
    ep: EndpointView,
    user_agent: Seq<char>,
    layer: crate::transport::transport_layer::TransportLayerView,
    timer_interval: Option<u64>,
    allows: Seq<Method>,
    option: Option<EndpointOptionView>,
    has_locator: bool,
)
    requires
        endpoint::is_new(ep, user_agent, layer, timer_interval, allows, option, has_locator),
    ensures
        ep.user_agent == user_agent && ep.transport_layer == layer && ep.has_locator
            == has_locator && ep.allows == Some(allows),
        timer_interval matches Some(t) ==> ep.timer_interval == t,
        timer_interval is None ==> ep.timer_interval == 20,
        option matches Some(o) ==> ep.option == o,
        option is None ==> {
            &&& ep.option.t1 == 500 && ep.option.t1x64 == 64 * ep.option.t1
            &&& ep.option.t2 == 4000 && ep.option.t4 == 4000 && ep.option.timerc == 180000
            &&& !ep.option.history_info_enabled && ep.option.callid_suffix is None
        },
        forall|k: Seq<char>| !ep.transactions.contains_key(k),
        forall|k: Seq<char>| !ep.finished.contains_key(k),
        forall|i: u64| !ep.timers.pending.contains_key(i),
        ep.outbox.len() == 0,
{
}

/// A message that belongs to a running transaction reaches it as it came, with its
/// connection.
pub proof fn law_message_reaches_its_transaction(
    ep: EndpointView,
    k: Seq<char>,
    msg: SipMessageView,
    c: SipConnectionView,
)
    requires
        ep.transactions.contains_key(k),
    ensures
        transaction::dispatched(ep, k, msg, c) == (
            EndpointView {
                outbox: ep.outbox.push(
                    (ep.transactions[k], TransactionEventView::Received(msg, Some(c))),
                ),
                ..ep
            },
            Ok::<_, ErrorView>(DispatchView::Delivered),
        ),
{
}

/// A request without a transaction begins one at the server's end, over the
/// connection that it came in on; but a CANCEL that finds nothing to cancel is
/// refused with 481, and an ACK is ignored, and so is a response.
pub proof fn law_request_begins_a_transaction(
    ep: EndpointView,
    k: Seq<char>,
    req: RequestView,
    c: SipConnectionView,
)
    requires
        !ep.transactions.contains_key(k),
    ensures
        ({
            let (after, r) = transaction::dispatched(ep, k, SipMessageView::Request(req), c);
            &&& req.method != Method::Cancel && req.method != Method::Ack ==> {
                &&& r matches Ok(DispatchView::Incoming(tx))
                &&& tx.original == req && tx.key == k && tx.connection == Some(c)
                &&& tx.state == TransactionState::Trying
                &&& tx.transaction_type == if req.method == Method::Invite {
                    TransactionType::ServerInvite
                } else {
                    TransactionType::ServerNonInvite
                }
                &&& after.transactions == ep.transactions.insert(k, tx.channel)
            }
            &&& req.method == Method::Ack ==> after == ep && r == Ok::<_, ErrorView>(
                DispatchView::Ignored,
            )
            &&& req.method == Method::Cancel ==> {
                &&& after == ep
                &&& r matches Ok(DispatchView::Reply { message, target })
                &&& !(c is Udp) ==> target == ReplyTargetView::Connection
                &&& message matches SipMessageView::Response(resp)
                &&& resp.status_code == StatusCode::CallTransactionDoesNotExist
                &&& resp.body.len() == 0
                &&& header::of_kind(resp.headers, HeaderKind::Via) == header::of_kind(
                    req.headers,
                    HeaderKind::Via,
                )
            }
        }),
{
    server_laws::law_plain_response_answers_its_request(
        req,
        StatusCode::CallTransactionDoesNotExist,
        Seq::empty(),
        ep.user_agent,
        HeaderKind::Via,
    );
}

/// A final response that comes in late and is no refusal of the request gets its ACK
/// where the ACK is to go: to its first Route, or else to its URI, and a name there
/// is resolved first. A 2xx whose ACK names no tag yet is dropped.
pub proof fn law_late_response_gets_its_ack_where_it_goes(
    ep: EndpointView,
    resp: ResponseView,
    c: SipConnectionView,
    from: SipAddrView,
    k: Seq<char>,
    ack: RequestView,
    to: NameAddrView,
)
    requires
        key::key_of_response(resp, TransactionRole::Client) == Ok::<_, ErrorView>(k),
        ep.finished.contains_key(k),
        ep.finished[k] == Some(SipMessageView::Request(ack)),
        ack.method == Method::Ack,
        header::first_to(ack.headers) == Some(FieldView::Typed(to)),
        resp.status_code.spec_kind() != StatusCodeKind::Provisional,
        resp.status_code.spec_kind() != StatusCodeKind::RequestFailure,
    ensures
        ({
            let r = ep.receive(SipMessageView::Response(resp), c, from).1;
            let accepted = resp.status_code.spec_kind() == StatusCodeKind::Successful;
            &&& accepted && to.tag() is None ==> r == Ok::<_, ErrorView>(ReceptionView::Absorbed)
            &&& !(accepted && to.tag() is None) ==> {
                &&& r matches Ok(ReceptionView::Reply { message, target })
                &&& message matches SipMessageView::Request(sent)
                &&& sent.method == Method::Ack && sent.uri == ack.uri && sent.body == ack.body
                &&& header::first_route(sent.headers) is None ==> {
                    let place = SipAddrView {
                        transport: uri::transport_in(ack.uri.params),
                        addr: ack.uri.host_with_port,
                    };
                    target == if ack.uri.host_with_port.host is Domain {
                        ReplyTargetView::Resolve(place)
                    } else {
                        ReplyTargetView::Addr(place)
                    }
                }
            }
        }),
{
}

/// A request leaves from the address given, with the branch and the Call-ID given;
/// where one is not given, it is new.
pub proof fn law_given_names_are_kept(
    ep: EndpointView,
    a: SipAddrView,
    x: SipAddrView,
    b: ParamView,
    y: ParamView,
    call_id: Seq<char>,
    z: Seq<char>,
)
    ensures
        endpoint::leaves_from(ep, Some(x), a) <==> a == x,
        endpoint::has_branch(Some(y), b) <==> b == y,
        endpoint::has_call_id(ep.option, Some(z), call_id) <==> call_id == z,
        endpoint::has_branch(None, b) ==> (b matches ParamView::Branch(t) && t.len() == 19),
        endpoint::leaves_from(ep, None, a) && ep.transport_layer.inner.listens.len() > 0 ==> a
            == ep.transport_layer.inner.listens[0].addr(),
{
}

/// The settings of an endpoint that is given none.
pub proof fn law_default_settings()
    ensures
        ({
            let o = endpoint::default_option();
            o.t1 == 500 && o.t1x64 == 64 * o.t1 && o.t2 == 8 * o.t1 && o.t4 == 8 * o.t1
                && o.timerc == 180 * 1000 && o.callid_suffix is None && !o.history_info_enabled
        }),
{
}

/// A request outside of a dialog says what it is given and nothing else: one Via,
/// one From, one To, one Call-ID, one number with its method, 70 hops and the name
/// of this end, without a body.
pub proof fn law_plain_request_says_what_it_is_given(
    method: Method,
    target: UriView,
    top: ViaView,
    from: NameAddrView,
    to: NameAddrView,
    seq: u32,
    call_id: Seq<char>,
    user_agent: Seq<char>,
)
    ensures
        ({
            let r = build::request_with(method, target, top, from, to, seq, call_id, user_agent);
            &&& r.method == method && r.uri == target && r.body.len() == 0
            &&& r.version == Version::V2
            &&& r.headers.len() == 7
            &&& r.headers.contains(HeaderView::Via(FieldView::Typed(top)))
            &&& r.headers.contains(HeaderView::From(FieldView::Typed(from)))
            &&& r.headers.contains(HeaderView::To(FieldView::Typed(to)))
            &&& r.headers.contains(HeaderView::CallId(call_id))
            &&& r.headers.contains(HeaderView::CSeq(FieldView::Typed(CSeq { seq, method })))
            &&& r.headers.contains(HeaderView::MaxForwards(70))
            &&& r.headers.contains(HeaderView::UserAgent(user_agent))
        }),
{
    reveal(build::request_with);
    let h = build::request_with(
        method,
        target,
        top,
        from,
        to,
        seq,
        call_id,
        user_agent,
    ).headers;
    assert(h[0] == HeaderView::Via(FieldView::Typed(top)));
    assert(h[1] == HeaderView::CallId(call_id));
    assert(h[2] == HeaderView::From(FieldView::Typed(from)));
    assert(h[3] == HeaderView::To(FieldView::Typed(to)));
    assert(h[4] == HeaderView::CSeq(FieldView::Typed(CSeq { seq, method })));
    assert(h[5] == HeaderView::MaxForwards(70));
    assert(h[6] == HeaderView::UserAgent(user_agent));
}

/// The Via for an address names that address, over its transport.
pub proof fn law_via_names_its_address(addr: SipAddrView, branch: Seq<char>)
    ensures
        message_laws::leaves_from(
            endpoint::via_for(addr, ParamView::Branch(branch)),
            addr,
            branch,
        ),
{
}

}

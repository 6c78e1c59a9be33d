//! The endpoint: its transactions, their timers and where messages go.

use super::ids;
use super::ids::CallIdFormat;
use super::key;
use super::key::{TransactionKey, TransactionRole};
use super::message as build;
use super::timer::{Timer, TimerView, TransactionTimer, TransactionTimerView};
use crate::dialog::id;
use crate::dialog::id::{DialogId, DialogIdView};
use crate::error;
use crate::error::{Error, ErrorView};
use crate::maps;
use crate::maps::{DialogKey, DialogKeyView, InviteKey, InviteKeyView};
use crate::sip::basic;
use crate::sip::basic::{Method, Transport, Version};
use crate::sip::header;
use crate::sip::header::{Field, FieldView, Header, HeaderKind, HeaderView};
use crate::sip::message;
use crate::sip::message::{
    Request, RequestView, Response, ResponseView, SipMessage, SipMessageView,
};
use crate::sip::status::{StatusCode, StatusCodeKind};
use crate::sip::uri;
use crate::sip::uri::{NameAddr, NameAddrView, Param, ParamView, Uri, UriView, Via, ViaView};
use crate::transport::connection;
use crate::transport::connection::{SipConnection, SipConnectionView};
use crate::transport::sip_addr;
use crate::transport::sip_addr::{SipAddr, SipAddrView};
use crate::transport::transport_layer;
use crate::transport::transport_layer::{TransportLayer, TransportLayerView};
use dashmap::DashMap;
use vstd::prelude::*;
use vstd::string::*;

verus! {

/// Sees every message before it is sent and after it is received, and may
/// change it.
pub trait MessageInspector {
    fn before_send(&self, msg: SipMessage, dest: Option<&SipAddr>) -> SipMessage;

    fn after_received(&self, msg: SipMessage, from: Option<&SipAddr>) -> SipMessage;
}

/// The timers and other settings of an endpoint. Times are in milliseconds.
pub struct EndpointOption {
    /// The estimate of a round trip.
    pub t1: u64,
    /// The longest interval between retransmissions of a 2xx.
    pub t2: u64,
    /// How long a message remains in the network.
    pub t4: u64,
    pub t1x64: u64,
    pub timerc: u64,
    pub callid_suffix: Option<String>,
    pub callid_format: CallIdFormat,
    /// Say in initial requests that History-Info is understood.
    pub history_info_enabled: bool,
}

#[verifier::ext_equal]
pub struct EndpointOptionView {
    pub t1: u64,
    pub t2: u64,
    pub t4: u64,
    pub t1x64: u64,
    pub timerc: u64,
    pub callid_suffix: Option<Seq<char>>,
    pub callid_format: CallIdFormat,
    pub history_info_enabled: bool,
}

impl View for EndpointOption {
    type V = EndpointOptionView;

    open spec fn view(&self) -> EndpointOptionView {
        EndpointOptionView {
            t1: self.t1,
            t2: self.t2,
            t4: self.t4,
            t1x64: self.t1x64,
            timerc: self.timerc,
            callid_suffix: self.callid_suffix.deep_view(),
            callid_format: self.callid_format,
            history_info_enabled: self.history_info_enabled,
        }
    }
}

/// The settings of an endpoint that is given none.
pub open spec fn default_option() -> EndpointOptionView {
    EndpointOptionView {
        t1: 500,
        t2: 4000,
        t4: 4000,
        t1x64: 32000,
        timerc: 180000,
        callid_suffix: None,
        callid_format: CallIdFormat::UuidWithSuffix,
        history_info_enabled: false,
    }
}

impl Default for EndpointOption {
    fn default() -> (r: Self)
        ensures
            r@ == default_option(),
    {
        EndpointOption {
            t1: 500,
            t2: 4000,
            t4: 4000,
            t1x64: 32000,
            timerc: 180000,
            callid_suffix: None,
            callid_format: CallIdFormat::default(),
            history_info_enabled: false,
        }
    }
}

#[derive(Clone, Copy, Debug, PartialEq, Eq, Structural)]
pub struct EndpointStats {
    pub running_transactions: usize,
    pub finished_transactions: usize,
    pub waiting_ack: usize,
}

/// What a transaction is told.
pub enum TransactionEvent {
    /// A message has come in, over the connection given.
    Received(SipMessage, Option<SipConnection>),
    /// The transaction made a response itself; an inspector sees it first.
    Local(Response),
    Timer(TransactionTimer),
    Respond(Response),
    Terminate(TransactionKey),
}

#[verifier::ext_equal]
pub enum TransactionEventView {
    Received(SipMessageView, Option<SipConnectionView>),
    Local(ResponseView),
    Timer(TransactionTimerView),
    Respond(ResponseView),
    Terminate(Seq<char>),
}

impl DeepView for TransactionEvent {
    type V = TransactionEventView;

    open spec fn deep_view(&self) -> TransactionEventView {
        match self {
            TransactionEvent::Received(m, c) => TransactionEventView::Received(m@, c.deep_view()),
            TransactionEvent::Local(r) => TransactionEventView::Local(r@),
            TransactionEvent::Timer(t) => TransactionEventView::Timer(t@),
            TransactionEvent::Respond(r) => TransactionEventView::Respond(r@),
            TransactionEvent::Terminate(k) => TransactionEventView::Terminate(k@),
        }
    }
}

/// An endpoint. Events for transactions wait in `outbox`, each with the number
/// of the channel that it goes to.
pub struct EndpointInner {
    pub allows: Option<Vec<Method>>,
    pub user_agent: String,
    pub timers: Timer,
    pub transport_layer: TransportLayer,
    pub finished_transactions: DashMap<String, Option<SipMessage>>,
    pub transactions: DashMap<String, u64>,
    pub waiting_ack: DashMap<DialogKey, String>,
    /// The server transactions that wait for the ACK of their 2xx, by the dialog
    /// and the CSeq number of the INVITE.
    pub waiting_ack_cseq: DashMap<InviteKey, String>,
    /// Someone else says where requests go.
    pub has_locator: bool,
    pub option: EndpointOption,
    pub timer_interval: u64,
    pub next_channel: u64,
    pub outbox: Vec<(u64, TransactionEvent)>,
}

#[verifier::ext_equal]
pub struct EndpointView {
    pub allows: Option<Seq<Method>>,
    pub user_agent: Seq<char>,
    pub timers: TimerView,
    pub transport_layer: TransportLayerView,
    pub finished: Map<Seq<char>, Option<SipMessageView>>,
    pub transactions: Map<Seq<char>, u64>,
    pub waiting_ack: Map<DialogKeyView, Seq<char>>,
    pub waiting_ack_cseq: Map<InviteKeyView, Seq<char>>,
    pub has_locator: bool,
    pub option: EndpointOptionView,
    pub timer_interval: u64,
    pub next_channel: u64,
    pub outbox: Seq<(u64, TransactionEventView)>,
}

impl View for EndpointInner {
    type V = EndpointView;

    open spec fn view(&self) -> EndpointView {
        EndpointView {
            allows: match self.allows {
                Some(v) => Some(v@),
                None => None,
            },
            user_agent: self.user_agent@,
            timers: self.timers@,
            transport_layer: self.transport_layer@,
            finished: maps::messages_in(self.finished_transactions),
            transactions: maps::numbers_in(self.transactions),
            waiting_ack: maps::waiting_in(self.waiting_ack),
            waiting_ack_cseq: maps::invites_in(self.waiting_ack_cseq),
            has_locator: self.has_locator,
            option: self.option@,
            timer_interval: self.timer_interval,
            next_channel: self.next_channel,
            outbox: self.outbox.deep_view(),
        }
    }
}

pub open spec fn dialog_key(id: DialogIdView) -> DialogKeyView {
    (id.call_id, id.local_tag, id.remote_tag)
}

pub open spec fn invite_key(id: DialogIdView, seq: u32) -> InviteKeyView {
    (id.call_id, id.local_tag, id.remote_tag, seq)
}

pub fn dialog_tuple(id: &DialogId) -> (k: DialogKey)
    ensures
        k.deep_view() == dialog_key(id@),
{
    (id.call_id.clone(), id.local_tag.clone(), id.remote_tag.clone())
}

pub fn invite_tuple(id: &DialogId, seq: u32) -> (k: InviteKey)
    ensures
        k.deep_view() == invite_key(id@, seq),
{
    (id.call_id.clone(), id.local_tag.clone(), id.remote_tag.clone(), seq)
}

/// Where a message is to be sent.
pub enum ReplyTarget {
    /// Wherever the connection leads.
    Connection,
    Addr(SipAddr),
    /// Where the name of this address leads once it is resolved; wherever the
    /// connection leads if it cannot be.
    Resolve(SipAddr),
}

#[verifier::ext_equal]
pub enum ReplyTargetView {
    Connection,
    Addr(SipAddrView),
    Resolve(SipAddrView),
}

impl View for ReplyTarget {
    type V = ReplyTargetView;

    open spec fn view(&self) -> ReplyTargetView {
        match self {
            ReplyTarget::Connection => ReplyTargetView::Connection,
            ReplyTarget::Addr(a) => ReplyTargetView::Addr(a@),
            ReplyTarget::Resolve(a) => ReplyTargetView::Resolve(a@),
        }
    }
}

/// The target for an address.
pub open spec fn target_for(addr: SipAddrView) -> ReplyTargetView {
    if addr.is_domain() {
        ReplyTargetView::Resolve(addr)
    } else {
        ReplyTargetView::Addr(addr)
    }
}

/// Where the answer to a request goes, by its top Via.
pub open spec fn answer_target(headers: Seq<HeaderView>) -> ReplyTargetView {
    match message::via_of(headers) {
        Ok(v) => {
            let (transport, addr) = connection::via_target(v);
            target_for(SipAddrView { transport: Some(transport), addr })
        },
        Err(_) => ReplyTargetView::Connection,
    }
}

/// Where the answer to a request goes that came in over `c`: back over a
/// reliable connection, else by the request's top Via.
pub open spec fn answer_over(c: SipConnectionView, headers: Seq<HeaderView>) -> ReplyTargetView {
    if c.is_reliable() {
        ReplyTargetView::Connection
    } else {
        answer_target(headers)
    }
}

/// What becomes of a message that has come in.
pub enum Reception {
    /// Nothing more.
    Absorbed,
    /// This is sent back over the connection.
    Reply { message: SipMessage, target: ReplyTarget },
    /// It belongs to the transaction of this name: see
    /// [`EndpointInner::dispatch`].
    Forward(TransactionKey),
}

#[verifier::ext_equal]
pub enum ReceptionView {
    Absorbed,
    Reply { message: SipMessageView, target: ReplyTargetView },
    Forward(Seq<char>),
}

impl DeepView for Reception {
    type V = ReceptionView;

    open spec fn deep_view(&self) -> ReceptionView {
        match self {
            Reception::Absorbed => ReceptionView::Absorbed,
            Reception::Reply { message, target } => ReceptionView::Reply {
                message: message@,
                target: target@,
            },
            Reception::Forward(k) => ReceptionView::Forward(k@),
        }
    }
}

/// `headers` with `tag` as the tag of the first To, where that can be read.
pub open spec fn with_to_tag(headers: Seq<HeaderView>, tag: Seq<char>) -> Seq<HeaderView> {
    let i = header::first_index(headers, HeaderKind::To);
    if 0 <= i < headers.len() {
        match headers[i] {
            HeaderView::To(FieldView::Typed(to)) => headers.update(
                i,
                HeaderView::To(FieldView::Typed(to.with_tag(tag))),
            ),
            _ => headers,
        }
    } else {
        headers
    }
}

pub fn set_to_tag(headers: &mut Vec<Header>, tag: String)
    ensures
        final(headers).deep_view() == with_to_tag(old(headers).deep_view(), tag@),
{
    let i: usize = header::index_of(headers, HeaderKind::To);
    if i < headers.len() {
        let to = match &headers[i] {
            Header::To(Field::Typed(to)) => Some(to.clone()),
            _ => None,
        };
        if let Some(to) = to {
            header::replace(headers, i, Header::To(Field::Typed(to.with_tag(tag))));
        }
    }
}

/// An ACK with the To tag of the response that it acknowledges.
pub open spec fn ack_with_tag(ack: RequestView, resp: ResponseView) -> RequestView {
    match message::to_tag_of(resp.headers) {
        Ok(Some(tag)) => RequestView { headers: with_to_tag(ack.headers, tag), ..ack },
        _ => ack,
    }
}

/// An ACK that was written before there was a final response to acknowledge: it
/// names no tag of the peer.
pub open spec fn is_placeholder(ack: RequestView) -> bool {
    match message::to_of(ack.headers) {
        Ok(to) => to.tag() is None,
        Err(_) => true,
    }
}

impl EndpointView {
    /// The transaction that a request belongs to. The ACK of a 2xx is found by
    /// its dialog and its CSeq number.
    pub open spec fn key_of(self, req: RequestView, key: Seq<char>) -> Seq<char> {
        if req.method == Method::Ack {
            match (
                id::dialog_of(req.headers, TransactionRole::Server),
                message::cseq_of(req.headers),
            ) {
                (Ok(d), Ok(c)) => if self.waiting_ack_cseq.contains_key(invite_key(d, c.seq)) {
                    self.waiting_ack_cseq[invite_key(d, c.seq)]
                } else {
                    key
                },
                _ => key,
            }
        } else {
            key
        }
    }

    /// The last message of a transaction that is over.
    pub open spec fn last_message(self, key: Seq<char>) -> Option<SipMessageView> {
        if self.finished.contains_key(key) {
            self.finished[key]
        } else {
            None
        }
    }

    /// No ACK of the dialog `d` is expected by the transaction `key` any more.
    pub open spec fn acked(self, d: DialogIdView, key: Seq<char>) -> EndpointView {
        EndpointView {
            waiting_ack: if self.waiting_ack.contains_key(dialog_key(d))
                && self.waiting_ack[dialog_key(d)] == key {
                self.waiting_ack.remove(dialog_key(d))
            } else {
                self.waiting_ack
            },
            waiting_ack_cseq: maps::without_value(self.waiting_ack_cseq, key),
            ..self
        }
    }

    pub open spec fn receive_request(self, req: RequestView, c: SipConnectionView) -> (
        EndpointView,
        Result<ReceptionView, ErrorView>,
    ) {
        match key::key_of_request(req, TransactionRole::Server) {
            Err(e) => (self, Err(e)),
            Ok(own) => {
                let key = self.key_of(req, own);
                match self.last_message(key) {
                    None => (self, Ok(ReceptionView::Forward(key))),
                    Some(last) => if req.method == Method::Ack {
                        match id::dialog_of(req.headers, TransactionRole::Server) {
                            Ok(d) => (self.acked(d, key), Ok(ReceptionView::Absorbed)),
                            Err(_) => (self, Ok(ReceptionView::Absorbed)),
                        }
                    } else {
                        (
                            self,
                            Ok(
                                ReceptionView::Reply {
                                    message: last,
                                    target: answer_over(c, req.headers),
                                },
                            ),
                        )
                    },
                }
            },
        }
    }

    pub open spec fn receive_response(self, resp: ResponseView, from: SipAddrView) -> Result<
        ReceptionView,
        ErrorView,
    > {
        match key::key_of_response(resp, TransactionRole::Client) {
            Err(e) => Err(e),
            Ok(key) => match self.last_message(key) {
                None => Ok(ReceptionView::Forward(key)),
                Some(SipMessageView::Request(ack)) if ack.method == Method::Ack => {
                    let kind = resp.status_code.spec_kind();
                    if kind == StatusCodeKind::Provisional {
                        Ok(ReceptionView::Absorbed)
                    } else if kind == StatusCodeKind::Successful && header::first_to(
                        ack.headers,
                    ) is None {
                        Err(ErrorView::MissingHeader(HeaderKind::To))
                    } else if kind == StatusCodeKind::Successful && is_placeholder(ack) {
                        Ok(ReceptionView::Absorbed)
                    } else {
                        let ack = ack_with_tag(ack, resp);
                        Ok(
                            ReceptionView::Reply {
                                message: SipMessageView::Request(ack),
                                target: if kind == StatusCodeKind::RequestFailure {
                                    ReplyTargetView::Addr(from)
                                } else {
                                    target_for(sip_addr::addr_of_uri(ack.destination()))
                                },
                            },
                        )
                    }
                },
                Some(_) => Ok(ReceptionView::Absorbed),
            },
        }
    }

    /// What becomes of a message that has come in over `c` from `from`.
    pub open spec fn receive(self, msg: SipMessageView, c: SipConnectionView, from: SipAddrView) -> (
        EndpointView,
        Result<ReceptionView, ErrorView>,
    ) {
        match msg {
            SipMessageView::Request(req) => self.receive_request(req, c),
            SipMessageView::Response(resp) => (self, self.receive_response(resp, from)),
        }
    }

    /// The endpoint once the transaction `key` has run on the channel `channel`.
    pub open spec fn attach(self, key: Seq<char>, channel: u64) -> EndpointView {
        EndpointView { transactions: self.transactions.insert(key, channel), ..self }
    }

    /// The endpoint once the transaction `key` is over: its last message, if
    /// there is one, is kept for 64*T1.
    pub open spec fn detach(self, key: Seq<char>, last: Option<SipMessageView>) -> EndpointView {
        let gone = EndpointView { transactions: self.transactions.remove(key), ..self };
        match last {
            Some(m) => EndpointView {
                timers: self.timers.start(
                    self.option.t1x64,
                    TransactionTimerView::TimerCleanup(key),
                ),
                finished: self.finished.insert(key, Some(m)),
                ..gone
            },
            None => gone,
        }
    }

    pub open spec fn post(self, channel: u64, event: TransactionEventView) -> EndpointView {
        EndpointView { outbox: self.outbox.push((channel, event)), ..self }
    }

    /// The endpoint once a timer has fired.
    pub open spec fn timer_fired(self, t: TransactionTimerView) -> EndpointView {
        match t {
            TransactionTimerView::TimerCleanup(key) => EndpointView {
                transactions: self.transactions.remove(key),
                finished: self.finished.remove(key),
                waiting_ack: maps::without_value(self.waiting_ack, key),
                waiting_ack_cseq: maps::without_value(self.waiting_ack_cseq, key),
                ..self
            },
            _ => if self.transactions.contains_key(t.key()) {
                self.post(self.transactions[t.key()], TransactionEventView::Timer(t))
            } else {
                self
            },
        }
    }

    pub open spec fn start_timer(self, delay: u64, timer: TransactionTimerView) -> EndpointView {
        EndpointView { timers: self.timers.start(delay, timer), ..self }
    }

    pub open spec fn cancel_timer(self, id: Option<u64>) -> EndpointView {
        EndpointView { timers: self.timers.cancel(id), ..self }
    }
}

/// The Via for requests that leave from `addr`.
pub open spec fn via_for(addr: SipAddrView, branch: ParamView) -> ViaView {
    let transport = basic::or_udp(addr.transport);
    let base = seq![branch, ParamView::Rport(None)];
    ViaView {
        version: Version::V2,
        transport,
        uri: uri::uri_of_host(addr.addr),
        params: if transport == Transport::Tcp || transport == Transport::Tls {
            base.push(ParamView::Other("alias"@, None))
        } else {
            base
        },
    }
}

/// The Via for requests that leave from `addr`.
pub fn make_via(addr: SipAddr, branch: Param) -> (r: Via)
    ensures
        r@ == via_for(addr@, branch.deep_view()),
{
    let transport = match addr.transport {
        Some(t) => t,
        None => Transport::Udp,
    };
    let mut params: Vec<Param> = Vec::new();
    params.push(branch);
    params.push(Param::Rport(None));
    if transport == Transport::Tcp || transport == Transport::Tls {
        params.push(Param::Other("alias".to_owned(), None));
    }
    let r = Via { version: Version::V2, transport, uri: Uri::of_host(addr.addr), params };
    assert(r@.params == via_for(addr@, branch.deep_view()).params);
    r
}

/// `a` is the address that a request leaves from: the one given, or else the
/// first address of the endpoint.
pub open spec fn leaves_from(ep: EndpointView, given: Option<SipAddrView>, a: SipAddrView) -> bool {
    match given {
        Some(x) => a == x,
        None => exists|addrs: Seq<SipAddrView>| #[trigger]
            transport_layer::are_addrs_of(addrs, ep.transport_layer.inner) && addrs.len() > 0 && a
                == addrs[0],
    }
}

/// `b` is the branch given, or else a new one.
pub open spec fn has_branch(given: Option<ParamView>, b: ParamView) -> bool {
    match given {
        Some(x) => b == x,
        None => b matches ParamView::Branch(t) && ids::is_branch(t),
    }
}

/// `id` is the Call-ID given, or else a new one.
pub open spec fn has_call_id(
    option: EndpointOptionView,
    given: Option<Seq<char>>,
    id: Seq<char>,
) -> bool {
    match given {
        Some(x) => id == x,
        None => ids::is_call_id(id, option.callid_suffix, option.callid_format),
    }
}

pub open spec fn option_of(option: Option<EndpointOption>) -> Option<EndpointOptionView> {
    match option {
        Some(o) => Some(o@),
        None => None,
    }
}

/// An endpoint that nothing has happened to yet.
pub open spec fn is_new(
    ep: EndpointView,
    user_agent: Seq<char>,
    transport_layer: TransportLayerView,
    timer_interval: Option<u64>,
    allows: Seq<Method>,
    option: Option<EndpointOptionView>,
    has_locator: bool,
) -> bool {
    &&& ep.allows == Some(allows)
    &&& ep.user_agent == user_agent
    &&& ep.timers == (TimerView { next_id: 1, pending: Map::empty() })
    &&& ep.transport_layer == transport_layer
    &&& maps::holds_nothing(ep.finished)
    &&& maps::holds_nothing(ep.transactions)
    &&& maps::holds_nothing(ep.waiting_ack)
    &&& maps::holds_nothing(ep.waiting_ack_cseq)
    &&& ep.has_locator == has_locator
    &&& ep.timer_interval == (match timer_interval {
        Some(t) => t,
        None => 20,
    })
    &&& ep.option == (match option {
        Some(o) => o,
        None => default_option(),
    })
    &&& ep.next_channel == 1
    &&& ep.outbox == Seq::<(u64, TransactionEventView)>::empty()
}

/// The Record-Route that names `addr`.
pub open spec fn record_route_for(addr: SipAddrView) -> NameAddrView {
    let uri = sip_addr::uri_of_addr(addr);
    NameAddrView {
        display_name: None,
        uri: UriView { params: uri.params.push(ParamView::Lr), ..uri },
        params: Seq::empty(),
    }
}

impl EndpointInner {
    pub fn new(
        user_agent: String,
        transport_layer: TransportLayer,
        timer_interval: Option<u64>,
        allows: Vec<Method>,
        option: Option<EndpointOption>,
        has_locator: bool,
    ) -> (r: EndpointInner)
        ensures
            is_new(
                r@,
                user_agent@,
                transport_layer@,
                timer_interval,
                allows@,
                option_of(option),
                has_locator,
            ),
    {
        let outbox: Vec<(u64, TransactionEvent)> = Vec::new();
        assert(outbox.deep_view() == Seq::<(u64, TransactionEventView)>::empty());
        EndpointInner {
            allows: Some(allows),
            user_agent,
            timers: Timer::new(),
            transport_layer,
            finished_transactions: maps::messages_new(),
            transactions: maps::numbers_new(),
            waiting_ack: maps::waiting_new(),
            waiting_ack_cseq: maps::invites_new(),
            has_locator,
            option: match option {
                Some(o) => o,
                None => EndpointOption::default(),
            },
            timer_interval: match timer_interval {
                Some(t) => t,
                None => 20,
            },
            next_channel: 1,
            outbox,
        }
    }

    /// Hands out the events that wait for transactions.
    pub fn take_outbox(&mut self) -> (r: Vec<(u64, TransactionEvent)>)
        ensures
            r.deep_view() == old(self)@.outbox,
            final(self)@ == (EndpointView { outbox: Seq::empty(), ..old(self)@ }),
    {
        let mut out: Vec<(u64, TransactionEvent)> = Vec::new();
        std::mem::swap(&mut out, &mut self.outbox);
        out
    }

    pub fn post(&mut self, channel: u64, event: TransactionEvent)
        ensures
            final(self)@ == old(self)@.post(channel, event.deep_view()),
    {
        self.outbox.push((channel, event));
    }

    pub fn attach_transaction(&mut self, key: &TransactionKey, channel: u64)
        ensures
            final(self)@ == old(self)@.attach(key@, channel),
    {
        maps::numbers_insert(&mut self.transactions, key.0.clone(), channel);
    }

    pub fn detach_transaction(&mut self, key: &TransactionKey, last_message: Option<SipMessage>)
        ensures
            final(self)@ == old(self)@.detach(key@, last_message.deep_view()),
    {
        maps::numbers_remove(&mut self.transactions, &key.0);
        if let Some(msg) = last_message {
            self.timers.timeout(self.option.t1x64, TransactionTimer::TimerCleanup(key.clone()));
            maps::messages_insert(&mut self.finished_transactions, key.0.clone(), Some(msg));
        }
    }

    /// Acts on a timer that has fired: a transaction is told of it, and what is
    /// kept of a transaction that is over is dropped.
    pub fn process_timer(&mut self, t: TransactionTimer)
        ensures
            final(self)@ == old(self)@.timer_fired(t@),
    {
        if let TransactionTimer::TimerCleanup(key) = t {
            maps::numbers_remove(&mut self.transactions, &key.0);
            maps::messages_remove(&mut self.finished_transactions, &key.0);
            maps::waiting_drop_value(&mut self.waiting_ack, &key.0);
            maps::invites_drop_value(&mut self.waiting_ack_cseq, &key.0);
            return;
        }
        if let Some(channel) = maps::numbers_get(&self.transactions, &t.key().0) {
            self.post(channel, TransactionEvent::Timer(t));
        }
    }

    /// Drops a transaction that is no longer there to be told of its timer.
    pub fn timer_undelivered(&mut self, t: &TransactionTimer)
        ensures
            final(self)@ == old(self)@.detach(t@.key(), None),
    {
        self.detach_transaction(t.key(), None);
    }

    /// Where the answer to a request goes, by its top Via.
    pub fn get_destination_from_request(&self, req: &Request) -> (r: ReplyTarget)
        ensures
            r@ == answer_target(req@.headers),
    {
        let Some(top) = header::find_via(&req.headers) else {
            return ReplyTarget::Connection;
        };
        let (transport, addr) = match SipConnection::parse_target_from_via(&top) {
            Ok(t) => t,
            Err(_) => return ReplyTarget::Connection,
        };
        let sip_addr = SipAddr { transport: Some(transport), addr };
        if sip_addr.is_domain() {
            return ReplyTarget::Resolve(sip_addr);
        }
        ReplyTarget::Addr(sip_addr)
    }

    fn answer_target(&self, connection: &SipConnection, req: &Request) -> (r: ReplyTarget)
        ensures
            r@ == answer_over(connection@, req@.headers),
    {
        if connection.is_reliable() {
            ReplyTarget::Connection
        } else {
            self.get_destination_from_request(req)
        }
    }

    fn receive_request(&mut self, req: &Request, connection: &SipConnection) -> (r: Result<
        Reception,
        Error,
    >)
        ensures
            (final(self)@, error::result_view(r)) == old(self)@.receive_request(
                req@,
                connection@,
            ),
    {
        let mut key = match TransactionKey::from_request(req, TransactionRole::Server) {
            Ok(k) => k,
            Err(e) => return Err(e),
        };
        if req.method == Method::Ack {
            if let Ok(dialog_id) = DialogId::from_request(req, TransactionRole::Server) {
                if let Ok(cseq) = message::cseq(&req.headers) {
                    if let Some(tx_key) = maps::invites_get(
                        &self.waiting_ack_cseq,
                        &invite_tuple(&dialog_id, cseq.seq),
                    ) {
                        key = TransactionKey(tx_key);
                    }
                }
            }
        }
        let last_message = match maps::messages_get(&self.finished_transactions, &key.0) {
            Some(Some(m)) => m,
            _ => return Ok(Reception::Forward(key)),
        };
        if req.method == Method::Ack {
            if let Ok(dialog_id) = DialogId::from_request(req, TransactionRole::Server) {
                maps::waiting_remove_if(
                    &mut self.waiting_ack,
                    &dialog_tuple(&dialog_id),
                    &key.0,
                );
                maps::invites_drop_value(&mut self.waiting_ack_cseq, &key.0);
            }
            return Ok(Reception::Absorbed);
        }
        Ok(Reception::Reply { message: last_message, target: self.answer_target(connection, req) })
    }

    fn receive_response(&self, resp: &Response, from: &SipAddr) -> (r: Result<Reception, Error>)
        ensures
            error::result_view(r) == self@.receive_response(resp@, from@),
    {
        let key = match TransactionKey::from_response(resp, TransactionRole::Client) {
            Ok(k) => k,
            Err(e) => return Err(e),
        };
        let last_message = match maps::messages_get(&self.finished_transactions, &key.0) {
            Some(Some(m)) => m,
            _ => return Ok(Reception::Forward(key)),
        };
        let mut last_req = match last_message {
            SipMessage::Request(r) => r,
            SipMessage::Response(_) => return Ok(Reception::Absorbed),
        };
        if last_req.method != Method::Ack {
            return Ok(Reception::Absorbed);
        }
        let kind = resp.status_code.kind();
        if kind == StatusCodeKind::Provisional {
            return Ok(Reception::Absorbed);
        }
        if kind == StatusCodeKind::Successful {
            match header::find_to(&last_req.headers) {
                None => return Err(Error::MissingHeader(HeaderKind::To)),
                Some(Field::Malformed(_)) => return Ok(Reception::Absorbed),
                Some(Field::Typed(to)) => if to.tag().is_none() {
                    return Ok(Reception::Absorbed);
                },
            }
        }
        if let Ok(Some(tag)) = message::to_tag(&resp.headers) {
            set_to_tag(&mut last_req.headers, tag);
        }
        if kind == StatusCodeKind::RequestFailure {
            return Ok(
                Reception::Reply {
                    message: SipMessage::Request(last_req),
                    target: ReplyTarget::Addr(from.clone()),
                },
            );
        }
        let addr = SipAddr::from_uri(&last_req.destination());
        let target = if addr.is_domain() {
            ReplyTarget::Resolve(addr)
        } else {
            ReplyTarget::Addr(addr)
        };
        Ok(Reception::Reply { message: SipMessage::Request(last_req), target })
    }

    /// Decides what becomes of a message that has come in: what belongs to a
    /// transaction that is over is answered here, and the rest is forwarded.
    pub fn on_received_message(
        &mut self,
        msg: &SipMessage,
        connection: &SipConnection,
        from: &SipAddr,
    ) -> (r: Result<Reception, Error>)
        ensures
            (final(self)@, error::result_view(r)) == old(self)@.receive(
                msg@,
                connection@,
                from@,
            ),
    {
        match msg {
            SipMessage::Request(req) => self.receive_request(req, connection),
            SipMessage::Response(resp) => self.receive_response(resp, from),
        }
    }

    pub fn get_addrs(&self) -> (addrs: Vec<SipAddr>)
        ensures
            transport_layer::are_addrs_of(addrs.deep_view(), self@.transport_layer.inner),
    {
        self.transport_layer.get_addrs()
    }

    /// The Record-Route that names the first address of the endpoint.
    pub fn get_record_route(&self) -> (r: Result<NameAddr, Error>)
        ensures
            match r {
                Ok(rr) => exists|addrs: Seq<SipAddrView>| #[trigger]
                    transport_layer::are_addrs_of(addrs, self@.transport_layer.inner) && addrs.len()
                        > 0 && rr@ == record_route_for(addrs[0]),
                Err(e) => e@ == ErrorView::EndpointError("not sipaddrs"@)
                    && self@.transport_layer.inner.listens.len() == 0
                    && self@.transport_layer.inner.connections.len() == 0,
            },
    {
        let addrs = self.transport_layer.get_addrs();
        if addrs.len() == 0 {
            return Err(Error::EndpointError("not sipaddrs".to_owned()));
        }
        assert(addrs.deep_view()[0] == addrs[0]@);
        Ok(self.get_record_route_with_addr(addrs[0].clone()))
    }

    /// The Record-Route that names `addr`.
    pub fn get_record_route_with_addr(&self, addr: SipAddr) -> (r: NameAddr)
        ensures
            r@ == record_route_for(addr@),
    {
        let mut uri = addr.to_uri();
        let ghost before = uri@;
        uri.params.push(Param::Lr);
        assert(uri@.params == before.params.push(ParamView::Lr));
        NameAddr { display_name: None, uri, params: Vec::new() }
    }

    /// The Via for a request that leaves from `addr`, or else from the first
    /// address of the endpoint, with `branch` or else a new branch.
    pub fn get_via(&self, addr: Option<SipAddr>, branch: Option<Param>) -> (r: Result<Via, Error>)
        ensures
            match r {
                Ok(v) => exists|a: SipAddrView, b: ParamView|
                    v@ == #[trigger] via_for(a, b) && leaves_from(self@, addr.deep_view(), a)
                        && has_branch(branch.deep_view(), b),
                Err(e) => addr is None && e@ == ErrorView::EndpointError("not sipaddrs"@)
                    && self@.transport_layer.inner.listens.len() == 0
                    && self@.transport_layer.inner.connections.len() == 0,
            },
    {
        let first_addr = match addr {
            Some(a) => a,
            None => {
                let addrs = self.transport_layer.get_addrs();
                if addrs.len() == 0 {
                    return Err(Error::EndpointError("not sipaddrs".to_owned()));
                }
                assert(addrs.deep_view()[0] == addrs[0]@);
                addrs[0].clone()
            },
        };
        let branch = match branch {
            Some(b) => b,
            None => ids::make_via_branch(),
        };
        Ok(make_via(first_addr, branch))
    }

    /// The running transactions.
    pub fn get_running_transactions(&self) -> (r: Option<Vec<TransactionKey>>)
        ensures
            r matches Some(keys) && keys.deep_view().no_duplicates()
                && keys.deep_view().to_set() == self@.transactions.dom(),
    {
        let names = maps::numbers_keys(&self.transactions);
        let mut keys: Vec<TransactionKey> = Vec::new();
        let mut i: usize = 0;
        while i < names.len()
            invariant
                i <= names.len(),
                keys.deep_view() == names.deep_view().take(i as int),
            decreases names.len() - i,
        {
            let key = TransactionKey(names[i].clone());
            let ghost before = keys.deep_view();
            keys.push(key);
            assert(keys.deep_view() == before.push(key.deep_view()));
            i = i + 1;
        }
        assert(names.deep_view().take(i as int) == names.deep_view());
        Some(keys)
    }

    pub fn get_stats(&self) -> (r: EndpointStats)
        ensures
            r.running_transactions == self@.transactions.len(),
            r.finished_transactions == self@.finished.len(),
            r.waiting_ack == self@.waiting_ack.len(),
    {
        EndpointStats {
            running_transactions: maps::numbers_len(&self.transactions),
            finished_transactions: maps::messages_len(&self.finished_transactions),
            waiting_ack: maps::waiting_len(&self.waiting_ack),
        }
    }

    /// The response of this endpoint to a request.
    pub fn make_response(&self, req: &Request, status: StatusCode, body: Option<Vec<u8>>) -> (r:
        Response)
        ensures
            r@ == build::response_to(
                req@,
                status,
                match body {
                    Some(b) => b@,
                    None => Seq::empty(),
                },
                self@.user_agent,
            ),
    {
        build::make_response(req, status, body, &self.user_agent)
    }

    /// A request of this endpoint, with a new Call-ID where none is given.
    pub fn make_request(
        &self,
        method: Method,
        req_uri: Uri,
        top: Via,
        from: NameAddr,
        to: NameAddr,
        seq: u32,
        call_id: Option<String>,
    ) -> (r: Request)
        ensures
            exists|id: Seq<char>|
                r@ == #[trigger] build::request_with(
                    method,
                    req_uri@,
                    top@,
                    from@,
                    to@,
                    seq,
                    id,
                    self@.user_agent,
                ) && has_call_id(self@.option, call_id.deep_view(), id),
    {
        let ghost given = call_id.deep_view();
        let chosen = match call_id {
            Some(c) => c,
            None => match &self.option.callid_suffix {
                Some(s) => ids::make_call_id(Some(s.as_str()), self.option.callid_format),
                None => ids::make_call_id(None, self.option.callid_format),
            },
        };
        assert(has_call_id(self@.option, given, chosen@));
        let ghost id = chosen@;
        let r = build::make_request(method, req_uri, top, from, to, seq, chosen, &self.user_agent);
        assert(r@ == build::request_with(
            method,
            req_uri@,
            top@,
            from@,
            to@,
            seq,
            id,
            self@.user_agent,
        ));
        r
    }
}

}

use rsipstack::dialog::dialog::{
    DialogInner, DialogState, TerminatedReason, TransactionHandle,
};
use rsipstack::dialog::handling::{HandleStep, Handling};
use rsipstack::dialog::id::DialogId;
use rsipstack::dialog::invite_dialog::InviteDialog;
use rsipstack::sip::basic::{IpAddr, Method, Scheme, Transport, Version};
use rsipstack::sip::header::{CSeq, Field, Header};
use rsipstack::sip::message::{Request, Response, SipMessage};
use rsipstack::sip::status::{StatusCode, StatusCodeKind};
use rsipstack::sip::uri::{Host, HostWithPort, NameAddr, Param, Uri, Via};
use rsipstack::transaction::builder::{Endpoint, EndpointBuilder};
use rsipstack::transaction::endpoint::{EndpointOption, Reception, TransactionEvent};
use rsipstack::transaction::key::{TransactionKey, TransactionRole};
use rsipstack::transaction::transaction::{
    Dispatch, Outcome, Transaction, TransactionState, TxStep,
};
use rsipstack::transport::connection::{SipConnection, Socket};
use rsipstack::transport::sip_addr::SipAddr;
use rsipstack::transport::transport_layer::TransportLayer;
use std::collections::HashMap;

const CALL_ID: &str = "uas-ack-timeout-test";
const FROM_TAG: &str = "uac-tag";
const LOCAL_TAG: &str = "uas-tag";
const T1: u64 = 20;
// The same ratio of T4 to T1 as by default (5 s to 500 ms).
const T4: u64 = 200;
const T1X64: u64 = 64 * 20;

fn loopback(port: u16) -> SipAddr {
    SipAddr {
        transport: Some(Transport::Udp),
        addr: HostWithPort { host: Host::IpAddr(IpAddr::V4(0x7f000001)), port: Some(port) },
    }
}

fn udp(id: u64, port: u16) -> SipConnection {
    SipConnection::Udp(Socket { id, addr: loopback(port), remote_addr: None })
}

fn uri(user: &str, port: u16) -> Uri {
    Uri {
        scheme: Some(Scheme::Sip),
        user: Some(user.to_string()),
        host_with_port: loopback(port).addr,
        params: vec![],
    }
}

fn party(user: &str, port: u16, tag: Option<&str>) -> NameAddr {
    NameAddr {
        display_name: None,
        uri: uri(user, port),
        params: tag.map(|t| Param::Tag(t.to_string())).into_iter().collect(),
    }
}

/// A request of the peer.
fn request(method: Method, cseq: u32, branch: &str, to_tag: Option<&str>, body: &str) -> Request {
    Request {
        version: Version::V2,
        method,
        uri: uri("bob", 5060),
        headers: vec![
            Header::Via(Field::Typed(Via {
                version: Version::V2,
                transport: Transport::Udp,
                uri: Uri {
                    scheme: None,
                    user: None,
                    host_with_port: loopback(5070).addr,
                    params: vec![],
                },
                params: vec![Param::Branch(branch.to_string())],
            })),
            Header::MaxForwards(70),
            Header::From(Field::Typed(party("alice", 5070, Some(FROM_TAG)))),
            Header::To(Field::Typed(party("bob", 5060, to_tag))),
            Header::CallId(CALL_ID.to_string()),
            Header::CSeq(Field::Typed(CSeq { seq: cseq, method })),
            Header::Contact(Field::Typed(party("alice", 5070, None))),
            Header::ContentLength(body.len() as u32),
        ],
        body: body.as_bytes().to_vec(),
    }
}

fn cseq_of(headers: &[Header]) -> CSeq {
    headers
        .iter()
        .find_map(|h| match h {
            Header::CSeq(Field::Typed(c)) => Some(*c),
            _ => None,
        })
        .unwrap()
}

fn tag_of(a: &NameAddr) -> Option<String> {
    a.params.iter().find_map(|p| match p {
        Param::Tag(t) => Some(t.clone()),
        _ => None,
    })
}

fn from_and_to(headers: &[Header]) -> (NameAddr, NameAddr) {
    let from = headers
        .iter()
        .find_map(|h| match h {
            Header::From(Field::Typed(a)) => Some(a.clone()),
            _ => None,
        })
        .unwrap();
    let to = headers
        .iter()
        .find_map(|h| match h {
            Header::To(Field::Typed(a)) => Some(a.clone()),
            _ => None,
        })
        .unwrap();
    (from, to)
}

/// A server with one call, a clock and what it has sent.
struct Server {
    ep: Endpoint,
    now: u64,
    due: HashMap<u64, u64>,
    wire: Vec<(u64, SipMessage)>,
    dialog: Option<InviteDialog>,
    states: Vec<DialogState>,
    byes: Vec<(u64, Request)>,
}

/// A transaction of the server and how far its handling has come.
struct Running {
    tx: Transaction,
    handling: Option<Handling>,
    done: bool,
}

impl Server {
    fn new(option: EndpointOption) -> Server {
        let mut layer = TransportLayer::new();
        layer.add_transport(udp(1, 5060));
        let ep = EndpointBuilder::new()
            .with_user_agent("rsipstack-test")
            .with_transport_layer(layer)
            .with_option(option)
            .build();
        Server {
            ep,
            now: 0,
            due: HashMap::new(),
            wire: vec![],
            dialog: None,
            states: vec![],
            byes: vec![],
        }
    }

    fn drive(&mut self, tx: &mut Transaction, step: TxStep) -> Outcome {
        let mut step = step;
        loop {
            step = match step {
                TxStep::Done(o) => return o,
                TxStep::Locate { .. } => panic!("nothing is to be located"),
                TxStep::Lookup { target } => {
                    tx.looked_up(&mut self.ep.inner, Ok((udp(1, 5060), target)))
                }
                TxStep::Write { message, .. } => {
                    self.wire.push((self.now, message.clone()));
                    tx.written(&mut self.ep.inner, message, Ok(()))
                }
            };
        }
    }

    fn note(&mut self) {
        if let Some(d) = &mut self.dialog {
            self.states.extend(d.inner.take_notifications());
        }
    }

    /// Carries out what the handling of a request asks for, until it waits.
    fn carry_out(&mut self, run: &mut Running, h: Handling, step: HandleStep) {
        let mut h = h;
        let mut step = step;
        loop {
            let mut dialog = self.dialog.take().unwrap();
            let (next_h, next) = match step {
                HandleStep::Reply(status) => {
                    let s = run.tx.reply(&self.ep.inner, status);
                    let r = match self.drive(&mut run.tx, s) {
                        Outcome::Failed(e) => Err(e),
                        _ => Ok(()),
                    };
                    dialog.handle_sent(&run.tx, h, r)
                }
                HandleStep::Respond(resp) => {
                    let s = run.tx.respond(&self.ep.inner, resp);
                    let r = match self.drive(&mut run.tx, s) {
                        Outcome::Failed(e) => Err(e),
                        _ => Ok(()),
                    };
                    dialog.handle_sent(&run.tx, h, r)
                }
                HandleStep::Trying => {
                    let s = run.tx.send_trying(&self.ep.inner);
                    self.drive(&mut run.tx, s);
                    dialog.handle_sent(&run.tx, h, Ok(()))
                }
                HandleStep::Bye(bye) => {
                    self.byes.push((self.now, bye));
                    dialog.handle_ended()
                }
                HandleStep::Done(r) => {
                    r.unwrap();
                    run.done = true;
                    self.dialog = Some(dialog);
                    self.note();
                    return;
                }
                HandleStep::Ask { .. } | HandleStep::Receive => {
                    run.handling = Some(h);
                    self.dialog = Some(dialog);
                    self.note();
                    return;
                }
            };
            self.dialog = Some(dialog);
            h = next_h;
            step = next;
        }
    }

    /// The peer's INVITE opens the call.
    fn open(&mut self, invite: Request) -> Running {
        let mut run = match self.arrive(invite) {
            Some(tx) => Running { tx, handling: None, done: false },
            None => panic!("no transaction"),
        };
        let mut id = DialogId::from_request(&run.tx.original, TransactionRole::Server).unwrap();
        id.local_tag = LOCAL_TAG.to_string();
        let inner = DialogInner::new(
            TransactionRole::Server,
            id,
            run.tx.original.clone(),
            None,
            Some(uri("bob", 5060)),
            run.tx.channel,
            )
        .unwrap();
        self.dialog = Some(InviteDialog::from_inner(inner));
        self.begin(&mut run);
        run
    }

    /// The dialog takes the request of a transaction.
    fn begin(&mut self, run: &mut Running) {
        let mut dialog = self.dialog.take().unwrap();
        let (h, step) =
            dialog.handle(&mut self.ep.inner, &run.tx, TransactionHandle { id: run.tx.channel }, true);
        self.dialog = Some(dialog);
        self.carry_out(run, h, step);
    }

    /// A request comes in. What is returned is new.
    fn arrive(&mut self, req: Request) -> Option<Transaction> {
        let msg = SipMessage::Request(req);
        match self.ep.inner.on_received_message(&msg, &udp(1, 5060), &loopback(5070)).unwrap() {
            Reception::Forward(key) => {
                match self.ep.inner.dispatch(key, msg, udp(1, 5060)).unwrap() {
                    Dispatch::Incoming(tx) => Some(tx),
                    _ => None,
                }
            }
            _ => None,
        }
    }

    fn tell(&mut self, run: &mut Running, event: TransactionEvent) {
        let s = run.tx.receive(&mut self.ep.inner, event);
        let msg = match self.drive(&mut run.tx, s) {
            Outcome::Message(m) => Some(m),
            Outcome::Ended => None,
            _ => {
                if run.tx.is_terminated() {
                    None
                } else {
                    return;
                }
            }
        };
        if let Some(h) = run.handling.take() {
            let addrs = self.ep.get_addrs();
            let branch = "z9hG4bKbye".to_string();
            let mut dialog = self.dialog.take().unwrap();
            let (h, step) =
                dialog.handle_message(&self.ep.inner, &addrs, &branch, &run.tx, h, msg);
            self.dialog = Some(dialog);
            self.carry_out(run, h, step);
        }
    }

    /// Hands the waiting events to their transactions.
    fn deliver(&mut self, runs: &mut [&mut Running]) {
        loop {
            let events = self.ep.inner.take_outbox();
            if events.is_empty() {
                return;
            }
            for (channel, event) in events {
                for run in runs.iter_mut() {
                    if run.tx.channel == channel && !run.done {
                        self.tell(run, event);
                        break;
                    }
                }
            }
        }
    }

    /// Lets the clock run.
    fn run_until(&mut self, end: u64, runs: &mut [&mut Running]) {
        loop {
            let ids: Vec<u64> = self.ep.inner.timers.pending.keys().copied().collect();
            for id in &ids {
                let delay = self.ep.inner.timers.delay_of(*id).unwrap();
                let now = self.now;
                self.due.entry(*id).or_insert(now + delay);
            }
            self.due.retain(|id, _| ids.contains(id));
            let next = self.due.iter().map(|(id, at)| (*at, *id)).min();
            match next {
                Some((at, id)) if at <= end => {
                    self.now = at;
                    self.due.remove(&id);
                    if let Some(t) = self.ep.inner.timers.fire(id) {
                        self.ep.inner.process_timer(t);
                    }
                    self.deliver(runs);
                }
                _ => {
                    self.now = end;
                    return;
                }
            }
        }
    }

    fn accept(&mut self, run: &mut Running, body: Option<Vec<u8>>) {
        let mut dialog = self.dialog.take().unwrap();
        dialog.accept(&mut self.ep.inner, true, None, body).unwrap();
        self.dialog = Some(dialog);
        self.note();
        self.deliver(&mut [run]);
    }

    fn answer(&mut self, run: &mut Running, status: StatusCode, body: Option<Vec<u8>>) {
        let h = run.handling.take().unwrap();
        let (_, cmd) = TransactionHandle { id: run.tx.channel }.respond(status, None, body);
        let mut dialog = self.dialog.take().unwrap();
        let (h, step) = dialog.handle_command(&self.ep.inner, &run.tx, h, Some(cmd));
        self.dialog = Some(dialog);
        self.carry_out(run, h, step);
    }

    fn oks(&self, cseq: u32) -> Vec<u64> {
        self.wire
            .iter()
            .filter_map(|(at, m)| match m {
                SipMessage::Response(r)
                    if r.status_code == StatusCode::OK
                        && cseq_of(&r.headers) == CSeq { seq: cseq, method: Method::Invite } =>
                {
                    Some(*at)
                }
                _ => None,
            })
            .collect()
    }

    fn terminated_reason(&self) -> Option<TerminatedReason> {
        self.states.iter().find_map(|s| match s {
            DialogState::Terminated(_, reason) => Some(*reason),
            _ => None,
        })
    }

    fn confirmed(&self) -> Vec<Response> {
        self.states
            .iter()
            .filter_map(|s| match s {
                DialogState::Confirmed(_, r) => Some(r.clone()),
                _ => None,
            })
            .collect()
    }

    fn check_bye(&self) -> u64 {
        assert_eq!(self.byes.len(), 1, "the server must send a BYE when the ACK never arrives");
        let (at, bye) = &self.byes[0];
        assert_eq!(bye.method, Method::Bye);
        assert!(bye.headers.iter().any(|h| matches!(h, Header::CallId(c) if c == CALL_ID)));
        let (from, to) = from_and_to(&bye.headers);
        assert_eq!(tag_of(&from).as_deref(), Some(LOCAL_TAG));
        assert_eq!(tag_of(&to).as_deref(), Some(FROM_TAG));
        *at
    }
}

fn short_timers() -> EndpointOption {
    EndpointOption { t1: T1, t4: T4, t1x64: T1X64, ..Default::default() }
}

#[test]
fn test_unacked_2xx_is_retransmitted_then_the_session_is_ended() {
    let mut s = Server::new(short_timers());
    let mut run = s.open(request(Method::Invite, 1, "z9hG4bK-invite-1", None, ""));
    s.accept(&mut run, None);
    // The peer never acknowledges.
    s.run_until(T1X64 * 2, &mut [&mut run]);

    let oks = s.oks(1);
    assert!(oks.len() >= 6, "got {} transmissions", oks.len());
    let last = *oks.last().unwrap();
    assert!(last > T4 * 2 && last >= T1X64 / 2, "last one after {last}");
    let gaps: Vec<u64> = oks.windows(2).map(|w| w[1] - w[0]).collect();
    assert_eq!(gaps[0], T1);
    assert!(gaps.windows(2).all(|g| g[1] >= g[0]), "intervals must not shrink: {gaps:?}");

    assert_eq!(s.terminated_reason(), Some(TerminatedReason::Timeout));
    let bye_at = s.check_bye();
    assert_eq!(bye_at, T1X64);
    assert!(!oks.iter().any(|at| *at > bye_at));
}

#[test]
fn test_acked_2xx_stops_retransmitting_and_confirms() {
    let mut s = Server::new(short_timers());
    let mut run = s.open(request(Method::Invite, 1, "z9hG4bK-invite-1", None, ""));
    s.accept(&mut run, None);
    s.run_until(T1 * 2, &mut [&mut run]);
    let before = s.oks(1).len();
    assert!(s.arrive(request(Method::Ack, 1, "z9hG4bK-ack", Some(LOCAL_TAG), "")).is_none());
    s.deliver(&mut [&mut run]);
    s.run_until(T1X64 * 3, &mut [&mut run]);
    assert_eq!(s.oks(1).len(), before, "no 2xx may be retransmitted once the ACK arrived");
    assert!(s.byes.is_empty(), "an ACKed call must not be ended");
    assert_eq!(s.confirmed().len(), 1);
    assert_eq!(s.terminated_reason(), None);
    assert!(s.dialog.as_ref().unwrap().inner.is_confirmed());
}

#[test]
fn test_unacked_2xx_retransmission_interval_is_capped_at_t2() {
    let t2 = T1 * 4;
    let mut s = Server::new(EndpointOption { t2, ..short_timers() });
    let mut run = s.open(request(Method::Invite, 1, "z9hG4bK-invite-1", None, ""));
    s.accept(&mut run, None);
    s.run_until(T1X64 * 2, &mut [&mut run]);
    let oks = s.oks(1);
    let gaps: Vec<u64> = oks.windows(2).map(|w| w[1] - w[0]).collect();
    assert!(gaps.len() >= 8 && gaps.iter().all(|g| *g <= t2), "got {gaps:?}");
    assert!(*oks.last().unwrap() >= T1X64 - t2 - T1 * 2);
    assert_eq!(s.terminated_reason(), Some(TerminatedReason::Timeout));
}

/// The call is established: INVITE, 200, ACK.
fn establish(s: &mut Server, offer: Option<Vec<u8>>, answer: &str) {
    let mut run = s.open(request(Method::Invite, 1, "z9hG4bK-invite-1", None, ""));
    s.accept(&mut run, offer);
    assert!(s.arrive(request(Method::Ack, 1, "z9hG4bK-ack-1", Some(LOCAL_TAG), answer)).is_none());
    s.deliver(&mut [&mut run]);
    assert!(run.done);
    assert!(s.dialog.as_ref().unwrap().inner.is_confirmed());
}

fn reinvite(s: &mut Server, cseq: u32, branch: &str) -> Running {
    let tx = s.arrive(request(Method::Invite, cseq, branch, Some(LOCAL_TAG), "")).unwrap();
    let mut run = Running { tx, handling: None, done: false };
    s.begin(&mut run);
    run
}

#[test]
fn test_unacked_reinvite_2xx_ends_the_session() {
    let mut s = Server::new(short_timers());
    establish(&mut s, None, "");
    let mut run = reinvite(&mut s, 2, "z9hG4bK-invite-2");
    assert!(matches!(s.states.last(), Some(DialogState::Updated(_, _, _))));
    let answered = s.now;
    s.answer(&mut run, StatusCode::OK, None);
    s.run_until(answered + T1X64 * 2, &mut [&mut run]);
    let oks = s.oks(2);
    assert!(oks.len() >= 6 && *oks.last().unwrap() - answered >= T1X64 / 2);
    assert_eq!(s.terminated_reason(), Some(TerminatedReason::Timeout));
    assert!(s.check_bye() - answered >= T1X64 - T1);
}

#[test]
fn test_late_ack_of_previous_reinvite_reaches_its_own_transaction() {
    let mut s =
        Server::new(EndpointOption { t1: 100, t1x64: 6400, ..Default::default() });
    establish(&mut s, None, "");
    // The answer to the first re-INVITE is out, and its ACK is late.
    let mut second = reinvite(&mut s, 2, "z9hG4bK-invite-2");
    s.answer(&mut second, StatusCode::OK, None);
    let mut third = reinvite(&mut s, 3, "z9hG4bK-invite-3");
    s.answer(&mut third, StatusCode::OK, None);
    s.states.clear();

    assert!(s.arrive(request(Method::Ack, 2, "z9hG4bK-ack-2", Some(LOCAL_TAG), "")).is_none());
    s.deliver(&mut [&mut second, &mut third]);
    let confirmed = s.confirmed();
    assert_eq!(confirmed.len(), 1, "the ACK of CSeq 2 must confirm nothing else");
    assert_eq!(cseq_of(&confirmed[0].headers).seq, 2);
    let (two, three) = (s.oks(2).len(), s.oks(3).len());
    let now = s.now;
    s.run_until(now + 1200, &mut [&mut second, &mut third]);
    assert_eq!(s.oks(2).len(), two, "the ACK of CSeq 2 must stop its 200");
    assert!(s.oks(3).len() > three, "the 200 to CSeq 3 is not acknowledged yet");

    s.states.clear();
    assert!(s.arrive(request(Method::Ack, 3, "z9hG4bK-ack-3", Some(LOCAL_TAG), "")).is_none());
    s.deliver(&mut [&mut second, &mut third]);
    let confirmed = s.confirmed();
    assert_eq!(confirmed.len(), 1);
    assert_eq!(cseq_of(&confirmed[0].headers).seq, 3);
    let three = s.oks(3).len();
    let now = s.now;
    s.run_until(now + 20000, &mut [&mut second, &mut third]);
    assert_eq!(s.oks(3).len(), three);
    assert!(s.byes.is_empty());
}

#[test]
fn test_server_invite_ignores_ack_with_other_cseq() {
    let mut s = Server::new(EndpointOption::default());
    let tx =
        s.arrive(request(Method::Invite, 2, "z9hG4bK-invite-2", Some(LOCAL_TAG), "")).unwrap();
    let mut run = Running { tx, handling: None, done: false };
    let step = run.tx.reply(&s.ep.inner, StatusCode::OK);
    s.drive(&mut run.tx, step);
    assert_eq!(run.tx.state, TransactionState::Completed);
    assert!(run.tx.timer_g.is_some(), "Timer G must run for 2xx over UDP");
    assert_eq!(s.ep.inner.get_stats().waiting_ack, 1);

    // The late ACK of an earlier INVITE.
    let stale = request(Method::Ack, 1, "z9hG4bK-invite-2", Some(LOCAL_TAG), "");
    s.tell(&mut run, TransactionEvent::Received(SipMessage::Request(stale), Some(udp(1, 5060))));
    s.run_until(1200, &mut [&mut run]);
    assert_eq!(run.tx.state, TransactionState::Completed);
    assert!(run.tx.timer_g.is_some(), "Timer G must keep running");
    assert_eq!(s.ep.inner.get_stats().waiting_ack, 1);
    assert!(s.oks(2).len() >= 2, "the 2xx must be retransmitted");

    let ack = request(Method::Ack, 2, "z9hG4bK-ack-2", Some(LOCAL_TAG), "");
    assert!(s.arrive(ack).is_none());
    s.deliver(&mut [&mut run]);
    assert_eq!(run.tx.state, TransactionState::Confirmed);
    assert!(run.tx.timer_g.is_none(), "Timer G must stop once ACKed");
    assert_eq!(s.ep.inner.get_stats().waiting_ack, 0);
}

const OFFER: &str = "v=0\r\no=uas 1 1 IN IP4 127.0.0.1\r\n";

#[test]
fn test_answer_in_ack_to_initial_invite_is_available() {
    let mut s = Server::new(EndpointOption::default());
    establish(&mut s, Some(OFFER.as_bytes().to_vec()), "answer 1");
    let sent = s.wire.iter().find_map(|(_, m)| match m {
        SipMessage::Response(r) if r.status_code == StatusCode::OK => Some(r.body.clone()),
        _ => None,
    });
    assert_eq!(sent.unwrap(), OFFER.as_bytes(), "the 200 carries the offer");
    let ack = s.dialog.as_ref().unwrap().last_remote_ack().unwrap();
    assert_eq!(ack.method, Method::Ack);
    assert_eq!(cseq_of(&ack.headers).seq, 1);
    assert_eq!(ack.body, b"answer 1", "the ACK carries the answer");
}

#[test]
fn test_answer_in_ack_to_reinvite_is_available() {
    let mut s = Server::new(EndpointOption::default());
    establish(&mut s, Some(OFFER.as_bytes().to_vec()), "answer 1");
    let mut run = reinvite(&mut s, 2, "z9hG4bK-invite-2");
    match s.states.last() {
        Some(DialogState::Updated(_, req, _)) => assert!(req.body.is_empty()),
        _ => panic!("expected Updated"),
    }
    s.answer(&mut run, StatusCode::OK, Some(OFFER.as_bytes().to_vec()));
    s.arrive(request(Method::Ack, 2, "z9hG4bK-ack-2", Some(LOCAL_TAG), "answer 2"));
    s.deliver(&mut [&mut run]);
    let ack = s.dialog.as_ref().unwrap().last_remote_ack().unwrap();
    assert_eq!(cseq_of(&ack.headers).seq, 2, "the ACK of the re-INVITE, not the initial one");
    assert_eq!(ack.body, b"answer 2", "the ACK carries the answer");
}

#[test]
fn test_info_answered_after_peer_bye_is_not_notified_as_confirmed() {
    let mut s = Server::new(EndpointOption::default());
    establish(&mut s, None, "");
    let tx = s.arrive(request(Method::Info, 2, "z9hG4bK-info", Some(LOCAL_TAG), "")).unwrap();
    let mut info = Running { tx, handling: None, done: false };
    s.begin(&mut info);
    let tx = s.arrive(request(Method::Bye, 3, "z9hG4bK-bye", Some(LOCAL_TAG), "")).unwrap();
    let mut bye = Running { tx, handling: None, done: false };
    s.begin(&mut bye);
    assert!(bye.done);
    assert_eq!(s.terminated_reason(), Some(TerminatedReason::UacBye));
    s.states.clear();
    s.answer(&mut info, StatusCode::OK, None);
    assert!(info.done);
    assert!(s.states.is_empty(), "nothing may be notified after Terminated");
}

#[test]
fn a_call_is_usable_after_each_request() {
    let mut s = Server::new(EndpointOption::default());
    establish(&mut s, None, "");
    let methods = [Method::Info, Method::Update, Method::Refer, Method::Message, Method::Notify];
    for (i, method) in methods.iter().enumerate() {
        let branch = format!("z9hG4bK-{i}");
        let req = request(*method, 2 + i as u32, &branch, Some(LOCAL_TAG), "");
        let tx = s.arrive(req).unwrap();
        let mut run = Running { tx, handling: None, done: false };
        s.begin(&mut run);
        s.answer(&mut run, StatusCode::Accepted, None);
        assert!(run.done);
        assert!(s.dialog.as_ref().unwrap().inner.is_confirmed());
    }
}

#[test]
fn a_request_without_an_answer_gets_501() {
    let mut s = Server::new(EndpointOption::default());
    establish(&mut s, None, "");
    let tx = s.arrive(request(Method::Refer, 2, "z9hG4bK-refer", Some(LOCAL_TAG), "")).unwrap();
    let mut run = Running { tx, handling: None, done: false };
    s.begin(&mut run);
    assert!(!s.dialog.as_ref().unwrap().inner.is_confirmed());
    let h = run.handling.take().unwrap();
    let mut dialog = s.dialog.take().unwrap();
    let (h, step) = dialog.handle_command(&s.ep.inner, &run.tx, h, None);
    s.dialog = Some(dialog);
    s.carry_out(&mut run, h, step);
    assert!(run.done);
    match &s.wire.last().unwrap().1 {
        SipMessage::Response(r) => assert_eq!(r.status_code, StatusCode::NotImplemented),
        _ => panic!("expected a response"),
    }
    assert!(s.dialog.as_ref().unwrap().inner.is_confirmed());
}

#[test]
fn a_provisional_answer_is_followed_by_another() {
    let mut s = Server::new(EndpointOption::default());
    establish(&mut s, None, "");
    let mut run = reinvite(&mut s, 2, "z9hG4bK-invite-2");
    s.answer(&mut run, StatusCode::Ringing, None);
    assert!(matches!(run.handling, Some(Handling::Asking { within: 32000, .. })));
    s.answer(&mut run, StatusCode::OK, None);
    assert!(matches!(run.handling, Some(Handling::AwaitingAck { answered_2xx: true })));
}

#[test]
fn other_methods_are_not_allowed() {
    let mut s = Server::new(EndpointOption::default());
    establish(&mut s, None, "");
    let req = request(Method::Publish, 2, "z9hG4bK-publish", Some(LOCAL_TAG), "");
    let tx = s.arrive(req).unwrap();
    let mut dialog = s.dialog.take().unwrap();
    let (h, step) = dialog.handle(&mut s.ep.inner, &tx, TransactionHandle { id: 1 }, true);
    assert!(matches!(step, HandleStep::Reply(StatusCode::MethodNotAllowed)));
    let (_, step) = dialog.handle_sent(&tx, h, Ok(()));
    match step {
        HandleStep::Done(Err(rsipstack::error::Error::DialogError(text, _, status))) => {
            assert_eq!(text, "invalid request");
            assert_eq!(status, StatusCode::MethodNotAllowed);
        }
        _ => panic!("expected an error"),
    }
}

#[test]
fn an_old_request_is_ignored_by_the_server() {
    let mut s = Server::new(EndpointOption::default());
    establish(&mut s, None, "");
    s.dialog.as_mut().unwrap().inner.remote_seq = 9;
    let tx = s.arrive(request(Method::Bye, 3, "z9hG4bK-old", Some(LOCAL_TAG), "")).unwrap();
    let mut run = Running { tx, handling: None, done: false };
    s.begin(&mut run);
    assert!(run.done);
    assert!(s.dialog.as_ref().unwrap().inner.is_confirmed());
}

#[test]
fn a_prack_needs_its_rack() {
    let mut s = Server::new(EndpointOption::default());
    let mut invite = s.open(request(Method::Invite, 1, "z9hG4bK-invite-1", None, ""));
    let mut prack = request(Method::PRack, 2, "z9hG4bK-prack", Some(LOCAL_TAG), "");
    let tx = s.arrive(prack.clone()).unwrap();
    let mut run = Running { tx, handling: None, done: false };
    s.begin(&mut run);
    match &s.wire.last().unwrap().1 {
        SipMessage::Response(r) => assert_eq!(r.status_code, StatusCode::BadRequest),
        _ => panic!("expected a response"),
    }
    prack.headers.retain(|h| !matches!(h, Header::CSeq(_) | Header::Via(_)));
    let mut good = request(Method::PRack, 3, "z9hG4bK-prack-2", Some(LOCAL_TAG), "");
    good.headers.push(Header::RAck("1 1 INVITE".to_string()));
    let tx = s.arrive(good).unwrap();
    let mut run = Running { tx, handling: None, done: false };
    s.begin(&mut run);
    match &s.wire.last().unwrap().1 {
        SipMessage::Response(r) => assert_eq!(r.status_code, StatusCode::OK),
        _ => panic!("expected a response"),
    }
    invite.done = true;
}

#[test]
fn a_cancel_ends_the_ringing_call() {
    let mut s = Server::new(EndpointOption::default());
    let mut run = s.open(request(Method::Invite, 1, "z9hG4bK-invite-1", None, ""));
    let mut dialog = s.dialog.take().unwrap();
    dialog.ringing(&mut s.ep.inner, true, None, None).unwrap();
    s.dialog = Some(dialog);
    s.note();
    s.deliver(&mut [&mut run]);
    assert!(s.wire.iter().any(|(_, m)| matches!(m, SipMessage::Response(r) if r.status_code == StatusCode::Ringing)));
    assert!(s.arrive(request(Method::Cancel, 1, "z9hG4bK-invite-1", None, "")).is_none());
    s.deliver(&mut [&mut run]);
    assert_eq!(s.terminated_reason(), Some(TerminatedReason::UacCancel));
    assert!(s.wire.iter().any(|(_, m)| matches!(m, SipMessage::Response(r) if r.status_code == StatusCode::RequestTerminated)));
    assert!(run.done);
}

#[test]
fn a_server_rings_accepts_and_rejects_by_its_state() {
    let mut s = Server::new(EndpointOption::default());
    let mut run = s.open(request(Method::Invite, 1, "z9hG4bK-invite-1", None, ""));
    let mut dialog = s.dialog.take().unwrap();
    // The transaction is gone.
    assert!(matches!(
        dialog.ringing(&mut s.ep.inner, false, None, None),
        Err(rsipstack::error::Error::Error(text)) if text == "channel closed"
    ));
    assert!(matches!(dialog.inner.state, DialogState::Calling(_)));
    dialog.ringing(&mut s.ep.inner, true, None, Some(b"sdp".to_vec())).unwrap();
    match &dialog.inner.state {
        DialogState::Early(_, r) => assert_eq!(r.status_code, StatusCode::SessionProgress),
        _ => panic!("expected Early"),
    }
    dialog.reject(&mut s.ep.inner, None, Some("Q.850;cause=21".to_string()));
    assert!(matches!(
        dialog.inner.state,
        DialogState::Terminated(_, TerminatedReason::UasDecline)
    ));
    let events = s.ep.inner.take_outbox();
    match &events.last().unwrap().1 {
        TransactionEvent::Respond(r) => {
            assert_eq!(r.status_code, StatusCode::Decline);
            assert!(r.headers.iter().any(|h| matches!(h, Header::Reason(v) if v == "Q.850;cause=21")));
            assert_eq!(tag_of(&from_and_to(&r.headers).1).as_deref(), Some(LOCAL_TAG));
        }
        _ => panic!("expected a response"),
    }
    // A dialog that is over does nothing more.
    dialog.reject(&mut s.ep.inner, Some(StatusCode::BusyHere), None);
    assert!(s.ep.inner.take_outbox().is_empty());
    dialog.ringing(&mut s.ep.inner, true, None, None).unwrap();
    assert!(s.ep.inner.take_outbox().is_empty());
    run.done = true;
}

#[test]
fn an_accepted_call_can_name_a_public_contact() {
    let mut s = Server::new(EndpointOption::default());
    let mut run = s.open(request(Method::Invite, 1, "z9hG4bK-invite-1", None, ""));
    let mut dialog = s.dialog.take().unwrap();
    let public = party("bob", 15060, None);
    dialog
        .accept_with_public_contact(&mut s.ep.inner, true, public, None, Some(b"sdp".to_vec()))
        .unwrap();
    match &dialog.inner.state {
        DialogState::WaitAck(_, r) => {
            let contacts: Vec<u16> = r
                .headers
                .iter()
                .filter_map(|h| match h {
                    Header::Contact(Field::Typed(c)) => c.uri.host_with_port.port,
                    _ => None,
                })
                .collect();
            assert_eq!(contacts, vec![15060]);
            assert_eq!(r.body, b"sdp");
        }
        _ => panic!("expected WaitAck"),
    }
    run.done = true;
}

#[test]
fn statuses_have_their_kind() {
    assert_eq!(StatusCode::Ringing.kind(), StatusCodeKind::Provisional);
    assert_eq!(StatusCode::OK.kind(), StatusCodeKind::Successful);
    assert_eq!(StatusCode::RequestTerminated.kind(), StatusCodeKind::RequestFailure);
    assert_eq!(StatusCode::from_code(487), StatusCode::RequestTerminated);
    assert_eq!(StatusCode::from_code(699), StatusCode::Other(699));
    assert_eq!(StatusCode::Other(699).code(), 699);
}

#[test]
fn the_key_of_a_request_finds_the_response() {
    let req = request(Method::Invite, 1, "z9hG4bK-invite-1", None, "");
    let key = TransactionKey::from_request(&req, TransactionRole::Client).unwrap();
    let resp = Response {
        version: Version::V2,
        status_code: StatusCode::OK,
        headers: req.headers.clone(),
        body: vec![],
    };
    let other = TransactionKey::from_response(&resp, TransactionRole::Client).unwrap();
    assert_eq!(key.0, other.0);
    let cancel = request(Method::Cancel, 1, "z9hG4bK-invite-1", None, "");
    assert_eq!(
        TransactionKey::from_request(&cancel, TransactionRole::Server).unwrap().0,
        TransactionKey::from_request(&req, TransactionRole::Server).unwrap().0
    );
}

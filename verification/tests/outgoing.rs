use rsipstack::dialog::abandoning::{AbandonStep, Abandoned};
use rsipstack::dialog::dialog::{Credential, DialogInner, DialogState, TerminatedReason};
use rsipstack::dialog::exchange::{DialogRequest, DialogStep};
use rsipstack::dialog::id::DialogId;
use rsipstack::dialog::invitation::{DialogGuard, DialogLayer, InviteOption};
use rsipstack::dialog::invite_dialog::{Ending, InviteDialog};
use rsipstack::dialog::inviting::{Invitation, InviteStep};
use rsipstack::error::Error;
use rsipstack::sip::basic::{IpAddr, Method, Scheme, Transport, Version};
use rsipstack::sip::header::{CSeq, Field, Header};
use rsipstack::sip::message::{Request, Response, SipMessage};
use rsipstack::sip::status::{StatusCode, StatusCodeKind};
use rsipstack::sip::uri::{Host, HostWithPort, NameAddr, Param, Received, Uri, Via};
use rsipstack::transaction::builder::{Endpoint, EndpointBuilder};
use rsipstack::transaction::endpoint::{Reception, TransactionEvent};
use rsipstack::transaction::key::{TransactionKey, TransactionRole};
use rsipstack::transaction::transaction::{Outcome, Transaction, TxStep};
use rsipstack::transport::connection::{Listener, SipConnection, Socket, Stream};
use rsipstack::transport::sip_addr::SipAddr;
use rsipstack::transport::transport_layer::TransportLayer;

const PEER_TAG: &str = "peer-tag";
const UAC_PORT: u16 = 5070;
const PEER_PORT: u16 = 5060;

fn host(port: u16) -> HostWithPort {
    HostWithPort { host: Host::IpAddr(IpAddr::V4(0x7f000001)), port: Some(port) }
}

fn addr(transport: Transport, port: u16) -> SipAddr {
    SipAddr { transport: Some(transport), addr: host(port) }
}

fn udp() -> SipConnection {
    SipConnection::Udp(Socket {
        id: 1,
        addr: addr(Transport::Udp, UAC_PORT),
        remote_addr: None,
    })
}

fn tcp(id: u64) -> SipConnection {
    SipConnection::Tcp(Stream {
        id,
        addr: addr(Transport::Tcp, 40000),
        remote_addr: addr(Transport::Tcp, PEER_PORT),
    })
}

fn domain_uri(user: &str, domain: &str) -> Uri {
    Uri {
        scheme: Some(Scheme::Sip),
        user: Some(user.to_string()),
        host_with_port: HostWithPort { host: Host::Domain(domain.to_string()), port: None },
        params: vec![],
    }
}

fn host_uri(user: &str, port: u16, transport: Option<Transport>) -> Uri {
    Uri {
        scheme: Some(Scheme::Sip),
        user: Some(user.to_string()),
        host_with_port: host(port),
        params: transport.map(Param::Transport).into_iter().collect(),
    }
}

fn cseq_of(headers: &[Header]) -> CSeq {
    headers
        .iter()
        .find_map(|h| match h {
            Header::CSeq(Field::Typed(c)) => Some(*c),
            _ => None,
        })
        .unwrap()
}

fn call_id_of(headers: &[Header]) -> String {
    headers
        .iter()
        .find_map(|h| match h {
            Header::CallId(c) => Some(c.clone()),
            _ => None,
        })
        .unwrap()
}

fn from_of(headers: &[Header]) -> NameAddr {
    headers
        .iter()
        .find_map(|h| match h {
            Header::From(Field::Typed(a)) => Some(a.clone()),
            _ => None,
        })
        .unwrap()
}

fn to_of(headers: &[Header]) -> NameAddr {
    headers
        .iter()
        .find_map(|h| match h {
            Header::To(Field::Typed(a)) => Some(a.clone()),
            _ => None,
        })
        .unwrap()
}

fn via_of(headers: &[Header]) -> Via {
    headers
        .iter()
        .find_map(|h| match h {
            Header::Via(Field::Typed(v)) => Some(v.clone()),
            _ => None,
        })
        .unwrap()
}

/// A response of the peer, with its tag and its contact.
fn response(req: &Request, status: StatusCode, more: Vec<Header>) -> Response {
    let mut headers: Vec<Header> = vec![];
    for h in &req.headers {
        match h {
            Header::Via(_) | Header::From(_) | Header::CallId(_) | Header::CSeq(_) => {
                headers.push(h.clone())
            }
            Header::To(Field::Typed(a)) => {
                headers.push(Header::To(Field::Typed(a.clone().or_tag(&PEER_TAG.to_string()))))
            }
            _ => {}
        }
    }
    headers.extend(more);
    headers.push(Header::ContentLength(0));
    Response { version: Version::V2, status_code: status, headers, body: vec![] }
}

fn contact(transport: Option<Transport>) -> Header {
    Header::Contact(Field::Typed(NameAddr::of_uri(host_uri("bob", PEER_PORT, transport))))
}

/// A client with one call, over the wire of a peer.
struct Client {
    ep: Endpoint,
    layer: DialogLayer,
    dialog: InviteDialog,
    tx: Transaction,
    transport: Transport,
    /// The number of the stream that a lookup hands out, if one can be had.
    stream: Option<u64>,
    /// The stream on which writing fails.
    broken: Option<u64>,
    wire: Vec<(SipMessage, Option<SipConnection>)>,
    states: Vec<DialogState>,
}

fn endpoint(transport: Transport) -> Endpoint {
    let mut layer = TransportLayer::new();
    layer.add_transport(udp());
    if transport == Transport::Tcp {
        layer.add_transport(SipConnection::TcpListener(Listener {
            id: 2,
            addr: addr(Transport::Tcp, 5999),
        }));
    }
    EndpointBuilder::new()
        .with_user_agent("rsipstack-test")
        .with_transport_layer(layer)
        .build()
}

impl Client {
    fn new(transport: Transport, credential: Option<Credential>) -> Client {
        let mut ep = endpoint(transport);
        let mut layer = DialogLayer::new();
        let contact = if transport == Transport::Tcp { Some(transport) } else { None };
        let mut opt = InviteOption::new(
            domain_uri("alice", "example.com"),
            host_uri("bob", PEER_PORT, Some(transport)),
            host_uri("alice", UAC_PORT, contact),
        );
        opt.credential = credential;
        let (dialog, tx) = layer.create_client_invite_dialog(&mut ep.inner, opt).unwrap();
        Client {
            ep,
            layer,
            dialog,
            tx,
            transport,
            stream: Some(7),
            broken: None,
            wire: vec![],
            states: vec![],
        }
    }

    fn connection(&self, t: Option<Transport>) -> Result<SipConnection, Error> {
        match t {
            Some(Transport::Tcp) => match self.stream {
                Some(id) => Ok(tcp(id)),
                None => Err(Error::Error("connection refused".to_string())),
            },
            _ => Ok(udp()),
        }
    }

    fn drive(&mut self, tx: &mut Transaction, step: TxStep) -> Outcome {
        let mut step = step;
        loop {
            step = match step {
                TxStep::Done(o) => return o,
                TxStep::Locate { .. } => panic!("nothing is to be located"),
                TxStep::Lookup { target } => {
                    let found = self.connection(target.transport).map(|c| (c, target.clone()));
                    tx.looked_up(&mut self.ep.inner, found)
                }
                TxStep::Write { message, connection, .. } => {
                    let id = connection.as_ref().map(|c| c.id());
                    if id.is_some() && id == self.broken {
                        let e = Error::Error("broken pipe".to_string());
                        tx.written(&mut self.ep.inner, message, Err(e))
                    } else {
                        self.wire.push((message.clone(), connection));
                        tx.written(&mut self.ep.inner, message, Ok(()))
                    }
                }
            };
        }
    }

    fn note(&mut self) {
        self.states.extend(self.dialog.inner.take_notifications());
    }

    fn last_request(&self, method: Method) -> Option<Request> {
        self.wire.iter().rev().find_map(|(m, _)| match m {
            SipMessage::Request(r) if r.method == method => Some(r.clone()),
            _ => None,
        })
    }

    fn count(&self, method: Method) -> usize {
        self.wire
            .iter()
            .filter(|(m, _)| matches!(m, SipMessage::Request(r) if r.method == method))
            .count()
    }

    /// A response arrives, and is handed to the transaction.
    fn arrive(&mut self, tx: &mut Transaction, resp: Response) -> Option<SipMessage> {
        let conn = tx.connection.clone().unwrap_or_else(udp);
        let msg = SipMessage::Response(resp);
        let from = addr(self.transport, PEER_PORT);
        let key = match self.ep.inner.on_received_message(&msg, &conn, &from).unwrap() {
            Reception::Forward(key) => key,
            _ => return None,
        };
        self.ep.inner.dispatch(key, msg, conn).unwrap();
        let mut got = None;
        for (channel, event) in self.ep.inner.take_outbox() {
            if channel != tx.channel {
                continue;
            }
            let step = tx.receive(&mut self.ep.inner, event);
            if let Outcome::Message(m) = self.drive(tx, step) {
                got = Some(m);
            }
        }
        got
    }

    /// Sends the INVITE.
    fn invite(&mut self) -> Invitation {
        let (q, step) = self.dialog.process_invite();
        assert!(matches!(step, InviteStep::Send));
        let mut tx = self.take_tx();
        let step = tx.send(&self.ep.inner);
        let r = match self.drive(&mut tx, step) {
            Outcome::Failed(e) => Err(e),
            _ => Ok(()),
        };
        let step = self.dialog.invite_sent(tx.connection.clone(), r);
        assert!(matches!(step, InviteStep::Receive));
        self.tx = tx;
        self.note();
        q
    }

    fn take_tx(&mut self) -> Transaction {
        let key = TransactionKey("none".to_string());
        let original = self.tx.original.clone();
        let spare = Transaction::new_client(key, original, &mut self.ep.inner, None);
        std::mem::replace(&mut self.tx, spare)
    }

    /// The peer answers the INVITE.
    fn answer(&mut self, q: &mut Invitation, status: StatusCode, more: Vec<Header>) -> InviteStep {
        let resp = response(&self.tx.original, status, more);
        let mut tx = self.take_tx();
        let msg = self.arrive(&mut tx, resp);
        self.tx = tx;
        let addrs = self.ep.get_addrs();
        let branch = "z9hG4bKprack".to_string();
        let step = self.dialog.invite_message(&self.ep.inner, &addrs, &branch, q, msg);
        self.note();
        step
    }

    /// The challenge is answered by a second INVITE.
    fn authenticate(&mut self, seq: u32, status: StatusCode) -> InviteStep {
        let mut request = self.tx.original.clone();
        for h in request.headers.iter_mut() {
            match h {
                Header::CSeq(f) => *f = Field::Typed(CSeq { seq, method: Method::Invite }),
                Header::Via(Field::Typed(v)) => {
                    for p in v.params.iter_mut() {
                        if let Param::Branch(b) = p {
                            *b = "z9hG4bKretry".to_string();
                        }
                    }
                }
                _ => {}
            }
        }
        request.headers.push(if status == StatusCode::ProxyAuthenticationRequired {
            Header::ProxyAuthorization("Digest".to_string())
        } else {
            Header::Authorization("Digest".to_string())
        });
        let key = TransactionKey::from_request(&request, TransactionRole::Client).unwrap();
        let mut tx = Transaction::new_client(key, request, &mut self.ep.inner, None);
        let step = tx.send(&self.ep.inner);
        assert!(matches!(self.drive(&mut tx, step), Outcome::Complete));
        let original = tx.original.clone();
        let step = self.dialog.invite_authenticated(tx.connection.clone(), &original, Ok(()));
        self.tx = tx;
        step
    }

    /// The call is up.
    fn establish(&mut self, more: Vec<Header>) {
        let mut q = self.invite();
        match self.answer(&mut q, StatusCode::OK, more) {
            InviteStep::Done(Ok((_, Some(resp)))) => assert_eq!(resp.status_code, StatusCode::OK),
            _ => panic!("expected the final response"),
        }
        assert!(self.dialog.inner.is_confirmed());
        assert_eq!(self.count(Method::Ack), 1);
    }

    /// Sends a request in the dialog.
    fn begin(&mut self, request: Request) -> (DialogRequest, Transaction) {
        let (q, step) = self.dialog.inner.do_request(&self.ep.inner, request);
        let mut tx = match step {
            DialogStep::Start { key, request, connection, destination } => {
                let mut tx = Transaction::new_client(key, request, &mut self.ep.inner, connection);
                tx.destination = destination;
                tx
            }
            _ => panic!("expected a transaction"),
        };
        let mut step = tx.send(&self.ep.inner);
        loop {
            let sent = match self.drive(&mut tx, step) {
                Outcome::Failed(e) => Err(e),
                _ => Ok(tx.connection.is_some()),
            };
            let addrs = self.ep.get_addrs();
            let original = tx.original.clone();
            match self.dialog.inner.request_sent(&addrs, &q, &original, sent) {
                DialogStep::Receive => return (q, tx),
                DialogStep::Resend { target, request } => {
                    tx.destination = Some(target);
                    tx.original = request;
                    step = tx.send(&self.ep.inner);
                }
                _ => panic!("expected to wait for the answer"),
            }
        }
    }

    fn reply(
        &mut self,
        q: &mut DialogRequest,
        tx: &mut Transaction,
        status: StatusCode,
        more: Vec<Header>,
    ) -> DialogStep {
        let resp = response(&tx.original, status, more);
        let msg = self.arrive(tx, resp);
        let addrs = self.ep.get_addrs();
        let branch = "z9hG4bKprack".to_string();
        let step = self.dialog.inner.request_message(&self.ep.inner, &addrs, &branch, q, msg);
        self.note();
        step
    }
}

fn credential() -> Credential {
    Credential { username: "alice".to_string(), password: "secret".to_string(), realm: None }
}

fn is_auth_terminated(state: &DialogState) -> bool {
    matches!(state, DialogState::Terminated(_, TerminatedReason::ProxyAuthRequired))
}

fn challenge_returned_without_credential(status: StatusCode) {
    let mut c = Client::new(Transport::Udp, None);
    let mut q = c.invite();
    match c.answer(&mut q, status, vec![]) {
        InviteStep::Done(Ok((_, Some(resp)))) => assert_eq!(resp.status_code, status),
        _ => panic!("the challenge must be the final response"),
    }
    assert!(is_auth_terminated(&c.dialog.state()));
    assert!(c.states.iter().any(is_auth_terminated));
    assert_eq!(c.count(Method::Invite), 1);
    // A refused call is not registered.
    let id = c.dialog.id();
    assert_eq!(c.layer.get_dialog(&id), None);
}

#[test]
fn test_invite_401_without_credential_is_final_response() {
    challenge_returned_without_credential(StatusCode::Unauthorized);
}

#[test]
fn test_invite_407_without_credential_is_final_response() {
    challenge_returned_without_credential(StatusCode::ProxyAuthenticationRequired);
}

#[test]
fn test_legacy_client_dialog_401_without_credential_is_final_response() {
    let mut c = Client::new(Transport::Udp, None);
    let mut q = c.invite();
    match c.answer(&mut q, StatusCode::Unauthorized, vec![]) {
        InviteStep::Done(Ok((_, Some(resp)))) => {
            assert_eq!(resp.status_code, StatusCode::Unauthorized)
        }
        _ => panic!("the 401 must be the final response"),
    }
    let legacy = c.dialog.try_into_client().unwrap();
    assert!(is_auth_terminated(&legacy.inner.state));
}

fn challenge_retried_with_credential(status: StatusCode) {
    let mut c = Client::new(Transport::Udp, Some(credential()));
    let mut q = c.invite();
    let first = cseq_of(&c.tx.original.headers).seq;
    let seq = match c.answer(&mut q, status, vec![]) {
        InviteStep::Authenticate { seq, response } => {
            assert_eq!(response.status_code, status);
            seq
        }
        _ => panic!("the challenge must be answered"),
    };
    assert_eq!(seq, first + 1);
    assert!(matches!(c.authenticate(seq, status), InviteStep::Receive));
    assert_eq!(c.dialog.id().remote_tag, "");
    match c.answer(&mut q, StatusCode::OK, vec![contact(None)]) {
        InviteStep::Done(Ok((id, Some(resp)))) => {
            assert_eq!(resp.status_code, StatusCode::OK);
            assert_eq!(id.remote_tag, PEER_TAG);
        }
        _ => panic!("final response after the authenticated retry"),
    }
    assert!(c.dialog.inner.is_confirmed());
    assert_eq!(c.count(Method::Invite), 2);
}

#[test]
fn test_invite_401_with_credential_retries() {
    challenge_retried_with_credential(StatusCode::Unauthorized);
}

#[test]
fn test_invite_407_with_credential_retries() {
    challenge_retried_with_credential(StatusCode::ProxyAuthenticationRequired);
}

#[test]
fn test_invite_challenge_after_authenticated_retry_is_final_response() {
    let status = StatusCode::Unauthorized;
    let mut c = Client::new(Transport::Udp, Some(credential()));
    let mut q = c.invite();
    let seq = match c.answer(&mut q, status, vec![]) {
        InviteStep::Authenticate { seq, .. } => seq,
        _ => panic!("the challenge must be answered"),
    };
    c.authenticate(seq, status);
    match c.answer(&mut q, status, vec![]) {
        InviteStep::Done(Ok((_, Some(resp)))) => assert_eq!(resp.status_code, status),
        _ => panic!("the second challenge must be the final response"),
    }
    assert!(is_auth_terminated(&c.dialog.state()));
    assert_eq!(c.count(Method::Invite), 2);
}

/// The ACK and the BYE belong to the dialog that the 2xx established.
fn check_in_dialog(msg: &Request, invite: &Request) {
    assert_eq!(call_id_of(&msg.headers), call_id_of(&invite.headers));
    assert_eq!(from_of(&msg.headers).tag(), from_of(&invite.headers).tag());
    assert_eq!(to_of(&msg.headers).tag().as_deref(), Some(PEER_TAG));
}

/// Hands a response to the INVITE of an abandoned call on.
fn abandoned_response(
    c: &mut Client,
    a: Abandoned,
    status: StatusCode,
) -> (Abandoned, AbandonStep) {
    let resp = response(&c.tx.original, status, vec![contact(None)]);
    let mut tx = c.take_tx();
    let msg = c.arrive(&mut tx, resp);
    c.tx = tx;
    assert!(msg.is_some());
    let addrs = c.ep.get_addrs();
    let branch = "z9hG4bKbye".to_string();
    let r = c.dialog.abandoned_message(&c.ep.inner, &addrs, &branch, a, msg);
    c.note();
    r
}

fn check_bye(c: &Client, step: AbandonStep) {
    let invite = c.tx.original.clone();
    let bye = match step {
        AbandonStep::Bye(bye) => bye,
        _ => panic!("the 2xx must be followed by a BYE"),
    };
    let ack = c.last_request(Method::Ack).expect("the 2xx must be acknowledged");
    check_in_dialog(&ack, &invite);
    assert_eq!(cseq_of(&ack.headers).seq, cseq_of(&invite.headers).seq);
    check_in_dialog(&bye, &invite);
    assert_eq!(bye.method, Method::Bye);
    assert!(cseq_of(&bye.headers).seq > cseq_of(&invite.headers).seq);
    assert_eq!(bye.uri.user.as_deref(), Some("bob"));
    assert!(bye.uri.host_with_port.same(&host(PEER_PORT)));
    // The abandoned call is reported once, and never as established.
    assert!(!c.states.iter().any(|s| matches!(s, DialogState::Confirmed(_, _))));
    let ends: Vec<&DialogState> =
        c.states.iter().filter(|s| matches!(s, DialogState::Terminated(_, _))).collect();
    assert_eq!(ends.len(), 1);
    assert!(matches!(ends[0], DialogState::Terminated(_, TerminatedReason::UacCancel)));
}

/// The call rings, and is then given up.
fn ring_and_abandon() -> (Client, Abandoned, Request) {
    let mut c = Client::new(Transport::Udp, None);
    let mut q = c.invite();
    assert!(matches!(
        c.answer(&mut q, StatusCode::Ringing, vec![contact(None)]),
        InviteStep::Receive
    ));
    assert!(matches!(c.states.last(), Some(DialogState::Early(_, _))));
    c.states.clear();
    let (a, step) = c.dialog.abandon(&c.ep.inner, true);
    c.note();
    match step {
        AbandonStep::Settle { cancel: Some(cancel), within } => {
            assert_eq!(within, 2000);
            assert_eq!(cancel.method, Method::Cancel);
            assert_eq!(call_id_of(&cancel.headers), call_id_of(&c.tx.original.headers));
            (c, a, cancel)
        }
        _ => panic!("the INVITE must be cancelled"),
    }
}

#[test]
fn test_2xx_before_cancel_response_is_acked_and_byed() {
    let (mut c, a, _) = ring_and_abandon();
    let (a, step) = abandoned_response(&mut c, a, StatusCode::OK);
    assert_eq!(a, Abandoned::Over);
    check_bye(&c, step);
    let (_, step) = c.dialog.abandoned_cancel(&c.ep.inner, a, false);
    assert!(matches!(step, AbandonStep::Done));
}

#[test]
fn test_2xx_after_cancel_response_is_acked_and_byed() {
    let (mut c, a, _) = ring_and_abandon();
    let (a, step) = c.dialog.abandoned_cancel(&c.ep.inner, a, false);
    assert!(matches!(step, AbandonStep::Wait));
    let (_, step) = abandoned_response(&mut c, a, StatusCode::OK);
    check_bye(&c, step);
}

#[test]
fn test_2xx_after_cancel_settle_window_is_acked_and_byed() {
    let (mut c, a, _) = ring_and_abandon();
    let (a, step) = c.dialog.abandoned_cancel(&c.ep.inner, a, false);
    assert!(matches!(step, AbandonStep::Wait));
    // Nothing comes within the time.
    let addrs = c.ep.get_addrs();
    let branch = "z9hG4bKbye".to_string();
    let (a, step) = c.dialog.abandoned_message(&c.ep.inner, &addrs, &branch, a, None);
    c.note();
    assert!(matches!(step, AbandonStep::WaitFinal { within: 32000 }));
    assert!(c.dialog.inner.is_terminated());
    let (_, step) = abandoned_response(&mut c, a, StatusCode::OK);
    check_bye(&c, step);
}

#[test]
fn test_cancel_answered_487_sends_no_bye() {
    let (mut c, a, _) = ring_and_abandon();
    let (a, _) = c.dialog.abandoned_cancel(&c.ep.inner, a, false);
    let (_, step) = abandoned_response(&mut c, a, StatusCode::RequestTerminated);
    assert!(matches!(step, AbandonStep::Done), "a cancelled call must not be ended by a BYE");
    let ack = c.last_request(Method::Ack).unwrap();
    check_in_dialog(&ack, &c.tx.original);
    assert_eq!(cseq_of(&ack.headers).seq, cseq_of(&c.tx.original.headers).seq);
}

#[test]
fn test_explicit_cancel_crossing_2xx_is_returned_to_the_caller() {
    let mut c = Client::new(Transport::Udp, None);
    let mut q = c.invite();
    c.answer(&mut q, StatusCode::Ringing, vec![contact(None)]);
    let cancel = c.dialog.cancel().unwrap().unwrap();
    assert_eq!(cancel.method, Method::Cancel);
    match c.answer(&mut q, StatusCode::OK, vec![contact(None)]) {
        InviteStep::Done(Ok((_, Some(resp)))) => {
            assert_eq!(resp.status_code, StatusCode::OK, "the crossing 2xx must reach the caller")
        }
        _ => panic!("expected the final response"),
    }
    c.dialog.cancel_answered(Some(response(&cancel, StatusCode::OK, vec![]))).unwrap();
    assert!(c.dialog.inner.is_confirmed());
    assert_eq!(c.count(Method::Ack), 1);
}

/// The call is given up before anything has come back.
fn abandon_early() -> (Client, Abandoned) {
    let mut c = Client::new(Transport::Udp, None);
    c.invite();
    c.states.clear();
    let (a, step) = c.dialog.abandon(&c.ep.inner, true);
    c.note();
    assert!(matches!(step, AbandonStep::WaitFirst { within: 32000 }));
    (c, a)
}

#[test]
fn test_abandoned_before_provisional_cancels_after_first_provisional() {
    let (mut c, a) = abandon_early();
    let (a, step) = abandoned_response(&mut c, a, StatusCode::Ringing);
    match step {
        AbandonStep::CancelAndWait { cancel: Some(cancel), within: 32000 } => {
            assert_eq!(cancel.method, Method::Cancel);
            assert_eq!(call_id_of(&cancel.headers), call_id_of(&c.tx.original.headers));
        }
        _ => panic!("the INVITE must be cancelled"),
    }
    let (a, step) = c.dialog.abandoned_cancel(&c.ep.inner, a, false);
    assert!(matches!(step, AbandonStep::Wait));
    let (_, step) = abandoned_response(&mut c, a, StatusCode::RequestTerminated);
    assert!(matches!(step, AbandonStep::Done));
    assert_eq!(c.count(Method::Ack), 1);
}

#[test]
fn test_abandoned_before_provisional_2xx_is_acked_and_byed() {
    let (mut c, a) = abandon_early();
    let (_, step) = abandoned_response(&mut c, a, StatusCode::OK);
    check_bye(&c, step);
}

#[test]
fn test_abandoned_before_provisional_terminates_at_once_and_sends_nothing() {
    let (mut c, a) = abandon_early();
    assert!(matches!(
        c.states.as_slice(),
        [DialogState::Terminated(_, TerminatedReason::UacCancel)]
    ));
    let addrs = c.ep.get_addrs();
    let branch = "z9hG4bKbye".to_string();
    let (_, step) = c.dialog.abandoned_message(&c.ep.inner, &addrs, &branch, a, None);
    assert!(matches!(step, AbandonStep::Done));
    assert_eq!(c.count(Method::Cancel), 0);
    assert_eq!(c.count(Method::Bye), 0);
}

#[test]
fn test_abandoned_before_provisional_2xx_crossing_deferred_cancel_is_byed() {
    let (mut c, a) = abandon_early();
    let (a, step) = abandoned_response(&mut c, a, StatusCode::Ringing);
    assert!(matches!(step, AbandonStep::CancelAndWait { cancel: Some(_), .. }));
    let (_, step) = abandoned_response(&mut c, a, StatusCode::OK);
    check_bye(&c, step);
}

#[test]
fn an_established_call_that_is_dropped_is_hung_up() {
    let mut c = Client::new(Transport::Udp, None);
    c.establish(vec![contact(None)]);
    let (a, step) = c.dialog.abandon(&c.ep.inner, false);
    assert_eq!(a, Abandoned::Over);
    assert!(matches!(step, AbandonStep::Hangup));
    match c.dialog.hangup(&c.ep.inner).unwrap() {
        Ending::Bye(bye) => assert_eq!(bye.method, Method::Bye),
        _ => panic!("expected a BYE"),
    }
}

fn provisional_keeps_confirmed(method: Method) {
    let mut c = Client::new(Transport::Udp, None);
    let mut q = c.invite();
    assert!(matches!(c.answer(&mut q, StatusCode::Trying, vec![]), InviteStep::Receive));
    c.answer(&mut q, StatusCode::SessionProgress, vec![contact(None)]);
    c.answer(&mut q, StatusCode::OK, vec![contact(None)]);
    assert!(c.dialog.state().is_confirmed(), "the INVITE must establish the dialog");
    assert!(c.states.iter().any(|s| matches!(s, DialogState::Early(_, _))));
    assert!(matches!(c.states.last(), Some(DialogState::Confirmed(_, _))));
    c.states.clear();

    let request = match method {
        Method::Invite => c.dialog.reinvite(&c.ep.inner, None, None),
        _ => c.dialog.update(&c.ep.inner, None, None),
    };
    let (mut q, mut tx) = c.begin(request.unwrap().unwrap());
    let step = c.reply(&mut q, &mut tx, StatusCode::Trying, vec![]);
    assert!(matches!(step, DialogStep::Receive));
    let step = c.reply(&mut q, &mut tx, StatusCode::SessionProgress, vec![contact(None)]);
    assert!(matches!(step, DialogStep::Receive));
    assert!(c.dialog.state().is_confirmed(), "a 183 must not leave Confirmed");
    match c.reply(&mut q, &mut tx, StatusCode::OK, vec![contact(None)]) {
        DialogStep::Done(Ok(Some(resp))) => assert_eq!(resp.status_code, StatusCode::OK),
        _ => panic!("no final response"),
    }
    assert!(c.dialog.state().is_confirmed());
    assert!(
        c.states.iter().any(|s| matches!(
            s,
            DialogState::Early(_, r) if r.status_code == StatusCode::SessionProgress
        )),
        "the 183 must still be notified"
    );

    let bye = c.dialog.bye(&c.ep.inner).unwrap().unwrap();
    let (mut q, mut tx) = c.begin(bye);
    let r = match c.reply(&mut q, &mut tx, StatusCode::OK, vec![]) {
        DialogStep::Done(r) => r,
        _ => panic!("no final response"),
    };
    c.dialog.bye_answered(r).unwrap();
    assert!(c.dialog.state().is_terminated());
}

#[test]
fn test_reinvite_provisional_keeps_dialog_confirmed() {
    provisional_keeps_confirmed(Method::Invite);
}

#[test]
fn test_update_provisional_keeps_dialog_confirmed() {
    provisional_keeps_confirmed(Method::Update);
}

fn in_dialog_requests_use_tcp_via(record_route: bool) {
    let mut c = Client::new(Transport::Tcp, None);
    let mut more = vec![contact(Some(Transport::Tcp))];
    if record_route {
        let mut route = host_uri("proxy", PEER_PORT, Some(Transport::Tcp));
        route.user = None;
        route.params.push(Param::Lr);
        more.push(Header::RecordRoute(Field::Typed(NameAddr::of_uri(route))));
    }
    c.establish(more);
    let invite = c.last_request(Method::Invite).unwrap();
    assert_eq!(via_of(&invite.headers).transport, Transport::Tcp);

    let request =
        c.dialog.reinvite(&c.ep.inner, None, None).unwrap().unwrap();
    assert_eq!(via_of(&request.headers).transport, Transport::Tcp);
    let (mut q, mut tx) = c.begin(request);
    c.reply(&mut q, &mut tx, StatusCode::OK, vec![contact(Some(Transport::Tcp))]);
    let bye = c.dialog.bye(&c.ep.inner).unwrap().unwrap();
    assert_eq!(via_of(&bye.headers).transport, Transport::Tcp);
    c.begin(bye);
    // Everything went over the one stream.
    assert!(c.wire.iter().all(|(_, conn)| conn.as_ref().map(|c| c.id()) == Some(7)));
}

#[test]
fn test_in_dialog_requests_over_tcp_flow_carry_tcp_via() {
    in_dialog_requests_use_tcp_via(false);
}

#[test]
fn test_in_dialog_requests_over_tcp_route_carry_tcp_via() {
    in_dialog_requests_use_tcp_via(true);
}

#[test]
fn test_bye_after_peer_closed_tcp_flow_uses_new_connection() {
    let mut c = Client::new(Transport::Tcp, None);
    c.establish(vec![contact(Some(Transport::Tcp))]);
    // The peer closes the stream, and the layer takes note of it.
    c.ep.inner.transport_layer.retire_connection(&tcp(7));
    c.stream = Some(8);
    c.broken = Some(7);
    let bye = c.dialog.bye(&c.ep.inner).unwrap().unwrap();
    let (mut q, mut tx) = c.begin(bye);
    let (sent, conn) = c.wire.last().unwrap();
    match sent {
        SipMessage::Request(r) => {
            assert_eq!(r.method, Method::Bye);
            assert_eq!(call_id_of(&r.headers), call_id_of(&c.dialog.initial_request().headers));
        }
        _ => panic!("expected the BYE"),
    }
    assert_eq!(conn.as_ref().unwrap().id(), 8, "the BYE must be sent on a new connection");
    let r = match c.reply(&mut q, &mut tx, StatusCode::OK, vec![]) {
        DialogStep::Done(r) => r,
        _ => panic!("no final response"),
    };
    c.dialog.bye_answered(r).unwrap();
}

fn typed(uri: Uri, tag: Option<&str>) -> Field<NameAddr> {
    let a = NameAddr::of_uri(uri);
    Field::Typed(match tag {
        Some(t) => a.with_tag(t.to_string()),
        None => a,
    })
}

fn opening(uri: Uri, via: Via, call_id: &str, to_tag: Option<&str>, contact: Uri) -> Request {
    Request {
        version: Version::V2,
        method: Method::Invite,
        uri,
        headers: vec![
            Header::Via(Field::Typed(via)),
            Header::CSeq(Field::Typed(CSeq { seq: 1, method: Method::Invite })),
            Header::From(typed(domain_uri("alice", "example.com"), Some("alice-tag"))),
            Header::To(typed(domain_uri("bob", "example.com"), to_tag)),
            Header::CallId(call_id.to_string()),
            Header::Contact(typed(contact, None)),
            Header::MaxForwards(70),
        ],
        body: vec![],
    }
}

fn elsewhere() -> Uri {
    Uri {
        scheme: Some(Scheme::Sip),
        user: Some("bob".to_string()),
        host_with_port: HostWithPort {
            host: Host::IpAddr(IpAddr::V4(0xc000020a)),
            port: Some(5060),
        },
        params: vec![Param::Transport(Transport::Tcp)],
    }
}

#[test]
fn test_in_dialog_via_is_left_to_the_locator() {
    let mut layer = TransportLayer::new();
    layer.add_transport(udp());
    layer.add_transport(SipConnection::TcpListener(Listener {
        id: 2,
        addr: addr(Transport::Tcp, 5999),
    }));
    let ep = EndpointBuilder::new()
        .with_transport_layer(layer)
        .with_target_locator()
        .build();
    let via = Via {
        version: Version::V2,
        transport: Transport::Udp,
        uri: Uri::of_host(host(5060)),
        params: vec![Param::Branch("z9hG4bKlocator".to_string())],
    };
    let initial =
        opening(elsewhere(), via, "via-locator", Some("bob-tag"), host_uri("alice", 5060, None));
    let id = DialogId::from_request(&initial, TransactionRole::Client).unwrap();
    let mut inner = DialogInner::new(
        TransactionRole::Client,
        id,
        initial,
        None,
        Some(host_uri("alice", 5060, None)),
        1,
    )
    .unwrap();
    inner.remote_uri = elsewhere();
    let addrs = ep.get_addrs();
    let bye = inner
        .make_request(
            &ep.inner,
            &addrs,
            &"z9hG4bKbye".to_string(),
            Method::Bye,
            None,
            None,
            None,
        )
        .unwrap();
    assert_eq!(via_of(&bye.headers).transport, Transport::Udp);
}

#[test]
fn test_dialback_retry_keeps_the_via_on_its_transport() {
    let probe_port: u16 = 45678;
    let closed_port: u16 = 45679;
    let mut c = Client::new(Transport::Tcp, None);
    c.stream = None;
    let via = Via {
        version: Version::V2,
        transport: Transport::Udp,
        uri: Uri::of_host(HostWithPort {
            host: Host::Domain("caller.invalid".to_string()),
            port: Some(5060),
        }),
        params: vec![
            Param::Branch("z9hG4bKdialback".to_string()),
            Param::Received(Received::Ip(IpAddr::V4(0x7f000001))),
            Param::Rport(Some(probe_port)),
        ],
    };
    let unreachable = host_uri("alice", closed_port, Some(Transport::Tcp));
    let initial = opening(host_uri("bob", 5060, None), via, "via-dialback", None, unreachable.clone());
    let mut id = DialogId::from_request(&initial, TransactionRole::Server).unwrap();
    id.local_tag = "local-tag".to_string();
    let mut inner = DialogInner::new(
        TransactionRole::Server,
        id.clone(),
        initial,
        None,
        Some(host_uri("bob", 5060, None)),
        1,
    )
    .unwrap();
    inner.remote_uri = unreachable;
    let ok = Response { version: Version::V2, status_code: StatusCode::OK, headers: vec![], body: vec![] };
    inner.transition(DialogState::Confirmed(id, ok));
    c.dialog = InviteDialog::from_inner(inner);

    let bye = c.dialog.bye(&c.ep.inner).unwrap().unwrap();
    let (_, tx) = c.begin(bye);
    let sent = c.last_request(Method::Bye).expect("the BYE must be dialed back");
    let via = via_of(&sent.headers);
    assert_eq!(via.transport, Transport::Udp, "a BYE over UDP must carry a UDP Via");
    assert!(
        !via.params.iter().any(|p| matches!(p, Param::Other(n, _) if n == "alias")),
        "a UDP Via carries no TCP alias parameter"
    );
    let target = tx.destination.unwrap();
    assert_eq!(target.transport, Some(Transport::Udp));
    assert!(target.addr.same(&host(probe_port)));
}

#[test]
fn reliable_provisionals_are_acknowledged() {
    let mut c = Client::new(Transport::Udp, None);
    let mut q = c.invite();
    let reliable = vec![
        contact(None),
        Header::Require("100rel".to_string()),
        Header::RSeq(Some(5)),
    ];
    let prack = match c.answer(&mut q, StatusCode::SessionProgress, reliable.clone()) {
        InviteStep::Prack { request } => request,
        _ => panic!("a reliable provisional must be acknowledged"),
    };
    assert_eq!(prack.method, Method::PRack);
    let invite_seq = cseq_of(&c.tx.original.headers).seq;
    assert!(prack.headers.iter().any(
        |h| matches!(h, Header::RAck(v) if *v == format!("5 {invite_seq} INVITE"))
    ));
    assert!(!c.states.iter().any(|s| matches!(s, DialogState::Early(_, _))));
    assert!(matches!(c.dialog.invite_pracked(&mut q, Ok(())), InviteStep::Receive));
    c.note();
    assert!(matches!(c.states.last(), Some(DialogState::Early(_, _))));
    // The same number again is acknowledged by the same request.
    match c.answer(&mut q, StatusCode::Ringing, reliable.clone()) {
        InviteStep::Prack { request } => {
            assert_eq!(cseq_of(&request.headers), cseq_of(&prack.headers))
        }
        _ => panic!("a repeated provisional must be acknowledged again"),
    }
    c.dialog.invite_pracked(&mut q, Ok(()));
    // An older one is not.
    let mut older = reliable;
    older[2] = Header::RSeq(Some(4));
    assert!(matches!(
        c.answer(&mut q, StatusCode::SessionProgress, older),
        InviteStep::Receive
    ));
}

#[test]
fn a_failed_prack_ends_the_invite() {
    let mut c = Client::new(Transport::Udp, None);
    let mut q = c.invite();
    let e = Error::Error("no answer".to_string());
    match c.dialog.invite_pracked(&mut q, Err(e)) {
        InviteStep::Done(Err(Error::Error(text))) => assert_eq!(text, "no answer"),
        _ => panic!("expected the error"),
    }
}

#[test]
fn a_prack_is_answered_by_its_own_transaction() {
    let mut c = Client::new(Transport::Udp, None);
    c.invite();
    let branch = "z9hG4bKprack".to_string();
    let addrs = c.ep.get_addrs();
    let request = c
        .dialog
        .inner
        .make_request(&c.ep.inner, &addrs, &branch, Method::PRack, None, None, None)
        .unwrap();
    assert!(matches!(
        c.dialog.inner.send_prack_request(&c.ep.inner, request.clone()),
        DialogStep::Start { .. }
    ));
    assert!(matches!(c.dialog.inner.prack_sent(Ok(true)), DialogStep::Receive));
    let mut auth_sent = false;
    let trying = SipMessage::Response(response(&request, StatusCode::Trying, vec![]));
    assert!(matches!(
        c.dialog.inner.prack_message(&mut auth_sent, Some(trying)),
        DialogStep::Receive
    ));
    let ok = SipMessage::Response(response(&request, StatusCode::OK, vec![]));
    assert!(matches!(
        c.dialog.inner.prack_message(&mut auth_sent, Some(ok)),
        DialogStep::Done(Ok(Some(_)))
    ));
}

#[test]
fn an_in_dialog_challenge_is_answered_once() {
    let mut c = Client::new(Transport::Udp, Some(credential()));
    c.establish(vec![contact(None)]);
    let info = c.dialog.info(&c.ep.inner, None, None).unwrap().unwrap();
    let before = cseq_of(&info.headers).seq;
    let (mut q, mut tx) = c.begin(info);
    match c.reply(&mut q, &mut tx, StatusCode::Unauthorized, vec![]) {
        DialogStep::Authenticate { seq, .. } => assert_eq!(seq, before + 1),
        _ => panic!("the challenge must be answered"),
    }
    assert!(q.auth_sent);
    assert!(matches!(c.dialog.inner.request_authenticated(Ok(())), DialogStep::Receive));
}

#[test]
fn other_final_responses_end_the_call() {
    let mut c = Client::new(Transport::Udp, None);
    let mut q = c.invite();
    match c.answer(&mut q, StatusCode::BusyHere, vec![]) {
        InviteStep::Done(Ok((_, Some(resp)))) => {
            assert_eq!(resp.status_code.kind(), StatusCodeKind::RequestFailure)
        }
        _ => panic!("expected the final response"),
    }
    assert!(matches!(
        c.dialog.state(),
        DialogState::Terminated(_, TerminatedReason::UasOther(StatusCode::BusyHere))
    ));
}

#[test]
fn any_2xx_establishes_the_call() {
    let mut c = Client::new(Transport::Udp, None);
    let mut q = c.invite();
    match c.answer(&mut q, StatusCode::Accepted, vec![contact(None)]) {
        InviteStep::Done(Ok((id, Some(resp)))) => {
            assert_eq!(resp.status_code, StatusCode::Accepted);
            assert!(id.same(&c.dialog.id()));
        }
        _ => panic!("expected the final response"),
    }
    match c.dialog.state() {
        DialogState::Confirmed(_, resp) => assert_eq!(resp.status_code, StatusCode::Accepted),
        _ => panic!("expected an established call"),
    }
    assert!(matches!(c.states.last(), Some(DialogState::Confirmed(_, _))));
}

#[test]
fn only_one_final_response_is_delivered() {
    let mut c = Client::new(Transport::Udp, None);
    let mut q = c.invite();
    c.answer(&mut q, StatusCode::Ringing, vec![contact(None)]);
    let mut tx = c.take_tx();
    let ok = response(&tx.original, StatusCode::OK, vec![contact(None)]);
    let busy = response(&tx.original, StatusCode::BusyHere, vec![]);
    let ringing = response(&tx.original, StatusCode::Ringing, vec![]);
    assert!(c.arrive(&mut tx, ok).is_some());
    for late in [busy, ringing] {
        let event = TransactionEvent::Received(SipMessage::Response(late), Some(udp()));
        let step = tx.receive(&mut c.ep.inner, event);
        assert!(matches!(c.drive(&mut tx, step), Outcome::Complete));
    }
    assert_eq!(tx.last_response.unwrap().status_code, StatusCode::OK);
}

#[test]
fn a_placeholder_ack_does_not_answer_a_2xx() {
    let mut c = Client::new(Transport::Udp, None);
    c.invite();
    let mut tx = c.take_tx();
    let mut trying = response(&tx.original, StatusCode::Ringing, vec![]);
    for h in trying.headers.iter_mut() {
        if let Header::To(Field::Typed(to)) = h {
            to.params.retain(|p| !matches!(p, Param::Tag(_)));
        }
    }
    assert!(c.arrive(&mut tx, trying).is_some());
    let ok = response(&tx.original, StatusCode::OK, vec![contact(None)]);
    let gone = response(&tx.original, StatusCode::RequestTerminated, vec![]);
    tx.cleanup(&mut c.ep.inner);
    let from = addr(Transport::Udp, PEER_PORT);
    let received = |ep: &mut Endpoint, resp: Response| {
        ep.inner.on_received_message(&SipMessage::Response(resp), &udp(), &from).unwrap()
    };
    assert!(matches!(received(&mut c.ep, ok), Reception::Absorbed));
    match received(&mut c.ep, gone) {
        Reception::Reply { message: SipMessage::Request(ack), .. } => {
            assert_eq!(ack.method, Method::Ack)
        }
        _ => panic!("expected an ACK"),
    }
}

#[test]
fn a_server_hangs_up_by_headers_alone() {
    let mut c = Client::new(Transport::Udp, None);
    c.establish(vec![contact(None)]);
    c.dialog.inner.role = TransactionRole::Server;
    assert!(matches!(c.dialog.hangup(&c.ep.inner).unwrap(), Ending::Nothing));
    let r = c.dialog.hangup_with_reason(&c.ep.inner, "SIP;cause=200".to_string());
    assert!(matches!(r.unwrap(), Ending::Nothing));
    assert!(c.dialog.state().is_confirmed());
    match c.dialog.hangup_with_headers(&c.ep.inner, None).unwrap() {
        Ending::Bye(bye) => assert_eq!(bye.method, Method::Bye),
        _ => panic!("expected a BYE"),
    }
}

#[test]
fn a_provisional_is_not_told_of_after_the_end() {
    let mut c = Client::new(Transport::Udp, None);
    c.establish(vec![contact(None)]);
    let request = c.dialog.reinvite(&c.ep.inner, None, None).unwrap().unwrap();
    let (mut q, mut tx) = c.begin(request);
    c.dialog.bye_answered(Ok(None)).unwrap();
    c.note();
    c.states.clear();
    let step = c.reply(&mut q, &mut tx, StatusCode::SessionProgress, vec![contact(None)]);
    assert!(matches!(step, DialogStep::Receive));
    c.note();
    assert!(c.states.is_empty());
}

#[test]
fn an_invite_without_a_final_response_has_none() {
    let mut c = Client::new(Transport::Udp, None);
    let mut q = c.invite();
    let addrs = c.ep.get_addrs();
    let branch = "z9hG4bKprack".to_string();
    match c.dialog.invite_message(&c.ep.inner, &addrs, &branch, &mut q, None) {
        InviteStep::Done(Ok((id, None))) => assert!(id.same(&c.dialog.id())),
        _ => panic!("expected the end"),
    }
}

#[test]
fn only_a_client_sends_the_invite() {
    let mut c = Client::new(Transport::Udp, None);
    c.dialog.inner.role = TransactionRole::Server;
    let (_, step) = c.dialog.process_invite();
    match step {
        InviteStep::Done(Err(Error::DialogError(text, _, status))) => {
            assert_eq!(text, "process_invite requires a UAC (Client) dialog");
            assert_eq!(status, StatusCode::ServerInternalError);
        }
        _ => panic!("expected an error"),
    }
}

#[test]
fn the_invite_says_what_the_option_holds() {
    let mut ep = endpoint(Transport::Udp);
    let mut layer = DialogLayer::new();
    let mut opt = InviteOption::new(
        domain_uri("alice", "example.com"),
        host_uri("bob", PEER_PORT, Some(Transport::Udp)),
        host_uri("alice", UAC_PORT, None),
    );
    opt.offer = Some(b"v=0\r\n".to_vec());
    opt.support_prack = true;
    opt.call_id = Some("my-call".to_string());
    opt.caller_display_name = Some("Alice".to_string());
    let first = layer.make_invite_request(&ep.inner, &opt).unwrap();
    let second = layer.make_invite_request(&ep.inner, &opt).unwrap();
    assert_eq!(cseq_of(&second.headers).seq, cseq_of(&first.headers).seq + 1);
    assert_eq!(first.method, Method::Invite);
    assert_eq!(call_id_of(&first.headers), "my-call");
    assert_eq!(from_of(&first.headers).display_name.as_deref(), Some("Alice"));
    assert_eq!(from_of(&first.headers).tag().unwrap().len(), 8);
    assert!(first.headers.iter().any(|h| matches!(h, Header::Supported(t) if t == "100rel")));
    let (dialog, tx) = layer.create_client_invite_dialog(&mut ep.inner, opt).unwrap();
    assert_eq!(dialog.role(), TransactionRole::Client);
    assert_eq!(dialog.id().call_id, "my-call");
    assert_eq!(dialog.id().local_tag, from_of(&tx.original.headers).tag().unwrap());
    let sent = &tx.original;
    assert_eq!(sent.body, b"v=0\r\n");
    assert!(sent.headers.iter().any(|h| matches!(h, Header::ContentLength(5))));
    let sdp = "application/sdp";
    assert!(sent.headers.iter().any(|h| matches!(h, Header::ContentType(t) if t == sdp)));
    assert!(tx.destination.is_none());
}

#[test]
fn a_registered_call_is_found_until_its_guard_goes() {
    let mut layer = DialogLayer::new();
    let early = DialogId {
        call_id: "call".to_string(),
        local_tag: "a".to_string(),
        remote_tag: "".to_string(),
    };
    let mut full = early.clone();
    full.remote_tag = "b".to_string();
    layer.add_dialog(&early, 4);
    let ok = Response { version: Version::V2, status_code: StatusCode::OK, headers: vec![], body: vec![] };
    layer.invite_finished(&early, 4, &Ok((full.clone(), Some(ok))));
    assert_eq!(layer.get_dialog(&early), None);
    assert_eq!(layer.get_dialog(&full), Some(4));
    assert_eq!(DialogGuard::new(full.clone()).release(&mut layer), Some(4));
    assert_eq!(layer.get_dialog(&full), None);

    layer.add_dialog(&early, 5);
    layer.invite_finished(&early, 5, &Err(Error::Error("failed".to_string())));
    assert_eq!(layer.get_dialog(&early), None);
}

#[test]
fn calls_end_as_their_state_asks() {
    let mut c = Client::new(Transport::Udp, None);
    let mut q = c.invite();
    c.answer(&mut q, StatusCode::Ringing, vec![contact(None)]);
    match c.dialog.bye(&c.ep.inner) {
        Err(Error::Error(text)) => {
            let id = c.dialog.id();
            let state = format!("{:?}", c.dialog.state());
            assert!(state.starts_with(&format!("Early(DialogId {{ call_id: {:?},", id.call_id)));
            assert_eq!(text, format!("dialog {} cannot send BYE in state {state}", id.text()));
        }
        _ => panic!("a ringing call has no BYE"),
    }
    match c.dialog.bye_refused("Calling") {
        Error::Error(text) => assert!(text.ends_with(" cannot send BYE in state Calling")),
        _ => panic!("expected another error"),
    }
    match c.dialog.hangup(&c.ep.inner).unwrap() {
        Ending::Cancel(r) => assert_eq!(r.method, Method::Cancel),
        _ => panic!("expected a CANCEL"),
    }
    c.answer(&mut q, StatusCode::OK, vec![contact(None)]);
    match c
        .dialog
        .hangup_with_reason(&c.ep.inner, "SIP;cause=200".to_string())
        .unwrap()
    {
        Ending::Bye(r) => {
            assert!(r.headers.iter().any(|h| matches!(h, Header::Reason(v) if v == "SIP;cause=200")))
        }
        _ => panic!("expected a BYE"),
    }
    let bye = c.dialog.bye_with_reason(&c.ep.inner, "Q.850;cause=16".to_string());
    let reason = Header::Reason("Q.850;cause=16".to_string());
    assert!(bye.unwrap().unwrap().headers.iter().any(
        |h| matches!((h, &reason), (Header::Reason(a), Header::Reason(b)) if a == b)
    ));
    c.dialog.bye_answered(Ok(None)).unwrap();
    assert!(matches!(
        c.dialog.hangup(&c.ep.inner).unwrap(),
        Ending::Nothing
    ));
    assert!(c.dialog.bye(&c.ep.inner).unwrap().is_none());
}

#[test]
fn a_refused_cancel_is_an_error() {
    let mut c = Client::new(Transport::Udp, None);
    let mut q = c.invite();
    c.answer(&mut q, StatusCode::Ringing, vec![contact(None)]);
    let cancel = c.dialog.cancel().unwrap().unwrap();
    let refused = response(&cancel, StatusCode::ServerInternalError, vec![]);
    match c.dialog.cancel_answered(Some(refused)) {
        Err(Error::DialogError(text, _, status)) => {
            assert_eq!(text, "CANCEL failed with response 500");
            assert_eq!(status, StatusCode::ServerInternalError);
        }
        _ => panic!("expected an error"),
    }
    let gone = response(&cancel, StatusCode::CallTransactionDoesNotExist, vec![]);
    let _ = c.dialog.cancel_answered(Some(gone));
}

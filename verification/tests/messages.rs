use rsipstack::dialog::dialog::{
    build_session_id_header, is_system_header, DialogInner, DialogState,
};
use rsipstack::dialog::exchange::{asks_for_credentials, first_route_target};
use rsipstack::dialog::id::DialogId;
use rsipstack::dialog::invite_dialog::InviteDialog;
use rsipstack::dialog::kinds::{
    ClientInviteDialog, ClientPublicationDialog, ClientSubscriptionDialog, Dialog, DialogKind,
    ServerInviteDialog, ServerPublicationDialog,
};
use rsipstack::dialog::refer::{status_body, ReferStatus};
use rsipstack::error::Error;
use rsipstack::sip::basic::{IpAddr, Method, Scheme, Transport, Version};
use rsipstack::sip::header::{self, CSeq, Field, Header, HeaderKind};
use rsipstack::sip::message::{self, has_token, rack_is_valid, Request, Response, SipMessage};
use rsipstack::sip::session_id::SessionId;
use rsipstack::sip::status::StatusCode;
use rsipstack::sip::uri::{Host, HostWithPort, NameAddr, Param, Uri, Via};
use rsipstack::transaction::builder::{Endpoint, EndpointBuilder};
use rsipstack::transaction::endpoint::{
    set_to_tag, EndpointOption, Reception, ReplyTarget, TransactionEvent,
};
use rsipstack::transaction::key::{TransactionKey, TransactionRole};
use rsipstack::transaction::timer::{Timer, TransactionTimer};
use rsipstack::transaction::transaction::{
    Dispatch, Outcome, Transaction, TransactionState, TxStep,
};
use rsipstack::transport::connection::{SipConnection, Socket};
use rsipstack::transport::sip_addr::SipAddr;
use rsipstack::transport::transport_layer::TransportLayer;

fn host(port: u16) -> HostWithPort {
    HostWithPort { host: Host::IpAddr(IpAddr::V4(0x7f000001)), port: Some(port) }
}

fn peer(port: u16) -> SipAddr {
    SipAddr { transport: Some(Transport::Udp), addr: host(port) }
}

fn udp() -> SipConnection {
    SipConnection::Udp(Socket { id: 1, addr: peer(5060), remote_addr: None })
}

fn uri(user: &str) -> Uri {
    Uri {
        scheme: Some(Scheme::Sip),
        user: Some(user.to_string()),
        host_with_port: host(5070),
        params: vec![],
    }
}

fn request(method: Method, branch: &str, to_tag: Option<&str>) -> Request {
    let mut to = NameAddr::of_uri(uri("bob"));
    if let Some(t) = to_tag {
        to = to.with_tag(t.to_string());
    }
    Request {
        version: Version::V2,
        method,
        uri: uri("bob"),
        headers: vec![
            Header::Via(Field::Typed(Via {
                version: Version::V2,
                transport: Transport::Udp,
                uri: Uri::of_host(host(5070)),
                params: vec![Param::Branch(branch.to_string())],
            })),
            Header::From(Field::Typed(NameAddr::of_uri(uri("alice")).with_tag("a".to_string()))),
            Header::To(Field::Typed(to)),
            Header::CallId("call".to_string()),
            Header::CSeq(Field::Typed(CSeq { seq: 1, method })),
        ],
        body: vec![],
    }
}

fn endpoint() -> Endpoint {
    let mut layer = TransportLayer::new();
    layer.add_transport(udp());
    EndpointBuilder::new()
        .with_user_agent("agent")
        .with_transport_layer(layer)
        .build()
}

#[test]
fn tokens_stand_between_commas() {
    assert!(has_token("100rel, timer", "timer"));
    assert!(has_token(" 100REL ", "100rel"));
    assert!(!has_token("100relx", "100rel"));
    assert!(!has_token("", "100rel"));
    let headers = vec![Header::Supported("a,b".to_string()), Header::Require("c".to_string())];
    assert!(message::header_contains_token(&headers, HeaderKind::Supported, "b"));
    assert!(!message::header_contains_token(&headers, HeaderKind::Require, "b"));
}

#[test]
fn a_rack_has_two_numbers_and_a_method() {
    assert!(rack_is_valid("1 2 INVITE"));
    assert!(!rack_is_valid("1 2"));
    assert!(!rack_is_valid("x 2 INVITE"));
    assert!(!rack_is_valid("1 2 NOTHING"));
    assert!(!rack_is_valid("1 4294967296 INVITE"));
}

#[test]
fn headers_are_found_by_kind() {
    let req = request(Method::Invite, "b", Some("t"));
    assert_eq!(message::cseq(&req.headers).unwrap(), CSeq { seq: 1, method: Method::Invite });
    assert_eq!(message::call_id(&req.headers).unwrap(), "call");
    assert_eq!(message::to_tag(&req.headers).unwrap().as_deref(), Some("t"));
    assert!(message::contact(&req.headers).unwrap().is_none());
    assert!(matches!(
        message::cseq(&vec![]),
        Err(Error::MissingHeader(HeaderKind::CSeq))
    ));
    let bad = vec![Header::From(Field::Malformed("?".to_string()))];
    assert!(matches!(
        message::from_addr(&bad),
        Err(Error::MalformedHeader(HeaderKind::From))
    ));
    let mut headers = req.headers.clone();
    header::unique_push(&mut headers, Header::CallId("other".to_string()));
    assert_eq!(headers.len(), req.headers.len());
    assert_eq!(message::call_id(&headers).unwrap(), "other");
    header::remove_kind(&mut headers, HeaderKind::CallId);
    assert!(!header::contains_kind(&headers, HeaderKind::CallId));
    assert_eq!(header::index_of(&headers, HeaderKind::CallId), headers.len());
}

#[test]
fn session_ids_are_normalised() {
    let a = "AB30317F1A784DC48FF824D0D3715D86";
    let lower = "ab30317f1a784dc48ff824d0d3715d86";
    assert_eq!(SessionId::normalize("ab30317f-1a78-4dc4-8ff8-24d0d3715d86").unwrap(), lower);
    let s = SessionId::from_local(&SessionId::normalize(a).unwrap()).unwrap();
    assert_eq!(s.local_uuid().as_deref(), Some(lower));
    assert!(s.remote_uuid().is_none());
    let nil = "00000000000000000000000000000000";
    assert_eq!(SessionId::from_pair(a, nil).unwrap().remote.as_deref(), Some(nil));
    assert!(matches!(SessionId::normalize("abc"), Err(Error::InvalidSessionId)));
    assert!(matches!(
        build_session_id_header(lower, None),
        Some(Header::SessionId(s)) if s.local == lower
    ));
}

#[test]
fn routes_name_the_next_hop() {
    let mut route = NameAddr::of_uri(uri("proxy"));
    route.uri.params.push(Param::Transport(Transport::Tcp));
    let headers = vec![Header::Route(Field::Typed(route))];
    let target = first_route_target(&headers).unwrap();
    assert_eq!(target.transport, Some(Transport::Tcp));
    assert!(first_route_target(&vec![]).is_none());
    assert!(asks_for_credentials(StatusCode::Unauthorized));
    assert!(asks_for_credentials(StatusCode::ProxyAuthenticationRequired));
    assert!(!asks_for_credentials(StatusCode::Forbidden));
    assert!(is_system_header(&Header::CallId(String::new())));
    assert!(!is_system_header(&Header::Reason(String::new())));
}

#[test]
fn the_status_of_a_transfer_is_read_back() {
    let mut notify = request(Method::Notify, "b", Some("t"));
    notify.headers.push(Header::Other("Event".to_string(), "refer".to_string()));
    notify.headers.push(Header::Other(
        "Subscription-State".to_string(),
        "terminated;reason=noresource".to_string(),
    ));
    notify.body = status_body(StatusCode::OK);
    assert!(notify.body.starts_with(b"SIP/2.0 200"));
    let status = ReferStatus::parse(&notify).unwrap();
    assert_eq!(status.status_code, StatusCode::OK);
    assert!(status.is_terminated);
    // Bytes that are no text say nothing.
    notify.body = vec![0xff, 0xfe];
    assert!(ReferStatus::parse(&notify).is_none());
    notify.body = b"nothing".to_vec();
    assert!(ReferStatus::parse(&notify).is_none());
    notify.headers.retain(|h| !matches!(h, Header::Other(_, _)));
    notify.body = status_body(StatusCode::OK);
    assert!(ReferStatus::parse(&notify).is_none());
}

#[test]
fn a_second_request_reaches_the_first_transaction() {
    let mut ep = endpoint();
    let req = request(Method::Invite, "z9hG4bK1", None);
    let msg = SipMessage::Request(req.clone());
    let key = match ep.inner.on_received_message(&msg, &udp(), &peer(5070)).unwrap() {
        Reception::Forward(key) => key,
        _ => panic!("expected a transaction"),
    };
    let mut tx = match ep.inner.dispatch(key.clone(), msg.clone(), udp()).unwrap() {
        Dispatch::Incoming(tx) => tx,
        _ => panic!("expected a transaction"),
    };
    let running = ep.inner.get_running_transactions().unwrap();
    assert_eq!(running.len(), 1);
    assert_eq!(running[0].0, key.0);
    assert_eq!(ep.inner.get_stats().running_transactions, 1);
    assert!(matches!(
        ep.inner.dispatch(key, msg, udp()).unwrap(),
        Dispatch::Delivered
    ));
    let events = ep.inner.take_outbox();
    assert_eq!(events.len(), 1);
    assert_eq!(events[0].0, tx.channel);
    assert!(matches!(events[0].1, TransactionEvent::Received(_, _)));
    tx.cleanup(&mut ep.inner);
    assert_eq!(ep.inner.get_stats().running_transactions, 0);
}

#[test]
fn a_server_transaction_repeats_its_answer() {
    let mut ep = endpoint();
    let req = request(Method::Info, "z9hG4bK1", Some("t"));
    let key = TransactionKey::from_request(&req, TransactionRole::Server).unwrap();
    let mut tx = Transaction::new_server(key, req.clone(), &mut ep.inner, Some(udp()));
    let step = tx.reply(&ep.inner, StatusCode::OK);
    let sent = match step {
        TxStep::Write { message, .. } => {
            let again = message.clone();
            assert!(matches!(
                tx.written(&mut ep.inner, message, Ok(())),
                TxStep::Done(Outcome::Complete)
            ));
            again
        }
        _ => panic!("expected the response"),
    };
    assert!(matches!(sent, SipMessage::Response(r) if r.status_code == StatusCode::OK));
    assert!(matches!(tx.state, TransactionState::Completed | TransactionState::Terminated));
    assert!(tx.can_transition(TransactionState::Proceeding).is_err());
}

#[test]
fn timers_fire_once() {
    let mut timers = Timer::new();
    let key = TransactionKey("k".to_string());
    let a = timers.timeout(500, TransactionTimer::TimerA(key.clone(), 500));
    let b = timers.timeout(32000, TransactionTimer::TimerB(key));
    assert_ne!(a, b);
    assert_eq!(timers.delay_of(a), Some(500));
    assert!(matches!(timers.fire(a), Some(TransactionTimer::TimerA(_, 500))));
    assert!(timers.fire(a).is_none());
    timers.cancel(Some(b));
    assert!(timers.fire(b).is_none());
    timers.cancel(None);
}

#[test]
fn a_request_without_answer_times_out() {
    let mut ep = endpoint();
    let req = request(Method::Options, "z9hG4bK1", None);
    let key = TransactionKey::from_request(&req, TransactionRole::Client).unwrap();
    let mut tx = Transaction::new_client(key, req, &mut ep.inner, Some(udp()));
    let mut step = tx.send(&ep.inner);
    while let TxStep::Write { message, .. } = step {
        step = tx.written(&mut ep.inner, message, Ok(()));
    }
    assert!(matches!(step, TxStep::Done(Outcome::Complete)));
    let b = tx.timer_b.unwrap();
    assert_eq!(ep.inner.timers.delay_of(b), Some(EndpointOption::default().t1x64));
    let timer = ep.inner.timers.fire(b).unwrap();
    ep.inner.process_timer(timer);
    let mut status = None;
    for (_, event) in ep.inner.take_outbox() {
        if let TxStep::Done(Outcome::Message(SipMessage::Response(r))) =
            tx.receive(&mut ep.inner, event)
        {
            status = Some(r.status_code);
        }
    }
    // The timeout is posted to the transaction itself first.
    for (_, event) in ep.inner.take_outbox() {
        if let TxStep::Done(Outcome::Message(SipMessage::Response(r))) =
            tx.receive(&mut ep.inner, event)
        {
            status = Some(r.status_code);
        }
    }
    assert_eq!(status, Some(StatusCode::RequestTimeout));
}

#[test]
fn responses_copy_what_they_answer() {
    let ep = endpoint();
    let req = request(Method::Info, "z9hG4bK1", Some("t"));
    let resp = ep.inner.make_response(&req, StatusCode::OK, Some(b"abc".to_vec()));
    assert_eq!(resp.body, b"abc");
    assert!(resp.headers.iter().any(|h| matches!(h, Header::ContentLength(3))));
    assert!(resp.headers.iter().any(|h| matches!(h, Header::UserAgent(a) if a == "agent")));
    assert_eq!(message::cseq(&resp.headers).unwrap(), message::cseq(&req.headers).unwrap());
    assert_eq!(message::call_id(&resp.headers).unwrap(), "call");
    let mut headers = request(Method::Info, "b", None).headers;
    set_to_tag(&mut headers, "mine".to_string());
    assert_eq!(message::to_tag(&headers).unwrap().as_deref(), Some("mine"));
    assert!(matches!(
        ep.inner.get_destination_from_request(&req),
        ReplyTarget::Connection | ReplyTarget::Addr(_) | ReplyTarget::Resolve(_)
    ));
}

#[test]
fn record_routes_name_the_endpoint() {
    let ep = endpoint();
    let route = ep.inner.get_record_route().unwrap();
    assert!(route.uri.host_with_port.same(&host(5060)));
    assert!(route.uri.params.iter().any(|p| matches!(p, Param::Lr)));
    let via = ep.inner.get_via(None, Some(Param::Branch("z9hG4bKx".to_string()))).unwrap();
    assert_eq!(via.transport, Transport::Udp);
    assert!(via.params.iter().any(|p| matches!(p, Param::Branch(b) if b == "z9hG4bKx")));
    let empty = EndpointBuilder::new().build();
    assert!(empty.inner.get_via(None, None).is_err());
    assert!(empty.inner.get_record_route().is_err());
}

fn server_dialog() -> DialogInner {
    let mut req = request(Method::Invite, "z9hG4bK1", None);
    req.headers.push(Header::Contact(Field::Typed(NameAddr::of_uri(uri("alice")))));
    let mut id = DialogId::from_request(&req, TransactionRole::Server).unwrap();
    id.local_tag = "mine".to_string();
    DialogInner::new(
        TransactionRole::Server,
        id,
        req,
        None,
        None,
        1,
    )
    .unwrap()
}

#[test]
fn dialogs_convert_by_their_role() {
    let d = InviteDialog::from_server(ServerInviteDialog { inner: server_dialog() });
    assert_eq!(d.role(), TransactionRole::Server);
    assert!(d.try_into_client().is_err());
    let d = InviteDialog::from_inner(server_dialog());
    assert!(d.try_into_server().is_ok());
    let d = Dialog::from_inner(TransactionRole::Server, server_dialog());
    assert_eq!(d.kind(), DialogKind::Invite);
    let d = d.as_subscription().unwrap();
    assert_eq!(d.kind(), DialogKind::ServerSubscription);
    assert_eq!(d.id().local_tag, "mine");
    assert_eq!(d.as_subscription().unwrap().kind(), DialogKind::ServerSubscription);
    let mut inner = server_dialog();
    inner.role = TransactionRole::Client;
    let d = InviteDialog::from_inner(inner).as_subscription();
    assert_eq!(d.kind(), DialogKind::ClientSubscription);
    let d = Dialog::ClientPublication(ClientPublicationDialog { inner: server_dialog() });
    assert!(d.as_subscription().is_none());
    let d = Dialog::ServerPublication(ServerPublicationDialog { inner: server_dialog() });
    assert!(d.as_subscription().is_none());
}

#[test]
fn a_dialog_of_any_kind_tells_what_it_holds() {
    let mut d = Dialog::ClientSubscription(ClientSubscriptionDialog { inner: server_dialog() });
    assert_eq!(d.id().call_id, "call");
    assert!(matches!(d.state(), DialogState::Calling(_)));
    assert!(d.can_cancel());
    assert_eq!(d.from().uri.user, server_dialog().from.uri.user);
    assert_eq!(d.to().uri.user, server_dialog().to.uri.user);
    let contact = Field::Typed(NameAddr::of_uri(uri("dave")));
    d.set_remote_target(uri("carol"), Some(contact));
    assert_eq!(d.remote_contact().unwrap().user.as_deref(), Some("dave"));
    d.on_remove();
    assert_eq!(d.kind(), DialogKind::ClientSubscription);
    let Dialog::ClientSubscription(d) = d else { panic!("another kind") };
    assert!(d.inner.is_removed);
    assert_eq!(d.inner.remote_uri.user.as_deref(), Some("carol"));
}

#[test]
fn the_remote_target_can_be_set() {
    let mut d = server_dialog();
    d.set_remote_target(uri("carol"), None);
    assert_eq!(d.remote_uri.user.as_deref(), Some("carol"));
    assert!(d.remote_contact().is_none());
    let contact = Field::Typed(NameAddr::of_uri(uri("dave")));
    d.set_remote_target(uri("carol"), Some(contact));
    assert_eq!(d.remote_contact().unwrap().user.as_deref(), Some("dave"));
    d.on_remove();
    assert!(d.is_removed);
}

#[test]
fn a_client_dialog_converts_back_and_forth() {
    let mut inner = server_dialog();
    inner.role = TransactionRole::Client;
    let d = InviteDialog::from_client(ClientInviteDialog { inner });
    assert!(d.try_into_client().is_ok());
}

#[test]
fn a_built_endpoint_holds_its_settings() {
    let ep = EndpointBuilder::new()
        .with_timer_interval(10)
        .with_allows(vec![Method::Invite, Method::Bye])
        .with_user_agent("MyApp/1.0")
        .build();
    assert_eq!(ep.inner.timer_interval, 10);
    assert_eq!(ep.inner.allows, Some(vec![Method::Invite, Method::Bye]));
    assert_eq!(ep.inner.user_agent, "MyApp/1.0");
    let plain = EndpointBuilder::new().build();
    assert_eq!(plain.inner.timer_interval, 20);
    assert_eq!(plain.inner.option.t1, 500);
    assert_eq!(plain.inner.option.t4, 4000);
    assert_eq!(plain.inner.option.t1x64, 32000);
    assert_eq!(plain.inner.option.timerc, 180000);
}

#[test]
fn an_in_dialog_response_keeps_the_dialog_tags() {
    let d = server_dialog();
    let req = request(Method::Info, "z9hG4bK2", Some("mine"));
    let resp: Response =
        d.make_response(&"agent".to_string(), &req, StatusCode::Accepted, None, None);
    assert_eq!(resp.status_code, StatusCode::Accepted);
    assert_eq!(message::to_tag(&resp.headers).unwrap().as_deref(), Some("mine"));
    assert_eq!(message::top_via(&resp.headers).unwrap().transport, Transport::Udp);
}

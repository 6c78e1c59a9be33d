use rsipstack::dialog::dialog::{
    DialogInner, DialogState, TerminatedReason, TransactionHandle,
};
use rsipstack::dialog::handling::{HandleStep, Handling};
use rsipstack::dialog::id::DialogId;
use rsipstack::dialog::invite_dialog::InviteDialog;
use rsipstack::dialog::snapshot::DialogSnapshot;
use rsipstack::error::Error;
use rsipstack::sip::basic::{IpAddr, Method, Scheme, Transport, Version};
use rsipstack::sip::header::{CSeq, Field, Header, HeaderKind};
use rsipstack::sip::message::{Request, Response};
use rsipstack::sip::session_id::SessionId;
use rsipstack::sip::status::StatusCode;
use rsipstack::sip::uri::{Host, HostWithPort, NameAddr, Param, Received, Uri, Via};
use rsipstack::transaction::builder::{Endpoint, EndpointBuilder};
use rsipstack::transaction::key::{TransactionKey, TransactionRole};
use rsipstack::transaction::transaction::{Transaction, TxStep};

fn uri(user: &str, host: &str, port: Option<u16>) -> Uri {
    Uri {
        scheme: Some(Scheme::Sip),
        user: Some(user.to_string()),
        host_with_port: HostWithPort { host: Host::Domain(host.to_string()), port },
        params: vec![],
    }
}

fn addr(name: &str, uri: Uri, tag: Option<&str>) -> NameAddr {
    NameAddr {
        display_name: Some(name.to_string()),
        uri,
        params: tag.map(|t| Param::Tag(t.to_string())).into_iter().collect(),
    }
}

fn via(host: &str, branch: &str, received: Option<IpAddr>) -> Header {
    let mut params = vec![Param::Branch(branch.to_string())];
    if let Some(ip) = received {
        params.push(Param::Received(Received::Ip(ip)));
    }
    Header::Via(Field::Typed(Via {
        version: Version::V2,
        transport: Transport::Udp,
        uri: Uri {
            scheme: None,
            user: None,
            host_with_port: HostWithPort { host: Host::Domain(host.to_string()), port: Some(5060) },
            params: vec![],
        },
        params,
    }))
}

fn cseq(seq: u32, method: Method) -> Header {
    Header::CSeq(Field::Typed(CSeq { seq, method }))
}

fn create_invite_request(from_tag: &str, to_tag: &str, call_id: &str) -> Request {
    Request {
        version: Version::V2,
        method: Method::Invite,
        uri: uri("bob", "example.com", Some(5060)),
        headers: vec![
            via("alice.example.com", "z9hG4bKnashds", Some(IpAddr::V4(0xac000001))),
            cseq(1, Method::Invite),
            Header::From(Field::Typed(addr("Alice", uri("alice", "example.com", None), Some(from_tag)))),
            Header::To(Field::Typed(addr("Bob", uri("bob", "example.com", None), Some(to_tag)))),
            Header::CallId(call_id.to_string()),
            Header::Contact(Field::Typed(NameAddr {
                display_name: None,
                uri: uri("alice", "alice.example.com", Some(5060)),
                params: vec![],
            })),
            Header::MaxForwards(70),
        ],
        body: b"v=0\r\no=alice 2890844526 2890844527 IN IP4 host.atlanta.com\r\n".to_vec(),
    }
}

fn create_response(status: StatusCode, from_tag: &str, to_tag: &str, call_id: &str) -> Response {
    let body = if status == StatusCode::OK {
        b"v=0\r\no=bob 2890844527 2890844528 IN IP4 host.biloxi.com\r\n".to_vec()
    } else {
        vec![]
    };
    Response {
        version: Version::V2,
        status_code: status,
        headers: vec![
            via("alice.example.com", "z9hG4bKnashds", None),
            cseq(1, Method::Invite),
            Header::From(Field::Typed(addr("Alice", uri("alice", "example.com", None), Some(from_tag)))),
            Header::To(Field::Typed(addr("Bob", uri("bob", "example.com", None), Some(to_tag)))),
            Header::CallId(call_id.to_string()),
            Header::Contact(Field::Typed(NameAddr {
                display_name: None,
                uri: uri("bob", "bob.example.com", Some(5060)),
                params: vec![],
            })),
        ],
        body,
    }
}

fn dialog_id(call_id: &str, local: &str, remote: &str) -> DialogId {
    DialogId {
        call_id: call_id.to_string(),
        local_tag: local.to_string(),
        remote_tag: remote.to_string(),
    }
}

fn client(id: &DialogId, to_tag: &str) -> DialogInner {
    DialogInner::new_with(
        TransactionRole::Client,
        id.clone(),
        create_invite_request(&id.local_tag, to_tag, &id.call_id),
        None,
        Some(uri("alice", "alice.example.com", Some(5060))),
        7,
        String::new(),
    )
    .unwrap()
}

fn server(id: &DialogId) -> DialogInner {
    DialogInner::new_with(
        TransactionRole::Server,
        id.clone(),
        create_invite_request(&id.remote_tag, "", &id.call_id),
        None,
        Some(uri("bob", "bob.example.com", Some(5060))),
        7,
        "0123456789abcdef0123456789abcdef".to_string(),
    )
    .unwrap()
}

fn endpoint() -> Endpoint {
    EndpointBuilder::new().with_user_agent("rsipstack-test").build()
}

fn state_name(state: &DialogState) -> &'static str {
    match state {
        DialogState::Calling(_) => "Calling",
        DialogState::Trying(_) => "Trying",
        DialogState::Early(_, _) => "Early",
        DialogState::WaitAck(_, _) => "WaitAck",
        DialogState::Confirmed(_, _) => "Confirmed",
        DialogState::Updated(_, _, _) => "Updated",
        DialogState::Publish(_, _, _) => "Publish",
        DialogState::Notify(_, _, _) => "Notify",
        DialogState::Info(_, _, _) => "Info",
        DialogState::Options(_, _, _) => "Options",
        DialogState::Refer(_, _, _) => "Refer",
        DialogState::Message(_, _, _) => "Message",
        DialogState::Terminated(_, _) => "Terminated",
    }
}

fn drain_states(d: &mut DialogInner) -> Vec<&'static str> {
    d.take_notifications().iter().map(state_name).collect()
}

#[test]
fn test_dialog_id_eq() {
    let dialog_id_1 = dialog_id("test-call-id-123", "456", "789");
    assert_eq!(dialog_id_1.text(), "test-call-id-123-456-789");

    let dialog_id_4 = dialog_id("mock", "M3wnsBf", "1NyRqPt1");
    let dialog_id_5 = dialog_id("mock", "1NyRqPt1", "M3wnsBf");
    assert!(!dialog_id_4.same(&dialog_id_5));
    assert!(dialog_id_4.same(&dialog_id_4.clone()));
}

#[test]
fn test_dialog_state_transitions() {
    let id = dialog_id("test-call-id-123", "alice-tag-456", "bob-tag-789");
    let mut d = client(&id, "");
    assert!(matches!(d.state, DialogState::Calling(_)));

    d.transition(DialogState::Trying(id.clone()));
    assert!(matches!(d.state, DialogState::Trying(_)));

    let ringing =
        create_response(StatusCode::Ringing, "alice-tag-456", "bob-tag-789", "test-call-id-123");
    d.transition(DialogState::Early(id.clone(), ringing));
    assert!(matches!(d.state, DialogState::Early(_, _)));

    d.transition(DialogState::Confirmed(id.clone(), Response::default()));
    assert!(matches!(d.state, DialogState::Confirmed(_, _)));
    assert!(d.is_confirmed());

    d.transition(DialogState::Terminated(id.clone(), TerminatedReason::Timeout));
    assert!(matches!(d.state, DialogState::Terminated(_, _)));
}

#[test]
fn test_server_dialog_state_transitions() {
    let id = dialog_id("test-call-id-server-123", "bob-tag-789", "alice-tag-456");
    let mut d = server(&id);
    assert!(matches!(d.state, DialogState::Calling(_)));

    d.transition(DialogState::Trying(id.clone()));
    assert!(matches!(d.state, DialogState::Trying(_)));

    let ok = create_response(
        StatusCode::OK,
        "alice-tag-456",
        "bob-tag-789",
        "test-call-id-server-123",
    );
    d.transition(DialogState::WaitAck(id.clone(), ok.clone()));
    assert!(matches!(d.state, DialogState::WaitAck(_, _)));

    d.transition(DialogState::Confirmed(id.clone(), ok));
    assert!(matches!(d.state, DialogState::Confirmed(_, _)));
    assert!(d.is_confirmed());
}

fn in_dialog_request(method: Method, seq: u32, branch: &str, call_id: &str) -> Request {
    Request {
        version: Version::V2,
        method,
        uri: uri("bob", "example.com", Some(5060)),
        headers: vec![
            via("127.0.0.1", branch, None),
            cseq(seq, method),
            Header::From(Field::Typed(addr(
                "Alice",
                uri("alice", "example.com", None),
                Some("alice-tag-456"),
            ))),
            Header::To(Field::Typed(addr(
                "Bob",
                uri("bob", "example.com", None),
                Some("bob-tag-789"),
            ))),
            Header::CallId(call_id.to_string()),
            Header::MaxForwards(70),
        ],
        body: vec![],
    }
}

#[test]
fn test_dialog_in_dialog_requests() {
    let id = dialog_id("test-call-id-in-dialog-123", "alice-tag-456", "bob-tag-789");
    let mut d = client(&id, "bob-tag-789");
    d.transition(DialogState::Confirmed(id.clone(), Response::default()));
    assert!(d.is_confirmed());

    let handle = TransactionHandle { id: 1 };
    let call_id = "test-call-id-in-dialog-123";
    let info = in_dialog_request(Method::Info, 2, "z9hG4bK-info", call_id);
    d.transition(DialogState::Info(id.clone(), info, handle));
    let update = in_dialog_request(Method::Update, 3, "z9hG4bK-update", call_id);
    d.transition(DialogState::Updated(id.clone(), update, handle));
    let options = in_dialog_request(Method::Options, 4, "z9hG4bK-options", call_id);
    d.transition(DialogState::Options(id.clone(), options, handle));

    assert!(d.is_confirmed());
    assert_eq!(drain_states(&mut d), vec!["Confirmed", "Info", "Updated", "Options"]);
}

#[test]
fn test_dialog_termination_scenarios() {
    let id_1 = dialog_id("test-call-id-term-1", "alice-tag-456", "bob-tag-789");
    let mut d = client(&id_1, "");
    d.transition(DialogState::Terminated(id_1.clone(), TerminatedReason::UasBusy));
    assert!(matches!(d.state, DialogState::Terminated(_, TerminatedReason::UasBusy)));

    let id_2 = dialog_id("test-call-id-term-2", "alice-tag-456", "bob-tag-789");
    let mut d = client(&id_2, "bob-tag-789");
    d.transition(DialogState::Confirmed(id_2.clone(), Response::default()));
    assert!(d.is_confirmed());
    d.transition(DialogState::Terminated(id_2.clone(), TerminatedReason::UacBye));
    assert!(matches!(d.state, DialogState::Terminated(_, _)));
}

#[test]
fn test_dialog_sequence_numbers() {
    let id = dialog_id("test-call-id-seq-123", "alice-tag-456", "bob-tag-789");
    let mut d = client(&id, "bob-tag-789");
    assert_eq!(d.get_local_seq(), 1);
    assert_eq!(d.increment_local_seq(), 2);
    assert_eq!(d.get_local_seq(), 2);
}

#[test]
fn the_number_behind_the_last_is_zero() {
    let id = dialog_id("seq", "alice-tag-456", "bob-tag-789");
    let mut d = client(&id, "bob-tag-789");
    d.local_seq = u32::MAX;
    assert_eq!(d.increment_local_seq(), 0);
}

#[test]
fn test_dialog_state_display() {
    let id = dialog_id("test-call-id-display", "alice-tag", "bob-tag");

    let calling = DialogState::Calling(id.clone());
    assert!(calling.text().contains("Calling"));
    assert_eq!(calling.text(), "test-call-id-display-alice-tag-bob-tag(Calling)");

    let trying = DialogState::Trying(id.clone());
    assert!(trying.text().contains("Trying"));

    let confirmed = DialogState::Confirmed(id.clone(), Response::default());
    assert!(confirmed.text().contains("Confirmed"));
    assert!(confirmed.is_confirmed());

    let terminated = DialogState::Terminated(id.clone(), TerminatedReason::Timeout);
    assert!(terminated.text().contains("Terminated"));
    assert!(terminated.text().contains("Timeout"));

    let other = DialogState::Terminated(id, TerminatedReason::UasOther(StatusCode::Other(599)));
    assert!(other.text().ends_with("(Terminated UasOther(Other(599)))"));
}

#[test]
fn test_dialog_id_creation() {
    let request = create_invite_request("alice-tag-123", "", "call-id-456");
    let id = DialogId::from_request(&request, TransactionRole::Client).unwrap();
    assert_eq!(id.call_id, "call-id-456");
    assert_eq!(id.local_tag, "alice-tag-123");
    assert_eq!(id.remote_tag, "");

    let response =
        create_response(StatusCode::OK, "alice-tag-123", "bob-tag-789", "call-id-456");
    let id = DialogId::from_response(&response, TransactionRole::Client).unwrap();
    assert_eq!(id.call_id, "call-id-456");
    assert_eq!(id.local_tag, "alice-tag-123");
    assert_eq!(id.remote_tag, "bob-tag-789");

    let text = id.text();
    assert!(text.contains("call-id-456"));
    assert!(text.contains("alice-tag-123"));
    assert!(text.contains("bob-tag-789"));

    let seen = DialogId::from_response(&response, TransactionRole::Server).unwrap();
    assert_eq!(seen.local_tag, "bob-tag-789");
    assert_eq!(seen.remote_tag, "alice-tag-123");
}

#[test]
fn a_dialog_name_needs_its_headers() {
    let mut request = create_invite_request("a", "b", "c");
    request.headers.retain(|h| !matches!(h, Header::CallId(_)));
    assert!(matches!(
        DialogId::from_request(&request, TransactionRole::Client),
        Err(Error::MissingHeader(HeaderKind::CallId))
    ));
    let mut request = create_invite_request("a", "b", "c");
    request.headers.retain(|h| !matches!(h, Header::To(_)));
    request.headers.push(Header::To(Field::Malformed("<".to_string())));
    assert!(matches!(
        DialogId::from_request(&request, TransactionRole::Client),
        Err(Error::MalformedHeader(HeaderKind::To))
    ));
}

#[test]
fn test_dialog_lifecycle_notifies_each_state_once() {
    let id = dialog_id("test-call-id-lifecycle", "alice-tag-456", "bob-tag-789");
    let mut d = client(&id, "");
    d.transition(DialogState::Calling(id.clone()));
    d.transition(DialogState::Trying(id.clone()));
    let ringing = create_response(
        StatusCode::Ringing,
        "alice-tag-456",
        "bob-tag-789",
        "test-call-id-lifecycle",
    );
    d.transition(DialogState::Early(id.clone(), ringing));
    let ok =
        create_response(StatusCode::OK, "alice-tag-456", "bob-tag-789", "test-call-id-lifecycle");
    d.transition(DialogState::Confirmed(id.clone(), ok));
    d.transition(DialogState::Terminated(id.clone(), TerminatedReason::UacBye));
    assert_eq!(
        drain_states(&mut d),
        vec!["Calling", "Trying", "Early", "Confirmed", "Terminated"]
    );
    assert!(drain_states(&mut d).is_empty());
}

#[test]
fn test_no_state_notification_after_terminated() {
    let id = dialog_id("test-call-id-double-term", "alice-tag-456", "bob-tag-789");
    let mut d = client(&id, "bob-tag-789");
    d.transition(DialogState::Confirmed(id.clone(), Response::default()));
    d.transition(DialogState::Terminated(id.clone(), TerminatedReason::UacBye));
    d.transition(DialogState::Terminated(id.clone(), TerminatedReason::UasBye));
    d.transition(DialogState::Confirmed(id.clone(), Response::default()));
    assert_eq!(
        drain_states(&mut d),
        vec!["Confirmed", "Terminated"],
        "subscribers must see exactly one Terminated and nothing after it"
    );
    assert!(matches!(d.state, DialogState::Terminated(_, TerminatedReason::UacBye)));
}

#[test]
fn no_request_is_told_of_after_terminated() {
    let id = dialog_id("call", "alice-tag-456", "bob-tag-789");
    let mut d = client(&id, "bob-tag-789");
    d.transition(DialogState::Terminated(id.clone(), TerminatedReason::UacBye));
    drain_states(&mut d);
    let handle = TransactionHandle { id: 1 };
    let req = || in_dialog_request(Method::Info, 2, "z9hG4bK-info", "call");
    d.transition(DialogState::Info(id.clone(), req(), handle));
    d.transition(DialogState::Updated(id.clone(), req(), handle));
    d.transition(DialogState::Notify(id.clone(), req(), handle));
    d.transition(DialogState::Options(id.clone(), req(), handle));
    d.notify_only(DialogState::Early(id.clone(), Response::default()));
    assert!(drain_states(&mut d).is_empty());
    assert!(matches!(d.state, DialogState::Terminated(_, TerminatedReason::UacBye)));
}

#[test]
fn a_response_bears_the_version_of_the_request() {
    let id = dialog_id("call", "bob-tag-789", "alice-tag-456");
    let d = server(&id);
    let mut req = in_dialog_request(Method::Info, 2, "z9hG4bK-info", "call");
    let agent = "agent".to_string();
    let given = vec![Header::ContentLength(7), Header::UserAgent("other".to_string())];
    let body = Some(vec![1u8, 2, 3]);
    let resp = d.make_response(&agent, &req, StatusCode::OK, Some(given), body);
    assert_eq!(resp.version, Version::V2);
    let lengths: Vec<u32> = resp
        .headers
        .iter()
        .filter_map(|h| match h {
            Header::ContentLength(n) => Some(*n),
            _ => None,
        })
        .collect();
    assert_eq!(lengths, vec![3]);
    let agents: Vec<&str> = resp
        .headers
        .iter()
        .filter_map(|h| match h {
            Header::UserAgent(a) => Some(a.as_str()),
            _ => None,
        })
        .collect();
    assert_eq!(agents, vec!["agent"]);
    req.version = Version::V1;
    let resp = d.make_response(&agent, &req, StatusCode::OK, None, None);
    assert_eq!(resp.version, Version::V1);
}

#[test]
fn test_ignored_waitack_after_confirmed_is_not_notified() {
    let id = dialog_id("test-call-id-waitack", "bob-tag-789", "alice-tag-456");
    let mut d = server(&id);
    d.transition(DialogState::Confirmed(id.clone(), Response::default()));
    d.transition(DialogState::WaitAck(id.clone(), Response::default()));
    assert_eq!(drain_states(&mut d), vec!["Confirmed"]);
    assert!(d.is_confirmed());
}

#[test]
fn test_info_answered_after_bye_does_not_notify_confirmed() {
    let mut ep = endpoint();
    let call_id = "test-call-id-info-after-bye";
    let id = dialog_id(call_id, "bob-tag-789", "alice-tag-456");
    let mut inner = server(&id);
    inner.transition(DialogState::Confirmed(id.clone(), Response::default()));
    let mut dialog = InviteDialog::from_inner(inner);
    assert_eq!(drain_states(&mut dialog.inner), vec!["Confirmed"]);

    // An INFO comes while the call is established; the user keeps its handle.
    let info = in_dialog_request(Method::Info, 2, "z9hG4bK-info", call_id);
    let key = TransactionKey::from_request(&info, TransactionRole::Server).unwrap();
    let mut info_tx = Transaction::new_server(key, info, &mut ep.inner, None);
    let (h, step) = dialog.handle(&mut ep.inner, &info_tx, TransactionHandle { id: 3 }, true);
    assert!(matches!(step, HandleStep::Ask { within: 32000 }));
    let notified = dialog.inner.take_notifications();
    let handle = match &notified[0] {
        DialogState::Info(_, _, handle) => *handle,
        other => panic!("expected Info, got {:?}", state_name(other)),
    };

    // Before the INFO is answered, the peer hangs up.
    let bye = in_dialog_request(Method::Bye, 3, "z9hG4bK-bye", call_id);
    let key = TransactionKey::from_request(&bye, TransactionRole::Server).unwrap();
    let bye_tx = Transaction::new_server(key, bye, &mut ep.inner, None);
    let (bye_h, step) = dialog.handle(&mut ep.inner, &bye_tx, TransactionHandle { id: 4 }, true);
    assert!(matches!(step, HandleStep::Reply(StatusCode::OK)));
    let (_, step) = dialog.handle_sent(&bye_tx, bye_h, Ok(()));
    assert!(matches!(step, HandleStep::Done(Ok(()))));

    // The user answers the INFO after the dialog is over.
    let (number, cmd) = handle.reply(StatusCode::OK);
    assert_eq!(number, 3);
    let (h, step) = dialog.handle_command(&ep.inner, &info_tx, h, Some(cmd));
    assert!(matches!(h, Handling::Answering { is_final: true, .. }));
    match step {
        HandleStep::Respond(resp) => {
            assert_eq!(resp.status_code, StatusCode::OK);
            assert!(matches!(
                info_tx.respond(&ep.inner, resp),
                TxStep::Done(_) | TxStep::Lookup { .. } | TxStep::Write { .. } | TxStep::Locate { .. }
            ));
        }
        _ => panic!("expected a response"),
    }
    let (_, step) = dialog.handle_sent(&info_tx, h, Ok(()));
    assert!(matches!(step, HandleStep::Done(Ok(()))));
    assert_eq!(
        drain_states(&mut dialog.inner),
        vec!["Terminated"],
        "no Confirmed may be notified after Terminated"
    );
    assert!(matches!(
        dialog.inner.state,
        DialogState::Terminated(_, TerminatedReason::UacBye)
    ));
}

fn snapshot_of_confirmed() -> (DialogInner, DialogSnapshot) {
    let id = dialog_id("snap", "alice-tag-456", "bob-tag-789");
    let mut d = client(&id, "bob-tag-789");
    d.transition(DialogState::Confirmed(id, Response::default()));
    d.local_seq = 5;
    d.remote_seq = 9;
    let s = d.snapshot();
    (d, s)
}

#[test]
fn an_established_dialog_survives_a_snapshot() {
    let (d, s) = snapshot_of_confirmed();
    let ua = "rsipstack-test".to_string();
    let r = DialogInner::try_restore_from_snapshot(s, &ua, 12).unwrap();
    assert!(r.is_confirmed());
    assert!(r.id.same(&d.id));
    assert_eq!(r.local_seq, 5);
    assert_eq!(r.remote_seq, 9);
    assert_eq!(r.tu_channel, 12);
    assert_eq!(r.initial_request.method, Method::Invite);
    assert!(matches!(
        &r.initial_request.headers[0],
        Header::CallId(c) if c == "snap"
    ));
    assert!(matches!(
        &r.initial_request.headers[3],
        Header::CSeq(Field::Typed(CSeq { seq: 5, method: Method::Invite }))
    ));
    assert!(matches!(r.initial_request.headers.last(), Some(Header::ContentLength(0))));
}

#[test]
fn a_dialog_that_is_not_established_is_not_restored() {
    let ua = "rsipstack-test".to_string();
    let id = dialog_id("snap", "alice-tag-456", "bob-tag-789");
    let d = client(&id, "bob-tag-789");
    assert!(DialogInner::try_restore_from_snapshot(d.snapshot(), &ua, 1).is_none());
    let mut d = client(&id, "bob-tag-789");
    d.transition(DialogState::Terminated(id, TerminatedReason::UacBye));
    assert!(DialogInner::try_restore_from_snapshot(d.snapshot(), &ua, 1).is_none());
}

#[test]
fn a_server_dialog_needs_a_contact() {
    let id = dialog_id("c", "b", "a");
    let mut request = create_invite_request("a", "", "c");
    request.headers.retain(|h| !matches!(h, Header::Contact(_)));
    let made = DialogInner::new_with(
        TransactionRole::Server,
        id,
        request,
        None,
        None,
        1,
        String::new(),
    );
    assert!(matches!(made, Err(Error::Error(text)) if text == "missing Contact header"));
}

#[test]
fn the_session_id_of_the_peer_is_learnt_and_refreshed() {
    let peer = "ab30317f1a784dc48ff824d0d3715d86";
    let newer = "47755a9de7794ba387653f2099600ef2";
    let mut request = create_invite_request("alice-tag-456", "", "sid");
    request.headers.push(Header::SessionId(SessionId {
        local: peer.to_string(),
        remote: Some("0".repeat(32)),
    }));
    let drawn = DialogInner::new(
        TransactionRole::Server,
        dialog_id("sid", "bob-tag-789", "alice-tag-456"),
        request.clone(),
        None,
        None,
        1,
    )
    .unwrap();
    let drawn = drawn.session_id_state().unwrap().local;
    assert_eq!(drawn.len(), 32);
    assert!(drawn.chars().all(|c| c.is_ascii_hexdigit()) && drawn != peer);
    let own = "0123456789abcdef0123456789abcdef".to_string();
    let mut d = DialogInner::new_with(
        TransactionRole::Server,
        dialog_id("sid", "bob-tag-789", "alice-tag-456"),
        request,
        None,
        None,
        1,
        own.clone(),
    )
    .unwrap();
    let state = d.session_id_state().unwrap();
    assert_eq!(state.local, own);
    assert_eq!(state.remote.as_deref(), Some(peer));

    d.observe_peer_session_uuid(None);
    d.observe_peer_session_uuid(Some("0".repeat(32)));
    d.observe_peer_session_uuid(Some("nonsense".to_string()));
    d.observe_peer_session_uuid(Some(own.clone()));
    assert_eq!(d.session_id_state().unwrap().remote.as_deref(), Some(peer));
    d.observe_peer_session_uuid(Some(newer.to_string()));
    assert_eq!(d.session_id_state().unwrap().remote.as_deref(), Some(newer));
}

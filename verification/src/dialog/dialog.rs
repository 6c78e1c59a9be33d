//! The state of a dialog, and the requests and responses within it.

use super::id;
use super::id::{DialogId, DialogIdView};
use crate::error;
use crate::error::{Error, ErrorView};
use crate::lists;
use crate::sip::basic::Transport;
use crate::sip::header;
use crate::sip::header::{CSeq, Field, FieldView, Header, HeaderKind, HeaderView};
use crate::sip::message;
use crate::sip::message::{Request, RequestView, Response, ResponseView};
use crate::sip::session_id;
use crate::sip::session_id::{SessionId, SessionIdView};
use crate::sip::status::StatusCode;
use crate::sip::uri;
use crate::sip::uri::{NameAddr, NameAddrView, Uri, UriView, Via};
use crate::text;
use crate::transaction::endpoint::{EndpointInner, EndpointView};
use crate::transaction::ids;
use crate::transaction::key::TransactionRole;
use crate::transaction::message as build;
use crate::transport::connection::{SipConnection, SipConnectionView};
use crate::transport::sip_addr::{SipAddr, SipAddrView};
use vstd::prelude::*;
use vstd::string::*;

verus! {

/// What the user of a dialog wants a request to be answered with.
pub enum TransactionCommand {
    Respond { status: StatusCode, headers: Option<Vec<Header>>, body: Option<Vec<u8>> },
}

/// The number by which the user of a dialog answers a request.
#[derive(Clone, Copy, Debug, PartialEq, Eq, Structural)]
pub struct TransactionHandle {
    pub id: u64,
}

impl TransactionHandle {
    /// The command to answer the request with a status alone.
    pub fn reply(&self, status: StatusCode) -> (r: (u64, TransactionCommand))
        ensures
            r.0 == self.id,
            r.1 == (TransactionCommand::Respond { status, headers: None, body: None }),
    {
        self.respond(status, None, None)
    }

    /// The command to answer the request.
    pub fn respond(
        &self,
        status: StatusCode,
        headers: Option<Vec<Header>>,
        body: Option<Vec<u8>>,
    ) -> (r: (u64, TransactionCommand))
        ensures
            r.0 == self.id,
            r.1 == (TransactionCommand::Respond { status, headers, body }),
    {
        (self.id, TransactionCommand::Respond { status, headers, body })
    }
}

/// Why a dialog is over.
#[derive(Clone, Copy, Debug, PartialEq, Eq, Structural)]
pub enum TerminatedReason {
    Timeout,
    UacCancel,
    UacBye,
    UasBye,
    UacBusy,
    UasBusy,
    UasDecline,
    ProxyError(StatusCode),
    ProxyAuthRequired,
    UacOther(StatusCode),
    UasOther(StatusCode),
}

impl TerminatedReason {
    /// The name of the reason, with the status in brackets where it has one.
    pub open spec fn spec_name(self) -> Seq<char> {
        match self {
            TerminatedReason::Timeout => "Timeout"@,
            TerminatedReason::UacCancel => "UacCancel"@,
            TerminatedReason::UacBye => "UacBye"@,
            TerminatedReason::UasBye => "UasBye"@,
            TerminatedReason::UacBusy => "UacBusy"@,
            TerminatedReason::UasBusy => "UasBusy"@,
            TerminatedReason::UasDecline => "UasDecline"@,
            TerminatedReason::ProxyError(s) => "ProxyError("@ + s.spec_name() + ")"@,
            TerminatedReason::ProxyAuthRequired => "ProxyAuthRequired"@,
            TerminatedReason::UacOther(s) => "UacOther("@ + s.spec_name() + ")"@,
            TerminatedReason::UasOther(s) => "UasOther("@ + s.spec_name() + ")"@,
        }
    }

    pub fn name(&self) -> (s: String)
        ensures
            s@ == self.spec_name(),
    {
        match self {
            TerminatedReason::Timeout => "Timeout".to_owned(),
            TerminatedReason::UacCancel => "UacCancel".to_owned(),
            TerminatedReason::UacBye => "UacBye".to_owned(),
            TerminatedReason::UasBye => "UasBye".to_owned(),
            TerminatedReason::UacBusy => "UacBusy".to_owned(),
            TerminatedReason::UasBusy => "UasBusy".to_owned(),
            TerminatedReason::UasDecline => "UasDecline".to_owned(),
            TerminatedReason::ProxyError(status) => bracketed("ProxyError(", status),
            TerminatedReason::ProxyAuthRequired => "ProxyAuthRequired".to_owned(),
            TerminatedReason::UacOther(status) => bracketed("UacOther(", status),
            TerminatedReason::UasOther(status) => bracketed("UasOther(", status),
        }
    }
}

fn bracketed(start: &str, status: &StatusCode) -> (s: String)
    ensures
        s@ == start@ + status.spec_name() + ")"@,
{
    let mut s = start.to_owned();
    s.append(status.name().as_str());
    s.append(")");
    s
}

#[derive(Debug)]
pub enum DialogState {
    Calling(DialogId),
    Trying(DialogId),
    Early(DialogId, Response),
    WaitAck(DialogId, Response),
    Confirmed(DialogId, Response),
    Updated(DialogId, Request, TransactionHandle),
    Publish(DialogId, Request, TransactionHandle),
    Notify(DialogId, Request, TransactionHandle),
    Refer(DialogId, Request, TransactionHandle),
    Message(DialogId, Request, TransactionHandle),
    Info(DialogId, Request, TransactionHandle),
    Options(DialogId, Request, TransactionHandle),
    Terminated(DialogId, TerminatedReason),
}

#[verifier::ext_equal]
pub enum DialogStateView {
    Calling(DialogIdView),
    Trying(DialogIdView),
    Early(DialogIdView, ResponseView),
    WaitAck(DialogIdView, ResponseView),
    Confirmed(DialogIdView, ResponseView),
    Updated(DialogIdView, RequestView, TransactionHandle),
    Publish(DialogIdView, RequestView, TransactionHandle),
    Notify(DialogIdView, RequestView, TransactionHandle),
    Refer(DialogIdView, RequestView, TransactionHandle),
    Message(DialogIdView, RequestView, TransactionHandle),
    Info(DialogIdView, RequestView, TransactionHandle),
    Options(DialogIdView, RequestView, TransactionHandle),
    Terminated(DialogIdView, TerminatedReason),
}

impl DeepView for DialogState {
    type V = DialogStateView;

    open spec fn deep_view(&self) -> DialogStateView {
        match self {
            DialogState::Calling(id) => DialogStateView::Calling(id@),
            DialogState::Trying(id) => DialogStateView::Trying(id@),
            DialogState::Early(id, r) => DialogStateView::Early(id@, r@),
            DialogState::WaitAck(id, r) => DialogStateView::WaitAck(id@, r@),
            DialogState::Confirmed(id, r) => DialogStateView::Confirmed(id@, r@),
            DialogState::Updated(id, r, h) => DialogStateView::Updated(id@, r@, *h),
            DialogState::Publish(id, r, h) => DialogStateView::Publish(id@, r@, *h),
            DialogState::Notify(id, r, h) => DialogStateView::Notify(id@, r@, *h),
            DialogState::Refer(id, r, h) => DialogStateView::Refer(id@, r@, *h),
            DialogState::Message(id, r, h) => DialogStateView::Message(id@, r@, *h),
            DialogState::Info(id, r, h) => DialogStateView::Info(id@, r@, *h),
            DialogState::Options(id, r, h) => DialogStateView::Options(id@, r@, *h),
            DialogState::Terminated(id, reason) => DialogStateView::Terminated(id@, *reason),
        }
    }
}

impl View for DialogState {
    type V = DialogStateView;

    open spec fn view(&self) -> DialogStateView {
        self.deep_view()
    }
}

impl Clone for DialogState {
    fn clone(&self) -> (r: Self)
        ensures
            r.deep_view() == self.deep_view(),
    {
        match self {
            DialogState::Calling(id) => DialogState::Calling(id.clone()),
            DialogState::Trying(id) => DialogState::Trying(id.clone()),
            DialogState::Early(id, r) => DialogState::Early(id.clone(), r.clone()),
            DialogState::WaitAck(id, r) => DialogState::WaitAck(id.clone(), r.clone()),
            DialogState::Confirmed(id, r) => DialogState::Confirmed(id.clone(), r.clone()),
            DialogState::Updated(id, r, h) => DialogState::Updated(id.clone(), r.clone(), *h),
            DialogState::Publish(id, r, h) => DialogState::Publish(id.clone(), r.clone(), *h),
            DialogState::Notify(id, r, h) => DialogState::Notify(id.clone(), r.clone(), *h),
            DialogState::Refer(id, r, h) => DialogState::Refer(id.clone(), r.clone(), *h),
            DialogState::Message(id, r, h) => DialogState::Message(id.clone(), r.clone(), *h),
            DialogState::Info(id, r, h) => DialogState::Info(id.clone(), r.clone(), *h),
            DialogState::Options(id, r, h) => DialogState::Options(id.clone(), r.clone(), *h),
            DialogState::Terminated(id, reason) => DialogState::Terminated(id.clone(), *reason),
        }
    }
}

impl DialogStateView {
    pub open spec fn id(self) -> DialogIdView {
        match self {
            DialogStateView::Calling(id) | DialogStateView::Trying(id) => id,
            DialogStateView::Early(id, _) | DialogStateView::WaitAck(id, _)
            | DialogStateView::Confirmed(id, _) => id,
            DialogStateView::Updated(id, _, _) | DialogStateView::Publish(id, _, _)
            | DialogStateView::Notify(id, _, _) | DialogStateView::Refer(id, _, _)
            | DialogStateView::Message(id, _, _) | DialogStateView::Info(id, _, _)
            | DialogStateView::Options(id, _, _) => id,
            DialogStateView::Terminated(id, _) => id,
        }
    }

    /// The INVITE has no final answer yet.
    pub open spec fn can_cancel(self) -> bool {
        self is Calling || self is Trying || self is Early
    }

    /// The dialog and what it is at, as one text.
    pub open spec fn text(self) -> Seq<char> {
        self.id().text() + match self {
            DialogStateView::Calling(_) => "(Calling)"@,
            DialogStateView::Trying(_) => "(Trying)"@,
            DialogStateView::Early(_, _) => "(Early)"@,
            DialogStateView::WaitAck(_, _) => "(WaitAck)"@,
            DialogStateView::Confirmed(_, _) => "(Confirmed)"@,
            DialogStateView::Updated(_, _, _) => "(Updated)"@,
            DialogStateView::Publish(_, _, _) => "(Publish)"@,
            DialogStateView::Notify(_, _, _) => "(Notify)"@,
            DialogStateView::Info(_, _, _) => "(Info)"@,
            DialogStateView::Options(_, _, _) => "(Options)"@,
            DialogStateView::Refer(_, _, _) => "(Refer)"@,
            DialogStateView::Message(_, _, _) => "(Message)"@,
            DialogStateView::Terminated(_, reason) => "(Terminated "@ + reason.spec_name() + ")"@,
        }
    }
}

/// The text that `format!` gives of a state with `{:?}`.
pub uninterp spec fn debug_form(state: DialogStateView) -> Seq<char>;

/// Calls std's `format!` with `{:?}`, which writes the state through the `Debug`
/// that is derived for it and for all that it holds. Believed of it: that the text
/// depends on the value of the state alone. What the text is goes unsaid.
#[verifier::external_body]
fn format_debug(state: &DialogState) -> (s: String)
    ensures
        s@ == debug_form(state@),
{
    format!("{:?}", state)
}

impl DialogState {
    /// The state with all that it holds, for a reader of errors.
    pub fn debug_text(&self) -> (s: String)
        ensures
            s@ == debug_form(self@),
    {
        format_debug(self)
    }

    pub fn id(&self) -> (r: &DialogId)
        ensures
            r@ == self@.id(),
    {
        match self {
            DialogState::Calling(id) | DialogState::Trying(id) => id,
            DialogState::Early(id, _) | DialogState::WaitAck(id, _) | DialogState::Confirmed(
                id,
                _,
            ) => id,
            DialogState::Updated(id, _, _) | DialogState::Publish(id, _, _) | DialogState::Notify(
                id,
                _,
                _,
            ) | DialogState::Refer(id, _, _) | DialogState::Message(id, _, _) | DialogState::Info(
                id,
                _,
                _,
            ) | DialogState::Options(id, _, _) => id,
            DialogState::Terminated(id, _) => id,
        }
    }

    pub fn can_cancel(&self) -> (r: bool)
        ensures
            r == self@.can_cancel(),
    {
        matches!(self, DialogState::Calling(_) | DialogState::Trying(_) | DialogState::Early(_, _))
    }

    pub fn is_confirmed(&self) -> (r: bool)
        ensures
            r == self@ is Confirmed,
    {
        matches!(self, DialogState::Confirmed(_, _))
    }

    pub fn is_terminated(&self) -> (r: bool)
        ensures
            r == self@ is Terminated,
    {
        matches!(self, DialogState::Terminated(_, _))
    }

    pub fn waiting_ack(&self) -> (r: bool)
        ensures
            r == self@ is WaitAck,
    {
        matches!(self, DialogState::WaitAck(_, _))
    }

    /// The dialog and what it is at, as one text.
    pub fn text(&self) -> (s: String)
        ensures
            s@ == self@.text(),
    {
        let mut s = self.id().text();
        match self {
            DialogState::Calling(_) => s.append("(Calling)"),
            DialogState::Trying(_) => s.append("(Trying)"),
            DialogState::Early(_, _) => s.append("(Early)"),
            DialogState::WaitAck(_, _) => s.append("(WaitAck)"),
            DialogState::Confirmed(_, _) => s.append("(Confirmed)"),
            DialogState::Updated(_, _, _) => s.append("(Updated)"),
            DialogState::Publish(_, _, _) => s.append("(Publish)"),
            DialogState::Notify(_, _, _) => s.append("(Notify)"),
            DialogState::Info(_, _, _) => s.append("(Info)"),
            DialogState::Options(_, _, _) => s.append("(Options)"),
            DialogState::Refer(_, _, _) => s.append("(Refer)"),
            DialogState::Message(_, _, _) => s.append("(Message)"),
            DialogState::Terminated(_, reason) => {
                let mut end = "(Terminated ".to_owned();
                end.append(reason.name().as_str());
                end.append(")");
                s.append(end.as_str());
            },
        }
        s
    }
}

#[derive(Clone, Copy, Debug, PartialEq, Eq, Structural)]
pub enum DialogSnapshotState {
    Calling,
    Trying,
    Early,
    WaitAck,
    Confirmed,
    Terminated,
}

/// The Session-ID identifiers of the two ends of a dialog.
#[derive(Debug)]
pub struct SessionIdState {
    pub local: String,
    pub remote: Option<String>,
}

#[verifier::ext_equal]
pub struct SessionIdStateView {
    pub local: Seq<char>,
    pub remote: Option<Seq<char>>,
}

impl DeepView for SessionIdState {
    type V = SessionIdStateView;

    open spec fn deep_view(&self) -> SessionIdStateView {
        SessionIdStateView { local: self.local@, remote: self.remote.deep_view() }
    }
}

impl Clone for SessionIdState {
    fn clone(&self) -> (r: Self)
        ensures
            r.deep_view() == self.deep_view(),
    {
        SessionIdState { local: self.local.clone(), remote: self.remote.clone() }
    }
}

/// The name and password to answer a challenge with.
#[derive(Debug)]
pub struct Credential {
    pub username: String,
    pub password: String,
    pub realm: Option<String>,
}

#[verifier::ext_equal]
pub struct CredentialView {
    pub username: Seq<char>,
    pub password: Seq<char>,
    pub realm: Option<Seq<char>>,
}

impl DeepView for Credential {
    type V = CredentialView;

    open spec fn deep_view(&self) -> CredentialView {
        CredentialView {
            username: self.username@,
            password: self.password@,
            realm: self.realm.deep_view(),
        }
    }
}

impl Clone for Credential {
    fn clone(&self) -> (r: Self)
        ensures
            r.deep_view() == self.deep_view(),
    {
        Credential {
            username: self.username.clone(),
            password: self.password.clone(),
            realm: self.realm.clone(),
        }
    }
}

/// The last reliable provisional response, and the PRACK that it got.
#[derive(Debug)]
pub struct RemoteReliableState {
    pub last_rseq: u32,
    pub prack_request: Request,
}

#[verifier::ext_equal]
pub struct RemoteReliableView {
    pub last_rseq: u32,
    pub prack_request: RequestView,
}

impl DeepView for RemoteReliableState {
    type V = RemoteReliableView;

    open spec fn deep_view(&self) -> RemoteReliableView {
        RemoteReliableView { last_rseq: self.last_rseq, prack_request: self.prack_request@ }
    }
}

/// A dialog. The states that its user is told of wait in `notifications`.
pub struct DialogInner {
    pub role: TransactionRole,
    pub id: DialogId,
    pub state: DialogState,
    pub local_seq: u32,
    pub local_contact: Option<Uri>,
    pub remote_contact: Option<Field<NameAddr>>,
    pub remote_seq: u32,
    pub remote_uri: Uri,
    pub from: NameAddr,
    pub to: NameAddr,
    pub credential: Option<Credential>,
    pub route_set: Vec<Field<NameAddr>>,
    pub session_id: Option<SessionIdState>,
    pub initial_request: Request,
    pub supports_100rel: bool,
    pub remote_reliable: Option<RemoteReliableState>,
    pub server_connection: Option<SipConnection>,
    pub dialback_target: Option<SipAddr>,
    /// The last ACK of an INVITE that this dialog answered.
    pub remote_ack: Option<Request>,
    /// The channel of the transaction that opened the dialog.
    pub tu_channel: u64,
    pub is_removed: bool,
    pub notifications: Vec<DialogState>,
}

#[verifier::ext_equal]
pub struct DialogView {
    pub role: TransactionRole,
    pub id: DialogIdView,
    pub state: DialogStateView,
    pub local_seq: u32,
    pub local_contact: Option<UriView>,
    pub remote_contact: Option<FieldView<NameAddrView>>,
    pub remote_seq: u32,
    pub remote_uri: UriView,
    pub from: NameAddrView,
    pub to: NameAddrView,
    pub credential: Option<CredentialView>,
    pub route_set: Seq<FieldView<NameAddrView>>,
    pub session_id: Option<SessionIdStateView>,
    pub initial_request: RequestView,
    pub supports_100rel: bool,
    pub remote_reliable: Option<RemoteReliableView>,
    pub server_connection: Option<SipConnectionView>,
    pub dialback_target: Option<SipAddrView>,
    pub remote_ack: Option<RequestView>,
    pub tu_channel: u64,
    pub is_removed: bool,
    pub notifications: Seq<DialogStateView>,
}

impl DeepView for DialogInner {
    type V = DialogView;

    open spec fn deep_view(&self) -> DialogView {
        DialogView {
            role: self.role,
            id: self.id@,
            state: self.state@,
            local_seq: self.local_seq,
            local_contact: self.local_contact.deep_view(),
            remote_contact: self.remote_contact.deep_view(),
            remote_seq: self.remote_seq,
            remote_uri: self.remote_uri@,
            from: self.from@,
            to: self.to@,
            credential: self.credential.deep_view(),
            route_set: self.route_set.deep_view(),
            session_id: self.session_id.deep_view(),
            initial_request: self.initial_request@,
            supports_100rel: self.supports_100rel,
            remote_reliable: self.remote_reliable.deep_view(),
            server_connection: self.server_connection.deep_view(),
            dialback_target: self.dialback_target.deep_view(),
            remote_ack: self.remote_ack.deep_view(),
            tu_channel: self.tu_channel,
            is_removed: self.is_removed,
            notifications: self.notifications.deep_view(),
        }
    }
}

impl View for DialogInner {
    type V = DialogView;

    open spec fn view(&self) -> DialogView {
        self.deep_view()
    }
}

/// The Session-ID identifiers that the request which opened a dialog brings: a
/// client's own are in it, and a server takes `uuid` and notes the peer's.
pub open spec fn session_of(
    headers: Seq<HeaderView>,
    role: TransactionRole,
    uuid: Seq<char>,
) -> Option<SessionIdStateView> {
    match header::first_session_id(headers) {
        None => None,
        Some(sid) => match sid.local_uuid() {
            None => None,
            Some(peer) => Some(
                match role {
                    TransactionRole::Client => SessionIdStateView {
                        local: peer,
                        remote: sid.remote_uuid(),
                    },
                    TransactionRole::Server => SessionIdStateView {
                        local: uuid,
                        remote: Some(peer),
                    },
                },
            ),
        },
    }
}

/// The tag of the To end of a dialog.
pub open spec fn to_tag_of_dialog(id: DialogIdView, role: TransactionRole) -> Seq<char> {
    match role {
        TransactionRole::Client => id.remote_tag,
        TransactionRole::Server => id.local_tag,
    }
}

/// The tag of the From end of a dialog.
pub open spec fn from_tag_of_dialog(id: DialogIdView, role: TransactionRole) -> Seq<char> {
    match role {
        TransactionRole::Client => id.local_tag,
        TransactionRole::Server => id.remote_tag,
    }
}

/// An address with `tag` added if it has no tag and `tag` is not empty.
pub open spec fn tagged(addr: NameAddrView, tag: Seq<char>) -> NameAddrView {
    if tag.len() == 0 {
        addr
    } else {
        addr.or_tag(tag)
    }
}

pub(crate) fn add_tag(addr: NameAddr, tag: &String) -> (r: NameAddr)
    ensures
        r@ == tagged(addr@, tag@),
{
    if tag.as_str().is_empty() {
        addr
    } else {
        addr.or_tag(tag)
    }
}

/// Where the peer of a new dialog is: a client's request says it in its URI, and
/// a server's in its Contact.
pub open spec fn remote_target(req: RequestView, role: TransactionRole) -> Result<
    UriView,
    ErrorView,
> {
    match role {
        TransactionRole::Client => Ok(req.uri),
        TransactionRole::Server => match message::contact_of(req.headers) {
            Err(e) => Err(e),
            Ok(Some(c)) => Ok(c.uri),
            Ok(None) => Err(ErrorView::Error("missing Contact header"@)),
        },
    }
}

/// The dialog that `req` opens.
pub open spec fn opened(
    role: TransactionRole,
    id: DialogIdView,
    req: RequestView,
    credential: Option<CredentialView>,
    local_contact: Option<UriView>,
    tu_channel: u64,
    uuid: Seq<char>,
) -> Result<DialogView, ErrorView> {
    match (
        message::cseq_of(req.headers),
        remote_target(req, role),
        message::from_of(req.headers),
        message::to_of(req.headers),
    ) {
        (Err(e), _, _, _) => Err(e),
        (_, Err(e), _, _) => Err(e),
        (_, _, Err(e), _) => Err(e),
        (_, _, _, Err(e)) => Err(e),
        (Ok(cseq), Ok(remote_uri), Ok(from), Ok(to)) => Ok(
            DialogView {
                role,
                id,
                state: DialogStateView::Calling(id),
                local_seq: cseq.seq,
                local_contact,
                remote_contact: None,
                remote_seq: 0,
                remote_uri,
                from,
                to: tagged(to, to_tag_of_dialog(id, role)),
                credential,
                route_set: match role {
                    TransactionRole::Client => Seq::empty(),
                    TransactionRole::Server => message::record_routes(req.headers),
                },
                session_id: session_of(req.headers, role, uuid),
                initial_request: req,
                supports_100rel: message::headers_list(
                    req.headers,
                    HeaderKind::Supported,
                    "100rel"@,
                ) || message::headers_list(req.headers, HeaderKind::Require, "100rel"@),
                remote_reliable: None,
                server_connection: None,
                dialback_target: None,
                remote_ack: None,
                tu_channel,
                is_removed: false,
                notifications: Seq::empty(),
            },
        ),
    }
}

/// The number after `n`, starting again at zero behind the last.
pub open spec fn next_seq(n: u32) -> u32 {
    if n == u32::MAX {
        0
    } else {
        (n + 1) as u32
    }
}

/// States that the user is told of without the dialog being in them.
pub open spec fn is_passing(state: DialogStateView) -> bool {
    state is Updated || state is Notify || state is Info || state is Options
}

impl DialogView {
    /// The user is told of a state.
    pub open spec fn notify(self, state: DialogStateView) -> DialogView {
        DialogView { notifications: self.notifications.push(state), ..self }
    }

    /// The user is told of a state, unless the dialog is over.
    pub open spec fn tell(self, state: DialogStateView) -> DialogView {
        if self.state is Terminated {
            self
        } else {
            self.notify(state)
        }
    }

    /// The dialog enters a state, and its user is told. A dialog that is over
    /// stays over, and its user is told of nothing more; a confirmed one does not
    /// wait for an ACK again, and a state that passes is only told of.
    pub open spec fn enter(self, state: DialogStateView) -> DialogView {
        if is_passing(state) {
            self.tell(state)
        } else if self.state is Terminated || (self.state is Confirmed && state is WaitAck) {
            self
        } else {
            DialogView { state, ..self.notify(state) }
        }
    }

    /// The peer's identifier is taken over from a message, unless it is our own.
    pub open spec fn observe_peer(self, peer: Option<Seq<char>>) -> DialogView {
        match (peer, self.session_id) {
            (Some(uuid), Some(sid)) => if session_id::identity_in(uuid) is Some && sid.local
                != uuid {
                DialogView {
                    session_id: Some(SessionIdStateView { remote: Some(uuid), ..sid }),
                    ..self
                }
            } else {
                self
            },
            _ => self,
        }
    }

    /// The dialog uses the flow of a connection.
    pub open spec fn over(self, connection: Option<SipConnectionView>) -> DialogView {
        DialogView {
            server_connection: connection,
            dialback_target: match connection {
                Some(c) => c.remote_addr(),
                None => None,
            },
            ..self
        }
    }

    /// The peer's tag is `tag`; for a client it is also the tag of the To header.
    pub open spec fn with_remote_tag(self, tag: Seq<char>) -> DialogView {
        DialogView {
            id: DialogIdView { remote_tag: tag, ..self.id },
            to: if self.role == TransactionRole::Client {
                self.to.with_tag(tag)
            } else {
                self.to
            },
            ..self
        }
    }

    /// A client takes the route set from a response, in the opposite order.
    pub open spec fn with_route_set_of(self, resp: ResponseView) -> DialogView {
        if self.role == TransactionRole::Client {
            DialogView {
                route_set: message::record_routes(resp.headers).reverse(),
                ..self
            }
        } else {
            self
        }
    }

    /// The connection that requests of the dialog go out on: the recorded flow,
    /// if it is reliable, not over, and there is no route set to follow.
    pub open spec fn affinity(self, ep: EndpointView) -> Option<SipConnectionView> {
        match self.server_connection {
            Some(c) if self.route_set.len() == 0 && c.is_reliable()
                && !ep.transport_layer.inner.is_over(c) => Some(c),
            _ => None,
        }
    }

    /// The transport that the next request of the dialog goes out on, as far as
    /// it is known beforehand.
    pub open spec fn send_transport(self, ep: EndpointView) -> Option<Transport> {
        match self.affinity(ep) {
            Some(c) => c.addr().transport,
            None => if ep.has_locator {
                None
            } else {
                match ep.transport_layer.outbound {
                    Some(o) => o.transport,
                    None => if self.route_set.len() > 0 {
                        match self.route_set[0] {
                            FieldView::Typed(r) => r.uri.transport(),
                            FieldView::Malformed(_) => None,
                        }
                    } else {
                        self.remote_uri.transport()
                    },
                }
            },
        }
    }

    /// The address to name in the Via: the first one with the transport that the
    /// request goes out on. `None` where that is UDP or not known.
    pub open spec fn via_addr(self, ep: EndpointView, addrs: Seq<SipAddrView>) -> Option<
        SipAddrView,
    > {
        match self.send_transport(ep) {
            Some(t) if t != Transport::Udp => lists::first_of(
                addrs,
                |a: SipAddrView| addr_with(a, t),
            ),
            _ => None,
        }
    }
}

/// An address of the transport `t`.
pub open spec fn addr_with(a: SipAddrView, t: Transport) -> Option<SipAddrView> {
    if a.transport == Some(t) {
        Some(a)
    } else {
        None
    }
}

/// The first address of a transport.
pub fn find_addr(addrs: &Vec<SipAddr>, t: Transport) -> (r: Option<SipAddr>)
    ensures
        r.deep_view() == lists::first_of(
            addrs.deep_view(),
            |a: SipAddrView| addr_with(a, t),
        ),
{
    let ghost all = addrs.deep_view();
    let ghost pick = |a: SipAddrView| addr_with(a, t);
    let mut i: usize = 0;
    assert(all.skip(0) == all);
    while i < addrs.len()
        invariant
            i <= addrs.len(),
            all == addrs.deep_view(),
            pick == (|a: SipAddrView| addr_with(a, t)),
            lists::first_of(all.skip(i as int), pick) == lists::first_of(all, pick),
        decreases addrs.len() - i,
    {
        proof {
            lists::lemma_first_of_step(all, i as int, pick);
        }
        if addrs[i].transport == Some(t) {
            return Some(addrs[i].clone());
        }
        i = i + 1;
    }
    None
}

/// Headers that the dialog writes itself.
pub open spec fn is_system(h: HeaderView) -> bool {
    h is Via || h is CallId || h is From || h is To || h is CSeq || h is MaxForwards
        || h is ContentLength || h is Route
}

/// Tests for a header that the dialog writes itself.
pub fn is_system_header(h: &Header) -> (r: bool)
    ensures
        r == is_system(h@),
{
    matches!(
        h,
        Header::Via(_) | Header::CallId(_) | Header::From(_) | Header::To(_) | Header::CSeq(_)
            | Header::MaxForwards(_) | Header::ContentLength(_) | Header::Route(_)
    )
}

/// A new identifier for a Session-ID: 32 lower-case hexadecimal digits.
pub fn make_dialog_session_uuid() -> (s: String)
    ensures
        ids::is_uuid_v4(s@),
        session_id::is_uuid(s@),
{
    let s = ids::make_uuid_v4();
    assert forall|i: int| 0 <= i < 32 implies session_id::is_hex(#[trigger] s@[i]) by {}
    s
}

/// The Session-ID header for two identifiers, the second of which is nil where
/// it is not known. There is none for an identifier of another form.
pub open spec fn session_header(local: Seq<char>, remote: Option<Seq<char>>) -> Option<HeaderView> {
    let other = match remote {
        Some(r) => r,
        None => session_id::nil_uuid(),
    };
    if session_id::is_uuid(local) && (remote is None || session_id::is_uuid(other)) {
        Some(HeaderView::SessionId(SessionIdView { local, remote: Some(other) }))
    } else {
        None
    }
}

/// The Session-ID header for two identifiers.
pub fn build_session_id_header(local: &str, remote: Option<&String>) -> (r: Option<Header>)
    ensures
        r.deep_view() == session_header(
            local@,
            match remote {
                Some(x) => Some(x@),
                None => None,
            },
        ),
{
    let built = match remote {
        Some(remote) => SessionId::from_pair(local, remote.as_str()),
        None => SessionId::from_local(local),
    };
    match built {
        Ok(sid) => Some(Header::SessionId(sid)),
        Err(_) => None,
    }
}

impl DialogInner {
    /// Opens the dialog of a request. A server that takes part in Session-ID
    /// goes by a new identifier.
    pub fn new(
        role: TransactionRole,
        id: DialogId,
        initial_request: Request,
        credential: Option<Credential>,
        local_contact: Option<Uri>,
        tu_channel: u64,
    ) -> (r: Result<DialogInner, Error>)
        ensures
            exists|uuid: Seq<char>| #[trigger]
                ids::is_uuid_v4(uuid) && error::result_view(r) == opened(
                    role,
                    id@,
                    initial_request@,
                    credential.deep_view(),
                    local_contact.deep_view(),
                    tu_channel,
                    uuid,
                ),
    {
        let session_uuid = make_dialog_session_uuid();
        assert(ids::is_uuid_v4(session_uuid@));
        Self::new_with(
            role,
            id,
            initial_request,
            credential,
            local_contact,
            tu_channel,
            session_uuid,
        )
    }

    /// Opens the dialog of a request. A server that takes part in Session-ID
    /// goes by the identifier `session_uuid`.
    pub fn new_with(
        role: TransactionRole,
        id: DialogId,
        initial_request: Request,
        credential: Option<Credential>,
        local_contact: Option<Uri>,
        tu_channel: u64,
        session_uuid: String,
    ) -> (r: Result<DialogInner, Error>)
        ensures
            error::result_view(r) == opened(
                role,
                id@,
                initial_request@,
                credential.deep_view(),
                local_contact.deep_view(),
                tu_channel,
                session_uuid@,
            ),
    {
        let cseq = match message::cseq(&initial_request.headers) {
            Ok(c) => c,
            Err(e) => return Err(e),
        };
        let remote_uri = match role {
            TransactionRole::Client => initial_request.uri.clone(),
            TransactionRole::Server => match message::contact(&initial_request.headers) {
                Ok(Some(c)) => c.uri,
                Ok(None) => return Err(Error::Error("missing Contact header".to_owned())),
                Err(e) => return Err(e),
            },
        };
        let from = match message::from_addr(&initial_request.headers) {
            Ok(f) => f,
            Err(e) => return Err(e),
        };
        let to = match message::to_addr(&initial_request.headers) {
            Ok(t) => t,
            Err(e) => return Err(e),
        };
        let to = match role {
            TransactionRole::Client => add_tag(to, &id.remote_tag),
            TransactionRole::Server => add_tag(to, &id.local_tag),
        };
        let route_set = match role {
            TransactionRole::Client => {
                let none: Vec<Field<NameAddr>> = Vec::new();
                assert(none.deep_view() == Seq::<FieldView<NameAddrView>>::empty());
                none
            },
            TransactionRole::Server => message::list_record_routes(&initial_request.headers),
        };
        let supports_100rel = message::header_contains_token(
            &initial_request.headers,
            HeaderKind::Supported,
            "100rel",
        ) || message::header_contains_token(
            &initial_request.headers,
            HeaderKind::Require,
            "100rel",
        );
        let session_id = Self::extract_session_id(&initial_request, role, session_uuid);
        let notifications: Vec<DialogState> = Vec::new();
        assert(notifications.deep_view() == Seq::<DialogStateView>::empty());
        Ok(
            DialogInner {
                role,
                state: DialogState::Calling(id.clone()),
                id,
                local_seq: cseq.seq,
                local_contact,
                remote_contact: None,
                remote_seq: 0,
                remote_uri,
                from,
                to,
                credential,
                route_set,
                session_id,
                initial_request,
                supports_100rel,
                remote_reliable: None,
                server_connection: None,
                dialback_target: None,
                remote_ack: None,
                tu_channel,
                is_removed: false,
                notifications,
            },
        )
    }

    fn extract_session_id(
        initial_request: &Request,
        role: TransactionRole,
        session_uuid: String,
    ) -> (r: Option<SessionIdState>)
        ensures
            r.deep_view() == session_of(initial_request@.headers, role, session_uuid@),
    {
        let Some(sid) = header::find_session_id(&initial_request.headers) else {
            return None;
        };
        if !sid.is_valid_header() {
            return None;
        }
        let Some(peer) = sid.local_uuid() else {
            return None;
        };
        Some(
            match role {
                TransactionRole::Client => SessionIdState {
                    local: peer,
                    remote: sid.remote_uuid(),
                },
                TransactionRole::Server => SessionIdState {
                    local: session_uuid,
                    remote: Some(peer),
                },
            },
        )
    }

    /// Hands out the states that the user is to be told of.
    pub fn take_notifications(&mut self) -> (r: Vec<DialogState>)
        ensures
            r.deep_view() == old(self)@.notifications,
            final(self)@ == (DialogView { notifications: Seq::empty(), ..old(self)@ }),
    {
        let mut out: Vec<DialogState> = Vec::new();
        std::mem::swap(&mut out, &mut self.notifications);
        out
    }

    /// Takes the peer's identifier over from a message.
    pub fn observe_peer_session_uuid(&mut self, peer: Option<String>)
        ensures
            final(self)@ == old(self)@.observe_peer(peer.deep_view()),
    {
        let Some(uuid) = peer else {
            return;
        };
        if !session_id::is_valid(uuid.as_str()) || uuid == session_id::nil() {
            return;
        }
        if let Some(sid) = self.session_id.take() {
            let remote = if sid.local != uuid {
                Some(uuid)
            } else {
                sid.remote
            };
            self.session_id = Some(SessionIdState { local: sid.local, remote });
        }
    }

    pub fn session_id_state(&self) -> (r: Option<SessionIdState>)
        ensures
            r.deep_view() == self@.session_id,
    {
        self.session_id.clone()
    }

    /// Records the flow that the dialog runs over.
    pub fn set_server_connection(&mut self, connection: Option<SipConnection>)
        ensures
            final(self)@ == old(self)@.over(connection.deep_view()),
    {
        self.dialback_target = match &connection {
            Some(c) => c.get_remote_addr(),
            None => None,
        };
        self.server_connection = connection;
    }

    pub fn can_cancel(&self) -> (r: bool)
        ensures
            r == self@.state.can_cancel(),
    {
        self.state.can_cancel()
    }

    pub fn is_confirmed(&self) -> (r: bool)
        ensures
            r == self@.state is Confirmed,
    {
        self.state.is_confirmed()
    }

    pub fn is_terminated(&self) -> (r: bool)
        ensures
            r == self@.state is Terminated,
    {
        self.state.is_terminated()
    }

    pub fn waiting_ack(&self) -> (r: bool)
        ensures
            r == self@.state is WaitAck,
    {
        self.state.waiting_ack()
    }

    pub fn get_local_seq(&self) -> (n: u32)
        ensures
            n == self@.local_seq,
    {
        self.local_seq
    }

    /// Takes the next number for a request.
    pub fn increment_local_seq(&mut self) -> (n: u32)
        ensures
            n == next_seq(old(self)@.local_seq),
            final(self)@ == (DialogView { local_seq: n, ..old(self)@ }),
    {
        self.local_seq = if self.local_seq == u32::MAX {
            0
        } else {
            self.local_seq + 1
        };
        self.local_seq
    }

    /// Notes the peer's tag.
    pub fn update_remote_tag(&mut self, tag: &str)
        ensures
            final(self)@ == old(self)@.with_remote_tag(tag@),
    {
        self.id.remote_tag = tag.to_owned();
        if self.role == TransactionRole::Client {
            self.to = self.to.clone().with_tag(tag.to_owned());
        }
    }

    /// Notes where the peer is.
    pub fn set_remote_target(&mut self, uri: Uri, contact: Option<Field<NameAddr>>)
        ensures
            final(self)@ == (DialogView {
                remote_uri: uri@,
                remote_contact: contact.deep_view(),
                ..old(self)@
            }),
    {
        self.remote_uri = uri;
        self.remote_contact = contact;
    }

    /// Takes the route set from the response that established the dialog.
    pub fn update_route_set_from_response(&mut self, resp: &Response)
        ensures
            final(self)@ == old(self)@.with_route_set_of(resp@),
    {
        if self.role == TransactionRole::Client {
            self.route_set = build::reversed(&message::list_record_routes(&resp.headers));
        }
    }

    fn notify(&mut self, state: DialogState)
        ensures
            final(self)@ == old(self)@.notify(state@),
    {
        self.notifications.push(state);
    }

    /// Tells the user of a state without entering it. After the end of the dialog
    /// there is nothing to tell.
    pub fn notify_only(&mut self, state: DialogState)
        ensures
            final(self)@ == old(self)@.tell(state@),
    {
        if !self.is_terminated() {
            self.notify(state);
        }
    }

    /// Enters a state and tells the user.
    pub fn transition(&mut self, state: DialogState)
        ensures
            final(self)@ == old(self)@.enter(state@),
    {
        if self.is_terminated() {
            return;
        }
        match &state {
            DialogState::Updated(_, _, _) | DialogState::Notify(_, _, _) | DialogState::Info(
                _,
                _,
                _,
            ) | DialogState::Options(_, _, _) => {
                self.notify(state);
                return;
            },
            _ => {},
        }
        match (&self.state, &state) {
            (DialogState::Confirmed(_, _), DialogState::WaitAck(_, _)) => return,
            _ => {},
        }
        self.state = state.clone();
        self.notify(state);
    }

    /// The connection that requests of the dialog go out on.
    pub fn resolve_affinity_connection(&self, ep: &EndpointInner) -> (r: Option<SipConnection>)
        ensures
            r.deep_view() == self@.affinity(ep@),
    {
        if self.route_set.len() != 0 {
            return None;
        }
        let Some(conn) = &self.server_connection else {
            return None;
        };
        if !conn.is_reliable() {
            return None;
        }
        if ep.transport_layer.inner.is_over(conn) {
            return None;
        }
        Some(conn.clone())
    }

    /// The address to name in the Via of the next request.
    pub fn via_addr_for_send_transport(&self, ep: &EndpointInner, addrs: &Vec<SipAddr>) -> (r:
        Option<SipAddr>)
        ensures
            r.deep_view() == self@.via_addr(ep@, addrs.deep_view()),
    {
        let transport = match self.resolve_affinity_connection(ep) {
            Some(connection) => connection.get_addr().transport,
            None => if ep.has_locator {
                None
            } else {
                match &ep.transport_layer.outbound {
                    Some(outbound) => outbound.transport,
                    None => if self.route_set.len() > 0 {
                        assert(self.route_set.deep_view()[0] == self.route_set[0].deep_view());
                        match &self.route_set[0] {
                            Field::Typed(route) => route.uri.transport(),
                            Field::Malformed(_) => None,
                        }
                    } else {
                        self.remote_uri.transport()
                    },
                }
            },
        };
        match transport {
            Some(t) if t != Transport::Udp => find_addr(addrs, t),
            _ => None,
        }
    }
}

/// A dialog that is over stays over, whatever it is to enter, and its user is
/// told of nothing more.
pub proof fn law_nothing_is_entered_after_terminated(d: DialogView, state: DialogStateView)
    requires
        d.state is Terminated,
    ensures
        d.enter(state) == d,
        d.tell(state) == d,
{
}

/// A confirmed dialog does not go back to waiting for an ACK, and its user is
/// not told of the attempt.
pub proof fn law_confirmed_does_not_wait_for_ack(
    d: DialogView,
    id: DialogIdView,
    resp: ResponseView,
)
    requires
        d.state is Confirmed,
    ensures
        d.enter(DialogStateView::WaitAck(id, resp)) == d,
{
}

/// Each state that a dialog enters is told of once, in the order of entering.
pub proof fn law_entered_states_are_told_of_in_order(d: DialogView, state: DialogStateView)
    ensures
        d.enter(state) == d || d.enter(state).notifications == d.notifications.push(state),
        d.enter(state).state != d.state ==> d.enter(state).state == state
            && d.enter(state).notifications == d.notifications.push(state),
{
}

/// The numbers of a dialog's requests grow, up to the end of their range.
pub proof fn law_request_numbers_grow(n: u32)
    requires
        n < u32::MAX,
    ensures
        next_seq(n) == n + 1,
{
}

/// A dialog never takes its own identifier for the peer's.
pub proof fn law_own_session_id_is_not_the_peers(d: DialogView, peer: Option<Seq<char>>)
    requires
        d.session_id matches Some(s) ==> s.remote != Some(s.local),
    ensures
        d.observe_peer(peer).session_id matches Some(s) ==> s.remote != Some(s.local),
{
}

/// A state is told as the dialog's name with the name of the state in brackets; a
/// dialog that is over says why.
pub proof fn law_states_are_told_in_words(
    id: DialogIdView,
    req: RequestView,
    resp: ResponseView,
    handle: TransactionHandle,
    reason: TerminatedReason,
    status: StatusCode,
)
    ensures
        DialogStateView::Calling(id).text() == id.text() + "(Calling)"@,
        DialogStateView::Trying(id).text() == id.text() + "(Trying)"@,
        DialogStateView::Early(id, resp).text() == id.text() + "(Early)"@,
        DialogStateView::WaitAck(id, resp).text() == id.text() + "(WaitAck)"@,
        DialogStateView::Confirmed(id, resp).text() == id.text() + "(Confirmed)"@,
        DialogStateView::Updated(id, req, handle).text() == id.text() + "(Updated)"@,
        DialogStateView::Publish(id, req, handle).text() == id.text() + "(Publish)"@,
        DialogStateView::Notify(id, req, handle).text() == id.text() + "(Notify)"@,
        DialogStateView::Info(id, req, handle).text() == id.text() + "(Info)"@,
        DialogStateView::Options(id, req, handle).text() == id.text() + "(Options)"@,
        DialogStateView::Refer(id, req, handle).text() == id.text() + "(Refer)"@,
        DialogStateView::Message(id, req, handle).text() == id.text() + "(Message)"@,
        DialogStateView::Terminated(id, reason).text() == id.text() + ("(Terminated "@
            + reason.spec_name() + ")"@),
        TerminatedReason::Timeout.spec_name() == "Timeout"@ && TerminatedReason::UacCancel.spec_name()
            == "UacCancel"@ && TerminatedReason::UacBye.spec_name() == "UacBye"@
            && TerminatedReason::UasBye.spec_name() == "UasBye"@
            && TerminatedReason::UacBusy.spec_name() == "UacBusy"@
            && TerminatedReason::UasBusy.spec_name() == "UasBusy"@
            && TerminatedReason::UasDecline.spec_name() == "UasDecline"@
            && TerminatedReason::ProxyAuthRequired.spec_name() == "ProxyAuthRequired"@,
        TerminatedReason::ProxyError(status).spec_name() == "ProxyError("@ + status.spec_name()
            + ")"@,
        TerminatedReason::UacOther(status).spec_name() == "UacOther("@ + status.spec_name() + ")"@,
        TerminatedReason::UasOther(status).spec_name() == "UasOther("@ + status.spec_name() + ")"@,
{
}

/// Whatever a dialog is at, it is at it under its own name.
pub proof fn law_state_names_its_dialog(
    id: DialogIdView,
    req: RequestView,
    resp: ResponseView,
    handle: TransactionHandle,
    reason: TerminatedReason,
)
    ensures
        DialogStateView::Calling(id).id() == id && DialogStateView::Trying(id).id() == id
            && DialogStateView::Early(id, resp).id() == id && DialogStateView::WaitAck(
            id,
            resp,
        ).id() == id && DialogStateView::Confirmed(id, resp).id() == id,
        DialogStateView::Updated(id, req, handle).id() == id && DialogStateView::Info(
            id,
            req,
            handle,
        ).id() == id && DialogStateView::Refer(id, req, handle).id() == id
            && DialogStateView::Message(id, req, handle).id() == id && DialogStateView::Notify(
            id,
            req,
            handle,
        ).id() == id && DialogStateView::Options(id, req, handle).id() == id
            && DialogStateView::Publish(id, req, handle).id() == id,
        DialogStateView::Terminated(id, reason).id() == id,
{
}

}

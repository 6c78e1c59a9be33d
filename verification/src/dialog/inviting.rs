//! The INVITE of a client, from its sending to its final response.

use super::dialog;
use super::dialog::{
    DialogInner, DialogState, DialogStateView, DialogView, TerminatedReason,
};
use super::exchange;
use super::id;
use super::id::{DialogId, DialogIdView};
use super::invite_dialog;
use super::invite_dialog::InviteDialog;
use crate::error;
use crate::error::{Error, ErrorView};
use crate::sip::message;
use crate::sip::message::{
    Request, RequestView, Response, ResponseView, SipMessage, SipMessageView,
};
use crate::sip::status::{StatusCode, StatusCodeKind};
use crate::sip::uri::NameAddrView;
use crate::transaction::endpoint::{EndpointInner, EndpointView};
use crate::transaction::key::TransactionRole;
use crate::transport::connection::{SipConnection, SipConnectionView};
use crate::transport::sip_addr::{SipAddr, SipAddrView};
use vstd::prelude::*;
use vstd::string::*;

verus! {

/// An INVITE that waits for its final response.
pub struct Invitation {
    pub auth_sent: bool,
    /// The name of the dialog, as far as it is known.
    pub dialog_id: DialogId,
    /// A provisional response that the user is told of once its PRACK is
    /// through.
    pub provisional: Option<Response>,
}

#[verifier::ext_equal]
pub struct InvitationView {
    pub auth_sent: bool,
    pub dialog_id: DialogIdView,
    pub provisional: Option<ResponseView>,
}

impl View for Invitation {
    type V = InvitationView;

    open spec fn view(&self) -> InvitationView {
        InvitationView {
            auth_sent: self.auth_sent,
            dialog_id: self.dialog_id@,
            provisional: self.provisional.deep_view(),
        }
    }
}

/// What is to be done next.
pub enum InviteStep {
    /// Send the transaction of the INVITE, and call
    /// [`InviteDialog::invite_sent`].
    Send,
    /// Wait for a message of the transaction, and call
    /// [`InviteDialog::invite_message`].
    Receive,
    /// Send this PRACK, from [`DialogInner::send_prack_request`] on, and call
    /// [`InviteDialog::invite_pracked`].
    Prack { request: Request },
    /// Answer the challenge in `response` with a new transaction whose request
    /// has the number `seq`, send it, and call
    /// [`InviteDialog::invite_authenticated`].
    Authenticate { seq: u32, response: Response },
    /// The dialog has this name, and the INVITE got this final response.
    Done(Result<(DialogId, Option<Response>), Error>),
}

#[verifier::ext_equal]
pub enum InviteStepView {
    Send,
    Receive,
    Prack { request: RequestView },
    Authenticate { seq: u32, response: ResponseView },
    Done(Result<(DialogIdView, Option<ResponseView>), ErrorView>),
}

impl View for InviteStep {
    type V = InviteStepView;

    open spec fn view(&self) -> InviteStepView {
        match self {
            InviteStep::Send => InviteStepView::Send,
            InviteStep::Receive => InviteStepView::Receive,
            InviteStep::Prack { request } => InviteStepView::Prack { request: request@ },
            InviteStep::Authenticate { seq, response } => InviteStepView::Authenticate {
                seq: *seq,
                response: response@,
            },
            InviteStep::Done(r) => InviteStepView::Done(error::result_view(*r)),
        }
    }
}

/// The start of an INVITE. Only a client sends one.
pub open spec fn invite_started(d: DialogView) -> (DialogView, InvitationView, InviteStepView) {
    let q = InvitationView { auth_sent: false, dialog_id: d.id, provisional: None };
    if d.role == TransactionRole::Client {
        (d.enter(DialogStateView::Calling(d.id)), q, InviteStepView::Send)
    } else {
        (
            d,
            q,
            InviteStepView::Done(
                Err(
                    ErrorView::DialogError(
                        "process_invite requires a UAC (Client) dialog"@,
                        d.id,
                        StatusCode::ServerInternalError,
                    ),
                ),
            ),
        )
    }
}

/// The INVITE is out, over the connection given, or could not be sent.
pub open spec fn invite_sent(
    d: DialogView,
    connection: Option<SipConnectionView>,
    r: Result<(), ErrorView>,
) -> (DialogView, InviteStepView) {
    match r {
        Err(e) => (d, InviteStepView::Done(Err(e))),
        Ok(_) => (d.over(connection), InviteStepView::Receive),
    }
}

/// The challenge is answered by the request `original`, which goes out over the
/// connection given. The peer's tag is no longer known.
pub open spec fn invite_authenticated(
    d: DialogView,
    connection: Option<SipConnectionView>,
    original: RequestView,
    r: Result<(), ErrorView>,
) -> (DialogView, InviteStepView) {
    match r {
        Err(e) => (d, InviteStepView::Done(Err(e))),
        Ok(_) => (
            DialogView {
                initial_request: original,
                ..d.over(connection).with_remote_tag(Seq::empty())
            },
            InviteStepView::Receive,
        ),
    }
}

/// The client rings.
pub open spec fn in_early(d: DialogView, resp: ResponseView) -> DialogView {
    d.enter(DialogStateView::Early(d.id, resp))
}

/// A provisional response, other than 100, to the INVITE.
pub open spec fn invite_provisional(
    d: DialogView,
    ep: EndpointView,
    addrs: Seq<SipAddrView>,
    branch: Seq<char>,
    q: InvitationView,
    resp: ResponseView,
) -> (DialogView, InvitationView, InviteStepView) {
    let (after, prack) = exchange::provisional(d, ep, addrs, branch, resp);
    match prack {
        Err(e) => (after, q, InviteStepView::Done(Err(e))),
        Ok(Some(request)) => (
            after,
            InvitationView { provisional: Some(resp), ..q },
            InviteStepView::Prack { request },
        ),
        Ok(None) => (in_early(after, resp), q, InviteStepView::Receive),
    }
}

/// A challenge to the INVITE: it is answered once, if there are credentials, and
/// is the final response if not.
pub open spec fn invite_challenged(d: DialogView, q: InvitationView, resp: ResponseView) -> (
    DialogView,
    InvitationView,
    InviteStepView,
) {
    let tried = InvitationView { auth_sent: true, ..q };
    if q.auth_sent || d.credential is None {
        (exchange::auth_refused(d), tried, InviteStepView::Done(Ok((q.dialog_id, Some(resp)))))
    } else {
        let seq = dialog::next_seq(d.local_seq);
        (
            DialogView { local_seq: seq, ..d },
            tried,
            InviteStepView::Authenticate { seq, response: resp },
        )
    }
}

/// The name that the dialog has by a response, or else the one that it had.
pub open spec fn named_by(resp: ResponseView, before: DialogIdView) -> DialogIdView {
    match id::dialog_of(resp.headers, TransactionRole::Client) {
        Ok(id) => id,
        Err(_) => before,
    }
}

/// The final response to the INVITE: a 2xx establishes the dialog, and any other
/// ends it.
pub open spec fn invite_answered(d: DialogView, q: InvitationView, resp: ResponseView) -> (
    DialogView,
    InvitationView,
    InviteStepView,
) {
    let (d, tag) = invite_dialog::with_tag_of(d, resp);
    match tag {
        Err(e) => (d, q, InviteStepView::Done(Err(e))),
        Ok(_) => {
            let name = named_by(resp, q.dialog_id);
            let q = InvitationView { dialog_id: name, ..q };
            let done = InviteStepView::Done(Ok((name, Some(resp))));
            if resp.status_code.spec_kind() == StatusCodeKind::Successful {
                let (d, target) = invite_dialog::with_target_of_2xx(d, resp);
                match target {
                    Err(e) => (d, q, InviteStepView::Done(Err(e))),
                    Ok(_) => (d.enter(DialogStateView::Confirmed(name, resp)), q, done),
                }
            } else {
                (
                    d.enter(
                        DialogStateView::Terminated(
                            d.id,
                            TerminatedReason::UasOther(resp.status_code),
                        ),
                    ),
                    q,
                    done,
                )
            }
        },
    }
}

/// A message of the INVITE's transaction, or its end.
pub open spec fn invite_message(
    d: DialogView,
    ep: EndpointView,
    addrs: Seq<SipAddrView>,
    branch: Seq<char>,
    q: InvitationView,
    msg: Option<SipMessageView>,
) -> (DialogView, InvitationView, InviteStepView) {
    match msg {
        None => (d, q, InviteStepView::Done(Ok((q.dialog_id, None)))),
        Some(SipMessageView::Request(_)) => (d, q, InviteStepView::Receive),
        Some(SipMessageView::Response(resp)) => if resp.status_code == StatusCode::Trying {
            (d.enter(DialogStateView::Trying(d.id)), q, InviteStepView::Receive)
        } else if resp.status_code.spec_kind() == StatusCodeKind::Provisional {
            invite_provisional(d, ep, addrs, branch, q, resp)
        } else if exchange::is_challenge(resp.status_code) {
            invite_challenged(d, q, resp)
        } else {
            invite_answered(d, q, resp)
        },
    }
}

/// The PRACK of a provisional response is through, or failed.
pub open spec fn invite_pracked(d: DialogView, q: InvitationView, r: Result<(), ErrorView>) -> (
    DialogView,
    InvitationView,
    InviteStepView,
) {
    match r {
        Err(e) => (d, q, InviteStepView::Done(Err(e))),
        Ok(_) => (
            match q.provisional {
                Some(resp) => in_early(d, resp),
                None => d,
            },
            InvitationView { provisional: None, ..q },
            InviteStepView::Receive,
        ),
    }
}

impl InviteDialog {
    /// Starts the INVITE.
    pub fn process_invite(&mut self) -> (r: (Invitation, InviteStep))
        ensures
            (final(self)@, r.0@, r.1@) == invite_started(old(self)@),
    {
        let q = Invitation { auth_sent: false, dialog_id: self.id(), provisional: None };
        if self.role() != TransactionRole::Client {
            let e = Error::DialogError(
                "process_invite requires a UAC (Client) dialog".to_owned(),
                self.id(),
                StatusCode::ServerInternalError,
            );
            return (q, InviteStep::Done(Err(e)));
        }
        let id = self.id();
        self.inner.transition(DialogState::Calling(id));
        (q, InviteStep::Send)
    }

    /// Goes on once the INVITE is out, over the connection of its transaction,
    /// or could not be sent.
    pub fn invite_sent(&mut self, connection: Option<SipConnection>, r: Result<(), Error>) -> (step:
        InviteStep)
        ensures
            (final(self)@, step@) == invite_sent(
                old(self)@,
                connection.deep_view(),
                error::result_view(r),
            ),
    {
        match r {
            Err(e) => InviteStep::Done(Err(e)),
            Ok(()) => {
                self.inner.set_server_connection(connection);
                InviteStep::Receive
            },
        }
    }

    /// Goes on once the challenge is answered by a new transaction, with its
    /// connection and its request, or could not be.
    pub fn invite_authenticated(
        &mut self,
        connection: Option<SipConnection>,
        original: &Request,
        r: Result<(), Error>,
    ) -> (step: InviteStep)
        ensures
            (final(self)@, step@) == invite_authenticated(
                old(self)@,
                connection.deep_view(),
                original@,
                error::result_view(r),
            ),
    {
        match r {
            Err(e) => InviteStep::Done(Err(e)),
            Ok(()) => {
                proof {
                    reveal_strlit("");
                    assert(""@ == Seq::<char>::empty());
                }
                self.inner.set_server_connection(connection);
                self.inner.update_remote_tag("");
                self.inner.initial_request = original.clone();
                InviteStep::Receive
            },
        }
    }

    fn ring(&mut self, resp: Response)
        ensures
            final(self)@ == in_early(old(self)@, resp@),
    {
        let id = self.id();
        self.inner.transition(DialogState::Early(id, resp));
    }

    fn invite_provisional(
        &mut self,
        ep: &EndpointInner,
        addrs: &Vec<SipAddr>,
        branch: &String,
        q: &mut Invitation,
        resp: Response,
    ) -> (step: InviteStep)
        ensures
            (final(self)@, final(q)@, step@) == invite_provisional(
                old(self)@,
                ep@,
                addrs.deep_view(),
                branch@,
                old(q)@,
                resp@,
            ),
    {
        match self.inner.handle_provisional_response(ep, addrs, branch, &resp) {
            Err(e) => InviteStep::Done(Err(e)),
            Ok(Some(request)) => {
                q.provisional = Some(resp);
                InviteStep::Prack { request }
            },
            Ok(None) => {
                self.ring(resp);
                InviteStep::Receive
            },
        }
    }

    fn invite_challenged(&mut self, q: &mut Invitation, resp: Response) -> (step: InviteStep)
        ensures
            (final(self)@, final(q)@, step@) == invite_challenged(old(self)@, old(q)@, resp@),
    {
        if q.auth_sent || self.inner.credential.is_none() {
            q.auth_sent = true;
            let id = self.id();
            self.inner.transition(
                DialogState::Terminated(id, TerminatedReason::ProxyAuthRequired),
            );
            return InviteStep::Done(Ok((q.dialog_id.clone(), Some(resp))));
        }
        q.auth_sent = true;
        let seq: u32 = self.inner.increment_local_seq();
        InviteStep::Authenticate { seq, response: resp }
    }

    fn invite_answered(&mut self, q: &mut Invitation, resp: Response) -> (step: InviteStep)
        ensures
            (final(self)@, final(q)@, step@) == invite_answered(old(self)@, old(q)@, resp@),
    {
        if let Err(e) = self.take_tag_of(&resp) {
            return InviteStep::Done(Err(e));
        }
        if let Ok(id) = DialogId::from_response(&resp, TransactionRole::Client) {
            q.dialog_id = id;
        }
        if resp.status_code.kind() == StatusCodeKind::Successful {
            if let Err(e) = self.update_remote_target_from_2xx(&resp) {
                return InviteStep::Done(Err(e));
            }
            let state = DialogState::Confirmed(q.dialog_id.clone(), resp.clone());
            self.inner.transition(state);
        } else {
            let id = self.id();
            self.inner.transition(
                DialogState::Terminated(id, TerminatedReason::UasOther(resp.status_code)),
            );
        }
        InviteStep::Done(Ok((q.dialog_id.clone(), Some(resp))))
    }

    /// Takes the next message of the INVITE's transaction, or its end.
    pub fn invite_message(
        &mut self,
        ep: &EndpointInner,
        addrs: &Vec<SipAddr>,
        branch: &String,
        q: &mut Invitation,
        msg: Option<SipMessage>,
    ) -> (step: InviteStep)
        ensures
            (final(self)@, final(q)@, step@) == invite_message(
                old(self)@,
                ep@,
                addrs.deep_view(),
                branch@,
                old(q)@,
                msg.deep_view(),
            ),
    {
        match msg {
            None => InviteStep::Done(Ok((q.dialog_id.clone(), None))),
            Some(SipMessage::Request(_)) => InviteStep::Receive,
            Some(SipMessage::Response(resp)) => {
                if resp.status_code == StatusCode::Trying {
                    let id = self.id();
                    self.inner.transition(DialogState::Trying(id));
                    InviteStep::Receive
                } else if resp.status_code.kind() == StatusCodeKind::Provisional {
                    self.invite_provisional(ep, addrs, branch, q, resp)
                } else if exchange::asks_for_credentials(resp.status_code) {
                    self.invite_challenged(q, resp)
                } else {
                    self.invite_answered(q, resp)
                }
            },
        }
    }

    /// Goes on once the PRACK is through, or failed.
    pub fn invite_pracked(&mut self, q: &mut Invitation, r: Result<(), Error>) -> (step: InviteStep)
        ensures
            (final(self)@, final(q)@, step@) == invite_pracked(
                old(self)@,
                old(q)@,
                error::result_view(r),
            ),
    {
        match r {
            Err(e) => InviteStep::Done(Err(e)),
            Ok(()) => {
                if let Some(resp) = q.provisional.take() {
                    self.ring(resp);
                }
                InviteStep::Receive
            },
        }
    }
}

/// A challenge that comes when there are no credentials, or again after they
/// were sent, is final: the caller gets the challenge as the response, the dialog
/// is over, and nothing more is sent.
pub proof fn law_challenge_without_answer_is_final(
    d: DialogView,
    ep: EndpointView,
    addrs: Seq<SipAddrView>,
    branch: Seq<char>,
    q: InvitationView,
    resp: ResponseView,
)
    requires
        exchange::is_challenge(resp.status_code),
        d.credential is None || q.auth_sent,
    ensures
        ({
            let (after, _, step) = invite_message(
                d,
                ep,
                addrs,
                branch,
                q,
                Some(SipMessageView::Response(resp)),
            );
            &&& step == InviteStepView::Done(Ok((q.dialog_id, Some(resp))))
            &&& after.state is Terminated
            &&& !(d.state is Terminated) ==> after.state == DialogStateView::Terminated(
                d.id,
                TerminatedReason::ProxyAuthRequired,
            )
        }),
{
}

/// Any 2xx to the INVITE that names the peer's Contact establishes the call: the
/// caller gets the 2xx, the dialog is confirmed with it, and the requests to come
/// go to that Contact.
pub proof fn law_2xx_establishes_the_call(
    d: DialogView,
    ep: EndpointView,
    addrs: Seq<SipAddrView>,
    branch: Seq<char>,
    q: InvitationView,
    resp: ResponseView,
    contact: NameAddrView,
)
    requires
        !(d.state is Terminated),
        resp.status_code.spec_kind() == StatusCodeKind::Successful,
        message::to_tag_of(resp.headers) is Ok,
        message::contact_of(resp.headers) == Ok::<_, ErrorView>(Some(contact)),
    ensures
        ({
            let (after, _, step) = invite_message(
                d,
                ep,
                addrs,
                branch,
                q,
                Some(SipMessageView::Response(resp)),
            );
            let name = named_by(resp, q.dialog_id);
            &&& step == InviteStepView::Done(Ok((name, Some(resp))))
            &&& after.state == DialogStateView::Confirmed(name, resp)
            &&& after.notifications == d.notifications.push(after.state)
            &&& after.remote_uri == contact.uri
        }),
{
}

/// The credentials are sent at most once for an INVITE.
pub proof fn law_credentials_are_sent_once(
    d: DialogView,
    ep: EndpointView,
    addrs: Seq<SipAddrView>,
    branch: Seq<char>,
    q: InvitationView,
    msg: Option<SipMessageView>,
)
    ensures
        ({
            let (_, after, step) = invite_message(d, ep, addrs, branch, q, msg);
            &&& step is Authenticate ==> !q.auth_sent && after.auth_sent
            &&& q.auth_sent ==> after.auth_sent
        }),
{
}

}

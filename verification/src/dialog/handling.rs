//! Requests that the peer sends within a dialog of an INVITE.

use super::dialog::{
    DialogInner, DialogState, DialogStateView, DialogView, TerminatedReason, TransactionCommand,
    TransactionHandle,
};
use super::invite_dialog;
use super::invite_dialog::{DialogAndEndpoint, InviteDialog};
use super::requests;
use super::responses;
use crate::error;
use crate::error::{Error, ErrorView};
use crate::sip::basic::Method;
use crate::sip::header;
use crate::sip::header::HeaderView;
use crate::sip::message;
use crate::sip::message::{
    Request, RequestView, Response, ResponseView, SipMessage, SipMessageView,
};
use crate::sip::status::{StatusCode, StatusCodeKind};
use crate::transaction::endpoint::{
    EndpointInner, EndpointView, TransactionEvent, TransactionEventView,
};
use crate::transaction::key::TransactionRole;
use crate::transaction::transaction::{Transaction, TransactionView};
use crate::transport::sip_addr::{SipAddr, SipAddrView};
use vstd::prelude::*;
use vstd::string::*;

verus! {

/// What follows the user's answer to a request.
#[derive(Clone, Copy, Debug, PartialEq, Eq, Structural)]
pub enum After {
    Nothing,
    /// The dialog is established, as it was.
    Confirm,
    /// The answer to a re-INVITE is acknowledged.
    Ack,
}

/// How far the handling of a request has come.
pub enum Handling {
    /// A reply is on its way; this comes after it.
    Replying(Result<(), Error>),
    /// The user is to say what to answer, within so many milliseconds.
    Asking { after: After, within: u64 },
    /// The user's answer is on its way.
    Answering { is_final: bool, after: After, within: u64 },
    /// The user said nothing, and 501 is on its way.
    Declining(After),
    /// A re-INVITE waits for its ACK.
    AwaitingAck { answered_2xx: bool },
    /// 100 is on its way.
    Trying,
    /// An INVITE waits for its ACK, or for a CANCEL.
    Inviting,
    /// 487 is on its way.
    Cancelling,
    /// The BYE of a call without ACK is on its way.
    Ending,
    Over,
}

#[verifier::ext_equal]
pub enum HandlingView {
    Replying(Result<(), ErrorView>),
    Asking { after: After, within: u64 },
    Answering { is_final: bool, after: After, within: u64 },
    Declining(After),
    AwaitingAck { answered_2xx: bool },
    Trying,
    Inviting,
    Cancelling,
    Ending,
    Over,
}

impl View for Handling {
    type V = HandlingView;

    open spec fn view(&self) -> HandlingView {
        match self {
            Handling::Replying(r) => HandlingView::Replying(error::result_view(*r)),
            Handling::Asking { after, within } => HandlingView::Asking {
                after: *after,
                within: *within,
            },
            Handling::Answering { is_final, after, within } => HandlingView::Answering {
                is_final: *is_final,
                after: *after,
                within: *within,
            },
            Handling::Declining(a) => HandlingView::Declining(*a),
            Handling::AwaitingAck { answered_2xx } => HandlingView::AwaitingAck {
                answered_2xx: *answered_2xx,
            },
            Handling::Trying => HandlingView::Trying,
            Handling::Inviting => HandlingView::Inviting,
            Handling::Cancelling => HandlingView::Cancelling,
            Handling::Ending => HandlingView::Ending,
            Handling::Over => HandlingView::Over,
        }
    }
}

/// What is to be done next.
pub enum HandleStep {
    /// Reply to the transaction with a status, and call
    /// [`InviteDialog::handle_sent`].
    Reply(StatusCode),
    /// Answer the transaction with a response, and call
    /// [`InviteDialog::handle_sent`].
    Respond(Response),
    /// Send 100 on the transaction, and call [`InviteDialog::handle_sent`].
    Trying,
    /// Wait for the user's command, until `within` milliseconds after the user
    /// was first asked about this request, and call
    /// [`InviteDialog::handle_command`].
    Ask { within: u64 },
    /// Wait for a message of the transaction, and call
    /// [`InviteDialog::handle_message`].
    Receive,
    /// Send this BYE, from [`DialogInner::do_request`] on, and call
    /// [`InviteDialog::handle_ended`].
    Bye(Request),
    Done(Result<(), Error>),
}

#[verifier::ext_equal]
pub enum HandleStepView {
    Reply(StatusCode),
    Respond(ResponseView),
    Trying,
    Ask { within: u64 },
    Receive,
    Bye(RequestView),
    Done(Result<(), ErrorView>),
}

impl View for HandleStep {
    type V = HandleStepView;

    open spec fn view(&self) -> HandleStepView {
        match self {
            HandleStep::Reply(s) => HandleStepView::Reply(*s),
            HandleStep::Respond(r) => HandleStepView::Respond(r@),
            HandleStep::Trying => HandleStepView::Trying,
            HandleStep::Ask { within } => HandleStepView::Ask { within: *within },
            HandleStep::Receive => HandleStepView::Receive,
            HandleStep::Bye(r) => HandleStepView::Bye(r@),
            HandleStep::Done(r) => HandleStepView::Done(error::result_view(*r)),
        }
    }
}

/// A dialog, how far a request has come, and what to do next.
pub type Handled = (DialogView, HandlingView, HandleStepView);

pub open spec fn finished(d: DialogView, r: Result<(), ErrorView>) -> Handled {
    (d, HandlingView::Over, HandleStepView::Done(r))
}

/// The request gets a status, and nothing more.
pub open spec fn replied(d: DialogView, status: StatusCode, then: Result<(), ErrorView>) -> Handled {
    (d, HandlingView::Replying(then), HandleStepView::Reply(status))
}

/// The user is told of the request and asked for the answer, which is due within
/// so many milliseconds.
pub open spec fn asked(
    d: DialogView,
    state: DialogStateView,
    after: After,
    within: u64,
) -> Handled {
    (d.enter(state), HandlingView::Asking { after, within }, HandleStepView::Ask { within })
}

/// The peer ends the call.
pub open spec fn bye_received(d: DialogView) -> Handled {
    replied(
        d.enter(
            DialogStateView::Terminated(
                d.id,
                match d.role {
                    TransactionRole::Server => TerminatedReason::UacBye,
                    TransactionRole::Client => TerminatedReason::UasBye,
                },
            ),
        ),
        StatusCode::OK,
        Ok(()),
    )
}

/// A PRACK is answered with 200 if it has a RAck that can be read.
pub open spec fn prack_received(d: DialogView, headers: Seq<HeaderView>) -> Handled {
    let status = match header::first_rack(headers) {
        Some(v) if message::is_rack(v) => StatusCode::OK,
        _ => StatusCode::BadRequest,
    };
    replied(d, status, Ok(()))
}

/// A request within an established call. The user has `within` milliseconds to
/// answer one that is the user's to answer.
pub open spec fn call_received(
    d: DialogView,
    req: RequestView,
    handle: TransactionHandle,
    within: u64,
) -> Handled {
    match req.method {
        Method::Cancel => match d.role {
            TransactionRole::Server => replied(d, StatusCode::OK, Ok(())),
            TransactionRole::Client => finished(d, Ok(())),
        },
        Method::Ack => finished(
            d,
            match d.role {
                TransactionRole::Server => Err(
                    ErrorView::DialogError(
                        "invalid request in confirmed state"@,
                        d.id,
                        StatusCode::MethodNotAllowed,
                    ),
                ),
                TransactionRole::Client => Ok(()),
            },
        ),
        Method::Invite => asked(d, DialogStateView::Updated(d.id, req, handle), After::Ack, within),
        Method::Bye => bye_received(d),
        Method::PRack => prack_received(d, req.headers),
        Method::Info => asked(d, DialogStateView::Info(d.id, req, handle), After::Confirm, within),
        Method::Options => asked(d, DialogStateView::Options(d.id, req, handle), After::Nothing, within),
        Method::Update => asked(d, DialogStateView::Updated(d.id, req, handle), After::Confirm, within),
        Method::Refer => asked(d, DialogStateView::Refer(d.id, req, handle), After::Confirm, within),
        Method::Message => asked(d, DialogStateView::Message(d.id, req, handle), After::Confirm, within),
        Method::Notify => asked(d, DialogStateView::Notify(d.id, req, handle), After::Confirm, within),
        _ => replied(
            d,
            StatusCode::MethodNotAllowed,
            Err(
                ErrorView::DialogError("invalid request"@, d.id, StatusCode::MethodNotAllowed),
            ),
        ),
    }
}

/// The INVITE of a server dialog: it is told of once more, and 100 is sent if
/// nothing else has been.
pub open spec fn invite_received(d: DialogView, tx: TransactionView) -> Handled {
    if d.state is Calling {
        let d = d.enter(DialogStateView::Calling(d.id));
        if tx.last_response is None {
            (d, HandlingView::Trying, HandleStepView::Trying)
        } else {
            (d, HandlingView::Inviting, HandleStepView::Receive)
        }
    } else {
        (d, HandlingView::Inviting, HandleStepView::Receive)
    }
}

/// A request to a server whose call is not established.
pub open spec fn early_received(p: DialogAndEndpoint, tx: TransactionView, is_open: bool) -> (
    EndpointView,
    Handled,
) {
    let (d, ep) = p;
    match tx.original.method {
        Method::Invite => (ep, invite_received(d, tx)),
        Method::PRack => (ep, prack_received(d, tx.original.headers)),
        Method::Ack => if is_open {
            (
                ep.post(
                    d.tu_channel,
                    TransactionEventView::Received(
                        SipMessageView::Request(tx.original),
                        tx.connection,
                    ),
                ),
                finished(d, Ok(())),
            )
        } else {
            (ep, finished(d, Err(invite_dialog::channel_closed())))
        },
        Method::Bye => (ep, bye_received(d)),
        _ => (ep, finished(d, Ok(()))),
    }
}

/// The peer's Session-ID is taken over from a request, but not from a CANCEL.
pub open spec fn observed(d: DialogView, req: RequestView) -> DialogView {
    if req.method == Method::Cancel {
        d
    } else {
        d.observe_peer(message::peer_uuid_of(req.headers))
    }
}

/// A request that the peer sends within the dialog. One that is older than the
/// last is refused by a client and ignored by a server.
#[verifier::opaque]
pub open spec fn handled(
    p: DialogAndEndpoint,
    tx: TransactionView,
    handle: TransactionHandle,
    is_open: bool,
) -> (EndpointView, Handled) {
    let req = tx.original;
    let d = observed(p.0, req);
    match message::cseq_of(req.headers) {
        Err(e) => (p.1, finished(d, Err(e))),
        Ok(cseq) => if d.remote_seq > 0 && cseq.seq < d.remote_seq {
            (
                p.1,
                match d.role {
                    TransactionRole::Server => finished(d, Ok(())),
                    TransactionRole::Client => replied(
                        d,
                        StatusCode::ServerInternalError,
                        Ok(()),
                    ),
                },
            )
        } else {
            let d = DialogView { remote_seq: cseq.seq, ..d };
            if d.state is Confirmed {
                (p.1, call_received(d, req, handle, p.1.option.t1x64))
            } else if d.role == TransactionRole::Server {
                early_received((d, p.1), tx, is_open)
            } else {
                (p.1, finished(d, Ok(())))
            }
        },
    }
}

/// The response that the transaction was last answered with.
pub open spec fn last_answer(tx: TransactionView) -> ResponseView {
    match tx.last_response {
        Some(r) => r,
        None => message::default_response(),
    }
}

/// The dialog is established.
pub open spec fn confirmed(d: DialogView, tx: TransactionView) -> DialogView {
    d.enter(DialogStateView::Confirmed(d.id, last_answer(tx)))
}

/// The user's answer is out, or there is none.
pub open spec fn answer_done(
    d: DialogView,
    tx: TransactionView,
    after: After,
    r: Result<(), ErrorView>,
) -> Handled {
    match after {
        After::Nothing => finished(d, r),
        After::Confirm => finished(confirmed(d, tx), r),
        After::Ack => match r {
            Err(e) => finished(d, Err(e)),
            Ok(_) => (
                d,
                HandlingView::AwaitingAck {
                    answered_2xx: tx.last_response matches Some(resp)
                        && resp.status_code.spec_kind() == StatusCodeKind::Successful,
                },
                HandleStepView::Receive,
            ),
        },
    }
}

/// The user's answer to a request, or none in time.
pub open spec fn commanded(
    d: DialogView,
    user_agent: Seq<char>,
    tx: TransactionView,
    h: HandlingView,
    answer: Option<(StatusCode, Option<Seq<HeaderView>>, Seq<u8>)>,
) -> Handled {
    match (h, answer) {
        (HandlingView::Asking { after, within }, Some((status, headers, body))) => (
            d,
            HandlingView::Answering {
                is_final: status.spec_kind() != StatusCodeKind::Provisional,
                after,
                within,
            },
            HandleStepView::Respond(
                responses::response_in(d, user_agent, tx.original, status, headers, body),
            ),
        ),
        (HandlingView::Asking { after, .. }, None) => (
            d,
            HandlingView::Declining(after),
            HandleStepView::Reply(StatusCode::NotImplemented),
        ),
        _ => (d, h, HandleStepView::Receive),
    }
}

/// A 2xx without an ACK ends the call, with a BYE.
pub open spec fn ended_without_ack(
    d: DialogView,
    ep: EndpointView,
    addrs: Seq<SipAddrView>,
    branch: Seq<char>,
    answered_2xx: bool,
) -> Handled {
    if answered_2xx && !(d.state is Terminated) {
        let (d, bye) = requests::next_request(
            d.enter(DialogStateView::Terminated(d.id, TerminatedReason::Timeout)),
            ep,
            addrs,
            branch,
            Method::Bye,
            None,
            None,
            Seq::empty(),
        );
        match bye {
            Ok(r) => (d, HandlingView::Ending, HandleStepView::Bye(r)),
            Err(_) => finished(d, Ok(())),
        }
    } else {
        finished(d, Ok(()))
    }
}

/// What was to be sent is out, or could not be sent.
pub open spec fn sent(
    d: DialogView,
    tx: TransactionView,
    h: HandlingView,
    r: Result<(), ErrorView>,
) -> Handled {
    match h {
        HandlingView::Replying(then) => finished(
            d,
            match r {
                Ok(_) => then,
                Err(e) => Err(e),
            },
        ),
        HandlingView::Answering { is_final, after, within } => match r {
            Err(_) => (
                d,
                HandlingView::Declining(after),
                HandleStepView::Reply(StatusCode::NotImplemented),
            ),
            Ok(_) => if is_final {
                answer_done(d, tx, after, Ok(()))
            } else {
                (d, HandlingView::Asking { after, within }, HandleStepView::Ask { within })
            },
        },
        HandlingView::Declining(after) => answer_done(d, tx, after, r),
        HandlingView::Trying => (d, HandlingView::Inviting, HandleStepView::Receive),
        HandlingView::Cancelling => match r {
            Err(e) => finished(d, Err(e)),
            Ok(_) => finished(
                d.enter(DialogStateView::Terminated(d.id, TerminatedReason::UacCancel)),
                Ok(()),
            ),
        },
        _ => (d, h, HandleStepView::Receive),
    }
}

/// The ACK is recorded, and the user told that the dialog is established.
pub open spec fn acked(d: DialogView, tx: TransactionView, ack: RequestView) -> Handled {
    finished(confirmed(DialogView { remote_ack: Some(ack), ..d }, tx), Ok(()))
}

/// A message of the transaction, or its end.
pub open spec fn received(
    d: DialogView,
    ep: EndpointView,
    addrs: Seq<SipAddrView>,
    branch: Seq<char>,
    tx: TransactionView,
    h: HandlingView,
    msg: Option<SipMessageView>,
) -> Handled {
    match (h, msg) {
        (
            HandlingView::AwaitingAck { .. },
            Some(SipMessageView::Request(req)),
        ) if req.method == Method::Ack => acked(d, tx, req),
        (HandlingView::AwaitingAck { answered_2xx }, None) => ended_without_ack(
            d,
            ep,
            addrs,
            branch,
            answered_2xx,
        ),
        (
            HandlingView::Inviting,
            Some(SipMessageView::Request(req)),
        ) if req.method == Method::Ack => if d.state is Terminated {
            finished(d, Ok(()))
        } else {
            acked(d, tx, req)
        },
        (
            HandlingView::Inviting,
            Some(SipMessageView::Request(req)),
        ) if req.method == Method::Cancel => (
            d,
            HandlingView::Cancelling,
            HandleStepView::Reply(StatusCode::RequestTerminated),
        ),
        (HandlingView::Inviting, None) => ended_without_ack(
            d,
            ep,
            addrs,
            branch,
            d.state is WaitAck,
        ),
        _ => (d, h, HandleStepView::Receive),
    }
}

pub open spec fn answer_of(cmd: Option<TransactionCommand>) -> Option<
    (StatusCode, Option<Seq<HeaderView>>, Seq<u8>),
> {
    match cmd {
        Some(TransactionCommand::Respond { status, headers, body }) => Some(
            (status, requests::headers_of(headers), requests::body_of(body)),
        ),
        None => None,
    }
}

fn done(r: Result<(), Error>) -> (out: (Handling, HandleStep))
    ensures
        out.0@ == HandlingView::Over,
        out.1@ == HandleStepView::Done(error::result_view(r)),
{
    (Handling::Over, HandleStep::Done(r))
}

fn reply(status: StatusCode, then: Result<(), Error>) -> (out: (Handling, HandleStep))
    ensures
        out.0@ == HandlingView::Replying(error::result_view(then)),
        out.1@ == HandleStepView::Reply(status),
{
    (Handling::Replying(then), HandleStep::Reply(status))
}

impl InviteDialog {
    fn ask(&mut self, state: DialogState, after: After, within: u64) -> (out: (
        Handling,
        HandleStep,
    ))
        ensures
            (final(self)@, out.0@, out.1@) == asked(old(self)@, state@, after, within),
    {
        self.inner.transition(state);
        (Handling::Asking { after, within }, HandleStep::Ask { within })
    }

    fn handle_bye(&mut self) -> (out: (Handling, HandleStep))
        ensures
            (final(self)@, out.0@, out.1@) == bye_received(old(self)@),
    {
        let reason = match self.role() {
            TransactionRole::Server => TerminatedReason::UacBye,
            TransactionRole::Client => TerminatedReason::UasBye,
        };
        let id = self.id();
        self.inner.transition(DialogState::Terminated(id, reason));
        reply(StatusCode::OK, Ok(()))
    }

    fn handle_prack(&mut self, req: &Request) -> (out: (Handling, HandleStep))
        ensures
            (final(self)@, out.0@, out.1@) == prack_received(old(self)@, req@.headers),
    {
        let rack_ok = match header::find_rack(&req.headers) {
            Some(v) => message::rack_is_valid(v.as_str()),
            None => false,
        };
        if rack_ok {
            reply(StatusCode::OK, Ok(()))
        } else {
            reply(StatusCode::BadRequest, Ok(()))
        }
    }

    fn handle_call_request(
        &mut self,
        req: &Request,
        handle: TransactionHandle,
        within: u64,
    ) -> (out: (Handling, HandleStep))
        ensures
            (final(self)@, out.0@, out.1@) == call_received(old(self)@, req@, handle, within),
    {
        let id = self.id();
        match req.method {
            Method::Cancel => match self.role() {
                TransactionRole::Server => reply(StatusCode::OK, Ok(())),
                TransactionRole::Client => done(Ok(())),
            },
            Method::Ack => match self.role() {
                TransactionRole::Server => done(
                    Err(
                        Error::DialogError(
                            "invalid request in confirmed state".to_owned(),
                            id,
                            StatusCode::MethodNotAllowed,
                        ),
                    ),
                ),
                TransactionRole::Client => done(Ok(())),
            },
            Method::Invite => self.ask(DialogState::Updated(id, req.clone(), handle), After::Ack, within),
            Method::Bye => self.handle_bye(),
            Method::PRack => self.handle_prack(req),
            Method::Info => self.ask(DialogState::Info(id, req.clone(), handle), After::Confirm, within),
            Method::Options => {
                self.ask(DialogState::Options(id, req.clone(), handle), After::Nothing, within)
            },
            Method::Update => {
                self.ask(DialogState::Updated(id, req.clone(), handle), After::Confirm, within)
            },
            Method::Refer => self.ask(DialogState::Refer(id, req.clone(), handle), After::Confirm, within),
            Method::Message => {
                self.ask(DialogState::Message(id, req.clone(), handle), After::Confirm, within)
            },
            Method::Notify => {
                self.ask(DialogState::Notify(id, req.clone(), handle), After::Confirm, within)
            },
            _ => reply(
                StatusCode::MethodNotAllowed,
                Err(
                    Error::DialogError(
                        "invalid request".to_owned(),
                        id,
                        StatusCode::MethodNotAllowed,
                    ),
                ),
            ),
        }
    }

    fn handle_invite(&mut self, tx: &Transaction) -> (out: (Handling, HandleStep))
        ensures
            (final(self)@, out.0@, out.1@) == invite_received(old(self)@, tx@),
    {
        if matches!(&self.inner.state, DialogState::Calling(_)) {
            let id = self.id();
            self.inner.transition(DialogState::Calling(id));
            if tx.last_response.is_none() {
                return (Handling::Trying, HandleStep::Trying);
            }
        }
        (Handling::Inviting, HandleStep::Receive)
    }

    fn handle_early_request(
        &mut self,
        ep: &mut EndpointInner,
        tx: &Transaction,
        is_open: bool,
    ) -> (out: (Handling, HandleStep))
        ensures
            (final(ep)@, (final(self)@, out.0@, out.1@)) == early_received(
                (old(self)@, old(ep)@),
                tx@,
                is_open,
            ),
    {
        match tx.original.method {
            Method::Invite => self.handle_invite(tx),
            Method::PRack => self.handle_prack(&tx.original),
            Method::Ack => {
                if !is_open {
                    return done(Err(Error::Error("channel closed".to_owned())));
                }
                ep.post(
                    self.inner.tu_channel,
                    TransactionEvent::Received(
                        SipMessage::Request(tx.original.clone()),
                        tx.connection.clone(),
                    ),
                );
                done(Ok(()))
            },
            Method::Bye => self.handle_bye(),
            _ => done(Ok(())),
        }
    }

    /// Handles the request of a transaction. The user answers it by `handle`;
    /// `is_open` tells whether the transaction that opened the dialog still
    /// runs.
    pub fn handle(
        &mut self,
        ep: &mut EndpointInner,
        tx: &Transaction,
        handle: TransactionHandle,
        is_open: bool,
    ) -> (out: (Handling, HandleStep))
        ensures
            (final(ep)@, (final(self)@, out.0@, out.1@)) == handled(
                (old(self)@, old(ep)@),
                tx@,
                handle,
                is_open,
            ),
    {
        proof {
            reveal(handled);
        }
        if tx.original.method != Method::Cancel {
            let peer = message::peer_uuid(&tx.original.headers);
            self.inner.observe_peer_session_uuid(peer);
        }
        let cseq = match message::cseq(&tx.original.headers) {
            Ok(c) => c,
            Err(e) => return done(Err(e)),
        };
        if self.inner.remote_seq > 0 && cseq.seq < self.inner.remote_seq {
            return match self.role() {
                TransactionRole::Server => done(Ok(())),
                TransactionRole::Client => reply(StatusCode::ServerInternalError, Ok(())),
            };
        }
        self.inner.remote_seq = cseq.seq;
        if self.inner.is_confirmed() {
            self.handle_call_request(&tx.original, handle, ep.option.t1x64)
        } else if self.role() == TransactionRole::Server {
            self.handle_early_request(ep, tx, is_open)
        } else {
            done(Ok(()))
        }
    }

    fn return_to_confirmed(&mut self, tx: &Transaction)
        ensures
            final(self)@ == confirmed(old(self)@, tx@),
    {
        let resp = match &tx.last_response {
            Some(r) => r.clone(),
            None => Response::default(),
        };
        let id = self.id();
        self.inner.transition(DialogState::Confirmed(id, resp));
    }

    fn answer_done(&mut self, tx: &Transaction, after: After, r: Result<(), Error>) -> (out: (
        Handling,
        HandleStep,
    ))
        ensures
            (final(self)@, out.0@, out.1@) == answer_done(
                old(self)@,
                tx@,
                after,
                error::result_view(r),
            ),
    {
        match after {
            After::Nothing => done(r),
            After::Confirm => {
                self.return_to_confirmed(tx);
                done(r)
            },
            After::Ack => match r {
                Err(e) => done(Err(e)),
                Ok(()) => {
                    let answered_2xx = match &tx.last_response {
                        Some(resp) => resp.status_code.kind() == StatusCodeKind::Successful,
                        None => false,
                    };
                    (Handling::AwaitingAck { answered_2xx }, HandleStep::Receive)
                },
            },
        }
    }

    /// Takes the user's answer to the request, or that there is none in time.
    pub fn handle_command(
        &mut self,
        ep: &EndpointInner,
        tx: &Transaction,
        h: Handling,
        cmd: Option<TransactionCommand>,
    ) -> (out: (Handling, HandleStep))
        ensures
            (final(self)@, out.0@, out.1@) == commanded(
                old(self)@,
                ep@.user_agent,
                tx@,
                h@,
                answer_of(cmd),
            ),
    {
        match (h, cmd) {
            (
                Handling::Asking { after, within },
                Some(TransactionCommand::Respond { status, headers, body }),
            ) => {
                let is_final = status.kind() != StatusCodeKind::Provisional;
                let resp = self.inner.make_response(
                    &ep.user_agent,
                    &tx.original,
                    status,
                    headers,
                    body,
                );
                (Handling::Answering { is_final, after, within }, HandleStep::Respond(resp))
            },
            (Handling::Asking { after, .. }, None) => {
                (Handling::Declining(after), HandleStep::Reply(StatusCode::NotImplemented))
            },
            (h, _) => (h, HandleStep::Receive),
        }
    }

    /// Goes on once what was to be sent is out, or could not be sent.
    pub fn handle_sent(&mut self, tx: &Transaction, h: Handling, r: Result<(), Error>) -> (out: (
        Handling,
        HandleStep,
    ))
        ensures
            (final(self)@, out.0@, out.1@) == sent(old(self)@, tx@, h@, error::result_view(r)),
    {
        match h {
            Handling::Replying(then) => match r {
                Ok(()) => done(then),
                Err(e) => done(Err(e)),
            },
            Handling::Answering { is_final, after, within } => {
                if r.is_err() {
                    return (
                        Handling::Declining(after),
                        HandleStep::Reply(StatusCode::NotImplemented),
                    );
                }
                if is_final {
                    self.answer_done(tx, after, Ok(()))
                } else {
                    (Handling::Asking { after, within }, HandleStep::Ask { within })
                }
            },
            Handling::Declining(after) => self.answer_done(tx, after, r),
            Handling::Trying => (Handling::Inviting, HandleStep::Receive),
            Handling::Cancelling => match r {
                Err(e) => done(Err(e)),
                Ok(()) => {
                    let id = self.id();
                    self.inner.transition(
                        DialogState::Terminated(id, TerminatedReason::UacCancel),
                    );
                    done(Ok(()))
                },
            },
            h => (h, HandleStep::Receive),
        }
    }

    fn end_session_without_ack(
        &mut self,
        ep: &EndpointInner,
        addrs: &Vec<SipAddr>,
        branch: &String,
        answered_2xx: bool,
    ) -> (out: (Handling, HandleStep))
        ensures
            (final(self)@, out.0@, out.1@) == ended_without_ack(
                old(self)@,
                ep@,
                addrs.deep_view(),
                branch@,
                answered_2xx,
            ),
    {
        if !answered_2xx || self.inner.is_terminated() {
            return done(Ok(()));
        }
        let id = self.id();
        self.inner.transition(DialogState::Terminated(id, TerminatedReason::Timeout));
        match self.inner.make_request(ep, addrs, branch, Method::Bye, None, None, None) {
            Ok(r) => (Handling::Ending, HandleStep::Bye(r)),
            Err(_) => done(Ok(())),
        }
    }

    fn handle_ack(&mut self, tx: &Transaction, ack: Request) -> (out: (Handling, HandleStep))
        ensures
            (final(self)@, out.0@, out.1@) == acked(old(self)@, tx@, ack@),
    {
        self.inner.remote_ack = Some(ack);
        self.return_to_confirmed(tx);
        done(Ok(()))
    }

    /// Takes the next message of the transaction, or its end.
    pub fn handle_message(
        &mut self,
        ep: &EndpointInner,
        addrs: &Vec<SipAddr>,
        branch: &String,
        tx: &Transaction,
        h: Handling,
        msg: Option<SipMessage>,
    ) -> (out: (Handling, HandleStep))
        ensures
            (final(self)@, out.0@, out.1@) == received(
                old(self)@,
                ep@,
                addrs.deep_view(),
                branch@,
                tx@,
                h@,
                msg.deep_view(),
            ),
    {
        match (h, msg) {
            (Handling::AwaitingAck { answered_2xx }, Some(SipMessage::Request(req))) => {
                if req.method == Method::Ack {
                    return self.handle_ack(tx, req);
                }
                (Handling::AwaitingAck { answered_2xx }, HandleStep::Receive)
            },
            (Handling::AwaitingAck { answered_2xx }, None) => {
                self.end_session_without_ack(ep, addrs, branch, answered_2xx)
            },
            (Handling::Inviting, Some(SipMessage::Request(req))) => {
                if req.method == Method::Ack {
                    if self.inner.is_terminated() {
                        return done(Ok(()));
                    }
                    return self.handle_ack(tx, req);
                }
                if req.method == Method::Cancel {
                    return (
                        Handling::Cancelling,
                        HandleStep::Reply(StatusCode::RequestTerminated),
                    );
                }
                (Handling::Inviting, HandleStep::Receive)
            },
            (Handling::Inviting, None) => {
                let answered_2xx = self.inner.waiting_ack();
                self.end_session_without_ack(ep, addrs, branch, answered_2xx)
            },
            (h, _) => (h, HandleStep::Receive),
        }
    }

    /// Goes on once the BYE is through, or failed.
    pub fn handle_ended(&self) -> (out: (Handling, HandleStep))
        ensures
            out.0@ == HandlingView::Over,
            out.1@ == HandleStepView::Done(Ok(())),
    {
        done(Ok(()))
    }
}

}

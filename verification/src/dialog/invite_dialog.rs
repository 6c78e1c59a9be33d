//! A dialog that an INVITE opens, at either end.
//!
//! What only one end can do is nothing at the other. A method that sends a
//! request hands the request out, to be sent from [`DialogInner::do_request`] on;
//! where the answer matters, a second method takes it.

use super::dialog;
use super::dialog::{
    DialogInner, DialogState, DialogStateView, DialogView, TerminatedReason,
};
use super::id::DialogId;
use super::refer;
use super::requests;
use super::responses;
use super::snapshot;
use super::snapshot::DialogSnapshot;
use crate::error;
use crate::error::{Error, ErrorView};
use crate::sip::basic::Method;
use crate::sip::header;
use crate::sip::header::{CSeq, Field, FieldView, Header, HeaderKind, HeaderView};
use crate::sip::message;
use crate::sip::message::{Request, RequestView, Response, ResponseView};
use crate::sip::status::{StatusCode, StatusCodeKind};
use crate::sip::uri::NameAddr;
use crate::text;
use crate::transaction::endpoint::{
    EndpointInner, EndpointView, TransactionEvent, TransactionEventView,
};
use crate::transaction::ids;
use crate::transaction::key::TransactionRole;
use crate::transport::sip_addr::{SipAddr, SipAddrView};
use vstd::prelude::*;
use vstd::string::*;
use vstd::utf8::*;

verus! {

/// A dialog of an INVITE.
pub struct InviteDialog {
    pub inner: DialogInner,
}

impl View for InviteDialog {
    type V = DialogView;

    open spec fn view(&self) -> DialogView {
        self.inner@
    }
}

/// A request that ends a call, or none.
pub enum Ending {
    Nothing,
    /// Its answer goes to [`InviteDialog::cancel_answered`].
    Cancel(Request),
    /// Its answer goes to [`InviteDialog::bye_answered`].
    Bye(Request),
}

#[verifier::ext_equal]
pub enum EndingView {
    Nothing,
    Cancel(RequestView),
    Bye(RequestView),
}

impl DeepView for Ending {
    type V = EndingView;

    open spec fn deep_view(&self) -> EndingView {
        match self {
            Ending::Nothing => EndingView::Nothing,
            Ending::Cancel(r) => EndingView::Cancel(r@),
            Ending::Bye(r) => EndingView::Bye(r@),
        }
    }
}

/// A dialog with the endpoint that it belongs to.
pub type DialogAndEndpoint = (DialogView, EndpointView);

/// The error for a transaction that is gone.
pub open spec fn channel_closed() -> ErrorView {
    ErrorView::Error("channel closed"@)
}

/// A server tells its transaction to answer the INVITE, and is in `state`. It
/// cannot if the transaction is gone.
pub open spec fn answered(
    p: DialogAndEndpoint,
    is_open: bool,
    resp: ResponseView,
    state: DialogStateView,
) -> (DialogAndEndpoint, Result<(), ErrorView>) {
    if is_open {
        (
            (
                p.0.enter(state),
                p.1.post(p.0.tu_channel, TransactionEventView::Respond(resp)),
            ),
            Ok(()),
        )
    } else {
        (p, Err(channel_closed()))
    }
}

/// A server that has not answered yet rings, with 183 if there is a body and
/// with 180 if not.
pub open spec fn ringing(
    p: DialogAndEndpoint,
    is_open: bool,
    headers: Option<Seq<HeaderView>>,
    body: Option<Seq<u8>>,
) -> (DialogAndEndpoint, Result<(), ErrorView>) {
    if p.0.role == TransactionRole::Server && p.0.state.can_cancel() {
        let status = if body is Some {
            StatusCode::SessionProgress
        } else {
            StatusCode::Ringing
        };
        let resp = responses::response_in(
            p.0,
            p.1.user_agent,
            p.0.initial_request,
            status,
            headers,
            bytes_or_none(body),
        );
        answered(p, is_open, resp, DialogStateView::Early(p.0.id, resp))
    } else {
        (p, Ok(()))
    }
}

pub open spec fn bytes_or_none(body: Option<Seq<u8>>) -> Seq<u8> {
    match body {
        Some(b) => b,
        None => Seq::empty(),
    }
}

pub open spec fn bytes_of(body: Option<Vec<u8>>) -> Option<Seq<u8>> {
    match body {
        Some(b) => Some(b@),
        None => None,
    }
}

/// A server accepts the INVITE, and waits for the ACK.
pub open spec fn accepted(
    p: DialogAndEndpoint,
    is_open: bool,
    headers: Option<Seq<HeaderView>>,
    body: Seq<u8>,
) -> (DialogAndEndpoint, Result<(), ErrorView>) {
    if p.0.role == TransactionRole::Server {
        let resp = responses::response_in(
            p.0,
            p.1.user_agent,
            p.0.initial_request,
            StatusCode::OK,
            headers,
            body,
        );
        answered(p, is_open, resp, DialogStateView::WaitAck(p.0.id, resp))
    } else {
        (p, Ok(()))
    }
}

/// The caller's headers with one more behind them.
pub open spec fn with_one_more(headers: Option<Seq<HeaderView>>, h: HeaderView) -> Option<
    Seq<HeaderView>,
> {
    match headers {
        Some(hs) => Some(hs.push(h)),
        None => Some(seq![h]),
    }
}

/// A server that has neither accepted nor ended rejects the INVITE, with 603
/// unless another status is given.
pub open spec fn rejected(
    p: DialogAndEndpoint,
    code: Option<StatusCode>,
    reason: Option<Seq<char>>,
) -> DialogAndEndpoint {
    if p.0.role != TransactionRole::Server || p.0.state is Terminated || p.0.state is Confirmed {
        p
    } else {
        let resp = responses::response_in(
            p.0,
            p.1.user_agent,
            p.0.initial_request,
            match code {
                Some(c) => c,
                None => StatusCode::Decline,
            },
            match reason {
                Some(r) => Some(seq![HeaderView::Reason(r)]),
                None => None,
            },
            Seq::empty(),
        );
        (
            p.0.enter(DialogStateView::Terminated(p.0.id, TerminatedReason::UasDecline)),
            p.1.post(p.0.tu_channel, TransactionEventView::Respond(resp)),
        )
    }
}

/// A header that a CANCEL takes over from the INVITE.
pub open spec fn stays_in_cancel(h: HeaderView) -> bool {
    !(h is ContentLength || h is ContentType)
}

/// `headers` with a typed CSeq in the place of the first one.
pub open spec fn with_cseq(headers: Seq<HeaderView>, cseq: CSeq) -> Seq<HeaderView> {
    let i = header::first_index(headers, HeaderKind::CSeq);
    if 0 <= i < headers.len() {
        headers.update(i, HeaderView::CSeq(FieldView::Typed(cseq)))
    } else {
        headers
    }
}

/// The CANCEL of an INVITE: the same request with another method and no body.
pub open spec fn cancel_of(invite: RequestView) -> Result<RequestView, ErrorView> {
    match message::cseq_of(invite.headers) {
        Err(e) => Err(e),
        Ok(cseq) => Ok(
            RequestView {
                method: Method::Cancel,
                uri: invite.uri,
                version: invite.version,
                headers: with_cseq(
                    invite.headers.filter(|h: HeaderView| stays_in_cancel(h)),
                    CSeq { seq: cseq.seq, method: Method::Cancel },
                ),
                body: Seq::empty(),
            },
        ),
    }
}

/// A client sends a CANCEL once a provisional response has come, and before the
/// final one.
pub open spec fn cancel(d: DialogView) -> Result<Option<RequestView>, ErrorView> {
    if d.role == TransactionRole::Client && (d.state is Trying || d.state is Early) {
        match cancel_of(d.initial_request) {
            Ok(r) => Ok(Some(r)),
            Err(e) => Err(e),
        }
    } else {
        Ok(None)
    }
}

/// A CANCEL fails unless it is answered with a 2xx or not at all.
pub open spec fn cancel_outcome(d: DialogView, answer: Option<ResponseView>) -> Result<
    (),
    ErrorView,
> {
    match answer {
        Some(r) if r.status_code.spec_kind() != StatusCodeKind::Successful => Err(
            ErrorView::DialogError(
                "CANCEL failed with response "@ + text::number_text(
                    r.status_code.spec_code() as nat,
                ),
                d.id,
                r.status_code,
            ),
        ),
        _ => Ok(()),
    }
}

/// What a BYE is sent for: an established call, or one that a server has
/// accepted.
pub open spec fn can_bye(d: DialogView) -> bool {
    d.state is Confirmed || (d.role == TransactionRole::Server && d.state is WaitAck)
}

/// Why there is no BYE in the state that `state` is the text of.
pub open spec fn bye_refusal(d: DialogView, state: Seq<char>) -> ErrorView {
    ErrorView::Error("dialog "@ + d.id.text() + " cannot send BYE in state "@ + state)
}

/// The BYE of a dialog. There is none once the dialog is over, and an error
/// before there is a call to end.
pub open spec fn bye(
    d: DialogView,
    ep: EndpointView,
    addrs: Seq<SipAddrView>,
    branch: Seq<char>,
    headers: Option<Seq<HeaderView>>,
) -> (DialogView, Result<Option<RequestView>, ErrorView>) {
    if can_bye(d) {
        sent_request(d, ep, addrs, branch, Method::Bye, headers, Seq::empty())
    } else if d.state is Terminated {
        (d, Ok(None))
    } else {
        (d, Err(bye_refusal(d, dialog::debug_form(d.state))))
    }
}

/// The dialog once its BYE is through.
pub open spec fn bye_done(d: DialogView, r: Result<Option<ResponseView>, ErrorView>) -> (
    DialogView,
    Result<(), ErrorView>,
) {
    match r {
        Err(e) => (d, Err(e)),
        Ok(_) => (
            d.enter(
                DialogStateView::Terminated(
                    d.id,
                    match d.role {
                        TransactionRole::Server => TerminatedReason::UasBye,
                        TransactionRole::Client => TerminatedReason::UacBye,
                    },
                ),
            ),
            Ok(()),
        ),
    }
}

/// A call is ended with a CANCEL while its INVITE is not answered, and with a
/// BYE later.
pub open spec fn hangup(
    d: DialogView,
    ep: EndpointView,
    addrs: Seq<SipAddrView>,
    branch: Seq<char>,
    headers: Option<Seq<HeaderView>>,
) -> (DialogView, Result<EndingView, ErrorView>) {
    if d.state.can_cancel() {
        (
            d,
            match cancel(d) {
                Err(e) => Err(e),
                Ok(None) => Ok(EndingView::Nothing),
                Ok(Some(r)) => Ok(EndingView::Cancel(r)),
            },
        )
    } else {
        let (after, r) = bye(d, ep, addrs, branch, headers);
        (
            after,
            match r {
                Err(e) => Err(e),
                Ok(None) => Ok(EndingView::Nothing),
                Ok(Some(r)) => Ok(EndingView::Bye(r)),
            },
        )
    }
}

/// A request of the dialog, handed out.
pub open spec fn sent_request(
    d: DialogView,
    ep: EndpointView,
    addrs: Seq<SipAddrView>,
    branch: Seq<char>,
    method: Method,
    headers: Option<Seq<HeaderView>>,
    body: Seq<u8>,
) -> (DialogView, Result<Option<RequestView>, ErrorView>) {
    let (after, r) = requests::next_request(d, ep, addrs, branch, method, None, headers, body);
    (
        after,
        match r {
            Ok(req) => Ok(Some(req)),
            Err(e) => Err(e),
        },
    )
}

/// A request within an established call. Before and after there is none.
pub open spec fn call_request(
    d: DialogView,
    ep: EndpointView,
    addrs: Seq<SipAddrView>,
    branch: Seq<char>,
    method: Method,
    headers: Option<Seq<HeaderView>>,
    body: Seq<u8>,
) -> (DialogView, Result<Option<RequestView>, ErrorView>) {
    if d.state is Confirmed {
        sent_request(d, ep, addrs, branch, method, headers, body)
    } else {
        (d, Ok(None))
    }
}

/// `after` is what the end of a call comes to with some addresses of the endpoint
/// and some new branch.
pub open spec fn is_hangup(
    d: DialogView,
    ep: EndpointView,
    headers: Option<Seq<HeaderView>>,
    after: (DialogView, Result<EndingView, ErrorView>),
) -> bool {
    exists|addrs: Seq<SipAddrView>, branch: Seq<char>|
        #[trigger] requests::can_send_with(ep, addrs, branch) && after == hangup(
            d,
            ep,
            addrs,
            branch,
            headers,
        )
}

/// `after` is what the end of a call comes to where only a client ends it: a
/// server sends nothing, and its dialog stays as it is.
pub open spec fn is_client_hangup(
    d: DialogView,
    ep: EndpointView,
    headers: Option<Seq<HeaderView>>,
    after: (DialogView, Result<EndingView, ErrorView>),
) -> bool {
    match d.role {
        TransactionRole::Client => is_hangup(d, ep, headers, after),
        TransactionRole::Server => after == (d, Ok::<EndingView, ErrorView>(EndingView::Nothing)),
    }
}

/// `after` is what a BYE comes to with some addresses of the endpoint and some
/// new branch.
pub open spec fn is_bye(
    d: DialogView,
    ep: EndpointView,
    headers: Option<Seq<HeaderView>>,
    after: (DialogView, Result<Option<RequestView>, ErrorView>),
) -> bool {
    exists|addrs: Seq<SipAddrView>, branch: Seq<char>|
        #[trigger] requests::can_send_with(ep, addrs, branch) && after == bye(
            d,
            ep,
            addrs,
            branch,
            headers,
        )
}

/// `after` is what a request within an established call comes to with some
/// addresses of the endpoint and some new branch.
pub open spec fn is_call_request(
    d: DialogView,
    ep: EndpointView,
    method: Method,
    headers: Option<Seq<HeaderView>>,
    body: Seq<u8>,
    after: (DialogView, Result<Option<RequestView>, ErrorView>),
) -> bool {
    exists|addrs: Seq<SipAddrView>, branch: Seq<char>|
        #[trigger] requests::can_send_with(ep, addrs, branch) && after == call_request(
            d,
            ep,
            addrs,
            branch,
            method,
            headers,
            body,
        )
}

/// The headers of a NOTIFY that tells how a REFER goes on.
pub open spec fn notify_refer_headers(sub_state: Seq<char>) -> Seq<HeaderView> {
    seq![
        HeaderView::Event("refer"@),
        HeaderView::SubscriptionState(sub_state),
        HeaderView::ContentType("message/sipfrag"@),
    ]
}

/// The peer's address, contact and routes as a 2xx to the INVITE gives them.
pub open spec fn with_target_of_2xx(d: DialogView, resp: ResponseView) -> (
    DialogView,
    Result<(), ErrorView>,
) {
    let routed = d.with_route_set_of(resp);
    match header::first_contact(resp.headers) {
        None => (routed, Err(ErrorView::MissingHeader(HeaderKind::Contact))),
        Some(contact) => {
            let known = DialogView { remote_contact: Some(contact), ..routed };
            match message::contact_of(resp.headers) {
                Err(e) => (known, Err(e)),
                Ok(None) => (known, Err(ErrorView::Error("missing Contact header"@))),
                Ok(Some(c)) => (DialogView { remote_uri: c.uri, ..known }, Ok(())),
            }
        },
    }
}

/// The To tag of a final response is taken over.
pub open spec fn with_tag_of(d: DialogView, resp: ResponseView) -> (
    DialogView,
    Result<(), ErrorView>,
) {
    match message::to_tag_of(resp.headers) {
        Err(e) => (d, Err(e)),
        Ok(Some(tag)) => (d.with_remote_tag(tag), Ok(())),
        Ok(None) => (d, Ok(())),
    }
}

/// A 2xx that comes after the CANCEL has made a call, which a BYE ends.
pub open spec fn bye_after_cancel(
    d: DialogView,
    ep: EndpointView,
    addrs: Seq<SipAddrView>,
    branch: Seq<char>,
    resp: ResponseView,
) -> (DialogView, Result<RequestView, ErrorView>) {
    let (d, tag) = with_tag_of(d, resp);
    match tag {
        Err(e) => (d, Err(e)),
        Ok(_) => {
            let (d, target) = with_target_of_2xx(d, resp);
            match target {
                Err(e) => (d, Err(e)),
                Ok(_) => requests::next_request(
                    d,
                    ep,
                    addrs,
                    branch,
                    Method::Bye,
                    None,
                    None,
                    Seq::empty(),
                ),
            }
        },
    }
}

fn one_more(headers: Option<Vec<Header>>, h: Header) -> (r: Option<Vec<Header>>)
    ensures
        requests::headers_of(r) == with_one_more(requests::headers_of(headers), h@),
{
    let mut all: Vec<Header> = match headers {
        Some(hs) => hs,
        None => Vec::new(),
    };
    let ghost before = all.deep_view();
    header::push(&mut all, h);
    assert(all.deep_view() == before.push(h@));
    assert(headers is None ==> all.deep_view() == seq![h@]);
    Some(all)
}

fn keep_in_cancel(headers: &Vec<Header>) -> (r: Vec<Header>)
    ensures
        r.deep_view() == headers.deep_view().filter(|h: HeaderView| stays_in_cancel(h)),
{
    let ghost all = headers.deep_view();
    let ghost keep = |h: HeaderView| stays_in_cancel(h);
    let mut r: Vec<Header> = Vec::new();
    let mut i: usize = 0;
    proof {
        reveal(Seq::filter);
    }
    while i < headers.len()
        invariant
            i <= headers.len(),
            all == headers.deep_view(),
            keep == (|h: HeaderView| stays_in_cancel(h)),
            r.deep_view() == all.take(i as int).filter(keep),
        decreases headers.len() - i,
    {
        proof {
            crate::lists::lemma_filter_step(all, i as int, keep);
        }
        if !matches!(&headers[i], Header::ContentLength(_) | Header::ContentType(_)) {
            header::push(&mut r, headers[i].clone());
        }
        i = i + 1;
    }
    assert(all.take(i as int) == all);
    r
}

impl InviteDialog {
    pub fn from_inner(inner: DialogInner) -> (r: InviteDialog)
        ensures
            r@ == inner@,
    {
        InviteDialog { inner }
    }

    /// The end that this is: the client sent the INVITE.
    pub fn role(&self) -> (r: TransactionRole)
        ensures
            r == self@.role,
    {
        self.inner.role
    }

    pub fn id(&self) -> (r: DialogId)
        ensures
            r@ == self@.id,
    {
        self.inner.id.clone()
    }

    pub fn state(&self) -> (r: DialogState)
        ensures
            r@ == self@.state,
    {
        self.inner.state.clone()
    }

    pub fn snapshot(&self) -> (s: DialogSnapshot)
        ensures
            s@ == snapshot::snapshot_of(self@),
    {
        self.inner.snapshot()
    }

    /// The last ACK of an INVITE that this dialog answered.
    pub fn last_remote_ack(&self) -> (r: Option<Request>)
        ensures
            r.deep_view() == self@.remote_ack,
    {
        self.inner.remote_ack.clone()
    }

    pub fn initial_request(&self) -> (r: Request)
        ensures
            r@ == self@.initial_request,
    {
        self.inner.initial_request.clone()
    }

    fn answer(
        &mut self,
        ep: &mut EndpointInner,
        is_open: bool,
        resp: Response,
        state: DialogState,
    ) -> (r: Result<(), Error>)
        ensures
            ((final(self)@, final(ep)@), error::result_view(r)) == answered(
                (old(self)@, old(ep)@),
                is_open,
                resp@,
                state@,
            ),
    {
        if !is_open {
            return Err(Error::Error("channel closed".to_owned()));
        }
        ep.post(self.inner.tu_channel, TransactionEvent::Respond(resp));
        self.inner.transition(state);
        Ok(())
    }

    /// Rings. `is_open` tells whether the transaction of the INVITE still runs.
    pub fn ringing(
        &mut self,
        ep: &mut EndpointInner,
        is_open: bool,
        headers: Option<Vec<Header>>,
        body: Option<Vec<u8>>,
    ) -> (r: Result<(), Error>)
        ensures
            ((final(self)@, final(ep)@), error::result_view(r)) == ringing(
                (old(self)@, old(ep)@),
                is_open,
                requests::headers_of(headers),
                bytes_of(body),
            ),
    {
        if self.role() != TransactionRole::Server || !self.inner.can_cancel() {
            return Ok(());
        }
        let status = if body.is_some() {
            StatusCode::SessionProgress
        } else {
            StatusCode::Ringing
        };
        let resp = self.inner.make_response(
            &ep.user_agent,
            &self.inner.initial_request,
            status,
            headers,
            body,
        );
        let state = DialogState::Early(self.id(), resp.clone());
        self.answer(ep, is_open, resp, state)
    }

    /// Accepts the INVITE. `is_open` tells whether its transaction still runs.
    pub fn accept(
        &mut self,
        ep: &mut EndpointInner,
        is_open: bool,
        headers: Option<Vec<Header>>,
        body: Option<Vec<u8>>,
    ) -> (r: Result<(), Error>)
        ensures
            ((final(self)@, final(ep)@), error::result_view(r)) == accepted(
                (old(self)@, old(ep)@),
                is_open,
                requests::headers_of(headers),
                requests::body_of(body),
            ),
    {
        if self.role() != TransactionRole::Server {
            return Ok(());
        }
        let resp = self.inner.make_response(
            &ep.user_agent,
            &self.inner.initial_request,
            StatusCode::OK,
            headers,
            body,
        );
        let state = DialogState::WaitAck(self.id(), resp.clone());
        self.answer(ep, is_open, resp, state)
    }

    /// Accepts the INVITE with `contact` as one more Contact.
    pub fn accept_with_public_contact(
        &mut self,
        ep: &mut EndpointInner,
        is_open: bool,
        contact: NameAddr,
        headers: Option<Vec<Header>>,
        body: Option<Vec<u8>>,
    ) -> (r: Result<(), Error>)
        ensures
            ((final(self)@, final(ep)@), error::result_view(r)) == accepted(
                (old(self)@, old(ep)@),
                is_open,
                with_one_more(
                    requests::headers_of(headers),
                    HeaderView::Contact(FieldView::Typed(contact@)),
                ),
                requests::body_of(body),
            ),
    {
        let headers = one_more(headers, Header::Contact(Field::Typed(contact)));
        self.accept(ep, is_open, headers, body)
    }

    /// Rejects the INVITE.
    pub fn reject(
        &mut self,
        ep: &mut EndpointInner,
        code: Option<StatusCode>,
        reason: Option<String>,
    )
        ensures
            (final(self)@, final(ep)@) == rejected(
                (old(self)@, old(ep)@),
                code,
                reason.deep_view(),
            ),
    {
        if self.role() != TransactionRole::Server || self.inner.is_terminated()
            || self.inner.is_confirmed() {
            return;
        }
        let headers = match reason {
            Some(r) => one_more(None, Header::Reason(r)),
            None => None,
        };
        let status = match code {
            Some(c) => c,
            None => StatusCode::Decline,
        };
        let resp = self.inner.make_response(
            &ep.user_agent,
            &self.inner.initial_request,
            status,
            headers,
            None,
        );
        ep.post(self.inner.tu_channel, TransactionEvent::Respond(resp));
        let id = self.id();
        self.inner.transition(DialogState::Terminated(id, TerminatedReason::UasDecline));
    }

    /// The CANCEL of the INVITE, whatever the dialog is at.
    pub fn send_cancel(&self) -> (r: Result<Request, Error>)
        ensures
            error::result_view(r) == cancel_of(self@.initial_request),
    {
        let invite = &self.inner.initial_request;
        let cseq = match message::cseq(&invite.headers) {
            Ok(c) => c,
            Err(e) => return Err(e),
        };
        let mut headers = keep_in_cancel(&invite.headers);
        let i: usize = header::index_of(&headers, HeaderKind::CSeq);
        if i < headers.len() {
            let cseq = CSeq { seq: cseq.seq, method: Method::Cancel };
            header::replace(&mut headers, i, Header::CSeq(Field::Typed(cseq)));
        }
        Ok(
            Request {
                method: Method::Cancel,
                uri: invite.uri.clone(),
                version: invite.version,
                headers,
                body: Vec::new(),
            },
        )
    }

    /// The CANCEL of an INVITE that has got a provisional response and no final
    /// one.
    pub fn cancel(&self) -> (r: Result<Option<Request>, Error>)
        ensures
            error::result_view(r) == cancel(self@),
    {
        if self.role() != TransactionRole::Client || !matches!(
            &self.inner.state,
            DialogState::Trying(_) | DialogState::Early(_, _)
        ) {
            return Ok(None);
        }
        match self.send_cancel() {
            Ok(r) => Ok(Some(r)),
            Err(e) => Err(e),
        }
    }

    /// Takes the answer to the CANCEL.
    pub fn cancel_answered(&self, answer: Option<Response>) -> (r: Result<(), Error>)
        ensures
            error::result_view(r) == cancel_outcome(self@, answer.deep_view()),
    {
        let Some(response) = answer else {
            return Ok(());
        };
        let status = response.status_code;
        if status.kind() != StatusCodeKind::Successful {
            let mut text = "CANCEL failed with response ".to_owned();
            text.append(text::number_to_text(status.code() as u32).as_str());
            return Err(Error::DialogError(text, self.id(), status));
        }
        Ok(())
    }

    /// Ends the call with a request from one of the addresses given; `headers` go
    /// with a BYE.
    pub fn hangup_from(
        &mut self,
        ep: &EndpointInner,
        addrs: &Vec<SipAddr>,
        branch: &String,
        headers: Option<Vec<Header>>,
    ) -> (r: Result<Ending, Error>)
        ensures
            (final(self)@, error::result_view(r)) == hangup(
                old(self)@,
                ep@,
                addrs.deep_view(),
                branch@,
                requests::headers_of(headers),
            ),
    {
        if self.inner.can_cancel() {
            match self.cancel() {
                Err(e) => Err(e),
                Ok(None) => Ok(Ending::Nothing),
                Ok(Some(r)) => Ok(Ending::Cancel(r)),
            }
        } else {
            match self.bye_from(ep, addrs, branch, headers) {
                Err(e) => Err(e),
                Ok(None) => Ok(Ending::Nothing),
                Ok(Some(r)) => Ok(Ending::Bye(r)),
            }
        }
    }

    /// Ends the call of a client. A server does nothing here: it ends its call by
    /// `hangup_with_headers`.
    pub fn hangup(
        &mut self,
        ep: &EndpointInner,
    ) -> (r: Result<Ending, Error>)
        ensures
            is_client_hangup(
                old(self)@,
                ep@,
                None,
                (final(self)@, error::result_view(r)),
            ),
    {
        if self.role() != TransactionRole::Client {
            return Ok(Ending::Nothing);
        }
        self.hangup_with_headers(ep, None)
    }

    /// Ends the call, at either end of it; `headers` go with a BYE.
    pub fn hangup_with_headers(
        &mut self,
        ep: &EndpointInner,
        headers: Option<Vec<Header>>,
    ) -> (r: Result<Ending, Error>)
        ensures
            is_hangup(
                old(self)@,
                ep@,
                requests::headers_of(headers),
                (final(self)@, error::result_view(r)),
            ),
    {
        let addrs = ep.get_addrs();
        let branch = ids::make_branch();
        assert(requests::can_send_with(ep@, addrs.deep_view(), branch@));
        self.hangup_from(ep, &addrs, &branch, headers)
    }

    /// Ends the call of a client; a BYE says why. A server does nothing here.
    pub fn hangup_with_reason(
        &mut self,
        ep: &EndpointInner,
        reason: String,
    ) -> (r: Result<Ending, Error>)
        ensures
            is_client_hangup(
                old(self)@,
                ep@,
                Some(seq![HeaderView::Reason(reason@)]),
                (final(self)@, error::result_view(r)),
            ),
    {
        if self.role() != TransactionRole::Client {
            return Ok(Ending::Nothing);
        }
        let headers = one_more(None, Header::Reason(reason));
        self.hangup_with_headers(ep, headers)
    }

    fn make(
        &mut self,
        ep: &EndpointInner,
        addrs: &Vec<SipAddr>,
        branch: &String,
        method: Method,
        headers: Option<Vec<Header>>,
        body: Option<Vec<u8>>,
    ) -> (r: Result<Option<Request>, Error>)
        ensures
            (final(self)@, error::result_view(r)) == sent_request(
                old(self)@,
                ep@,
                addrs.deep_view(),
                branch@,
                method,
                requests::headers_of(headers),
                requests::body_of(body),
            ),
    {
        match self.inner.make_request(ep, addrs, branch, method, None, headers, body) {
            Ok(r) => Ok(Some(r)),
            Err(e) => Err(e),
        }
    }

    /// Why there is no BYE in the state that `state` is the text of.
    pub fn bye_refused(&self, state: &str) -> (e: Error)
        ensures
            e@ == bye_refusal(self@, state@),
    {
        let mut text = "dialog ".to_owned();
        text.append(self.inner.id.text().as_str());
        text.append(" cannot send BYE in state ");
        text.append(state);
        Error::Error(text)
    }

    /// The BYE of the call, from one of the addresses given.
    pub fn bye_from(
        &mut self,
        ep: &EndpointInner,
        addrs: &Vec<SipAddr>,
        branch: &String,
        headers: Option<Vec<Header>>,
    ) -> (r: Result<Option<Request>, Error>)
        ensures
            (final(self)@, error::result_view(r)) == bye(
                old(self)@,
                ep@,
                addrs.deep_view(),
                branch@,
                requests::headers_of(headers),
            ),
    {
        let can_bye = self.inner.is_confirmed() || (self.role() == TransactionRole::Server
            && self.inner.waiting_ack());
        if !can_bye {
            if self.inner.is_terminated() {
                return Ok(None);
            }
            return Err(self.bye_refused(self.inner.state.debug_text().as_str()));
        }
        self.make(ep, addrs, branch, Method::Bye, headers, None)
    }

    /// The BYE of the call.
    pub fn bye(
        &mut self,
        ep: &EndpointInner,
    ) -> (r: Result<Option<Request>, Error>)
        ensures
            is_bye(
                old(self)@,
                ep@,
                None,
                (final(self)@, error::result_view(r)),
            ),
    {
        self.bye_with_headers(ep, None)
    }

    /// The BYE of the call, with more headers.
    pub fn bye_with_headers(
        &mut self,
        ep: &EndpointInner,
        headers: Option<Vec<Header>>,
    ) -> (r: Result<Option<Request>, Error>)
        ensures
            is_bye(
                old(self)@,
                ep@,
                requests::headers_of(headers),
                (final(self)@, error::result_view(r)),
            ),
    {
        let addrs = ep.get_addrs();
        let branch = ids::make_branch();
        assert(requests::can_send_with(ep@, addrs.deep_view(), branch@));
        self.bye_from(ep, &addrs, &branch, headers)
    }

    /// The BYE of the call, which says why.
    pub fn bye_with_reason(
        &mut self,
        ep: &EndpointInner,
        reason: String,
    ) -> (r: Result<Option<Request>, Error>)
        ensures
            is_bye(
                old(self)@,
                ep@,
                Some(seq![HeaderView::Reason(reason@)]),
                (final(self)@, error::result_view(r)),
            ),
    {
        let headers = one_more(None, Header::Reason(reason));
        self.bye_with_headers(ep, headers)
    }

    /// Takes the answer to the BYE.
    pub fn bye_answered(&mut self, r: Result<Option<Response>, Error>) -> (out: Result<(), Error>)
        ensures
            (final(self)@, error::result_view(out)) == bye_done(old(self)@, error::result_view(r)),
    {
        match r {
            Err(e) => Err(e),
            Ok(_) => {
                let reason = match self.role() {
                    TransactionRole::Server => TerminatedReason::UasBye,
                    TransactionRole::Client => TerminatedReason::UacBye,
                };
                let id = self.id();
                self.inner.transition(DialogState::Terminated(id, reason));
                Ok(())
            },
        }
    }

    /// A request within the established call, from one of the addresses given.
    pub fn request_from(
        &mut self,
        ep: &EndpointInner,
        addrs: &Vec<SipAddr>,
        branch: &String,
        method: Method,
        headers: Option<Vec<Header>>,
        body: Option<Vec<u8>>,
    ) -> (r: Result<Option<Request>, Error>)
        ensures
            (final(self)@, error::result_view(r)) == call_request(
                old(self)@,
                ep@,
                addrs.deep_view(),
                branch@,
                method,
                requests::headers_of(headers),
                requests::body_of(body),
            ),
    {
        if !self.inner.is_confirmed() {
            return Ok(None);
        }
        self.make(ep, addrs, branch, method, headers, body)
    }

    /// A request within the established call.
    pub fn request(
        &mut self,
        ep: &EndpointInner,
        method: Method,
        headers: Option<Vec<Header>>,
        body: Option<Vec<u8>>,
    ) -> (r: Result<Option<Request>, Error>)
        ensures
            is_call_request(
                old(self)@,
                ep@,
                method,
                requests::headers_of(headers),
                requests::body_of(body),
                (final(self)@, error::result_view(r)),
            ),
    {
        let addrs = ep.get_addrs();
        let branch = ids::make_branch();
        assert(requests::can_send_with(ep@, addrs.deep_view(), branch@));
        self.request_from(ep, &addrs, &branch, method, headers, body)
    }

    /// A re-INVITE, which changes the session.
    pub fn reinvite(
        &mut self,
        ep: &EndpointInner,
        headers: Option<Vec<Header>>,
        body: Option<Vec<u8>>,
    ) -> (r: Result<Option<Request>, Error>)
        ensures
            is_call_request(
                old(self)@,
                ep@,
                Method::Invite,
                requests::headers_of(headers),
                requests::body_of(body),
                (final(self)@, error::result_view(r)),
            ),
    {
        self.request(ep, Method::Invite, headers, body)
    }

    /// An UPDATE, which changes the session.
    pub fn update(
        &mut self,
        ep: &EndpointInner,
        headers: Option<Vec<Header>>,
        body: Option<Vec<u8>>,
    ) -> (r: Result<Option<Request>, Error>)
        ensures
            is_call_request(
                old(self)@,
                ep@,
                Method::Update,
                requests::headers_of(headers),
                requests::body_of(body),
                (final(self)@, error::result_view(r)),
            ),
    {
        self.request(ep, Method::Update, headers, body)
    }

    /// An INFO.
    pub fn info(
        &mut self,
        ep: &EndpointInner,
        headers: Option<Vec<Header>>,
        body: Option<Vec<u8>>,
    ) -> (r: Result<Option<Request>, Error>)
        ensures
            is_call_request(
                old(self)@,
                ep@,
                Method::Info,
                requests::headers_of(headers),
                requests::body_of(body),
                (final(self)@, error::result_view(r)),
            ),
    {
        self.request(ep, Method::Info, headers, body)
    }

    /// A NOTIFY.
    pub fn notify(
        &mut self,
        ep: &EndpointInner,
        headers: Option<Vec<Header>>,
        body: Option<Vec<u8>>,
    ) -> (r: Result<Option<Request>, Error>)
        ensures
            is_call_request(
                old(self)@,
                ep@,
                Method::Notify,
                requests::headers_of(headers),
                requests::body_of(body),
                (final(self)@, error::result_view(r)),
            ),
    {
        self.request(ep, Method::Notify, headers, body)
    }

    /// A MESSAGE.
    pub fn message(
        &mut self,
        ep: &EndpointInner,
        headers: Option<Vec<Header>>,
        body: Option<Vec<u8>>,
    ) -> (r: Result<Option<Request>, Error>)
        ensures
            is_call_request(
                old(self)@,
                ep@,
                Method::Message,
                requests::headers_of(headers),
                requests::body_of(body),
                (final(self)@, error::result_view(r)),
            ),
    {
        self.request(ep, Method::Message, headers, body)
    }

    /// An OPTIONS, which only a client sends.
    pub fn options(&mut self, ep: &EndpointInner, headers: Option<Vec<Header>>) -> (r: Result<
        Option<Request>,
        Error,
    >)
        ensures
            if old(self)@.role == TransactionRole::Client {
                is_call_request(
                    old(self)@,
                    ep@,
                    Method::Options,
                    requests::headers_of(headers),
                    Seq::empty(),
                    (final(self)@, error::result_view(r)),
                )
            } else {
                final(self)@ == old(self)@ && r matches Ok(None)
            },
    {
        if self.role() != TransactionRole::Client {
            return Ok(None);
        }
        self.request(ep, Method::Options, headers, None)
    }

    /// A REFER, which transfers the call to `refer_to`.
    pub fn refer(
        &mut self,
        ep: &EndpointInner,
        refer_to: String,
        headers: Option<Vec<Header>>,
        body: Option<Vec<u8>>,
    ) -> (r: Result<Option<Request>, Error>)
        ensures
            is_call_request(
                old(self)@,
                ep@,
                Method::Refer,
                with_one_more(requests::headers_of(headers), HeaderView::ReferTo(refer_to@)),
                requests::body_of(body),
                (final(self)@, error::result_view(r)),
            ),
    {
        let headers = one_more(headers, Header::ReferTo(refer_to));
        self.request(ep, Method::Refer, headers, body)
    }

    /// A NOTIFY that tells how a REFER goes on.
    pub fn notify_refer(
        &mut self,
        ep: &EndpointInner,
        status: StatusCode,
        sub_state: &str,
    ) -> (r: Result<Option<Request>, Error>)
        ensures
            is_call_request(
                old(self)@,
                ep@,
                Method::Notify,
                Some(notify_refer_headers(sub_state@)),
                encode_utf8(refer::status_line(status)),
                (final(self)@, error::result_view(r)),
            ),
    {
        let mut headers: Vec<Header> = Vec::new();
        header::push(&mut headers, Header::Event("refer".to_owned()));
        header::push(&mut headers, Header::SubscriptionState(sub_state.to_owned()));
        header::push(&mut headers, Header::ContentType("message/sipfrag".to_owned()));
        assert(headers.deep_view() == notify_refer_headers(sub_state@));
        let body = refer::status_body(status);
        self.notify(ep, Some(headers), Some(body))
    }

    /// Takes the route set, the Contact and the remote target from a 2xx to the
    /// INVITE.
    pub(crate) fn update_remote_target_from_2xx(&mut self, resp: &Response) -> (r: Result<
        (),
        Error,
    >)
        ensures
            (final(self)@, error::result_view(r)) == with_target_of_2xx(old(self)@, resp@),
    {
        self.inner.update_route_set_from_response(resp);
        let Some(contact) = header::find_contact(&resp.headers) else {
            return Err(Error::MissingHeader(HeaderKind::Contact));
        };
        self.inner.remote_contact = Some(contact);
        match message::contact(&resp.headers) {
            Err(e) => Err(e),
            Ok(None) => Err(Error::Error("missing Contact header".to_owned())),
            Ok(Some(c)) => {
                self.inner.remote_uri = c.uri;
                Ok(())
            },
        }
    }

    pub(crate) fn take_tag_of(&mut self, resp: &Response) -> (r: Result<(), Error>)
        ensures
            (final(self)@, error::result_view(r)) == with_tag_of(old(self)@, resp@),
    {
        match message::to_tag(&resp.headers) {
            Err(e) => Err(e),
            Ok(Some(tag)) => {
                self.inner.update_remote_tag(tag.as_str());
                Ok(())
            },
            Ok(None) => Ok(()),
        }
    }

    /// The BYE that ends the call which a 2xx made after the CANCEL.
    pub fn bye_2xx_after_cancel(
        &mut self,
        ep: &EndpointInner,
        addrs: &Vec<SipAddr>,
        branch: &String,
        resp: &Response,
    ) -> (r: Result<Request, Error>)
        ensures
            (final(self)@, error::result_view(r)) == bye_after_cancel(
                old(self)@,
                ep@,
                addrs.deep_view(),
                branch@,
                resp@,
            ),
    {
        if let Err(e) = self.take_tag_of(resp) {
            return Err(e);
        }
        if let Err(e) = self.update_remote_target_from_2xx(resp) {
            return Err(e);
        }
        self.inner.make_request(ep, addrs, branch, Method::Bye, None, None, None)
    }
}

}
